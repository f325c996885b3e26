//! The ECR operations as state machines: `push_to_ecr` (build, tag and push
//! an image with a version tag) and `ecr_login` (log Docker in to a
//! registry, renewing an expired SSO session first). They are driven like
//! the machines of [`crate::flows`].

use crate::aws::{
    aws_cli_check_plan, docker_check_plan, docker_login_plan, docker_login_spec, ecr_login_menu,
    ecr_login_menu_spec, ecr_login_notice, login_password, login_password_args,
    login_password_plan, menu_choice_spec, select_ecr_registry, sso_login_plan,
    sso_session_check_plan, which_plan_spec, MenuChoice, RegistryPick, ACCOUNT_PROMPT, REGION_PROMPT,
    SSO_EXPIRED_NOTICE, aws_plan_spec,
};
use crate::command::{outcome_spec, InputView, PlanView, RunEvent};
use crate::config::EcrRegistry;
use crate::docker::{
    build_args_spec, build_image_plan, describe_images_plan, describe_images_spec,
    docker_plan_spec, ecr_url, ecr_url_spec, image_menu, image_menu_spec, increments_fit,
    latest_version_from_output, latest_version_spec, new_version, new_version_spec, no_registries,
    push_steps, push_steps_spec, registry_menu, registry_menu_spec, step_views, tagged,
    version_menu, version_menu_spec, PushStep, VERSION_DEFAULT, DEFAULT_TAG, IMAGE_NAME_PROMPT, IMAGE_PROMPT,
    PUSH_DONE, REGISTRY_PROMPT, VERSION_PROMPT,
};
use crate::error::{error_value, StoolErrorType};
use crate::flows::{no_lines, one_line, Prompt, PromptView, Reply, Step, StepView};
use crate::text::{opt_view, trim_spec, views};
use vstd::prelude::*;
use vstd::string::*;

verus! {

// ---------------------------------------------------------------------------
// push_to_ecr
// ---------------------------------------------------------------------------
/// Where `push_to_ecr` stands. The first number is always the index of the
/// chosen registry.
pub enum PushState {
    Start,
    /// The registry menu was shown.
    Registry,
    /// The image menu was shown.
    Image(usize),
    /// The image name was asked for.
    ImageName(usize),
    /// The image is being built.
    Building(usize, String),
    /// ECR is being asked for the newest tag of the image.
    Describing(usize, String),
    /// The version menu was shown; the current tag is kept.
    Versions(usize, String, Option<String>),
    /// The tag and push step with the last index runs for the version.
    Pushing(usize, String, String, usize),
}

/// The mathematical value of a [`PushState`].
pub enum PushView {
    Start,
    Registry,
    Image(nat),
    ImageName(nat),
    Building(nat, Seq<char>),
    Describing(nat, Seq<char>),
    Versions(nat, Seq<char>, Option<Seq<char>>),
    Pushing(nat, Seq<char>, Seq<char>, nat),
}

impl View for PushState {
    type V = PushView;

    open spec fn view(&self) -> PushView {
        match self {
            PushState::Start => PushView::Start,
            PushState::Registry => PushView::Registry,
            PushState::Image(r) => PushView::Image(*r as nat),
            PushState::ImageName(r) => PushView::ImageName(*r as nat),
            PushState::Building(r, i) => PushView::Building(*r as nat, i@),
            PushState::Describing(r, i) => PushView::Describing(*r as nat, i@),
            PushState::Versions(r, i, c) => PushView::Versions(*r as nat, i@, opt_view(*c)),
            PushState::Pushing(r, i, v, j) => PushView::Pushing(*r as nat, i@, v@, *j as nat),
        }
    }
}

/// The registry URL of registry `r`.
pub open spec fn url_of(regs: Seq<EcrRegistry>, r: nat) -> Seq<char> {
    ecr_url_spec(regs[r as int].account_id@, regs[r as int].region@)
}

/// Whether `reply` answers what `push_to_ecr` asked in `state`. Left out:
/// a registry index past the menu (the registry list is indexed with it,
/// which would panic) and a current tag whose offered increments overflow
/// a `u32`.
pub open spec fn push_expects(regs: Seq<EcrRegistry>, state: PushView, reply: Reply) -> bool {
    match state {
        PushView::Start => reply is Begin,
        PushView::Registry => reply matches Reply::Picked(i) && i < regs.len(),
        PushView::Image(r) => r < regs.len() && reply is Picked,
        PushView::ImageName(r) => r < regs.len() && reply is Typed,
        PushView::Building(r, _) => r < regs.len() && reply is Ran,
        PushView::Describing(r, _) => r < regs.len() && match reply {
            Reply::Output(ev, out) => match ev {
                RunEvent::Exited(ok) => increments_fit(latest_version_spec(ok, out@)),
                _ => true,
            },
            _ => false,
        },
        PushView::Versions(r, _, cur) => r < regs.len() && reply is Picked && increments_fit(cur),
        PushView::Pushing(r, image, v, j) => r < regs.len() && reply is Ran && j
            < push_steps_spec(url_of(regs, r), image, v).len(),
    }
}

/// The step that builds `image` for registry `r`.
pub open spec fn push_build_run(r: nat, image: Seq<char>) -> StepView<PushView> {
    StepView::Run {
        next: PushView::Building(r, image),
        notices: seq!["Building Docker image: "@ + tagged(image, DEFAULT_TAG@)],
        plan: docker_plan_spec(build_args_spec(image)),
    }
}

/// The step that runs tag-and-push step `j` for `version`.
pub open spec fn push_step_run(
    regs: Seq<EcrRegistry>,
    r: nat,
    image: Seq<char>,
    version: Seq<char>,
    j: nat,
) -> StepView<PushView> {
    let st = push_steps_spec(url_of(regs, r), image, version)[j as int];
    StepView::Run {
        next: PushView::Pushing(r, image, version, j),
        notices: seq![st.notice],
        plan: st.plan,
    }
}

/// One step of `push_to_ecr`: no registry is an error; otherwise pick a
/// registry and an image as `build_only` does, build it, ask ECR for the
/// newest tag, offer the version menu for it, then run the tag and push
/// steps of the picked version one after the other, stopping at the first
/// failure.
pub open spec fn push_spec(regs: Seq<EcrRegistry>, state: PushView, reply: Reply) -> StepView<
    PushView,
> {
    match state {
        PushView::Start => if regs.len() == 0 {
            StepView::Finish {
                notices: Seq::empty(),
                result: Err(
                    error_value(
                        StoolErrorType::ConfigLoadFailed,
                        Some("No ECR registries configured"@),
                        None,
                    ),
                ),
            }
        } else {
            StepView::Ask {
                next: PushView::Registry,
                notices: Seq::empty(),
                prompt: PromptView::Choose {
                    title: REGISTRY_PROMPT@,
                    items: registry_menu_spec(regs),
                    default: 0,
                },
            }
        },
        PushView::Registry => match reply {
            Reply::Picked(i) => {
                let images = views(regs[i as int].images@);
                if images.len() == 0 {
                    StepView::Ask {
                        next: PushView::ImageName(i as nat),
                        notices: Seq::empty(),
                        prompt: PromptView::Text { title: IMAGE_NAME_PROMPT@ },
                    }
                } else {
                    StepView::Ask {
                        next: PushView::Image(i as nat),
                        notices: Seq::empty(),
                        prompt: PromptView::Choose {
                            title: IMAGE_PROMPT@,
                            items: image_menu_spec(images),
                            default: 0,
                        },
                    }
                }
            },
            _ => StepView::Finish { notices: Seq::empty(), result: Ok(()) },
        },
        PushView::Image(r) => match reply {
            Reply::Picked(j) => {
                let images = views(regs[r as int].images@);
                if j < images.len() {
                    push_build_run(r, images[j as int])
                } else {
                    StepView::Ask {
                        next: PushView::ImageName(r),
                        notices: Seq::empty(),
                        prompt: PromptView::Text { title: IMAGE_NAME_PROMPT@ },
                    }
                }
            },
            _ => StepView::Finish { notices: Seq::empty(), result: Ok(()) },
        },
        PushView::ImageName(r) => match reply {
            Reply::Typed(n) => push_build_run(r, n@),
            _ => StepView::Finish { notices: Seq::empty(), result: Ok(()) },
        },
        PushView::Building(r, image) => match reply {
            Reply::Ran(ev) => match outcome_spec(docker_plan_spec(build_args_spec(image)), ev) {
                Ok(()) => StepView::Run {
                    next: PushView::Describing(r, image),
                    notices: seq!["Build completed successfully"@],
                    plan: describe_images_spec(image, regs[r as int].region@),
                },
                Err(e) => StepView::Finish { notices: Seq::empty(), result: Err(e) },
            },
            _ => StepView::Finish { notices: Seq::empty(), result: Ok(()) },
        },
        PushView::Describing(r, image) => match reply {
            Reply::Output(ev, out) => match ev {
                RunEvent::Exited(ok) => {
                    let cur = latest_version_spec(ok, out@);
                    StepView::Ask {
                        next: PushView::Versions(r, image, cur),
                        notices: Seq::empty(),
                        prompt: PromptView::Choose {
                            title: VERSION_PROMPT@,
                            items: version_menu_spec(cur),
                            default: VERSION_DEFAULT,
                        },
                    }
                },
                _ => StepView::Finish {
                    notices: Seq::empty(),
                    result: outcome_spec(describe_images_spec(image, regs[r as int].region@), ev),
                },
            },
            _ => StepView::Finish { notices: Seq::empty(), result: Ok(()) },
        },
        PushView::Versions(r, image, cur) => match reply {
            Reply::Picked(k) => match new_version_spec(cur, k as nat) {
                Ok(v) => push_step_run(regs, r, image, v, 0),
                Err(e) => StepView::Finish { notices: Seq::empty(), result: Err(e) },
            },
            _ => StepView::Finish { notices: Seq::empty(), result: Ok(()) },
        },
        PushView::Pushing(r, image, v, j) => match reply {
            Reply::Ran(ev) => {
                let steps = push_steps_spec(url_of(regs, r), image, v);
                match outcome_spec(steps[j as int].plan, ev) {
                    Ok(()) => if j + 1 < steps.len() {
                        push_step_run(regs, r, image, v, j + 1)
                    } else {
                        StepView::Finish { notices: seq![PUSH_DONE@], result: Ok(()) }
                    },
                    Err(e) => StepView::Finish { notices: Seq::empty(), result: Err(e) },
                }
            },
            _ => StepView::Finish { notices: Seq::empty(), result: Ok(()) },
        },
    }
}

/// The step that builds `image` for registry `r`.
fn make_build_run(r: usize, image: String) -> (res: Step<PushState>)
    ensures
        res@ == push_build_run(r as nat, image@),
{
    let (notice, plan, _) = build_image_plan(image.as_str());
    Step::Run { next: PushState::Building(r, image), notices: one_line(notice), plan }
}

/// The step that runs tag-and-push step `j` for `version`.
fn make_push_run(regs: &[EcrRegistry], r: usize, image: String, version: String, j: usize) -> (res:
    Step<PushState>)
    requires
        r < regs.len(),
        j < push_steps_spec(url_of(regs@, r as nat), image@, version@).len(),
    ensures
        res@ == push_step_run(regs@, r as nat, image@, version@, j as nat),
{
    let url = ecr_url(regs[r].account_id.as_str(), regs[r].region.as_str());
    let mut steps = push_steps(url.as_str(), image.as_str(), version.as_str());
    proof {
        assert(step_views(steps@).len() == steps@.len());
        assert(step_views(steps@)[j as int] == steps@[j as int]@);
    }
    let st: PushStep = steps.remove(j);
    Step::Run {
        next: PushState::Pushing(r, image, version, j),
        notices: one_line(st.notice),
        plan: st.plan,
    }
}

/// The image-name question.
fn name_question() -> (res: Prompt)
    ensures
        res@ == (PromptView::Text { title: IMAGE_NAME_PROMPT@ }),
{
    Prompt::Text { title: String::from_str(IMAGE_NAME_PROMPT) }
}

/// Runs one step of `push_to_ecr`: build, tag and push an image to ECR.
pub fn push_to_ecr(regs: &[EcrRegistry], state: PushState, reply: Reply) -> (res: Step<PushState>)
    requires
        push_expects(regs@, state@, reply),
    ensures
        res@ == push_spec(regs@, state@, reply),
{
    match state {
        PushState::Start => {
            if regs.len() == 0 {
                Step::Finish { notices: no_lines(), result: Err(no_registries()) }
            } else {
                Step::Ask {
                    next: PushState::Registry,
                    notices: no_lines(),
                    prompt: Prompt::Choose {
                        title: String::from_str(REGISTRY_PROMPT),
                        items: registry_menu(regs),
                        default: 0,
                    },
                }
            }
        },
        PushState::Registry => match reply {
            Reply::Picked(i) => {
                let images = &regs[i].images;
                if images.len() == 0 {
                    Step::Ask { next: PushState::ImageName(i), notices: no_lines(), prompt: name_question() }
                } else {
                    Step::Ask {
                        next: PushState::Image(i),
                        notices: no_lines(),
                        prompt: Prompt::Choose {
                            title: String::from_str(IMAGE_PROMPT),
                            items: image_menu(images),
                            default: 0,
                        },
                    }
                }
            },
            _ => Step::Finish { notices: no_lines(), result: Ok(()) },
        },
        PushState::Image(r) => match reply {
            Reply::Picked(j) => {
                let images = &regs[r].images;
                if j < images.len() {
                    assert(views(images@)[j as int] == images@[j as int]@);
                    make_build_run(r, images[j].clone())
                } else {
                    Step::Ask { next: PushState::ImageName(r), notices: no_lines(), prompt: name_question() }
                }
            },
            _ => Step::Finish { notices: no_lines(), result: Ok(()) },
        },
        PushState::ImageName(r) => match reply {
            Reply::Typed(n) => make_build_run(r, n),
            _ => Step::Finish { notices: no_lines(), result: Ok(()) },
        },
        PushState::Building(r, image) => match reply {
            Reply::Ran(ev) => {
                let (_, plan, done) = build_image_plan(image.as_str());
                match plan.outcome(&ev) {
                    Ok(()) => {
                        let describe = describe_images_plan(image.as_str(), regs[r].region.as_str());
                        Step::Run {
                            next: PushState::Describing(r, image),
                            notices: one_line(done),
                            plan: describe,
                        }
                    },
                    Err(e) => Step::Finish { notices: no_lines(), result: Err(e) },
                }
            },
            _ => Step::Finish { notices: no_lines(), result: Ok(()) },
        },
        PushState::Describing(r, image) => match reply {
            Reply::Output(ev, out) => match ev {
                RunEvent::Exited(ok) => {
                    let cur = latest_version_from_output(ok, out.as_str());
                    let items = version_menu(crate::flows::opt_as_str(&cur));
                    Step::Ask {
                        next: PushState::Versions(r, image, cur),
                        notices: no_lines(),
                        prompt: Prompt::Choose {
                            title: String::from_str(VERSION_PROMPT),
                            items,
                            default: VERSION_DEFAULT,
                        },
                    }
                },
                _ => {
                    let describe = describe_images_plan(image.as_str(), regs[r].region.as_str());
                    Step::Finish { notices: no_lines(), result: describe.outcome(&ev) }
                },
            },
            _ => Step::Finish { notices: no_lines(), result: Ok(()) },
        },
        PushState::Versions(r, image, cur) => match reply {
            Reply::Picked(k) => match new_version(crate::flows::opt_as_str(&cur), k) {
                Ok(v) => {
                    proof {
                        let url = url_of(regs@, r as nat);
                        assert(push_steps_spec(url, image@, v@).len() > 0);
                    }
                    make_push_run(regs, r, image, v, 0)
                },
                Err(e) => Step::Finish { notices: no_lines(), result: Err(e) },
            },
            _ => Step::Finish { notices: no_lines(), result: Ok(()) },
        },
        PushState::Pushing(r, image, v, j) => match reply {
            Reply::Ran(ev) => {
                let url = ecr_url(regs[r].account_id.as_str(), regs[r].region.as_str());
                let steps = push_steps(url.as_str(), image.as_str(), v.as_str());
                proof {
                    assert(step_views(steps@)[j as int] == steps@[j as int]@);
                }
                let n = steps.len();
                match steps[j].plan.outcome(&ev) {
                    Ok(()) => {
                        if j + 1 < n {
                            make_push_run(regs, r, image, v, j + 1)
                        } else {
                            Step::Finish { notices: one_line(String::from_str(PUSH_DONE)), result: Ok(()) }
                        }
                    },
                    Err(e) => Step::Finish { notices: no_lines(), result: Err(e) },
                }
            },
            _ => Step::Finish { notices: no_lines(), result: Ok(()) },
        },
    }
}

// ---------------------------------------------------------------------------
// ecr_login
// ---------------------------------------------------------------------------
/// Where `ecr_login` stands.
pub enum LoginState {
    Start,
    /// `which aws` runs.
    CheckingAws,
    /// `which docker` runs.
    CheckingDocker,
    /// The registry menu was shown.
    Menu,
    /// The account was asked for.
    Account,
    /// The region was asked for; the account is known.
    Region(String),
    /// The SSO session of the profile is checked (account, region, profile).
    CheckingSession(String, String, String),
    /// The SSO session of the profile is renewed.
    Renewing(String, String, String),
    /// The ECR password is fetched (account, region, profile).
    Fetching(String, String, Option<String>),
    /// Docker logs in (account, region).
    LoggingIn(String, String),
}

/// The mathematical value of a [`LoginState`].
pub enum LoginView {
    Start,
    CheckingAws,
    CheckingDocker,
    Menu,
    Account,
    Region(Seq<char>),
    CheckingSession(Seq<char>, Seq<char>, Seq<char>),
    Renewing(Seq<char>, Seq<char>, Seq<char>),
    Fetching(Seq<char>, Seq<char>, Option<Seq<char>>),
    LoggingIn(Seq<char>, Seq<char>),
}

impl View for LoginState {
    type V = LoginView;

    open spec fn view(&self) -> LoginView {
        match self {
            LoginState::Start => LoginView::Start,
            LoginState::CheckingAws => LoginView::CheckingAws,
            LoginState::CheckingDocker => LoginView::CheckingDocker,
            LoginState::Menu => LoginView::Menu,
            LoginState::Account => LoginView::Account,
            LoginState::Region(a) => LoginView::Region(a@),
            LoginState::CheckingSession(a, r, p) => LoginView::CheckingSession(a@, r@, p@),
            LoginState::Renewing(a, r, p) => LoginView::Renewing(a@, r@, p@),
            LoginState::Fetching(a, r, p) => LoginView::Fetching(a@, r@, opt_view(*p)),
            LoginState::LoggingIn(a, r) => LoginView::LoggingIn(a@, r@),
        }
    }
}

/// Whether `reply` answers what `ecr_login` asked in `state`.
pub open spec fn login_expects(state: LoginView, reply: Reply) -> bool {
    match state {
        LoginView::Start => reply is Begin,
        LoginView::CheckingAws => reply is Output,
        LoginView::CheckingDocker => reply is Output,
        LoginView::Menu => reply is Picked,
        LoginView::Account => reply is Typed,
        LoginView::Region(_) => reply is Typed,
        LoginView::CheckingSession(..) => reply is Output,
        LoginView::Renewing(..) => reply is Ran,
        LoginView::Fetching(..) => reply is Output,
        LoginView::LoggingIn(..) => reply is Ran,
    }
}

/// The check that the AWS CLI is installed.
pub open spec fn aws_check_spec() -> PlanView {
    which_plan_spec(
        "aws"@,
        StoolErrorType::AwsCliNotInstalled,
        "AWS CLI is not installed. Install it via: brew install awscli"@,
    )
}

/// The check that Docker is installed.
pub open spec fn docker_check_spec() -> PlanView {
    which_plan_spec(
        "docker"@,
        StoolErrorType::DockerNotInstalled,
        "Docker is not installed. Install it via: brew install docker"@,
    )
}

/// The check of the SSO session of `profile`.
pub open spec fn session_check_spec(profile: Seq<char>) -> PlanView {
    PlanView {
        input: InputView::Capture,
        ..aws_plan_spec(
            seq!["sts"@, "get-caller-identity"@, "--profile"@, profile],
            "SSO login failed"@,
        )
    }
}

/// The renewal of the SSO session of `profile`.
pub open spec fn renew_spec(profile: Seq<char>) -> PlanView {
    aws_plan_spec(seq!["sso"@, "login"@, "--profile"@, profile], "SSO login failed"@)
}

/// Fetching the ECR password.
pub open spec fn fetch_spec(region: Seq<char>, profile: Option<Seq<char>>) -> PlanView {
    PlanView {
        input: InputView::Capture,
        ..aws_plan_spec(login_password_args(region, profile), "Failed to get ECR login password"@)
    }
}

/// The step after the registry is known: check the SSO session when the
/// registry has a profile, otherwise fetch the password at once.
pub open spec fn login_target_step(a: Seq<char>, r: Seq<char>, p: Option<Seq<char>>) -> StepView<
    LoginView,
> {
    match p {
        Some(prof) => StepView::Run {
            next: LoginView::CheckingSession(a, r, prof),
            notices: Seq::empty(),
            plan: session_check_spec(prof),
        },
        None => StepView::Run {
            next: LoginView::Fetching(a, r, None),
            notices: Seq::empty(),
            plan: fetch_spec(r, None),
        },
    }
}

/// The step that fetches the password.
pub open spec fn fetch_step(a: Seq<char>, r: Seq<char>, p: Option<Seq<char>>) -> StepView<
    LoginView,
> {
    StepView::Run { next: LoginView::Fetching(a, r, p), notices: Seq::empty(), plan: fetch_spec(r, p) }
}

/// The end of `ecr_login` with error `e`.
pub open spec fn login_stop(e: crate::error::StoolErrorView) -> StepView<LoginView> {
    StepView::Finish { notices: Seq::empty(), result: Err(e) }
}

/// The event of a collected run.
pub open spec fn event_of(reply: Reply) -> RunEvent {
    match reply {
        Reply::Output(ev, _) => ev,
        Reply::Ran(ev) => ev,
        _ => RunEvent::Exited(true),
    }
}

/// One step of `ecr_login`: check that the AWS CLI and Docker are
/// installed, pick a registry (or type account and region, which never uses
/// SSO, or cancel); with an SSO profile, renew its session when the check
/// fails; fetch the ECR password and hand it, trimmed, to `docker login`.
pub open spec fn login_spec(regs: Seq<EcrRegistry>, state: LoginView, reply: Reply) -> StepView<
    LoginView,
> {
    match state {
        LoginView::Start => StepView::Run {
            next: LoginView::CheckingAws,
            notices: Seq::empty(),
            plan: aws_check_spec(),
        },
        LoginView::CheckingAws => match outcome_spec(aws_check_spec(), event_of(reply)) {
            Ok(()) => StepView::Run {
                next: LoginView::CheckingDocker,
                notices: Seq::empty(),
                plan: docker_check_spec(),
            },
            Err(e) => login_stop(e),
        },
        LoginView::CheckingDocker => match outcome_spec(docker_check_spec(), event_of(reply)) {
            Ok(()) => StepView::Ask {
                next: LoginView::Menu,
                notices: Seq::empty(),
                prompt: PromptView::Choose {
                    title: REGISTRY_PROMPT@,
                    items: ecr_login_menu_spec(regs),
                    default: 0,
                },
            },
            Err(e) => login_stop(e),
        },
        LoginView::Menu => match reply {
            Reply::Picked(i) => match menu_choice_spec(regs.len(), i as nat) {
                Ok(MenuChoice::Cancel) => StepView::Finish { notices: Seq::empty(), result: Ok(()) },
                Ok(MenuChoice::Manual) => StepView::Ask {
                    next: LoginView::Account,
                    notices: Seq::empty(),
                    prompt: PromptView::Text { title: ACCOUNT_PROMPT@ },
                },
                Ok(MenuChoice::Chosen(k)) => login_target_step(
                    regs[k as int].account_id@,
                    regs[k as int].region@,
                    opt_view(regs[k as int].sso_profile),
                ),
                Err(e) => login_stop(e),
            },
            _ => StepView::Finish { notices: Seq::empty(), result: Ok(()) },
        },
        LoginView::Account => match reply {
            Reply::Typed(a) => StepView::Ask {
                next: LoginView::Region(a@),
                notices: Seq::empty(),
                prompt: PromptView::Text { title: REGION_PROMPT@ },
            },
            _ => StepView::Finish { notices: Seq::empty(), result: Ok(()) },
        },
        LoginView::Region(a) => match reply {
            Reply::Typed(r) => login_target_step(a, r@, None),
            _ => StepView::Finish { notices: Seq::empty(), result: Ok(()) },
        },
        LoginView::CheckingSession(a, r, p) => match event_of(reply) {
            RunEvent::Exited(true) => fetch_step(a, r, Some(p)),
            RunEvent::Exited(false) => StepView::Run {
                next: LoginView::Renewing(a, r, p),
                notices: seq![SSO_EXPIRED_NOTICE@],
                plan: renew_spec(p),
            },
            ev => StepView::Finish { notices: Seq::empty(), result: outcome_spec(session_check_spec(p), ev) },
        },
        LoginView::Renewing(a, r, p) => match outcome_spec(renew_spec(p), event_of(reply)) {
            Ok(()) => fetch_step(a, r, Some(p)),
            Err(e) => login_stop(e),
        },
        LoginView::Fetching(a, r, p) => match reply {
            Reply::Output(ev, out) => match outcome_spec(fetch_spec(r, p), ev) {
                Ok(()) => StepView::Run {
                    next: LoginView::LoggingIn(a, r),
                    notices: Seq::empty(),
                    plan: docker_login_spec(ecr_url_spec(a, r), trim_spec(out@)),
                },
                Err(e) => login_stop(e),
            },
            _ => StepView::Finish { notices: Seq::empty(), result: Ok(()) },
        },
        LoginView::LoggingIn(a, r) => match reply {
            Reply::Ran(ev) => match outcome_spec(docker_login_spec(ecr_url_spec(a, r), Seq::empty()), ev) {
                Ok(()) => StepView::Finish {
                    notices: seq!["Successfully logged in to ECR registry: "@ + ecr_url_spec(a, r)],
                    result: Ok(()),
                },
                Err(e) => login_stop(e),
            },
            _ => StepView::Finish { notices: Seq::empty(), result: Ok(()) },
        },
    }
}

/// The event of a collected run.
fn take_event(reply: Reply) -> (res: RunEvent)
    ensures
        res == event_of(reply),
{
    match reply {
        Reply::Output(ev, _) => ev,
        Reply::Ran(ev) => ev,
        _ => RunEvent::Exited(true),
    }
}

/// Builds [`login_target_step`].
fn target_step(a: String, r: String, p: Option<String>) -> (res: Step<LoginState>)
    ensures
        res@ == login_target_step(a@, r@, opt_view(p)),
{
    match p {
        Some(prof) => {
            let plan = sso_session_check_plan(prof.as_str());
            Step::Run { next: LoginState::CheckingSession(a, r, prof), notices: no_lines(), plan }
        },
        None => {
            let plan = login_password_plan(r.as_str(), None);
            Step::Run { next: LoginState::Fetching(a, r, None), notices: no_lines(), plan }
        },
    }
}

/// Builds [`fetch_step`].
fn make_fetch(a: String, r: String, p: Option<String>) -> (res: Step<LoginState>)
    ensures
        res@ == fetch_step(a@, r@, opt_view(p)),
{
    let plan = login_password_plan(r.as_str(), crate::flows::opt_as_str(&p));
    Step::Run { next: LoginState::Fetching(a, r, p), notices: no_lines(), plan }
}

/// Runs one step of `ecr_login`: log Docker in to an ECR registry.
pub fn ecr_login(regs: &[EcrRegistry], state: LoginState, reply: Reply) -> (res: Step<LoginState>)
    requires
        login_expects(state@, reply),
    ensures
        res@ == login_spec(regs@, state@, reply),
{
    match state {
        LoginState::Start => Step::Run {
            next: LoginState::CheckingAws,
            notices: no_lines(),
            plan: aws_cli_check_plan(),
        },
        LoginState::CheckingAws => {
            let ev = take_event(reply);
            match aws_cli_check_plan().outcome(&ev) {
                Ok(()) => Step::Run {
                    next: LoginState::CheckingDocker,
                    notices: no_lines(),
                    plan: docker_check_plan(),
                },
                Err(e) => Step::Finish { notices: no_lines(), result: Err(e) },
            }
        },
        LoginState::CheckingDocker => {
            let ev = take_event(reply);
            match docker_check_plan().outcome(&ev) {
                Ok(()) => Step::Ask {
                    next: LoginState::Menu,
                    notices: no_lines(),
                    prompt: Prompt::Choose {
                        title: String::from_str(REGISTRY_PROMPT),
                        items: ecr_login_menu(regs),
                        default: 0,
                    },
                },
                Err(e) => Step::Finish { notices: no_lines(), result: Err(e) },
            }
        },
        LoginState::Menu => match reply {
            Reply::Picked(i) => match select_ecr_registry(regs, i) {
                Ok(RegistryPick::Cancel) => Step::Finish { notices: no_lines(), result: Ok(()) },
                Ok(RegistryPick::Manual) => Step::Ask {
                    next: LoginState::Account,
                    notices: no_lines(),
                    prompt: Prompt::Text { title: String::from_str(ACCOUNT_PROMPT) },
                },
                Ok(RegistryPick::Chosen(t)) => target_step(t.account_id, t.region, t.sso_profile),
                Err(e) => Step::Finish { notices: no_lines(), result: Err(e) },
            },
            _ => Step::Finish { notices: no_lines(), result: Ok(()) },
        },
        LoginState::Account => match reply {
            Reply::Typed(a) => Step::Ask {
                next: LoginState::Region(a),
                notices: no_lines(),
                prompt: Prompt::Text { title: String::from_str(REGION_PROMPT) },
            },
            _ => Step::Finish { notices: no_lines(), result: Ok(()) },
        },
        LoginState::Region(a) => match reply {
            Reply::Typed(r) => target_step(a, r, None),
            _ => Step::Finish { notices: no_lines(), result: Ok(()) },
        },
        LoginState::CheckingSession(a, r, p) => {
            let ev = take_event(reply);
            match ev {
                RunEvent::Exited(true) => make_fetch(a, r, Some(p)),
                RunEvent::Exited(false) => {
                    let plan = sso_login_plan(p.as_str(), "SSO login failed");
                    Step::Run {
                        next: LoginState::Renewing(a, r, p),
                        notices: one_line(String::from_str(SSO_EXPIRED_NOTICE)),
                        plan,
                    }
                },
                other => {
                    let check = sso_session_check_plan(p.as_str());
                    Step::Finish { notices: no_lines(), result: check.outcome(&other) }
                },
            }
        },
        LoginState::Renewing(a, r, p) => {
            let ev = take_event(reply);
            let plan = sso_login_plan(p.as_str(), "SSO login failed");
            match plan.outcome(&ev) {
                Ok(()) => make_fetch(a, r, Some(p)),
                Err(e) => Step::Finish { notices: no_lines(), result: Err(e) },
            }
        },
        LoginState::Fetching(a, r, p) => match reply {
            Reply::Output(ev, out) => {
                let plan = login_password_plan(r.as_str(), crate::flows::opt_as_str(&p));
                match plan.outcome(&ev) {
                    Ok(()) => {
                        let url = ecr_url(a.as_str(), r.as_str());
                        let login = docker_login_plan(url.as_str(), login_password(out.as_str()));
                        Step::Run { next: LoginState::LoggingIn(a, r), notices: no_lines(), plan: login }
                    },
                    Err(e) => Step::Finish { notices: no_lines(), result: Err(e) },
                }
            },
            _ => Step::Finish { notices: no_lines(), result: Ok(()) },
        },
        LoginState::LoggingIn(a, r) => match reply {
            Reply::Ran(ev) => {
                let url = ecr_url(a.as_str(), r.as_str());
                let login = docker_login_plan(url.as_str(), String::new());
                match login.outcome(&ev) {
                    Ok(()) => Step::Finish {
                        notices: one_line(ecr_login_notice(a.as_str(), r.as_str())),
                        result: Ok(()),
                    },
                    Err(e) => Step::Finish { notices: no_lines(), result: Err(e) },
                }
            },
            _ => Step::Finish { notices: no_lines(), result: Ok(()) },
        },
    }
}

} // verus!
