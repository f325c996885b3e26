//! Where each operation sends its work: the registry, profile, server,
//! key and direction that the user picked are the ones the commands use.
//! Each law spells out the command line in terms of the inputs.

use crate::aws::sso_addition_spec;
use crate::command::{ssh_expect_script, scp_expect_script, RunEvent};
use crate::config::{EcrRegistry, Server, SsoConfig};
use crate::docker::{increments_fit, new_version_spec, DEFAULT_TAG};
use crate::ecr_flows::{login_spec, push_spec, LoginView, PushView};
use crate::flows::{
    connect_spec, transfer_spec, ConnectView, PickerView, PromptView, Reply, StepView,
    TransferView,
};
use crate::interactive::{numbered, ServerInfoView};
use crate::text::{contains_spec, opt_view, trim_spec};
use crate::transfer::TransferMode;
use vstd::prelude::*;
use vstd::string::*;

verus! {

// ---------------------------------------------------------------------------
// push_to_ecr
// ---------------------------------------------------------------------------
/// `<account>.dkr.ecr.<region>.amazonaws.com/<image>:<tag>` for registry `i`.
pub open spec fn pushed_ref(regs: Seq<EcrRegistry>, i: nat, image: Seq<char>, tag: Seq<char>) -> Seq<
    char,
> {
    regs[i as int].account_id@ + ".dkr.ecr."@ + regs[i as int].region@ + ".amazonaws.com"@ + "/"@ + image
        + ":"@ + tag
}

/// Picking entry `i` of the registry menu of `push_to_ecr` continues with
/// registry `i`: its images are offered (entry `m` names image `m`), or
/// the image name is asked for when it has none.
pub proof fn law_push_registry_pick(regs: Seq<EcrRegistry>, i: usize)
    requires
        i < regs.len(),
    ensures
        ({
            let st = push_spec(regs, PushView::Registry, Reply::Picked(i));
            let images = regs[i as int].images@;
            &&& images.len() == 0 ==> (st matches StepView::Ask { next, .. } && next
                == PushView::ImageName(i as nat))
            &&& images.len() > 0 ==> (st matches StepView::Ask {
                next,
                prompt: PromptView::Choose { items, .. },
                ..
            } && next == PushView::Image(i as nat) && items.len() == images.len() + 1 && (forall|
                m: int,
            | 0 <= m < images.len() ==> #[trigger] items[m] == numbered(m as nat, images[m]@)))
        }),
{
    let images = regs[i as int].images@;
    let st = push_spec(regs, PushView::Registry, Reply::Picked(i));
    if images.len() > 0 {
        assert(crate::text::views(images).len() == images.len());
        assert forall|m: int| 0 <= m < images.len() implies #[trigger] crate::text::views(images)[m]
            == images[m]@ by {}
    }
}

/// The image picked for registry `i` is built for registry `i`: entry `j`
/// of its image menu builds image `j` (`docker build ... -t <image>:latest
/// .`), the entry after them asks for a name, and a typed name is built as
/// typed; after the build the newest tag is read, and the version menu for
/// it stays with registry `i` and the image.
pub proof fn law_push_image_stays_with_registry(
    regs: Seq<EcrRegistry>,
    i: nat,
    j: usize,
    name: String,
    ok: bool,
    out: String,
    image: Seq<char>,
)
    requires
        i < regs.len(),
    ensures
        j < regs[i as int].images@.len() ==> (push_spec(
            regs,
            PushView::Image(i),
            Reply::Picked(j),
        ) matches StepView::Run { next, plan, .. } && next == PushView::Building(
            i,
            regs[i as int].images@[j as int]@,
        ) && plan.program == "docker"@ && plan.args[0] == "build"@ && plan.args[6]
            == regs[i as int].images@[j as int]@ + ":"@ + DEFAULT_TAG@),
        j == regs[i as int].images@.len() ==> (push_spec(
            regs,
            PushView::Image(i),
            Reply::Picked(j),
        ) matches StepView::Ask { next, .. } && next == PushView::ImageName(i)),
        push_spec(regs, PushView::ImageName(i), Reply::Typed(name)) matches StepView::Run {
            next,
            plan,
            ..
        } && next == PushView::Building(i, name@) && plan.program == "docker"@ && plan.args[6]
            == name@ + ":"@ + DEFAULT_TAG@,
        push_spec(regs, PushView::Describing(i, image), Reply::Output(RunEvent::Exited(ok), out))
            matches StepView::Ask { next, .. } && next is Versions && next->Versions_0 == i
            && next->Versions_1 == image,
{
    if j < regs[i as int].images@.len() {
        assert(crate::text::views(regs[i as int].images@)[j as int] == regs[i as int].images@[j as int]@);
    }
}

/// The reference built from the registry URL is [`pushed_ref`].
proof fn lemma_pushed_ref(regs: Seq<EcrRegistry>, i: nat, image: Seq<char>, tag: Seq<char>)
    ensures
        crate::docker::remote_ref(crate::ecr_flows::url_of(regs, i), image, tag) == pushed_ref(
            regs,
            i,
            image,
            tag,
        ),
{
    assert(crate::docker::remote_ref(crate::ecr_flows::url_of(regs, i), image, tag) =~= pushed_ref(
        regs,
        i,
        image,
        tag,
    ));
}

/// After the build for registry `i`, ECR is asked for the newest tag of
/// the image in the region of registry `i`.
pub proof fn law_push_describes_in_picked_region(regs: Seq<EcrRegistry>, i: nat, image: Seq<char>)
    requires
        i < regs.len(),
    ensures
        ({
            let st = push_spec(regs, PushView::Building(i, image), Reply::Ran(RunEvent::Exited(true)));
            st matches StepView::Run { next, plan, .. } && next == PushView::Describing(i, image)
                && plan.program == "aws"@ && plan.args[3] == image && plan.args[4] == "--region"@
                && plan.args[5] == regs[i as int].region@
        }),
{
}

/// Picking a version for registry `i` starts the push with `docker tag
/// <image>:latest <account>.dkr.ecr.<region>.amazonaws.com/<image>:latest`
/// for the account and region of registry `i`.
pub proof fn law_push_first_tag_in_picked_registry(
    regs: Seq<EcrRegistry>,
    i: nat,
    image: Seq<char>,
    current: Option<Seq<char>>,
    k: usize,
)
    requires
        i < regs.len(),
        increments_fit(current),
        new_version_spec(current, k as nat) is Ok,
    ensures
        ({
            let v = new_version_spec(current, k as nat)->Ok_0;
            let st = push_spec(regs, PushView::Versions(i, image, current), Reply::Picked(k));
            st matches StepView::Run { next, plan, .. } && next == PushView::Pushing(i, image, v, 0)
                && plan.program == "docker"@ && plan.args == seq![
                "tag"@,
                image + ":"@ + DEFAULT_TAG@,
                pushed_ref(regs, i, image, DEFAULT_TAG@),
            ]
        }),
{
    lemma_pushed_ref(regs, i, image, DEFAULT_TAG@);
}

/// Each later step of a push for registry `i` and version `v` goes to
/// registry `i`: tag `v`, push `latest`, push `v`.
pub proof fn law_push_later_steps_in_picked_registry(
    regs: Seq<EcrRegistry>,
    i: nat,
    image: Seq<char>,
    v: Seq<char>,
)
    requires
        i < regs.len(),
    ensures
        push_spec(regs, PushView::Pushing(i, image, v, 0), Reply::Ran(RunEvent::Exited(true)))
            matches StepView::Run { plan, .. } && plan.program == "docker"@ && plan.args == seq![
            "tag"@,
            image + ":"@ + DEFAULT_TAG@,
            pushed_ref(regs, i, image, v),
        ],
        push_spec(regs, PushView::Pushing(i, image, v, 1), Reply::Ran(RunEvent::Exited(true)))
            matches StepView::Run { plan, .. } && plan.program == "docker"@ && plan.args == seq![
            "push"@,
            pushed_ref(regs, i, image, DEFAULT_TAG@),
        ],
        push_spec(regs, PushView::Pushing(i, image, v, 2), Reply::Ran(RunEvent::Exited(true)))
            matches StepView::Run { plan, .. } && plan.program == "docker"@ && plan.args == seq![
            "push"@,
            pushed_ref(regs, i, image, v),
        ],
{
    lemma_pushed_ref(regs, i, image, DEFAULT_TAG@);
    lemma_pushed_ref(regs, i, image, v);
}

// ---------------------------------------------------------------------------
// ecr_login
// ---------------------------------------------------------------------------
/// Picking registry `k` in the login menu logs in to that registry: with
/// an SSO profile its session is checked first
/// (`aws sts get-caller-identity --profile <p>`); without one the password
/// is fetched at once for its region, with no profile.
pub proof fn law_login_registry_pick(regs: Seq<EcrRegistry>, k: usize)
    requires
        k < regs.len(),
    ensures
        ({
            let reg = regs[k as int];
            let st = login_spec(regs, LoginView::Menu, Reply::Picked(k));
            match reg.sso_profile {
                Some(p) => st matches StepView::Run { next, plan, .. } && next
                    == LoginView::CheckingSession(reg.account_id@, reg.region@, p@)
                    && plan.program == "aws"@ && plan.args == seq![
                    "sts"@,
                    "get-caller-identity"@,
                    "--profile"@,
                    p@,
                ],
                None => st matches StepView::Run { next, plan, .. } && next == LoginView::Fetching(
                    reg.account_id@,
                    reg.region@,
                    None,
                ) && plan.program == "aws"@ && plan.args == seq![
                    "ecr"@,
                    "get-login-password"@,
                    "--region"@,
                    reg.region@,
                ],
            }
        }),
{
    let reg = regs[k as int];
    assert(opt_view(reg.sso_profile) == match reg.sso_profile {
        Some(p) => Some(p@),
        None => None::<Seq<char>>,
    });
}

/// With an SSO profile `p`, the ECR password is always fetched through
/// `p` (`aws ecr get-login-password --region <r> --profile <p>`), whether
/// the session was valid or had to be renewed; an expired session is
/// renewed with `aws sso login --profile <p>` first.
pub proof fn law_login_fetches_with_profile(
    regs: Seq<EcrRegistry>,
    a: Seq<char>,
    r: Seq<char>,
    p: Seq<char>,
    out: String,
)
    ensures
        login_spec(
            regs,
            LoginView::CheckingSession(a, r, p),
            Reply::Output(RunEvent::Exited(true), out),
        ) matches StepView::Run { next, plan, .. } && next == LoginView::Fetching(a, r, Some(p))
            && plan.program == "aws"@ && plan.args == seq![
            "ecr"@,
            "get-login-password"@,
            "--region"@,
            r,
            "--profile"@,
            p,
        ],
        login_spec(
            regs,
            LoginView::CheckingSession(a, r, p),
            Reply::Output(RunEvent::Exited(false), out),
        ) matches StepView::Run { next, plan, .. } && next == LoginView::Renewing(a, r, p)
            && plan.program == "aws"@ && plan.args == seq!["sso"@, "login"@, "--profile"@, p],
        login_spec(regs, LoginView::Renewing(a, r, p), Reply::Ran(RunEvent::Exited(true))) matches StepView::Run {
            next,
            plan,
            ..
        } && next == LoginView::Fetching(a, r, Some(p)) && plan.program == "aws"@ && plan.args
            == seq!["ecr"@, "get-login-password"@, "--region"@, r, "--profile"@, p],
{
    assert(seq!["ecr"@, "get-login-password"@, "--region"@, r] + seq!["--profile"@, p] =~= seq![
        "ecr"@,
        "get-login-password"@,
        "--region"@,
        r,
        "--profile"@,
        p,
    ]);
}

/// Docker logs in to `<account>.dkr.ecr.<region>.amazonaws.com` of the
/// registry whose password was fetched, handing it the trimmed password.
pub proof fn law_login_docker_target(
    regs: Seq<EcrRegistry>,
    a: Seq<char>,
    r: Seq<char>,
    p: Option<Seq<char>>,
    out: String,
)
    ensures
        login_spec(regs, LoginView::Fetching(a, r, p), Reply::Output(RunEvent::Exited(true), out))
            matches StepView::Run { next, plan, .. } && next == LoginView::LoggingIn(a, r)
            && plan.program == "docker"@ && plan.args == seq![
            "login"@,
            "--username"@,
            "AWS"@,
            "--password-stdin"@,
            a + ".dkr.ecr."@ + r + ".amazonaws.com"@,
        ] && plan.input == crate::command::InputView::Feed(trim_spec(out@)),
{
}

// ---------------------------------------------------------------------------
// transfer
// ---------------------------------------------------------------------------
/// A download copies from the server to this machine: the source is
/// `<user>@<ip>:<remote path>` and the destination the local answer, or
/// `~/Downloads/` when it is blank; a key file is passed with `-i`, a
/// password goes through `expect`.
pub proof fn law_download_copies_from_server(
    servers: Seq<Server>,
    info: ServerInfoView,
    a: Seq<char>,
    b: String,
)
    ensures
        ({
            let src = info.user + "@"@ + info.ip + ":"@ + a;
            let dst = if trim_spec(b@).len() == 0 {
                "~/Downloads/"@
            } else {
                b@
            };
            let st = transfer_spec(
                servers,
                TransferView::Second(TransferMode::Download, info, a),
                Reply::Typed(b),
            );
            st matches StepView::Run { next, plan, .. } && next == TransferView::Copying(src, dst, info)
                && match (info.key_path, info.password) {
                (Some(k), _) => plan.program == "scp"@ && plan.args == seq!["-i"@, k, src, dst],
                (None, Some(pw)) => plan.program == "expect"@ && plan.args == seq![
                    "-c"@,
                    scp_expect_script(src, dst, pw),
                ],
                (None, None) => plan.program == "scp"@ && plan.args == seq![src, dst],
            }
        }),
{
}

/// An upload copies from this machine to the server: the source is the
/// local path and the destination `<user>@<ip>:<remote path>`, where a
/// blank remote answer means `~/`.
pub proof fn law_upload_copies_to_server(
    servers: Seq<Server>,
    info: ServerInfoView,
    a: Seq<char>,
    b: String,
)
    ensures
        ({
            let dst = info.user + "@"@ + info.ip + ":"@ + (if trim_spec(b@).len() == 0 {
                "~/"@
            } else {
                b@
            });
            let st = transfer_spec(
                servers,
                TransferView::Second(TransferMode::Upload, info, a),
                Reply::Typed(b),
            );
            st matches StepView::Run { next, plan, .. } && next == TransferView::Copying(a, dst, info)
                && match (info.key_path, info.password) {
                (Some(k), _) => plan.program == "scp"@ && plan.args == seq!["-i"@, k, a, dst],
                (None, Some(pw)) => plan.program == "expect"@ && plan.args == seq![
                    "-c"@,
                    scp_expect_script(a, dst, pw),
                ],
                (None, None) => plan.program == "scp"@ && plan.args == seq![a, dst],
            }
        }),
{
}

/// Picking configured server `i` for a transfer whose server has a key or
/// password carries that server's own details to the path questions, and
/// the first answer is kept for the copy.
pub proof fn law_transfer_uses_picked_server(
    servers: Seq<Server>,
    m: TransferMode,
    i: usize,
    info: ServerInfoView,
    a: String,
)
    requires
        i < servers.len(),
        servers[i as int].key_path is Some || servers[i as int].password is Some,
    ensures
        ({
            let s = servers[i as int];
            transfer_spec(servers, TransferView::Picking(m, PickerView::Menu), Reply::Picked(i))
                matches StepView::Ask { next, .. } && next == TransferView::First(
                m,
                ServerInfoView {
                    user: s.user@,
                    ip: s.ip@,
                    key_path: opt_view(s.key_path),
                    password: opt_view(s.password),
                },
            )
        }),
        transfer_spec(servers, TransferView::First(m, info), Reply::Typed(a)) matches StepView::Ask {
            next,
            ..
        } && next == TransferView::Second(m, info, a@),
{
}

// ---------------------------------------------------------------------------
// connect
// ---------------------------------------------------------------------------
/// Picking configured server `i` connects to it with its own details: a
/// key file gives `ssh -i <key> <user>@<ip>`, else a password goes through
/// `expect`; with neither, the password is asked for first.
pub proof fn law_connect_configured_server(servers: Seq<Server>, i: usize)
    requires
        i < servers.len(),
    ensures
        ({
            let s = servers[i as int];
            let t = s.user@ + "@"@ + s.ip@;
            let st = connect_spec(servers, ConnectView::Picking(PickerView::Menu), Reply::Picked(i));
            match (s.key_path, s.password) {
                (Some(k), _) => st matches StepView::Run { plan, notices, .. } && plan.program
                    == "ssh"@ && plan.args == seq!["-i"@, k@, t] && notices.last()
                    == "Connecting with PEM key authentication"@,
                (None, Some(pw)) => st matches StepView::Run { plan, notices, .. } && plan.program
                    == "expect"@ && plan.args == seq![
                    "-c"@,
                    ssh_expect_script(s.user@, s.ip@, pw@),
                ] && notices.last() == "Connecting with password authentication"@,
                (None, None) => st matches StepView::Ask { next, .. } && next
                    == ConnectView::Picking(
                    PickerView::Password(
                        ServerInfoView { user: s.user@, ip: s.ip@, key_path: None, password: None },
                    ),
                ),
            }
        }),
{
    let s = servers[i as int];
    assert(opt_view(s.key_path) == match s.key_path {
        Some(k) => Some(k@),
        None => None::<Seq<char>>,
    });
    assert(opt_view(s.password) == match s.password {
        Some(k) => Some(k@),
        None => None::<Seq<char>>,
    });
}

/// After the password question, a server without a key is reached with the
/// typed password through `expect`, or with plain `ssh <user>@<ip>` when the
/// answer is empty and no password is known.
pub proof fn law_connect_after_password(servers: Seq<Server>, user: Seq<char>, ip: Seq<char>, typed: String)
    ensures
        ({
            let info = ServerInfoView { user, ip, key_path: None, password: None };
            let st = connect_spec(
                servers,
                ConnectView::Picking(PickerView::Password(info)),
                Reply::Typed(typed),
            );
            if typed@.len() == 0 {
                st matches StepView::Run { plan, .. } && plan.program == "ssh"@ && plan.args == seq![
                    user + "@"@ + ip,
                ]
            } else {
                st matches StepView::Run { plan, .. } && plan.program == "expect"@ && plan.args
                    == seq!["-c"@, ssh_expect_script(user, ip, typed@)]
            }
        }),
{
}

// ---------------------------------------------------------------------------
// SSO profiles in ~/.aws/config
// ---------------------------------------------------------------------------
/// A profile is skipped exactly when its whole header line
/// `[profile <name>]` is already in the file. Otherwise the text appended
/// is the profile section, headed by that line, followed by the session
/// section unless `[sso-session <session>]` is already in the file.
pub proof fn law_sso_profile_skipped_only_when_present(existing: Seq<char>, c: SsoConfig)
    ensures
        sso_addition_spec(existing, c) is None <==> contains_spec(
            existing,
            "[profile "@ + c.profile_name@ + "]"@,
        ),
        sso_addition_spec(existing, c) matches Some(t) ==> t == "\n"@ + "[profile "@
            + c.profile_name@ + "]"@ + "\nsso_session = "@ + c.sso_session_name@
            + "\nsso_account_id = "@ + c.sso_account_id@ + "\nsso_role_name = "@ + c.sso_role_name@
            + "\nregion = "@ + c.region@ + "\noutput = "@ + c.output_format@ + "\n"@ + (if contains_spec(
            existing,
            "[sso-session "@ + c.sso_session_name@ + "]"@,
        ) {
            Seq::<char>::empty()
        } else {
            "\n"@ + "[sso-session "@ + c.sso_session_name@ + "]"@ + "\nsso_start_url = "@
                + c.start_url@ + "\nsso_region = "@ + c.region@
                + "\nsso_registration_scopes = sso:account:access\n"@
        }),
{
    let ps = crate::aws::profile_section(c);
    let ss = crate::aws::session_section(c);
    assert(ps + Seq::<char>::empty() =~= ps);
    assert(ps + ss =~= "\n"@ + "[profile "@ + c.profile_name@ + "]"@ + "\nsso_session = "@
        + c.sso_session_name@ + "\nsso_account_id = "@ + c.sso_account_id@ + "\nsso_role_name = "@
        + c.sso_role_name@ + "\nregion = "@ + c.region@ + "\noutput = "@ + c.output_format@ + "\n"@
        + ("\n"@ + "[sso-session "@ + c.sso_session_name@ + "]"@ + "\nsso_start_url = "@
        + c.start_url@ + "\nsso_region = "@ + c.region@
        + "\nsso_registration_scopes = sso:account:access\n"@));
    assert(ps =~= "\n"@ + "[profile "@ + c.profile_name@ + "]"@ + "\nsso_session = "@
        + c.sso_session_name@ + "\nsso_account_id = "@ + c.sso_account_id@ + "\nsso_role_name = "@
        + c.sso_role_name@ + "\nregion = "@ + c.region@ + "\noutput = "@ + c.output_format@ + "\n"@
        + Seq::<char>::empty());
}

} // verus!
