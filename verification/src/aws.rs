//! AWS CLI: the registry and SSO menus, the SSO profile text added to
//! `~/.aws/config`, and the `aws` and `docker` commands of an ECR login.

use crate::command::{
    inherit_plan, make_capture_plan, make_inherit_plan, opt_str_view, template,
    CommandPlan, ErrorTemplate, Input, InputView, PlanView,
};
use crate::config::{EcrRegistry, SsoConfig};
use crate::docker::{ecr_url, ecr_url_spec};
use crate::error::{error_value, StoolError, StoolErrorType, StoolErrorView, StoolResult};
use crate::interactive::{number_items, numbered, numbered_all, push_numbered};
use crate::text::{contains_spec, contains_str, opt_view, trim, trim_spec, views};
use vstd::prelude::*;
use vstd::string::*;

verus! {

/// What a pick in a menu that ends with manual input and cancel means.
pub enum MenuChoice {
    /// The last entry.
    Cancel,
    /// The entry before the last.
    Manual,
    /// One of the listed entries.
    Chosen(usize),
}

/// The meaning of picking entry `selection` in a menu of `count` listed
/// entries followed by manual input and cancel; any other entry is invalid.
pub open spec fn menu_choice_spec(count: nat, selection: nat) -> Result<MenuChoice, StoolErrorView> {
    if selection == count + 1 {
        Ok(MenuChoice::Cancel)
    } else if selection == count {
        Ok(MenuChoice::Manual)
    } else if selection < count {
        Ok(MenuChoice::Chosen(selection as usize))
    } else {
        Err(error_value(StoolErrorType::InvalidInput, None, None))
    }
}

/// Decides [`menu_choice_spec`].
pub fn menu_choice(count: usize, selection: usize) -> (res: StoolResult<MenuChoice>)
    ensures
        crate::command::result_view(res) == menu_choice_spec(count as nat, selection as nat),
{
    if selection > count && selection - 1 == count {
        Ok(MenuChoice::Cancel)
    } else if selection == count {
        Ok(MenuChoice::Manual)
    } else if selection < count {
        Ok(MenuChoice::Chosen(selection))
    } else {
        Err(StoolError::new(StoolErrorType::InvalidInput))
    }
}

/// A menu of `labels`, numbered, followed by numbered manual-input and
/// cancel entries.
pub open spec fn menu_with_exits(labels: Seq<Seq<char>>) -> Seq<Seq<char>> {
    numbered_all(labels).push(numbered(labels.len(), "Manual input"@)).push(
        numbered(labels.len() + 1, "Cancel"@),
    )
}

/// Builds [`menu_with_exits`].
pub fn menu_of(labels: &Vec<String>) -> (res: Vec<String>)
    ensures
        views(res@) == menu_with_exits(views(labels@)),
{
    let mut items = number_items(labels);
    push_numbered(&mut items, "Manual input");
    push_numbered(&mut items, "Cancel");
    items
}

// ---------------------------------------------------------------------------
// SSO profiles
// ---------------------------------------------------------------------------
/// The SSO menu: one entry per profile name.
pub open spec fn sso_menu_spec(configs: Seq<SsoConfig>) -> Seq<Seq<char>> {
    menu_with_exits(Seq::new(configs.len(), |i: int| configs[i].profile_name@))
}

/// The entries of the SSO menu.
pub fn sso_menu(configs: &[SsoConfig]) -> (res: Vec<String>)
    ensures
        views(res@) == sso_menu_spec(configs@),
{
    let mut labels: Vec<String> = Vec::new();
    let mut i: usize = 0;
    while i < configs.len()
        invariant
            i <= configs.len(),
            labels@.len() == i,
            forall|k: int| 0 <= k < i ==> #[trigger] labels@[k]@ == configs@[k].profile_name@,
        decreases configs.len() - i,
    {
        labels.push(configs[i].profile_name.clone());
        i = i + 1;
    }
    assert(views(labels@) =~= Seq::new(configs@.len(), |k: int| configs@[k].profile_name@));
    menu_of(&labels)
}

/// Prompt of the SSO configuration menu.
pub const SSO_CONFIG_PROMPT: &'static str = "Select SSO config:";

/// Prompt of the SSO login menu.
pub const SSO_PROFILE_PROMPT: &'static str = "Select SSO profile:";

/// What the SSO configuration menu yields.
pub enum SsoPick {
    Cancel,
    Manual,
    Chosen(SsoConfig),
}

/// Decides what entry `selection` of the SSO configuration menu yields:
/// cancel, manual input, a copy of the chosen profile, or an error.
pub fn select_sso_config(configs: &[SsoConfig], selection: usize) -> (res: StoolResult<SsoPick>)
    ensures
        match menu_choice_spec(configs.len() as nat, selection as nat) {
            Ok(MenuChoice::Cancel) => res matches Ok(SsoPick::Cancel),
            Ok(MenuChoice::Manual) => res matches Ok(SsoPick::Manual),
            Ok(MenuChoice::Chosen(i)) => res matches Ok(SsoPick::Chosen(c)) && c.same_as(
                &configs@[i as int],
            ),
            Err(e) => res matches Err(f) && f@ == e,
        },
{
    match menu_choice(configs.len(), selection) {
        Ok(MenuChoice::Cancel) => Ok(SsoPick::Cancel),
        Ok(MenuChoice::Manual) => Ok(SsoPick::Manual),
        Ok(MenuChoice::Chosen(i)) => Ok(SsoPick::Chosen(configs[i].duplicate())),
        Err(e) => Err(e),
    }
}

/// The profile entered by hand; its output format is `json`.
pub fn manual_sso_config(
    profile_name: String,
    sso_session_name: String,
    start_url: String,
    region: String,
    sso_account_id: String,
    sso_role_name: String,
) -> (res: SsoConfig)
    ensures
        res.profile_name@ == profile_name@,
        res.sso_session_name@ == sso_session_name@,
        res.start_url@ == start_url@,
        res.region@ == region@,
        res.sso_account_id@ == sso_account_id@,
        res.sso_role_name@ == sso_role_name@,
        res.output_format@ == "json"@,
{
    SsoConfig {
        profile_name,
        sso_session_name,
        start_url,
        region,
        sso_account_id,
        sso_role_name,
        output_format: String::from_str("json"),
    }
}

/// What the SSO login menu yields.
pub enum ProfilePick {
    Cancel,
    Manual,
    Chosen(String),
}

/// Decides what entry `selection` of the SSO login menu yields: cancel,
/// manual input, the chosen profile's name, or an error.
pub fn select_sso_profile(configs: &[SsoConfig], selection: usize) -> (res: StoolResult<
    ProfilePick,
>)
    ensures
        match menu_choice_spec(configs.len() as nat, selection as nat) {
            Ok(MenuChoice::Cancel) => res matches Ok(ProfilePick::Cancel),
            Ok(MenuChoice::Manual) => res matches Ok(ProfilePick::Manual),
            Ok(MenuChoice::Chosen(i)) => res matches Ok(ProfilePick::Chosen(p)) && p@
                == configs@[i as int].profile_name@,
            Err(e) => res matches Err(f) && f@ == e,
        },
{
    match menu_choice(configs.len(), selection) {
        Ok(MenuChoice::Cancel) => Ok(ProfilePick::Cancel),
        Ok(MenuChoice::Manual) => Ok(ProfilePick::Manual),
        Ok(MenuChoice::Chosen(i)) => Ok(ProfilePick::Chosen(configs[i].profile_name.clone())),
        Err(e) => Err(e),
    }
}

/// `[profile <name>]`.
pub open spec fn profile_header(c: SsoConfig) -> Seq<char> {
    "[profile "@ + c.profile_name@ + "]"@
}

/// `[sso-session <session>]`.
pub open spec fn session_header(c: SsoConfig) -> Seq<char> {
    "[sso-session "@ + c.sso_session_name@ + "]"@
}

/// The profile section appended to `~/.aws/config`.
pub open spec fn profile_section(c: SsoConfig) -> Seq<char> {
    "\n"@ + profile_header(c) + "\nsso_session = "@ + c.sso_session_name@ + "\nsso_account_id = "@
        + c.sso_account_id@ + "\nsso_role_name = "@ + c.sso_role_name@ + "\nregion = "@
        + c.region@ + "\noutput = "@ + c.output_format@ + "\n"@
}

/// The session section appended to `~/.aws/config`.
pub open spec fn session_section(c: SsoConfig) -> Seq<char> {
    "\n"@ + session_header(c) + "\nsso_start_url = "@ + c.start_url@ + "\nsso_region = "@
        + c.region@ + "\nsso_registration_scopes = sso:account:access\n"@
}

/// What is appended to the AWS config file whose text is `existing`:
/// nothing when the profile is already there; otherwise the profile
/// section, followed by the session section unless the session is there.
pub open spec fn sso_addition_spec(existing: Seq<char>, c: SsoConfig) -> Option<Seq<char>> {
    if contains_spec(existing, profile_header(c)) {
        None
    } else if contains_spec(existing, session_header(c)) {
        Some(profile_section(c))
    } else {
        Some(profile_section(c) + session_section(c))
    }
}

/// Builds [`profile_header`].
pub fn profile_header_of(c: &SsoConfig) -> (res: String)
    ensures
        res@ == profile_header(*c),
{
    let mut s = String::from_str("[profile ");
    s.append(c.profile_name.as_str());
    s.append("]");
    s
}

/// Builds [`session_header`].
pub fn session_header_of(c: &SsoConfig) -> (res: String)
    ensures
        res@ == session_header(*c),
{
    let mut s = String::from_str("[sso-session ");
    s.append(c.sso_session_name.as_str());
    s.append("]");
    s
}

/// The sections to append to the AWS config file, written one after the
/// other: the profile section, then the session section when there is one.
pub struct SsoAddition {
    pub profile: String,
    pub session: Option<String>,
}

/// The text an [`SsoAddition`] appends.
pub open spec fn addition_text(a: SsoAddition) -> Seq<char> {
    match a.session {
        Some(t) => a.profile@ + t@,
        None => a.profile@,
    }
}

/// Computes [`sso_addition_spec`]: what to append to the AWS config file,
/// or `None` when the profile exists already.
pub fn sso_config_addition(existing: &str, c: &SsoConfig) -> (res: Option<SsoAddition>)
    ensures
        res is None <==> sso_addition_spec(existing@, *c) is None,
        res matches Some(a) ==> {
            &&& sso_addition_spec(existing@, *c) == Some(addition_text(a))
            &&& a.profile@ == profile_section(*c)
            &&& (a.session is Some <==> !contains_spec(existing@, session_header(*c)))
        },
{
    let ph = profile_header_of(c);
    let sh = session_header_of(c);
    if contains_str(existing, ph.as_str()) {
        return None;
    }
    let mut s = String::from_str("\n");
    s.append(ph.as_str());
    s.append("\nsso_session = ");
    s.append(c.sso_session_name.as_str());
    s.append("\nsso_account_id = ");
    s.append(c.sso_account_id.as_str());
    s.append("\nsso_role_name = ");
    s.append(c.sso_role_name.as_str());
    s.append("\nregion = ");
    s.append(c.region.as_str());
    s.append("\noutput = ");
    s.append(c.output_format.as_str());
    s.append("\n");
    assert(s@ =~= profile_section(*c));
    if contains_str(existing, sh.as_str()) {
        return Some(SsoAddition { profile: s, session: None });
    }
    let mut t = String::from_str("\n");
    t.append(sh.as_str());
    t.append("\nsso_start_url = ");
    t.append(c.start_url.as_str());
    t.append("\nsso_region = ");
    t.append(c.region.as_str());
    t.append("\nsso_registration_scopes = sso:account:access\n");
    assert(t@ =~= session_section(*c));
    Some(SsoAddition { profile: s, session: Some(t) })
}

/// The line printed after the profile was written.
pub open spec fn sso_configured_notice(c: SsoConfig) -> Seq<char> {
    "SSO profile '"@ + c.profile_name@ + "' configured."@
}

/// The line printed when the profile was already in the file.
pub open spec fn sso_exists_notice(c: SsoConfig) -> Seq<char> {
    "Profile '"@ + c.profile_name@ + "' already exists. Skipping."@
}

/// Builds `prefix + name + suffix`.
fn quoted(prefix: &str, name: &str, suffix: &str) -> (res: String)
    ensures
        res@ == prefix@ + name@ + suffix@,
{
    let mut s = String::from_str(prefix);
    s.append(name);
    s.append(suffix);
    s
}

/// Builds [`sso_configured_notice`].
pub fn sso_configured_line(c: &SsoConfig) -> (res: String)
    ensures
        res@ == sso_configured_notice(*c),
{
    quoted("SSO profile '", c.profile_name.as_str(), "' configured.")
}

/// Builds [`sso_exists_notice`].
pub fn sso_exists_line(c: &SsoConfig) -> (res: String)
    ensures
        res@ == sso_exists_notice(*c),
{
    quoted("Profile '", c.profile_name.as_str(), "' already exists. Skipping.")
}

/// An AWS-command error with the given message and no cause.
pub fn aws_failure(message: &str) -> (e: StoolError)
    ensures
        e@ == error_value(StoolErrorType::AwsCommandFailed, Some(message@), None),
{
    StoolError::new(StoolErrorType::AwsCommandFailed).with_message(message)
}

// ---------------------------------------------------------------------------
// aws commands
// ---------------------------------------------------------------------------
/// `aws <args>` on the terminal: a start failure is an AWS-command error
/// with the cause; a failure status is one with `message`.
pub open spec fn aws_plan_spec(args: Seq<Seq<char>>, message: Seq<char>) -> PlanView {
    inherit_plan(
        "aws"@,
        args,
        template(StoolErrorType::AwsCommandFailed, None),
        template(StoolErrorType::AwsCommandFailed, Some(message)),
    )
}

/// The plan of `aws configure`.
pub fn configure_plan() -> (p: CommandPlan)
    ensures
        p@ == aws_plan_spec(seq!["configure"@], "aws configure failed"@),
{
    let args = vec![String::from_str("configure")];
    assert(views(args@) =~= seq!["configure"@]);
    make_inherit_plan(
        "aws",
        args,
        ErrorTemplate::plain(StoolErrorType::AwsCommandFailed),
        ErrorTemplate::with_text(StoolErrorType::AwsCommandFailed, "aws configure failed"),
    )
}

/// The plan of `aws sso login --profile <profile>`; a failure status is
/// reported with `message`.
pub fn sso_login_plan(profile: &str, message: &str) -> (p: CommandPlan)
    ensures
        p@ == aws_plan_spec(seq!["sso"@, "login"@, "--profile"@, profile@], message@),
{
    let args = vec![
        String::from_str("sso"),
        String::from_str("login"),
        String::from_str("--profile"),
        String::from_str(profile),
    ];
    assert(views(args@) =~= seq!["sso"@, "login"@, "--profile"@, profile@]);
    make_inherit_plan(
        "aws",
        args,
        ErrorTemplate::plain(StoolErrorType::AwsCommandFailed),
        ErrorTemplate::with_text(StoolErrorType::AwsCommandFailed, message),
    )
}

/// The plan that checks whether the SSO session of `profile` is valid
/// (`aws sts get-caller-identity`); its output is collected and a failure
/// status means the session must be renewed.
pub fn sso_session_check_plan(profile: &str) -> (p: CommandPlan)
    ensures
        p@ == (PlanView {
            input: InputView::Capture,
            ..aws_plan_spec(
                seq!["sts"@, "get-caller-identity"@, "--profile"@, profile@],
                "SSO login failed"@,
            )
        }),
{
    let args = vec![
        String::from_str("sts"),
        String::from_str("get-caller-identity"),
        String::from_str("--profile"),
        String::from_str(profile),
    ];
    assert(views(args@) =~= seq!["sts"@, "get-caller-identity"@, "--profile"@, profile@]);
    make_capture_plan(
        "aws",
        args,
        ErrorTemplate::plain(StoolErrorType::AwsCommandFailed),
        ErrorTemplate::with_text(StoolErrorType::AwsCommandFailed, "SSO login failed"),
    )
}

/// Printed before renewing an expired SSO session.
pub const SSO_EXPIRED_NOTICE: &'static str = "SSO session expired. Logging in...";

/// The plan of `which <program>`: it collects the output; a start failure
/// is an error of kind `missing` with the cause, a failure status one with
/// `hint` as its message.
pub open spec fn which_plan_spec(program: Seq<char>, missing: StoolErrorType, hint: Seq<char>) -> PlanView {
    PlanView {
        input: InputView::Capture,
        ..inherit_plan("which"@, seq![program], template(missing, None), template(missing, Some(hint)))
    }
}

/// The plan that checks that the AWS CLI is installed.
pub fn aws_cli_check_plan() -> (p: CommandPlan)
    ensures
        p@ == which_plan_spec(
            "aws"@,
            StoolErrorType::AwsCliNotInstalled,
            "AWS CLI is not installed. Install it via: brew install awscli"@,
        ),
{
    let args = vec![String::from_str("aws")];
    assert(views(args@) =~= seq!["aws"@]);
    make_capture_plan(
        "which",
        args,
        ErrorTemplate::plain(StoolErrorType::AwsCliNotInstalled),
        ErrorTemplate::with_text(
            StoolErrorType::AwsCliNotInstalled,
            "AWS CLI is not installed. Install it via: brew install awscli",
        ),
    )
}

/// The plan that checks that Docker is installed.
pub fn docker_check_plan() -> (p: CommandPlan)
    ensures
        p@ == which_plan_spec(
            "docker"@,
            StoolErrorType::DockerNotInstalled,
            "Docker is not installed. Install it via: brew install docker"@,
        ),
{
    let args = vec![String::from_str("docker")];
    assert(views(args@) =~= seq!["docker"@]);
    make_capture_plan(
        "which",
        args,
        ErrorTemplate::plain(StoolErrorType::DockerNotInstalled),
        ErrorTemplate::with_text(
            StoolErrorType::DockerNotInstalled,
            "Docker is not installed. Install it via: brew install docker",
        ),
    )
}

// ---------------------------------------------------------------------------
// ECR login
// ---------------------------------------------------------------------------
/// How a registry is listed in the ECR login menu: `"<name> (<url>)"`,
/// followed by ` [SSO]` when it logs in through an SSO profile.
pub open spec fn ecr_login_label(r: EcrRegistry) -> Seq<char> {
    r.name@ + " ("@ + ecr_url_spec(r.account_id@, r.region@) + ")"@ + if r.sso_profile is Some {
        " [SSO]"@
    } else {
        ""@
    }
}

/// The ECR login menu.
pub open spec fn ecr_login_menu_spec(regs: Seq<EcrRegistry>) -> Seq<Seq<char>> {
    menu_with_exits(Seq::new(regs.len(), |i: int| ecr_login_label(regs[i])))
}

/// Builds [`ecr_login_label`].
pub fn ecr_login_label_of(r: &EcrRegistry) -> (res: String)
    ensures
        res@ == ecr_login_label(*r),
{
    let mut s = r.name.clone();
    s.append(" (");
    let u = ecr_url(r.account_id.as_str(), r.region.as_str());
    s.append(u.as_str());
    s.append(")");
    if r.sso_profile.is_some() {
        s.append(" [SSO]");
    } else {
        s.append("");
    }
    s
}

/// The entries of the ECR login menu.
pub fn ecr_login_menu(regs: &[EcrRegistry]) -> (res: Vec<String>)
    ensures
        views(res@) == ecr_login_menu_spec(regs@),
{
    let mut labels: Vec<String> = Vec::new();
    let mut i: usize = 0;
    while i < regs.len()
        invariant
            i <= regs.len(),
            labels@.len() == i,
            forall|k: int| 0 <= k < i ==> #[trigger] labels@[k]@ == ecr_login_label(regs@[k]),
        decreases regs.len() - i,
    {
        labels.push(ecr_login_label_of(&regs[i]));
        i = i + 1;
    }
    assert(views(labels@) =~= Seq::new(regs@.len(), |k: int| ecr_login_label(regs@[k])));
    menu_of(&labels)
}

/// Account, region and SSO profile of the registry to log in to.
pub struct RegistryTarget {
    pub account_id: String,
    pub region: String,
    pub sso_profile: Option<String>,
}

/// What the ECR login menu yields.
pub enum RegistryPick {
    Cancel,
    Manual,
    Chosen(RegistryTarget),
}

/// Decides what entry `selection` of the ECR login menu yields: cancel,
/// manual input (which never uses SSO), the chosen registry's account,
/// region and SSO profile, or an error.
pub fn select_ecr_registry(regs: &[EcrRegistry], selection: usize) -> (res: StoolResult<
    RegistryPick,
>)
    ensures
        match menu_choice_spec(regs.len() as nat, selection as nat) {
            Ok(MenuChoice::Cancel) => res matches Ok(RegistryPick::Cancel),
            Ok(MenuChoice::Manual) => res matches Ok(RegistryPick::Manual),
            Ok(MenuChoice::Chosen(i)) => res matches Ok(RegistryPick::Chosen(t)) && {
                &&& t.account_id@ == regs@[i as int].account_id@
                &&& t.region@ == regs@[i as int].region@
                &&& opt_view(t.sso_profile) == opt_view(regs@[i as int].sso_profile)
            },
            Err(e) => res matches Err(f) && f@ == e,
        },
{
    match menu_choice(regs.len(), selection) {
        Ok(MenuChoice::Cancel) => Ok(RegistryPick::Cancel),
        Ok(MenuChoice::Manual) => Ok(RegistryPick::Manual),
        Ok(MenuChoice::Chosen(i)) => {
            let r = &regs[i];
            Ok(
                RegistryPick::Chosen(
                    RegistryTarget {
                        account_id: r.account_id.clone(),
                        region: r.region.clone(),
                        sso_profile: crate::config::clone_opt(&r.sso_profile),
                    },
                ),
            )
        },
        Err(e) => Err(e),
    }
}

/// Prompt for a manually entered registry account.
pub const ACCOUNT_PROMPT: &'static str = "AWS Account ID:";

/// Prompt for a manually entered registry region.
pub const REGION_PROMPT: &'static str = "AWS Region (e.g., ap-northeast-2):";

/// The arguments of `aws ecr get-login-password`, with the profile when
/// the registry logs in through SSO.
pub open spec fn login_password_args(region: Seq<char>, profile: Option<Seq<char>>) -> Seq<
    Seq<char>,
> {
    let base = seq!["ecr"@, "get-login-password"@, "--region"@, region];
    match profile {
        Some(p) => base + seq!["--profile"@, p],
        None => base,
    }
}

/// The plan that fetches the ECR password; its output is collected.
pub fn login_password_plan(region: &str, profile: Option<&str>) -> (p: CommandPlan)
    ensures
        p@ == (PlanView {
            input: InputView::Capture,
            ..aws_plan_spec(
                login_password_args(region@, opt_str_view(profile)),
                "Failed to get ECR login password"@,
            )
        }),
{
    let mut args = vec![
        String::from_str("ecr"),
        String::from_str("get-login-password"),
        String::from_str("--region"),
        String::from_str(region),
    ];
    match profile {
        Some(p) => {
            args.push(String::from_str("--profile"));
            args.push(String::from_str(p));
        },
        None => {},
    }
    assert(views(args@) =~= login_password_args(region@, opt_str_view(profile)));
    make_capture_plan(
        "aws",
        args,
        ErrorTemplate::plain(StoolErrorType::AwsCommandFailed),
        ErrorTemplate::with_text(StoolErrorType::AwsCommandFailed, "Failed to get ECR login password"),
    )
}

/// The password to hand to `docker login`: the fetched output, trimmed.
pub fn login_password(output: &str) -> (res: String)
    ensures
        res@ == trim_spec(output@),
{
    trim(output)
}

/// `docker login` to the registry at `url` with `password` on its input;
/// every failure is a Docker-command error.
pub open spec fn docker_login_spec(url: Seq<char>, password: Seq<char>) -> PlanView {
    PlanView {
        program: "docker"@,
        args: seq!["login"@, "--username"@, "AWS"@, "--password-stdin"@, url],
        input: InputView::Feed(password),
        on_spawn: template(StoolErrorType::DockerCommandFailed, None),
        on_write: template(StoolErrorType::DockerCommandFailed, None),
        on_wait: template(StoolErrorType::DockerCommandFailed, None),
        on_exit: template(StoolErrorType::DockerCommandFailed, Some("Docker login failed"@)),
    }
}

/// The plan of `docker login` for the registry at `url`.
pub fn docker_login_plan(url: &str, password: String) -> (p: CommandPlan)
    ensures
        p@ == docker_login_spec(url@, password@),
{
    let args = vec![
        String::from_str("login"),
        String::from_str("--username"),
        String::from_str("AWS"),
        String::from_str("--password-stdin"),
        String::from_str(url),
    ];
    let p = CommandPlan {
        program: String::from_str("docker"),
        args,
        input: Input::Feed(password),
        on_spawn: ErrorTemplate::plain(StoolErrorType::DockerCommandFailed),
        on_write: ErrorTemplate::plain(StoolErrorType::DockerCommandFailed),
        on_wait: ErrorTemplate::plain(StoolErrorType::DockerCommandFailed),
        on_exit: ErrorTemplate::with_text(StoolErrorType::DockerCommandFailed, "Docker login failed"),
    };
    assert(p@.args =~= seq!["login"@, "--username"@, "AWS"@, "--password-stdin"@, url@]);
    p
}

/// The line printed after a successful ECR login.
pub fn ecr_login_notice(account_id: &str, region: &str) -> (res: String)
    ensures
        res@ == "Successfully logged in to ECR registry: "@ + ecr_url_spec(account_id@, region@),
{
    let mut s = String::from_str("Successfully logged in to ECR registry: ");
    let u = ecr_url(account_id, region);
    s.append(u.as_str());
    s
}

} // verus!
