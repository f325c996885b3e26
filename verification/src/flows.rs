//! The interactive operations as state machines: picking a server,
//! `connect`, `transfer` and `build_only`.
//!
//! Each machine is driven from the program's edge: it is started with
//! [`Reply::Begin`], answers every [`Reply`] with a [`Step`] (lines to print,
//! then a question to ask, a command to run, or the final result), and the
//! edge feeds back the answer to that question or what happened to that
//! command.

use crate::command::{outcome_spec, result_view, scp_plan, scp_plan_spec, scp_notice, ssh_notice, ssh_plan, ssh_plan_spec, CommandPlan, PlanView, RunEvent, TRANSFER_DONE};
use crate::config::{EcrRegistry, Server};
use crate::docker::{
    build_image_plan, build_args_spec, docker_plan_spec, image_menu, image_menu_spec, no_registries,
    registry_menu, registry_menu_spec, tagged, DEFAULT_TAG, IMAGE_NAME_PROMPT, IMAGE_PROMPT,
    REGISTRY_PROMPT,
};
use crate::error::{error_value, StoolErrorType, StoolErrorView, StoolResult};
use crate::interactive::{
    configured_server, manual_server, needs_password_prompt, selected_notice, server_choice,
    server_choice_spec, server_menu, server_menu_spec, with_entered_password, ServerChoice,
    ServerInfo, ServerInfoView, IP_PROMPT, PASSWORD_PROMPT, SELECT_SERVER_PROMPT, USERNAME_PROMPT,
};
use crate::text::{opt_view, views};
use crate::transfer::{
    download_paths, mode_choice, mode_choice_spec, mode_menu, mode_menu_spec, or_default,
    remote_spec, upload_paths, TransferMode, DOWNLOAD_DEFAULT, DOWNLOAD_LOCAL_PROMPT,
    DOWNLOAD_REMOTE_PROMPT, MODE_PROMPT, UPLOAD_DEFAULT, UPLOAD_LOCAL_PROMPT, UPLOAD_REMOTE_PROMPT,
};
use vstd::prelude::*;
use vstd::string::*;

verus! {

// ---------------------------------------------------------------------------
// Questions, answers and steps
// ---------------------------------------------------------------------------
/// A question for the user.
pub enum Prompt {
    /// Pick one of `items` (answered with [`Reply::Picked`]); entry
    /// `default` is preselected.
    Choose { title: String, items: Vec<String>, default: usize },
    /// Type a line that may not be empty (answered with [`Reply::Typed`]).
    Text { title: String },
    /// Type a line that may be left empty (answered with [`Reply::Typed`]).
    OptionalText { title: String },
    /// Type a local file path, with file-name completion on Tab; the answer
    /// is trimmed, and may be left empty unless `required` (answered with
    /// [`Reply::Typed`]).
    LocalPath { title: String, required: bool },
    /// Type a secret without echo (answered with [`Reply::Typed`]).
    Secret { title: String },
}

/// The mathematical value of a [`Prompt`].
pub enum PromptView {
    Choose { title: Seq<char>, items: Seq<Seq<char>>, default: usize },
    Text { title: Seq<char> },
    OptionalText { title: Seq<char> },
    LocalPath { title: Seq<char>, required: bool },
    Secret { title: Seq<char> },
}

impl View for Prompt {
    type V = PromptView;

    open spec fn view(&self) -> PromptView {
        match self {
            Prompt::Choose { title, items, default } => PromptView::Choose {
                title: title@,
                items: views(items@),
                default: *default,
            },
            Prompt::Text { title } => PromptView::Text { title: title@ },
            Prompt::OptionalText { title } => PromptView::OptionalText { title: title@ },
            Prompt::LocalPath { title, required } => PromptView::LocalPath {
                title: title@,
                required: *required,
            },
            Prompt::Secret { title } => PromptView::Secret { title: title@ },
        }
    }
}

/// What the edge hands to a machine.
pub enum Reply {
    /// Start the operation.
    Begin,
    /// The index picked in a [`Prompt::Choose`].
    Picked(usize),
    /// The line typed for any question other than [`Prompt::Choose`].
    Typed(String),
    /// What happened when the command of a [`Step::Run`] ran.
    Ran(RunEvent),
    /// What happened when a command whose output is collected ran, and
    /// its standard output.
    Output(RunEvent, String),
}

/// What a machine asks of the edge next. `notices` are printed first, in order.
pub enum Step<S> {
    /// Ask `prompt`, then continue in state `next`.
    Ask { next: S, notices: Vec<String>, prompt: Prompt },
    /// Run `plan`, then continue in state `next`.
    Run { next: S, notices: Vec<String>, plan: CommandPlan },
    /// The operation is over with `result`.
    Finish { notices: Vec<String>, result: StoolResult<()> },
}

/// The mathematical value of a [`Step`].
pub enum StepView<S> {
    Ask { next: S, notices: Seq<Seq<char>>, prompt: PromptView },
    Run { next: S, notices: Seq<Seq<char>>, plan: PlanView },
    Finish { notices: Seq<Seq<char>>, result: Result<(), StoolErrorView> },
}

impl<S: View> View for Step<S> {
    type V = StepView<S::V>;

    open spec fn view(&self) -> StepView<S::V> {
        match self {
            Step::Ask { next, notices, prompt } => StepView::Ask {
                next: next@,
                notices: views(notices@),
                prompt: prompt@,
            },
            Step::Run { next, notices, plan } => StepView::Run {
                next: next@,
                notices: views(notices@),
                plan: plan@,
            },
            Step::Finish { notices, result } => StepView::Finish {
                notices: views(notices@),
                result: result_view(*result),
            },
        }
    }
}

/// A list of one line.
pub(crate) fn one_line(s: String) -> (res: Vec<String>)
    ensures
        views(res@) == seq![s@],
{
    let res = vec![s];
    assert(views(res@) =~= seq![s@]);
    res
}

/// The empty list of lines.
pub(crate) fn no_lines() -> (res: Vec<String>)
    ensures
        views(res@) == Seq::<Seq<char>>::empty(),
{
    let res: Vec<String> = Vec::new();
    assert(views(res@) =~= Seq::<Seq<char>>::empty());
    res
}

/// The view of an optional string, as a slice.
pub(crate) fn opt_as_str(o: &Option<String>) -> (res: Option<&str>)
    ensures
        crate::command::opt_str_view(res) == opt_view(*o),
{
    match o {
        Some(s) => Some(s.as_str()),
        None => None,
    }
}

// ---------------------------------------------------------------------------
// Picking a server
// ---------------------------------------------------------------------------
/// Where the server picker stands.
pub enum PickerState {
    /// The server menu was shown.
    Menu,
    /// The user name was asked for.
    User,
    /// The address was asked for; the user name is known.
    Ip(String),
    /// The password was asked for.
    Password(ServerInfo),
}

/// The mathematical value of a [`PickerState`].
pub enum PickerView {
    Menu,
    User,
    Ip(Seq<char>),
    Password(ServerInfoView),
}

impl View for PickerState {
    type V = PickerView;

    open spec fn view(&self) -> PickerView {
        match self {
            PickerState::Menu => PickerView::Menu,
            PickerState::User => PickerView::User,
            PickerState::Ip(u) => PickerView::Ip(u@),
            PickerState::Password(i) => PickerView::Password(i@),
        }
    }
}

/// Whether `reply` answers the question the picker asked in `state`.
pub open spec fn picker_expects(state: PickerView, reply: Reply) -> bool {
    match state {
        PickerView::Menu => reply is Picked,
        _ => reply is Typed,
    }
}

/// The result of one picker step: another question, or the end with the
/// lines to print and the details picked (`None` for cancel).
pub enum PickerOutcome {
    Ask(PickerState, Vec<String>, Prompt),
    Done(Vec<String>, Option<ServerInfo>),
}

/// The mathematical value of a [`PickerOutcome`].
pub enum PickerOutcomeView {
    Ask(PickerView, Seq<Seq<char>>, PromptView),
    Done(Seq<Seq<char>>, Option<ServerInfoView>),
}

impl View for PickerOutcome {
    type V = PickerOutcomeView;

    open spec fn view(&self) -> PickerOutcomeView {
        match self {
            PickerOutcome::Ask(s, n, p) => PickerOutcomeView::Ask(s@, views(n@), p@),
            PickerOutcome::Done(n, i) => PickerOutcomeView::Done(
                views(n@),
                match i {
                    Some(x) => Some(x@),
                    None => None,
                },
            ),
        }
    }
}

/// The first question of the picker: the server menu.
pub open spec fn server_menu_prompt(servers: Seq<Server>) -> PromptView {
    PromptView::Choose { title: SELECT_SERVER_PROMPT@, items: server_menu_spec(servers), default: 0 }
}

/// The password question.
pub open spec fn password_prompt() -> PromptView {
    PromptView::Secret { title: PASSWORD_PROMPT@ }
}

/// The details of a configured server.
pub open spec fn configured_view(s: Server) -> ServerInfoView {
    ServerInfoView {
        user: s.user@,
        ip: s.ip@,
        key_path: opt_view(s.key_path),
        password: opt_view(s.password),
    }
}

/// One step of the server picker. A configured server with neither key
/// nor password, and every manually entered server, gets the password
/// question; an empty password keeps the default SSH login.
pub open spec fn picker_spec(servers: Seq<Server>, state: PickerView, reply: Reply) -> PickerOutcomeView {
    match (state, reply) {
        (PickerView::Menu, Reply::Picked(i)) => match server_choice_spec(servers.len(), i as nat) {
            ServerChoice::Cancel => PickerOutcomeView::Done(Seq::empty(), None),
            ServerChoice::Configured(k) => {
                let s = servers[k as int];
                let info = configured_view(s);
                if info.key_path is None && info.password is None {
                    PickerOutcomeView::Ask(
                        PickerView::Password(info),
                        seq![selected_notice(s)],
                        password_prompt(),
                    )
                } else {
                    PickerOutcomeView::Done(seq![selected_notice(s)], Some(info))
                }
            },
            ServerChoice::Manual => PickerOutcomeView::Ask(
                PickerView::User,
                Seq::empty(),
                PromptView::Text { title: USERNAME_PROMPT@ },
            ),
        },
        (PickerView::User, Reply::Typed(u)) => PickerOutcomeView::Ask(
            PickerView::Ip(u@),
            Seq::empty(),
            PromptView::Text { title: IP_PROMPT@ },
        ),
        (PickerView::Ip(u), Reply::Typed(ip)) => PickerOutcomeView::Ask(
            PickerView::Password(ServerInfoView { user: u, ip: ip@, key_path: None, password: None }),
            seq!["Target: "@ + crate::command::target(u, ip@)],
            password_prompt(),
        ),
        (PickerView::Password(info), Reply::Typed(p)) => PickerOutcomeView::Done(
            Seq::empty(),
            Some(
                ServerInfoView {
                    password: if p@.len() == 0 {
                        info.password
                    } else {
                        Some(p@)
                    },
                    ..info
                },
            ),
        ),
        _ => PickerOutcomeView::Done(Seq::empty(), None),
    }
}

/// The server menu question.
fn menu_prompt(servers: &[Server]) -> (res: Prompt)
    requires
    ensures
        res@ == server_menu_prompt(servers@),
{
    Prompt::Choose { title: String::from_str(SELECT_SERVER_PROMPT), items: server_menu(servers), default: 0 }
}

/// Runs one step of the server picker (`select_server`).
pub fn select_server(servers: &[Server], state: PickerState, reply: Reply) -> (res: PickerOutcome)
    requires
        picker_expects(state@, reply),
    ensures
        res@ == picker_spec(servers@, state@, reply),
{
    match (state, reply) {
        (PickerState::Menu, Reply::Picked(i)) => match server_choice(servers.len(), i) {
            ServerChoice::Cancel => PickerOutcome::Done(no_lines(), None),
            ServerChoice::Configured(k) => {
                let (notice, info) = configured_server(&servers[k]);
                if needs_password_prompt(&info) {
                    PickerOutcome::Ask(
                        PickerState::Password(info),
                        one_line(notice),
                        Prompt::Secret { title: String::from_str(PASSWORD_PROMPT) },
                    )
                } else {
                    PickerOutcome::Done(one_line(notice), Some(info))
                }
            },
            ServerChoice::Manual => PickerOutcome::Ask(
                PickerState::User,
                no_lines(),
                Prompt::Text { title: String::from_str(USERNAME_PROMPT) },
            ),
        },
        (PickerState::User, Reply::Typed(u)) => PickerOutcome::Ask(
            PickerState::Ip(u),
            no_lines(),
            Prompt::Text { title: String::from_str(IP_PROMPT) },
        ),
        (PickerState::Ip(u), Reply::Typed(ip)) => {
            let (notice, info) = manual_server(u, ip);
            PickerOutcome::Ask(
                PickerState::Password(info),
                one_line(notice),
                Prompt::Secret { title: String::from_str(PASSWORD_PROMPT) },
            )
        },
        (PickerState::Password(info), Reply::Typed(p)) => PickerOutcome::Done(
            no_lines(),
            Some(with_entered_password(info, p)),
        ),
        _ => PickerOutcome::Done(no_lines(), None),
    }
}

// ---------------------------------------------------------------------------
// connect
// ---------------------------------------------------------------------------
/// Where `connect` stands.
pub enum ConnectState {
    Start,
    Picking(PickerState),
    Connecting(ServerInfo),
}

/// The mathematical value of a [`ConnectState`].
pub enum ConnectView {
    Start,
    Picking(PickerView),
    Connecting(ServerInfoView),
}

impl View for ConnectState {
    type V = ConnectView;

    open spec fn view(&self) -> ConnectView {
        match self {
            ConnectState::Start => ConnectView::Start,
            ConnectState::Picking(p) => ConnectView::Picking(p@),
            ConnectState::Connecting(i) => ConnectView::Connecting(i@),
        }
    }
}

/// Whether `reply` answers what `connect` asked in `state`.
pub open spec fn connect_expects(state: ConnectView, reply: Reply) -> bool {
    match state {
        ConnectView::Start => reply is Begin,
        ConnectView::Picking(p) => picker_expects(p, reply),
        ConnectView::Connecting(_) => reply is Ran,
    }
}

/// The SSH plan for picked details.
pub open spec fn ssh_for(info: ServerInfoView) -> PlanView {
    ssh_plan_spec(info.user, info.ip, info.key_path, info.password)
}

/// One step of `connect`: pick a server (or cancel), then log in with
/// [`ssh_plan_spec`]; its outcome is the result.
pub open spec fn connect_spec(servers: Seq<Server>, state: ConnectView, reply: Reply) -> StepView<
    ConnectView,
> {
    match state {
        ConnectView::Start => StepView::Ask {
            next: ConnectView::Picking(PickerView::Menu),
            notices: Seq::empty(),
            prompt: server_menu_prompt(servers),
        },
        ConnectView::Picking(p) => match picker_spec(servers, p, reply) {
            PickerOutcomeView::Ask(p2, n, q) => StepView::Ask {
                next: ConnectView::Picking(p2),
                notices: n,
                prompt: q,
            },
            PickerOutcomeView::Done(n, None) => StepView::Finish { notices: n, result: Ok(()) },
            PickerOutcomeView::Done(n, Some(info)) => StepView::Run {
                next: ConnectView::Connecting(info),
                notices: n.push(ssh_notice(info.key_path, info.password)),
                plan: ssh_for(info),
            },
        },
        ConnectView::Connecting(info) => match reply {
            Reply::Ran(ev) => StepView::Finish {
                notices: Seq::empty(),
                result: outcome_spec(ssh_for(info), ev),
            },
            _ => StepView::Finish { notices: Seq::empty(), result: Ok(()) },
        },
    }
}

/// Runs one step of `connect`: connect to a server over SSH.
pub fn connect(servers: &[Server], state: ConnectState, reply: Reply) -> (res: Step<
    ConnectState,
>)
    requires
        connect_expects(state@, reply),
    ensures
        res@ == connect_spec(servers@, state@, reply),
{
    match state {
        ConnectState::Start => Step::Ask {
            next: ConnectState::Picking(PickerState::Menu),
            notices: no_lines(),
            prompt: menu_prompt(servers),
        },
        ConnectState::Picking(p) => match select_server(servers, p, reply) {
            PickerOutcome::Ask(p2, n, q) => Step::Ask {
                next: ConnectState::Picking(p2),
                notices: n,
                prompt: q,
            },
            PickerOutcome::Done(n, None) => Step::Finish { notices: n, result: Ok(()) },
            PickerOutcome::Done(n, Some(info)) => {
                let (notice, plan) = ssh_plan(
                    info.user.as_str(),
                    info.ip.as_str(),
                    opt_as_str(&info.key_path),
                    opt_as_str(&info.password),
                );
                let ghost nv = views(n@);
                let ghost sv = notice@;
                let mut notices = n;
                notices.push(notice);
                assert(views(notices@) =~= nv.push(sv));
                Step::Run { next: ConnectState::Connecting(info), notices, plan }
            },
        },
        ConnectState::Connecting(info) => match reply {
            Reply::Ran(ev) => {
                let (_, plan) = ssh_plan(
                    info.user.as_str(),
                    info.ip.as_str(),
                    opt_as_str(&info.key_path),
                    opt_as_str(&info.password),
                );
                Step::Finish { notices: no_lines(), result: plan.outcome(&ev) }
            },
            _ => Step::Finish { notices: no_lines(), result: Ok(()) },
        },
    }
}

// ---------------------------------------------------------------------------
// transfer
// ---------------------------------------------------------------------------
/// Where `transfer` stands.
pub enum TransferState {
    Start,
    Mode,
    Picking(TransferMode, PickerState),
    /// The first path was asked for.
    First(TransferMode, ServerInfo),
    /// The second path was asked for; the first answer is kept.
    Second(TransferMode, ServerInfo, String),
    /// The copy from the first to the second location runs.
    Copying(String, String, ServerInfo),
}

/// The mathematical value of a [`TransferState`].
pub enum TransferView {
    Start,
    Mode,
    Picking(TransferMode, PickerView),
    First(TransferMode, ServerInfoView),
    Second(TransferMode, ServerInfoView, Seq<char>),
    Copying(Seq<char>, Seq<char>, ServerInfoView),
}

impl View for TransferState {
    type V = TransferView;

    open spec fn view(&self) -> TransferView {
        match self {
            TransferState::Start => TransferView::Start,
            TransferState::Mode => TransferView::Mode,
            TransferState::Picking(m, p) => TransferView::Picking(*m, p@),
            TransferState::First(m, i) => TransferView::First(*m, i@),
            TransferState::Second(m, i, a) => TransferView::Second(*m, i@, a@),
            TransferState::Copying(s, d, i) => TransferView::Copying(s@, d@, i@),
        }
    }
}

/// Whether `reply` answers what `transfer` asked in `state`.
pub open spec fn transfer_expects(state: TransferView, reply: Reply) -> bool {
    match state {
        TransferView::Start => reply is Begin,
        TransferView::Mode => reply is Picked,
        TransferView::Picking(_, p) => picker_expects(p, reply),
        TransferView::First(..) => reply is Typed,
        TransferView::Second(..) => reply is Typed,
        TransferView::Copying(..) => reply is Ran,
    }
}

/// The first path question of a mode: the local file of an upload (with
/// file-name completion, required) or the remote file of a download
/// (required).
pub open spec fn first_prompt(m: TransferMode) -> PromptView {
    match m {
        TransferMode::Upload => PromptView::LocalPath { title: UPLOAD_LOCAL_PROMPT@, required: true },
        TransferMode::Download => PromptView::Text { title: DOWNLOAD_REMOTE_PROMPT@ },
    }
}

/// The second path question of a mode: the remote directory of an upload
/// or the local destination of a download (with file-name completion);
/// either may be left empty for its default.
pub open spec fn second_prompt(m: TransferMode) -> PromptView {
    match m {
        TransferMode::Upload => PromptView::OptionalText { title: UPLOAD_REMOTE_PROMPT@ },
        TransferMode::Download => PromptView::LocalPath {
            title: DOWNLOAD_LOCAL_PROMPT@,
            required: false,
        },
    }
}

/// Source and destination of a copy, from the two answers.
pub open spec fn copy_ends(m: TransferMode, info: ServerInfoView, first: Seq<char>, second: Seq<
    char,
>) -> (Seq<char>, Seq<char>) {
    match m {
        TransferMode::Upload => (
            first,
            remote_spec(info.user, info.ip, or_default(second, UPLOAD_DEFAULT@)),
        ),
        TransferMode::Download => (
            remote_spec(info.user, info.ip, first),
            or_default(second, DOWNLOAD_DEFAULT@),
        ),
    }
}

/// The `scp` plan of a copy.
pub open spec fn scp_for(src: Seq<char>, dst: Seq<char>, info: ServerInfoView) -> PlanView {
    scp_plan_spec(src, dst, info.key_path, info.password)
}

/// One step of `transfer`: pick the direction (or cancel), pick a server
/// (or cancel), ask the two paths, then copy with [`scp_plan_spec`]; a
/// successful copy prints [`TRANSFER_DONE`].
pub open spec fn transfer_spec(servers: Seq<Server>, state: TransferView, reply: Reply) -> StepView<
    TransferView,
> {
    match state {
        TransferView::Start => StepView::Ask {
            next: TransferView::Mode,
            notices: Seq::empty(),
            prompt: PromptView::Choose { title: MODE_PROMPT@, items: mode_menu_spec(), default: 0 },
        },
        TransferView::Mode => match reply {
            Reply::Picked(i) => match mode_choice_spec(i as nat) {
                Ok(Some(m)) => StepView::Ask {
                    next: TransferView::Picking(m, PickerView::Menu),
                    notices: Seq::empty(),
                    prompt: server_menu_prompt(servers),
                },
                Ok(None) => StepView::Finish { notices: Seq::empty(), result: Ok(()) },
                Err(e) => StepView::Finish { notices: Seq::empty(), result: Err(e) },
            },
            _ => StepView::Finish { notices: Seq::empty(), result: Ok(()) },
        },
        TransferView::Picking(m, p) => match picker_spec(servers, p, reply) {
            PickerOutcomeView::Ask(p2, n, q) => StepView::Ask {
                next: TransferView::Picking(m, p2),
                notices: n,
                prompt: q,
            },
            PickerOutcomeView::Done(n, None) => StepView::Finish { notices: n, result: Ok(()) },
            PickerOutcomeView::Done(n, Some(info)) => StepView::Ask {
                next: TransferView::First(m, info),
                notices: n,
                prompt: first_prompt(m),
            },
        },
        TransferView::First(m, info) => match reply {
            Reply::Typed(a) => StepView::Ask {
                next: TransferView::Second(m, info, a@),
                notices: Seq::empty(),
                prompt: second_prompt(m),
            },
            _ => StepView::Finish { notices: Seq::empty(), result: Ok(()) },
        },
        TransferView::Second(m, info, a) => match reply {
            Reply::Typed(b) => {
                let ends = copy_ends(m, info, a, b@);
                StepView::Run {
                    next: TransferView::Copying(ends.0, ends.1, info),
                    notices: seq![scp_notice(info.key_path, info.password)],
                    plan: scp_for(ends.0, ends.1, info),
                }
            },
            _ => StepView::Finish { notices: Seq::empty(), result: Ok(()) },
        },
        TransferView::Copying(src, dst, info) => match reply {
            Reply::Ran(ev) => match outcome_spec(scp_for(src, dst, info), ev) {
                Ok(()) => StepView::Finish { notices: seq![TRANSFER_DONE@], result: Ok(()) },
                Err(e) => StepView::Finish { notices: Seq::empty(), result: Err(e) },
            },
            _ => StepView::Finish { notices: Seq::empty(), result: Ok(()) },
        },
    }
}

/// The first path question of a mode.
fn first_question(m: TransferMode) -> (res: Prompt)
    ensures
        res@ == first_prompt(m),
{
    match m {
        TransferMode::Upload => Prompt::LocalPath {
            title: String::from_str(UPLOAD_LOCAL_PROMPT),
            required: true,
        },
        TransferMode::Download => Prompt::Text { title: String::from_str(DOWNLOAD_REMOTE_PROMPT) },
    }
}

/// The second path question of a mode.
fn second_question(m: TransferMode) -> (res: Prompt)
    ensures
        res@ == second_prompt(m),
{
    match m {
        TransferMode::Upload => Prompt::OptionalText { title: String::from_str(UPLOAD_REMOTE_PROMPT) },
        TransferMode::Download => Prompt::LocalPath {
            title: String::from_str(DOWNLOAD_LOCAL_PROMPT),
            required: false,
        },
    }
}

/// The `scp` notice and plan of a copy.
fn scp_of(src: &str, dst: &str, info: &ServerInfo) -> (res: (String, CommandPlan))
    ensures
        res.0@ == scp_notice(info@.key_path, info@.password),
        res.1@ == scp_for(src@, dst@, info@),
{
    scp_plan(src, dst, opt_as_str(&info.key_path), opt_as_str(&info.password))
}

/// Runs one step of `transfer`: copy a file to or from a server.
pub fn transfer(servers: &[Server], state: TransferState, reply: Reply) -> (res: Step<
    TransferState,
>)
    requires
        transfer_expects(state@, reply),
    ensures
        res@ == transfer_spec(servers@, state@, reply),
{
    match state {
        TransferState::Start => {
            let items = mode_menu();
            Step::Ask {
                next: TransferState::Mode,
                notices: no_lines(),
                prompt: Prompt::Choose { title: String::from_str(MODE_PROMPT), items, default: 0 },
            }
        },
        TransferState::Mode => match reply {
            Reply::Picked(i) => match mode_choice(i) {
                Ok(Some(m)) => Step::Ask {
                    next: TransferState::Picking(m, PickerState::Menu),
                    notices: no_lines(),
                    prompt: menu_prompt(servers),
                },
                Ok(None) => Step::Finish { notices: no_lines(), result: Ok(()) },
                Err(e) => Step::Finish { notices: no_lines(), result: Err(e) },
            },
            _ => Step::Finish { notices: no_lines(), result: Ok(()) },
        },
        TransferState::Picking(m, p) => match select_server(servers, p, reply) {
            PickerOutcome::Ask(p2, n, q) => Step::Ask {
                next: TransferState::Picking(m, p2),
                notices: n,
                prompt: q,
            },
            PickerOutcome::Done(n, None) => Step::Finish { notices: n, result: Ok(()) },
            PickerOutcome::Done(n, Some(info)) => Step::Ask {
                next: TransferState::First(m, info),
                notices: n,
                prompt: first_question(m),
            },
        },
        TransferState::First(m, info) => match reply {
            Reply::Typed(a) => Step::Ask {
                next: TransferState::Second(m, info, a),
                notices: no_lines(),
                prompt: second_question(m),
            },
            _ => Step::Finish { notices: no_lines(), result: Ok(()) },
        },
        TransferState::Second(m, info, a) => match reply {
            Reply::Typed(b) => {
                let (src, dst) = match m {
                    TransferMode::Upload => upload_paths(
                        info.user.as_str(),
                        info.ip.as_str(),
                        a.as_str(),
                        b.as_str(),
                    ),
                    TransferMode::Download => download_paths(
                        info.user.as_str(),
                        info.ip.as_str(),
                        a.as_str(),
                        b.as_str(),
                    ),
                };
                let (notice, plan) = scp_of(src.as_str(), dst.as_str(), &info);
                Step::Run {
                    next: TransferState::Copying(src, dst, info),
                    notices: one_line(notice),
                    plan,
                }
            },
            _ => Step::Finish { notices: no_lines(), result: Ok(()) },
        },
        TransferState::Copying(src, dst, info) => match reply {
            Reply::Ran(ev) => {
                let (_, plan) = scp_of(src.as_str(), dst.as_str(), &info);
                match plan.outcome(&ev) {
                    Ok(()) => Step::Finish {
                        notices: one_line(String::from_str(TRANSFER_DONE)),
                        result: Ok(()),
                    },
                    Err(e) => Step::Finish { notices: no_lines(), result: Err(e) },
                }
            },
            _ => Step::Finish { notices: no_lines(), result: Ok(()) },
        },
    }
}

// ---------------------------------------------------------------------------
// build_only
// ---------------------------------------------------------------------------
/// Where `build_only` stands.
pub enum BuildState {
    Start,
    /// The registry menu was shown.
    Registry,
    /// The image menu of the registry with this index was shown.
    Image(usize),
    /// The image name was asked for.
    ImageName,
    /// The image with this name is being built.
    Building(String),
}

/// The mathematical value of a [`BuildState`].
pub enum BuildView {
    Start,
    Registry,
    Image(nat),
    ImageName,
    Building(Seq<char>),
}

impl View for BuildState {
    type V = BuildView;

    open spec fn view(&self) -> BuildView {
        match self {
            BuildState::Start => BuildView::Start,
            BuildState::Registry => BuildView::Registry,
            BuildState::Image(i) => BuildView::Image(*i as nat),
            BuildState::ImageName => BuildView::ImageName,
            BuildState::Building(n) => BuildView::Building(n@),
        }
    }
}

/// Whether `reply` answers what `build_only` asked in `state`. A registry
/// index past the menu is left out: the registry list is indexed with it,
/// which would panic.
pub open spec fn build_expects(regs: Seq<EcrRegistry>, state: BuildView, reply: Reply) -> bool {
    match state {
        BuildView::Start => reply is Begin,
        BuildView::Registry => reply matches Reply::Picked(i) && i < regs.len(),
        BuildView::Image(r) => r < regs.len() && reply is Picked,
        BuildView::ImageName => reply is Typed,
        BuildView::Building(_) => reply is Ran,
    }
}

/// The step that builds `image`.
pub open spec fn build_run(image: Seq<char>) -> StepView<BuildView> {
    StepView::Run {
        next: BuildView::Building(image),
        notices: seq!["Building Docker image: "@ + tagged(image, DEFAULT_TAG@)],
        plan: docker_plan_spec(build_args_spec(image)),
    }
}

/// The image name question.
pub open spec fn image_name_prompt() -> PromptView {
    PromptView::Text { title: IMAGE_NAME_PROMPT@ }
}

/// One step of `build_only`: no registry is an error; otherwise pick a
/// registry, then one of its images (or type a name; with no images the
/// name is asked for at once), then build it.
pub open spec fn build_spec(regs: Seq<EcrRegistry>, state: BuildView, reply: Reply) -> StepView<
    BuildView,
> {
    match state {
        BuildView::Start => if regs.len() == 0 {
            StepView::Finish {
                notices: Seq::empty(),
                result: Err(
                    error_value(
                        StoolErrorType::ConfigLoadFailed,
                        Some("No ECR registries configured"@),
                        None,
                    ),
                ),
            }
        } else {
            StepView::Ask {
                next: BuildView::Registry,
                notices: Seq::empty(),
                prompt: PromptView::Choose {
                    title: REGISTRY_PROMPT@,
                    items: registry_menu_spec(regs),
                    default: 0,
                },
            }
        },
        BuildView::Registry => match reply {
            Reply::Picked(i) => {
                let images = views(regs[i as int].images@);
                if images.len() == 0 {
                    StepView::Ask {
                        next: BuildView::ImageName,
                        notices: Seq::empty(),
                        prompt: image_name_prompt(),
                    }
                } else {
                    StepView::Ask {
                        next: BuildView::Image(i as nat),
                        notices: Seq::empty(),
                        prompt: PromptView::Choose {
                            title: IMAGE_PROMPT@,
                            items: image_menu_spec(images),
                            default: 0,
                        },
                    }
                }
            },
            _ => StepView::Finish { notices: Seq::empty(), result: Ok(()) },
        },
        BuildView::Image(r) => match reply {
            Reply::Picked(j) => {
                let images = views(regs[r as int].images@);
                if j < images.len() {
                    build_run(images[j as int])
                } else {
                    StepView::Ask {
                        next: BuildView::ImageName,
                        notices: Seq::empty(),
                        prompt: image_name_prompt(),
                    }
                }
            },
            _ => StepView::Finish { notices: Seq::empty(), result: Ok(()) },
        },
        BuildView::ImageName => match reply {
            Reply::Typed(n) => build_run(n@),
            _ => StepView::Finish { notices: Seq::empty(), result: Ok(()) },
        },
        BuildView::Building(image) => match reply {
            Reply::Ran(ev) => match outcome_spec(docker_plan_spec(build_args_spec(image)), ev) {
                Ok(()) => StepView::Finish {
                    notices: seq!["Build completed successfully"@],
                    result: Ok(()),
                },
                Err(e) => StepView::Finish { notices: Seq::empty(), result: Err(e) },
            },
            _ => StepView::Finish { notices: Seq::empty(), result: Ok(()) },
        },
    }
}

/// The step that builds `image`.
fn build_step_for(image: String) -> (res: Step<BuildState>)
    ensures
        res@ == build_run(image@),
{
    let (notice, plan, _) = build_image_plan(image.as_str());
    Step::Run { next: BuildState::Building(image), notices: one_line(notice), plan }
}

/// The image name question.
fn image_name_question() -> (res: Prompt)
    ensures
        res@ == image_name_prompt(),
{
    Prompt::Text { title: String::from_str(IMAGE_NAME_PROMPT) }
}

/// Runs one step of `build_only`: build a Docker image.
pub fn build_only(regs: &[EcrRegistry], state: BuildState, reply: Reply) -> (res: Step<BuildState>)
    requires
        build_expects(regs@, state@, reply),
    ensures
        res@ == build_spec(regs@, state@, reply),
{
    match state {
        BuildState::Start => {
            if regs.len() == 0 {
                Step::Finish { notices: no_lines(), result: Err(no_registries()) }
            } else {
                Step::Ask {
                    next: BuildState::Registry,
                    notices: no_lines(),
                    prompt: Prompt::Choose {
                        title: String::from_str(REGISTRY_PROMPT),
                        items: registry_menu(regs),
                        default: 0,
                    },
                }
            }
        },
        BuildState::Registry => match reply {
            Reply::Picked(i) => {
                let images = &regs[i].images;
                if images.len() == 0 {
                    Step::Ask { next: BuildState::ImageName, notices: no_lines(), prompt: image_name_question() }
                } else {
                    Step::Ask {
                        next: BuildState::Image(i),
                        notices: no_lines(),
                        prompt: Prompt::Choose {
                            title: String::from_str(IMAGE_PROMPT),
                            items: image_menu(images),
                            default: 0,
                        },
                    }
                }
            },
            _ => Step::Finish { notices: no_lines(), result: Ok(()) },
        },
        BuildState::Image(r) => match reply {
            Reply::Picked(j) => {
                let images = &regs[r].images;
                if j < images.len() {
                    assert(views(images@)[j as int] == images@[j as int]@);
                    build_step_for(images[j].clone())
                } else {
                    Step::Ask { next: BuildState::ImageName, notices: no_lines(), prompt: image_name_question() }
                }
            },
            _ => Step::Finish { notices: no_lines(), result: Ok(()) },
        },
        BuildState::ImageName => match reply {
            Reply::Typed(n) => build_step_for(n),
            _ => Step::Finish { notices: no_lines(), result: Ok(()) },
        },
        BuildState::Building(image) => match reply {
            Reply::Ran(ev) => {
                let (_, plan, done) = build_image_plan(image.as_str());
                match plan.outcome(&ev) {
                    Ok(()) => Step::Finish { notices: one_line(done), result: Ok(()) },
                    Err(e) => Step::Finish { notices: no_lines(), result: Err(e) },
                }
            },
            _ => Step::Finish { notices: no_lines(), result: Ok(()) },
        },
    }
}

} // verus!
