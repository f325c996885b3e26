//! Plans for external commands and what their outcomes mean.
//!
//! A [`CommandPlan`] says which program runs with which arguments, what its
//! standard input is, and which error each kind of failure becomes. The
//! program's edge runs the plan and reports a [`RunEvent`];
//! [`CommandPlan::outcome`] turns that event into the operation's result.

use crate::error::{error_value, StoolError, StoolErrorType, StoolErrorView, StoolResult};
use crate::text::{opt_view, views};
use vstd::prelude::*;
use vstd::string::*;

verus! {

/// The kind and message of an error that a failure will produce.
pub struct ErrorTemplate {
    pub error_type: StoolErrorType,
    pub message: Option<String>,
}

/// The mathematical value of an [`ErrorTemplate`].
pub struct TemplateView {
    pub error_type: StoolErrorType,
    pub message: Option<Seq<char>>,
}

impl View for ErrorTemplate {
    type V = TemplateView;

    open spec fn view(&self) -> TemplateView {
        TemplateView { error_type: self.error_type, message: opt_view(self.message) }
    }
}

/// The template of the given kind and message.
pub open spec fn template(t: StoolErrorType, message: Option<Seq<char>>) -> TemplateView {
    TemplateView { error_type: t, message }
}

/// The view of an optional string slice.
pub open spec fn opt_str_view(o: Option<&str>) -> Option<Seq<char>> {
    match o {
        Some(s) => Some(s@),
        None => None,
    }
}

impl ErrorTemplate {
    /// A template of kind `t` with no message.
    pub fn plain(t: StoolErrorType) -> (res: ErrorTemplate)
        ensures
            res@ == template(t, None),
    {
        ErrorTemplate { error_type: t, message: None }
    }

    /// A template of kind `t` with message `m`.
    pub fn with_text(t: StoolErrorType, m: &str) -> (res: ErrorTemplate)
        ensures
            res@ == template(t, Some(m@)),
    {
        ErrorTemplate { error_type: t, message: Some(String::from_str(m)) }
    }

    /// The error this template describes, with `source` as its cause.
    pub fn instantiate(&self, source: Option<&str>) -> (e: StoolError)
        ensures
            e@ == error_value(self@.error_type, self@.message, opt_str_view(source)),
    {
        let e = StoolError::new(self.error_type);
        let e = match &self.message {
            Some(m) => e.with_message(m.as_str()),
            None => e,
        };
        match source {
            Some(s) => e.with_source(s),
            None => e,
        }
    }
}

/// What the running program reads on its standard input.
pub enum Input {
    /// The terminal, with output shown as it comes.
    Inherit,
    /// Nothing interactive; the output is collected.
    Capture,
    /// The given text, written to a pipe that is then closed.
    Feed(String),
}

/// The mathematical value of an [`Input`].
pub enum InputView {
    Inherit,
    Capture,
    Feed(Seq<char>),
}

impl View for Input {
    type V = InputView;

    open spec fn view(&self) -> InputView {
        match self {
            Input::Inherit => InputView::Inherit,
            Input::Capture => InputView::Capture,
            Input::Feed(s) => InputView::Feed(s@),
        }
    }
}

/// An external command and the meaning of its failures.
pub struct CommandPlan {
    pub program: String,
    pub args: Vec<String>,
    pub input: Input,
    /// The program could not be started.
    pub on_spawn: ErrorTemplate,
    /// The input could not be written to the program.
    pub on_write: ErrorTemplate,
    /// Waiting for the program to end failed.
    pub on_wait: ErrorTemplate,
    /// The program ended with a failure status.
    pub on_exit: ErrorTemplate,
}

/// The mathematical value of a [`CommandPlan`].
pub struct PlanView {
    pub program: Seq<char>,
    pub args: Seq<Seq<char>>,
    pub input: InputView,
    pub on_spawn: TemplateView,
    pub on_write: TemplateView,
    pub on_wait: TemplateView,
    pub on_exit: TemplateView,
}

impl View for CommandPlan {
    type V = PlanView;

    open spec fn view(&self) -> PlanView {
        PlanView {
            program: self.program@,
            args: views(self.args@),
            input: self.input@,
            on_spawn: self.on_spawn@,
            on_write: self.on_write@,
            on_wait: self.on_wait@,
            on_exit: self.on_exit@,
        }
    }
}

/// What happened when a plan was run.
pub enum RunEvent {
    /// Starting the program failed with the given error text.
    SpawnFailed(String),
    /// Writing the input failed with the given error text.
    WriteFailed(String),
    /// Waiting for the program failed with the given error text.
    WaitFailed(String),
    /// The program ended; `true` when its status was success.
    Exited(bool),
}

/// The error value a template gives with the given cause.
pub open spec fn from_template(t: TemplateView, source: Option<Seq<char>>) -> StoolErrorView {
    error_value(t.error_type, t.message, source)
}

/// What running a plan means, given what happened.
pub open spec fn outcome_spec(p: PlanView, ev: RunEvent) -> Result<(), StoolErrorView> {
    match ev {
        RunEvent::SpawnFailed(s) => Err(from_template(p.on_spawn, Some(s@))),
        RunEvent::WriteFailed(s) => Err(from_template(p.on_write, Some(s@))),
        RunEvent::WaitFailed(s) => Err(from_template(p.on_wait, Some(s@))),
        RunEvent::Exited(ok) => if ok {
            Ok(())
        } else {
            Err(from_template(p.on_exit, None))
        },
    }
}

/// The view of an operation's result.
pub open spec fn result_view<T>(r: StoolResult<T>) -> Result<T, StoolErrorView> {
    match r {
        Ok(v) => Ok(v),
        Err(e) => Err(e@),
    }
}

impl CommandPlan {
    /// The result of the operation, given what happened when the plan ran.
    pub fn outcome(&self, ev: &RunEvent) -> (res: StoolResult<()>)
        ensures
            result_view(res) == outcome_spec(self@, *ev),
    {
        match ev {
            RunEvent::SpawnFailed(s) => Err(self.on_spawn.instantiate(Some(s.as_str()))),
            RunEvent::WriteFailed(s) => Err(self.on_write.instantiate(Some(s.as_str()))),
            RunEvent::WaitFailed(s) => Err(self.on_wait.instantiate(Some(s.as_str()))),
            RunEvent::Exited(ok) => {
                if *ok {
                    Ok(())
                } else {
                    Err(self.on_exit.instantiate(None))
                }
            },
        }
    }
}

/// A plan that runs `program` with `args` on the terminal; starting failures
/// become `spawn`, a failure status becomes `exit`.
pub open spec fn inherit_plan(
    program: Seq<char>,
    args: Seq<Seq<char>>,
    spawn: TemplateView,
    exit: TemplateView,
) -> PlanView {
    PlanView {
        program,
        args,
        input: InputView::Inherit,
        on_spawn: spawn,
        on_write: spawn,
        on_wait: spawn,
        on_exit: exit,
    }
}

/// Builds an [`inherit_plan`].
pub fn make_inherit_plan(
    program: &str,
    args: Vec<String>,
    spawn: ErrorTemplate,
    exit: ErrorTemplate,
) -> (p: CommandPlan)
    ensures
        p@ == inherit_plan(program@, views(args@), spawn@, exit@),
{
    let on_write = ErrorTemplate { error_type: spawn.error_type, message: crate::config::clone_opt(&spawn.message) };
    let on_wait = ErrorTemplate { error_type: spawn.error_type, message: crate::config::clone_opt(&spawn.message) };
    CommandPlan {
        program: String::from_str(program),
        args,
        input: Input::Inherit,
        on_spawn: spawn,
        on_write,
        on_wait,
        on_exit: exit,
    }
}

/// Builds a plan that collects the program's output.
pub fn make_capture_plan(
    program: &str,
    args: Vec<String>,
    spawn: ErrorTemplate,
    exit: ErrorTemplate,
) -> (p: CommandPlan)
    ensures
        p@ == (PlanView { input: InputView::Capture, ..inherit_plan(program@, views(args@), spawn@, exit@) }),
{
    let mut p = make_inherit_plan(program, args, spawn, exit);
    p.input = Input::Capture;
    p
}

/// Strings from string slices.
pub fn strings(parts: &[&str]) -> (res: Vec<String>)
    ensures
        views(res@) == parts@.map_values(|s: &str| s@),
{
    let mut res: Vec<String> = Vec::new();
    let mut i: usize = 0;
    while i < parts.len()
        invariant
            i <= parts@.len(),
            res@.len() == i,
            views(res@) == parts@.take(i as int).map_values(|s: &str| s@),
        decreases parts@.len() - i,
    {
        let ghost before = res@;
        res.push(String::from_str(parts[i]));
        assert(res@ == before.push(res@[i as int]));
        assert forall|k: int| 0 <= k < i + 1 implies #[trigger] views(res@)[k] == parts@.take(
            i + 1,
        ).map_values(|s: &str| s@)[k] by {
            if k < i {
                assert(views(before)[k] == parts@.take(i as int).map_values(|s: &str| s@)[k]);
            }
        }
        i = i + 1;
        assert(views(res@) =~= parts@.take(i as int).map_values(|s: &str| s@));
    }
    assert(parts@.take(parts@.len() as int) =~= parts@);
    res
}

// ---------------------------------------------------------------------------
// Generic commands
// ---------------------------------------------------------------------------
/// The result of a command whose status was `success`: an error of kind
/// `error_type` when it failed.
pub fn check_status(success: bool, error_type: StoolErrorType) -> (res: StoolResult<()>)
    ensures
        success ==> res is Ok,
        !success ==> (res matches Err(e) && e@ == error_value(error_type, None, None)),
{
    if !success {
        return Err(StoolError::new(error_type));
    }
    Ok(())
}

/// The plan of `execute_command`: run `program` with `args` on the terminal;
/// every failure is of kind `error_type`.
pub fn execute_command_plan(program: &str, args: &[&str], error_type: StoolErrorType) -> (p:
    CommandPlan)
    ensures
        p@ == inherit_plan(
            program@,
            args@.map_values(|s: &str| s@),
            template(error_type, None),
            template(error_type, None),
        ),
{
    make_inherit_plan(
        program,
        strings(args),
        ErrorTemplate::plain(error_type),
        ErrorTemplate::plain(error_type),
    )
}

// ---------------------------------------------------------------------------
// SSH and SCP
// ---------------------------------------------------------------------------
/// `user@ip`.
pub open spec fn target(user: Seq<char>, ip: Seq<char>) -> Seq<char> {
    user + "@"@ + ip
}

/// Builds `user@ip`.
pub fn user_at_host(user: &str, ip: &str) -> (res: String)
    ensures
        res@ == target(user@, ip@),
{
    let mut s = String::from_str(user);
    s.append("@");
    s.append(ip);
    s
}

/// The part of an `expect` script that answers the host-key question and
/// starts the password answer.
pub open spec fn expect_dialogue_head() -> Seq<char> {
    "\nexpect {\n\"yes/no\" {\nsend \"yes\\r\"\nexp_continue\n}\n\"assword:\" {\nsend \""@
}

/// The `expect` script that logs in with `ssh` and hands the session over.
pub open spec fn ssh_expect_script(user: Seq<char>, ip: Seq<char>, password: Seq<char>) -> Seq<
    char,
> {
    "spawn ssh "@ + target(user, ip) + expect_dialogue_head() + password
        + "\\r\"\n}\n}\ninteract\n"@
}

/// The `expect` script that copies with `scp` and waits for it to end.
pub open spec fn scp_expect_script(
    source: Seq<char>,
    destination: Seq<char>,
    password: Seq<char>,
) -> Seq<char> {
    "spawn scp "@ + source + " "@ + destination + expect_dialogue_head() + password
        + "\\r\"\n}\n}\nexpect eof\n"@
}

/// Builds [`ssh_expect_script`].
pub fn build_ssh_expect_script(user: &str, ip: &str, password: &str) -> (res: String)
    ensures
        res@ == ssh_expect_script(user@, ip@, password@),
{
    let mut s = String::from_str("spawn ssh ");
    let t = user_at_host(user, ip);
    s.append(t.as_str());
    s.append("\nexpect {\n\"yes/no\" {\nsend \"yes\\r\"\nexp_continue\n}\n\"assword:\" {\nsend \"");
    s.append(password);
    s.append("\\r\"\n}\n}\ninteract\n");
    s
}

/// Builds [`scp_expect_script`].
pub fn build_scp_expect_script(source: &str, destination: &str, password: &str) -> (res: String)
    ensures
        res@ == scp_expect_script(source@, destination@, password@),
{
    let mut s = String::from_str("spawn scp ");
    s.append(source);
    s.append(" ");
    s.append(destination);
    s.append("\nexpect {\n\"yes/no\" {\nsend \"yes\\r\"\nexp_continue\n}\n\"assword:\" {\nsend \"");
    s.append(password);
    s.append("\\r\"\n}\n}\nexpect eof\n");
    s
}

/// A plan that runs `expect -c <script>` on the terminal: the script is
/// handed over as an argument, so the terminal stays free for the session.
/// Starting `expect` fails with `spawn`, waiting for it with `wait`, and a
/// failure status becomes `exit`.
pub open spec fn expect_plan(
    script: Seq<char>,
    spawn: TemplateView,
    wait: TemplateView,
    exit: TemplateView,
) -> PlanView {
    PlanView {
        program: "expect"@,
        args: seq!["-c"@, script],
        input: InputView::Inherit,
        on_spawn: spawn,
        on_write: spawn,
        on_wait: wait,
        on_exit: exit,
    }
}

/// Builds [`expect_plan`] with messages `spawn_msg` and `wait_msg`, both
/// of kind `kind`.
fn make_expect_plan(
    script: String,
    kind: StoolErrorType,
    spawn_msg: &str,
    wait_msg: &str,
    exit: ErrorTemplate,
) -> (p: CommandPlan)
    ensures
        p@ == expect_plan(
            script@,
            template(kind, Some(spawn_msg@)),
            template(kind, Some(wait_msg@)),
            exit@,
        ),
{
    let args = vec![String::from_str("-c"), script];
    assert(views(args@) =~= seq!["-c"@, script@]);
    CommandPlan {
        program: String::from_str("expect"),
        args,
        input: Input::Inherit,
        on_spawn: ErrorTemplate::with_text(kind, spawn_msg),
        on_write: ErrorTemplate::with_text(kind, spawn_msg),
        on_wait: ErrorTemplate::with_text(kind, wait_msg),
        on_exit: exit,
    }
}

/// The line printed before connecting, which names the way of logging in.
pub open spec fn ssh_notice(key_path: Option<Seq<char>>, password: Option<Seq<char>>) -> Seq<char> {
    if key_path is Some {
        "Connecting with PEM key authentication"@
    } else if password is Some {
        "Connecting with password authentication"@
    } else {
        "Connecting with default SSH authentication"@
    }
}

/// How `execute_ssh` connects: a key file wins over a password, and with
/// neither plain `ssh` is run.
pub open spec fn ssh_plan_spec(
    user: Seq<char>,
    ip: Seq<char>,
    key_path: Option<Seq<char>>,
    password: Option<Seq<char>>,
) -> PlanView {
    let t = target(user, ip);
    let failed = template(
        StoolErrorType::SshConnectionFailed,
        Some("Failed to execute ssh command to "@ + t),
    );
    let refused = template(StoolErrorType::SshConnectionFailed, None);
    match key_path {
        Some(k) => inherit_plan("ssh"@, seq!["-i"@, k, t], failed, refused),
        None => match password {
            Some(p) => expect_plan(
                ssh_expect_script(user, ip, p),
                template(
                    StoolErrorType::ExpectCommandFailed,
                    Some("Failed to spawn expect for ssh to "@ + t),
                ),
                template(
                    StoolErrorType::ExpectCommandFailed,
                    Some("Failed to wait for expect process for ssh to "@ + t),
                ),
                refused,
            ),
            None => inherit_plan("ssh"@, seq![t], failed, refused),
        },
    }
}

/// The notice and the plan of `execute_ssh`.
pub fn ssh_plan(user: &str, ip: &str, key_path: Option<&str>, password: Option<&str>) -> (res: (
    String,
    CommandPlan,
))
    ensures
        res.0@ == ssh_notice(opt_str_view(key_path), opt_str_view(password)),
        res.1@ == ssh_plan_spec(user@, ip@, opt_str_view(key_path), opt_str_view(password)),
{
    let t = user_at_host(user, ip);
    let refused = ErrorTemplate::plain(StoolErrorType::SshConnectionFailed);
    let mut failed_msg = String::from_str("Failed to execute ssh command to ");
    failed_msg.append(t.as_str());
    let failed = ErrorTemplate::with_text(StoolErrorType::SshConnectionFailed, failed_msg.as_str());
    match key_path {
        Some(k) => {
            let args = vec![String::from_str("-i"), String::from_str(k), t];
            assert(views(args@) =~= seq!["-i"@, k@, target(user@, ip@)]);
            (
                String::from_str("Connecting with PEM key authentication"),
                make_inherit_plan("ssh", args, failed, refused),
            )
        },
        None => match password {
            Some(p) => {
                let mut spawn_msg = String::from_str("Failed to spawn expect for ssh to ");
                spawn_msg.append(t.as_str());
                let mut wait_msg = String::from_str("Failed to wait for expect process for ssh to ");
                wait_msg.append(t.as_str());
                let plan = make_expect_plan(
                    build_ssh_expect_script(user, ip, p),
                    StoolErrorType::ExpectCommandFailed,
                    spawn_msg.as_str(),
                    wait_msg.as_str(),
                    refused,
                );
                (String::from_str("Connecting with password authentication"), plan)
            },
            None => {
                let args = vec![t];
                assert(views(args@) =~= seq![target(user@, ip@)]);
                (
                    String::from_str("Connecting with default SSH authentication"),
                    make_inherit_plan("ssh", args, failed, refused),
                )
            },
        },
    }
}

/// The line printed before copying, which names the way of logging in.
pub open spec fn scp_notice(key_path: Option<Seq<char>>, password: Option<Seq<char>>) -> Seq<char> {
    if key_path is Some {
        "Transferring with PEM key authentication"@
    } else if password is Some {
        "Transferring with password authentication"@
    } else {
        "Transferring with default SSH authentication"@
    }
}

/// How `execute_scp` copies: a key file wins over a password, and with
/// neither plain `scp` is run.
pub open spec fn scp_plan_spec(
    source: Seq<char>,
    destination: Seq<char>,
    key_path: Option<Seq<char>>,
    password: Option<Seq<char>>,
) -> PlanView {
    let failed = template(
        StoolErrorType::FileTransferFailed,
        Some("Failed to execute scp from "@ + source + " to "@ + destination),
    );
    let refused = template(StoolErrorType::FileTransferFailed, None);
    match key_path {
        Some(k) => inherit_plan("scp"@, seq!["-i"@, k, source, destination], failed, refused),
        None => match password {
            Some(p) => expect_plan(
                scp_expect_script(source, destination, p),
                template(
                    StoolErrorType::FileTransferFailed,
                    Some("Failed to spawn expect for scp from "@ + source + " to "@ + destination),
                ),
                template(
                    StoolErrorType::FileTransferFailed,
                    Some(
                        "Failed to wait for expect process for scp from "@ + source + " to "@
                            + destination,
                    ),
                ),
                refused,
            ),
            None => inherit_plan("scp"@, seq![source, destination], failed, refused),
        },
    }
}

/// `prefix + source + " to " + destination`.
fn from_to(prefix: &str, source: &str, destination: &str) -> (res: String)
    ensures
        res@ == prefix@ + source@ + " to "@ + destination@,
{
    let mut s = String::from_str(prefix);
    s.append(source);
    s.append(" to ");
    s.append(destination);
    s
}

/// The notice and the plan of `execute_scp`; after the plan succeeds,
/// [`TRANSFER_DONE`] is printed.
pub fn scp_plan(
    source: &str,
    destination: &str,
    key_path: Option<&str>,
    password: Option<&str>,
) -> (res: (String, CommandPlan))
    ensures
        res.0@ == scp_notice(opt_str_view(key_path), opt_str_view(password)),
        res.1@ == scp_plan_spec(source@, destination@, opt_str_view(key_path), opt_str_view(password)),
{
    let refused = ErrorTemplate::plain(StoolErrorType::FileTransferFailed);
    let failed_msg = from_to("Failed to execute scp from ", source, destination);
    let failed = ErrorTemplate::with_text(StoolErrorType::FileTransferFailed, failed_msg.as_str());
    match key_path {
        Some(k) => {
            let args = vec![
                String::from_str("-i"),
                String::from_str(k),
                String::from_str(source),
                String::from_str(destination),
            ];
            assert(views(args@) =~= seq!["-i"@, k@, source@, destination@]);
            (
                String::from_str("Transferring with PEM key authentication"),
                make_inherit_plan("scp", args, failed, refused),
            )
        },
        None => match password {
            Some(p) => {
                let spawn_msg = from_to("Failed to spawn expect for scp from ", source, destination);
                let wait_msg = from_to(
                    "Failed to wait for expect process for scp from ",
                    source,
                    destination,
                );
                let plan = make_expect_plan(
                    build_scp_expect_script(source, destination, p),
                    StoolErrorType::FileTransferFailed,
                    spawn_msg.as_str(),
                    wait_msg.as_str(),
                    refused,
                );
                (String::from_str("Transferring with password authentication"), plan)
            },
            None => {
                let args = vec![String::from_str(source), String::from_str(destination)];
                assert(views(args@) =~= seq![source@, destination@]);
                (
                    String::from_str("Transferring with default SSH authentication"),
                    make_inherit_plan("scp", args, failed, refused),
                )
            },
        },
    }
}

/// Printed when a transfer has finished.
pub const TRANSFER_DONE: &'static str = "Transfer completed successfully";

} // verus!
