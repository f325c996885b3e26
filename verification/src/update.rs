//! System updates: the commands that update Homebrew and the Rust
//! toolchain, and how the combined update reports its failures.

use crate::command::{execute_command_plan, inherit_plan, template, CommandPlan};
use crate::error::{error_value, rendered, StoolError, StoolErrorType, StoolErrorView, StoolResult};
use crate::text::{join, join_spec, views};
use vstd::prelude::*;
use vstd::string::*;

verus! {

/// Which updates the command line asks for.
#[derive(Debug, Clone, Copy, PartialEq, Eq, Structural)]
pub enum UpdateTarget {
    Brew,
    Rustup,
    All,
}

/// `--brew` alone updates Homebrew, `--rustup` alone the toolchain; no flag
/// or both flags update both.
pub fn update_target(brew: bool, rustup: bool) -> (res: UpdateTarget)
    ensures
        res == (if brew && !rustup {
            UpdateTarget::Brew
        } else if !brew && rustup {
            UpdateTarget::Rustup
        } else {
            UpdateTarget::All
        }),
{
    if brew && !rustup {
        UpdateTarget::Brew
    } else if !brew && rustup {
        UpdateTarget::Rustup
    } else {
        UpdateTarget::All
    }
}

/// The commands of the Homebrew update, in order: `brew update`, then
/// `brew upgrade`; each failure is a brew-update error.
pub fn brew_plans() -> (res: (CommandPlan, CommandPlan))
    ensures
        res.0@ == inherit_plan(
            "brew"@,
            seq!["update"@],
            template(StoolErrorType::BrewUpdateFailed, None),
            template(StoolErrorType::BrewUpdateFailed, None),
        ),
        res.1@ == inherit_plan(
            "brew"@,
            seq!["upgrade"@],
            template(StoolErrorType::BrewUpdateFailed, None),
            template(StoolErrorType::BrewUpdateFailed, None),
        ),
{
    let a = execute_command_plan("brew", &["update"], StoolErrorType::BrewUpdateFailed);
    let b = execute_command_plan("brew", &["upgrade"], StoolErrorType::BrewUpdateFailed);
    assert(a@.args =~= seq!["update"@]);
    assert(b@.args =~= seq!["upgrade"@]);
    (a, b)
}

/// The command of the toolchain update: `rustup update`; its failures are
/// rustup-update errors.
pub fn rustup_plan() -> (res: CommandPlan)
    ensures
        res@ == inherit_plan(
            "rustup"@,
            seq!["update"@],
            template(StoolErrorType::RustupUpdateFailed, None),
            template(StoolErrorType::RustupUpdateFailed, None),
        ),
{
    let a = execute_command_plan("rustup", &["update"], StoolErrorType::RustupUpdateFailed);
    assert(a@.args =~= seq!["update"@]);
    a
}

/// Printed before and after the Homebrew update.
pub const BREW_START: &'static str = "Updating Homebrew";

/// See [`BREW_START`].
pub const BREW_DONE: &'static str = "Homebrew updated successfully";

/// Printed before and after the toolchain update.
pub const RUSTUP_START: &'static str = "Updating Rust toolchain";

/// See [`RUSTUP_START`].
pub const RUSTUP_DONE: &'static str = "Rust toolchain updated successfully";

/// Printed when both updates succeeded.
pub const ALL_DONE: &'static str = "\nAll updates completed successfully";

/// The names of the updates that failed, in the order they ran.
pub open spec fn failed_updates(brew_ok: bool, rustup_ok: bool) -> Seq<Seq<char>> {
    (if brew_ok {
        Seq::<Seq<char>>::empty()
    } else {
        seq!["brew"@]
    }) + (if rustup_ok {
        Seq::<Seq<char>>::empty()
    } else {
        seq!["rustup"@]
    })
}

/// The result of updating both: success when both succeeded, otherwise a
/// command-execution error that lists the failed updates.
pub open spec fn update_all_spec(brew_ok: bool, rustup_ok: bool) -> Result<(), StoolErrorView> {
    let failed = failed_updates(brew_ok, rustup_ok);
    if failed.len() == 0 {
        Ok(())
    } else {
        Err(
            error_value(
                StoolErrorType::CommandExecutionFailed,
                Some("Failed updates: "@ + join_spec(failed, ", "@)),
                None,
            ),
        )
    }
}

/// Computes [`update_all_spec`] from the outcomes of the two updates.
pub fn update_all_result(brew_ok: bool, rustup_ok: bool) -> (res: StoolResult<()>)
    ensures
        crate::command::result_view(res) == update_all_spec(brew_ok, rustup_ok),
{
    let mut failed: Vec<String> = Vec::new();
    if !brew_ok {
        failed.push(String::from_str("brew"));
    }
    if !rustup_ok {
        failed.push(String::from_str("rustup"));
    }
    assert(views(failed@) =~= failed_updates(brew_ok, rustup_ok));
    if failed.len() == 0 {
        Ok(())
    } else {
        let mut m = String::from_str("Failed updates: ");
        let j = join(&failed, ", ");
        m.append(j.as_str());
        Err(StoolError::new(StoolErrorType::CommandExecutionFailed).with_message(m.as_str()))
    }
}

/// The line printed to standard error when one update failed:
/// `<label> update failed: <error>`.
pub fn failure_line(label: &str, e: &StoolError) -> (res: String)
    ensures
        res@ == label@ + " update failed: "@ + rendered(e@),
{
    let mut s = String::from_str(label);
    s.append(" update failed: ");
    let d = e.display();
    s.append(d.as_str());
    s
}

} // verus!
