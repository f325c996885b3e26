//! The quick SSH command: a numbered server list without manual input or
//! cancel, and a password login through `expect -c`.

use crate::command::{
    inherit_plan, make_inherit_plan, opt_str_view, target, template, user_at_host, CommandPlan,
    ErrorTemplate, PlanView,
};
use crate::config::Server;
use crate::error::StoolErrorType;
use crate::interactive::{number_items, numbered_all, server_label, server_label_of};
use crate::text::views;
use vstd::prelude::*;
use vstd::string::*;

verus! {

/// Prompt of the server list ("choose a server").
pub const QUICK_PROMPT: &'static str = "서버를 선택하세요";

/// The server list: one numbered entry per server.
pub open spec fn quick_menu_spec(servers: Seq<Server>) -> Seq<Seq<char>> {
    numbered_all(Seq::new(servers.len(), |i: int| server_label(servers[i])))
}

/// Builds [`quick_menu_spec`].
pub fn quick_menu(servers: &[Server]) -> (res: Vec<String>)
    ensures
        views(res@) == quick_menu_spec(servers@),
{
    let mut labels: Vec<String> = Vec::new();
    let mut i: usize = 0;
    while i < servers.len()
        invariant
            i <= servers.len(),
            labels@.len() == i,
            forall|k: int| 0 <= k < i ==> #[trigger] labels@[k]@ == server_label(servers@[k]),
        decreases servers.len() - i,
    {
        labels.push(server_label_of(&servers[i]));
        i = i + 1;
    }
    assert(views(labels@) =~= Seq::new(servers@.len(), |k: int| server_label(servers@[k])));
    number_items(&labels)
}

/// The line printed for the chosen server ("chosen server: <name> (<ip>)").
pub fn quick_selected_notice(s: &Server) -> (res: String)
    ensures
        res@ == "선택된 서버: "@ + s.name@ + " ("@ + s.ip@ + ")"@,
{
    let mut r = String::from_str("선택된 서버: ");
    r.append(s.name.as_str());
    r.append(" (");
    r.append(s.ip.as_str());
    r.append(")");
    r
}

/// The indentation of the script's lines.
pub open spec fn indent() -> Seq<char> {
    "                "@
}

/// The `expect` script, indented as in its source.
pub open spec fn quick_script(user: Seq<char>, ip: Seq<char>, password: Seq<char>) -> Seq<char> {
    "\n"@ + indent() + "spawn ssh "@ + target(user, ip) + "\n"@ + indent()
        + "expect \"password:\"\n"@ + indent() + "send \""@ + password + "\\r\"\n"@ + indent()
        + "interact\n"@ + indent()
}

/// How the quick command connects: with a password through `expect -c`,
/// otherwise with plain `ssh`.
pub open spec fn quick_plan_spec(user: Seq<char>, ip: Seq<char>, password: Option<Seq<char>>) -> PlanView {
    let refused = template(StoolErrorType::SshConnectionFailed, None);
    match password {
        Some(p) => inherit_plan(
            "expect"@,
            seq!["-c"@, quick_script(user, ip, p)],
            template(StoolErrorType::ExpectCommandFailed, None),
            refused,
        ),
        None => inherit_plan("ssh"@, seq![target(user, ip)], refused, refused),
    }
}

/// The line printed before connecting and the plan of the quick command.
pub fn quick_plan(user: &str, ip: &str, password: Option<&str>) -> (res: (String, CommandPlan))
    ensures
        res.0@ == (if password is Some {
            "PW init..."@
        } else {
            "바로 접속"@
        }),
        res.1@ == quick_plan_spec(user@, ip@, opt_str_view(password)),
{
    let t = user_at_host(user, ip);
    match password {
        Some(p) => {
            let mut script = String::from_str("\n                spawn ssh ");
            script.append(t.as_str());
            script.append("\n                expect \"password:\"\n                send \"");
            script.append(p);
            script.append("\\r\"\n                interact\n                ");
            proof {
                reveal_strlit("\n                spawn ssh ");
                reveal_strlit("\n                expect \"password:\"\n                send \"");
                reveal_strlit("\\r\"\n                interact\n                ");
                reveal_strlit("\n");
                reveal_strlit("                ");
                reveal_strlit("spawn ssh ");
                reveal_strlit("expect \"password:\"\n");
                reveal_strlit("send \"");
                reveal_strlit("\\r\"\n");
                reveal_strlit("interact\n");
            }
            assert(script@ =~= quick_script(user@, ip@, p@));
            let args = vec![String::from_str("-c"), script];
            assert(views(args@) =~= seq!["-c"@, quick_script(user@, ip@, p@)]);
            (
                String::from_str("PW init..."),
                make_inherit_plan(
                    "expect",
                    args,
                    ErrorTemplate::plain(StoolErrorType::ExpectCommandFailed),
                    ErrorTemplate::plain(StoolErrorType::SshConnectionFailed),
                ),
            )
        },
        None => {
            let args = vec![t];
            assert(views(args@) =~= seq![target(user@, ip@)]);
            (
                String::from_str("바로 접속"),
                make_inherit_plan(
                    "ssh",
                    args,
                    ErrorTemplate::plain(StoolErrorType::SshConnectionFailed),
                    ErrorTemplate::plain(StoolErrorType::SshConnectionFailed),
                ),
            )
        },
    }
}

} // verus!
