//! Menus and the decisions taken on what the user picks or types.
//!
//! The prompts themselves run at the program's edge; this module builds
//! what they show and decides what each answer means.

use crate::command::target;
use crate::config::{clone_opt, Server};
use crate::error::{error_value, StoolError, StoolErrorType};
use crate::text::{decimal, opt_view, u128_to_decimal, views};
pub use crate::flows::select_server;
use vstd::prelude::*;
use vstd::string::*;

verus! {

/// Menu option for manual server input.
pub const MENU_MANUAL_INPUT: &'static str = "Manual input";

/// Menu option for canceling the operation.
pub const MENU_CANCEL: &'static str = "Cancel";

/// `"<i + 1>. <text>"`: the `i`-th entry of a numbered menu.
pub open spec fn numbered(i: nat, text: Seq<char>) -> Seq<char> {
    decimal(i + 1) + ". "@ + text
}

/// Builds [`numbered`].
pub fn numbered_item(i: usize, text: &str) -> (res: String)
    ensures
        res@ == numbered(i as nat, text@),
{
    let mut s = u128_to_decimal(i as u128 + 1);
    s.append(". ");
    s.append(text);
    s
}

/// The numbered entries for `texts`, in order.
pub open spec fn numbered_all(texts: Seq<Seq<char>>) -> Seq<Seq<char>> {
    Seq::new(texts.len(), |i: int| numbered(i as nat, texts[i]))
}

/// Builds [`numbered_all`].
pub fn number_items(texts: &Vec<String>) -> (res: Vec<String>)
    ensures
        res.len() == texts.len(),
        views(res@) == numbered_all(views(texts@)),
{
    let mut res: Vec<String> = Vec::new();
    let mut i: usize = 0;
    while i < texts.len()
        invariant
            i <= texts.len(),
            res@.len() == i,
            forall|k: int| 0 <= k < i ==> #[trigger] res@[k]@ == numbered(k as nat, texts@[k]@),
        decreases texts.len() - i,
    {
        let item = numbered_item(i, texts[i].as_str());
        res.push(item);
        i = i + 1;
    }
    assert(views(res@) =~= numbered_all(views(texts@)));
    res
}

/// Appends `"<len + 1>. <text>"` to `items`.
pub fn push_numbered(items: &mut Vec<String>, text: &str)
    ensures
        final(items).len() == old(items).len() + 1,
        views(final(items)@) == views(old(items)@).push(numbered(old(items).len() as nat, text@)),
{
    let n = items.len();
    let item = numbered_item(n, text);
    items.push(item);
    assert(views(items@) =~= views(old(items)@).push(numbered(n as nat, text@)));
}

/// The error of a prompt that failed; `source` is the text of the failure.
pub fn input_failure(source: &str) -> (e: StoolError)
    ensures
        e@ == error_value(StoolErrorType::InvalidInput, None, Some(source@)),
{
    StoolError::new(StoolErrorType::InvalidInput).with_source(source)
}

/// The error of a prompt the user interrupted or closed.
pub fn input_cancelled() -> (e: StoolError)
    ensures
        e@ == error_value(StoolErrorType::Cancelled, None, None),
{
    StoolError::new(StoolErrorType::Cancelled)
}

/// Where to connect and how to log in: user, address, key file, password.
pub struct ServerInfo {
    pub user: String,
    pub ip: String,
    pub key_path: Option<String>,
    pub password: Option<String>,
}

/// The mathematical value of a [`ServerInfo`].
pub struct ServerInfoView {
    pub user: Seq<char>,
    pub ip: Seq<char>,
    pub key_path: Option<Seq<char>>,
    pub password: Option<Seq<char>>,
}

impl View for ServerInfo {
    type V = ServerInfoView;

    open spec fn view(&self) -> ServerInfoView {
        ServerInfoView {
            user: self.user@,
            ip: self.ip@,
            key_path: opt_view(self.key_path),
            password: opt_view(self.password),
        }
    }
}

/// How a server is listed: `"<name> (<user>@<ip>)"`.
pub open spec fn server_label(s: Server) -> Seq<char> {
    s.name@ + " ("@ + target(s.user@, s.ip@) + ")"@
}

/// The server menu: one numbered entry per server, then manual input, then cancel.
pub open spec fn server_menu_spec(servers: Seq<Server>) -> Seq<Seq<char>> {
    numbered_all(Seq::new(servers.len(), |i: int| server_label(servers[i]))) + seq![
        MENU_MANUAL_INPUT@,
        MENU_CANCEL@,
    ]
}

/// Builds [`server_label`].
pub fn server_label_of(s: &Server) -> (res: String)
    ensures
        res@ == server_label(*s),
{
    let mut r = s.name.clone();
    r.append(" (");
    r.append(s.user.as_str());
    r.append("@");
    r.append(s.ip.as_str());
    r.append(")");
    r
}

/// The entries of the server menu.
pub fn server_menu(servers: &[Server]) -> (res: Vec<String>)
    ensures
        views(res@) == server_menu_spec(servers@),
{
    let mut labels: Vec<String> = Vec::new();
    let mut i: usize = 0;
    while i < servers.len()
        invariant
            i <= servers.len(),
            labels@.len() == i,
            forall|k: int| 0 <= k < i ==> #[trigger] labels@[k]@ == server_label(servers@[k]),
        decreases servers.len() - i,
    {
        labels.push(server_label_of(&servers[i]));
        i = i + 1;
    }
    assert(views(labels@) =~= Seq::new(servers@.len(), |k: int| server_label(servers@[k])));
    let mut items = number_items(&labels);
    items.push(String::from_str(MENU_MANUAL_INPUT));
    items.push(String::from_str(MENU_CANCEL));
    assert(views(items@) =~= server_menu_spec(servers@));
    items
}

/// What a pick in the server menu means.
pub enum ServerChoice {
    /// The last entry: stop without doing anything.
    Cancel,
    /// The server with this index.
    Configured(usize),
    /// Ask for user and address.
    Manual,
}

/// The meaning of picking entry `selection` of the server menu for
/// `count` servers: the last entry cancels, the first `count` entries name
/// servers, any other entry asks for manual input.
pub open spec fn server_choice_spec(count: nat, selection: nat) -> ServerChoice {
    if selection == count + 1 {
        ServerChoice::Cancel
    } else if selection < count {
        ServerChoice::Configured(selection as usize)
    } else {
        ServerChoice::Manual
    }
}

/// Decides what picking entry `selection` of the server menu means.
pub fn server_choice(count: usize, selection: usize) -> (res: ServerChoice)
    ensures
        res == server_choice_spec(count as nat, selection as nat),
{
    if selection > count && selection - 1 == count {
        ServerChoice::Cancel
    } else if selection < count {
        ServerChoice::Configured(selection)
    } else {
        ServerChoice::Manual
    }
}

/// The line printed for a chosen server: `"Selected server: <name> (<ip>)"`.
pub open spec fn selected_notice(s: Server) -> Seq<char> {
    "Selected server: "@ + s.name@ + " ("@ + s.ip@ + ")"@
}

/// The connection details of a configured server, and the line printed for it.
pub fn configured_server(s: &Server) -> (res: (String, ServerInfo))
    ensures
        res.0@ == selected_notice(*s),
        res.1@ == (ServerInfoView {
            user: s.user@,
            ip: s.ip@,
            key_path: opt_view(s.key_path),
            password: opt_view(s.password),
        }),
{
    let mut notice = String::from_str("Selected server: ");
    notice.append(s.name.as_str());
    notice.append(" (");
    notice.append(s.ip.as_str());
    notice.append(")");
    let info = ServerInfo {
        user: s.user.clone(),
        ip: s.ip.clone(),
        key_path: clone_opt(&s.key_path),
        password: clone_opt(&s.password),
    };
    (notice, info)
}

/// The connection details of a manually entered server (no key, no
/// password yet), and the line printed for it: `"Target: <user>@<ip>"`.
pub fn manual_server(user: String, ip: String) -> (res: (String, ServerInfo))
    ensures
        res.0@ == "Target: "@ + target(user@, ip@),
        res.1@ == (ServerInfoView { user: user@, ip: ip@, key_path: None, password: None }),
{
    let mut notice = String::from_str("Target: ");
    notice.append(user.as_str());
    notice.append("@");
    notice.append(ip.as_str());
    (notice, ServerInfo { user, ip, key_path: None, password: None })
}

/// Whether the user must be asked for a password: neither a key file nor a
/// password is known.
pub fn needs_password_prompt(info: &ServerInfo) -> (res: bool)
    ensures
        res == (info@.key_path is None && info@.password is None),
{
    info.key_path.is_none() && info.password.is_none()
}

/// The details after the password prompt: an empty answer keeps the
/// default SSH login, anything else becomes the password.
pub fn with_entered_password(info: ServerInfo, entered: String) -> (res: ServerInfo)
    ensures
        res@ == (ServerInfoView {
            password: if entered@.len() == 0 {
                info@.password
            } else {
                Some(entered@)
            },
            ..info@
        }),
{
    if entered.as_str().unicode_len() == 0 {
        info
    } else {
        ServerInfo { user: info.user, ip: info.ip, key_path: info.key_path, password: Some(entered) }
    }
}

/// Prompt of the server menu.
pub const SELECT_SERVER_PROMPT: &'static str = "Select server:";

/// Prompt for a manually entered user name.
pub const USERNAME_PROMPT: &'static str = "Enter username:";

/// Prompt for a manually entered address.
pub const IP_PROMPT: &'static str = "Enter IP address:";

/// Prompt for the password when none is configured.
pub const PASSWORD_PROMPT: &'static str = "Enter password (leave empty for default SSH auth):";

} // verus!
