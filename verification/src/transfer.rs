//! File transfer: the mode menu and the paths handed to `scp`.

use crate::command::target;
use crate::error::{error_value, StoolError, StoolErrorType, StoolErrorView, StoolResult};
use crate::text::{is_blank, trim_spec, views};
pub use crate::flows::transfer;
use vstd::prelude::*;
use vstd::string::*;

verus! {

/// Transfer direction.
#[derive(Debug, Clone, Copy, PartialEq, Eq, Structural)]
pub enum TransferMode {
    Upload,
    Download,
}

/// Prompt of the transfer mode menu.
pub const MODE_PROMPT: &'static str = "Transfer mode:";

/// The entries of the transfer mode menu.
pub open spec fn mode_menu_spec() -> Seq<Seq<char>> {
    seq![
        "1. Upload (local -> remote)"@,
        "2. Download (remote -> local)"@,
        "3. Cancel"@,
    ]
}

/// Builds the transfer mode menu.
pub fn mode_menu() -> (res: Vec<String>)
    ensures
        views(res@) == mode_menu_spec(),
{
    let res = vec![
        String::from_str("1. Upload (local -> remote)"),
        String::from_str("2. Download (remote -> local)"),
        String::from_str("3. Cancel"),
    ];
    assert(views(res@) =~= mode_menu_spec());
    res
}

/// The meaning of picking entry `selection` of the mode menu: a mode, `None`
/// for cancel, or an invalid-input error.
pub open spec fn mode_choice_spec(selection: nat) -> Result<Option<TransferMode>, StoolErrorView> {
    if selection == 0 {
        Ok(Some(TransferMode::Upload))
    } else if selection == 1 {
        Ok(Some(TransferMode::Download))
    } else if selection == 2 {
        Ok(None)
    } else {
        Err(error_value(StoolErrorType::InvalidInput, None, None))
    }
}

/// Decides what picking entry `selection` of the mode menu means.
pub fn mode_choice(selection: usize) -> (res: StoolResult<Option<TransferMode>>)
    ensures
        crate::command::result_view(res) == mode_choice_spec(selection as nat),
{
    match selection {
        0 => Ok(Some(TransferMode::Upload)),
        1 => Ok(Some(TransferMode::Download)),
        2 => Ok(None),
        _ => Err(StoolError::new(StoolErrorType::InvalidInput)),
    }
}

/// `user@ip:path`, the remote side of a copy.
pub open spec fn remote_spec(user: Seq<char>, ip: Seq<char>, path: Seq<char>) -> Seq<char> {
    target(user, ip) + ":"@ + path
}

/// The answer to a path prompt, or `default` when the answer is blank.
pub open spec fn or_default(answer: Seq<char>, default: Seq<char>) -> Seq<char> {
    if trim_spec(answer).len() == 0 {
        default
    } else {
        answer
    }
}

/// Builds `user@ip:path`.
pub fn remote_location(user: &str, ip: &str, path: &str) -> (res: String)
    ensures
        res@ == remote_spec(user@, ip@, path@),
{
    let mut s = crate::command::user_at_host(user, ip);
    s.append(":");
    s.append(path);
    s
}

/// The remote path used when the upload prompt is left blank.
pub const UPLOAD_DEFAULT: &'static str = "~/";

/// The local path used when the download prompt is left blank.
pub const DOWNLOAD_DEFAULT: &'static str = "~/Downloads/";

/// Prompts of an upload, in order.
pub const UPLOAD_LOCAL_PROMPT: &'static str = "Local file path:";

/// See [`UPLOAD_LOCAL_PROMPT`].
pub const UPLOAD_REMOTE_PROMPT: &'static str = "Remote path (default: ~/): ";

/// Prompts of a download, in order.
pub const DOWNLOAD_REMOTE_PROMPT: &'static str = "Remote file path:";

/// See [`DOWNLOAD_REMOTE_PROMPT`].
pub const DOWNLOAD_LOCAL_PROMPT: &'static str = "Local path (default: ~/Downloads/): ";

/// Source and destination of an upload: the local file goes to
/// `user@ip:<remote>`, where a blank remote answer means `~/`.
pub fn upload_paths(user: &str, ip: &str, local_path: &str, remote_answer: &str) -> (res: (
    String,
    String,
))
    ensures
        res.0@ == local_path@,
        res.1@ == remote_spec(user@, ip@, or_default(remote_answer@, UPLOAD_DEFAULT@)),
{
    let remote = if is_blank(remote_answer) {
        UPLOAD_DEFAULT
    } else {
        remote_answer
    };
    (String::from_str(local_path), remote_location(user, ip, remote))
}

/// Source and destination of a download: `user@ip:<remote>` goes to the
/// local path, where a blank local answer means `~/Downloads/`.
pub fn download_paths(user: &str, ip: &str, remote_path: &str, local_answer: &str) -> (res: (
    String,
    String,
))
    ensures
        res.0@ == remote_spec(user@, ip@, remote_path@),
        res.1@ == or_default(local_answer@, DOWNLOAD_DEFAULT@),
{
    let local = if is_blank(local_answer) {
        DOWNLOAD_DEFAULT
    } else {
        local_answer
    };
    (remote_location(user, ip, remote_path), String::from_str(local))
}

} // verus!
