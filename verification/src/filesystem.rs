//! File search: how a search pattern is read, how a file name is matched
//! against it, and what the search and count commands print.
//!
//! Glob patterns are turned into regular expressions and matched with the
//! `regex` crate.

use crate::error::{error_value, StoolError, StoolErrorType, StoolErrorView, StoolResult};
use crate::text::{chars_of, decimal, push_char, str_equal, usize_to_decimal, views};
use vstd::prelude::*;
use vstd::string::*;

verus! {

// ---------------------------------------------------------------------------
// Regular expressions (the `regex` crate)
// ---------------------------------------------------------------------------
#[verifier::external_type_specification]
#[verifier::external_body]
pub struct ExRegex(regex::Regex);

/// Whether `regex::Regex::new` accepts `pattern`.
pub uninterp spec fn regex_compiles(pattern: Seq<char>) -> bool;

/// The text of the error `regex::Regex::new` reports for `pattern`.
pub uninterp spec fn regex_error_text(pattern: Seq<char>) -> Seq<char>;

/// Whether the regular expression `pattern` matches somewhere in `haystack`
/// (`regex::Regex::is_match`).
pub uninterp spec fn regex_is_match(pattern: Seq<char>, haystack: Seq<char>) -> bool;

/// A compiled regular expression together with its source text.
pub struct CompiledRegex {
    re: regex::Regex,
    source: Ghost<Seq<char>>,
}

impl View for CompiledRegex {
    type V = Seq<char>;

    closed spec fn view(&self) -> Seq<char> {
        self.source@
    }
}

/// Compiles `pattern` with `regex::Regex::new`. Claimed: it succeeds exactly
/// when [`regex_compiles`] holds of the pattern, the compiled value keeps the
/// pattern as its view, and a failure carries the error's display text,
/// named [`regex_error_text`]. Which patterns compile is not stated.
#[verifier::external_body]
fn compile_regex(pattern: &str) -> (res: Result<CompiledRegex, String>)
    ensures
        res is Ok <==> regex_compiles(pattern@),
        res matches Ok(r) ==> r@ == pattern@,
        res matches Err(t) ==> t@ == regex_error_text(pattern@),
{
    match regex::Regex::new(pattern) {
        Ok(re) => Ok(CompiledRegex { re, source: Ghost(pattern@) }),
        Err(e) => Err(e.to_string()),
    }
}

/// Tests `haystack` with `regex::Regex::is_match`. Claimed: the answer is
/// [`regex_is_match`] of the compiled pattern and the haystack; what that
/// is for given values is not stated.
#[verifier::external_body]
fn regex_matches(re: &CompiledRegex, haystack: &str) -> (res: bool)
    ensures
        res == regex_is_match(re@, haystack@),
{
    re.re.is_match(haystack)
}

// ---------------------------------------------------------------------------
// Patterns
// ---------------------------------------------------------------------------
/// How a search pattern is used: `*` or `?` make it a glob as written; a
/// `.` that is not the first character makes it an exact file name;
/// anything else is searched as `*<pattern>*`. The flag says "exact".
pub open spec fn classify_spec(p: Seq<char>) -> (bool, Seq<char>) {
    if p.contains('*') || p.contains('?') {
        (false, p)
    } else if p.contains('.') && !(p.len() > 0 && p[0] == '.') {
        (true, p)
    } else {
        (false, "*"@ + p + "*"@)
    }
}

/// Whether `c` occurs in `s`.
pub fn has_char(s: &str, c: char) -> (res: bool)
    ensures
        res == s@.contains(c),
{
    let cs = chars_of(s);
    let mut i: usize = 0;
    while i < cs.len()
        invariant
            cs@ == s@,
            i <= cs.len(),
            forall|k: int| 0 <= k < i ==> cs@[k] != c,
        decreases cs.len() - i,
    {
        if cs[i] == c {
            assert(s@[i as int] == c);
            return true;
        }
        i = i + 1;
    }
    false
}

/// Whether `s` starts with `c`.
pub fn starts_with_char(s: &str, c: char) -> (res: bool)
    ensures
        res == (s@.len() > 0 && s@[0] == c),
{
    if s.unicode_len() == 0 {
        false
    } else {
        s.get_char(0) == c
    }
}

/// Reads a search pattern as [`classify_spec`] says.
pub fn classify_pattern(pattern: &str) -> (res: (bool, String))
    ensures
        res.0 == classify_spec(pattern@).0,
        res.1@ == classify_spec(pattern@).1,
{
    if has_char(pattern, '*') || has_char(pattern, '?') {
        (false, String::from_str(pattern))
    } else if has_char(pattern, '.') && !starts_with_char(pattern, '.') {
        (true, String::from_str(pattern))
    } else {
        let mut s = String::from_str("*");
        s.append(pattern);
        s.append("*");
        (false, s)
    }
}

/// The regular-expression text for one glob character: `.` is escaped,
/// `*` becomes `.*`, `?` becomes `.`, anything else stands for itself.
pub open spec fn glob_piece(c: char) -> Seq<char> {
    if c == '.' {
        seq!['\\', '.']
    } else if c == '*' {
        seq!['.', '*']
    } else if c == '?' {
        seq!['.']
    } else {
        seq![c]
    }
}

/// The glob `p` with every character replaced by its [`glob_piece`]
/// (the same as replacing `.`, then `*`, then `?` in the whole pattern).
pub open spec fn glob_body(p: Seq<char>) -> Seq<char>
    decreases p.len(),
{
    if p.len() == 0 {
        Seq::<char>::empty()
    } else {
        glob_body(p.drop_last()) + glob_piece(p.last())
    }
}

/// The anchored regular expression for the glob `p`: `^<body>$`.
pub open spec fn glob_regex(p: Seq<char>) -> Seq<char> {
    seq!['^'] + glob_body(p) + seq!['$']
}

/// Builds [`glob_regex`].
pub fn glob_to_regex(pattern: &str) -> (res: String)
    ensures
        res@ == glob_regex(pattern@),
{
    let cs = chars_of(pattern);
    let mut body = String::new();
    let mut i: usize = 0;
    while i < cs.len()
        invariant
            cs@ == pattern@,
            i <= cs.len(),
            body@ == glob_body(pattern@.take(i as int)),
        decreases cs.len() - i,
    {
        let c = cs[i];
        let ghost before = body@;
        if c == '.' {
            push_char(&mut body, '\\');
            push_char(&mut body, '.');
        } else if c == '*' {
            push_char(&mut body, '.');
            push_char(&mut body, '*');
        } else if c == '?' {
            push_char(&mut body, '.');
        } else {
            push_char(&mut body, c);
        }
        assert(body@ =~= before + glob_piece(c));
        assert(pattern@.take(i + 1).drop_last() =~= pattern@.take(i as int));
        i = i + 1;
    }
    assert(pattern@.take(cs.len() as int) =~= pattern@);
    let mut res = String::new();
    push_char(&mut res, '^');
    res.append(body.as_str());
    push_char(&mut res, '$');
    assert(res@ =~= glob_regex(pattern@));
    res
}

/// The error for a glob that does not give a valid regular expression;
/// `source` is the text of the regex error.
pub fn invalid_pattern(pattern: &str, source: &str) -> (e: StoolError)
    ensures
        e@ == error_value(
            StoolErrorType::SearchPatternInvalid,
            Some("Invalid pattern: "@ + pattern@),
            Some(source@),
        ),
{
    let mut m = String::from_str("Invalid pattern: ");
    m.append(pattern);
    StoolError::new(StoolErrorType::SearchPatternInvalid).with_message(m.as_str()).with_source(
        source,
    )
}

/// What matching `text` against the glob `pattern` gives.
pub open spec fn glob_match_spec(text: Seq<char>, pattern: Seq<char>) -> Result<bool, StoolErrorView> {
    let re = glob_regex(pattern);
    if regex_compiles(re) {
        Ok(regex_is_match(re, text))
    } else {
        Err(
            error_value(
                StoolErrorType::SearchPatternInvalid,
                Some("Invalid pattern: "@ + pattern),
                Some(regex_error_text(re)),
            ),
        )
    }
}

/// Matches `text` against the glob `pattern` (`*` and `?` wildcards).
pub fn matches_glob(text: &str, pattern: &str) -> (res: StoolResult<bool>)
    ensures
        crate::command::result_view(res) == glob_match_spec(text@, pattern@),
{
    let re = glob_to_regex(pattern);
    match compile_regex(re.as_str()) {
        Ok(r) => Ok(regex_matches(&r, text)),
        Err(t) => Err(invalid_pattern(pattern, t.as_str())),
    }
}

/// What matching a file name gives: equality for an exact pattern, glob
/// matching otherwise.
pub open spec fn name_match_spec(name: Seq<char>, pattern: Seq<char>, exact: bool) -> Result<
    bool,
    StoolErrorView,
> {
    if exact {
        Ok(name == pattern)
    } else {
        glob_match_spec(name, pattern)
    }
}

/// Matches a file name against a classified pattern.
pub fn name_matches(name: &str, pattern: &str, exact: bool) -> (res: StoolResult<bool>)
    ensures
        crate::command::result_view(res) == name_match_spec(name@, pattern@, exact),
{
    if exact {
        Ok(str_equal(name, pattern))
    } else {
        matches_glob(name, pattern)
    }
}

/// Whether an entry is skipped by the search: a directory whose name
/// starts with `.`.
pub fn is_hidden_dir(is_dir: bool, name: &str) -> (res: bool)
    ensures
        res == (is_dir && name@.len() > 0 && name@[0] == '.'),
{
    is_dir && starts_with_char(name, '.')
}

// ---------------------------------------------------------------------------
// Messages
// ---------------------------------------------------------------------------
/// The directory searched when none is given.
pub const CURRENT_DIR: &'static str = ".";

/// The error for a path that does not exist: `Path not found: <path>`.
pub fn path_not_found(path: &str) -> (e: StoolError)
    ensures
        e@ == error_value(StoolErrorType::FileNotFound, Some("Path not found: "@ + path@), None),
{
    let mut m = String::from_str("Path not found: ");
    m.append(path);
    StoolError::new(StoolErrorType::FileNotFound).with_message(m.as_str())
}

/// The error for a path that is not a directory: `Not a directory: <path>`.
pub fn not_a_directory(path: &str) -> (e: StoolError)
    ensures
        e@ == error_value(StoolErrorType::InvalidInput, Some("Not a directory: "@ + path@), None),
{
    let mut m = String::from_str("Not a directory: ");
    m.append(path);
    StoolError::new(StoolErrorType::InvalidInput).with_message(m.as_str())
}

/// The error for a directory that cannot be listed; `source` is the text
/// of the I/O error.
pub fn unreadable_directory(path: &str, source: &str) -> (e: StoolError)
    ensures
        e@ == error_value(
            StoolErrorType::IoError,
            Some("Failed to read directory: "@ + path@),
            Some(source@),
        ),
{
    let mut m = String::from_str("Failed to read directory: ");
    m.append(path);
    StoolError::new(StoolErrorType::IoError).with_message(m.as_str()).with_source(source)
}

/// The line printed before searching.
pub fn searching_notice(pattern: &str, path: &str) -> (res: String)
    ensures
        res@ == "Searching for '"@ + pattern@ + "' in "@ + path@ + "..."@,
{
    let mut s = String::from_str("Searching for '");
    s.append(pattern);
    s.append("' in ");
    s.append(path);
    s.append("...");
    s
}

/// The lines printed after searching: a "no files" line, or a count
/// header followed by one indented line per match.
pub open spec fn find_report_spec(pattern: Seq<char>, results: Seq<Seq<char>>) -> Seq<Seq<char>> {
    if results.len() == 0 {
        seq!["No files found matching '"@ + pattern + "'"@]
    } else {
        seq!["\nFound "@ + decimal(results.len()) + " file(s):"@] + Seq::new(
            results.len(),
            |i: int| "  "@ + results[i],
        )
    }
}

/// Builds [`find_report_spec`].
pub fn find_report(pattern: &str, results: &Vec<String>) -> (res: Vec<String>)
    ensures
        views(res@) == find_report_spec(pattern@, views(results@)),
{
    if results.len() == 0 {
        let mut s = String::from_str("No files found matching '");
        s.append(pattern);
        s.append("'");
        let res = vec![s];
        assert(views(res@) =~= find_report_spec(pattern@, views(results@)));
        return res;
    }
    let mut head = String::from_str("\nFound ");
    let n = usize_to_decimal(results.len());
    head.append(n.as_str());
    head.append(" file(s):");
    let mut res = vec![head];
    let mut i: usize = 0;
    while i < results.len()
        invariant
            i <= results.len(),
            res@.len() == i + 1,
            res@[0]@ == "\nFound "@ + decimal(results.len() as nat) + " file(s):"@,
            forall|k: int| 0 <= k < i ==> #[trigger] res@[k + 1]@ == "  "@ + results@[k]@,
        decreases results.len() - i,
    {
        let mut line = String::from_str("  ");
        line.append(results[i].as_str());
        res.push(line);
        i = i + 1;
    }
    let ghost spec = find_report_spec(pattern@, views(results@));
    assert forall|k: int| 0 <= k < res@.len() implies #[trigger] views(res@)[k] == spec[k] by {
        if k > 0 {
            assert(res@[(k - 1) + 1]@ == "  "@ + results@[k - 1]@);
        }
    }
    assert(views(res@) =~= spec);
    res
}

/// The line printed by the count command: `<n> items in <path>`.
pub fn count_report(count: usize, path: &str) -> (res: String)
    ensures
        res@ == decimal(count as nat) + " items in "@ + path@,
{
    let mut s = usize_to_decimal(count);
    s.append(" items in ");
    s.append(path);
    s
}

} // verus!
