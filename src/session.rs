//! Session names: the validation of a name that must denote one folder
//! directly under the sessions root, and the sanitizer that turns a
//! display name into a folder name.

use vstd::prelude::*;
use crate::strings::owned;
use crate::paths::is_sep;
use crate::text::{trim, trim_dash, trim_dashes, trim_ws};
use vstd::string::*;

verus! {

/// Rooted, or with a drive prefix such as `C:`.
pub open spec fn is_rooted(t: Seq<char>) -> bool {
    (t.len() > 0 && is_sep(t[0])) || (t.len() >= 2 && t[1] == ':')
}

/// Length of the first component.
pub open spec fn first_component_len(t: Seq<char>) -> int
    decreases t.len(),
{
    if t.len() == 0 || is_sep(t[0]) { 0 } else { 1 + first_component_len(t.subrange(1, t.len() as int)) }
}

/// Whether a validated name is refused, and why.
#[derive(Clone, Copy, Debug, PartialEq, Eq, Structural)]
pub enum SessionNameProblem {
    Empty,
    Absolute,
    Invalid,
    Nested,
}

pub open spec fn name_problem(name: Seq<char>) -> Option<SessionNameProblem> {
    let t = trim_ws(name);
    let n = first_component_len(t);
    let first = t.subrange(0, n);
    if t.len() == 0 {
        Some(SessionNameProblem::Empty)
    } else if is_rooted(t) {
        Some(SessionNameProblem::Absolute)
    } else if first == "."@ || first == ".."@ {
        Some(SessionNameProblem::Invalid)
    } else if exists|k: int| n <= k < t.len() && !is_sep(t[k]) {
        Some(SessionNameProblem::Nested)
    } else {
        None
    }
}

pub open spec fn problem_text(p: SessionNameProblem) -> Seq<char> {
    match p {
        SessionNameProblem::Empty => "Session name is empty"@,
        SessionNameProblem::Absolute => "Absolute paths are not allowed"@,
        SessionNameProblem::Invalid => "Invalid session name"@,
        SessionNameProblem::Nested => "Nested paths are not allowed"@,
    }
}

proof fn lemma_first_component(t: Seq<char>, i: int)
    requires
        0 <= i <= t.len(),
        forall|k: int| 0 <= k < i ==> !is_sep(#[trigger] t[k]),
        i == t.len() || is_sep(t[i]),
    ensures
        first_component_len(t) == i,
    decreases t.len(),
{
    if t.len() > 0 && i > 0 {
        let u = t.subrange(1, t.len() as int);
        assert forall|k: int| 0 <= k < i - 1 implies !is_sep(#[trigger] u[k]) by {
            assert(u[k] == t[k + 1]);
        }
        if i < t.len() {
            assert(u[i - 1] == t[i]);
        }
        lemma_first_component(u, i - 1);
    }
}

#[verifier::loop_isolation(false)]
/// Accepts a name that, once trimmed, is one plain folder name: not empty,
/// not rooted, not `.` or `..`, and without further components.
pub fn validate_session_name(session_name: &str) -> (r: Result<(), String>)
    ensures
        r is Ok <==> name_problem(session_name@) is None,
        r is Err ==> r->Err_0@ == problem_text(name_problem(session_name@)->0),
{
    let t = trim(session_name);
    let n = t.unicode_len();
    if n == 0 {
        return Err(owned("Session name is empty"));
    }
    let c0 = t.get_char(0);
    if c0 == '/' || c0 == '\\' || (n >= 2 && t.get_char(1) == ':') {
        return Err(owned("Absolute paths are not allowed"));
    }
    let mut i: usize = 0;
    while i < n && t.get_char(i) != '/' && t.get_char(i) != '\\'
        invariant
            i <= n,
            n == t@.len(),
            forall|k: int| 0 <= k < i ==> !is_sep(#[trigger] t@[k]),
        decreases n - i,
    {
        i = i + 1;
    }
    proof {
        lemma_first_component(t@, i as int);
    }
    let first = t.substring_char(0, i);
    if crate::strings::str_equals(first, ".") || crate::strings::str_equals(first, "..") {
        return Err(owned("Invalid session name"));
    }
    let mut j: usize = i;
    while j < n
        invariant
            i <= j <= n,
            n == t@.len(),
            forall|k: int| i <= k < j ==> is_sep(#[trigger] t@[k]),
        decreases n - j,
    {
        let c = t.get_char(j);
        if c != '/' && c != '\\' {
            assert(!is_sep(t@[j as int]));
            return Err(owned("Nested paths are not allowed"));
        }
        j = j + 1;
    }
    Ok(())
}

/// Each character of a trimmed name mapped for a folder name: ASCII letters,
/// digits, `_` and `-` stay, anything else becomes `-`.
pub open spec fn folder_char(c: char) -> char {
    if ('a' <= c && c <= 'z') || ('A' <= c && c <= 'Z') || ('0' <= c && c <= '9') || c == '_' || c == '-' {
        c
    } else {
        '-'
    }
}

pub open spec fn folder_chars(s: Seq<char>) -> Seq<char> {
    s.map_values(|c: char| folder_char(c))
}

/// Runs of `-` shortened to one.
pub open spec fn collapse_dashes(s: Seq<char>) -> Seq<char>
    decreases s.len(),
{
    if s.len() == 0 {
        s
    } else {
        let c = collapse_dashes(s.drop_last());
        if s.last() == '-' && c.len() > 0 && c.last() == '-' { c } else { c.push(s.last()) }
    }
}

/// Relies on `regex::Regex::new` and `Regex::replace_all`: with the pattern
/// `-+` (which compiles) and the replacement `-`, every maximal run of
/// dashes becomes a single dash.
#[verifier::external_body]
fn regex_replace_all(pattern: &str, s: &str, replacement: &str) -> (r: String)
    requires
        pattern@ == "-+"@,
        replacement@ == "-"@,
    ensures
        r@ == collapse_dashes(s@),
{
    regex::Regex::new(pattern).unwrap().replace_all(s, replacement).into_owned()
}

pub open spec fn sanitized(name: Seq<char>) -> Option<Seq<char>> {
    let t = trim_ws(name);
    let f = trim_dashes(collapse_dashes(folder_chars(t)));
    if t.len() == 0 || f.len() == 0 { None } else { Some(f) }
}

/// A folder name for a session: trimmed, characters other than ASCII
/// letters, digits, `_` and `-` replaced by `-`, runs of `-` collapsed and
/// `-` trimmed from both ends. Refused when nothing is left.
pub fn sanitize_session_name(session_name: &str) -> (r: Result<String, String>)
    ensures
        r is Ok <==> sanitized(session_name@) is Some,
        r is Ok ==> r->Ok_0@ == sanitized(session_name@)->0,
        r is Err && trim_ws(session_name@).len() == 0 ==> r->Err_0@ == "Session name cannot be empty"@,
        r is Err && trim_ws(session_name@).len() > 0 ==> r->Err_0@
            == "Session name resulted in empty folder name after sanitization"@,
{
    let t = trim(session_name);
    let n = t.unicode_len();
    if n == 0 {
        return Err(owned("Session name cannot be empty"));
    }
    let mut out = String::new();
    let mut i: usize = 0;
    while i < n
        invariant
            i <= n,
            n == t@.len(),
            out@ == folder_chars(t@.subrange(0, i as int)),
        decreases n - i,
    {
        let c = t.get_char(i);
        let keep = ('a' <= c && c <= 'z') || ('A' <= c && c <= 'Z') || ('0' <= c && c <= '9') || c == '_'
            || c == '-';
        let ghost before = out@;
        if keep {
            let one = t.substring_char(i, i + 1);
            assert(one@ =~= seq![c]);
            out.append(one);
        } else {
            proof { reveal_strlit("-"); }
            out.append("-");
            assert("-"@ =~= seq!['-']);
        }
        assert(out@ =~= before.push(folder_char(c)));
        assert(out@ =~= folder_chars(t@.subrange(0, i + 1)));
        i = i + 1;
    }
    assert(t@.subrange(0, n as int) =~= t@);
    let collapsed = regex_replace_all("-+", out.as_str(), "-");
    let final_name = trim_dash(collapsed.as_str());
    if final_name.unicode_len() == 0 {
        return Err(owned("Session name resulted in empty folder name after sanitization"));
    }
    Ok(final_name)
}

} // verus!
