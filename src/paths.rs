//! Path text helpers: file names, extensions, sidecar document names and the
//! ingest whitelist. Both `/` and `\` separate components.

use vstd::prelude::*;
use crate::strings::{owned, str_equals};
use vstd::string::*;

verus! {

pub open spec fn is_sep(c: char) -> bool {
    c == '/' || c == '\\'
}

/// The text without trailing separators.
pub open spec fn trim_trailing_seps(s: Seq<char>) -> Seq<char>
    decreases s.len(),
{
    if s.len() > 0 && is_sep(s.last()) { trim_trailing_seps(s.drop_last()) } else { s }
}

/// The text after the last separator.
pub open spec fn last_component(s: Seq<char>) -> Seq<char>
    decreases s.len(),
{
    if s.len() == 0 {
        s
    } else if is_sep(s.last()) {
        Seq::empty()
    } else {
        last_component(s.drop_last()).push(s.last())
    }
}

/// The file name of a path: its last component, ignoring trailing
/// separators; none when that is empty or `..`.
pub open spec fn file_name_of(p: Seq<char>) -> Option<Seq<char>> {
    let c = last_component(trim_trailing_seps(p));
    if c.len() == 0 || c == ".."@ { None } else { Some(c) }
}

proof fn lemma_last_component(s: Seq<char>, start: int)
    requires
        0 <= start <= s.len(),
        forall|k: int| start <= k < s.len() ==> !is_sep(#[trigger] s[k]),
        start == 0 || is_sep(s[start - 1]),
    ensures
        last_component(s) == s.subrange(start, s.len() as int),
    decreases s.len(),
{
    if s.len() == 0 {
    } else if start == s.len() {
        assert(is_sep(s.last()));
        assert(s.subrange(start, s.len() as int) =~= Seq::<char>::empty());
    } else {
        lemma_last_component(s.drop_last(), start);
        assert(s.subrange(start, s.len() as int) =~= s.drop_last().subrange(start, s.len() - 1).push(s.last()));
    }
}

/// The file name of `path` (see `file_name_of`).
pub fn file_name(path: &str) -> (r: Option<String>)
    ensures
        r is Some <==> file_name_of(path@) is Some,
        r is Some ==> r->0@ == file_name_of(path@)->0,
{
    let n = path.unicode_len();
    let mut end: usize = n;
    assert(path@.subrange(0, n as int) =~= path@);
    while end > 0 && (path.get_char(end - 1) == '/' || path.get_char(end - 1) == '\\')
        invariant
            end <= n,
            n == path@.len(),
            trim_trailing_seps(path@) == trim_trailing_seps(path@.subrange(0, end as int)),
        decreases end,
    {
        assert(path@.subrange(0, end as int).drop_last() =~= path@.subrange(0, end - 1));
        end = end - 1;
    }
    let ghost t = path@.subrange(0, end as int);
    assert(trim_trailing_seps(t) == t);
    let mut start: usize = end;
    while start > 0 && path.get_char(start - 1) != '/' && path.get_char(start - 1) != '\\'
        invariant
            start <= end <= n,
            n == path@.len(),
            forall|k: int| start <= k < end ==> !is_sep(#[trigger] path@[k]),
        decreases start,
    {
        start = start - 1;
    }
    proof {
        lemma_last_component(t, start as int);
        assert(t.subrange(start as int, end as int) =~= path@.subrange(start as int, end as int));
    }
    let name = path.substring_char(start, end);
    if name.unicode_len() == 0 || str_equals(name, "..") {
        None
    } else {
        Some(owned(name))
    }
}

/// The raw file name that keys the session metadata.
pub fn raw_filename(raw_path: &str) -> (r: Result<String, String>)
    ensures
        r is Ok <==> file_name_of(raw_path@) is Some,
        r is Ok ==> r->Ok_0@ == file_name_of(raw_path@)->0,
        r is Err ==> r->Err_0@ == "Raw file name missing"@,
{
    match file_name(raw_path) {
        Some(n) => Ok(n),
        None => Err(owned("Raw file name missing")),
    }
}

/// The per-image sidecar document next to an image: the path plus `.rrdata`.
pub fn rrdata_path(image_path: &str) -> (r: String)
    ensures
        r@ == image_path@ + ".rrdata"@,
{
    let mut p = owned(image_path);
    p.append(".rrdata");
    p
}

/// Index of the dot that starts the extension of a file name: the last
/// dot, when it is not the first character.
pub open spec fn ext_dot(name: Seq<char>) -> int
    decreases name.len(),
{
    if name.len() <= 1 {
        -1
    } else if name.last() == '.' {
        name.len() - 1
    } else {
        ext_dot(name.drop_last())
    }
}

fn find_ext_dot(name: &str) -> (r: Option<usize>)
    ensures
        r is Some <==> ext_dot(name@) >= 0,
        r is Some ==> r->0 as int == ext_dot(name@) && 0 < r->0 < name@.len(),
{
    let n = name.unicode_len();
    let mut k: usize = n;
    assert(name@.subrange(0, n as int) =~= name@);
    while k > 1
        invariant
            k <= n,
            n == name@.len(),
            ext_dot(name@) == ext_dot(name@.subrange(0, k as int)),
        decreases k,
    {
        let ghost pre = name@.subrange(0, k as int);
        if name.get_char(k - 1) == '.' {
            return Some(k - 1);
        }
        assert(pre.drop_last() =~= name@.subrange(0, k - 1));
        k = k - 1;
    }
    None
}

/// The file name with its extension replaced by `jpg` (or `.jpg` appended).
pub open spec fn jpg_name_of(name: Seq<char>) -> Seq<char> {
    let d = ext_dot(name);
    if d >= 0 { name.subrange(0, d) + ".jpg"@ } else { name + ".jpg"@ }
}

pub fn jpg_file_name(raw_filename: &str) -> (r: String)
    ensures
        r@ == jpg_name_of(raw_filename@),
{
    let mut out = match find_ext_dot(raw_filename) {
        Some(d) => owned(raw_filename.substring_char(0, d)),
        None => owned(raw_filename),
    };
    out.append(".jpg");
    out
}

pub open spec fn ascii_lower(c: char) -> char {
    if 'A' <= c && c <= 'Z' { (((c as u32) + 32) as u8) as char } else { c }
}

pub open spec fn lower_seq(s: Seq<char>) -> Seq<char> {
    s.map_values(|c: char| ascii_lower(c))
}

/// Extensions taken in by the ingest watcher, lower case.
pub open spec fn image_extensions() -> Seq<Seq<char>> {
    seq![
        "jpg"@, "jpeg"@, "png"@, "gif"@, "bmp"@, "tiff"@, "tif"@, "dng"@, "cr2"@, "cr3"@,
        "nef"@, "arw"@, "raw"@, "raf"@, "orf"@, "rw2"@,
    ]
}

/// Whether the path's file name has an extension of the whitelist, in any case.
pub open spec fn is_image_path(p: Seq<char>) -> bool {
    match file_name_of(p) {
        Some(name) => {
            let d = ext_dot(name);
            d >= 0 && image_extensions().contains(lower_seq(name.subrange(d + 1, name.len() as int)))
        },
        None => false,
    }
}

fn lower_ascii_eq(s: &str, lower: &str) -> (r: bool)
    ensures
        r == (lower_seq(s@) == lower@),
{
    let n = s.unicode_len();
    if n != lower.unicode_len() {
        assert(lower_seq(s@).len() == s@.len());
        return false;
    }
    let mut i: usize = 0;
    while i < n
        invariant
            n == s@.len(),
            n == lower@.len(),
            i <= n,
            forall|k: int| 0 <= k < i ==> ascii_lower(s@[k]) == lower@[k],
        decreases n - i,
    {
        let c = s.get_char(i);
        let l = if 'A' <= c && c <= 'Z' { (((c as u32) + 32) as u8) as char } else { c };
        if l != lower.get_char(i) {
            assert(lower_seq(s@)[i as int] != lower@[i as int]);
            return false;
        }
        i = i + 1;
    }
    assert(lower_seq(s@) =~= lower@);
    true
}

/// Whether a path names a file the ingest watcher takes (see `is_image_path`).
pub fn is_image_file(path: &str) -> (r: bool)
    ensures
        r == is_image_path(path@),
{
    let name = match file_name(path) {
        Some(n) => n,
        None => return false,
    };
    let d = match find_ext_dot(name.as_str()) {
        Some(d) => d,
        None => return false,
    };
    let len = name.as_str().unicode_len();
    let ext = name.as_str().substring_char(d + 1, len);
    let allowed = [
        "jpg", "jpeg", "png", "gif", "bmp", "tiff", "tif", "dng", "cr2", "cr3", "nef", "arw",
        "raw", "raf", "orf", "rw2",
    ];
    let ghost e = lower_seq(ext@);
    let mut i: usize = 0;
    while i < 16
        invariant
            i <= 16,
            e == lower_seq(ext@),
            file_name_of(path@) == Some(name@),
            ext_dot(name@) == d as int,
            0 < d < name@.len(),
            ext@ == name@.subrange(d + 1, name@.len() as int),
            allowed@.len() == 16,
            forall|k: int| 0 <= k < 16 ==> (#[trigger] allowed@[k])@ == image_extensions()[k],
            forall|k: int| 0 <= k < i ==> image_extensions()[k] != e,
        decreases 16 - i,
    {
        if lower_ascii_eq(ext, allowed[i]) {
            assert(image_extensions()[i as int] == e);
            assert(image_extensions().contains(e));
            return true;
        }
        i = i + 1;
    }
    assert(!image_extensions().contains(e));
    false
}

} // verus!
