//! Whitespace and trimming on character sequences.

use vstd::prelude::*;
use crate::strings::owned;
use vstd::string::*;

verus! {

/// Unicode `White_Space`, as `char::is_whitespace` documents it.
pub open spec fn is_ws(c: char) -> bool {
    ||| ('\u{9}' <= c && c <= '\u{d}')
    ||| c == ' '
    ||| c == '\u{85}'
    ||| c == '\u{a0}'
    ||| c == '\u{1680}'
    ||| ('\u{2000}' <= c && c <= '\u{200a}')
    ||| c == '\u{2028}'
    ||| c == '\u{2029}'
    ||| c == '\u{202f}'
    ||| c == '\u{205f}'
    ||| c == '\u{3000}'
}

pub fn is_whitespace(c: char) -> (r: bool)
    ensures
        r == is_ws(c),
{
    ('\u{9}' <= c && c <= '\u{d}') || c == ' ' || c == '\u{85}' || c == '\u{a0}' || c == '\u{1680}'
        || ('\u{2000}' <= c && c <= '\u{200a}') || c == '\u{2028}' || c == '\u{2029}'
        || c == '\u{202f}' || c == '\u{205f}' || c == '\u{3000}'
}

/// The characters trimmed: dashes, or else whitespace.
pub open spec fn in_class(c: char, dash: bool) -> bool {
    if dash { c == '-' } else { is_ws(c) }
}

/// Whether `s[lo..hi]` is `s` with leading and trailing characters of the
/// class removed.
pub open spec fn trimmed_bounds(s: Seq<char>, lo: int, hi: int, dash: bool) -> bool {
    &&& 0 <= lo <= hi <= s.len()
    &&& forall|k: int| 0 <= k < lo ==> in_class(#[trigger] s[k], dash)
    &&& forall|k: int| hi <= k < s.len() ==> in_class(#[trigger] s[k], dash)
    &&& (lo < hi ==> !in_class(s[lo], dash) && !in_class(s[hi - 1], dash))
}

/// `s` without leading and trailing whitespace.
pub open spec fn trim_ws(s: Seq<char>) -> Seq<char> {
    let b = choose|b: (int, int)| trimmed_bounds(s, b.0, b.1, false);
    s.subrange(b.0, b.1)
}

/// `s` without leading and trailing `-`.
pub open spec fn trim_dashes(s: Seq<char>) -> Seq<char> {
    let b = choose|b: (int, int)| trimmed_bounds(s, b.0, b.1, true);
    s.subrange(b.0, b.1)
}

pub proof fn lemma_trim_unique(s: Seq<char>, lo: int, hi: int, lo2: int, hi2: int, dash: bool)
    requires
        trimmed_bounds(s, lo, hi, dash),
        trimmed_bounds(s, lo2, hi2, dash),
    ensures
        s.subrange(lo, hi) == s.subrange(lo2, hi2),
{
    if lo < hi {
        if lo2 < hi2 {
            if lo < lo2 { assert(in_class(s[lo], dash)); }
            if lo2 < lo { assert(in_class(s[lo2], dash)); }
            if hi < hi2 { assert(in_class(s[hi2 - 1], dash)); }
            if hi2 < hi { assert(in_class(s[hi - 1], dash)); }
        } else {
            if lo < lo2 { assert(in_class(s[lo], dash)); } else { assert(in_class(s[lo], dash) || hi2 <= lo); }
        }
    } else if lo2 < hi2 {
        if lo2 < lo { assert(in_class(s[lo2], dash)); } else { assert(in_class(s[lo2], dash) || hi <= lo2); }
    }
    assert(s.subrange(lo, hi) =~= s.subrange(lo2, hi2));
}

fn trim_bounds_ws(s: &str) -> (r: (usize, usize))
    ensures
        trimmed_bounds(s@, r.0 as int, r.1 as int, false),
{
    let n = s.unicode_len();
    let mut lo: usize = 0;
    while lo < n && is_whitespace(s.get_char(lo))
        invariant
            lo <= n,
            n == s@.len(),
            forall|k: int| 0 <= k < lo ==> is_ws(#[trigger] s@[k]),
        decreases n - lo,
    {
        lo = lo + 1;
    }
    let mut hi: usize = n;
    while hi > lo && is_whitespace(s.get_char(hi - 1))
        invariant
            lo <= hi <= n,
            n == s@.len(),
            forall|k: int| hi <= k < n ==> is_ws(#[trigger] s@[k]),
        decreases hi,
    {
        hi = hi - 1;
    }
    (lo, hi)
}

/// `s` without leading and trailing whitespace.
pub fn trim(s: &str) -> (r: &str)
    ensures
        r@ == trim_ws(s@),
{
    let (lo, hi) = trim_bounds_ws(s);
    proof {
        let b = choose|b: (int, int)| trimmed_bounds(s@, b.0, b.1, false);
        lemma_trim_unique(s@, lo as int, hi as int, b.0, b.1, false);
    }
    s.substring_char(lo, hi)
}

/// `s` without leading and trailing `-`.
pub fn trim_dash(s: &str) -> (r: String)
    ensures
        r@ == trim_dashes(s@),
{
    let n = s.unicode_len();
    let mut lo: usize = 0;
    while lo < n && s.get_char(lo) == '-'
        invariant
            lo <= n,
            n == s@.len(),
            forall|k: int| 0 <= k < lo ==> #[trigger] s@[k] == '-',
        decreases n - lo,
    {
        lo = lo + 1;
    }
    let mut hi: usize = n;
    while hi > lo && s.get_char(hi - 1) == '-'
        invariant
            lo <= hi <= n,
            n == s@.len(),
            forall|k: int| hi <= k < n ==> #[trigger] s@[k] == '-',
        decreases hi,
    {
        hi = hi - 1;
    }
    proof {
        let b0 = (lo as int, hi as int);
        assert(trimmed_bounds(s@, b0.0, b0.1, true));
        let b = choose|b: (int, int)| trimmed_bounds(s@, b.0, b.1, true);
        lemma_trim_unique(s@, lo as int, hi as int, b.0, b.1, true);
    }
    owned(s.substring_char(lo, hi))
}

} // verus!
