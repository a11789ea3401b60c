//! Ordered key/value lists with string keys: the first entry with a key is
//! the one that counts, and setting a key replaces that entry in place.

use vstd::prelude::*;
use crate::strings::str_equals;
use vstd::string::*;

verus! {

/// The entries as pairs of character sequences.
pub open spec fn entries_view(v: Seq<(String, String)>) -> Seq<(Seq<char>, Seq<char>)> {
    v.map_values(|p: (String, String)| (p.0@, p.1@))
}

pub open spec fn is_first_key(s: Seq<(Seq<char>, Seq<char>)>, k: Seq<char>, i: int) -> bool {
    &&& 0 <= i < s.len()
    &&& s[i].0 == k
    &&& forall|j: int| 0 <= j < i ==> s[j].0 != k
}

pub open spec fn has_key(s: Seq<(Seq<char>, Seq<char>)>, k: Seq<char>) -> bool {
    exists|i: int| 0 <= i < s.len() && s[i].0 == k
}

/// Index of the first entry with key `k`, or -1.
pub open spec fn first_key_index(s: Seq<(Seq<char>, Seq<char>)>, k: Seq<char>) -> int {
    if exists|i: int| is_first_key(s, k, i) {
        choose|i: int| is_first_key(s, k, i)
    } else {
        -1
    }
}

/// The value stored under `k`, if any.
pub open spec fn lookup(s: Seq<(Seq<char>, Seq<char>)>, k: Seq<char>) -> Option<Seq<char>> {
    let i = first_key_index(s, k);
    if i >= 0 { Some(s[i].1) } else { None }
}

/// Sets `k` to `v`: replaces the first entry with that key, or appends.
pub open spec fn upsert(s: Seq<(Seq<char>, Seq<char>)>, k: Seq<char>, v: Seq<char>) -> Seq<(Seq<char>, Seq<char>)> {
    let i = first_key_index(s, k);
    if i >= 0 { s.update(i, (k, v)) } else { s.push((k, v)) }
}

pub proof fn lemma_first_key_index(s: Seq<(Seq<char>, Seq<char>)>, k: Seq<char>, i: int)
    requires
        is_first_key(s, k, i),
    ensures
        first_key_index(s, k) == i,
{
    let c = choose|c: int| is_first_key(s, k, c);
    assert(is_first_key(s, k, c));
    if c < i {
        assert(s[c].0 != k);
    }
    if i < c {
        assert(s[i].0 != k);
    }
}

pub proof fn lemma_no_key(s: Seq<(Seq<char>, Seq<char>)>, k: Seq<char>)
    requires
        forall|j: int| 0 <= j < s.len() ==> s[j].0 != k,
    ensures
        first_key_index(s, k) == -1,
        !has_key(s, k),
{
}

pub proof fn lemma_has_key_first(s: Seq<(Seq<char>, Seq<char>)>, k: Seq<char>)
    ensures
        has_key(s, k) <==> first_key_index(s, k) >= 0,
        first_key_index(s, k) >= 0 ==> is_first_key(s, k, first_key_index(s, k)),
{
    if has_key(s, k) {
        let w = choose|w: int| 0 <= w < s.len() && s[w].0 == k;
        lemma_first_exists(s, k, w);
    }
}

proof fn lemma_first_exists(s: Seq<(Seq<char>, Seq<char>)>, k: Seq<char>, w: int)
    requires
        0 <= w < s.len(),
        s[w].0 == k,
    ensures
        exists|i: int| is_first_key(s, k, i),
    decreases w,
{
    if exists|j: int| 0 <= j < w && s[j].0 == k {
        let j = choose|j: int| 0 <= j < w && s[j].0 == k;
        lemma_first_exists(s, k, j);
    } else {
        assert(is_first_key(s, k, w));
    }
}

/// Setting a key: it then maps to the new value, other keys keep theirs,
/// and the keys present grow by that key only.
pub proof fn lemma_lookup_upsert(s: Seq<(Seq<char>, Seq<char>)>, k: Seq<char>, v: Seq<char>, k2: Seq<char>)
    ensures
        lookup(upsert(s, k, v), k2) == (if k2 == k { Some(v) } else { lookup(s, k2) }),
        has_key(upsert(s, k, v), k2) == (k2 == k || has_key(s, k2)),
{
    lemma_has_key_first(s, k);
    lemma_has_key_first(s, k2);
    let u = upsert(s, k, v);
    let i = first_key_index(s, k);
    if i >= 0 {
        // in-place update at the first index of k
        if k2 == k {
            assert(is_first_key(u, k, i));
            lemma_first_key_index(u, k, i);
        } else {
            let i2 = first_key_index(s, k2);
            if i2 >= 0 {
                assert(i2 != i);
                assert(is_first_key(u, k2, i2));
                lemma_first_key_index(u, k2, i2);
            } else {
                assert forall|j: int| 0 <= j < u.len() implies u[j].0 != k2 by {
                    if j != i {
                        assert(u[j] == s[j]);
                    }
                }
                lemma_no_key(u, k2);
            }
        }
    } else {
        assert forall|j: int| 0 <= j < s.len() implies s[j].0 != k by {
            if s[j].0 == k {
                assert(has_key(s, k));
            }
        }
        if k2 == k {
            assert(is_first_key(u, k, s.len() as int));
            lemma_first_key_index(u, k, s.len() as int);
        } else {
            let i2 = first_key_index(s, k2);
            if i2 >= 0 {
                assert(is_first_key(u, k2, i2));
                lemma_first_key_index(u, k2, i2);
            } else {
                assert forall|j: int| 0 <= j < u.len() implies u[j].0 != k2 by {
                    if j < s.len() {
                        assert(u[j] == s[j]);
                        if s[j].0 == k2 {
                            assert(has_key(s, k2));
                        }
                    }
                }
                lemma_no_key(u, k2);
            }
        }
    }
}

/// Only the keys decide where the first entry of a key is.
pub proof fn lemma_first_same_keys(s: Seq<(Seq<char>, Seq<char>)>, t: Seq<(Seq<char>, Seq<char>)>, k: Seq<char>)
    requires
        s.len() == t.len(),
        forall|i: int| 0 <= i < s.len() ==> s[i].0 == t[i].0,
    ensures
        first_key_index(s, k) == first_key_index(t, k),
        forall|i: int| is_first_key(s, k, i) <==> is_first_key(t, k, i),
{
    lemma_has_key_first(s, k);
    lemma_has_key_first(t, k);
    let i = first_key_index(s, k);
    if i >= 0 {
        assert(is_first_key(t, k, i));
        lemma_first_key_index(t, k, i);
    } else {
        assert forall|j: int| 0 <= j < t.len() implies t[j].0 != k by {
            if t[j].0 == k {
                assert(s[j].0 == k);
                assert(has_key(s, k));
            }
        }
        lemma_no_key(t, k);
    }
}

/// Index of the first entry whose key is `k`.
pub fn find_key(v: &Vec<(String, String)>, k: &str) -> (r: Option<usize>)
    ensures
        r is Some ==> is_first_key(entries_view(v@), k@, r->0 as int)
            && first_key_index(entries_view(v@), k@) == r->0 as int,
        r is None ==> first_key_index(entries_view(v@), k@) == -1
            && !has_key(entries_view(v@), k@),
{
    let ghost s = entries_view(v@);
    let mut i: usize = 0;
    while i < v.len()
        invariant
            i <= v@.len(),
            s == entries_view(v@),
            s.len() == v@.len(),
            forall|j: int| 0 <= j < i ==> s[j].0 != k@,
        decreases v.len() - i,
    {
        if str_equals(v[i].0.as_str(), k) {
            proof {
                assert(s[i as int].0 == k@);
                lemma_first_key_index(s, k@, i as int);
            }
            return Some(i);
        }
        i = i + 1;
    }
    proof {
        lemma_no_key(s, k@);
    }
    None
}

/// Sets `k` to `value` in place: see `upsert`.
pub fn upsert_entry(v: &mut Vec<(String, String)>, k: &str, value: String)
    ensures
        entries_view(final(v)@) == upsert(entries_view(old(v)@), k@, value@),
{
    let key = String::from_str(k);
    match find_key(v, k) {
        Some(i) => {
            v.set(i, (key, value));
            assert(entries_view(v@) =~= upsert(entries_view(old(v)@), k@, value@));
        },
        None => {
            v.push((key, value));
            assert(entries_view(v@) =~= upsert(entries_view(old(v)@), k@, value@));
        },
    }
}

} // verus!
