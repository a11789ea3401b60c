//! A set of string keys kept in insertion order, without duplicates. It
//! backs the pending-request table, the set of paths being stabilized and
//! the export queue's pending keys.

use vstd::prelude::*;
use crate::strings::str_equals;
use vstd::string::*;

verus! {

pub open spec fn strings_view(v: Seq<String>) -> Seq<Seq<char>> {
    v.map_values(|s: String| s@)
}

/// Keys in the order they were added.
#[derive(Clone, Debug)]
pub struct KeySet {
    keys: Vec<String>,
}

impl View for KeySet {
    type V = Seq<Seq<char>>;

    closed spec fn view(&self) -> Seq<Seq<char>> {
        strings_view(self.keys@)
    }
}

impl KeySet {
    /// No key appears twice.
    pub open spec fn wf(&self) -> bool {
        self@.no_duplicates()
    }

    pub fn new() -> (r: KeySet)
        ensures
            r@ == Seq::<Seq<char>>::empty(),
            r.wf(),
    {
        let r = KeySet { keys: Vec::new() };
        assert(r@ =~= Seq::<Seq<char>>::empty());
        r
    }

    pub fn len(&self) -> (r: usize)
        ensures
            r == self@.len(),
    {
        self.keys.len()
    }

    fn index_of(&self, k: &str) -> (r: Option<usize>)
        ensures
            r is Some ==> r->0 < self@.len() && self@[r->0 as int] == k@,
            r is None ==> !self@.contains(k@),
    {
        let mut i: usize = 0;
        while i < self.keys.len()
            invariant
                i <= self.keys@.len(),
                forall|j: int| 0 <= j < i ==> self@[j] != k@,
            decreases self.keys.len() - i,
        {
            if str_equals(self.keys[i].as_str(), k) {
                return Some(i);
            }
            i = i + 1;
        }
        None
    }

    pub fn contains(&self, k: &str) -> (r: bool)
        ensures
            r == self@.contains(k@),
    {
        self.index_of(k).is_some()
    }

    /// Adds `k` unless present; tells whether it was added.
    pub fn insert(&mut self, k: &str) -> (r: bool)
        requires
            old(self).wf(),
        ensures
            final(self).wf(),
            r == !old(self)@.contains(k@),
            r ==> final(self)@ == old(self)@.push(k@),
            !r ==> final(self)@ == old(self)@,
            final(self)@.contains(k@),
    {
        if self.contains(k) {
            return false;
        }
        self.keys.push(String::from_str(k));
        assert(self@ =~= old(self)@.push(k@));
        assert(self@[self@.len() - 1] == k@);
        proof {
            assert forall|i: int, j: int| 0 <= i < j < self@.len() implies self@[i] != self@[j] by {
                if j == self@.len() - 1 {
                    assert(self@[i] == old(self)@[i]);
                }
            }
        }
        true
    }

    /// Removes `k` if present; tells whether it was there.
    pub fn remove(&mut self, k: &str) -> (r: bool)
        requires
            old(self).wf(),
        ensures
            final(self).wf(),
            r == old(self)@.contains(k@),
            !final(self)@.contains(k@),
            final(self)@.to_set() == old(self)@.to_set().remove(k@),
            final(self)@ == old(self)@.remove_value(k@),
            final(self)@.len() == (if r { old(self)@.len() - 1 } else { old(self)@.len() as int }),
    {
        match self.index_of(k) {
            Some(i) => {
                let ghost before = self@;
                self.keys.remove(i);
                proof {
                    assert(self@ =~= before.remove(i as int));
                    assert(before.index_of_first(k@) == Some(i as int)) by {
                        before.index_of_first_ensures(k@);
                        match before.index_of_first(k@) {
                            Some(j) => {
                                if j != i as int {
                                    assert(before[j] == before[i as int]);
                                }
                            },
                            None => {},
                        }
                    }
                    assert forall|a: int, b: int| 0 <= a < b < self@.len() implies self@[a] != self@[b] by {
                        let a2 = if a < i { a } else { a + 1 };
                        let b2 = if b < i { b } else { b + 1 };
                        assert(self@[a] == before[a2]);
                        assert(self@[b] == before[b2]);
                    }
                    assert(!self@.contains(k@)) by {
                        if self@.contains(k@) {
                            let j = choose|j: int| 0 <= j < self@.len() && self@[j] == k@;
                            let j2 = if j < i { j } else { j + 1 };
                            assert(before[j2] == k@);
                        }
                    }
                    assert(self@.to_set() =~= before.to_set().remove(k@)) by {
                        assert forall|x: Seq<char>| self@.to_set().contains(x)
                            <==> before.to_set().remove(k@).contains(x) by {
                            if self@.contains(x) {
                                let j = choose|j: int| 0 <= j < self@.len() && self@[j] == x;
                                let j2 = if j < i { j } else { j + 1 };
                                assert(before[j2] == x);
                            }
                            if before.contains(x) && x != k@ {
                                let j = choose|j: int| 0 <= j < before.len() && before[j] == x;
                                assert(j != i);
                                let j2 = if j < i { j } else { j - 1 };
                                assert(self@[j2] == x);
                            }
                        }
                    }
                }
                true
            },
            None => {
                proof {
                    self@.index_of_first_ensures(k@);
                    assert(self@.to_set() =~= self@.to_set().remove(k@));
                }
                false
            },
        }
    }

    /// Empties the set and hands out every key it held, each once.
    pub fn drain(&mut self) -> (r: Vec<String>)
        requires
            old(self).wf(),
        ensures
            final(self)@ == Seq::<Seq<char>>::empty(),
            final(self).wf(),
            strings_view(r@) == old(self)@,
            strings_view(r@).no_duplicates(),
    {
        let mut out: Vec<String> = Vec::new();
        std::mem::swap(&mut out, &mut self.keys);
        assert(self@ =~= Seq::<Seq<char>>::empty());
        out
    }

    /// The keys, in order.
    pub fn to_vec(&self) -> (r: Vec<String>)
        ensures
            strings_view(r@) == self@,
    {
        let mut out: Vec<String> = Vec::new();
        let mut i: usize = 0;
        while i < self.keys.len()
            invariant
                i <= self.keys@.len(),
                strings_view(out@) == self@.subrange(0, i as int),
            decreases self.keys.len() - i,
        {
            let c = self.keys[i].clone();
            let ghost before = out@;
            out.push(c);
            proof {
                assert(c@ == self.keys@[i as int]@);
                assert(out@ == before.push(c));
                assert(strings_view(out@) =~= strings_view(before).push(c@));
                assert(self@[i as int] == self.keys@[i as int]@);
                assert(strings_view(out@) =~= self@.subrange(0, i + 1));
            }
            i = i + 1;
        }
        assert(self@.subrange(0, i as int) =~= self@);
        out
    }
}

} // verus!
