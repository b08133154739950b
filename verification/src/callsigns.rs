//! A set of callsigns.
//!
//! Backed by a vector that never holds the same callsign twice, and viewed
//! as the set of its callsigns' character sequences. Insertion and removal
//! are idempotent: inserting a present callsign and removing an absent one
//! change nothing.

use vstd::prelude::*;
use vstd::seq_lib::*;

verus! {

/// A set of callsigns with idempotent insert and remove.
pub struct CallsignSet {
    items: Vec<String>,
}

impl CallsignSet {
    /// The callsigns as character sequences, in insertion order.
    pub closed spec fn keys(self) -> Seq<Seq<char>> {
        self.items@.map_values(|s: String| s@)
    }

    /// Each callsign appears at most once.
    pub closed spec fn wf(self) -> bool {
        self.keys().no_duplicates()
    }

    /// An empty set.
    pub fn new() -> (r: CallsignSet)
        ensures
            r.wf(),
            r@ == Set::<Seq<char>>::empty(),
    {
        let r = CallsignSet { items: Vec::new() };
        proof {
            assert(r@ =~= Set::<Seq<char>>::empty());
        }
        r
    }

    /// Index of `callsign` in the backing vector, if present.
    fn index_of(&self, callsign: &String) -> (r: Option<usize>)
        ensures
            match r {
                Some(i) => i < self.keys().len() && self.keys()[i as int] == callsign@,
                None => !self@.contains(callsign@),
            },
    {
        let n = self.items.len();
        let mut i: usize = 0;
        while i < n
            invariant
                i <= n,
                n == self.items@.len(),
                forall|j: int| 0 <= j < i ==> self.items@[j]@ != callsign@,
            decreases n - i,
        {
            if self.items[i] == *callsign {
                proof {
                    assert(self.keys()[i as int] == callsign@);
                }
                return Some(i);
            }
            i = i + 1;
        }
        proof {
            assert forall|j: int| 0 <= j < self.keys().len() implies self.keys()[j]
                != callsign@ by {
                assert(self.keys()[j] == self.items@[j]@);
            }
            assert(!self.keys().contains(callsign@));
        }
        None
    }

    /// Whether `callsign` is in the set.
    pub fn contains(&self, callsign: &String) -> (r: bool)
        ensures
            r == self@.contains(callsign@),
    {
        match self.index_of(callsign) {
            Some(i) => {
                proof {
                    assert(self.keys().contains(callsign@));
                }
                true
            },
            None => false,
        }
    }

    /// Inserts `callsign`; a no-op if it is already present.
    pub fn insert(&mut self, callsign: &String)
        requires
            old(self).wf(),
        ensures
            final(self).wf(),
            final(self)@ == old(self)@.insert(callsign@),
    {
        if !self.contains(callsign) {
            self.items.push(callsign.clone());
            proof {
                let ok = old(self).keys();
                let nk = self.keys();
                assert(nk =~= ok.push(callsign@));
                assert(!ok.contains(callsign@));
                assert forall|i: int, j: int|
                    0 <= i < nk.len() && 0 <= j < nk.len() && i != j implies nk[i] != nk[j] by {
                    if i < ok.len() && j < ok.len() {
                        assert(ok[i] == nk[i] && ok[j] == nk[j]);
                    } else if j == ok.len() {
                        assert(nk[i] == ok[i] && nk[j] == callsign@);
                    } else {
                        assert(nk[j] == ok[j] && nk[i] == callsign@);
                    }
                }
                assert forall|x: Seq<char>| nk.to_set().contains(x) == ok.to_set().insert(
                    callsign@,
                ).contains(x) by {
                    assert(nk[ok.len() as int] == callsign@);
                    if nk.contains(x) {
                        let p = choose|p: int| 0 <= p < nk.len() && nk[p] == x;
                        if p < ok.len() {
                            assert(ok[p] == x);
                        }
                    }
                    if ok.contains(x) {
                        let p = choose|p: int| 0 <= p < ok.len() && ok[p] == x;
                        assert(nk[p] == x);
                    }
                }
                assert(self@ =~= old(self)@.insert(callsign@));
            }
        } else {
            proof {
                assert(self@ =~= old(self)@.insert(callsign@));
            }
        }
    }

    /// Removes `callsign`; a no-op if it is absent.
    pub fn remove(&mut self, callsign: &String)
        requires
            old(self).wf(),
        ensures
            final(self).wf(),
            final(self)@ == old(self)@.remove(callsign@),
    {
        match self.index_of(callsign) {
            Some(i) => {
                self.items.remove(i);
                proof {
                    let ok = old(self).keys();
                    let nk = self.keys();
                    let c = callsign@;
                    assert(nk =~= ok.remove(i as int));
                    assert forall|p: int, q: int|
                        0 <= p < nk.len() && 0 <= q < nk.len() && p != q implies nk[p]
                        != nk[q] by {
                        let p0 = if p < i { p } else { p + 1 };
                        let q0 = if q < i { q } else { q + 1 };
                        assert(nk[p] == ok[p0] && nk[q] == ok[q0]);
                    }
                    assert forall|x: Seq<char>| nk.to_set().contains(x) == ok.to_set().remove(
                        c,
                    ).contains(x) by {
                        if nk.contains(x) {
                            let p = choose|p: int| 0 <= p < nk.len() && nk[p] == x;
                            let p0 = if p < i { p } else { p + 1 };
                            assert(ok[p0] == x);
                            assert(p0 != i ==> x != c);
                        }
                        if x != c && ok.contains(x) {
                            let p0 = choose|p0: int| 0 <= p0 < ok.len() && ok[p0] == x;
                            let p = if p0 < i { p0 } else { p0 - 1 };
                            assert(p0 != i);
                            assert(nk[p] == x);
                        }
                    }
                    assert(self@ =~= old(self)@.remove(c));
                }
            },
            None => {
                proof {
                    assert(old(self)@.remove(callsign@) =~= old(self)@);
                }
            },
        }
    }

    /// The number of callsigns in the set.
    pub fn len(&self) -> (r: usize)
        requires
            self.wf(),
        ensures
            r == self@.len(),
    {
        proof {
            self.keys().unique_seq_to_set();
        }
        self.items.len()
    }

    /// Removes every callsign.
    pub fn clear(&mut self)
        ensures
            final(self).wf(),
            final(self)@ == Set::<Seq<char>>::empty(),
    {
        self.items.clear();
        proof {
            assert(self@ =~= Set::<Seq<char>>::empty());
        }
    }
}

impl View for CallsignSet {
    type V = Set<Seq<char>>;

    closed spec fn view(&self) -> Set<Seq<char>> {
        self.keys().to_set()
    }
}

} // verus!
