//! Per-key debounce ledger.
//!
//! `may_fire` answers whether a key is allowed to increment a counter: yes
//! if the key was never marked, or if more than [`COOLDOWN_SECS`] seconds
//! of wall-clock time have passed since its most recent mark. `mark`
//! records the current timestamp for a key, overwriting any prior entry.
//! Entries never expire on their own; only `mark` and `clear` change the
//! ledger. This is a last-write debounce, not a rate limiter: it never
//! blocks the first firing in a burst.
//!
//! The ledger is viewed as a partial map from callsign to the timestamp of
//! its most recent mark.

use vstd::prelude::*;

verus! {

/// Seconds that must have passed, strictly, since the most recent mark
/// before the same key may fire again.
pub const COOLDOWN_SECS: u64 = 60;

/// Whether a key may fire under ledger `m` at time `now`: it has no entry,
/// or its entry is more than [`COOLDOWN_SECS`] seconds old.
pub open spec fn spec_may_fire(m: Map<Seq<char>, u64>, key: Seq<char>, now: u64) -> bool {
    !m.contains_key(key) || now > m[key] + COOLDOWN_SECS
}

/// The timestamp of the most recent entry for `key`, scanning the entry
/// list from its end.
pub open spec fn last_mark(entries: Seq<(String, u64)>, key: Seq<char>) -> Option<u64>
    decreases entries.len(),
{
    if entries.len() == 0 {
        None
    } else if entries.last().0@ == key {
        Some(entries.last().1)
    } else {
        last_mark(entries.drop_last(), key)
    }
}

/// Removing an entry whose key is not `key` does not change the most
/// recent mark for `key`.
proof fn lemma_last_mark_remove(entries: Seq<(String, u64)>, i: int, key: Seq<char>)
    requires
        0 <= i < entries.len(),
        entries[i].0@ != key,
    ensures
        last_mark(entries.remove(i), key) == last_mark(entries, key),
    decreases entries.len(),
{
    if i == entries.len() - 1 {
        assert(entries.remove(i) =~= entries.drop_last());
    } else {
        let shorter = entries.remove(i);
        assert(shorter.last() == entries.last());
        if entries.last().0@ == key {
        } else {
            assert(shorter.drop_last() =~= entries.drop_last().remove(i));
            lemma_last_mark_remove(entries.drop_last(), i, key);
        }
    }
}

/// Debounce ledger: one entry per key, holding the timestamp of the key's
/// most recent mark.
pub struct CooldownRegistry {
    entries: Vec<(String, u64)>,
}

/// Index of the first entry for `key`, if any.
fn find_key(entries: &Vec<(String, u64)>, key: &String) -> (r: Option<usize>)
    ensures
        match r {
            Some(i) => i < entries@.len() && entries@[i as int].0@ == key@,
            None => forall|j: int| 0 <= j < entries@.len() ==> entries@[j].0@ != key@,
        },
{
    let n = entries.len();
    let mut i: usize = 0;
    while i < n
        invariant
            i <= n,
            n == entries@.len(),
            forall|j: int| 0 <= j < i ==> entries@[j].0@ != key@,
        decreases n - i,
    {
        if entries[i].0 == *key {
            return Some(i);
        }
        i = i + 1;
    }
    None
}

impl View for CooldownRegistry {
    type V = Map<Seq<char>, u64>;

    closed spec fn view(&self) -> Map<Seq<char>, u64> {
        Map::new(
            |key: Seq<char>| last_mark(self.entries@, key) is Some,
            |key: Seq<char>| last_mark(self.entries@, key)->Some_0,
        )
    }
}

impl CooldownRegistry {
    /// An empty ledger.
    pub fn new() -> (r: CooldownRegistry)
        ensures
            r@ == Map::<Seq<char>, u64>::empty(),
    {
        let r = CooldownRegistry { entries: Vec::new() };
        proof {
            assert(r@ =~= Map::<Seq<char>, u64>::empty());
        }
        r
    }

    /// True if `key` has no entry, or its entry is more than
    /// [`COOLDOWN_SECS`] seconds older than `now`.
    pub fn may_fire(&self, key: &String, now: u64) -> (r: bool)
        ensures
            r == spec_may_fire(self@, key@, now),
    {
        let n = self.entries.len();
        let mut i = n;
        proof {
            assert(self.entries@.take(n as int) =~= self.entries@);
        }
        while i > 0
            invariant
                i <= n,
                n == self.entries@.len(),
                last_mark(self.entries@, key@) == last_mark(self.entries@.take(i as int), key@),
            decreases i,
        {
            i = i - 1;
            proof {
                assert(self.entries@.take(i + 1).last() == self.entries@[i as int]);
                assert(self.entries@.take(i + 1).drop_last() =~= self.entries@.take(i as int));
            }
            if self.entries[i].0 == *key {
                let last = self.entries[i].1;
                proof {
                    assert(last_mark(self.entries@.take(i + 1), key@) == Some(last));
                    assert(self@[key@] == last);
                }
                return last < now && now - last > COOLDOWN_SECS;
            }
        }
        proof {
            assert(self.entries@.take(0) =~= Seq::<(String, u64)>::empty());
            assert(last_mark(self.entries@, key@) is None);
        }
        true
    }

    /// Records `now` as the most recent mark for `key`, overwriting any
    /// prior entry.
    pub fn mark(&mut self, key: &String, now: u64)
        ensures
            final(self)@ == old(self)@.insert(key@, now),
    {
        let ghost pre = self.entries@;
        if let Some(i) = find_key(&self.entries, key) {
            self.entries.remove(i);
            proof {
                assert forall|k2: Seq<char>| k2 != key@ implies last_mark(self.entries@, k2)
                    == last_mark(pre, k2) by {
                    lemma_last_mark_remove(pre, i as int, k2);
                }
            }
        }
        let ghost mid = self.entries@;
        self.entries.push((key.clone(), now));
        proof {
            assert(self.entries@.drop_last() =~= mid);
            assert(last_mark(self.entries@, key@) == Some(now));
            assert forall|k2: Seq<char>| k2 != key@ implies last_mark(self.entries@, k2)
                == last_mark(pre, k2) by {
                assert(last_mark(self.entries@, k2) == last_mark(mid, k2));
            }
            assert(self@ =~= old(self)@.insert(key@, now));
        }
    }

    /// Removes every entry.
    pub fn clear(&mut self)
        ensures
            final(self)@ == Map::<Seq<char>, u64>::empty(),
    {
        self.entries.clear();
        proof {
            assert(self@ =~= Map::<Seq<char>, u64>::empty());
        }
    }
}

} // verus!
