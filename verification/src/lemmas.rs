//! Properties of the tracker's transitions, stated over the same spec
//! functions that the handlers' contracts use.

use crate::cooldown::spec_may_fire;
use crate::cooldown::COOLDOWN_SECS;
use crate::tracker::spec_debounce_step;
use crate::tracker::spec_identity_changed;
use vstd::prelude::*;

verus! {

/// Ending a track right after beginning it leaves the aircraft untracked,
/// for any prior tracked set; and ending a track for an absent callsign
/// changes nothing. `begin_track` inserts into the tracked set and
/// `drop_tracked` removes from it, so this covers the pair of calls.
pub proof fn lemma_track_then_drop(tracked_set: Set<Seq<char>>, c: Seq<char>)
    ensures
        !tracked_set.insert(c).remove(c).contains(c),
        !tracked_set.contains(c) ==> tracked_set.remove(c) == tracked_set,
{
    assert(!tracked_set.contains(c) ==> tracked_set.remove(c) =~= tracked_set);
}

/// A debounced counter fires at most once within the cooldown window.
/// From any ledger in which `c` may fire, the first event at `t0` bumps
/// the counter by one and marks the key; a second event no later than
/// [`COOLDOWN_SECS`] seconds after `t0` changes neither ledger nor
/// counter, while one strictly later bumps the counter once more.
pub proof fn lemma_debounce_window(m: Map<Seq<char>, u64>, n: u32, c: Seq<char>, t0: u64, t1: u64)
    requires
        spec_may_fire(m, c, t0),
        n + 2 <= u32::MAX,
    ensures
        spec_debounce_step(m, n, c, t0).1 == n + 1,
        t1 <= t0 + COOLDOWN_SECS ==> spec_debounce_step(
            spec_debounce_step(m, n, c, t0).0,
            spec_debounce_step(m, n, c, t0).1,
            c,
            t1,
        ) == spec_debounce_step(m, n, c, t0),
        t1 > t0 + COOLDOWN_SECS ==> spec_debounce_step(
            spec_debounce_step(m, n, c, t0).0,
            spec_debounce_step(m, n, c, t0).1,
            c,
            t1,
        ).1 == n + 2,
{
}

/// A handoff that fires counts exactly one handoff and acquires the
/// track, whether or not the aircraft was already tracked: the counter
/// step bumps by one, and inserting the callsign leaves it tracked and is
/// a no-op on a set that already holds it.
pub proof fn lemma_handoff_acquires_track(
    m: Map<Seq<char>, u64>,
    n: u32,
    tracked_set: Set<Seq<char>>,
    c: Seq<char>,
    now: u64,
)
    requires
        spec_may_fire(m, c, now),
        n < u32::MAX,
    ensures
        spec_debounce_step(m, n, c, now).1 == n + 1,
        tracked_set.insert(c).contains(c),
        tracked_set.contains(c) ==> tracked_set.insert(c) == tracked_set,
{
    assert(tracked_set.contains(c) ==> tracked_set.insert(c) =~= tracked_set);
}

/// Announcing the identity already in place is no change; announcing a
/// different one is.
pub proof fn lemma_identity_repeat(cur: Seq<char>, other: Seq<char>)
    ensures
        !spec_identity_changed(cur, cur),
        cur != other ==> spec_identity_changed(cur, other),
{
}

} // verus!
