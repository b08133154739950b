//! The session state machine.
//!
//! A single [`Tracker`] ingests discrete protocol events — position reports
//! for the tracked identity, other pilots' position reports, track
//! handoffs, beacon-code assignments, flight-strip pushes, disconnects —
//! and maintains the current identity, its role (controller, pilot or
//! offline), the sets of visible and tracked aircraft, and debounced
//! counters. All handlers are fire-and-forget: unknown callsigns on
//! removal are ignored and no handler fails. Timestamps are injected by
//! the caller so the cooldown and idle-timeout logic is independent of the
//! real clock.

use crate::callsigns::CallsignSet;
use crate::cooldown::spec_may_fire;
use crate::cooldown::CooldownRegistry;
use crate::geo::spec_within_range;
use crate::geo::LatLonPos;
use vstd::prelude::*;

verus! {

/// Coarse classification of a controller position.
#[derive(Clone, Copy, PartialEq, Eq, Structural, Debug)]
pub enum FacilityCategory {
    Undefined,
    Observer,
    Delivery,
    Ground,
    Tower,
    Approach,
    Center,
}

/// A controller position report for the tracked identity.
pub struct AtcPosition {
    pub callsign: String,
    pub pos: LatLonPos,
    pub facility: FacilityCategory,
    /// Maximum distance in miles at which the facility observes traffic.
    pub vis_range: u32,
    pub rating: String,
    pub frequency: String,
}

/// A pilot position report.
pub struct PilotPosition {
    pub callsign: String,
    pub pos: LatLonPos,
}

/// The tracked identity's role: offline, controller or pilot — never two
/// at once.
pub enum ConnectionState {
    Offline,
    Controller(AtcPosition),
    Pilot(PilotPosition),
}

/// A counter bumped by one, sticking at the top of its range.
pub open spec fn sat_inc(n: u32) -> u32 {
    if n < u32::MAX {
        (n + 1) as u32
    } else {
        n
    }
}

/// One debounced-counter step: if `key` may fire at `now`, the ledger
/// gains the mark and the counter is bumped; otherwise nothing changes.
pub open spec fn spec_debounce_step(
    m: Map<Seq<char>, u64>,
    n: u32,
    key: Seq<char>,
    now: u64,
) -> (Map<Seq<char>, u64>, u32) {
    if spec_may_fire(m, key, now) {
        (m.insert(key, now), sat_inc(n))
    } else {
        (m, n)
    }
}

/// Whether announcing `new` is a change of identity from `cur`.
pub open spec fn spec_identity_changed(cur: Seq<char>, new: Seq<char>) -> bool {
    new != cur
}

/// The session state tracker.
pub struct Tracker {
    callsign: String,
    callsign_last_updated: u64,
    connection: ConnectionState,
    position: Option<LatLonPos>,
    pilots_seen: CallsignSet,
    tracked_aircraft: CallsignSet,
    cooldowns: CooldownRegistry,
    number_squawks: u32,
    number_strips: u32,
    number_handoffs: u32,
}

/// Identity and its change timestamp agree between two states.
pub open spec fn identity_unchanged(pre: Tracker, post: Tracker) -> bool {
    &&& post.spec_callsign() == pre.spec_callsign()
    &&& post.spec_last_updated() == pre.spec_last_updated()
}

/// Role and own position agree between two states.
pub open spec fn role_unchanged(pre: Tracker, post: Tracker) -> bool {
    &&& post.spec_atc() == pre.spec_atc()
    &&& post.spec_pilot() == pre.spec_pilot()
    &&& post.spec_position() == pre.spec_position()
}

/// Both aircraft sets agree between two states.
pub open spec fn sets_unchanged(pre: Tracker, post: Tracker) -> bool {
    &&& post.spec_seen() == pre.spec_seen()
    &&& post.spec_tracked() == pre.spec_tracked()
}

/// All three counters agree between two states.
pub open spec fn counters_unchanged(pre: Tracker, post: Tracker) -> bool {
    &&& post.spec_squawks() == pre.spec_squawks()
    &&& post.spec_strips() == pre.spec_strips()
    &&& post.spec_handoffs() == pre.spec_handoffs()
}

/// The cooldown ledger agrees between two states.
pub open spec fn cooldowns_unchanged(pre: Tracker, post: Tracker) -> bool {
    post.spec_cooldowns() == pre.spec_cooldowns()
}

impl Tracker {
    /// The current identity.
    pub closed spec fn spec_callsign(self) -> Seq<char> {
        self.callsign@
    }

    /// The clock reading at which the identity last changed.
    pub closed spec fn spec_last_updated(self) -> u64 {
        self.callsign_last_updated
    }

    /// The stored controller position, if the identity is a controller.
    pub closed spec fn spec_atc(self) -> Option<AtcPosition> {
        match self.connection {
            ConnectionState::Controller(p) => Some(p),
            _ => None,
        }
    }

    /// The stored pilot position, if the identity is a pilot.
    pub closed spec fn spec_pilot(self) -> Option<PilotPosition> {
        match self.connection {
            ConnectionState::Pilot(p) => Some(p),
            _ => None,
        }
    }

    /// The identity's last known position.
    pub closed spec fn spec_position(self) -> Option<LatLonPos> {
        self.position
    }

    /// The callsigns currently within visibility.
    pub closed spec fn spec_seen(self) -> Set<Seq<char>> {
        self.pilots_seen@
    }

    /// The callsigns under active radar-track ownership.
    pub closed spec fn spec_tracked(self) -> Set<Seq<char>> {
        self.tracked_aircraft@
    }

    /// The debounce ledger, as a map from callsign to the time of its most
    /// recent mark.
    pub closed spec fn spec_cooldowns(self) -> Map<Seq<char>, u64> {
        self.cooldowns@
    }

    /// Beacon codes assigned since the last reset.
    pub closed spec fn spec_squawks(self) -> u32 {
        self.number_squawks
    }

    /// Flight strips pushed since the last reset.
    pub closed spec fn spec_strips(self) -> u32 {
        self.number_strips
    }

    /// Handoffs recorded since the last reset.
    pub closed spec fn spec_handoffs(self) -> u32 {
        self.number_handoffs
    }

    /// Both aircraft sets are free of duplicates.
    pub closed spec fn wf(self) -> bool {
        self.pilots_seen.wf() && self.tracked_aircraft.wf()
    }

    /// A fresh tracker: empty identity, offline, nothing seen or tracked,
    /// all counters zero, and the identity timestamp set to `now`.
    pub fn new(now: u64) -> (t: Tracker)
        ensures
            t.wf(),
            t.spec_callsign() == Seq::<char>::empty(),
            t.spec_last_updated() == now,
            t.spec_atc() is None,
            t.spec_pilot() is None,
            t.spec_position() is None,
            t.spec_seen() == Set::<Seq<char>>::empty(),
            t.spec_tracked() == Set::<Seq<char>>::empty(),
            t.spec_cooldowns() == Map::<Seq<char>, u64>::empty(),
            t.spec_squawks() == 0,
            t.spec_strips() == 0,
            t.spec_handoffs() == 0,
    {
        Tracker {
            callsign: String::new(),
            callsign_last_updated: now,
            connection: ConnectionState::Offline,
            position: None,
            pilots_seen: CallsignSet::new(),
            tracked_aircraft: CallsignSet::new(),
            cooldowns: CooldownRegistry::new(),
            number_squawks: 0,
            number_strips: 0,
            number_handoffs: 0,
        }
    }

    /// Sets the identity. If it differs from the previous identity, the
    /// change timestamp is reset to `now` and true is returned; otherwise
    /// the timestamp is kept and false is returned.
    pub fn update_callsign(&mut self, new_callsign: String, now: u64) -> (changed: bool)
        requires
            old(self).wf(),
        ensures
            final(self).wf(),
            changed == spec_identity_changed(old(self).spec_callsign(), new_callsign@),
            final(self).spec_callsign() == new_callsign@,
            final(self).spec_last_updated() == if changed {
                now
            } else {
                old(self).spec_last_updated()
            },
            role_unchanged(*old(self), *final(self)),
            sets_unchanged(*old(self), *final(self)),
            counters_unchanged(*old(self), *final(self)),
            cooldowns_unchanged(*old(self), *final(self)),
    {
        let changed = !(new_callsign == self.callsign);
        self.callsign = new_callsign;
        if changed {
            self.callsign_last_updated = now;
        }
        changed
    }

    /// Takes a controller position report for the tracked identity: the
    /// identity becomes the report's callsign, the own position is set and
    /// the role becomes controller, displacing any pilot role. Returns the
    /// identity-change result.
    pub fn update_atc_position(&mut self, position: AtcPosition, now: u64) -> (changed: bool)
        requires
            old(self).wf(),
        ensures
            final(self).wf(),
            changed == spec_identity_changed(old(self).spec_callsign(), position.callsign@),
            final(self).spec_callsign() == position.callsign@,
            final(self).spec_last_updated() == if changed {
                now
            } else {
                old(self).spec_last_updated()
            },
            final(self).spec_atc() == Some(position),
            final(self).spec_pilot() is None,
            final(self).spec_position() == Some(position.pos),
            sets_unchanged(*old(self), *final(self)),
            counters_unchanged(*old(self), *final(self)),
            cooldowns_unchanged(*old(self), *final(self)),
    {
        let changed = self.update_callsign(position.callsign.clone(), now);
        self.position = Some(position.pos);
        self.connection = ConnectionState::Controller(position);
        changed
    }

    /// Takes a pilot position report for the tracked identity: symmetric
    /// to the controller case, displacing any controller role.
    pub fn update_pilot_position(&mut self, position: PilotPosition, now: u64) -> (changed: bool)
        requires
            old(self).wf(),
        ensures
            final(self).wf(),
            changed == spec_identity_changed(old(self).spec_callsign(), position.callsign@),
            final(self).spec_callsign() == position.callsign@,
            final(self).spec_last_updated() == if changed {
                now
            } else {
                old(self).spec_last_updated()
            },
            final(self).spec_pilot() == Some(position),
            final(self).spec_atc() is None,
            final(self).spec_position() == Some(position.pos),
            sets_unchanged(*old(self), *final(self)),
            counters_unchanged(*old(self), *final(self)),
            cooldowns_unchanged(*old(self), *final(self)),
    {
        let changed = self.update_callsign(position.callsign.clone(), now);
        self.position = Some(position.pos);
        self.connection = ConnectionState::Pilot(position);
        changed
    }

    /// Acquires radar track of `callsign` (idempotent).
    pub fn begin_track(&mut self, callsign: &String)
        requires
            old(self).wf(),
        ensures
            final(self).wf(),
            final(self).spec_tracked() == old(self).spec_tracked().insert(callsign@),
            final(self).spec_seen() == old(self).spec_seen(),
            identity_unchanged(*old(self), *final(self)),
            role_unchanged(*old(self), *final(self)),
            counters_unchanged(*old(self), *final(self)),
            cooldowns_unchanged(*old(self), *final(self)),
    {
        self.tracked_aircraft.insert(callsign);
    }

    /// Drops radar track of `callsign` (idempotent).
    pub fn drop_tracked(&mut self, callsign: &String)
        requires
            old(self).wf(),
        ensures
            final(self).wf(),
            final(self).spec_tracked() == old(self).spec_tracked().remove(callsign@),
            final(self).spec_seen() == old(self).spec_seen(),
            identity_unchanged(*old(self), *final(self)),
            role_unchanged(*old(self), *final(self)),
            counters_unchanged(*old(self), *final(self)),
            cooldowns_unchanged(*old(self), *final(self)),
    {
        self.tracked_aircraft.remove(callsign);
    }

    /// Counts a beacon-code assignment for `callsign`, debounced by the
    /// cooldown ledger.
    pub fn assigned_squawk(&mut self, callsign: &String, now: u64)
        requires
            old(self).wf(),
        ensures
            final(self).wf(),
            final(self).spec_cooldowns() == spec_debounce_step(
                old(self).spec_cooldowns(),
                old(self).spec_squawks(),
                callsign@,
                now,
            ).0,
            final(self).spec_squawks() == spec_debounce_step(
                old(self).spec_cooldowns(),
                old(self).spec_squawks(),
                callsign@,
                now,
            ).1,
            final(self).spec_strips() == old(self).spec_strips(),
            final(self).spec_handoffs() == old(self).spec_handoffs(),
            sets_unchanged(*old(self), *final(self)),
            identity_unchanged(*old(self), *final(self)),
            role_unchanged(*old(self), *final(self)),
    {
        if !self.cooldowns.may_fire(callsign, now) {
            return ;
        }
        self.cooldowns.mark(callsign, now);
        if self.number_squawks < u32::MAX {
            self.number_squawks = self.number_squawks + 1;
        }
    }

    /// Counts a flight-strip push for `callsign`, debounced by the
    /// cooldown ledger.
    pub fn pushed_strip(&mut self, callsign: &String, now: u64)
        requires
            old(self).wf(),
        ensures
            final(self).wf(),
            final(self).spec_cooldowns() == spec_debounce_step(
                old(self).spec_cooldowns(),
                old(self).spec_strips(),
                callsign@,
                now,
            ).0,
            final(self).spec_strips() == spec_debounce_step(
                old(self).spec_cooldowns(),
                old(self).spec_strips(),
                callsign@,
                now,
            ).1,
            final(self).spec_squawks() == old(self).spec_squawks(),
            final(self).spec_handoffs() == old(self).spec_handoffs(),
            sets_unchanged(*old(self), *final(self)),
            identity_unchanged(*old(self), *final(self)),
            role_unchanged(*old(self), *final(self)),
    {
        if !self.cooldowns.may_fire(callsign, now) {
            return ;
        }
        self.cooldowns.mark(callsign, now);
        if self.number_strips < u32::MAX {
            self.number_strips = self.number_strips + 1;
        }
    }

    /// Records a handoff for `callsign`, debounced by the cooldown ledger.
    /// A handoff that fires both counts the event and acquires the track.
    pub fn handoff(&mut self, callsign: &String, now: u64)
        requires
            old(self).wf(),
        ensures
            final(self).wf(),
            final(self).spec_cooldowns() == spec_debounce_step(
                old(self).spec_cooldowns(),
                old(self).spec_handoffs(),
                callsign@,
                now,
            ).0,
            final(self).spec_handoffs() == spec_debounce_step(
                old(self).spec_cooldowns(),
                old(self).spec_handoffs(),
                callsign@,
                now,
            ).1,
            final(self).spec_tracked() == if spec_may_fire(
                old(self).spec_cooldowns(),
                callsign@,
                now,
            ) {
                old(self).spec_tracked().insert(callsign@)
            } else {
                old(self).spec_tracked()
            },
            final(self).spec_seen() == old(self).spec_seen(),
            final(self).spec_squawks() == old(self).spec_squawks(),
            final(self).spec_strips() == old(self).spec_strips(),
            identity_unchanged(*old(self), *final(self)),
            role_unchanged(*old(self), *final(self)),
    {
        if !self.cooldowns.may_fire(callsign, now) {
            return ;
        }
        self.tracked_aircraft.insert(callsign);
        self.cooldowns.mark(callsign, now);
        if self.number_handoffs < u32::MAX {
            self.number_handoffs = self.number_handoffs + 1;
        }
    }

    /// Takes another pilot's position report. With no own position the
    /// call is a no-op. With an own position and no controller role, the
    /// pilot is seen unconditionally. With a controller role, the pilot is
    /// seen if it lies within the facility's visibility range, and is
    /// otherwise forgotten — removed from both the visible and the
    /// tracked set.
    pub fn add_pilot(&mut self, position: &PilotPosition)
        requires
            old(self).wf(),
        ensures
            final(self).wf(),
            identity_unchanged(*old(self), *final(self)),
            role_unchanged(*old(self), *final(self)),
            counters_unchanged(*old(self), *final(self)),
            cooldowns_unchanged(*old(self), *final(self)),
            old(self).spec_position() is None ==> sets_unchanged(*old(self), *final(self)),
            old(self).spec_position() is Some && old(self).spec_atc() is None ==> (
            final(self).spec_seen() == old(self).spec_seen().insert(position.callsign@)
                && final(self).spec_tracked() == old(self).spec_tracked()),
            old(self).spec_position() is Some && old(self).spec_atc() is Some ==> ({
                let own = old(self).spec_position()->Some_0;
                let atc = old(self).spec_atc()->Some_0;
                if spec_within_range(own, position.pos, atc.vis_range) {
                    final(self).spec_seen() == old(self).spec_seen().insert(position.callsign@)
                        && final(self).spec_tracked() == old(self).spec_tracked()
                } else {
                    final(self).spec_seen() == old(self).spec_seen().remove(position.callsign@)
                        && final(self).spec_tracked() == old(self).spec_tracked().remove(
                        position.callsign@,
                    )
                }
            }),
    {
        if let Some(own) = self.position {
            let vis_range: Option<u32> = match &self.connection {
                ConnectionState::Controller(atc) => Some(atc.vis_range),
                _ => None,
            };
            match vis_range {
                Some(range) => {
                    if own.within_range_miles(&position.pos, range) {
                        self.pilots_seen.insert(&position.callsign);
                    } else {
                        self.remove_pilot(&position.callsign);
                    }
                },
                None => {
                    self.pilots_seen.insert(&position.callsign);
                },
            }
        }
    }

    /// Forgets `callsign` entirely: removes it from both the visible and
    /// the tracked set. Used on disconnect and on visibility-range exit.
    pub fn remove_pilot(&mut self, callsign: &String)
        requires
            old(self).wf(),
        ensures
            final(self).wf(),
            final(self).spec_seen() == old(self).spec_seen().remove(callsign@),
            final(self).spec_tracked() == old(self).spec_tracked().remove(callsign@),
            identity_unchanged(*old(self), *final(self)),
            role_unchanged(*old(self), *final(self)),
            counters_unchanged(*old(self), *final(self)),
            cooldowns_unchanged(*old(self), *final(self)),
    {
        self.pilots_seen.remove(callsign);
        self.tracked_aircraft.remove(callsign);
    }

    /// How many aircraft are currently visible.
    pub fn get_number_seen(&self) -> (r: usize)
        requires
            self.wf(),
        ensures
            r == self.spec_seen().len(),
    {
        self.pilots_seen.len()
    }

    /// Beacon codes assigned since the last reset.
    pub fn get_number_squawks(&self) -> (r: u32)
        ensures
            r == self.spec_squawks(),
    {
        self.number_squawks
    }

    /// Flight strips pushed since the last reset.
    pub fn get_number_strips(&self) -> (r: u32)
        ensures
            r == self.spec_strips(),
    {
        self.number_strips
    }

    /// How many aircraft are under active radar track.
    pub fn get_number_tracked(&self) -> (r: usize)
        requires
            self.wf(),
        ensures
            r == self.spec_tracked().len(),
    {
        self.tracked_aircraft.len()
    }

    /// Handoffs recorded since the last reset.
    pub fn get_number_handoffs(&self) -> (r: u32)
        ensures
            r == self.spec_handoffs(),
    {
        self.number_handoffs
    }

    /// Whether the identity is a controller.
    pub fn is_atc(&self) -> (r: bool)
        ensures
            r == (self.spec_atc() is Some),
    {
        match &self.connection {
            ConnectionState::Controller(_) => true,
            _ => false,
        }
    }

    /// Whether the identity is connected as controller or pilot.
    pub fn is_connected(&self) -> (r: bool)
        ensures
            r == (self.spec_atc() is Some || self.spec_pilot() is Some),
    {
        match &self.connection {
            ConnectionState::Offline => false,
            _ => true,
        }
    }

    /// The stored controller position, if any.
    pub fn get_atc_position(&self) -> (r: Option<&AtcPosition>)
        ensures
            match r {
                Some(p) => self.spec_atc() == Some(*p),
                None => self.spec_atc() is None,
            },
    {
        match &self.connection {
            ConnectionState::Controller(p) => Some(p),
            _ => None,
        }
    }

    /// The current identity.
    pub fn get_current_callsign(&self) -> (r: &String)
        ensures
            r@ == self.spec_callsign(),
    {
        &self.callsign
    }

    /// Seconds from the last identity change to `now`; zero if `now`
    /// reads before the recorded change.
    pub fn get_secs_since_last_callsign(&self, now: u64) -> (r: u64)
        ensures
            r == if now >= self.spec_last_updated() {
                (now - self.spec_last_updated()) as u64
            } else {
                0u64
            },
    {
        if now >= self.callsign_last_updated {
            now - self.callsign_last_updated
        } else {
            0
        }
    }

    /// Clears the role, the squawk and strip counters, both aircraft sets
    /// and the cooldown ledger. The identity, its change timestamp, the
    /// own position and the handoff counter are kept.
    pub fn reset(&mut self)
        requires
            old(self).wf(),
        ensures
            final(self).wf(),
            final(self).spec_atc() is None,
            final(self).spec_pilot() is None,
            final(self).spec_squawks() == 0,
            final(self).spec_strips() == 0,
            final(self).spec_handoffs() == old(self).spec_handoffs(),
            final(self).spec_seen() == Set::<Seq<char>>::empty(),
            final(self).spec_tracked() == Set::<Seq<char>>::empty(),
            final(self).spec_cooldowns() == Map::<Seq<char>, u64>::empty(),
            final(self).spec_callsign() == old(self).spec_callsign(),
            final(self).spec_last_updated() == old(self).spec_last_updated(),
            final(self).spec_position() == old(self).spec_position(),
    {
        self.connection = ConnectionState::Offline;
        self.number_squawks = 0;
        self.number_strips = 0;
        self.tracked_aircraft.clear();
        self.pilots_seen.clear();
        self.cooldowns.clear();
    }
}

} // verus!
