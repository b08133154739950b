//! Session-state tracking for a flight-simulation network observer.
//!
//! The library ingests discrete protocol events (position reports, track
//! handoffs, beacon-code assignments, flight-strip pushes, client
//! disconnects), maintains derived counters and the sets of visible and
//! tracked aircraft under time-based cooldown rules, and projects that
//! state into a small human-readable presence summary. Packet capture,
//! protocol decoding and the outward presence-publishing call are
//! collaborators outside this crate: they hand the tracker plain typed
//! events and take plain strings back.

pub mod callsigns;
pub mod clock;
pub mod cooldown;
pub mod geo;
pub mod lemmas;
pub mod presence;
pub mod tracker;
