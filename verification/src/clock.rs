//! The wall clock.
//!
//! Every handler that needs time takes an injected timestamp, so the rest
//! of the library never reads the clock itself; this is the one place
//! that does.

use vstd::prelude::*;

verus! {

/// Relies on std::time::SystemTime::now: the wall clock, read as whole
/// seconds since the Unix epoch, zero if the clock reads before the
/// epoch. Nothing is assumed of the value — callers treat each reading
/// as arbitrary.
#[verifier::external_body]
fn system_epoch_seconds() -> u64 {
    match std::time::SystemTime::now().duration_since(std::time::UNIX_EPOCH) {
        Ok(d) => d.as_secs(),
        Err(_) => 0,
    }
}

/// The wall clock, read as whole seconds since the Unix epoch. Callers
/// treat each reading as arbitrary: nothing relates two readings.
pub fn get_time() -> u64 {
    system_epoch_seconds()
}

} // verus!
