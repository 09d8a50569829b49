//! The wall clock, read in whole seconds since the Unix epoch.

use std::time::UNIX_EPOCH;
use vstd::prelude::*;

verus! {

/// Reads the system clock through `std::time::SystemTime::elapsed`, taken from
/// `UNIX_EPOCH`: the whole seconds that have passed since the epoch, or `None`
/// where the clock stands before it. Nothing is claimed of the reading: the
/// clock may show any moment, and may step back between two calls.
#[verifier::external_body]
fn seconds_since_epoch() -> (reading: Option<u64>) {
    match UNIX_EPOCH.elapsed() {
        Ok(elapsed) => Some(elapsed.as_secs()),
        Err(_) => None,
    }
}

/// The timestamp that a clock reading stands for: the reading itself, and zero
/// for a clock set before the epoch.
pub open spec fn timestamp_of(reading: Option<u64>) -> u64 {
    match reading {
        Some(seconds) => seconds,
        None => 0,
    }
}

/// Turns a clock reading into a timestamp.
pub fn timestamp_from(reading: Option<u64>) -> (timestamp: u64)
    ensures
        timestamp == timestamp_of(reading),
{
    match reading {
        Some(seconds) => seconds,
        None => 0,
    }
}

/// The current time in seconds since the epoch, as the system clock shows
/// it; zero where the clock is set before the epoch.
pub fn current_timestamp() -> (timestamp: u64) {
    timestamp_from(seconds_since_epoch())
}

} // verus!
