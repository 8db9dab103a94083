//! The wall clock.

use vstd::prelude::*;

verus! {

/// Reads the wall clock through `SystemTime::elapsed` of std, taken from the Unix epoch: the
/// whole seconds since the epoch, or `None` where the clock stands before the epoch. What the
/// clock says is not a function of anything the program knows, so nothing is claimed of it.
#[verifier::external_body]
fn seconds_since_epoch() -> Option<u64> {
    match std::time::UNIX_EPOCH.elapsed() {
        Ok(elapsed) => Some(elapsed.as_secs()),
        Err(_) => None,
    }
}

/// The time that a reading of the clock stands for: a clock that stands before the epoch
/// counts as zero.
pub fn clamped_to_epoch(reading: Option<u64>) -> (seconds: u64)
    ensures
        seconds == (match reading {
            Some(since_epoch) => since_epoch,
            None => 0,
        }),
{
    match reading {
        Some(since_epoch) => since_epoch,
        None => 0,
    }
}

/// The current Unix time in seconds.
pub(crate) fn unix_now() -> u64 {
    clamped_to_epoch(seconds_since_epoch())
}

} // verus!
