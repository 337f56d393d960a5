//! Trusted bridge to the wall clock.

use vstd::prelude::*;

verus! {

/// Relies on `std::time::SystemTime::now` and `duration_since`: the
/// milliseconds elapsed since the Unix epoch, or zero if the clock sits
/// before the epoch.  The value depends on the wall clock, so nothing is
/// promised about it; callers state what holds whatever comes back.
#[verifier::external_body]
pub fn now_millis() -> u64 {
    match std::time::SystemTime::now().duration_since(std::time::UNIX_EPOCH) {
        Ok(elapsed) => elapsed.as_millis() as u64,
        Err(_) => 0,
    }
}

} // verus!
