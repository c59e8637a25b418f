//! The system clock.

use vstd::prelude::*;

verus! {

/// Trusted: `std::time::SystemTime::now`, read as whole seconds since the Unix
/// epoch; `None` where the clock reads a time before the epoch. Nothing is
/// stated of the value: it is the time.
#[verifier::external_body]
pub(crate) fn unix_time_now() -> (t: Option<u64>) {
    std::time::SystemTime::now().duration_since(std::time::UNIX_EPOCH).ok().map(|d| d.as_secs())
}

} // verus!
