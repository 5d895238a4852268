//! What the library has from outside: random numbers and the wall clock.

use crate::time::Timestamp;
use rand::Rng;
use vstd::prelude::*;

verus! {

/// Draws a number from a range with [`rand::Rng::random_range`], by the
/// generator of the current thread ([`rand::rng`]).
///
/// Trusted: every outcome lies in the half-open range. `random_range` panics
/// on an empty range, which is left out here. Which number comes out is a
/// matter of chance, so nothing else is claimed. The first use of the generator
/// in a thread panics if the operating system has no random numbers to seed it
/// with.
#[verifier::external_body]
pub(crate) fn random_range(low: u64, high: u64) -> (number: u64)
    requires
        low < high,
    ensures
        low <= number < high,
{
    rand::rng().random_range(low..high)
}

/// Whether `number` came out of a draw from this range, by [`random_range`].
pub open(crate) spec fn drawn(low: u64, high: u64, number: u64) -> bool {
    call_ensures(random_range, (low, high), number)
}

/// Reads the wall clock with `jiff::Timestamp::now`, in nanoseconds since the
/// Unix epoch (`jiff::Timestamp::as_nanosecond`).
///
/// Trusted: only that there is a reading; nothing is claimed of it. Reading the
/// clock panics if it is set to a year before -9999 or after 9999.
#[verifier::external_body]
pub(crate) fn wall_clock() -> (now: Timestamp) {
    Timestamp { nanosecond: k8s_openapi::jiff::Timestamp::now().as_nanosecond() }
}

/// Whether `now` came out of a reading of the wall clock, by [`wall_clock`].
pub open(crate) spec fn read_from_wall_clock(now: Timestamp) -> bool {
    call_ensures(wall_clock, (), now)
}

} // verus!
