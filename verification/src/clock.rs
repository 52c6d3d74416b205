//! Reading the monotonic clock.
//!
//! No argument determines what the clock says, so nothing is claimed about
//! what it returns. Where a decision depends on the reading, the function
//! that reads the clock has a sibling that takes the reading as an argument
//! and says exactly what it does with it.

use vstd::prelude::*;

verus! {

/// A point on the monotonic clock, carried through as an opaque value.
#[verifier::external_type_specification]
#[verifier::external_body]
pub struct ExInstant(std::time::Instant);

/// `Instant` is `Copy`: its `clone` hands back the same point in time.
pub assume_specification[ <std::time::Instant as Clone>::clone ](
    instant: &std::time::Instant,
) -> (copy: std::time::Instant)
    ensures
        copy == *instant,
;

/// Calls `std::time::Instant::now`. Nothing is stated of the result: it is
/// whatever the clock says at the moment of the call.
#[verifier::external_body]
pub(crate) fn instant_now() -> (now: std::time::Instant) {
    std::time::Instant::now()
}

/// Calls `std::time::Instant::elapsed`, which gives the time that has gone
/// by since `origin`. Nothing is stated of the result: it depends on when the
/// call is made.
#[verifier::external_body]
pub(crate) fn elapsed_since(origin: &std::time::Instant) -> (elapsed: std::time::Duration) {
    origin.elapsed()
}

/// Calls `std::time::Duration::as_nanos`, which gives the duration in whole
/// nanoseconds. A duration is opaque here, so nothing is stated of the
/// number.
#[verifier::external_body]
pub(crate) fn whole_nanos(duration: &std::time::Duration) -> (nanos: u128) {
    duration.as_nanos()
}

/// A count of nanoseconds as it fits into 64 bits: the count itself, and
/// `u64::MAX` for every count beyond that.
pub open spec fn saturated(nanos: u128) -> u64 {
    if nanos > u64::MAX {
        u64::MAX
    } else {
        nanos as u64
    }
}

/// Fits a count of nanoseconds into 64 bits. This is what becomes of a
/// reading of the clock, whatever the reading was.
pub fn saturating_nanos(nanos: u128) -> (fitted: u64)
    ensures
        fitted == saturated(nanos),
{
    if nanos > u64::MAX as u128 {
        u64::MAX
    } else {
        nanos as u64
    }
}

} // verus!
