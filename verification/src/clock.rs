//! Trusted boundary to the monotonic clock.
use vstd::prelude::*;

verus! {

/// `std::time::Instant` is an opaque measurement of the monotonic clock; the
/// logic here only ever reads it as the number of nanoseconds elapsed since
/// it was taken.
#[verifier::external_type_specification]
#[verifier::external_body]
pub struct ExInstant(std::time::Instant);

/// Relies on std::time::Instant::now: a measurement of the monotonic clock.
#[verifier::external_body]
pub(crate) fn instant_now() -> std::time::Instant {
    std::time::Instant::now()
}

/// Relies on std::time::Instant::elapsed: the time since the measurement was
/// taken, nonnegative and monotonically nondecreasing across calls, here read
/// in nanoseconds. Nothing is promised of the value: it depends on the clock.
#[verifier::external_body]
pub(crate) fn elapsed_nanos(since: &std::time::Instant) -> u64 {
    since.elapsed().as_nanos() as u64
}

} // verus!
