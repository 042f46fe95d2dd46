//! Wall-clock reading for the search's time budget.  The clock itself is
//! outside what can be verified: the declarations and wrappers here are
//! trusted, and nothing is promised about the values they return, so all
//! search logic is proved for every possible clock reading.
use vstd::prelude::*;

verus! {

#[verifier::external_type_specification]
#[verifier::external_body]
pub struct ExInstant(std::time::Instant);

/// Relies on std::time::Instant::now: a reading of a monotonic clock.
#[verifier::external_body]
pub fn instant_now() -> std::time::Instant {
    std::time::Instant::now()
}

/// Relies on std::time::Instant::elapsed: the time since `start`.
#[verifier::external_body]
pub fn instant_elapsed(start: &std::time::Instant) -> std::time::Duration {
    start.elapsed()
}

/// Relies on std::time::Duration::as_millis: the duration in whole
/// milliseconds, saturated into 64 bits.
#[verifier::external_body]
pub fn duration_millis(d: &std::time::Duration) -> u64 {
    let wide = d.as_millis();
    if wide > u64::MAX as u128 {
        u64::MAX
    } else {
        wide as u64
    }
}

} // verus!
