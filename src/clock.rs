//! Monotonic time, read as whole milliseconds since a fixed origin.
use vstd::prelude::*;

verus! {

/// A reading of the monotonic clock, carried as an opaque value.
#[verifier::external_type_specification]
#[verifier::external_body]
pub struct ExInstant(std::time::Instant);

/// Relies on std::time::Instant::now: a reading of the monotonic clock.
#[verifier::external_body]
pub(crate) fn clock_origin() -> (r: std::time::Instant) {
    std::time::Instant::now()
}

/// Relies on std::time::Instant::elapsed: the whole milliseconds that have
/// passed since `origin` on the monotonic clock. Nothing is promised of the
/// value: it depends on when the call is made.
#[verifier::external_body]
pub(crate) fn millis_since(origin: &std::time::Instant) -> (r: u64) {
    origin.elapsed().as_millis() as u64
}

} // verus!
