//! The monotonic clock that stamps incoming events.

use std::time::Instant;
use vstd::prelude::*;

verus! {

/// An instant of the monotonic clock, opaque to the verifier.
#[verifier::external_type_specification]
#[verifier::external_body]
pub struct ExInstant(std::time::Instant);

/// Calls `Instant::now`. Trusted, and nothing is claimed of the instant.
#[verifier::external_body]
pub(crate) fn start_clock() -> (origin: Instant) {
    Instant::now()
}

/// Calls `Instant::elapsed`, and counts the duration in nanoseconds. Trusted,
/// and nothing is claimed of the reading: the library is verified for every
/// one.
#[verifier::external_body]
pub(crate) fn nanos_since(origin: &Instant) -> (nanos: u128) {
    origin.elapsed().as_nanos()
}

} // verus!
