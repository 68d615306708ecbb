//! The clock that times a test.

use std::time::{Duration, Instant};
use vstd::prelude::*;

verus! {

/// A moment on the monotonic clock of std. Nothing is known of what such a
/// value holds.
#[verifier::external_type_specification]
#[verifier::external_body]
pub struct ExInstant(Instant);

/// Reads the clock: `Instant::now`. Nothing is claimed of the moment that
/// comes back.
pub assume_specification[ Instant::now ]() -> (moment: Instant)
;

/// The time that has passed since a moment: `Instant::elapsed`. Nothing is
/// claimed of its length.
pub assume_specification[ Instant::elapsed ](moment: &Instant) -> (passed: Duration)
;

/// The whole seconds of a span of time: `Duration::as_secs`. Nothing is
/// claimed of their number.
pub assume_specification[ Duration::as_secs ](span: &Duration) -> (seconds: u64)
;

} // verus!
