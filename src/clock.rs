//! Elapsed wall-clock time, read through std's monotonic clock.

use vstd::prelude::*;
use std::time::{Duration, Instant};

verus! {

/// std::time::Instant, held opaquely to measure elapsed time.
#[verifier::external_type_specification]
#[verifier::external_body]
pub struct ExInstant(Instant);

/// Relies on std::time::Instant::now: the instant of the call.
pub assume_specification[ Instant::now ]() -> Instant;

/// Relies on std::time::Instant::elapsed: the time since an instant.
pub assume_specification[ Instant::elapsed ](this: &Instant) -> Duration;

/// Relies on std::time::Duration::as_micros: whole microseconds of a duration.
pub assume_specification[ Duration::as_micros ](this: &Duration) -> u128;

/// Microseconds since `start`, held at the largest `u64`.
pub(crate) fn micros_since(start: &Instant) -> (r: u64) {
    let d = start.elapsed();
    let m: u128 = d.as_micros();
    if m > u64::MAX as u128 {
        u64::MAX
    } else {
        m as u64
    }
}

} // verus!
