//! The monotonic clock of the standard library, as the A/V clock reads it.
use vstd::prelude::*;

use core::time::Duration;
use std::time::Instant;

verus! {

/// `std::time::Instant`, an opaque point of the monotonic clock.
#[verifier::external_type_specification]
#[verifier::external_body]
pub struct ExInstant(Instant);

/// Calls `std::time::Instant::now`. Nothing is promised of the instant: it
/// depends on the time at which it is called.
#[verifier::external_body]
pub(crate) fn instant_now() -> Instant {
    Instant::now()
}

/// Calls `std::time::Instant::elapsed`. Nothing is promised of the duration:
/// it depends on the time at which it is called.
#[verifier::external_body]
fn instant_elapsed(start: &Instant) -> Duration {
    start.elapsed()
}

/// Calls `core::time::Duration::as_micros`. The value is not stated: the only
/// durations here come from the clock.
#[verifier::external_body]
fn duration_as_micros(d: &Duration) -> u128 {
    d.as_micros()
}

/// Microseconds elapsed since `start`, saturated to `u64`.
pub(crate) fn elapsed_micros(start: &Instant) -> u64 {
    let d = instant_elapsed(start);
    let us = duration_as_micros(&d);
    if us > u64::MAX as u128 {
        u64::MAX
    } else {
        us as u64
    }
}

} // verus!
