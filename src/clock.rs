use vstd::prelude::*;

use std::time::{Duration, Instant};

verus! {

/// Declares std's `Instant`, opaque, so that a `Clock` can hold one.
#[verifier::external_type_specification]
#[verifier::external_body]
pub struct ExInstant(Instant);

/// Relies on `Instant::now`: a reading of the monotonic clock.
#[verifier::external_body]
fn instant_now() -> (r: Instant) {
    Instant::now()
}

/// Relies on `Instant::elapsed`: the time that has passed since `origin`.
#[verifier::external_body]
fn elapsed_since(origin: &Instant) -> (r: Duration) {
    origin.elapsed()
}

/// Relies on `Duration::as_millis`: the whole milliseconds in `d`.
#[verifier::external_body]
fn whole_millis(d: &Duration) -> (r: u128) {
    d.as_millis()
}

/// A monotonic clock that counts milliseconds from the moment it was
/// started. The cache reads the time through it and hands the readings to
/// the functions that decide freshness.
pub struct Clock {
    origin: Instant,
}

impl Clock {
    pub fn start() -> (r: Clock) {
        Clock { origin: instant_now() }
    }

    /// The milliseconds since the clock was started; a reading too large for
    /// 64 bits is given as `u64::MAX`.
    pub fn now(&self) -> (r: u64) {
        let ms = whole_millis(&elapsed_since(&self.origin));
        if ms > u64::MAX as u128 {
            u64::MAX
        } else {
            ms as u64
        }
    }
}

} // verus!
