//! Reading the system clocks.

use vstd::prelude::*;
use std::time::{Duration, Instant, SystemTime};

verus! {

/// A reading of the monotonic clock.
#[verifier::external_type_specification]
#[verifier::external_body]
pub struct ExInstant(std::time::Instant);

/// A reading of the system clock.
#[verifier::external_type_specification]
#[verifier::external_body]
pub struct ExSystemTime(std::time::SystemTime);

/// Calls `SystemTime::now()`.  Nothing is claimed of the reading.
#[verifier::external_body]
fn system_now() -> SystemTime {
    std::time::SystemTime::now()
}

/// Calls `SystemTime::duration_since(UNIX_EPOCH)` on `t`; `None` where `t`
/// stands before the epoch.  `SystemTime` is opaque here, so nothing is
/// claimed of the value.
#[verifier::external_body]
fn duration_since_epoch(t: &SystemTime) -> Option<Duration> {
    match t.duration_since(std::time::UNIX_EPOCH) {
        Ok(d) => Some(d),
        Err(_) => None,
    }
}

/// Calls `Duration::as_micros`: the whole microseconds in `d`.  `Duration`
/// is opaque here, so nothing is claimed of the value.
#[verifier::external_body]
fn duration_micros(d: &Duration) -> u128 {
    d.as_micros()
}

/// Calls `Duration::as_nanos`: the whole nanoseconds in `d`.  `Duration` is
/// opaque here, so nothing is claimed of the value.
#[verifier::external_body]
fn duration_nanos(d: &Duration) -> u128 {
    d.as_nanos()
}

/// Calls `Instant::now()`.  Nothing is claimed of the reading.
#[verifier::external_body]
pub(crate) fn instant_now() -> Instant {
    std::time::Instant::now()
}

/// Calls `Instant::elapsed` on `since`: the time passed since then, held at
/// zero where the clock went back.  Nothing is claimed of the value: it
/// depends on when the call is made.
#[verifier::external_body]
fn instant_elapsed(since: &Instant) -> Duration {
    since.elapsed()
}

/// The nanoseconds passed since `since`, by the monotonic clock.
pub(crate) fn elapsed_nanos(since: &Instant) -> u128 {
    let d = instant_elapsed(since);
    duration_nanos(&d)
}

/// The microsecond timestamp that a reading of the system clock stands for:
/// the reading cut to 64 bits, or 0 where the clock stands before the epoch.
pub open spec fn timestamp_of(micros: Option<u128>) -> u64 {
    match micros {
        Some(m) => m as u64,
        None => 0,
    }
}

/// Turns a reading of the system clock into a microsecond timestamp.
pub fn micros_to_timestamp(micros: Option<u128>) -> (r: u64)
    ensures
        r == timestamp_of(micros),
{
    match micros {
        Some(m) => m as u64,
        None => 0,
    }
}

/// Microseconds since the UNIX epoch by the system clock, 0 where the clock
/// stands before the epoch.
pub fn now_us() -> u64 {
    let now = system_now();
    let micros = match duration_since_epoch(&now) {
        Some(d) => Some(duration_micros(&d)),
        None => None,
    };
    micros_to_timestamp(micros)
}

} // verus!
