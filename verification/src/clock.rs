//! The wall clock.

use vstd::prelude::*;
use std::time::Duration;
use std::time::SystemTime;
use std::time::UNIX_EPOCH;

verus! {

/// The system's point in time, carried through as an opaque value.
#[verifier::external_type_specification]
#[verifier::external_body]
pub struct ExSystemTime(std::time::SystemTime);

/// Calls `SystemTime::now`. Nothing is promised of the value: every reading
/// may differ.
#[verifier::external_body]
fn system_now() -> SystemTime {
    SystemTime::now()
}

/// Calls `SystemTime::duration_since` with the Unix epoch, which gives the
/// time that has passed since then, or an error for a point before it.
#[verifier::external_body]
fn since_epoch(at: &SystemTime) -> Option<Duration> {
    match at.duration_since(UNIX_EPOCH) {
        Ok(span) => Some(span),
        Err(_) => None,
    }
}

/// Calls `Duration::as_millis`.
#[verifier::external_body]
fn millis_of(span: &Duration) -> u128 {
    span.as_millis()
}

/// The clock reading that a session works with: the milliseconds since the
/// epoch in 64 bits, and the largest such reading for a time beyond them.
pub fn clock_reading(millis: u128) -> (reading: u64)
    ensures
        millis <= u64::MAX ==> reading == millis,
        millis > u64::MAX ==> reading == u64::MAX,
{
    if millis <= u64::MAX as u128 {
        millis as u64
    } else {
        u64::MAX
    }
}

/// The clock reading now. A system clock set before the epoch reads as zero.
pub(crate) fn wall_clock_millis() -> u64 {
    let now = system_now();
    match since_epoch(&now) {
        Some(span) => clock_reading(millis_of(&span)),
        None => 0,
    }
}

} // verus!
