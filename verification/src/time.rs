//! The wall clock, in nanoseconds since the Unix epoch.

use vstd::prelude::*;
use std::time::{Duration, SystemTime};

verus! {

#[verifier::external_type_specification]
#[verifier::external_body]
pub struct ExSystemTime(SystemTime);

pub const NANOS_PER_SEC: u64 = 1_000_000_000;

/// `SystemTime::now`: the current reading of the system clock. Nothing is
/// claimed of the reading.
#[verifier::external_body]
fn wall_clock() -> (at: SystemTime) {
    SystemTime::now()
}

/// `SystemTime::duration_since` against `UNIX_EPOCH`: the time elapsed since
/// the epoch, or nothing if the reading lies before it.
#[verifier::external_body]
fn since_epoch(at: &SystemTime) -> (elapsed: Option<Duration>) {
    match at.duration_since(std::time::UNIX_EPOCH) {
        Ok(elapsed) => Some(elapsed),
        Err(_) => None,
    }
}

/// `Duration::as_secs`: the whole seconds of the duration.
#[verifier::external_body]
fn whole_seconds(elapsed: &Duration) -> (secs: u64) {
    elapsed.as_secs()
}

/// `Duration::subsec_nanos`: the fractional part of the duration in
/// nanoseconds, which is always less than a second.
#[verifier::external_body]
fn subsecond_nanos(elapsed: &Duration) -> (nanos: u32)
    ensures
        nanos < 1_000_000_000,
{
    elapsed.subsec_nanos()
}

/// The nanoseconds in `secs` seconds and `subsec` nanoseconds, where a `u64`
/// can hold them.
pub open spec fn nanoseconds_spec(secs: u64, subsec: u32) -> Option<u64> {
    if secs * NANOS_PER_SEC + subsec <= u64::MAX {
        Some((secs * NANOS_PER_SEC + subsec) as u64)
    } else {
        None
    }
}

pub fn nanoseconds(secs: u64, subsec: u32) -> (total: Option<u64>)
    ensures
        total == nanoseconds_spec(secs, subsec),
{
    match secs.checked_mul(NANOS_PER_SEC) {
        Some(whole) => whole.checked_add(subsec as u64),
        None => None,
    }
}

/// Reads the wall clock, in nanoseconds since the epoch. Answers nothing if
/// the clock stands before the epoch or beyond what a `u64` counts.
pub fn nsnow() -> (now: Option<u64>) {
    let at = wall_clock();
    match since_epoch(&at) {
        Some(elapsed) => nanoseconds(whole_seconds(&elapsed), subsecond_nanos(&elapsed)),
        None => None,
    }
}

} // verus!
