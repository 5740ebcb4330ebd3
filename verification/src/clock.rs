//! Wall-clock time in milliseconds since the Unix epoch.
use vstd::prelude::*;

use std::time::{Duration, SystemTime, SystemTimeError, UNIX_EPOCH};

use crate::numeric::{saturating_i64, u128_to_i64_saturating};

verus! {

/// A point in time read from the system clock.
#[verifier::external_type_specification]
#[verifier::external_body]
pub struct ExSystemTime(SystemTime);

/// The error of a clock reading that lies before the epoch it is measured from.
#[verifier::external_type_specification]
#[verifier::external_body]
pub struct ExSystemTimeError(SystemTimeError);

/// `SystemTime::now()`: the clock's reading, of which nothing is claimed.
#[verifier::external_body]
fn system_now() -> (t: SystemTime) {
    SystemTime::now()
}

/// `t.duration_since(UNIX_EPOCH)`: an error where `t` is before the epoch. Nothing is
/// claimed of the duration, which Verus cannot see into.
#[verifier::external_body]
fn since_unix_epoch(t: SystemTime) -> (r: Result<Duration, SystemTimeError>) {
    t.duration_since(UNIX_EPOCH)
}

/// The most whole milliseconds a `Duration` can hold: it is a `u64` count of seconds and
/// fewer than a billion nanoseconds.
pub open spec fn max_duration_millis() -> nat {
    (u64::MAX as nat) * 1000 + 999
}

/// `d.as_millis()`: the whole milliseconds of a duration. Verus cannot see into the
/// duration, so only the bound that every duration meets is claimed of the number.
#[verifier::external_body]
fn whole_millis(d: Duration) -> (ms: u128)
    ensures
        ms <= max_duration_millis(),
{
    d.as_millis()
}

/// The clock's reading in whole milliseconds since the Unix epoch, or `None` where the
/// clock reads a time before the epoch. Which reading comes back depends on the clock, so
/// only the bound that every duration meets is stated of it.
fn system_millis_since_epoch() -> (r: Option<u128>)
    ensures
        r matches Some(ms) ==> ms <= max_duration_millis(),
{
    match since_unix_epoch(system_now()) {
        Ok(d) => Some(whole_millis(d)),
        Err(_) => None,
    }
}

/// A clock reading in milliseconds as a timestamp: saturated to `i64`, and 0 for a
/// clock before the epoch.
pub fn millis_to_timestamp(reading: Option<u128>) -> (t: i64)
    ensures
        t == match reading {
            Some(ms) => saturating_i64(ms as int),
            None => 0,
        },
        t >= 0,
{
    match reading {
        Some(ms) => u128_to_i64_saturating(ms),
        None => 0,
    }
}

/// The current time in milliseconds since the Unix epoch (0 if the clock is before the
/// epoch, `i64::MAX` if the reading does not fit).
pub fn unix_millis() -> (t: i64)
    ensures
        t >= 0,
{
    millis_to_timestamp(system_millis_since_epoch())
}

/// A clock reading in milliseconds, unbounded, and 0 for a clock before the epoch.
pub fn millis_or_zero(reading: Option<u128>) -> (t: u128)
    ensures
        t == match reading {
            Some(ms) => ms,
            None => 0,
        },
{
    match reading {
        Some(ms) => ms,
        None => 0,
    }
}

/// The current time in milliseconds since the Unix epoch, unbounded (0 if the clock is
/// before the epoch). Which reading comes back depends on the clock, so only the bound
/// that every duration meets is stated of it.
pub fn unix_millis_wide() -> (t: u128)
    ensures
        t <= max_duration_millis(),
{
    millis_or_zero(system_millis_since_epoch())
}

} // verus!
