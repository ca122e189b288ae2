//! Reading the wall clock as milliseconds since the Unix epoch.
use vstd::prelude::*;
use std::time::{Duration, SystemTime, SystemTimeError};

verus! {

#[verifier::external_type_specification]
#[verifier::external_body]
pub struct ExSystemTime(std::time::SystemTime);

#[verifier::external_type_specification]
#[verifier::external_body]
pub struct ExSystemTimeError(std::time::SystemTimeError);

/// Relies on SystemTime::now: the current wall-clock time. Nothing is known
/// of the value, which depends on the machine and the moment.
pub assume_specification[ std::time::SystemTime::now ]() -> SystemTime;

/// Relies on SystemTime::duration_since: the time elapsed since `earlier`, or
/// an error when `earlier` is later than `self`. Which one comes back depends
/// on the clock, so nothing is promised.
pub assume_specification[ std::time::SystemTime::duration_since ](
    t: &SystemTime,
    earlier: SystemTime,
) -> Result<Duration, SystemTimeError>;

/// The whole milliseconds of the longest `Duration`: `u64::MAX` seconds and
/// 999 more milliseconds.
pub const MAX_DURATION_MS: u128 = 18_446_744_073_709_551_615_999;

/// Relies on Duration::as_millis: the whole milliseconds of a duration, which
/// holds at most `u64::MAX` seconds and under a second of nanoseconds.
pub assume_specification[ std::time::Duration::as_millis ](d: &Duration) -> (r: u128)
    ensures
        r <= MAX_DURATION_MS,
;

/// Relies on std::time::UNIX_EPOCH: the instant 1970-01-01 00:00:00 UTC.
#[verifier::external_body]
fn unix_epoch() -> SystemTime {
    std::time::UNIX_EPOCH
}

/// Milliseconds since the Unix epoch on the wall clock, or `None` when the
/// clock reads a time before the epoch.
pub fn get_epoch_ms() -> (r: Option<u128>)
    ensures
        r matches Some(ms) ==> ms <= MAX_DURATION_MS,
{
    let now = SystemTime::now();
    match now.duration_since(unix_epoch()) {
        Ok(d) => Some(d.as_millis()),
        Err(_) => None,
    }
}

} // verus!
