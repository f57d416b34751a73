//! Millisecond timestamps for the version record.

use core::time::Duration;
use std::time::SystemTime;
use std::time::SystemTimeError;
use vstd::prelude::*;

verus! {

#[verifier::external_type_specification]
#[verifier::external_body]
pub struct ExSystemTime(SystemTime);

#[verifier::external_type_specification]
#[verifier::external_body]
pub struct ExSystemTimeError(SystemTimeError);

/// Relies on std's `SystemTime::duration_since`, measured from
/// `SystemTime::UNIX_EPOCH`: the time elapsed from the Unix epoch to
/// `now`, or a clock error when `now` lies before the epoch.
#[verifier::external_body]
fn duration_since_unix_epoch(now: SystemTime) -> Result<Duration, SystemTimeError> {
    now.duration_since(SystemTime::UNIX_EPOCH)
}

/// Relies on std's `Duration::as_millis`: the duration's whole
/// milliseconds.
#[verifier::external_body]
fn duration_as_millis(elapsed: &Duration) -> u128 {
    elapsed.as_millis()
}

/// The milliseconds from the Unix epoch to `now`, or the clock error when
/// `now` lies before the epoch.
pub fn as_unix_ts_millis(now: SystemTime) -> Result<u128, SystemTimeError> {
    match duration_since_unix_epoch(now) {
        Ok(elapsed) => Ok(duration_as_millis(&elapsed)),
        Err(err) => Err(err),
    }
}

} // verus!
