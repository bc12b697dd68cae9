//! The wall clock, read as whole seconds since the Unix epoch.

use std::time::{Duration, SystemTime, SystemTimeError, UNIX_EPOCH};
use vstd::prelude::*;

verus! {

#[verifier::external_type_specification]
#[verifier::external_body]
pub struct ExSystemTime(SystemTime);

#[verifier::external_type_specification]
#[verifier::external_body]
pub struct ExSystemTimeError(SystemTimeError);

/// `SystemTime::now` reads the system clock; nothing is known of the
/// reading.
pub assume_specification[ SystemTime::now ]() -> (t: SystemTime)
;

/// The time from the Unix epoch to `t`, by `SystemTime::duration_since`,
/// which gives an error when `t` lies before the epoch; nothing is claimed
/// of either outcome.
#[verifier::external_body]
fn since_epoch(t: &SystemTime) -> (r: Result<Duration, SystemTimeError>) {
    t.duration_since(UNIX_EPOCH)
}

/// `Duration::as_secs` gives the whole seconds of a duration; a duration is
/// opaque here, so nothing is claimed of the number.
pub assume_specification[ Duration::as_secs ](d: &Duration) -> (s: u64)
;

/// The whole seconds that have passed since the Unix epoch by the system
/// clock; `whole_seconds` says what is made of each reading of it.
pub fn unix_seconds() -> (now: Option<u64>) {
    let reading = SystemTime::now();
    whole_seconds(since_epoch(&reading))
}

/// The whole seconds of the time that has passed since the Unix epoch: there
/// are some exactly when the clock did not stand before the epoch.
pub fn whole_seconds(elapsed: Result<Duration, SystemTimeError>) -> (seconds: Option<u64>)
    ensures
        seconds is Some <==> elapsed is Ok,
{
    match elapsed {
        Ok(elapsed) => Some(elapsed.as_secs()),
        Err(_) => None,
    }
}

} // verus!
