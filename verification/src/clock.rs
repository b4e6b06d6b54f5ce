//! The time of day.

use vstd::prelude::*;
use std::time::Duration;
use std::time::SystemTime;
use std::time::SystemTimeError;

verus! {

#[verifier::external_type_specification]
#[verifier::external_body]
pub struct ExSystemTime(std::time::SystemTime);

#[verifier::external_type_specification]
#[verifier::external_body]
pub struct ExSystemTimeError(std::time::SystemTimeError);

/// `SystemTime::now` of std: the system clock's reading. Nothing is said
/// of it: two readings may differ in any way.
#[verifier::external_body]
fn system_time() -> (time: SystemTime) {
    SystemTime::now()
}

/// `SystemTime::duration_since` of std, taken from the Unix epoch: the time
/// elapsed since the epoch, or an error for a reading before it. Nothing
/// is said of which comes.
#[verifier::external_body]
fn since_epoch(time: &SystemTime) -> (elapsed: Result<Duration, SystemTimeError>) {
    time.duration_since(SystemTime::UNIX_EPOCH)
}

/// `Duration::as_secs` of std: the whole seconds of a duration. Nothing is
/// said of the number.
#[verifier::external_body]
fn whole_seconds(elapsed: &Duration) -> (seconds: u64) {
    elapsed.as_secs()
}

/// Seconds since the Unix epoch by the system clock; zero if the clock
/// stands before the epoch.
pub fn now() -> (seconds: u64) {
    match since_epoch(&system_time()) {
        Ok(elapsed) => whole_seconds(&elapsed),
        Err(_) => 0,
    }
}

} // verus!
