//! The wall clock, in whole seconds since 1970-01-01 00:00:00 UTC.

use vstd::prelude::*;

verus! {

/// `std::time::SystemTime`: a reading of the system clock, carried from one
/// call to the next and never looked into.
#[verifier::external_type_specification]
#[verifier::external_body]
pub struct ExSystemTime(std::time::SystemTime);

/// `std::time::SystemTimeError`: what `duration_since` answers for a time
/// before the epoch. Only its presence is read.
#[verifier::external_type_specification]
#[verifier::external_body]
pub struct ExSystemTimeError(std::time::SystemTimeError);

/// `SystemTime::now`: the present reading of the system clock. Nothing is
/// claimed of it.
#[verifier::external_body]
fn system_now() -> (now: std::time::SystemTime) {
    std::time::SystemTime::now()
}

/// `SystemTime::duration_since`, from the Unix epoch: the time that passed
/// from the epoch to `time`, or an error where `time` lies before it.
/// Nothing is claimed of the result.
#[verifier::external_body]
fn since_unix_epoch(time: &std::time::SystemTime) -> (elapsed: Result<
    core::time::Duration,
    std::time::SystemTimeError,
>) {
    time.duration_since(std::time::UNIX_EPOCH)
}

/// `Duration::as_secs`: the whole seconds of a duration. Nothing is claimed
/// of the result.
#[verifier::external_body]
fn whole_seconds(duration: &core::time::Duration) -> (seconds: u64) {
    duration.as_secs()
}

/// Reads the clock: seconds since the Unix epoch, or `None` where the clock
/// is set before it.
pub fn unix_now() -> (seconds: Option<u64>) {
    let now = system_now();
    match since_unix_epoch(&now) {
        Ok(elapsed) => Some(whole_seconds(&elapsed)),
        Err(_) => None,
    }
}

} // verus!
