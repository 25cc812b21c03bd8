//! The time source: wall-clock seconds since the Unix epoch.

use vstd::prelude::*;
use std::time::{Duration, SystemTime, SystemTimeError, UNIX_EPOCH};

verus! {

/// `std::time::SystemTime`, a point in time as the system clock measures
/// it. Nothing of a value is visible here.
#[verifier::external_type_specification]
#[verifier::external_body]
pub struct ExSystemTime(SystemTime);

/// `std::time::SystemTimeError`, the error of `SystemTime::duration_since`.
/// Nothing of a value is visible here.
#[verifier::external_type_specification]
#[verifier::external_body]
pub struct ExSystemTimeError(SystemTimeError);

/// `SystemTime::now` reads the system clock. Nothing is claimed of the
/// reading: it depends on the machine and on the moment.
pub assume_specification[ SystemTime::now ]() -> (now: SystemTime)
;

/// `SystemTime::duration_since` measures how far `time` lies after
/// `earlier`, and fails where it lies before it. Nothing is claimed of
/// either outcome.
pub assume_specification[ SystemTime::duration_since ](
    time: &SystemTime,
    earlier: SystemTime,
) -> (elapsed: Result<Duration, SystemTimeError>)
;

/// The whole seconds that a duration holds, as `Duration::as_secs` gives
/// them.
pub uninterp spec fn whole_seconds(duration: Duration) -> u64;

/// `Duration::as_secs` gives the whole seconds of a duration, leaving out
/// the part of a second beyond them. Their number is a function of the
/// duration alone; what it is for a given duration is not stated here.
pub assume_specification[ Duration::as_secs ](duration: &Duration) -> (seconds: u64)
    ensures
        seconds == whole_seconds(*duration),
;

/// `std::time::UNIX_EPOCH`, the point in time from which the seconds are
/// counted. Nothing is claimed of it but that it is a `SystemTime`.
#[verifier::external_body]
fn epoch() -> (origin: SystemTime) {
    UNIX_EPOCH
}

/// The seconds that a reading of the clock comes to. `elapsed` is how far
/// the clock lies after the epoch: its whole seconds count, and a clock
/// that lies before the epoch reads as 0.
pub open spec fn seconds_of(elapsed: Result<Duration, SystemTimeError>) -> u64 {
    match elapsed {
        Ok(duration) => whole_seconds(duration),
        Err(_) => 0,
    }
}

/// Turns a reading of the clock, taken as the time elapsed since the
/// epoch, into seconds.
pub fn seconds_since_epoch(elapsed: Result<Duration, SystemTimeError>) -> (seconds: u64)
    ensures
        seconds == seconds_of(elapsed),
{
    match elapsed {
        Ok(duration) => duration.as_secs(),
        Err(_) => 0,
    }
}

/// The current time in whole seconds since the Unix epoch, as the system
/// clock has it. A clock that is set before the epoch reads as 0. What
/// the clock reads is left open; the result is the seconds of its
/// reading.
pub fn current_time() -> (seconds: u64)
    ensures
        exists|elapsed: Result<Duration, SystemTimeError>| seconds == seconds_of(elapsed),
{
    let elapsed = SystemTime::now().duration_since(epoch());
    seconds_since_epoch(elapsed)
}

} // verus!
