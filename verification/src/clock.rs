//! The wall clock, read in whole seconds since the Unix epoch.

use std::time::{Duration, SystemTime, SystemTimeError, UNIX_EPOCH};
use vstd::prelude::*;

verus! {

/// `std::time::SystemTime`, an instant of the system clock. It is carried
/// from one call to the next and never looked into.
#[verifier::external_type_specification]
#[verifier::external_body]
pub struct ExSystemTime(std::time::SystemTime);

/// `std::time::SystemTimeError`, the error of a measurement that ends before
/// it starts. Only its presence is read.
#[verifier::external_type_specification]
#[verifier::external_body]
pub struct ExSystemTimeError(std::time::SystemTimeError);

/// What `SystemTime::duration_since` returns for `instant` when it measures
/// from `std::time::UNIX_EPOCH`: the span from the epoch to the instant, or
/// an error where the instant lies before the epoch.
pub uninterp spec fn span_since_epoch(instant: SystemTime) -> Result<Duration, SystemTimeError>;

/// What `Duration::as_secs` returns for `span`: its whole seconds.
pub uninterp spec fn whole_seconds(span: Duration) -> u64;

/// The timestamp that a measurement from the epoch stands for: the whole
/// seconds of the span, and 0 where the measured instant lies before the
/// epoch.
pub open spec fn timestamp_of(elapsed: Result<Duration, SystemTimeError>) -> u64 {
    match elapsed {
        Ok(span) => whole_seconds(span),
        Err(_) => 0,
    }
}

/// The timestamp of `instant`: its whole seconds since the Unix epoch, and 0
/// where it lies before the epoch.
pub open spec fn timestamp_at(instant: SystemTime) -> u64 {
    timestamp_of(span_since_epoch(instant))
}

/// `SystemTime::now` reads the system clock. Nothing is claimed of the
/// instant it returns.
pub assume_specification[ SystemTime::now ]() -> (now: SystemTime);

/// `SystemTime::duration_since`, measured from `std::time::UNIX_EPOCH`. The
/// measurement depends on `time` alone; the contract gives it its name and
/// claims nothing of which outcome it is, nor of the span.
#[verifier::external_body]
fn since_unix_epoch(time: &SystemTime) -> (elapsed: Result<Duration, SystemTimeError>)
    ensures
        elapsed == span_since_epoch(*time),
{
    time.duration_since(UNIX_EPOCH)
}

/// `Duration::as_secs` gives the whole seconds of a span. They depend on the
/// span alone; the contract gives them their name and claims nothing of
/// their number.
pub assume_specification[ Duration::as_secs ](span: &Duration) -> (seconds: u64)
    ensures
        seconds == whole_seconds(*span),
;

/// Turns a measurement from the epoch into a timestamp.
pub fn timestamp_from(elapsed: Result<Duration, SystemTimeError>) -> (seconds: u64)
    ensures
        seconds == timestamp_of(elapsed),
{
    match elapsed {
        Ok(span) => span.as_secs(),
        Err(_) => 0,
    }
}

/// The current time in whole seconds since the Unix epoch, and 0 where the
/// system clock stands before the epoch.
///
/// Which instant the clock gives is not for a contract to say: the result is
/// the timestamp of some instant. What depends on time elsewhere in this
/// library takes the time as an argument.
pub fn get_current_timestamp() -> (seconds: u64)
    ensures
        exists|instant: SystemTime| seconds == timestamp_at(instant),
{
    let now = SystemTime::now();
    let seconds = timestamp_from(since_unix_epoch(&now));
    assert(seconds == timestamp_at(now));
    seconds
}

} // verus!
