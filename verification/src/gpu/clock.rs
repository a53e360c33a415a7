//! The wall clock, as far as the telemetry needs it.

use vstd::prelude::*;
use std::time::Duration;
use std::time::SystemTime;
use std::time::SystemTimeError;

verus! {

/// `std::time::SystemTime`: a reading of the system clock, carried as it is.
#[verifier::external_type_specification]
#[verifier::external_body]
pub struct ExSystemTime(std::time::SystemTime);

/// `std::time::SystemTimeError`: the clock read earlier than the moment it
/// was compared with.
#[verifier::external_type_specification]
#[verifier::external_body]
pub struct ExSystemTimeError(std::time::SystemTimeError);

/// `SystemTime::now`: the current reading of the system clock. Nothing is
/// claimed of it.
pub assume_specification[ SystemTime::now ]() -> (now: SystemTime);

/// `SystemTime::duration_since` against `UNIX_EPOCH`: the time elapsed since
/// the epoch, or an error when the clock reads earlier than the epoch.
/// Nothing is claimed of the outcome.
#[verifier::external_body]
fn since_epoch(time: &SystemTime) -> (r: Result<Duration, SystemTimeError>) {
    time.duration_since(std::time::UNIX_EPOCH)
}

/// `Duration::as_millis`: the whole milliseconds of a duration. Nothing is
/// claimed of the number.
pub assume_specification[ Duration::as_millis ](d: &Duration) -> (millis: u128);

/// `Duration::subsec_nanos`: the fractional part of a duration in
/// nanoseconds, which std documents to be less than one billion.
pub assume_specification[ Duration::subsec_nanos ](d: &Duration) -> (nanos: u32)
    ensures
        nanos < 1_000_000_000,
;

/// What the clock reads: milliseconds since the Unix epoch, and the
/// nanoseconds within the current second.
#[derive(Clone, Copy, Debug, PartialEq, Eq)]
pub struct ClockReading {
    pub millis: u64,
    pub subsec_nanos: u32,
}

/// Reads the clock. A clock set before the epoch reads as zero.
pub fn read_clock() -> (reading: ClockReading)
    ensures
        reading.subsec_nanos < 1_000_000_000,
{
    let now = SystemTime::now();
    match since_epoch(&now) {
        Ok(elapsed) => {
            let millis: u128 = elapsed.as_millis();
            ClockReading {
                millis: (millis % 0x1_0000_0000_0000_0000) as u64,
                subsec_nanos: elapsed.subsec_nanos(),
            }
        },
        Err(_) => ClockReading { millis: 0, subsec_nanos: 0 },
    }
}

} // verus!
