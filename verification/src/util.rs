//! Time helpers shared by the streaming modules.

use vstd::prelude::*;
use std::time::Duration;
use std::time::SystemTime;
use std::time::SystemTimeError;

verus! {

/// Microseconds in one second.
pub const US_IN_SEC: u64 = 1000000;

/// The index of the one-second window that holds the instant `time_us`.
pub open spec fn second_of(time_us: u64) -> u64 {
    time_us / US_IN_SEC
}

/// The one-second window of an instant given in microseconds.
pub fn second_index(time_us: u64) -> (s: u64)
    ensures
        s == second_of(time_us),
{
    time_us / US_IN_SEC
}

/// `std::time::SystemTime`: a reading of the system clock. Nothing is
/// known of a value.
#[verifier::external_type_specification]
#[verifier::external_body]
pub struct ExSystemTime(SystemTime);

/// `std::time::SystemTimeError`: a clock reading that lies before the
/// instant it was held against. Nothing is known of a value.
#[verifier::external_type_specification]
#[verifier::external_body]
pub struct ExSystemTimeError(SystemTimeError);

/// `SystemTime::now`: the reading of the system clock. Nothing is known of
/// it.
#[verifier::external_body]
fn system_now() -> SystemTime {
    SystemTime::now()
}

/// `SystemTime::duration_since` against the Unix epoch: the time since the
/// epoch, or an error for a clock set before it. Nothing more is known.
#[verifier::external_body]
fn since_unix_epoch(time: &SystemTime) -> Result<Duration, SystemTimeError> {
    time.duration_since(SystemTime::UNIX_EPOCH)
}

/// `Duration::as_micros`: the whole microseconds of a duration. Nothing
/// more is known.
#[verifier::external_body]
fn whole_micros(duration: &Duration) -> u128 {
    duration.as_micros()
}

/// The timestamp for a clock reading: the microseconds since the epoch,
/// cut to 64 bits; 0 where the clock stands before the epoch.
pub open spec fn timestamp_of(since_epoch_us: Option<u128>) -> u64 {
    match since_epoch_us {
        Some(us) => (us % 0x1_0000_0000_0000_0000) as u64,
        None => 0,
    }
}

/// The timestamp for a clock reading; see `timestamp_of`.
pub fn timestamp_from(since_epoch_us: Option<u128>) -> (timestamp: u64)
    ensures
        timestamp == timestamp_of(since_epoch_us),
{
    match since_epoch_us {
        Some(us) => (us % 0x1_0000_0000_0000_0000) as u64,
        None => 0,
    }
}

/// The current time in microseconds since the Unix epoch, as the system
/// clock tells it; see `timestamp_of` for how a reading becomes a
/// timestamp. Two calls may give any two values.
pub fn get_timestamp_us() -> (timestamp: u64) {
    let now: SystemTime = system_now();
    let reading: Option<u128> = match since_unix_epoch(&now) {
        Ok(duration) => Some(whole_micros(&duration)),
        Err(_) => None,
    };
    timestamp_from(reading)
}

} // verus!
