//! Times read off the system clock.

use std::time::{SystemTime, SystemTimeError};
use vstd::prelude::*;
use crate::time::{wrapped, Time};

verus! {

/// `std::time::SystemTime`, a reading of the system clock; opaque here.
#[verifier::external_type_specification]
#[verifier::external_body]
pub struct ExSystemTime(std::time::SystemTime);

/// `std::time::SystemTimeError`, the error of a reading that lies before
/// the instant it is measured from; opaque here.
#[verifier::external_type_specification]
#[verifier::external_body]
pub struct ExSystemTimeError(std::time::SystemTimeError);

/// A clock reading that lies before the epoch.
#[derive(Debug)]
pub struct ClockError {
    /// What the clock reported: it tells how far before the epoch.
    pub source: SystemTimeError,
}

/// What `SystemTime::duration_since` returns for a reading and the Unix
/// epoch: the time elapsed from the epoch to the reading, or the clock's
/// error for a reading before the epoch.
pub uninterp spec fn elapsed_since_epoch(reading: SystemTime) -> Result<
    std::time::Duration,
    SystemTimeError,
>;

/// What `Duration::as_nanos` of the standard library returns: the whole
/// nanoseconds of an elapsed time.
pub uninterp spec fn nanos_of(elapsed: std::time::Duration) -> u128;

/// The time that a reading of the system clock gives: the whole
/// nanoseconds from the epoch to the reading, wrapped around beyond 64
/// bits, and for a reading before the epoch the clock's error.
pub open spec fn time_of_reading(reading: SystemTime) -> Result<Time, ClockError> {
    match elapsed_since_epoch(reading) {
        Ok(elapsed) => Ok(Time::from_ns_since_epoch(wrapped(nanos_of(elapsed) as int) as i64)),
        Err(source) => Err(ClockError { source }),
    }
}

/// Calls `SystemTime::duration_since` with the Unix epoch. The result
/// depends on the reading alone; the reading is opaque, so the result is
/// named and not stated.
#[verifier::external_body]
fn since_epoch(reading: &SystemTime) -> (elapsed: Result<std::time::Duration, SystemTimeError>)
    ensures
        elapsed == elapsed_since_epoch(*reading),
{
    reading.duration_since(SystemTime::UNIX_EPOCH)
}

/// Calls `Duration::as_nanos` of the standard library. The result depends
/// on the elapsed time alone, which is opaque, so it is named and not
/// stated.
#[verifier::external_body]
fn whole_nanos(elapsed: &std::time::Duration) -> (nanos: u128)
    ensures
        nanos == nanos_of(*elapsed),
{
    elapsed.as_nanos()
}

impl Time {
    /// The time that an elapsed count of nanoseconds since the epoch gives,
    /// or the error of a reading before the epoch. A count beyond 64 bits
    /// wraps around.
    pub fn from_elapsed(elapsed: Result<u128, SystemTimeError>) -> (result: Result<Time, ClockError>)
        ensures
            match elapsed {
                Ok(nanos) => result matches Ok(time) && time@ == wrapped(nanos as int),
                Err(source) => result matches Err(error) && error.source == source,
            },
    {
        match elapsed {
            Ok(nanos) => {
                let low: u128 = nanos % 0x1_0000_0000_0000_0000;
                let count: i64 = if low > 0x7fff_ffff_ffff_ffff {
                    ((low - 0x8000_0000_0000_0000) as i64) + i64::MIN
                } else {
                    low as i64
                };
                Ok(Time::from_ns_since_epoch(count))
            },
            Err(source) => Err(ClockError { source }),
        }
    }
}

impl vstd::std_specs::convert::TryFromSpecImpl<SystemTime> for Time {
    open spec fn obeys_try_from_spec() -> bool {
        true
    }

    open spec fn try_from_spec(time: SystemTime) -> Result<Time, ClockError> {
        time_of_reading(time)
    }
}

impl TryFrom<SystemTime> for Time {
    type Error = ClockError;

    /// The time of a reading of the system clock: an error for a reading
    /// before the epoch, and otherwise the whole nanoseconds from the epoch
    /// to the reading.
    fn try_from(time: SystemTime) -> (result: Result<Time, ClockError>)
        ensures
            result == time_of_reading(time),
            match elapsed_since_epoch(time) {
                Ok(elapsed) => result matches Ok(t) && t@ == wrapped(nanos_of(elapsed) as int),
                Err(source) => result matches Err(error) && error.source == source,
            },
    {
        match since_epoch(&time) {
            Ok(elapsed) => {
                let result = Time::from_elapsed(Ok(whole_nanos(&elapsed)));
                proof {
                    if let Ok(t) = result {
                        t.lemma_count_round_trip(0);
                    }
                }
                result
            },
            Err(source) => Time::from_elapsed(Err(source)),
        }
    }
}

} // verus!
