//! Wall-clock readings as plain values.

use crate::units::NANOS_PER_MILLI;
use std::time::{Duration, SystemTime, UNIX_EPOCH};
use vstd::prelude::*;

verus! {

/// The system clock's opaque reading, carried from `SystemTime::now` to
/// `SystemTime::duration_since` and never inspected by verified code.
#[verifier::external_type_specification]
#[verifier::external_body]
pub struct ExSystemTime(SystemTime);

/// A point in time: whole nanoseconds since the Unix epoch.
#[derive(Clone, Copy, Debug, PartialEq, Eq, Structural)]
pub struct Timestamp {
    pub nanos: u128,
}

impl View for Timestamp {
    type V = nat;

    open spec fn view(&self) -> nat {
        self.nanos as nat
    }
}

/// Calls `SystemTime::now`. The reading depends on the machine's clock, so
/// nothing is claimed of it.
#[verifier::external_body]
fn system_time_now() -> SystemTime {
    SystemTime::now()
}

/// Calls `SystemTime::duration_since` with `UNIX_EPOCH` as the earlier
/// instant; `None` stands for its error, a reading earlier than the epoch.
/// Nothing is claimed of the duration.
#[verifier::external_body]
fn since_unix_epoch(reading: &SystemTime) -> Option<Duration> {
    match reading.duration_since(UNIX_EPOCH) {
        Ok(elapsed) => Some(elapsed),
        Err(_) => None,
    }
}

/// Calls `Duration::as_nanos`. Nothing is claimed of the count.
#[verifier::external_body]
fn duration_as_nanos(elapsed: &Duration) -> u128 {
    elapsed.as_nanos()
}

impl Timestamp {
    /// The instant `nanos` nanoseconds after the Unix epoch.
    pub fn from_nanos(nanos: u128) -> (t: Timestamp)
        ensures
            t@ == nanos,
    {
        Timestamp { nanos }
    }

    /// The instant `millis` milliseconds after the Unix epoch.
    pub fn from_millis(millis: u64) -> (t: Timestamp)
        ensures
            t@ == millis * NANOS_PER_MILLI,
    {
        let wide: u128 = millis as u128;
        Timestamp { nanos: wide * NANOS_PER_MILLI }
    }

    /// Reads the system clock. Nothing holds of every reading, so nothing is
    /// promised of the instant; what a reading stands for is `from_reading`.
    pub fn now() -> Timestamp {
        let reading: SystemTime = system_time_now();
        let since_epoch: Option<u128> = match since_unix_epoch(&reading) {
            Some(elapsed) => Some(duration_as_nanos(&elapsed)),
            None => None,
        };
        Timestamp::from_reading(since_epoch)
    }

    /// The instant that a reading of the system clock stands for:
    /// `since_epoch` nanoseconds after the Unix epoch, or the epoch itself
    /// where the clock was set earlier than that.
    pub fn from_reading(since_epoch: Option<u128>) -> (t: Timestamp)
        ensures
            t@ == Timestamp::of_reading(since_epoch),
    {
        match since_epoch {
            Some(nanos) => Timestamp { nanos },
            None => Timestamp { nanos: 0 },
        }
    }

    /// Nanoseconds after the Unix epoch that a reading of the system clock
    /// stands for.
    pub open spec fn of_reading(since_epoch: Option<u128>) -> nat {
        match since_epoch {
            Some(nanos) => nanos as nat,
            None => 0,
        }
    }
}

} // verus!
