//! Units of time.

use vstd::prelude::*;

verus! {

/// Nanoseconds in one millisecond.
pub const NANOS_PER_MILLI: u128 = 1_000_000;

/// Milliseconds in one second.
pub const MILLIS_PER_SECOND: usize = 1_000;

/// Milliseconds in one minute.
pub const MILLIS_PER_MINUTE: usize = 60_000;

/// Milliseconds in one hour.
pub const MILLIS_PER_HOUR: usize = 3_600_000;

} // verus!
