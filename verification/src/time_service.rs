//! Clocks that count nanoseconds.

use vstd::prelude::*;
use std::time::{Duration, Instant};

verus! {

/// A clock that counts nanoseconds from a moment of its own choosing.
///
/// An implementation is expected never to run backwards; nothing in this
/// library depends on that.
pub trait TimeService {
    /// The nanoseconds counted so far.
    fn get_timestamp_ns(&self) -> u64;
}

/// `std::time::Instant`: a reading of the system's monotonic clock.
/// Nothing is known of what a reading holds.
#[verifier::external_type_specification]
#[verifier::external_body]
pub struct ExInstant(Instant);

/// `std::time::Instant::now`: reads the system's monotonic clock. Nothing
/// is claimed of the reading.
pub assume_specification[ Instant::now ]() -> (now: Instant);

/// `std::time::Instant::elapsed`: the time that has passed since the
/// reading was taken. Nothing is claimed of its length.
pub assume_specification[ Instant::elapsed ](start: &Instant) -> (elapsed: Duration);

/// `std::time::Duration::as_nanos`: the whole length in nanoseconds.
/// Nothing is claimed of the number.
pub assume_specification[ Duration::as_nanos ](duration: &Duration) -> (nanos: u128);

/// The number `nanos` where a timestamp can hold it, else the largest
/// timestamp.
pub open spec fn clamp_nanos_spec(nanos: u128) -> u64 {
    if nanos <= u64::MAX {
        nanos as u64
    } else {
        u64::MAX
    }
}

/// The number `nanos` where a timestamp can hold it, else the largest
/// timestamp.
pub fn clamp_nanos(nanos: u128) -> (timestamp: u64)
    ensures
        timestamp == clamp_nanos_spec(nanos),
{
    if nanos <= 0xffff_ffff_ffff_ffffu128 {
        nanos as u64
    } else {
        u64::MAX
    }
}

/// A clock on the system's monotonic clock, counting from the moment it
/// was made.
#[derive(Debug)]
pub struct StdTimeService {
    start: Instant,
}

impl StdTimeService {
    /// A clock that starts counting now.
    pub fn new() -> Self {
        StdTimeService { start: Instant::now() }
    }
}

impl Default for StdTimeService {
    fn default() -> Self {
        StdTimeService::new()
    }
}

impl TimeService for StdTimeService {
    /// The nanoseconds since this clock was made; the largest timestamp
    /// once they no longer fit in one.
    fn get_timestamp_ns(&self) -> u64 {
        let elapsed = self.start.elapsed();
        clamp_nanos(elapsed.as_nanos())
    }
}

} // verus!
