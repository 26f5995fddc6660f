//! Instants and durations, counted in cycles of the CPU clock.

use vstd::prelude::*;

verus! {

/// Largest magnitude of an instant: the difference of two instants within it
/// fits the counter.
pub const TIME_LIMIT: i64 = 0x3fff_ffff_ffff_ffff;

/// Largest magnitude of an interval between clock ticks: such an interval can
/// be scaled by any duty percentage and added to an instant.
pub const INTERVAL_LIMIT: i64 = 0x0040_0000_0000_0000;

/// A count of clock cycles, used both for instants and for durations.
#[derive(Clone, Copy, Debug, PartialEq, Eq, Structural)]
pub struct Time {
    pub count: i64,
}

impl Time {
    /// The instant lies where differences between instants cannot overflow.
    pub open spec fn in_range(self) -> bool {
        -TIME_LIMIT <= self.count <= TIME_LIMIT
    }

    /// The duration is small enough to be scaled and added to an instant.
    pub open spec fn is_interval(self) -> bool {
        -INTERVAL_LIMIT <= self.count <= INTERVAL_LIMIT
    }

    pub fn new(count: i64) -> (t: Time)
        ensures
            t.count == count,
    {
        Time { count }
    }

    pub fn count(&self) -> (c: i64)
        ensures
            c == self.count,
    {
        self.count
    }

    /// Executable form of [`Time::in_range`].
    pub fn check_in_range(&self) -> (b: bool)
        ensures
            b == self.in_range(),
    {
        -TIME_LIMIT <= self.count && self.count <= TIME_LIMIT
    }

    /// Executable form of [`Time::is_interval`].
    pub fn check_is_interval(&self) -> (b: bool)
        ensures
            b == self.is_interval(),
    {
        -INTERVAL_LIMIT <= self.count && self.count <= INTERVAL_LIMIT
    }

    pub fn from_secs(secs: u32) -> (t: Time)
        ensures
            t.count == secs * 600_000_000,
            t.in_range(),
    {
        Time { count: (secs as i64) * 600_000_000 }
    }

    pub fn from_millis(millis: u32) -> (t: Time)
        ensures
            t.count == millis * 600_000,
            t.in_range(),
    {
        Time { count: (millis as i64) * 600_000 }
    }

    pub fn from_micros(micros: u32) -> (t: Time)
        ensures
            t.count == micros * 600,
            t.in_range(),
    {
        Time { count: (micros as i64) * 600 }
    }

    /// The duration from `earlier` to `self`; negative when `earlier` is the
    /// later of the two.
    pub fn since(self, earlier: Time) -> (d: Time)
        requires
            self.in_range(),
            earlier.in_range(),
        ensures
            d.count == self.count - earlier.count,
    {
        Time { count: self.count - earlier.count }
    }

    /// The instant `d` after `self`.
    pub fn plus(self, d: Time) -> (t: Time)
        requires
            i64::MIN <= self.count + d.count <= i64::MAX,
        ensures
            t.count == self.count + d.count,
    {
        Time { count: self.count + d.count }
    }
}

} // verus!
