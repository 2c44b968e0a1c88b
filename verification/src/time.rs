//! Monotonic time, as the confirm and grace timers use it.

use vstd::prelude::*;

verus! {

/// Nanoseconds in a second.
pub const NANOS_PER_SEC: u64 = 1_000_000_000;

/// A point in time: nanoseconds on a monotonic clock since the monitor started.
#[derive(Debug, Clone, Copy, PartialEq, Eq, Structural)]
pub struct Moment {
    pub nanos: u64,
}

/// Nanoseconds from `since` to `now`, and zero where `now` is the earlier one.
pub open spec fn elapsed(now: Moment, since: Moment) -> int {
    if now.nanos >= since.nanos {
        now.nanos - since.nanos
    } else {
        0
    }
}

/// At least `secs` seconds lie between `since` and `now`.
pub open spec fn lasted(now: Moment, since: Moment, secs: u64) -> bool {
    elapsed(now, since) >= secs * NANOS_PER_SEC
}

impl Moment {
    /// Nanoseconds from `since` to `self`, and zero where `self` is the earlier one.
    fn nanos_since(&self, since: Moment) -> (r: u64)
        ensures
            r == elapsed(*self, since),
    {
        if self.nanos >= since.nanos {
            self.nanos - since.nanos
        } else {
            0
        }
    }

    /// Whole seconds from `since` to `self`, and zero where `self` is the earlier one.
    pub fn secs_since(&self, since: Moment) -> (r: u64)
        ensures
            r == elapsed(*self, since) / (NANOS_PER_SEC as int),
            self.nanos >= since.nanos ==> since.nanos + r * 1_000_000_000 <= self.nanos
                < since.nanos + (r + 1) * 1_000_000_000,
            self.nanos < since.nanos ==> r == 0,
    {
        self.nanos_since(since) / NANOS_PER_SEC
    }

    /// Whether at least `secs` seconds lie between `since` and `self`.
    pub fn is_past(&self, since: Moment, secs: u64) -> (r: bool)
        ensures
            r == lasted(*self, since, secs),
            r <==> self.nanos >= since.nanos + secs * 1_000_000_000 || secs == 0,
    {
        self.nanos_since(since) as u128 >= secs as u128 * 1_000_000_000
    }
}

} // verus!
