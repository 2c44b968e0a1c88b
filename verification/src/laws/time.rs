//! What the timers measure.

use crate::monitor::whole_secs;
use crate::time::{elapsed, lasted, Moment};
use vstd::prelude::*;

verus! {

/// `now` is `secs` seconds past `since`, or later.
pub open spec fn due_after(now: Moment, since: Moment, secs: u64) -> bool {
    now.nanos >= since.nanos + secs * 1_000_000_000
}

/// `secs` is how many full seconds `now` is past `since`. A `now` that is the earlier
/// one is not past it.
pub open spec fn full_secs(secs: u64, now: Moment, since: Moment) -> bool {
    if now.nanos < since.nanos {
        secs == 0
    } else {
        since.nanos + secs * 1_000_000_000 <= now.nanos < since.nanos + (secs + 1) * 1_000_000_000
    }
}

/// The time from a moment to one `d` nanoseconds later is `d` nanoseconds, and no time
/// lies between a moment and an earlier one.
pub proof fn elapsed_time_is_the_distance(a: u64, d: u64)
    requires
        a + d <= u64::MAX,
    ensures
        elapsed(Moment { nanos: (a + d) as u64 }, Moment { nanos: a }) == d,
        elapsed(Moment { nanos: a }, Moment { nanos: (a + d) as u64 }) == 0,
{
}

/// A time of some seconds has passed once the clock shows that many thousand million
/// nanoseconds more. A time of no seconds has always passed.
pub proof fn seconds_pass_with_the_clock(now: Moment, since: Moment, secs: u64)
    ensures
        lasted(now, since, secs) <==> due_after(now, since, secs) || secs == 0,
{
}

/// What has lasted for some time still has at a later moment, and has lasted for any
/// shorter time too.
pub proof fn time_only_adds_up(now: Moment, later: Moment, since: Moment, secs: u64, fewer: u64)
    requires
        lasted(now, since, secs),
        now.nanos <= later.nanos,
        fewer <= secs,
    ensures
        lasted(later, since, secs),
        lasted(now, since, fewer),
{
}

/// The seconds shown are the full seconds between two moments.
pub proof fn shown_seconds_are_full_seconds(now: Moment, since: Moment)
    ensures
        full_secs(whole_secs(now, since), now, since),
{
}

/// Two moments that are moved together are as far apart as before.
pub proof fn only_the_distance_counts(now: Moment, since: Moment, shift: u64, secs: u64)
    requires
        now.nanos + shift <= u64::MAX,
        since.nanos + shift <= u64::MAX,
    ensures
        ({
            let moved_now = Moment { nanos: (now.nanos + shift) as u64 };
            let moved_since = Moment { nanos: (since.nanos + shift) as u64 };
            &&& lasted(moved_now, moved_since, secs) == lasted(now, since, secs)
            &&& whole_secs(moved_now, moved_since) == whole_secs(now, since)
        }),
{
}

} // verus!
