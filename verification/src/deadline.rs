//! Deadline arithmetic of one pacing interval, on monotonic clock readings
//! in nanoseconds.

use vstd::prelude::*;

verus! {

/// Time left until the deadline `start + interval`, seen at clock reading
/// `now`: the difference where the deadline is still ahead, zero where it
/// has passed. A difference that a `u64` cannot hold (the clock ran
/// backwards past `start`) is held at `u64::MAX`.
pub open spec fn remaining(start: u64, interval: u64, now: u64) -> int {
    let left: int = start + interval - now;
    if left <= 0 {
        0
    } else if left > u64::MAX {
        u64::MAX as int
    } else {
        left
    }
}

/// Computes how long to suspend after a write phase that began at `start`
/// and was over at `now`, so that the next interval begins at the deadline.
pub fn remaining_sleep(start: u64, interval: u64, now: u64) -> (nanos: u64)
    ensures
        nanos == remaining(start, interval, now),
{
    let deadline: u128 = start as u128 + interval as u128;
    let seen: u128 = now as u128;
    if deadline <= seen {
        0
    } else {
        let left: u128 = deadline - seen;
        if left > u64::MAX as u128 {
            u64::MAX
        } else {
            left as u64
        }
    }
}

/// A write phase shorter than the interval is followed by a sleep of what is
/// left of the interval: the interval less the time the writes took.
pub proof fn lemma_sleep_completes_interval(start: u64, interval: u64, now: u64)
    requires
        start <= now,
        now - start < interval,
    ensures
        remaining(start, interval, now) == interval - (now - start),
        0 < remaining(start, interval, now) <= interval,
{
}

/// A write phase that took the whole interval or longer is followed by no
/// sleep at all. The time to sleep is never negative.
pub proof fn lemma_overrun_skips_sleep(start: u64, interval: u64, now: u64)
    ensures
        0 <= remaining(start, interval, now) <= u64::MAX,
        now - start >= interval ==> remaining(start, interval, now) == 0,
{
}

} // verus!
