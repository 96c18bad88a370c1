//! Clock-time arithmetic. All times are nanoseconds.

use vstd::prelude::*;

verus! {

/// One second, in nanoseconds.
pub const SECOND: u64 = 1_000_000_000;

/// The time limit of a leaky queue: the configured minimum latency, but
/// never less than one second.
pub open spec fn spec_queue_max_size_time(min_latency: u64) -> u64 {
    if min_latency >= SECOND {
        min_latency
    } else {
        SECOND
    }
}

/// Computes the time limit of a leaky queue.
pub fn queue_max_size_time(min_latency: u64) -> (limit: u64)
    ensures
        limit == spec_queue_max_size_time(min_latency),
{
    if min_latency >= SECOND {
        min_latency
    } else {
        SECOND
    }
}

/// The position inside a segment at which a blocked pad is taken to stand:
/// the timestamp of the first buffer or gap, moved up to the segment's start
/// if it lies before it, and to the segment's stop if it lies at or after it.
/// A missing timestamp stays missing, and a missing bound does not move it.
pub open spec fn spec_segment_position(
    pts: Option<u64>,
    start: Option<u64>,
    stop: Option<u64>,
) -> Option<u64> {
    if pts is Some && start is Some && pts->0 < start->0 {
        start
    } else if pts is Some && stop is Some && pts->0 >= stop->0 {
        stop
    } else {
        pts
    }
}

/// Computes the position inside a segment at which a blocked pad stands.
pub fn segment_position(
    pts: Option<u64>,
    start: Option<u64>,
    stop: Option<u64>,
) -> (position: Option<u64>)
    ensures
        position == spec_segment_position(pts, start, stop),
        pts is None ==> position is None,
        pts is Some ==> position is Some,
        pts is Some && start is Some && stop is Some && start->0 <= stop->0 ==> start->0
            <= position->0 <= stop->0,
{
    match pts {
        None => None,
        Some(p) => {
            match start {
                Some(s) => {
                    if p < s {
                        return Some(s);
                    }
                },
                None => {},
            }
            match stop {
                Some(e) => {
                    if p >= e {
                        return Some(e);
                    }
                },
                None => {},
            }
            Some(p)
        },
    }
}

/// The offset that moves a pad blocked at running time `target` to the
/// pipeline's running time `current`: their difference, positive where the
/// pad is behind. A difference outside the range of `i64` wraps around, as
/// two's complement subtraction does.
pub open spec fn spec_pad_offset(current: u64, target: u64) -> int {
    let d = current - target;
    if d > i64::MAX {
        d - 0x1_0000_0000_0000_0000
    } else if d < i64::MIN {
        d + 0x1_0000_0000_0000_0000
    } else {
        d
    }
}

/// Computes the offset that moves a pad blocked at `target` to `current`.
pub fn pad_offset(current: u64, target: u64) -> (offset: i64)
    ensures
        offset == spec_pad_offset(current, target),
        i64::MIN <= current - target <= i64::MAX ==> offset == current - target,
{
    if current >= target {
        let d: u64 = current - target;
        if d <= 0x7fff_ffff_ffff_ffff {
            d as i64
        } else {
            let e: u64 = d - 0x8000_0000_0000_0000;
            (e as i64) + i64::MIN
        }
    } else {
        let d: u64 = target - current;
        if d < 0x8000_0000_0000_0000 {
            -(d as i64)
        } else if d == 0x8000_0000_0000_0000 {
            i64::MIN
        } else {
            let e: u64 = u64::MAX - d;
            (e as i64) + 1
        }
    }
}

/// The time that has passed at `now` since `then`; nothing if the clock
/// reads less than it did then.
pub open spec fn spec_elapsed(now: u64, then: u64) -> u64 {
    if now >= then {
        (now - then) as u64
    } else {
        0
    }
}

/// Computes the time that has passed at `now` since `then`.
pub fn elapsed(now: u64, then: u64) -> (passed: u64)
    ensures
        passed == spec_elapsed(now, then),
{
    if now >= then {
        now - then
    } else {
        0
    }
}

/// What is left of a time budget after `elapsed` has passed, never below
/// zero.
pub open spec fn spec_remaining(budget: u64, elapsed: u64) -> u64 {
    if budget >= elapsed {
        (budget - elapsed) as u64
    } else {
        0
    }
}

/// Computes what is left of a time budget.
pub fn remaining(budget: u64, elapsed: u64) -> (left: u64)
    ensures
        left == spec_remaining(budget, elapsed),
{
    if budget >= elapsed {
        budget - elapsed
    } else {
        0
    }
}

} // verus!
