//! Heap-allocation counters. Builds without the heap profiler record no
//! allocation figures: every snapshot is empty and the guard does nothing.

use vstd::prelude::*;

verus! {

/// Guard that keeps the heap profiler alive; a unit value when no profiler
/// is linked in.
pub struct ProfilerGuard;

/// Allocation figures at one moment, each absent when not measured.
#[derive(Clone, Copy, Debug, PartialEq, Eq, Structural)]
pub struct AllocationSnapshot {
    pub allocs_count: Option<u64>,
    pub allocs_bytes: Option<u64>,
    pub allocs_max_bytes: Option<u64>,
}

impl Default for AllocationSnapshot {
    fn default() -> (s: Self)
        ensures
            s.allocs_count is None,
            s.allocs_bytes is None,
            s.allocs_max_bytes is None,
    {
        AllocationSnapshot { allocs_count: None, allocs_bytes: None, allocs_max_bytes: None }
    }
}

/// Starts the profiler for the life of the returned guard.
pub fn init_profiler() -> (g: ProfilerGuard) {
    ProfilerGuard
}

/// Current allocation figures; without a profiler nothing is measured.
pub fn snapshot() -> (s: AllocationSnapshot)
    ensures
        s.allocs_count is None,
        s.allocs_bytes is None,
        s.allocs_max_bytes is None,
{
    AllocationSnapshot::default()
}

/// Growth of a counter between two readings, floored at zero; absent unless
/// both readings are present.
pub open spec fn spec_opt_delta(start: Option<u64>, end: Option<u64>) -> Option<u64> {
    match (start, end) {
        (Some(s), Some(e)) => Some(if e >= s { (e - s) as u64 } else { 0 }),
        _ => None,
    }
}

fn opt_delta(start: Option<u64>, end: Option<u64>) -> (r: Option<u64>)
    ensures
        r == spec_opt_delta(start, end),
{
    match (start, end) {
        (Some(s), Some(e)) => Some(e.saturating_sub(s)),
        _ => None,
    }
}

/// What was allocated between two snapshots: counts and bytes as
/// differences, the high-water mark as read at the end.
pub fn delta(start: AllocationSnapshot, end: AllocationSnapshot) -> (d: AllocationSnapshot)
    ensures
        d.allocs_count == spec_opt_delta(start.allocs_count, end.allocs_count),
        d.allocs_bytes == spec_opt_delta(start.allocs_bytes, end.allocs_bytes),
        d.allocs_max_bytes == end.allocs_max_bytes,
{
    AllocationSnapshot {
        allocs_count: opt_delta(start.allocs_count, end.allocs_count),
        allocs_bytes: opt_delta(start.allocs_bytes, end.allocs_bytes),
        allocs_max_bytes: end.allocs_max_bytes,
    }
}

} // verus!
