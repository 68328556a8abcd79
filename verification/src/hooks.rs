//! The allocation hook adapter: the callback pair the host allocator invokes
//! on allocate and reallocate, filtering irrelevant events before they reach
//! the sampler.
//!
//! Only user-level allocations are sampled: while no execution context is
//! active (process or request startup, shutdown, internal engine operations)
//! every event is ignored. A reallocation that did not move its block is
//! treated as zero new allocation. Deallocations are intentionally untracked:
//! no free callback is ever installed.

use vstd::prelude::*;
use crate::sampler::{step_fires, step_next, AllocationProfilingStats, SampleEvent};

verus! {

/// Which callbacks an observer registration installs in the host allocator.
#[derive(Clone, Copy, Debug, PartialEq, Eq)]
pub struct ObserverCallbacks {
    /// An allocate callback is installed.
    pub tracks_allocations: bool,
    /// A free callback is installed.
    pub tracks_frees: bool,
    /// A reallocate callback is installed.
    pub tracks_reallocations: bool,
    /// A destructor for the registration itself is installed.
    pub has_destructor: bool,
}

/// The callback set this profiler registers: allocate and reallocate are
/// observed, frees never are, and the registration can be destroyed.
pub fn ddog_allocation_profiling_register_observer() -> (callbacks: ObserverCallbacks)
    ensures
        callbacks.tracks_allocations,
        !callbacks.tracks_frees,
        callbacks.tracks_reallocations,
        callbacks.has_destructor,
{
    ObserverCallbacks {
        tracks_allocations: true,
        tracks_frees: false,
        tracks_reallocations: true,
        has_destructor: true,
    }
}

/// The allocate callback. When an execution context is active, the allocation
/// feeds the calling thread's sampler; otherwise nothing is observed and the
/// sampler is untouched. `next_interval` is the distribution draw the sampler
/// uses if it fires.
pub fn alloc_profiling_malloc(
    stats: &mut AllocationProfilingStats,
    has_execution_context: bool,
    len: usize,
    next_interval: i64,
) -> (sample: Option<SampleEvent>)
    requires
        old(stats).wf(),
        len as int <= i64::MAX,
        0 <= next_interval,
    ensures
        final(stats).wf(),
        !has_execution_context ==> sample is None && *final(stats) == *old(stats),
        has_execution_context ==> {
            &&& final(stats).countdown() == step_next(
                old(stats).countdown(),
                len as int,
                next_interval as int,
            )
            &&& (sample is Some <==> step_fires(old(stats).countdown(), len as int))
        },
        sample matches Some(ev) ==> ev.weight == 1 && ev.size_bytes == len,
{
    if !has_execution_context {
        return None;
    }

    stats.track_allocation(len, next_interval)
}

/// The reallocate callback. Besides the execution-context filter, a
/// reallocation whose result address equals its previous address resized in
/// place: it is treated as zero new allocation and never produces a sample,
/// for any size.
pub fn alloc_profiling_realloc(
    stats: &mut AllocationProfilingStats,
    has_execution_context: bool,
    prev_ptr: usize,
    len: usize,
    result_ptr: usize,
    next_interval: i64,
) -> (sample: Option<SampleEvent>)
    requires
        old(stats).wf(),
        len as int <= i64::MAX,
        0 <= next_interval,
    ensures
        final(stats).wf(),
        !has_execution_context || result_ptr == prev_ptr ==> sample is None && *final(stats)
            == *old(stats),
        has_execution_context && result_ptr != prev_ptr ==> {
            &&& final(stats).countdown() == step_next(
                old(stats).countdown(),
                len as int,
                next_interval as int,
            )
            &&& (sample is Some <==> step_fires(old(stats).countdown(), len as int))
        },
        sample matches Some(ev) ==> ev.weight == 1 && ev.size_bytes == len,
{
    if !has_execution_context || result_ptr == prev_ptr {
        return None;
    }

    stats.track_allocation(len, next_interval)
}

} // verus!
