//! Per-thread sampling state: a countdown of bytes until the next sample.
//!
//! Every observed allocation size is subtracted from the countdown. When the
//! countdown reaches zero or below, exactly one sample fires and the countdown
//! is replaced by a fresh draw from the sampling distribution. The draw itself
//! comes from the caller: the distribution is a Poisson with mean
//! [`ALLOCATION_PROFILING_INTERVAL`], computed by the unverified shell (its
//! implementation is floating-point), and tests may inject deterministic draws.

use vstd::prelude::*;

verus! {

/// Expected number of allocated bytes between two recorded samples (2 MiB).
pub const ALLOCATION_PROFILING_INTERVAL: u64 = 1024 * 2048;

/// One recorded allocation sample. At most one is produced per hook
/// invocation; the execution context travels with it in the unverified shell.
#[derive(Clone, Copy, Debug, PartialEq, Eq)]
pub struct SampleEvent {
    /// Inverse-probability scaling factor; fixed at 1 per emitted event.
    pub weight: i64,
    /// Size of the allocation that triggered the sample.
    pub size_bytes: usize,
}

/// Whether a countdown of `next_sample` bytes fires on an allocation of
/// `len` bytes: it fires exactly when the decremented countdown is no
/// longer positive.
pub open spec fn step_fires(next_sample: int, len: int) -> bool {
    next_sample - len <= 0
}

/// The countdown after observing an allocation of `len` bytes: decremented
/// while it stays positive, replaced by the fresh draw `draw` on a firing.
pub open spec fn step_next(next_sample: int, len: int, draw: int) -> int {
    if step_fires(next_sample, len) {
        draw
    } else {
        next_sample - len
    }
}

/// Per-thread sampler state.
pub struct AllocationProfilingStats {
    /// Number of bytes until the next sample collection.
    next_sample: i64,
}

impl AllocationProfilingStats {
    /// The countdown is always a non-negative distribution draw, decremented
    /// by allocations only while it remains positive.
    pub closed spec fn wf(&self) -> bool {
        0 <= self.next_sample
    }

    /// The current countdown value, as a mathematical integer.
    pub closed spec fn countdown(&self) -> int {
        self.next_sample as int
    }

    /// Creates sampler state whose countdown is `initial_interval`, an
    /// initial draw from the sampling distribution.
    pub fn new(initial_interval: i64) -> (stats: AllocationProfilingStats)
        requires
            0 <= initial_interval,
        ensures
            stats.wf(),
            stats.countdown() == initial_interval,
    {
        AllocationProfilingStats { next_sample: initial_interval }
    }

    /// The current countdown value.
    pub fn next_sample_bytes(&self) -> (r: i64)
        ensures
            r == self.countdown(),
    {
        self.next_sample
    }

    /// Observes one allocation of `len` bytes. Decrements the countdown; if
    /// it remains positive, nothing fires. Otherwise the countdown is
    /// replaced by `next_interval` (a fresh draw from the sampling
    /// distribution) and exactly one sample carrying `len` with weight 1 is
    /// returned. A single allocation far larger than the countdown still
    /// yields exactly one sample.
    pub fn track_allocation(&mut self, len: usize, next_interval: i64) -> (sample: Option<
        SampleEvent,
    >)
        requires
            old(self).wf(),
            len as int <= i64::MAX,
            0 <= next_interval,
        ensures
            final(self).wf(),
            final(self).countdown() == step_next(old(self).countdown(), len as int, next_interval as int),
            sample is Some <==> step_fires(old(self).countdown(), len as int),
            sample matches Some(ev) ==> ev.weight == 1 && ev.size_bytes == len,
    {
        self.next_sample = self.next_sample - len as i64;

        if self.next_sample > 0 {
            return None;
        }

        self.next_sample = next_interval;

        Some(SampleEvent { weight: 1, size_bytes: len })
    }
}

/// Total of a sequence of allocation sizes.
pub open spec fn total(lens: Seq<int>) -> int
    decreases lens.len(),
{
    if lens.len() == 0 {
        0
    } else {
        lens[0] + total(lens.drop_first())
    }
}

/// Whether none of a run of allocations fires, starting from countdown `c`.
pub open spec fn run_without_firing(c: int, lens: Seq<int>) -> bool
    decreases lens.len(),
{
    lens.len() == 0 || (!step_fires(c, lens[0]) && run_without_firing(
        c - lens[0],
        lens.drop_first(),
    ))
}

/// The countdown left by a run of allocations none of which fires.
pub open spec fn countdown_after_run(c: int, lens: Seq<int>) -> int
    decreases lens.len(),
{
    if lens.len() == 0 {
        c
    } else {
        countdown_after_run(c - lens[0], lens.drop_first())
    }
}

/// A run of non-firing allocations consumes exactly its total.
pub proof fn lemma_run_consumes_total(c: int, lens: Seq<int>)
    ensures
        countdown_after_run(c, lens) == c - total(lens),
    decreases lens.len(),
{
    if lens.len() > 0 {
        lemma_run_consumes_total(c - lens[0], lens.drop_first());
    }
}

/// While no sample fires, the bytes allocated since the countdown was drawn
/// stay strictly below the draw.
pub proof fn lemma_no_firing_below_draw(c: int, lens: Seq<int>)
    requires
        run_without_firing(c, lens),
        lens.len() > 0,
    ensures
        total(lens) < c,
    decreases lens.len(),
{
    if lens.drop_first().len() > 0 {
        lemma_no_firing_below_draw(c - lens[0], lens.drop_first());
    } else {
        assert(total(lens.drop_first()) == 0);
    }
}

/// A sample fires only once the bytes allocated since the countdown was
/// drawn reach at least the draw. Together with [`lemma_no_firing_below_draw`]
/// this spaces samples exactly one draw of allocated volume apart, which is
/// why, for allocations totalling `N * s` bytes under a sampling mean `M`,
/// the sample count comes out near `N * s / M`: the expectation itself is a
/// statistical statement, checked by repeated trial rather than proof.
pub proof fn lemma_draw_consumed_at_firing(c: int, lens: Seq<int>, len: int)
    requires
        run_without_firing(c, lens),
        step_fires(countdown_after_run(c, lens), len),
    ensures
        total(lens) + len >= c,
{
    lemma_run_consumes_total(c, lens);
}

/// A sample never fires while the countdown remains positive after the
/// decrement.
pub proof fn lemma_no_fire_while_positive(next_sample: int, len: int)
    requires
        next_sample - len > 0,
    ensures
        !step_fires(next_sample, len),
{
}

/// Two consecutive firings with no allocation gap are possible: whenever a
/// firing redraws a countdown no larger than the very next allocation, that
/// next allocation fires as well. The redraw is an arbitrary draw,
/// independent of the state that preceded the first firing.
pub proof fn lemma_consecutive_firings_possible(
    next_sample: int,
    len1: int,
    draw1: int,
    len2: int,
)
    requires
        step_fires(next_sample, len1),
        draw1 <= len2,
    ensures
        step_fires(step_next(next_sample, len1, draw1), len2),
{
}

} // verus!
