use alloc_profiling::sampler::{AllocationProfilingStats, ALLOCATION_PROFILING_INTERVAL};

#[test]
fn sampling_interval_is_two_mebibytes() {
    assert_eq!(ALLOCATION_PROFILING_INTERVAL, 2_097_152);
}

#[test]
fn no_fire_while_countdown_positive() {
    let mut stats = AllocationProfilingStats::new(1000);
    let sample = stats.track_allocation(999, 5555);
    assert!(sample.is_none());
    assert_eq!(stats.next_sample_bytes(), 1);
}

#[test]
fn fires_when_countdown_reaches_zero() {
    let mut stats = AllocationProfilingStats::new(1000);
    let sample = stats.track_allocation(1000, 5555);
    let event = sample.expect("an exhausted countdown must fire");
    assert_eq!(event.weight, 1);
    assert_eq!(event.size_bytes, 1000);
    assert_eq!(stats.next_sample_bytes(), 5555);
}

#[test]
fn oversized_allocation_yields_exactly_one_sample() {
    let mut stats = AllocationProfilingStats::new(1000);
    // Far larger than the countdown: still one event, not one per interval.
    let sample = stats.track_allocation(100_000_000, 2_097_152);
    let event = sample.expect("the oversized allocation must fire");
    assert_eq!(event.weight, 1);
    assert_eq!(event.size_bytes, 100_000_000);
    assert_eq!(stats.next_sample_bytes(), 2_097_152);
}

#[test]
fn countdown_is_replaced_not_decayed_on_firing() {
    let mut stats = AllocationProfilingStats::new(10);
    let sample = stats.track_allocation(500, 777);
    assert!(sample.is_some());
    // The new countdown is the injected draw, not any function of the deficit.
    assert_eq!(stats.next_sample_bytes(), 777);
}

#[test]
fn zero_gap_consecutive_firings_are_accepted() {
    let mut stats = AllocationProfilingStats::new(100);
    // First firing redraws a countdown of zero...
    let first = stats.track_allocation(100, 0);
    assert!(first.is_some());
    assert_eq!(stats.next_sample_bytes(), 0);
    // ...so the very next allocation fires again, even one of a single byte.
    let second = stats.track_allocation(1, 4242);
    assert!(second.is_some());
    assert_eq!(stats.next_sample_bytes(), 4242);
}

#[test]
fn scenario_ten_sequential_megabyte_allocations() {
    // Sampling mean 2,097,152 bytes; ten events of 1,048,576 bytes each on
    // one thread, with a deterministic source that always draws the mean.
    let mean: i64 = 2_097_152;
    let len: usize = 1_048_576;
    let mut stats = AllocationProfilingStats::new(mean);
    let mut trigger_positions = Vec::new();
    for call in 1..=10 {
        if stats.track_allocation(len, mean).is_some() {
            trigger_positions.push(call);
            // After each trigger the countdown is strictly replaced by the
            // injected draw.
            assert_eq!(stats.next_sample_bytes(), mean);
        }
    }
    assert_eq!(trigger_positions, vec![2, 4, 6, 8, 10]);
}
