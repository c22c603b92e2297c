use blob_bench::alloc_count::{allocation_counters, reset_allocation_counters, AllocationCounters};

#[test]
fn counters_accumulate_and_reset() {
    let mut counters = AllocationCounters::new();
    assert_eq!(allocation_counters(&counters), (0, 0));
    counters.record_allocation(100);
    counters.record_allocation(28);
    assert_eq!(allocation_counters(&counters), (2, 128));
    reset_allocation_counters(&mut counters);
    assert_eq!(allocation_counters(&counters), (0, 0));
}

#[test]
fn counters_wrap_like_atomics() {
    let mut counters = AllocationCounters { allocation_count: u64::MAX, allocated_bytes: u64::MAX - 1 };
    counters.record_allocation(3);
    assert_eq!(allocation_counters(&counters), (0, 1));
}

#[test]
fn window_reads_count_and_sum_of_sizes() {
    let mut counters = AllocationCounters { allocation_count: 17, allocated_bytes: 99 };
    reset_allocation_counters(&mut counters);
    for size in [8usize, 16, 4096, 1] {
        counters.record_allocation(size);
    }
    assert_eq!(allocation_counters(&counters), (4, 8 + 16 + 4096 + 1));
    assert_eq!(allocation_counters(&counters), (4, 4121));
}
