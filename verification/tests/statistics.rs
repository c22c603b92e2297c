use blob_bench::stats::{distribution_summary, latency_summary, percentile, DistributionSummary};

#[test]
fn percentile_uses_nearest_rank_below() {
    let sorted = [10u64, 20, 30, 40, 50, 60, 70, 80, 90, 100];
    assert_eq!(percentile(&sorted, 50), 50);
    assert_eq!(percentile(&sorted, 95), 90);
    assert_eq!(percentile(&sorted, 99), 90);
    assert_eq!(percentile(&sorted, 100), 100);
    assert_eq!(percentile(&sorted, 0), 10);
}

#[test]
fn percentile_of_single_sample() {
    assert_eq!(percentile(&[7u64], 99), 7);
}

#[test]
fn latency_summary_sorts_and_summarizes() {
    let (sorted, summary) = latency_summary(vec![5, 1, 4, 2, 3]);
    assert_eq!(sorted, vec![1, 2, 3, 4, 5]);
    assert_eq!(summary.count, 5);
    assert_eq!(summary.total, 15);
    assert_eq!(summary.p50, 3);
    assert_eq!(summary.p95, 4);
    assert_eq!(summary.p99, 4);
    assert_eq!(summary.max, 5);
}

#[test]
fn latency_summary_total_does_not_overflow() {
    let (_, summary) = latency_summary(vec![u64::MAX, u64::MAX, u64::MAX]);
    assert_eq!(summary.total, 3 * (u64::MAX as u128));
    assert_eq!(summary.max, u64::MAX);
}

#[test]
fn summary_ignores_sample_order() {
    let (a_sorted, a) = latency_summary(vec![9, 3, 3, 7, 1, 8]);
    let (b_sorted, b) = latency_summary(vec![1, 3, 7, 8, 9, 3]);
    assert_eq!(a_sorted, b_sorted);
    assert_eq!(a, b);
    assert!(a.p50 <= a.p95 && a.p95 <= a.p99 && a.p99 <= a.max);
}

#[test]
fn distribution_summary_leaves_samples_unsorted() {
    let samples = vec![300u64, 100, 200];
    let summary = distribution_summary(&samples);
    assert_eq!(samples, vec![300, 100, 200]);
    assert_eq!(summary, DistributionSummary { p50: 200, p95: 200, p99: 200 });
}

#[test]
fn distribution_summary_of_hundred_samples() {
    let samples: Vec<u64> = (1..=100).rev().collect();
    let summary = distribution_summary(&samples);
    assert_eq!(summary.p50, 50);
    assert_eq!(summary.p95, 95);
    assert_eq!(summary.p99, 99);
}
