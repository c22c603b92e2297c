use vstd::prelude::*;
use vstd::relations::{sorted_by, total_ordering};

verus! {

/// The order in which latency samples are ranked.
pub open spec fn sample_leq() -> spec_fn(u64, u64) -> bool {
    |a: u64, b: u64| a <= b
}

/// Every sample is no larger than any later one.
pub open spec fn ascending(s: Seq<u64>) -> bool {
    forall|i: int, j: int| 0 <= i <= j < s.len() ==> s[i] <= s[j]
}

/// The samples in ascending order: the one ordering of their multiset that is ascending.
pub open spec fn sorted_samples(s: Seq<u64>) -> Seq<u64> {
    s.sort_by(sample_leq())
}

/// The sum of the samples, as a mathematical integer.
pub open spec fn sample_sum(s: Seq<u64>) -> int
    decreases s.len(),
{
    if s.len() == 0 {
        0
    } else {
        sample_sum(s.drop_last()) + s.last()
    }
}

/// The element that a percentile selects in a sorted set of `len` samples:
/// index `(len - 1) * p / 100`, rounding down.
pub open spec fn percentile_index(len: int, p: int) -> int {
    (len - 1) * p / 100
}

/// The `p`-th percentile of ascending samples.
pub open spec fn percentile_of(sorted: Seq<u64>, p: int) -> u64 {
    sorted[percentile_index(sorted.len() as int, p)]
}

/// Sample sets this small keep the index computation of the 50th, 95th and
/// 99th percentiles within `usize`.
pub open spec fn within_percentile_limit(len: int) -> bool {
    (len - 1) * 99 <= usize::MAX
}

/// Returns the sample at the `pct`-th position of an ascending sample set,
/// using the nearest-rank-below rule `(len - 1) * pct / 100`.
pub fn percentile(sorted: &[u64], pct: usize) -> (value: u64)
    requires
        sorted@.len() > 0,
        (sorted@.len() - 1) * pct <= usize::MAX,
        percentile_index(sorted@.len() as int, pct as int) < sorted@.len(),
    ensures
        value == percentile_of(sorted@, pct as int),
{
    let index = (sorted.len() - 1) * pct / 100;
    sorted[index]
}

/// Latency statistics of one benchmark run, in nanoseconds.
#[derive(Clone, Copy, Debug, PartialEq, Eq)]
pub struct LatencySummary {
    pub count: usize,
    pub total: u128,
    pub p50: u64,
    pub p95: u64,
    pub p99: u64,
    pub max: u64,
}

/// The statistics of ascending, non-empty samples.
pub open spec fn summary_of_sorted(sorted: Seq<u64>) -> LatencySummary {
    LatencySummary {
        count: sorted.len() as usize,
        total: sample_sum(sorted) as u128,
        p50: percentile_of(sorted, 50),
        p95: percentile_of(sorted, 95),
        p99: percentile_of(sorted, 99),
        max: sorted.last(),
    }
}

/// Whether a run reports throughput in bytes per second: it moved bytes and
/// its samples took time. For a non-empty run the mean latency is positive
/// exactly when the total is, so this is the test `bytes > 0 && mean > 0`.
pub fn reports_throughput(bytes: usize, summary: &LatencySummary) -> (reported: bool)
    ensures
        reported == (bytes > 0 && summary.total > 0),
{
    bytes > 0 && summary.total > 0
}

/// The 50th, 95th and 99th percentiles of a set of samples.
#[derive(Clone, Copy, Debug, PartialEq, Eq)]
pub struct DistributionSummary {
    pub p50: u64,
    pub p95: u64,
    pub p99: u64,
}

/// The percentiles of ascending, non-empty samples.
pub open spec fn distribution_of_sorted(sorted: Seq<u64>) -> DistributionSummary {
    DistributionSummary {
        p50: percentile_of(sorted, 50),
        p95: percentile_of(sorted, 95),
        p99: percentile_of(sorted, 99),
    }
}

/// `sample_leq` is a total order.
pub proof fn lemma_sample_leq_total()
    ensures
        total_ordering(sample_leq()),
{
}

/// `sorted_samples` is ascending and holds the same samples as its input.
pub proof fn lemma_sorted_samples(s: Seq<u64>)
    ensures
        ascending(sorted_samples(s)),
        sorted_samples(s).to_multiset() == s.to_multiset(),
        sorted_samples(s).len() == s.len(),
{
    lemma_sample_leq_total();
    s.lemma_sort_by_ensures(sample_leq());
    let t = sorted_samples(s);
    assert forall|i: int, j: int| 0 <= i <= j < t.len() implies t[i] <= t[j] by {
        if i < j {
            assert(sorted_by(t, sample_leq()));
            assert((sample_leq())(t[i], t[j]));
        }
    }
    t.to_multiset_ensures();
    s.to_multiset_ensures();
}

/// An ascending reordering of `s` is `sorted_samples(s)`.
pub proof fn lemma_ascending_is_sorted_samples(t: Seq<u64>, s: Seq<u64>)
    requires
        ascending(t),
        t.to_multiset() == s.to_multiset(),
    ensures
        t == sorted_samples(s),
{
    lemma_sorted_samples(s);
    lemma_sample_leq_total();
    assert(sorted_by(t, sample_leq()));
    assert(sorted_by(sorted_samples(s), sample_leq()));
    vstd::seq_lib::lemma_sorted_unique(t, sorted_samples(s), sample_leq());
}

/// Sorts the samples in place, ascending.
///
/// Calls `slice::sort_unstable` of std, whose documentation promises that the
/// slice comes out sorted and holds the same elements: that is what the
/// contract claims.
#[verifier::external_body]
fn sort_ascending(samples: &mut Vec<u64>)
    ensures
        ascending(final(samples)@),
        final(samples)@.to_multiset() == old(samples)@.to_multiset(),
{
    samples.sort_unstable();
}

/// Sorts the samples and computes their count, total, 50th, 95th and 99th
/// percentiles and maximum; the sorted samples come back too.
pub fn latency_summary(samples: Vec<u64>) -> (result: (Vec<u64>, LatencySummary))
    requires
        samples@.len() > 0,
        within_percentile_limit(samples@.len() as int),
    ensures
        result.0@ == sorted_samples(samples@),
        result.1 == summary_of_sorted(sorted_samples(samples@)),
        result.1.total as int == sample_sum(sorted_samples(samples@)),
        result.1.count == samples@.len(),
        result.1.p50 == result.0@[(samples@.len() - 1) * 50 / 100],
        result.1.p95 == result.0@[(samples@.len() - 1) * 95 / 100],
        result.1.p99 == result.0@[(samples@.len() - 1) * 99 / 100],
        result.1.max == result.0@[samples@.len() - 1],
{
    let mut sorted = samples;
    sort_ascending(&mut sorted);
    proof {
        lemma_ascending_is_sorted_samples(sorted@, samples@);
        sorted@.to_multiset_ensures();
        samples@.to_multiset_ensures();
    }
    let count = sorted.len();
    let mut total: u128 = 0;
    let mut i: usize = 0;
    while i < count
        invariant
            count == sorted@.len(),
            count > 0,
            within_percentile_limit(count as int),
            i <= count,
            total == sample_sum(sorted@.take(i as int)),
            total <= i * (u64::MAX as int),
        decreases count - i,
    {
        proof {
            assert(sorted@.take(i + 1).drop_last() =~= sorted@.take(i as int));
            assert((i + 1) * (u64::MAX as int) <= 0xffff_ffff_ffff_ffffu64 * (u64::MAX as int))
                by (nonlinear_arith)
                requires
                    i + 1 <= 0xffff_ffff_ffff_ffffu64,
            ;
        }
        total = total + sorted[i] as u128;
        i = i + 1;
    }
    proof {
        assert(sorted@.take(count as int) =~= sorted@);
    }
    let p50 = percentile(sorted.as_slice(), 50);
    let p95 = percentile(sorted.as_slice(), 95);
    let p99 = percentile(sorted.as_slice(), 99);
    let max = sorted[count - 1];
    let summary = LatencySummary { count, total, p50, p95, p99, max };
    (sorted, summary)
}

/// Computes the 50th, 95th and 99th percentiles of the samples, which are
/// left as they are.
pub fn distribution_summary(samples: &[u64]) -> (summary: DistributionSummary)
    requires
        samples@.len() > 0,
        within_percentile_limit(samples@.len() as int),
    ensures
        summary == distribution_of_sorted(sorted_samples(samples@)),
        summary.p50 == sorted_samples(samples@)[(samples@.len() - 1) * 50 / 100],
        summary.p95 == sorted_samples(samples@)[(samples@.len() - 1) * 95 / 100],
        summary.p99 == sorted_samples(samples@)[(samples@.len() - 1) * 99 / 100],
{
    let mut sorted: Vec<u64> = Vec::with_capacity(samples.len());
    let mut i: usize = 0;
    while i < samples.len()
        invariant
            i <= samples@.len(),
            sorted@ == samples@.take(i as int),
        decreases samples@.len() - i,
    {
        sorted.push(samples[i]);
        i = i + 1;
        proof {
            assert(sorted@ =~= samples@.take(i as int));
        }
    }
    proof {
        assert(sorted@ =~= samples@);
    }
    sort_ascending(&mut sorted);
    proof {
        lemma_ascending_is_sorted_samples(sorted@, samples@);
        sorted@.to_multiset_ensures();
        samples@.to_multiset_ensures();
    }
    DistributionSummary {
        p50: percentile(sorted.as_slice(), 50),
        p95: percentile(sorted.as_slice(), 95),
        p99: percentile(sorted.as_slice(), 99),
    }
}

/// Percentiles of ascending samples grow with the percentile: for
/// `p <= q <= 100` the `p`-th percentile is no larger than the `q`-th, and the
/// 0th and 100th percentiles are the smallest and the largest sample.
pub proof fn law_percentile_monotone(sorted: Seq<u64>, p: int, q: int)
    requires
        ascending(sorted),
        sorted.len() > 0,
        0 <= p <= q <= 100,
    ensures
        0 <= percentile_index(sorted.len() as int, p) <= percentile_index(sorted.len() as int, q)
            < sorted.len(),
        sorted[0] <= percentile_of(sorted, p) <= percentile_of(sorted, q) <= sorted.last(),
        percentile_of(sorted, 0) == sorted[0],
        percentile_of(sorted, 100) == sorted.last(),
{
    let n = sorted.len() as int;
    assert(0 <= (n - 1) * p / 100 <= (n - 1) * q / 100 <= n - 1) by (nonlinear_arith)
        requires
            n >= 1,
            0 <= p <= q <= 100,
    ;
    assert((n - 1) * 100 / 100 == n - 1) by (nonlinear_arith);
    assert((n - 1) * 0 / 100 == 0) by (nonlinear_arith);
}

/// The samples never sum to more than their number times `u64::MAX`.
pub proof fn lemma_sample_sum_bound(s: Seq<u64>)
    ensures
        0 <= sample_sum(s) <= s.len() * (u64::MAX as int),
    decreases s.len(),
{
    if s.len() > 0 {
        lemma_sample_sum_bound(s.drop_last());
    }
}

/// The total of any set of samples that a `Vec` can hold fits in a `u128`, so
/// the total that `latency_summary` reports is the exact sum of the samples.
pub proof fn law_sample_sum_fits(s: Seq<u64>)
    requires
        s.len() <= usize::MAX,
    ensures
        0 <= sample_sum(s) <= u128::MAX,
        summary_of_sorted(s).total as int == sample_sum(s),
{
    lemma_sample_sum_bound(s);
    let n = s.len() as int;
    assert(n * (u64::MAX as int) <= 0xffff_ffff_ffff_ffffu64 * (u64::MAX as int)) by (nonlinear_arith)
        requires
            0 <= n <= 0xffff_ffff_ffff_ffffu64,
    ;
}

/// Each statistic is the sample at its own rank: of `n` ascending samples the
/// 50th, 95th and 99th percentiles are those at positions `(n-1)*50/100`,
/// `(n-1)*95/100` and `(n-1)*99/100`, the maximum is the last, the count is
/// `n`; the three percentiles are distinct ranks as soon as the positions
/// differ, so one is never reported in place of another.
pub proof fn law_summary_fields(sorted: Seq<u64>)
    requires
        sorted.len() > 0,
        within_percentile_limit(sorted.len() as int),
    ensures
        summary_of_sorted(sorted).count == sorted.len(),
        summary_of_sorted(sorted).p50 == sorted[(sorted.len() - 1) * 50 / 100],
        summary_of_sorted(sorted).p95 == sorted[(sorted.len() - 1) * 95 / 100],
        summary_of_sorted(sorted).p99 == sorted[(sorted.len() - 1) * 99 / 100],
        summary_of_sorted(sorted).max == sorted[sorted.len() - 1],
        distribution_of_sorted(sorted).p50 == sorted[(sorted.len() - 1) * 50 / 100],
        distribution_of_sorted(sorted).p95 == sorted[(sorted.len() - 1) * 95 / 100],
        distribution_of_sorted(sorted).p99 == sorted[(sorted.len() - 1) * 99 / 100],
{
}

/// The statistics of a run are ordered: the 50th percentile is at most the
/// 95th, which is at most the 99th, which is at most the maximum; the maximum
/// is one of the samples and no sample exceeds it; the count is the number of
/// samples (for sample sets within the percentile limit).
pub proof fn law_summary_ordered(samples: Seq<u64>)
    requires
        samples.len() > 0,
        within_percentile_limit(samples.len() as int),
    ensures
        ({
            let s = summary_of_sorted(sorted_samples(samples));
            &&& s.p50 <= s.p95 <= s.p99 <= s.max
            &&& samples.contains(s.max)
            &&& forall|i: int| 0 <= i < samples.len() ==> samples[i] <= s.max
            &&& s.count as int == samples.len()
        }),
        ({
            let d = distribution_of_sorted(sorted_samples(samples));
            d.p50 <= d.p95 <= d.p99
        }),
{
    lemma_sorted_samples(samples);
    let t = sorted_samples(samples);
    law_percentile_monotone(t, 50, 95);
    law_percentile_monotone(t, 95, 99);
    law_percentile_monotone(t, 99, 100);
    t.to_multiset_ensures();
    samples.to_multiset_ensures();
    assert(t.contains(t.last()));
    assert(t.to_multiset().count(t.last()) > 0);
    assert(samples.to_multiset().count(t.last()) > 0);
    assert(samples.contains(t.last()));
    assert forall|i: int| 0 <= i < samples.len() implies samples[i] <= t.last() by {
        assert(samples.contains(samples[i]));
        assert(samples.to_multiset().count(samples[i]) > 0);
        assert(t.to_multiset().count(samples[i]) > 0);
        assert(t.contains(samples[i]));
        let k = choose|k: int| 0 <= k < t.len() && t[k] == samples[i];
        assert(t[k] <= t[t.len() - 1]);
    }
}

/// The statistics do not depend on the order in which the samples were
/// collected: two sample sets with the same elements, counted with
/// multiplicity, have the same sorted samples, latency summary and percentiles.
pub proof fn law_summary_order_independent(a: Seq<u64>, b: Seq<u64>)
    requires
        a.to_multiset() == b.to_multiset(),
    ensures
        sorted_samples(a) == sorted_samples(b),
        summary_of_sorted(sorted_samples(a)) == summary_of_sorted(sorted_samples(b)),
        distribution_of_sorted(sorted_samples(a)) == distribution_of_sorted(sorted_samples(b)),
{
    lemma_sorted_samples(a);
    lemma_ascending_is_sorted_samples(sorted_samples(a), b);
}

} // verus!
