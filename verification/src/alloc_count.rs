use vstd::prelude::*;
use vstd::arithmetic::div_mod::{lemma_add_mod_noop, lemma_mod_add_multiples_vanish, lemma_small_mod};

verus! {

/// What the counting allocator has seen since the counters were last reset:
/// the number of allocations and reallocations, and the bytes they asked for.
/// Both counts wrap around on overflow, as atomic additions do.
#[derive(Clone, Copy, Debug, PartialEq, Eq, Structural)]
pub struct AllocationCounters {
    pub allocation_count: u64,
    pub allocated_bytes: u64,
}

/// Counters that have seen nothing.
pub open spec fn zero_counters() -> AllocationCounters {
    AllocationCounters { allocation_count: 0, allocated_bytes: 0 }
}

/// The counters after one more allocation or reallocation of `bytes` bytes.
pub open spec fn after_allocation(counters: AllocationCounters, bytes: usize) -> AllocationCounters {
    AllocationCounters {
        allocation_count: counters.allocation_count.wrapping_add(1),
        allocated_bytes: counters.allocated_bytes.wrapping_add(bytes as u64),
    }
}

/// The counters of a window that starts with a reset and then sees
/// allocations of the given sizes, in order.
pub open spec fn window_counters(sizes: Seq<usize>) -> AllocationCounters
    decreases sizes.len(),
{
    if sizes.len() == 0 {
        zero_counters()
    } else {
        after_allocation(window_counters(sizes.drop_last()), sizes.last())
    }
}

/// The total of the sizes.
pub open spec fn size_sum(sizes: Seq<usize>) -> nat
    decreases sizes.len(),
{
    if sizes.len() == 0 {
        0
    } else {
        size_sum(sizes.drop_last()) + sizes.last() as nat
    }
}

/// The number of values a `u64` holds.
pub open spec fn u64_modulus() -> nat {
    0x1_0000_0000_0000_0000
}

impl AllocationCounters {
    /// Counters that have seen nothing.
    pub fn new() -> (counters: Self)
        ensures
            counters == zero_counters(),
    {
        AllocationCounters { allocation_count: 0, allocated_bytes: 0 }
    }

    /// Counts one allocation or reallocation of `bytes` bytes.
    pub fn record_allocation(&mut self, bytes: usize)
        ensures
            *final(self) == after_allocation(*old(self), bytes),
    {
        self.allocation_count = self.allocation_count.wrapping_add(1);
        self.allocated_bytes = self.allocated_bytes.wrapping_add(bytes as u64);
    }
}

/// Starts a new measurement window: both counts go back to zero.
pub fn reset_allocation_counters(counters: &mut AllocationCounters)
    ensures
        *final(counters) == zero_counters(),
{
    counters.allocation_count = 0;
    counters.allocated_bytes = 0;
}

/// The number of allocations and the bytes allocated in the current window.
pub fn allocation_counters(counters: &AllocationCounters) -> (counts: (u64, u64))
    ensures
        counts == (counters.allocation_count, counters.allocated_bytes),
{
    (counters.allocation_count, counters.allocated_bytes)
}

/// Adding `y` with wrap-around to a count that holds `a` modulo 2^64 gives
/// `a + y` modulo 2^64.
proof fn lemma_wrapping_add_mod(a: nat, y: nat)
    requires
        y < u64_modulus(),
    ensures
        ((a % u64_modulus()) as u64).wrapping_add(y as u64) == ((a + y) % u64_modulus()) as u64,
{
    let m = u64_modulus();
    let x = (a % m) as int;
    lemma_small_mod(y, m);
    lemma_add_mod_noop(a as int, y as int, m as int);
    if x + y < m {
        lemma_small_mod((x + y) as nat, m);
    } else {
        lemma_mod_add_multiples_vanish(x + y - m, m as int);
        lemma_small_mod((x + y - m) as nat, m);
    }
}

/// A window that starts with a reset and then sees allocations of sizes
/// `b_1, ..., b_k` reads `(k, b_1 + ... + b_k)`, both modulo 2^64.
pub proof fn law_window_counters(sizes: Seq<usize>)
    ensures
        window_counters(sizes).allocation_count == sizes.len() % u64_modulus(),
        window_counters(sizes).allocated_bytes == size_sum(sizes) % u64_modulus(),
    decreases sizes.len(),
{
    let m = u64_modulus();
    if sizes.len() == 0 {
    } else {
        let before = sizes.drop_last();
        law_window_counters(before);
        lemma_small_mod(1, m);
        lemma_wrapping_add_mod(before.len() as nat, 1);
        lemma_wrapping_add_mod(size_sum(before), sizes.last() as nat);
    }
}

} // verus!
