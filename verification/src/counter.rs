//! A running total of bytes moved during a measurement phase.

use vstd::prelude::*;

verus! {

/// Accumulator of bytes transferred during one phase of the test.
///
/// Workers only ever add to the total, so an observer that samples the
/// counter at arbitrary moments sees a non-decreasing sequence of values.
pub struct ByteCounter {
    total: u64,
}

impl ByteCounter {
    /// What the counter currently holds.
    pub closed spec fn spec_total(&self) -> u64 {
        self.total
    }

    /// A fresh counter starts at zero.
    pub fn new() -> (c: ByteCounter)
        ensures
            c.spec_total() == 0,
    {
        ByteCounter { total: 0 }
    }

    /// Read the running total.
    pub fn total(&self) -> (t: u64)
        ensures
            t == self.spec_total(),
    {
        self.total
    }

    /// Record `n` more bytes. The total only ever grows.
    pub fn add(&mut self, n: u64)
        requires
            old(self).spec_total() + n <= u64::MAX,
        ensures
            final(self).spec_total() == old(self).spec_total() + n,
            final(self).spec_total() >= old(self).spec_total(),
    {
        self.total = self.total + n;
    }
}

/// The sum of a sequence of recorded byte counts.
pub open spec fn spec_sum(chunks: Seq<u64>) -> int
    decreases chunks.len(),
{
    if chunks.len() == 0 {
        0
    } else {
        spec_sum(chunks.drop_last()) + chunks.last()
    }
}

/// A counter that only ever has byte counts added to it is monotonically
/// non-decreasing: whatever chunks a phase records, a reader that samples
/// the counter after `i` chunks and again after `j >= i` chunks sees the
/// second value at least as large as the first.
pub proof fn lemma_counter_monotonic(start: u64, chunks: Seq<u64>, i: int, j: int)
    requires
        0 <= i <= j <= chunks.len(),
    ensures
        start + spec_sum(chunks.take(i)) <= start + spec_sum(chunks.take(j)),
    decreases j - i,
{
    if i < j {
        lemma_counter_monotonic(start, chunks, i, j - 1);
        assert(chunks.take(j).drop_last() =~= chunks.take(j - 1));
        assert(chunks.take(j).last() == chunks[j - 1]);
    }
}

} // verus!
