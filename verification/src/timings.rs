//! Time a worker spends waiting, split by what it waited for.

use vstd::prelude::*;

verus! {

/// Accumulated waiting time of a connection or of a whole worker, in
/// nanoseconds.
#[derive(Debug, Clone, Copy, PartialEq, Eq, Structural)]
pub struct RuntimeTimings {
    /// The total runtime duration waiting on the producer.
    pub producer_wait_runtime: u64,
    /// The total runtime duration waiting on the requests to execute.
    pub execute_wait_runtime: u64,
}

/// The component-wise sum of a list of timings.
pub open spec fn total_timings(parts: Seq<RuntimeTimings>) -> (int, int)
    decreases parts.len(),
{
    if parts.len() == 0 {
        (0, 0)
    } else {
        let rest = total_timings(parts.drop_last());
        (
            rest.0 + parts.last().producer_wait_runtime,
            rest.1 + parts.last().execute_wait_runtime,
        )
    }
}

impl RuntimeTimings {
    /// Timings with nothing recorded yet.
    pub fn new() -> (timings: Self)
        ensures
            timings.producer_wait_runtime == 0,
            timings.execute_wait_runtime == 0,
    {
        RuntimeTimings { producer_wait_runtime: 0, execute_wait_runtime: 0 }
    }

    /// Whether the two sums of `self` and `rhs` can be held.
    pub open spec fn can_add(self, rhs: Self) -> bool {
        &&& self.producer_wait_runtime + rhs.producer_wait_runtime <= u64::MAX
        &&& self.execute_wait_runtime + rhs.execute_wait_runtime <= u64::MAX
    }

    /// The component-wise sum of two timings.
    pub fn add(self, rhs: Self) -> (sum: Self)
        requires
            self.can_add(rhs),
        ensures
            sum.producer_wait_runtime == self.producer_wait_runtime + rhs.producer_wait_runtime,
            sum.execute_wait_runtime == self.execute_wait_runtime + rhs.execute_wait_runtime,
    {
        RuntimeTimings {
            producer_wait_runtime: self.producer_wait_runtime + rhs.producer_wait_runtime,
            execute_wait_runtime: self.execute_wait_runtime + rhs.execute_wait_runtime,
        }
    }

    /// Adds `rhs` to `self` component by component.
    pub fn add_assign(&mut self, rhs: Self)
        requires
            old(self).can_add(rhs),
        ensures
            final(self).producer_wait_runtime == old(self).producer_wait_runtime
                + rhs.producer_wait_runtime,
            final(self).execute_wait_runtime == old(self).execute_wait_runtime
                + rhs.execute_wait_runtime,
    {
        self.producer_wait_runtime = self.producer_wait_runtime + rhs.producer_wait_runtime;
        self.execute_wait_runtime = self.execute_wait_runtime + rhs.execute_wait_runtime;
    }

    /// The component-wise sum of all the timings.
    pub fn from_iter(parts: &Vec<RuntimeTimings>) -> (total: Self)
        requires
            total_timings(parts@).0 <= u64::MAX,
            total_timings(parts@).1 <= u64::MAX,
        ensures
            total.producer_wait_runtime == total_timings(parts@).0,
            total.execute_wait_runtime == total_timings(parts@).1,
    {
        let mut total = RuntimeTimings::new();
        let mut i: usize = 0;
        assert(parts@.take(0) =~= Seq::<RuntimeTimings>::empty());
        while i < parts.len()
            invariant
                i <= parts.len(),
                total.producer_wait_runtime == total_timings(parts@.take(i as int)).0,
                total.execute_wait_runtime == total_timings(parts@.take(i as int)).1,
                total_timings(parts@).0 <= u64::MAX,
                total_timings(parts@).1 <= u64::MAX,
            decreases parts.len() - i,
        {
            proof {
                assert(parts@.take(i + 1).drop_last() =~= parts@.take(i as int));
                lemma_total_timings_grow(parts@, i + 1);
            }
            total.add_assign(parts[i]);
            i += 1;
        }
        assert(parts@.take(parts.len() as int) =~= parts@);
        total
    }
}

/// The totals of the first timings of a list are at most the totals of the
/// whole list.
pub proof fn lemma_total_timings_grow(parts: Seq<RuntimeTimings>, count: int)
    requires
        0 <= count <= parts.len(),
    ensures
        0 <= total_timings(parts.take(count)).0 <= total_timings(parts).0,
        0 <= total_timings(parts.take(count)).1 <= total_timings(parts).1,
    decreases parts.len() - count,
{
    if count == parts.len() {
        assert(parts.take(count) =~= parts);
        lemma_total_timings_nonnegative(parts);
    } else {
        lemma_total_timings_grow(parts, count + 1);
        assert(parts.take(count + 1).drop_last() =~= parts.take(count));
        lemma_total_timings_nonnegative(parts.take(count));
    }
}

proof fn lemma_total_timings_nonnegative(parts: Seq<RuntimeTimings>)
    ensures
        0 <= total_timings(parts).0,
        0 <= total_timings(parts).1,
    decreases parts.len(),
{
    if parts.len() > 0 {
        lemma_total_timings_nonnegative(parts.drop_last());
    }
}

impl Default for RuntimeTimings {
    fn default() -> (timings: Self)
        ensures
            timings.producer_wait_runtime == 0,
            timings.execute_wait_runtime == 0,
    {
        RuntimeTimings::new()
    }
}

} // verus!
