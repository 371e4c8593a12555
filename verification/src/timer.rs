//! Rolling average of recent frame durations.
//!
//! A fixed-capacity ring of duration samples in nanoseconds, with a running
//! total so the average is O(1). Once the ring is full, each new sample
//! overwrites the oldest. Timestamps themselves are taken by the caller;
//! the timer only accounts the durations.

use vstd::prelude::*;

verus! {

/// Largest ring capacity.
pub const TIMER_CAPACITY_MAX: usize = 1048576;

/// Largest accepted duration sample (2^40 ns, about 18 minutes).
pub const SAMPLE_MAX: u64 = 1099511627776;

/// Sum of a sequence of duration samples.
pub open spec fn sum_of(s: Seq<u64>) -> int
    decreases s.len(),
{
    if s.len() == 0 {
        0
    } else {
        sum_of(s.drop_last()) + s.last()
    }
}

/// A sum of samples is non-negative.
pub proof fn lemma_sum_nonneg(s: Seq<u64>)
    ensures
        sum_of(s) >= 0,
    decreases s.len(),
{
    if s.len() > 0 {
        lemma_sum_nonneg(s.drop_last());
    }
}

/// A sum of bounded samples is bounded by count times the bound.
pub proof fn lemma_sum_bounded(s: Seq<u64>)
    requires
        forall|i: int| 0 <= i < s.len() ==> s[i] <= SAMPLE_MAX,
    ensures
        0 <= sum_of(s) <= s.len() * SAMPLE_MAX,
    decreases s.len(),
{
    if s.len() == 0 {
    } else {
        lemma_sum_bounded(s.drop_last());
        assert((s.len() - 1) * SAMPLE_MAX + SAMPLE_MAX == s.len() * SAMPLE_MAX)
            by (nonlinear_arith);
    }
}

/// Every sample is at most the whole sum.
pub proof fn lemma_sum_elem(s: Seq<u64>, i: int)
    requires
        0 <= i < s.len(),
    ensures
        sum_of(s) >= s[i],
    decreases s.len(),
{
    if i == s.len() - 1 {
        lemma_sum_nonneg(s.drop_last());
    } else {
        lemma_sum_elem(s.drop_last(), i);
    }
}

/// Appending a sample adds it to the sum.
pub proof fn lemma_sum_push(s: Seq<u64>, v: u64)
    ensures
        sum_of(s.push(v)) == sum_of(s) + v,
{
    assert(s.push(v).drop_last() =~= s);
}

/// Replacing a sample adjusts the sum by the difference.
pub proof fn lemma_sum_update(s: Seq<u64>, i: int, v: u64)
    requires
        0 <= i < s.len(),
    ensures
        sum_of(s.update(i, v)) == sum_of(s) - s[i] + v,
    decreases s.len(),
{
    if i == s.len() - 1 {
        assert(s.update(i, v).drop_last() =~= s.drop_last());
    } else {
        assert(s.update(i, v).drop_last() =~= s.drop_last().update(i, v));
        lemma_sum_update(s.drop_last(), i, v);
    }
}

/// The frame timer: a ring of recent duration samples.
pub struct FrameTimer {
    samples: Vec<u64>,
    capacity: usize,
    next: usize,
    total: u64,
}

impl FrameTimer {
    /// The ring is consistent: within capacity, the write cursor points at
    /// the next slot, and the running total equals the sum of the samples.
    pub closed spec fn wf(self) -> bool {
        &&& 1 <= self.capacity <= TIMER_CAPACITY_MAX
        &&& self.samples@.len() <= self.capacity
        &&& (self.samples@.len() < self.capacity ==> self.next == self.samples@.len())
        &&& (self.samples@.len() == self.capacity ==> self.next < self.capacity)
        &&& self.total == sum_of(self.samples@)
        &&& forall|i: int| 0 <= i < self.samples@.len() ==> self.samples@[i] <= SAMPLE_MAX
    }

    /// The recorded samples, oldest data still present included.
    pub closed spec fn view(self) -> Seq<u64> {
        self.samples@
    }

    /// The ring's capacity.
    pub closed spec fn cap(self) -> int {
        self.capacity as int
    }

    /// The slot the next overwrite lands on once the ring is full.
    pub closed spec fn cursor(self) -> int {
        self.next as int
    }

    /// An empty timer remembering at most `capacity` samples.
    pub fn new(capacity: usize) -> (t: FrameTimer)
        requires
            1 <= capacity <= TIMER_CAPACITY_MAX,
        ensures
            t.wf(),
            t.view() == Seq::<u64>::empty(),
            t.cap() == capacity,
    {
        let t = FrameTimer { samples: Vec::new(), capacity, next: 0, total: 0 };
        proof {
            assert(t.samples@ =~= Seq::<u64>::empty());
        }
        t
    }

    /// Account one frame duration, overwriting the oldest sample once the
    /// ring is full.
    pub fn record(&mut self, nanos: u64)
        requires
            old(self).wf(),
            nanos <= SAMPLE_MAX,
        ensures
            final(self).wf(),
            final(self).cap() == old(self).cap(),
            old(self).view().len() < old(self).cap() ==> final(self).view() == old(
                self,
            ).view().push(nanos),
            old(self).view().len() == old(self).cap() ==> final(self).view() == old(
                self,
            ).view().update(old(self).cursor(), nanos),
    {
        if self.samples.len() < self.capacity {
            proof {
                lemma_sum_bounded(self.samples@);
                lemma_sum_push(self.samples@, nanos);
                assert(self.samples@.len() * SAMPLE_MAX <= 1048576int * 1099511627776)
                    by (nonlinear_arith)
                    requires
                        0 <= self.samples@.len() <= 1048576,
                ;
            }
            self.total = self.total + nanos;
            self.samples.push(nanos);
            self.next = if self.samples.len() == self.capacity {
                0
            } else {
                self.samples.len()
            };
        } else {
            let evicted: u64 = self.samples[self.next];
            proof {
                lemma_sum_elem(self.samples@, self.next as int);
                lemma_sum_bounded(self.samples@);
                lemma_sum_update(self.samples@, self.next as int, nanos);
                assert(self.samples@.len() * SAMPLE_MAX <= 1048576int * 1099511627776)
                    by (nonlinear_arith)
                    requires
                        0 <= self.samples@.len() <= 1048576,
                ;
            }
            let reduced: u64 = self.total - evicted;
            self.total = reduced + nanos;
            self.samples.set(self.next, nanos);
            self.next = if self.next + 1 == self.capacity {
                0
            } else {
                self.next + 1
            };
        }
    }

    /// How many samples are currently recorded.
    pub fn len(&self) -> (n: usize)
        ensures
            n == self.view().len(),
    {
        self.samples.len()
    }

    /// The arithmetic mean of the recorded samples, in nanoseconds,
    /// rounded down; zero while no sample is recorded.
    pub fn average(&self) -> (avg: u64)
        requires
            self.wf(),
        ensures
            self.view().len() == 0 ==> avg == 0,
            self.view().len() > 0 ==> avg == sum_of(self.view()) / (self.view().len() as int),
    {
        if self.samples.len() == 0 {
            return 0;
        }
        proof {
            lemma_sum_nonneg(self.samples@);
        }
        self.total / (self.samples.len() as u64)
    }
}

} // verus!
