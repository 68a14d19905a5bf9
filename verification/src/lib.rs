//! A fixed-capacity moving-average accumulator.
//!
//! `MovingAverage` keeps a bounded window of the most recently added samples
//! together with a running sum, so the mean of the window can be read in O(1)
//! without re-summing. Adding a sample when the window is full evicts the
//! oldest sample (FIFO) and subtracts it from the running sum before the new
//! sample is appended and added to the sum.

use vstd::prelude::*;
use std::collections::VecDeque;

verus! {

/// The exact sum of a sequence of samples, as an unbounded integer.
pub open spec fn sum_of(s: Seq<i64>) -> int
    decreases s.len(),
{
    if s.len() == 0 {
        0
    } else {
        s[0] as int + sum_of(s.skip(1))
    }
}

/// Whether an unbounded integer fits in an `i64`.
pub open spec fn in_i64(x: int) -> bool {
    i64::MIN <= x <= i64::MAX
}

/// Appending a sample adds it to the sum.
proof fn lemma_sum_of_push(s: Seq<i64>, v: i64)
    ensures
        sum_of(s.push(v)) == sum_of(s) + v,
    decreases s.len(),
{
    if s.len() == 0 {
        assert(s.push(v).skip(1) =~= Seq::<i64>::empty());
        assert(sum_of(Seq::<i64>::empty()) == 0);
    } else {
        assert(s.push(v).skip(1) =~= s.skip(1).push(v));
        lemma_sum_of_push(s.skip(1), v);
        assert(sum_of(s.push(v)) == s[0] as int + sum_of(s.skip(1).push(v)));
    }
}

/// The window after one sample is added: appended at the back, with the
/// oldest sample evicted from the front when the window was already full.
/// With a capacity of zero the window stays empty.
pub open spec fn spec_add(w: Seq<i64>, capacity: nat, value: i64) -> Seq<i64> {
    if capacity == 0 {
        w
    } else if w.len() < capacity {
        w.push(value)
    } else {
        w.skip(1).push(value)
    }
}

/// The additions and subtractions that one `add` call performs stay within
/// the range of `i64`.
pub open spec fn add_fits(w: Seq<i64>, capacity: nat, value: i64) -> bool {
    if capacity == 0 {
        true
    } else if w.len() < capacity {
        in_i64(sum_of(w) + value)
    } else {
        &&& in_i64(sum_of(w) - w[0])
        &&& in_i64(sum_of(w) - w[0] + value)
    }
}

/// The window contents after the samples of `samples` are added in order to a
/// freshly constructed accumulator of the given capacity: `new` starts from
/// the empty window, and each `add` steps it by `spec_add`.
pub open spec fn window_after(capacity: nat, samples: Seq<i64>) -> Seq<i64>
    decreases samples.len(),
{
    if samples.len() == 0 {
        Seq::<i64>::empty()
    } else {
        spec_add(window_after(capacity, samples.drop_last()), capacity, samples.last())
    }
}

/// Eviction is first-in first-out: after any sequence of additions the window
/// holds exactly the most recently added samples, at most `capacity` of them,
/// in the order they were added. In particular the oldest retained sample is
/// always the earliest-added one among those retained.
pub proof fn lemma_fifo_eviction(capacity: nat, samples: Seq<i64>)
    ensures
        window_after(capacity, samples) == if samples.len() <= capacity {
            samples
        } else {
            samples.skip(samples.len() - capacity)
        },
    decreases samples.len(),
{
    if samples.len() == 0 {
        assert(samples =~= Seq::<i64>::empty());
    } else {
        let prev = samples.drop_last();
        let v = samples.last();
        lemma_fifo_eviction(capacity, prev);
        assert(samples =~= prev.push(v));
        if capacity == 0 {
            assert(window_after(capacity, samples) =~= samples.skip(samples.len() as int));
        } else if prev.len() < capacity {
            assert(window_after(capacity, samples) == prev.push(v));
        } else {
            let k = prev.len() - capacity;
            assert(window_after(capacity, prev) =~= prev.skip(k));
            assert(prev.skip(k).skip(1).push(v) =~= samples.skip(k + 1));
        }
    }
}

/// A window of the most recently added samples, bounded by a fixed capacity,
/// with a running sum that always equals the exact sum of the window.
///
/// A capacity of zero is permitted: adding a sample then leaves the window
/// empty and the running sum at zero (a safe no-op).
pub struct MovingAverage {
    window: VecDeque<i64>,
    running_sum: i64,
    capacity: usize,
}

impl View for MovingAverage {
    type V = Seq<i64>;

    closed spec fn view(&self) -> Seq<i64> {
        self.window@
    }
}

impl MovingAverage {
    /// The fixed capacity supplied at construction.
    pub closed spec fn spec_capacity(&self) -> nat {
        self.capacity as nat
    }

    /// Well-formedness: the window never outgrows the capacity, and the
    /// running sum equals the exact sum of the window's contents.
    pub closed spec fn wf(&self) -> bool {
        &&& self@.len() <= self.spec_capacity()
        &&& self.running_sum as int == sum_of(self@)
    }

    /// Creates an empty accumulator with the given fixed capacity.
    pub fn new(capacity: usize) -> (r: Self)
        ensures
            r.wf(),
            r@ == Seq::<i64>::empty(),
            r.spec_capacity() == capacity,
    {
        MovingAverage {
            window: VecDeque::with_capacity(capacity),
            running_sum: 0,
            capacity: capacity,
        }
    }

    /// Adds a sample: it becomes the newest element of the window, and if the
    /// window was already full the oldest element is evicted and subtracted
    /// from the running sum. With a capacity of zero the call leaves the
    /// accumulator unchanged.
    pub fn add(&mut self, value: i64)
        requires
            old(self).wf(),
            add_fits(old(self)@, old(self).spec_capacity(), value),
        ensures
            final(self).wf(),
            final(self).spec_capacity() == old(self).spec_capacity(),
            final(self)@ == spec_add(old(self)@, old(self).spec_capacity(), value),
    {
        if self.capacity == 0 {
            return;
        }
        if self.window.len() == self.capacity {
            let front = self.window.pop_front().unwrap();
            proof {
                assert(old(self)@.skip(1) =~= old(self)@.subrange(1, old(self)@.len() as int));
            }
            self.running_sum = self.running_sum - front;
        }
        proof {
            lemma_sum_of_push(self.window@, value);
        }
        self.window.push_back(value);
        self.running_sum = self.running_sum + value;
    }

    /// The number of samples currently retained.
    pub fn len(&self) -> (n: usize)
        ensures
            n == self@.len(),
    {
        self.window.len()
    }

    /// The fixed capacity supplied at construction.
    pub fn capacity(&self) -> (c: usize)
        ensures
            c == self.spec_capacity(),
    {
        self.capacity
    }

    /// Bounded length: a well-formed accumulator never retains more samples
    /// than its capacity.
    pub proof fn lemma_len_bounded(&self)
        requires
            self.wf(),
        ensures
            self@.len() <= self.spec_capacity(),
    {
    }

    /// The running sum of the retained samples; by well-formedness it equals
    /// the exact sum of the window's contents.
    pub fn sum(&self) -> (s: i64)
        requires
            self.wf(),
        ensures
            s as int == sum_of(self@),
    {
        self.running_sum
    }
}

} // verus!
