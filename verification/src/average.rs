use vstd::arithmetic::div_mod::{lemma_div_is_ordered, lemma_div_multiples_vanish};
use vstd::prelude::*;

use std::collections::VecDeque;

verus! {

broadcast use vstd::std_specs::vecdeque::group_vec_dequeue_axioms;

/// The sum of a sequence of samples, as an unbounded integer.
pub open spec fn sum_seq(s: Seq<u64>) -> int
    decreases s.len(),
{
    if s.len() == 0 {
        0
    } else {
        sum_seq(s.drop_last()) + s.last()
    }
}

/// A bounded window over the most recent samples of a stream. Once the
/// window holds `max_history_size` samples, each new sample pushes the
/// oldest one out.
pub struct SlidingWindowAverage<T> {
    history_buffer: VecDeque<T>,
    max_history_size: usize,
}

impl<T> SlidingWindowAverage<T> {
    /// The samples currently in the window, oldest first.
    pub closed spec fn history(&self) -> Seq<T> {
        self.history_buffer@
    }

    /// The window length bound fixed at construction.
    pub closed spec fn window_size(&self) -> nat {
        self.max_history_size as nat
    }

    /// The window is never empty: it starts with one sample and every
    /// operation keeps at least one.
    pub open spec fn wf(&self) -> bool {
        self.history().len() >= 1
    }

    /// A window seeded with one initial sample.
    pub fn new(initial_value: T, max_history_size: usize) -> (r: Self)
        ensures
            r.history() =~= seq![initial_value],
            r.window_size() == max_history_size,
            r.wf(),
    {
        let mut history_buffer = VecDeque::with_capacity(max_history_size);
        history_buffer.push_back(initial_value);
        SlidingWindowAverage { history_buffer, max_history_size }
    }

    /// Append a sample; once the window is full, the oldest sample leaves
    /// to make room.
    pub fn submit_sample(&mut self, sample: T)
        ensures
            final(self).window_size() == old(self).window_size(),
            old(self).history().len() >= old(self).window_size() && old(self).history().len() > 0
                ==> final(self).history() =~= old(self).history().skip(1).push(sample),
            old(self).history().len() < old(self).window_size() || old(self).history().len() == 0
                ==> final(self).history() =~= old(self).history().push(sample),
            old(self).wf() ==> final(self).wf(),
    {
        if self.history_buffer.len() >= self.max_history_size {
            self.history_buffer.pop_front();
        }
        self.history_buffer.push_back(sample);
    }

    /// Read access to the samples in the window, oldest first.
    pub fn samples(&self) -> (v: &VecDeque<T>)
        ensures
            v@ == self.history(),
    {
        &self.history_buffer
    }

    /// Keep only the newest `count` samples, or all of them if the window
    /// holds no more than `count`. Callers hand in a non-zero count.
    pub fn retain(&mut self, count: usize)
        requires
            count >= 1,
        ensures
            final(self).window_size() == old(self).window_size(),
            count < old(self).history().len() ==> final(self).history() =~= old(
                self,
            ).history().skip(old(self).history().len() - count),
            count >= old(self).history().len() ==> final(self).history() =~= old(self).history(),
            old(self).wf() ==> final(self).wf(),
    {
        let ghost orig = self.history_buffer@;
        let len: usize = self.history_buffer.len();
        let excess: usize = if count < len {
            len - count
        } else {
            0
        };
        let mut i: usize = 0;
        while i < excess
            invariant
                excess <= orig.len(),
                i <= excess,
                self.history_buffer@ =~= orig.skip(i as int),
                self.max_history_size == old(self).max_history_size,
            decreases excess - i,
        {
            self.history_buffer.pop_front();
            proof {
                assert(orig.skip(i as int).subrange(1, orig.skip(i as int).len() as int)
                    =~= orig.skip(i as int + 1));
            }
            i += 1;
        }
    }
}

impl SlidingWindowAverage<u64> {
    /// The integer average (truncating division) of the samples currently
    /// in the window.
    pub fn get_average(&self) -> (avg: u64)
        requires
            self.wf(),
        ensures
            avg == sum_seq(self.history()) / self.history().len() as int,
    {
        let len: usize = self.history_buffer.len();
        let mut total: u128 = 0;
        let mut i: usize = 0;
        while i < len
            invariant
                self.wf(),
                len == self.history().len(),
                i <= len,
                total == sum_seq(self.history().take(i as int)),
                total <= i as int * (u64::MAX as int),
            decreases len - i,
        {
            let x: u64 = self.history_buffer[i];
            proof {
                let h = self.history();
                assert(h.take(i as int + 1).drop_last() =~= h.take(i as int));
                assert(h.take(i as int + 1).last() == h[i as int]);
                assert((i as int + 1) * (u64::MAX as int) == i as int * (u64::MAX as int)
                    + u64::MAX as int) by (nonlinear_arith);
                assert(i as int * (u64::MAX as int) <= 0x1_0000_0000_0000_0000 * (
                u64::MAX as int)) by (nonlinear_arith)
                    requires
                        0 <= i as int <= 0x1_0000_0000_0000_0000,
                ;
            }
            total = total + x as u128;
            i += 1;
        }
        proof {
            let h = self.history();
            assert(h.take(len as int) =~= h);
            lemma_div_multiples_vanish(u64::MAX as int, len as int);
            lemma_div_is_ordered(total as int, len as int * (u64::MAX as int), len as int);
            assert(sum_seq(h) >= 0) by {
                lemma_sum_seq_bounds(h);
            }
        }
        (total / len as u128) as u64
    }
}

/// The sum of a sequence of samples is non-negative and at most the length
/// times the largest sample value.
pub proof fn lemma_sum_seq_bounds(s: Seq<u64>)
    ensures
        0 <= sum_seq(s) <= s.len() * (u64::MAX as int),
    decreases s.len(),
{
    if s.len() == 0 {
    } else {
        lemma_sum_seq_bounds(s.drop_last());
        assert(s.len() * (u64::MAX as int) == (s.len() - 1) * (u64::MAX as int)
            + u64::MAX as int) by (nonlinear_arith);
    }
}

} // verus!
