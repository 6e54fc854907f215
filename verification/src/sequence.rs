//! The deterministic, infinitely repeating ordering of timed segments.

use vstd::prelude::*;
use vstd::arithmetic::div_mod::{
    lemma_add_mod_noop, lemma_mod_add_multiples_vanish, lemma_mod_division_less_than_divisor,
    lemma_mod_self_0, lemma_small_mod,
};
use crate::pomo::{Pomo, PomoSegment};

verus! {

/// The segment at position `j` inside one period, for `0 <= j < 2 * n_pomos`:
/// work and short breaks alternate, and the last slot is the long break.
pub open spec fn cycle_segment_spec(c: Pomo, j: int) -> PomoSegment {
    if j == c.period() - 1 {
        PomoSegment::LongBreak(c.long_break)
    } else if j % 2 == 0 {
        PomoSegment::Work(c.time)
    } else {
        PomoSegment::ShortBreak(c.break_)
    }
}

/// The segment at any non-negative index of the infinite cyclic sequence.
pub open spec fn segment_at_spec(c: Pomo, i: int) -> PomoSegment {
    cycle_segment_spec(c, i % c.period())
}

/// Yields the segment at any index of the cyclic sequence in O(1), by
/// modular indexing into one precomputed period, and materializes finite
/// windows of upcoming segments.
#[derive(Debug)]
pub struct SegmentSequencer {
    pub config: Pomo,
    pub cycle: Vec<PomoSegment>,
}

impl SegmentSequencer {
    /// The stored cycle is exactly one period of the sequence.
    pub open spec fn wf(self) -> bool {
        &&& self.config.valid()
        &&& self.cycle@.len() == self.config.period()
        &&& forall|j: int|
            0 <= j < self.cycle@.len() ==> self.cycle@[j] == cycle_segment_spec(self.config, j)
    }

    pub fn new(config: &Pomo) -> (s: SegmentSequencer)
        requires
            config.valid(),
        ensures
            s.wf(),
            s.config == *config,
    {
        let period: u64 = 2 * config.n_pomos;
        let mut cycle: Vec<PomoSegment> = Vec::new();
        let mut j: u64 = 0;
        while j < period
            invariant
                config.valid(),
                period == 2 * config.n_pomos,
                j <= period,
                cycle@.len() == j,
                forall|k: int| 0 <= k < j ==> cycle@[k] == cycle_segment_spec(*config, k),
            decreases period - j,
        {
            let seg = if j == period - 1 {
                PomoSegment::LongBreak(config.long_break)
            } else if j % 2 == 0 {
                PomoSegment::Work(config.time)
            } else {
                PomoSegment::ShortBreak(config.break_)
            };
            cycle.push(seg);
            j = j + 1;
        }
        SegmentSequencer { config: *config, cycle }
    }

    /// Number of segments after which the sequence repeats.
    pub fn period_len(&self) -> (p: u64)
        requires
            self.wf(),
        ensures
            p == self.config.period(),
    {
        2 * self.config.n_pomos
    }

    /// The segment at index `i` of the infinite sequence.
    pub fn segment_at(&self, i: u64) -> (s: PomoSegment)
        requires
            self.wf(),
        ensures
            s == segment_at_spec(self.config, i as int),
    {
        let p: usize = self.cycle.len();
        let j: u64 = i % (p as u64);
        proof {
            lemma_mod_division_less_than_divisor(i as int, p as int);
        }
        self.cycle[j as usize]
    }

    /// The window of `count` upcoming segments starting at index `start`,
    /// wrapping around the period.
    pub fn window(&self, start: u64, count: usize) -> (w: Vec<PomoSegment>)
        requires
            self.wf(),
        ensures
            w@.len() == count,
            forall|k: int| 0 <= k < count ==> w@[k] == segment_at_spec(self.config, start + k),
    {
        let p: usize = self.cycle.len();
        proof {
            lemma_mod_division_less_than_divisor(start as int, p as int);
        }
        let mut j: usize = (start % (p as u64)) as usize;
        let mut w: Vec<PomoSegment> = Vec::new();
        let mut k: usize = 0;
        while k < count
            invariant
                self.wf(),
                p == self.cycle@.len(),
                k <= count,
                j == (start + k) % (p as int),
                w@.len() == k,
                forall|k2: int|
                    0 <= k2 < k ==> w@[k2] == segment_at_spec(self.config, start + k2),
            decreases count - k,
        {
            w.push(self.cycle[j]);
            proof {
                lemma_add_mod_noop(start + k, 1, p as int);
                lemma_small_mod(1nat, p as nat);
                if j == p - 1 {
                    lemma_mod_self_0(p as int);
                } else {
                    lemma_small_mod((j + 1) as nat, p as nat);
                }
            }
            if j == p - 1 {
                j = 0;
            } else {
                j = j + 1;
            }
            k = k + 1;
        }
        w
    }
}

/// Alternation within one period: at indices before the last slot, work
/// stands at every even index and a short break at every odd one.
pub proof fn lemma_alternation(c: Pomo, i: int)
    requires
        c.valid(),
        0 <= i < c.period() - 1,
    ensures
        i % 2 == 0 ==> segment_at_spec(c, i) == PomoSegment::Work(c.time),
        i % 2 == 1 ==> segment_at_spec(c, i) == PomoSegment::ShortBreak(c.break_),
{
    lemma_small_mod(i as nat, c.period() as nat);
}

/// The last slot of every period is the long break.
pub proof fn lemma_long_break_ends_period(c: Pomo)
    requires
        c.valid(),
    ensures
        segment_at_spec(c, c.period() - 1) == PomoSegment::LongBreak(c.long_break),
{
    lemma_small_mod((c.period() - 1) as nat, c.period() as nat);
}

/// Periodicity: the segment at index `i + period` equals the one at `i`.
pub proof fn lemma_periodicity(c: Pomo, i: int)
    requires
        c.valid(),
        0 <= i,
    ensures
        segment_at_spec(c, i + c.period()) == segment_at_spec(c, i),
{
    lemma_mod_add_multiples_vanish(i, c.period());
}

} // verus!
