//! The countdown state machine for a single segment.
//!
//! The engine counts a segment's duration down in fixed ticks, honors a
//! pause flag, and can be cancelled. The event loop drives it: each real
//! tick of the clock becomes one `tick` call, and every value a `tick`
//! call emits is published to the observer of the latest remaining time.

use vstd::prelude::*;
use vstd::arithmetic::div_mod::{
    lemma_fundamental_div_mod, lemma_mod_division_less_than_divisor,
};
use crate::pomo::{MAX_MINUTES, TICK_MS};

verus! {

/// Upper bound on a duration in milliseconds, from the bound on minutes.
pub const MAX_DURATION_MS: u64 = MAX_MINUTES * 60_000;

#[derive(Clone, Copy, Debug, PartialEq, Eq, Structural)]
pub enum EngineState {
    Running,
    Paused,
    Cancelled,
    Completed,
}

/// A countdown over one segment: elapsed time advances tick by tick while
/// the engine runs, stands still while it is paused, and stops for good
/// once the engine is cancelled or completed.
#[derive(Clone, Copy, Debug, PartialEq, Eq, Structural)]
pub struct CountdownEngine {
    pub duration_ms: u64,
    pub elapsed_ms: u64,
    pub state: EngineState,
}

/// The elapsed time after one tick while running: one tick period more,
/// clamped at the duration.
pub open spec fn next_elapsed(e: CountdownEngine) -> int {
    if e.elapsed_ms + TICK_MS >= e.duration_ms {
        e.duration_ms as int
    } else {
        e.elapsed_ms + TICK_MS
    }
}

/// One tick: a running engine advances and completes when the duration is
/// reached; a paused, cancelled or completed engine does not change.
pub open spec fn tick_step(e: CountdownEngine) -> CountdownEngine {
    if e.state is Running {
        CountdownEngine {
            duration_ms: e.duration_ms,
            elapsed_ms: next_elapsed(e) as u64,
            state: if next_elapsed(e) == e.duration_ms {
                EngineState::Completed
            } else {
                EngineState::Running
            },
        }
    } else {
        e
    }
}

/// The remaining time a tick emits: only a running engine emits, and the
/// value is the remaining time after the tick has advanced.
pub open spec fn tick_emit(e: CountdownEngine) -> Option<u64> {
    if e.state is Running {
        Some((e.duration_ms - next_elapsed(e)) as u64)
    } else {
        None
    }
}

/// The engine after `n` ticks.
pub open spec fn ticks_n(e: CountdownEngine, n: nat) -> CountdownEngine
    decreases n,
{
    if n == 0 {
        e
    } else {
        tick_step(ticks_n(e, (n - 1) as nat))
    }
}

/// What one tick contributes to the emitted history.
pub open spec fn emit_seq(e: CountdownEngine) -> Seq<u64> {
    match tick_emit(e) {
        Some(v) => seq![v],
        None => Seq::empty(),
    }
}

/// All values emitted during the first `n` ticks, in order.
pub open spec fn emissions_n(e: CountdownEngine, n: nat) -> Seq<u64>
    decreases n,
{
    if n == 0 {
        Seq::empty()
    } else {
        emissions_n(e, (n - 1) as nat) + emit_seq(ticks_n(e, (n - 1) as nat))
    }
}

/// Number of ticks an uninterrupted countdown of duration `d` takes:
/// the duration divided by the tick period, rounded up.
pub open spec fn total_ticks(d: u64) -> int {
    (d + TICK_MS - 1) / (TICK_MS as int)
}

/// The value emitted by tick number `j` (counted from zero) of an
/// uninterrupted countdown of duration `d`.
pub open spec fn emitted_at(d: u64, j: int) -> u64 {
    if (j + 1) * TICK_MS >= d {
        0
    } else {
        (d - (j + 1) * TICK_MS) as u64
    }
}

impl CountdownEngine {
    /// Elapsed time never exceeds the duration; the terminal `Completed`
    /// state is exactly the state of a fully elapsed engine.
    pub open spec fn wf(self) -> bool {
        &&& 0 < self.duration_ms <= MAX_DURATION_MS
        &&& self.elapsed_ms <= self.duration_ms
        &&& (self.state is Completed ==> self.elapsed_ms == self.duration_ms)
        &&& (self.state is Running ==> self.elapsed_ms < self.duration_ms)
        &&& (self.state is Paused ==> self.elapsed_ms < self.duration_ms)
    }

    /// Time left before the segment ends.
    pub open spec fn remaining_spec(self) -> int {
        self.duration_ms - self.elapsed_ms
    }

    /// Both terminal states end the engine's lifetime; to the controller
    /// they are observably equivalent.
    pub open spec fn finished(self) -> bool {
        self.state is Cancelled || self.state is Completed
    }

    /// A fresh engine: running, nothing elapsed.
    pub fn start(duration_ms: u64) -> (e: CountdownEngine)
        requires
            0 < duration_ms <= MAX_DURATION_MS,
        ensures
            e == (CountdownEngine {
                duration_ms,
                elapsed_ms: 0,
                state: EngineState::Running,
            }),
            e.wf(),
    {
        CountdownEngine { duration_ms, elapsed_ms: 0, state: EngineState::Running }
    }

    pub fn remaining(&self) -> (r: u64)
        requires
            self.wf(),
        ensures
            r == self.remaining_spec(),
    {
        self.duration_ms - self.elapsed_ms
    }

    pub fn is_finished(&self) -> (f: bool)
        ensures
            f == self.finished(),
    {
        match self.state {
            EngineState::Cancelled => true,
            EngineState::Completed => true,
            _ => false,
        }
    }

    /// One tick of the clock. Returns the emitted remaining time, if the
    /// engine was running and therefore emitted one.
    pub fn tick(&mut self) -> (emitted: Option<u64>)
        requires
            old(self).wf(),
        ensures
            *final(self) == tick_step(*old(self)),
            emitted == tick_emit(*old(self)),
            final(self).wf(),
    {
        match self.state {
            EngineState::Running => {
                if self.duration_ms < TICK_MS || self.elapsed_ms >= self.duration_ms - TICK_MS {
                    self.elapsed_ms = self.duration_ms;
                    self.state = EngineState::Completed;
                } else {
                    self.elapsed_ms = self.elapsed_ms + TICK_MS;
                }
                Some(self.duration_ms - self.elapsed_ms)
            },
            _ => None,
        }
    }

    /// The external pause signal: pauses a running engine, resumes a
    /// paused one, and leaves a finished engine alone.
    pub fn set_paused(&mut self, paused: bool)
        ensures
            *final(self) == pause_step(*old(self), paused),
            old(self).wf() ==> final(self).wf(),
    {
        match self.state {
            EngineState::Running => {
                if paused {
                    self.state = EngineState::Paused;
                }
            },
            EngineState::Paused => {
                if !paused {
                    self.state = EngineState::Running;
                }
            },
            _ => {},
        }
    }

    /// The one-shot cancellation signal. If cancellation and natural
    /// completion race within the same tick, cancellation takes priority:
    /// a cancel before the tick leaves the engine cancelled and the final
    /// zero-remaining value is never emitted.
    pub fn cancel(&mut self)
        ensures
            *final(self) == cancel_step(*old(self)),
            old(self).wf() ==> final(self).wf(),
    {
        match self.state {
            EngineState::Completed => {},
            _ => {
                self.state = EngineState::Cancelled;
            },
        }
    }
}

/// The pause signal: only switches between `Running` and `Paused`.
pub open spec fn pause_step(e: CountdownEngine, paused: bool) -> CountdownEngine {
    if e.state is Running && paused {
        CountdownEngine { state: EngineState::Paused, ..e }
    } else if e.state is Paused && !paused {
        CountdownEngine { state: EngineState::Running, ..e }
    } else {
        e
    }
}

/// Cancellation: ends any engine that has not already completed.
pub open spec fn cancel_step(e: CountdownEngine) -> CountdownEngine {
    if e.state is Completed {
        e
    } else {
        CountdownEngine { state: EngineState::Cancelled, ..e }
    }
}

/// Bounds of the rounded-up tick count: the last tick is the first one
/// to reach or pass the duration.
proof fn lemma_total_ticks_bounds(d: u64)
    requires
        0 < d,
    ensures
        1 <= total_ticks(d),
        (total_ticks(d) - 1) * TICK_MS < d,
        d <= total_ticks(d) * TICK_MS,
{
    let t = TICK_MS as int;
    let x = d + t - 1;
    lemma_fundamental_div_mod(x, t);
    lemma_mod_division_less_than_divisor(x, t);
    assert(x == t * (x / t) + x % t);
    assert(total_ticks(d) * t == t * (x / t)) by (nonlinear_arith)
        requires total_ticks(d) == x / t,
    ;
    assert((total_ticks(d) - 1) * t == total_ticks(d) * t - t) by (nonlinear_arith);
}

/// An uninterrupted run: after `k` ticks, `k` tick periods have elapsed
/// and the engine is still running, as long as the duration is not reached.
proof fn lemma_run_progress(e: CountdownEngine, k: nat)
    requires
        e.wf(),
        e.state is Running,
        e.elapsed_ms == 0,
        k * TICK_MS < e.duration_ms,
    ensures
        ticks_n(e, k).duration_ms == e.duration_ms,
        ticks_n(e, k).state is Running,
        ticks_n(e, k).elapsed_ms == k * TICK_MS,
    decreases k,
{
    if k > 0 {
        assert(((k - 1) as nat) * TICK_MS < e.duration_ms) by (nonlinear_arith)
            requires k * TICK_MS < e.duration_ms, k >= 1,
        ;
        lemma_run_progress(e, (k - 1) as nat);
        assert((((k - 1) as nat) * TICK_MS) + TICK_MS == k * TICK_MS) by (nonlinear_arith)
            requires k >= 1,
        ;
    }
}

/// The emitted history of an uninterrupted run, tick by tick.
proof fn lemma_run_emissions(e: CountdownEngine, k: nat)
    requires
        e.wf(),
        e.state is Running,
        e.elapsed_ms == 0,
        k <= total_ticks(e.duration_ms),
    ensures
        emissions_n(e, k) =~= Seq::new(k, |j: int| emitted_at(e.duration_ms, j)),
    decreases k,
{
    let d = e.duration_ms;
    lemma_total_ticks_bounds(d);
    if k > 0 {
        let k1 = (k - 1) as nat;
        lemma_run_emissions(e, k1);
        assert(k1 * TICK_MS < d) by (nonlinear_arith)
            requires
                k1 <= total_ticks(d) - 1,
                (total_ticks(d) - 1) * TICK_MS < d,
                TICK_MS > 0,
        ;
        lemma_run_progress(e, k1);
        let prev = ticks_n(e, k1);
        assert(prev.elapsed_ms + TICK_MS == (k1 + 1) * TICK_MS) by (nonlinear_arith)
            requires prev.elapsed_ms == k1 * TICK_MS,
        ;
        assert(emit_seq(prev) =~= seq![emitted_at(d, k1 as int)]);
    }
}

/// With no pause and no cancel, a countdown of duration `d` emits exactly
/// `total_ticks(d)` values before completing, the values never increase,
/// the last one is zero, and no earlier tick completes the engine.
pub proof fn lemma_uninterrupted_run(e: CountdownEngine)
    requires
        e.wf(),
        e.state is Running,
        e.elapsed_ms == 0,
    ensures
        ticks_n(e, total_ticks(e.duration_ms) as nat).state is Completed,
        forall|k: nat| k < total_ticks(e.duration_ms) ==> !ticks_n(e, k).finished(),
        emissions_n(e, total_ticks(e.duration_ms) as nat).len() == total_ticks(e.duration_ms),
        forall|a: int, b: int|
            0 <= a <= b < total_ticks(e.duration_ms)
                ==> #[trigger] emissions_n(e, total_ticks(e.duration_ms) as nat)[b]
                    <= #[trigger] emissions_n(e, total_ticks(e.duration_ms) as nat)[a],
        emissions_n(e, total_ticks(e.duration_ms) as nat).last() == 0,
{
    let d = e.duration_ms;
    let n = total_ticks(d) as nat;
    lemma_total_ticks_bounds(d);

    // Progress up to the last tick, and completion at the last tick.
    let n1 = (n - 1) as nat;
    assert(n1 * TICK_MS < d) by (nonlinear_arith)
        requires n1 == total_ticks(d) - 1, (total_ticks(d) - 1) * TICK_MS < d,
    ;
    lemma_run_progress(e, n1);
    assert(ticks_n(e, n1).elapsed_ms + TICK_MS >= d) by (nonlinear_arith)
        requires
            ticks_n(e, n1).elapsed_ms == n1 * TICK_MS,
            n1 == total_ticks(d) - 1,
            d <= total_ticks(d) * TICK_MS,
    ;
    assert(ticks_n(e, n) == tick_step(ticks_n(e, n1)));
    assert(ticks_n(e, n).state is Completed);

    // No earlier tick finishes the engine.
    assert forall|k: nat| k < total_ticks(d) implies !ticks_n(e, k).finished() by {
        assert(k * TICK_MS < d) by (nonlinear_arith)
            requires
                k <= total_ticks(d) - 1,
                (total_ticks(d) - 1) * TICK_MS < d,
                TICK_MS > 0,
        ;
        lemma_run_progress(e, k);
    }

    // The emitted history is the rounded-down remaining time at each tick.
    lemma_run_emissions(e, n);
    let ems = emissions_n(e, n);
    assert(ems.len() == n);

    assert forall|a: int, b: int| 0 <= a <= b < total_ticks(d) implies ems[b] <= ems[a] by {
        assert((a + 1) * TICK_MS <= (b + 1) * TICK_MS) by (nonlinear_arith)
            requires a <= b, TICK_MS > 0,
        ;
    }

    assert(((n - 1) + 1) * TICK_MS >= d) by (nonlinear_arith)
        requires n == total_ticks(d), d <= total_ticks(d) * TICK_MS,
    ;
    assert(ems.last() == emitted_at(d, n - 1));
}

/// While paused, ticks neither advance the countdown nor emit: any two
/// consecutive samples of the remaining time, with no resume between
/// them, are equal.
pub proof fn lemma_paused_samples_equal(e: CountdownEngine, n: nat)
    requires
        e.state is Paused,
    ensures
        ticks_n(e, n) == e,
        ticks_n(e, n).remaining_spec() == e.remaining_spec(),
        emissions_n(e, n) =~= Seq::<u64>::empty(),
    decreases n,
{
    if n > 0 {
        lemma_paused_samples_equal(e, (n - 1) as nat);
    }
}

/// A cancelled engine emits no further values, however many ticks follow.
pub proof fn lemma_cancelled_emits_nothing(e: CountdownEngine, n: nat)
    requires
        e.state is Cancelled,
    ensures
        ticks_n(e, n) == e,
        emissions_n(e, n) =~= Seq::<u64>::empty(),
    decreases n,
{
    if n > 0 {
        lemma_cancelled_emits_nothing(e, (n - 1) as nat);
    }
}

} // verus!
