//! Orchestration of segment transitions and the render loop.
//!
//! The controller owns the session state and decides every transition;
//! the event loop around it performs the waits, drives the countdown
//! engine, and hands control actions and engine observations back in.

use vstd::prelude::*;
use vstd::arithmetic::div_mod::lemma_mod_division_less_than_divisor;
use crate::countdown::{cancel_step, emissions_n, CountdownEngine, lemma_cancelled_emits_nothing};
use crate::input::PomoInput;
use crate::pomo::{Pomo, PomoSegment};
use crate::sequence::{segment_at_spec, SegmentSequencer};

verus! {

/// The mutable state of a session, owned by the controller alone.
#[derive(Clone, Copy, Debug, PartialEq, Eq, Structural)]
pub struct SessionState {
    pub segment_index: u64,
    pub remaining_ms: u64,
    pub paused: bool,
    pub help_visible: bool,
}

/// What the event loop must tell the running countdown engine after a
/// control action has been applied.
#[derive(Clone, Copy, Debug, PartialEq, Eq, Structural)]
pub enum EngineCommand {
    NoCommand,
    SetPaused(bool),
    CancelEngine,
}

/// The immutable set of values handed to the presenter for one render
/// pass.
#[derive(Clone, Debug)]
pub struct RenderSnapshot {
    pub upcoming: Vec<PomoSegment>,
    pub current_index: u64,
    pub remaining_ms: u64,
    pub total_ms: u64,
    pub paused: bool,
    pub help_visible: bool,
}

impl RenderSnapshot {
    /// The remaining time as the clock label shows it: whole minutes and
    /// leftover seconds.
    pub fn remaining_clock(&self) -> (t: (u64, u64))
        ensures
            t.0 == self.remaining_ms / 1000 / 60,
            t.1 == (self.remaining_ms / 1000) % 60,
    {
        let secs = self.remaining_ms / 1000;
        (secs / 60, secs % 60)
    }
}

/// Drives the session: samples the engine, applies control actions, and
/// advances through the cyclic segment sequence.
#[derive(Debug)]
pub struct SessionController {
    pub sequencer: SegmentSequencer,
    pub state: SessionState,
    pub terminated: bool,
}

/// The index after `i` in the cyclic sequence.
pub open spec fn next_index_spec(s: SessionController) -> int {
    (s.state.segment_index + 1) % s.sequencer.config.period()
}

/// Duration in milliseconds of the segment at the controller's current
/// index.
pub open spec fn duration_ms_at(c: Pomo, i: int) -> int {
    segment_at_spec(c, i).minutes() * 60_000
}

/// Advancing to the next segment: the index steps modularly, the
/// remaining time is reset to the new segment's full duration, and the
/// pause flag is cleared.
pub open spec fn advance_spec(s: SessionController) -> SessionController {
    SessionController {
        sequencer: s.sequencer,
        state: SessionState {
            segment_index: next_index_spec(s) as u64,
            remaining_ms: duration_ms_at(s.sequencer.config, next_index_spec(s)) as u64,
            paused: false,
            help_visible: s.state.help_visible,
        },
        terminated: s.terminated,
    }
}

/// The controller's reaction to one control action: help toggles the
/// overlay, pause toggles the flag and propagates it, skip cancels the
/// engine and advances at once, quit terminates the session.
pub open spec fn action_step(s: SessionController, a: PomoInput) -> (SessionController, EngineCommand) {
    match a {
        PomoInput::Help => (
            SessionController {
                state: SessionState { help_visible: !s.state.help_visible, ..s.state },
                ..s
            },
            EngineCommand::NoCommand,
        ),
        PomoInput::Pause => (
            SessionController {
                state: SessionState { paused: !s.state.paused, ..s.state },
                ..s
            },
            EngineCommand::SetPaused(!s.state.paused),
        ),
        PomoInput::Skip => (advance_spec(s), EngineCommand::CancelEngine),
        PomoInput::Quit => (SessionController { terminated: true, ..s }, EngineCommand::NoCommand),
    }
}

impl SessionController {
    /// The current index lies within one period and the remaining time
    /// within the current segment's duration.
    pub open spec fn wf(self) -> bool {
        &&& self.sequencer.wf()
        &&& self.state.segment_index < self.sequencer.config.period()
        &&& self.state.remaining_ms <= duration_ms_at(self.sequencer.config, self.state.segment_index as int)
    }

    pub open spec fn config(self) -> Pomo {
        self.sequencer.config
    }

    /// The segment the controller currently observes as current.
    pub open spec fn current_segment_spec(self) -> PomoSegment {
        segment_at_spec(self.sequencer.config, self.state.segment_index as int)
    }

    /// A fresh session: at the first segment, with its full duration
    /// remaining, unpaused, help hidden.
    pub fn new(config: &Pomo) -> (s: SessionController)
        requires
            config.valid(),
        ensures
            s.wf(),
            s.config() == *config,
            s.state.segment_index == 0,
            s.state.remaining_ms == duration_ms_at(*config, 0),
            !s.state.paused,
            !s.state.help_visible,
            !s.terminated,
    {
        let sequencer = SegmentSequencer::new(config);
        let first = sequencer.segment_at(0);
        let remaining_ms = first.duration_ms();
        SessionController {
            sequencer,
            state: SessionState {
                segment_index: 0,
                remaining_ms,
                paused: false,
                help_visible: false,
            },
            terminated: false,
        }
    }

    /// Duration in milliseconds of the current segment.
    pub fn current_duration_ms(&self) -> (d: u64)
        requires
            self.wf(),
        ensures
            d == duration_ms_at(self.sequencer.config, self.state.segment_index as int),
    {
        let seg = self.sequencer.segment_at(self.state.segment_index);
        seg.duration_ms()
    }

    pub fn is_terminated(&self) -> (t: bool)
        ensures
            t == self.terminated,
    {
        self.terminated
    }

    /// Records the latest remaining-time value sampled from the engine.
    pub fn observe_remaining(&mut self, remaining_ms: u64)
        requires
            old(self).wf(),
            remaining_ms <= duration_ms_at(
                old(self).sequencer.config,
                old(self).state.segment_index as int,
            ),
        ensures
            final(self).wf(),
            *final(self) == (SessionController {
                state: SessionState { remaining_ms, ..old(self).state },
                ..*old(self)
            }),
    {
        self.state.remaining_ms = remaining_ms;
    }

    /// Moves to the next segment: modular index step, full duration
    /// remaining, unpaused.
    pub fn advance(&mut self)
        requires
            old(self).wf(),
        ensures
            final(self).wf(),
            *final(self) == advance_spec(*old(self)),
            !final(self).state.paused,
            final(self).state.segment_index == next_index_spec(*old(self)),
    {
        let p: u64 = 2 * self.sequencer.config.n_pomos;
        let next: u64 = (self.state.segment_index + 1) % p;
        proof {
            lemma_mod_division_less_than_divisor(self.state.segment_index + 1, p as int);
        }
        let seg = self.sequencer.segment_at(next);
        self.state.segment_index = next;
        self.state.remaining_ms = seg.duration_ms();
        self.state.paused = false;
    }

    /// Applies one control action and reports what the engine must be
    /// told. A skip advances immediately, without waiting for the
    /// cancelled engine to stop.
    pub fn handle_action(&mut self, a: PomoInput) -> (cmd: EngineCommand)
        requires
            old(self).wf(),
        ensures
            final(self).wf(),
            (*final(self), cmd) == action_step(*old(self), a),
            a is Skip ==> final(self).state.segment_index == next_index_spec(*old(self))
                && final(self).state.remaining_ms == duration_ms_at(
                    old(self).sequencer.config,
                    next_index_spec(*old(self)),
                ) && !final(self).state.paused,
            a is Quit ==> final(self).terminated,
    {
        match a {
            PomoInput::Help => {
                self.state.help_visible = !self.state.help_visible;
                EngineCommand::NoCommand
            },
            PomoInput::Pause => {
                self.state.paused = !self.state.paused;
                EngineCommand::SetPaused(self.state.paused)
            },
            PomoInput::Skip => {
                self.advance();
                EngineCommand::CancelEngine
            },
            PomoInput::Quit => {
                self.terminated = true;
                EngineCommand::NoCommand
            },
        }
    }

    /// Advances when the engine has completed naturally: identical to a
    /// skip, except that no cancellation is issued.
    pub fn on_engine_completed(&mut self)
        requires
            old(self).wf(),
        ensures
            final(self).wf(),
            *final(self) == advance_spec(*old(self)),
    {
        self.advance();
    }

    /// The snapshot of one render pass, with a window of `count`
    /// upcoming segments starting at the current one.
    pub fn snapshot(&self, count: usize) -> (r: RenderSnapshot)
        requires
            self.wf(),
        ensures
            r.upcoming@.len() == count,
            forall|k: int|
                0 <= k < count ==> r.upcoming@[k] == segment_at_spec(
                    self.sequencer.config,
                    self.state.segment_index + k,
                ),
            r.current_index == self.state.segment_index,
            r.remaining_ms == self.state.remaining_ms,
            r.total_ms == duration_ms_at(self.sequencer.config, self.state.segment_index as int),
            r.paused == self.state.paused,
            r.help_visible == self.state.help_visible,
    {
        let upcoming = self.sequencer.window(self.state.segment_index, count);
        let total_ms = self.current_duration_ms();
        RenderSnapshot {
            upcoming,
            current_index: self.state.segment_index,
            remaining_ms: self.state.remaining_ms,
            total_ms,
            paused: self.state.paused,
            help_visible: self.state.help_visible,
        }
    }
}

/// A skip during segment `i` makes the controller observe segment `i + 1`
/// as current at once — before the superseded engine, which is told to
/// cancel, would have completed — and the superseded engine emits no
/// further values after cancellation, however many ticks follow.
pub proof fn lemma_skip_supersedes(s: SessionController, e: CountdownEngine, n: nat)
    requires
        s.wf(),
        e.state is Running,
    ensures
        ({
            let (s2, cmd) = action_step(s, PomoInput::Skip);
            &&& s2.state.segment_index == next_index_spec(s)
            &&& cmd is CancelEngine
            &&& !e.finished()
            &&& cancel_step(e).state is Cancelled
            &&& emissions_n(cancel_step(e), n) =~= Seq::<u64>::empty()
        }),
{
    lemma_cancelled_emits_nothing(cancel_step(e), n);
}

} // verus!
