//! Configuration and segments of a pomodoro session.

use vstd::prelude::*;

verus! {

/// Length in milliseconds of one countdown tick.
pub const TICK_MS: u64 = 100;

/// Upper bound on a segment length in minutes, so that millisecond
/// arithmetic on durations stays well inside `u64`.
pub const MAX_MINUTES: u64 = 0x7fff_ffff;

/// Upper bound on the number of work periods per cycle, so that the
/// period length `2 * n_pomos` fits comfortably in `u64` and `usize`.
pub const MAX_POMOS: u64 = 0x7fff_ffff;

/// One timed phase of a session; the payload is its length in minutes.
#[derive(Clone, Copy, Debug, PartialEq, Eq, Structural)]
pub enum PomoSegment {
    Work(u64),
    ShortBreak(u64),
    LongBreak(u64),
}

impl PomoSegment {
    /// The length of this segment in minutes, whatever its kind.
    pub open spec fn minutes(self) -> u64 {
        match self {
            PomoSegment::Work(m) => m,
            PomoSegment::ShortBreak(m) => m,
            PomoSegment::LongBreak(m) => m,
        }
    }

    /// Length of this segment in whole seconds.
    pub fn duration(&self) -> (secs: u64)
        requires
            self.minutes() <= MAX_MINUTES,
        ensures
            secs == self.minutes() * 60,
    {
        let m: u64 = match self {
            PomoSegment::Work(m) => *m,
            PomoSegment::ShortBreak(m) => *m,
            PomoSegment::LongBreak(m) => *m,
        };
        m * 60
    }

    /// Length of this segment in milliseconds.
    pub fn duration_ms(&self) -> (ms: u64)
        requires
            self.minutes() <= MAX_MINUTES,
        ensures
            ms == self.minutes() * 60_000,
    {
        let m: u64 = match self {
            PomoSegment::Work(m) => *m,
            PomoSegment::ShortBreak(m) => *m,
            PomoSegment::LongBreak(m) => *m,
        };
        m * 60_000
    }

    /// The label the presenter shows for this segment.
    pub fn label(&self) -> (s: &'static str)
        ensures
            self is Work ==> s@ == "Work"@,
            self is ShortBreak ==> s@ == "Short break"@,
            self is LongBreak ==> s@ == "Long break"@,
    {
        match self {
            PomoSegment::Work(_) => "Work",
            PomoSegment::ShortBreak(_) => "Short break",
            PomoSegment::LongBreak(_) => "Long break",
        }
    }
}

/// Configuration of a pomodoro session: the lengths in minutes of the
/// three segment kinds and the number of work periods per long break.
#[derive(Clone, Copy, Debug, PartialEq, Eq, Structural)]
pub struct Pomo {
    pub time: u64,
    pub break_: u64,
    pub long_break: u64,
    pub n_pomos: u64,
}

impl Pomo {
    /// All parameters are positive (the boundary validates this before the
    /// core is constructed) and small enough for duration arithmetic.
    pub open spec fn valid(self) -> bool {
        &&& 0 < self.time <= MAX_MINUTES
        &&& 0 < self.break_ <= MAX_MINUTES
        &&& 0 < self.long_break <= MAX_MINUTES
        &&& 0 < self.n_pomos <= MAX_POMOS
    }

    /// Number of segments after which the cyclic sequence repeats.
    pub open spec fn period(self) -> int {
        2 * self.n_pomos
    }

    pub fn new(time: u64, break_: u64, long_break: u64, n_pomos: u64) -> (p: Pomo)
        requires
            0 < time <= MAX_MINUTES,
            0 < break_ <= MAX_MINUTES,
            0 < long_break <= MAX_MINUTES,
            0 < n_pomos <= MAX_POMOS,
        ensures
            p == (Pomo { time, break_, long_break, n_pomos }),
            p.valid(),
    {
        Pomo { time, break_, long_break, n_pomos }
    }
}

} // verus!
