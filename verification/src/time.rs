//! Countdown timers advanced by an injected time step, in milliseconds.

use vstd::prelude::*;

verus! {

/// What a timer does once its duration has elapsed.
#[derive(Clone, Copy, Debug, PartialEq, Eq, Structural)]
pub enum TimerMode {
    /// The timer stops at its duration and stays finished until it is reset.
    Once,
    /// The timer starts over, keeping the time that ran past its duration.
    Repeating,
}

/// A timer that tracks elapsed time against a duration.
#[derive(Clone, Copy, Debug, PartialEq, Eq, Structural)]
pub struct Timer {
    pub duration: u64,
    pub elapsed: u64,
    pub finished: bool,
    pub just_finished: bool,
    pub mode: TimerMode,
}

impl Timer {
    /// A fresh timer: nothing elapsed, not finished.
    pub open spec fn fresh(duration: u64, mode: TimerMode) -> Timer {
        Timer { duration, elapsed: 0, finished: false, just_finished: false, mode }
    }

    /// The timer after `delta` milliseconds have passed.
    ///
    /// A finished `Once` timer no longer advances. A `Once` timer that reaches
    /// its duration stops there. A `Repeating` timer that reaches its duration
    /// wraps around; one of duration zero finishes on every tick.
    pub open spec fn ticked(self, delta: u64) -> Timer {
        match self.mode {
            TimerMode::Once => {
                if self.finished {
                    Timer { just_finished: false, ..self }
                } else if self.elapsed + delta >= self.duration {
                    Timer { elapsed: self.duration, finished: true, just_finished: true, ..self }
                } else {
                    Timer {
                        elapsed: (self.elapsed + delta) as u64,
                        finished: false,
                        just_finished: false,
                        ..self
                    }
                }
            },
            TimerMode::Repeating => {
                if self.duration == 0 {
                    Timer { elapsed: 0, finished: true, just_finished: true, ..self }
                } else if self.elapsed + delta >= self.duration {
                    Timer {
                        elapsed: ((self.elapsed + delta) % (self.duration as int)) as u64,
                        finished: true,
                        just_finished: true,
                        ..self
                    }
                } else {
                    Timer {
                        elapsed: (self.elapsed + delta) as u64,
                        finished: false,
                        just_finished: false,
                        ..self
                    }
                }
            },
        }
    }

    /// The timer wound back to its start.
    pub open spec fn rewound(self) -> Timer {
        Timer { elapsed: 0, finished: false, just_finished: false, ..self }
    }

    /// Time left until the duration is reached.
    pub open spec fn remaining_spec(self) -> int {
        if self.elapsed >= self.duration {
            0
        } else {
            self.duration - self.elapsed
        }
    }

    /// Creates a fresh timer of `duration` milliseconds.
    pub fn from_millis(duration: u64, mode: TimerMode) -> (t: Timer)
        ensures
            t == Timer::fresh(duration, mode),
    {
        Timer { duration, elapsed: 0, finished: false, just_finished: false, mode }
    }

    /// Advances the timer by `delta` milliseconds.
    pub fn tick(&mut self, delta: u64)
        ensures
            *final(self) == old(self).ticked(delta),
    {
        let sum: u128 = self.elapsed as u128 + delta as u128;
        let duration: u128 = self.duration as u128;
        match self.mode {
            TimerMode::Once => {
                if self.finished {
                    self.just_finished = false;
                } else if sum >= duration {
                    self.elapsed = self.duration;
                    self.finished = true;
                    self.just_finished = true;
                } else {
                    self.elapsed = sum as u64;
                    self.finished = false;
                    self.just_finished = false;
                }
            },
            TimerMode::Repeating => {
                if self.duration == 0 {
                    self.elapsed = 0;
                    self.finished = true;
                    self.just_finished = true;
                } else if sum >= duration {
                    self.elapsed = (sum % duration) as u64;
                    self.finished = true;
                    self.just_finished = true;
                } else {
                    self.elapsed = sum as u64;
                    self.finished = false;
                    self.just_finished = false;
                }
            },
        }
    }

    /// Whether the duration has been reached.
    pub fn finished(&self) -> (b: bool)
        ensures
            b == self.finished,
    {
        self.finished
    }

    /// Whether the duration was reached by the latest tick.
    pub fn just_finished(&self) -> (b: bool)
        ensures
            b == self.just_finished,
    {
        self.just_finished
    }

    /// Time elapsed so far, in milliseconds.
    pub fn elapsed(&self) -> (e: u64)
        ensures
            e == self.elapsed,
    {
        self.elapsed
    }

    /// Time left until the duration is reached, in milliseconds.
    pub fn remaining(&self) -> (r: u64)
        ensures
            r == self.remaining_spec(),
    {
        if self.elapsed >= self.duration {
            0
        } else {
            self.duration - self.elapsed
        }
    }

    /// Winds the timer back to its start.
    pub fn reset(&mut self)
        ensures
            *final(self) == old(self).rewound(),
    {
        self.elapsed = 0;
        self.finished = false;
        self.just_finished = false;
    }
}

/// The sum of a sequence of time steps.
pub open spec fn total_time(deltas: Seq<u64>) -> int
    decreases deltas.len(),
{
    if deltas.len() == 0 {
        0
    } else {
        total_time(deltas.drop_last()) + deltas.last()
    }
}

/// Accumulated time never runs backwards.
pub proof fn lemma_total_time_grows(deltas: Seq<u64>)
    ensures
        0 <= total_time(deltas),
        deltas.len() > 0 ==> total_time(deltas.drop_last()) <= total_time(deltas),
    decreases deltas.len(),
{
    if deltas.len() > 0 {
        lemma_total_time_grows(deltas.drop_last());
    }
}

impl Timer {
    /// The timer after one tick for each of `deltas`, in order.
    pub open spec fn aged(self, deltas: Seq<u64>) -> Timer
        decreases deltas.len(),
    {
        if deltas.len() == 0 {
            self
        } else {
            self.aged(deltas.drop_last()).ticked(deltas.last())
        }
    }

    /// A fresh one-shot timer is not finished while the ticks add up to less
    /// than its duration, and shows the time accumulated so far.
    pub proof fn lemma_runs_until_duration(self, deltas: Seq<u64>)
        requires
            self == Timer::fresh(self.duration, TimerMode::Once),
            total_time(deltas) < self.duration,
        ensures
            self.aged(deltas) == (Timer { elapsed: total_time(deltas) as u64, ..self }),
            !self.aged(deltas).finished,
        decreases deltas.len(),
    {
        lemma_total_time_grows(deltas);
        if deltas.len() > 0 {
            lemma_total_time_grows(deltas.drop_last());
            self.lemma_runs_until_duration(deltas.drop_last());
        }
    }

    /// A fresh one-shot timer finishes on the very tick that brings the
    /// accumulated time to its duration.
    pub proof fn lemma_finishes_at_duration(self, deltas: Seq<u64>)
        requires
            self == Timer::fresh(self.duration, TimerMode::Once),
            deltas.len() > 0,
            total_time(deltas.drop_last()) < self.duration <= total_time(deltas),
        ensures
            !self.aged(deltas.drop_last()).finished,
            self.aged(deltas).finished,
            self.aged(deltas).just_finished,
    {
        lemma_total_time_grows(deltas.drop_last());
        self.lemma_runs_until_duration(deltas.drop_last());
    }
}

} // verus!
