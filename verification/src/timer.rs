//! A countdown that is advanced by the time that each step took.

use vstd::prelude::*;

verus! {

/// What a timer does when its duration has elapsed.
#[derive(Clone, Copy, Debug, PartialEq, Eq, Structural)]
pub enum TimerMode {
    /// The timer finishes once and then stays finished.
    Once,
    /// The timer finishes, keeps what is left over and starts again.
    Repeating,
}

/// A countdown over `duration` units of time.
///
/// For a repeating timer `finished` tells whether the duration elapsed during
/// the latest tick; for a one-shot timer, whether it has ever elapsed.
#[derive(Clone, Copy, Debug, PartialEq, Eq, Structural)]
pub struct Timer {
    pub mode: TimerMode,
    pub duration: u64,
    pub elapsed: u64,
    pub finished: bool,
}

impl Timer {
    /// A timer is well formed when its duration is positive and its elapsed
    /// time agrees with its mode.
    pub open spec fn wf(self) -> bool {
        &&& self.duration > 0
        &&& match self.mode {
            TimerMode::Repeating => self.elapsed < self.duration,
            TimerMode::Once => self.elapsed <= self.duration && (self.finished <==> self.elapsed
                == self.duration),
        }
    }

    /// A timer that has not run yet.
    pub open spec fn fresh(duration: u64, mode: TimerMode) -> Timer {
        Timer { mode, duration, elapsed: 0, finished: false }
    }

    /// The timer after `delta` more units of time.
    pub open spec fn ticked(self, delta: u64) -> Timer {
        let total = self.elapsed + delta;
        match self.mode {
            TimerMode::Repeating => Timer {
                elapsed: (total % (self.duration as int)) as u64,
                finished: total >= self.duration,
                ..self
            },
            TimerMode::Once => if self.finished {
                self
            } else if total >= self.duration {
                Timer { elapsed: self.duration, finished: true, ..self }
            } else {
                Timer { elapsed: total as u64, finished: false, ..self }
            },
        }
    }

    /// Ticking keeps a timer well formed.
    pub proof fn lemma_ticked_wf(self, delta: u64)
        requires
            self.wf(),
        ensures
            self.ticked(delta).wf(),
            self.ticked(delta).duration == self.duration,
            self.ticked(delta).mode == self.mode,
    {
    }

    /// Creates a timer that has not run yet.
    pub fn new(duration: u64, mode: TimerMode) -> (timer: Timer)
        requires
            duration > 0,
        ensures
            timer == Timer::fresh(duration, mode),
            timer.wf(),
    {
        Timer { mode, duration, elapsed: 0, finished: false }
    }

    /// Advances the timer by `delta`.
    pub fn tick(&mut self, delta: u64)
        requires
            old(self).wf(),
        ensures
            *final(self) == old(self).ticked(delta),
            final(self).wf(),
    {
        let total: u128 = self.elapsed as u128 + delta as u128;
        let duration: u128 = self.duration as u128;
        match self.mode {
            TimerMode::Repeating => {
                let rest: u128 = total % duration;
                self.elapsed = rest as u64;
                self.finished = total >= duration;
            },
            TimerMode::Once => {
                if !self.finished {
                    if total >= duration {
                        self.elapsed = self.duration;
                        self.finished = true;
                    } else {
                        self.elapsed = total as u64;
                    }
                }
            },
        }
    }

    /// Whether the duration elapsed (see [`Timer`]).
    pub fn finished(&self) -> (done: bool)
        ensures
            done == self.finished,
    {
        self.finished
    }

    /// Starts the countdown again from zero.
    pub fn reset(&mut self)
        ensures
            *final(self) == Timer::fresh(old(self).duration, old(self).mode),
    {
        self.elapsed = 0;
        self.finished = false;
    }
}

} // verus!
