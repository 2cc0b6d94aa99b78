//! Countdown timers in whole milliseconds.

use vstd::prelude::*;

verus! {

/// Tracks elapsed time against a duration. A repeating timer starts over each
/// time the duration has passed; any other timer stops once it has.
#[derive(Clone, Copy, PartialEq, Eq, Structural, Debug)]
pub struct Timer {
    /// Milliseconds counted so far.
    pub elapsed: u32,
    /// Milliseconds after which the timer completes.
    pub duration: u32,
    pub repeating: bool,
    /// The duration had passed at the last tick.
    pub finished: bool,
    /// How many times the timer completed during the last tick.
    pub times_finished: u32,
}

impl Timer {
    /// The timer after `delta` more milliseconds.
    ///
    /// A stopped timer only forgets that it has just completed. A repeating
    /// timer keeps the remainder of the time and counts its completions, as
    /// far as the count goes; with a duration of zero it completes in every
    /// tick, more often than can be counted.
    pub open spec fn ticked(self, delta: u32) -> Timer {
        let total = self.elapsed + delta;
        if !self.repeating && self.finished {
            Timer { times_finished: 0, ..self }
        } else if total < self.duration {
            Timer { elapsed: total as u32, finished: false, times_finished: 0, ..self }
        } else if !self.repeating {
            Timer { elapsed: self.duration, finished: true, times_finished: 1, ..self }
        } else if self.duration == 0 {
            Timer { elapsed: 0, finished: true, times_finished: u32::MAX, ..self }
        } else {
            Timer {
                elapsed: (total % (self.duration as int)) as u32,
                finished: true,
                times_finished: if total / (self.duration as int) > u32::MAX {
                    u32::MAX
                } else {
                    (total / (self.duration as int)) as u32
                },
                ..self
            }
        }
    }

    /// The timer completed during the last tick.
    pub open spec fn just_finished_spec(self) -> bool {
        self.times_finished > 0
    }

    /// A timer at zero that completes after `duration` milliseconds.
    pub fn new(duration: u32, repeating: bool) -> (timer: Timer)
        ensures
            timer == (Timer {
                elapsed: 0,
                duration,
                repeating,
                finished: false,
                times_finished: 0,
            }),
    {
        Timer { elapsed: 0, duration, repeating, finished: false, times_finished: 0 }
    }

    /// Advances the timer by `delta` milliseconds.
    pub fn tick(&mut self, delta: u32)
        ensures
            *final(self) == old(self).ticked(delta),
    {
        if !self.repeating && self.finished {
            self.times_finished = 0;
            return ;
        }
        let total: u64 = self.elapsed as u64 + delta as u64;
        if total < self.duration as u64 {
            self.elapsed = total as u32;
            self.finished = false;
            self.times_finished = 0;
        } else if !self.repeating {
            self.elapsed = self.duration;
            self.finished = true;
            self.times_finished = 1;
        } else if self.duration == 0 {
            self.elapsed = 0;
            self.finished = true;
            self.times_finished = u32::MAX;
        } else {
            let times: u64 = total / self.duration as u64;
            self.elapsed = (total % self.duration as u64) as u32;
            self.finished = true;
            self.times_finished = if times > u32::MAX as u64 {
                u32::MAX
            } else {
                times as u32
            };
        }
    }

    /// Whether the duration had passed at the last tick.
    pub fn finished(&self) -> (done: bool)
        ensures
            done == self.finished,
    {
        self.finished
    }

    /// Whether the timer completed during the last tick.
    pub fn just_finished(&self) -> (done: bool)
        ensures
            done == self.just_finished_spec(),
    {
        self.times_finished > 0
    }

    /// Changes the duration and keeps the elapsed time.
    pub fn set_duration(&mut self, duration: u32)
        ensures
            *final(self) == (Timer { duration, ..*old(self) }),
    {
        self.duration = duration;
    }

    /// Starts the timer over from zero.
    pub fn reset(&mut self)
        ensures
            *final(self) == (Timer {
                elapsed: 0,
                finished: false,
                times_finished: 0,
                ..*old(self)
            }),
    {
        self.elapsed = 0;
        self.finished = false;
        self.times_finished = 0;
    }
}

/// A timer that has not completed yet completes at the first tick that brings
/// its elapsed time up to its duration, and at no earlier one.
pub proof fn lemma_timer_completes_on_time(timer: Timer, delta: u32)
    requires
        !timer.finished || timer.repeating,
    ensures
        timer.ticked(delta).just_finished_spec() <==> timer.elapsed + delta >= timer.duration,
{
    let total = timer.elapsed + delta;
    if total >= timer.duration && timer.repeating && timer.duration > 0 {
        vstd::arithmetic::div_mod::lemma_div_is_ordered(
            timer.duration as int,
            total,
            timer.duration as int,
        );
        vstd::arithmetic::div_mod::lemma_div_basics(timer.duration as int);
    }
}

} // verus!
