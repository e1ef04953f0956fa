use vstd::prelude::*;

verus! {

/// Whether a timer stops at its duration or starts over.
#[derive(Clone, Copy, Debug, PartialEq, Eq, Structural)]
pub enum TimerMode {
    Once,
    Repeating,
}

/// A countable duration in nanoseconds that fires once or repeatedly.
///
/// A one-shot timer's elapsed time stays at its duration once reached; a
/// repeating one keeps only the remainder below its duration.
#[derive(Clone, Copy, Debug)]
pub struct Timer {
    pub duration: u64,
    pub elapsed: u64,
    pub mode: TimerMode,
    pub finished: bool,
    pub just_finished: bool,
}

impl Timer {
    pub open spec fn wf(&self) -> bool {
        &&& self.duration > 0
        &&& match self.mode {
            TimerMode::Once => self.elapsed <= self.duration && self.finished == (self.elapsed
                == self.duration),
            TimerMode::Repeating => self.elapsed < self.duration,
        }
        &&& self.just_finished ==> self.finished
    }

    /// A timer at zero elapsed time.
    pub fn from_nanos(duration: u64, mode: TimerMode) -> (r: Self)
        requires
            duration > 0,
        ensures
            r.wf(),
            r.duration == duration,
            r.elapsed == 0,
            r.mode == mode,
            !r.finished,
            !r.just_finished,
    {
        Timer { duration, elapsed: 0, mode, finished: false, just_finished: false }
    }

    /// The timer after `delta` more nanoseconds.
    pub open spec fn ticked(self, delta: u64) -> Timer {
        let total = self.elapsed + delta;
        let d = self.duration as int;
        match self.mode {
            TimerMode::Once => Timer {
                elapsed: if total >= d {
                    self.duration
                } else {
                    total as u64
                },
                finished: total >= d,
                just_finished: total >= d && !self.finished,
                ..self
            },
            TimerMode::Repeating => Timer {
                elapsed: (total % d) as u64,
                finished: total >= d,
                just_finished: total >= d,
                ..self
            },
        }
    }

    /// Advances the timer by `delta` nanoseconds.
    pub fn tick(&mut self, delta: u64)
        requires
            old(self).wf(),
        ensures
            final(self).wf(),
            *final(self) == old(self).ticked(delta),
    {
        let total: u128 = self.elapsed as u128 + delta as u128;
        let d: u128 = self.duration as u128;
        match self.mode {
            TimerMode::Once => {
                let was_finished = self.finished;
                if total >= d {
                    self.elapsed = self.duration;
                    self.finished = true;
                    self.just_finished = !was_finished;
                } else {
                    self.elapsed = total as u64;
                    self.finished = false;
                    self.just_finished = false;
                }
            },
            TimerMode::Repeating => {
                let rest: u128 = total % d;
                self.elapsed = rest as u64;
                self.finished = total >= d;
                self.just_finished = total >= d;
            },
        }
    }

    /// The timer with duration `d`: the elapsed time is kept, held below
    /// (repeating) or at (one-shot) the new duration where it is past it.
    pub open spec fn with_duration(self, d: u64) -> Timer {
        match self.mode {
            TimerMode::Once => {
                let e = if self.elapsed >= d {
                    d
                } else {
                    self.elapsed
                };
                Timer {
                    duration: d,
                    elapsed: e,
                    finished: e == d,
                    just_finished: self.just_finished && e == d,
                    ..self
                }
            },
            TimerMode::Repeating => Timer {
                duration: d,
                elapsed: if self.elapsed >= d {
                    (d - 1) as u64
                } else {
                    self.elapsed
                },
                ..self
            },
        }
    }

    /// Sets a new duration, as `with_duration` says.
    pub fn set_duration(&mut self, duration: u64)
        requires
            old(self).wf(),
            duration > 0,
        ensures
            final(self).wf(),
            *final(self) == old(self).with_duration(duration),
    {
        self.duration = duration;
        if self.elapsed >= duration {
            match self.mode {
                TimerMode::Once => {
                    self.elapsed = duration;
                },
                TimerMode::Repeating => {
                    self.elapsed = duration - 1;
                },
            }
        }
        match self.mode {
            TimerMode::Once => {
                self.finished = self.elapsed == duration;
                self.just_finished = self.just_finished && self.finished;
            },
            TimerMode::Repeating => {},
        }
    }
}

/// The timer after the ticks `deltas`, in order.
pub open spec fn after_ticks(t: Timer, deltas: Seq<u64>) -> Timer
    decreases deltas.len(),
{
    if deltas.len() == 0 {
        t
    } else {
        after_ticks(t, deltas.drop_last()).ticked(deltas.last())
    }
}

/// Sum of a sequence of durations.
pub open spec fn total(deltas: Seq<u64>) -> int
    decreases deltas.len(),
{
    if deltas.len() == 0 {
        0
    } else {
        total(deltas.drop_last()) + deltas.last()
    }
}

/// A one-shot timer started at zero finishes on the first tick at which the
/// time handed to it reaches its duration, and not before.
pub proof fn lemma_once_finishes_at_duration(t: Timer, deltas: Seq<u64>)
    requires
        t.wf(),
        t.mode == TimerMode::Once,
        t.elapsed == 0,
    ensures
        after_ticks(t, deltas).finished == (total(deltas) >= t.duration),
        after_ticks(t, deltas).elapsed == if total(deltas) >= t.duration {
            t.duration as int
        } else {
            total(deltas)
        },
        after_ticks(t, deltas).just_finished == (deltas.len() > 0 && total(deltas) >= t.duration
            && total(deltas.drop_last()) < t.duration),
        after_ticks(t, deltas).duration == t.duration,
        after_ticks(t, deltas).mode == TimerMode::Once,
    decreases deltas.len(),
{
    if deltas.len() > 0 {
        lemma_once_finishes_at_duration(t, deltas.drop_last());
    }
}

} // verus!
