//! One-shot timers, measured in whole milliseconds.

use vstd::prelude::*;

verus! {

/// A non-repeating timer: `elapsed_ms` accrues tick by tick up to
/// `duration_ms` and then stays there. `just_finished` holds exactly for
/// the tick on which the duration was reached.
#[derive(Clone, Copy, Debug, PartialEq, Eq, Structural)]
pub struct Timer {
    pub elapsed_ms: u64,
    pub duration_ms: u64,
    pub just_finished: bool,
}

impl Timer {
    /// Well-formedness: a positive duration, elapsed time never past it,
    /// and `just_finished` only at the moment of completion.
    pub open spec fn wf(self) -> bool {
        &&& 1 <= self.duration_ms
        &&& self.elapsed_ms <= self.duration_ms
        &&& self.just_finished ==> self.elapsed_ms == self.duration_ms
    }

    /// The timer has run its full duration.
    pub open spec fn finished(self) -> bool {
        self.elapsed_ms == self.duration_ms
    }

    /// The timer after one tick of `delta_ms`: time accrues up to the
    /// duration; once finished, further ticks change nothing except that
    /// `just_finished` no longer holds.
    pub open spec fn ticked(self, delta_ms: u64) -> Timer {
        if self.finished() {
            Timer { just_finished: false, ..self }
        } else if self.duration_ms - self.elapsed_ms <= delta_ms {
            Timer { elapsed_ms: self.duration_ms, just_finished: true, ..self }
        } else {
            Timer { elapsed_ms: (self.elapsed_ms + delta_ms) as u64, just_finished: false, ..self }
        }
    }

    /// The timer wound back to the start, keeping its duration.
    pub open spec fn restarted(self) -> Timer {
        Timer { elapsed_ms: 0, just_finished: false, ..self }
    }

    /// A fresh timer that has not run yet.
    pub fn new(duration_ms: u64) -> (t: Timer)
        requires
            1 <= duration_ms,
        ensures
            t == (Timer { elapsed_ms: 0, duration_ms, just_finished: false }),
            t.wf(),
    {
        Timer { elapsed_ms: 0, duration_ms, just_finished: false }
    }

    /// A timer that has already run out, as if its whole duration had
    /// passed long ago.
    pub fn new_finished(duration_ms: u64) -> (t: Timer)
        requires
            1 <= duration_ms,
        ensures
            t == (Timer { elapsed_ms: duration_ms, duration_ms, just_finished: false }),
            t.wf(),
            t.finished(),
    {
        Timer { elapsed_ms: duration_ms, duration_ms, just_finished: false }
    }

    /// Advance the timer by `delta_ms` milliseconds.
    pub fn tick(&mut self, delta_ms: u64)
        requires
            old(self).wf(),
        ensures
            final(self).wf(),
            *final(self) == old(self).ticked(delta_ms),
    {
        if self.elapsed_ms == self.duration_ms {
            self.just_finished = false;
        } else if self.duration_ms - self.elapsed_ms <= delta_ms {
            self.elapsed_ms = self.duration_ms;
            self.just_finished = true;
        } else {
            self.elapsed_ms = self.elapsed_ms + delta_ms;
            self.just_finished = false;
        }
    }

    /// Wind the timer back to the start so it can run again.
    pub fn reset(&mut self)
        requires
            old(self).wf(),
        ensures
            final(self).wf(),
            *final(self) == old(self).restarted(),
    {
        self.elapsed_ms = 0;
        self.just_finished = false;
    }
}

} // verus!
