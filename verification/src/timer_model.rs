use vstd::prelude::*;
use crate::clock::{elapsed_between, MAX_NANOS};

verus! {

/// Whether a stopwatch is counting, paused, or stopped for good.
pub enum Phase {
    Running,
    Paused,
    Stopped,
}

/// The abstract state of a stopwatch: its phase, the time it has counted and the clock
/// reading (in nanoseconds since the clock's origin) up to which it has counted.
pub struct TimerModel {
    pub phase: Phase,
    pub elapsed: nat,
    pub last_update: nat,
}

impl TimerModel {
    /// A paused stopwatch starts counting from reading `at`; others are left as they are.
    pub open spec fn resumed_at(self, at: nat) -> TimerModel {
        if self.phase is Paused {
            TimerModel { phase: Phase::Running, last_update: at, ..self }
        } else {
            self
        }
    }

    /// A running stopwatch stops counting; others are left as they are.
    pub open spec fn paused(self) -> TimerModel {
        if self.phase is Running {
            TimerModel { phase: Phase::Paused, ..self }
        } else {
            self
        }
    }

    /// The stopwatch stops for good (only a reset brings it back).
    pub open spec fn stopped(self) -> TimerModel {
        TimerModel { phase: Phase::Stopped, ..self }
    }

    /// The stopwatch is paused with nothing counted; its last reading is kept.
    pub open spec fn reset(self) -> TimerModel {
        TimerModel { phase: Phase::Paused, elapsed: 0, ..self }
    }

    /// Counts the time from the last reading to `at`, whatever the phase.
    pub open spec fn force_ticked_at(self, at: nat) -> TimerModel {
        TimerModel {
            elapsed: self.elapsed + elapsed_between(self.last_update, at),
            last_update: at,
            ..self
        }
    }

    /// A running stopwatch counts the time up to reading `at`; others are left as they are.
    pub open spec fn ticked_at(self, at: nat) -> TimerModel {
        if self.phase is Running {
            self.force_ticked_at(at)
        } else {
            self
        }
    }

    /// Counts `dur` more and moves the last reading on by `dur`, whatever the phase.
    pub open spec fn force_ticked_by(self, dur: nat) -> TimerModel {
        TimerModel { elapsed: self.elapsed + dur, last_update: self.last_update + dur, ..self }
    }

    /// A running stopwatch counts `dur` more; others are left as they are.
    pub open spec fn ticked_by(self, dur: nat) -> TimerModel {
        if self.phase is Running {
            self.force_ticked_by(dur)
        } else {
            self
        }
    }

    /// Counting up to reading `at` stays within the range of a duration.
    pub open spec fn can_count_until(self, at: nat) -> bool {
        self.elapsed + elapsed_between(self.last_update, at) <= MAX_NANOS
    }

    /// Counting `dur` more stays within the range of a duration and of a clock reading.
    pub open spec fn can_count_by(self, dur: nat) -> bool {
        &&& self.elapsed + dur <= MAX_NANOS
        &&& self.last_update + dur <= MAX_NANOS
    }
}


/// Ticking at a reading and then at a later one counts the same as ticking only at the later one.
pub proof fn lemma_tick_at_composes(m: TimerModel, t1: nat, t2: nat)
    requires
        m.last_update <= t1 <= t2,
    ensures
        m.ticked_at(t1).ticked_at(t2) == m.ticked_at(t2),
{
}

/// Ticking by one span and then by another counts the same as ticking once by their sum.
pub proof fn lemma_tick_by_additive(m: TimerModel, a: nat, b: nat)
    ensures
        m.ticked_by(a).ticked_by(b) == m.ticked_by(a + b),
        m.force_ticked_by(a).force_ticked_by(b) == m.force_ticked_by(a + b),
{
}

/// Only a reset lowers the counted time: every other operation keeps it or raises it.
pub proof fn lemma_elapsed_never_decreases(m: TimerModel, at: nat, dur: nat)
    ensures
        m.resumed_at(at).elapsed == m.elapsed,
        m.paused().elapsed == m.elapsed,
        m.stopped().elapsed == m.elapsed,
        m.ticked_at(at).elapsed >= m.elapsed,
        m.ticked_by(dur).elapsed >= m.elapsed,
        m.force_ticked_at(at).elapsed >= m.elapsed,
        m.force_ticked_by(dur).elapsed >= m.elapsed,
{
}

/// A stopwatch that is not running counts nothing when ticked.
pub proof fn lemma_idle_counts_nothing(m: TimerModel, at: nat, dur: nat)
    requires
        !(m.phase is Running),
    ensures
        m.ticked_at(at) == m,
        m.ticked_by(dur) == m,
{
}

/// A stopped stopwatch ignores resume, pause and ticks; a reset makes it paused and empty.
pub proof fn lemma_stopped_until_reset(m: TimerModel, at: nat, dur: nat)
    requires
        m.phase is Stopped,
    ensures
        m.resumed_at(at) == m,
        m.paused() == m,
        m.ticked_at(at) == m,
        m.ticked_by(dur) == m,
        m.reset().phase is Paused,
        m.reset().elapsed == 0,
{
}

/// The time between a pause and the following resume is not counted.
pub proof fn lemma_pause_excludes_paused_time(m: TimerModel, p: nat, r: nat, t: nat)
    requires
        m.phase is Running,
        m.last_update <= p,
        r <= t,
    ensures
        m.ticked_at(p).paused().resumed_at(r).ticked_at(t).elapsed
            == m.elapsed + (p - m.last_update) + (t - r),
        m.ticked_at(p).paused().resumed_at(r).ticked_at(t).phase is Running,
{
}

/// After a reset and a resume at reading `r`, a tick at a later reading `t` has counted
/// exactly the time from `r` to `t`.
pub proof fn lemma_restart_counts_from_resume(m: TimerModel, r: nat, t: nat)
    requires
        r <= t,
    ensures
        m.reset().resumed_at(r).ticked_at(t).elapsed == t - r,
        m.reset().resumed_at(r).ticked_at(t).phase is Running,
{
}

} // verus!
