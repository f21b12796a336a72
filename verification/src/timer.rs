use vstd::prelude::*;
use crate::clock::{read_clock, MAX_NANOS, Duration, Instant};
use crate::gameplay_timer::{elapsed_label, elapsed_label_of};
use crate::timer_model::{Phase, TimerModel};

verus! {

/// Whether the general-purpose stopwatch is counting, paused, or stopped.
#[derive(Debug, Clone, Copy, PartialEq, Eq, Structural)]
pub enum TimerState {
    Running,
    Paused,
    Stopped,
}

impl TimerState {
    pub open spec fn phase(self) -> Phase {
        match self {
            TimerState::Running => Phase::Running,
            TimerState::Paused => Phase::Paused,
            TimerState::Stopped => Phase::Stopped,
        }
    }
}

impl Default for TimerState {
    fn default() -> (r: Self)
        ensures
            r == TimerState::Running,
    {
        TimerState::Running
    }
}

/// A general-purpose stopwatch.
#[derive(Debug, Clone, Copy)]
pub struct Timer {
    state: TimerState,
    elapsed: Duration,
    last_update: Instant,
}

impl View for Timer {
    type V = TimerModel;

    closed spec fn view(&self) -> TimerModel {
        TimerModel {
            phase: self.state.phase(),
            elapsed: self.elapsed@,
            last_update: self.last_update@,
        }
    }
}

impl Default for Timer {
    /// A paused stopwatch with nothing counted, last read now.
    fn default() -> (r: Self)
        ensures
            r@.phase is Paused,
            r@.elapsed == 0,
            r@.last_update <= MAX_NANOS,
    {
        Timer { state: TimerState::Paused, elapsed: Duration::zero(), last_update: read_clock() }
    }
}

impl Timer {
    /// A paused stopwatch starts counting from reading `at`; a running or stopped one is left as it is.
    pub fn resume_at(&mut self, at: Instant) -> (r: &mut Self)
        ensures
            (*r)@ == old(self)@.resumed_at(at@),
            *final(self) == *final(r),
    {
        if let TimerState::Paused = self.state {
            self.state = TimerState::Running;
            self.last_update = at;
        }
        self
    }

    /// Resumes at the current reading of the system clock.
    pub fn resume(&mut self) -> (r: &mut Self)
        ensures
            exists|at: nat| at <= MAX_NANOS && (*r)@ == old(self)@.resumed_at(at),
            *final(self) == *final(r),
    {
        let now = read_clock();
        self.resume_at(now);
        self
    }

    /// A running stopwatch stops counting; a paused or stopped one is left as it is.
    pub fn pause(&mut self) -> (r: &mut Self)
        ensures
            (*r)@ == old(self)@.paused(),
            *final(self) == *final(r),
    {
        if let TimerState::Running = self.state {
            self.state = TimerState::Paused;
        }
        self
    }

    /// Stops the stopwatch; only a reset makes it usable again.
    pub fn stop(&mut self) -> (r: &mut Self)
        ensures
            (*r)@ == old(self)@.stopped(),
            *final(self) == *final(r),
    {
        self.state = TimerState::Stopped;
        self
    }

    /// Pauses the stopwatch and clears the counted time.
    pub fn reset(&mut self) -> (r: &mut Self)
        ensures
            (*r)@ == old(self)@.reset(),
            *final(self) == *final(r),
    {
        self.state = TimerState::Paused;
        self.elapsed = Duration::zero();
        self
    }

    /// A running stopwatch counts the time up to reading `at`; others are left as they are.
    pub fn tick_at(&mut self, at: Instant) -> (r: &mut Self)
        requires
            old(self)@.phase is Running ==> old(self)@.can_count_until(at@),
        ensures
            (*r)@ == old(self)@.ticked_at(at@),
            *final(self) == *final(r),
    {
        if let TimerState::Running = self.state {
            self.force_tick_at(at);
        }
        self
    }

    /// A running stopwatch counts `dur` more; others are left as they are.
    pub fn tick_duration(&mut self, dur: Duration) -> (r: &mut Self)
        requires
            old(self)@.phase is Running ==> old(self)@.can_count_by(dur@),
        ensures
            (*r)@ == old(self)@.ticked_by(dur@),
            *final(self) == *final(r),
    {
        if let TimerState::Running = self.state {
            self.elapsed = self.elapsed.plus(&dur);
            self.last_update = self.last_update.plus(&dur);
        }
        self
    }

    /// Ticks at the current reading of the system clock. Where counting up to that reading
    /// would leave the range of a duration, the stopwatch is left as it is.
    pub fn tick(&mut self) -> (r: &mut Self)
        ensures
            exists|at: nat|
                at <= MAX_NANOS && if old(self)@.phase is Running && !old(self)@.can_count_until(at) {
                    (*r)@ == old(self)@
                } else {
                    (*r)@ == old(self)@.ticked_at(at)
                },
            *final(self) == *final(r),
    {
        let now = read_clock();
        let fits = self.fits_until(&now);
        if let TimerState::Running = self.state {
            if !fits {
                return self;
            }
        }
        self.tick_at(now)
    }

    /// Counts `dur` more and moves the last reading on by `dur`, whatever the state.
    pub fn force_tick_duration(&mut self, dur: Duration) -> (r: &mut Self)
        requires
            old(self)@.can_count_by(dur@),
        ensures
            (*r)@ == old(self)@.force_ticked_by(dur@),
            *final(self) == *final(r),
    {
        self.elapsed = self.elapsed.plus(&dur);
        self.last_update = self.last_update.plus(&dur);
        self
    }

    /// Counts the time from the last reading up to reading `at`, whatever the state.
    pub fn force_tick_at(&mut self, at: Instant) -> (r: &mut Self)
        requires
            old(self)@.can_count_until(at@),
        ensures
            (*r)@ == old(self)@.force_ticked_at(at@),
            *final(self) == *final(r),
    {
        let delta = at.duration_since(&self.last_update);
        self.elapsed = self.elapsed.plus(&delta);
        self.last_update = at;
        self
    }

    /// The time counted so far.
    pub fn elapsed(&self) -> (r: Duration)
        ensures
            r@ == self@.elapsed,
    {
        self.elapsed
    }

    /// Whether `tick_duration(dur)` may be called: a running stopwatch must be able to count
    /// `dur` more within range.
    pub fn can_tick_by(&self, dur: &Duration) -> (r: bool)
        ensures
            r == (self@.phase is Running ==> self@.can_count_by(dur@)),
    {
        match self.state {
            TimerState::Running => {
                self.elapsed.checked_add(dur).is_some() && self.last_update.checked_add(dur).is_some()
            },
            _ => true,
        }
    }

    /// Whether counting up to reading `at` stays in range.
    fn fits_until(&self, at: &Instant) -> (r: bool)
        ensures
            r == self@.can_count_until(at@),
    {
        let delta = at.duration_since(&self.last_update);
        self.elapsed.checked_add(&delta).is_some()
    }
}

/// Advances the stopwatch, if there is one, by the frame time `delta`, and gives the text its
/// view shows: the counted time, or zero when there is no stopwatch.
pub fn advance_timer_view(timer: &mut Option<Timer>, delta: Duration) -> (r: String)
    requires
        *old(timer) matches Some(t) ==> (t@.phase is Running ==> t@.can_count_by(delta@)),
    ensures
        *old(timer) is None ==> *final(timer) is None && r@ == elapsed_label_of(0),
        *old(timer) matches Some(t) ==> *final(timer) matches Some(u) && u@ == t@.ticked_by(delta@)
            && r@ == elapsed_label_of(u@.elapsed),
{
    match timer {
        Some(t) => {
            t.tick_duration(delta);
            elapsed_label(&t.elapsed())
        },
        None => elapsed_label(&Duration::zero()),
    }
}

} // verus!
