use vstd::prelude::*;
use crate::clock::{read_clock, MAX_NANOS, subsec_millis_of, whole_secs, Duration, Instant};
use vstd::string::StringExecFns;
use crate::timer_model::{Phase, TimerModel};

verus! {

/// Whether the gameplay stopwatch is counting, paused, or stopped.
#[derive(Debug, Clone, Copy, PartialEq, Eq, Structural)]
pub enum TimerState {
    Running,
    Paused,
    Stopped,
}

impl TimerState {
    pub open spec fn phase(self) -> Phase {
        match self {
            TimerState::Running => Phase::Running,
            TimerState::Paused => Phase::Paused,
            TimerState::Stopped => Phase::Stopped,
        }
    }
}

impl Default for TimerState {
    fn default() -> (r: Self)
        ensures
            r == TimerState::Running,
    {
        TimerState::Running
    }
}

/// The stopwatch that measures one round of the game.
#[derive(Debug, Clone, Copy)]
pub struct GameplayTimer {
    state: TimerState,
    elapsed: Duration,
    last_update: Instant,
}

impl View for GameplayTimer {
    type V = TimerModel;

    closed spec fn view(&self) -> TimerModel {
        TimerModel {
            phase: self.state.phase(),
            elapsed: self.elapsed@,
            last_update: self.last_update@,
        }
    }
}

impl Default for GameplayTimer {
    /// A paused stopwatch with nothing counted, last read now.
    fn default() -> (r: Self)
        ensures
            r@.phase is Paused,
            r@.elapsed == 0,
            r@.last_update <= MAX_NANOS,
    {
        GameplayTimer { state: TimerState::Paused, elapsed: Duration::zero(), last_update: read_clock() }
    }
}

impl GameplayTimer {
    /// A paused stopwatch starts counting from reading `at`; a running or stopped one is left as it is.
    pub fn resume_at(&mut self, at: Instant) -> (r: &mut Self)
        ensures
            (*r)@ == old(self)@.resumed_at(at@),
            *final(self) == *final(r),
    {
        if let TimerState::Paused = self.state {
            self.state = TimerState::Running;
            self.last_update = at;
        }
        self
    }

    /// Resumes at the current reading of the system clock.
    pub fn resume(&mut self) -> (r: &mut Self)
        ensures
            exists|at: nat| at <= MAX_NANOS && (*r)@ == old(self)@.resumed_at(at),
            *final(self) == *final(r),
    {
        let now = read_clock();
        self.resume_at(now);
        self
    }

    /// A running stopwatch stops counting; a paused or stopped one is left as it is.
    pub fn pause(&mut self) -> (r: &mut Self)
        ensures
            (*r)@ == old(self)@.paused(),
            *final(self) == *final(r),
    {
        if let TimerState::Running = self.state {
            self.state = TimerState::Paused;
        }
        self
    }

    /// Stops the stopwatch; only a reset makes it usable again.
    pub fn stop(&mut self) -> (r: &mut Self)
        ensures
            (*r)@ == old(self)@.stopped(),
            *final(self) == *final(r),
    {
        self.state = TimerState::Stopped;
        self
    }

    /// Pauses the stopwatch and clears the counted time.
    pub fn reset(&mut self) -> (r: &mut Self)
        ensures
            (*r)@ == old(self)@.reset(),
            *final(self) == *final(r),
    {
        self.state = TimerState::Paused;
        self.elapsed = Duration::zero();
        self
    }

    /// A running stopwatch counts the time up to reading `at`; others are left as they are.
    pub fn tick_at(&mut self, at: Instant) -> (r: &mut Self)
        requires
            old(self)@.phase is Running ==> old(self)@.can_count_until(at@),
        ensures
            (*r)@ == old(self)@.ticked_at(at@),
            *final(self) == *final(r),
    {
        if let TimerState::Running = self.state {
            self.force_tick_at(at);
        }
        self
    }

    /// A running stopwatch counts `dur` more; others are left as they are.
    pub fn tick_duration(&mut self, dur: Duration) -> (r: &mut Self)
        requires
            old(self)@.phase is Running ==> old(self)@.can_count_by(dur@),
        ensures
            (*r)@ == old(self)@.ticked_by(dur@),
            *final(self) == *final(r),
    {
        if let TimerState::Running = self.state {
            self.elapsed = self.elapsed.plus(&dur);
            self.last_update = self.last_update.plus(&dur);
        }
        self
    }

    /// Ticks at the current reading of the system clock. Where counting up to that reading
    /// would leave the range of a duration, the stopwatch is left as it is.
    pub fn tick(&mut self) -> (r: &mut Self)
        ensures
            exists|at: nat|
                at <= MAX_NANOS && if old(self)@.phase is Running && !old(self)@.can_count_until(at) {
                    (*r)@ == old(self)@
                } else {
                    (*r)@ == old(self)@.ticked_at(at)
                },
            *final(self) == *final(r),
    {
        let now = read_clock();
        let fits = self.fits_until(&now);
        if let TimerState::Running = self.state {
            if !fits {
                return self;
            }
        }
        self.tick_at(now)
    }

    /// Counts `dur` more and moves the last reading on by `dur`, whatever the state.
    pub fn force_tick_duration(&mut self, dur: Duration) -> (r: &mut Self)
        requires
            old(self)@.can_count_by(dur@),
        ensures
            (*r)@ == old(self)@.force_ticked_by(dur@),
            *final(self) == *final(r),
    {
        self.elapsed = self.elapsed.plus(&dur);
        self.last_update = self.last_update.plus(&dur);
        self
    }

    /// Counts the time from the last reading up to reading `at`, whatever the state.
    pub fn force_tick_at(&mut self, at: Instant) -> (r: &mut Self)
        requires
            old(self)@.can_count_until(at@),
        ensures
            (*r)@ == old(self)@.force_ticked_at(at@),
            *final(self) == *final(r),
    {
        let delta = at.duration_since(&self.last_update);
        self.elapsed = self.elapsed.plus(&delta);
        self.last_update = at;
        self
    }

    /// The time counted so far.
    pub fn elapsed(&self) -> (r: Duration)
        ensures
            r@ == self@.elapsed,
    {
        self.elapsed
    }

    /// Whether `tick_duration(dur)` may be called: a running stopwatch must be able to count
    /// `dur` more within range.
    pub fn can_tick_by(&self, dur: &Duration) -> (r: bool)
        ensures
            r == (self@.phase is Running ==> self@.can_count_by(dur@)),
    {
        match self.state {
            TimerState::Running => {
                self.elapsed.checked_add(dur).is_some() && self.last_update.checked_add(dur).is_some()
            },
            _ => true,
        }
    }

    /// Whether counting up to reading `at` stays in range.
    fn fits_until(&self, at: &Instant) -> (r: bool)
        ensures
            r == self@.can_count_until(at@),
    {
        let delta = at.duration_since(&self.last_update);
        self.elapsed.checked_add(&delta).is_some()
    }
}

/// The decimal digit `d` (below ten) as a character.
pub open spec fn digit_char(d: nat) -> char {
    if d == 0 { '0' }
    else if d == 1 { '1' }
    else if d == 2 { '2' }
    else if d == 3 { '3' }
    else if d == 4 { '4' }
    else if d == 5 { '5' }
    else if d == 6 { '6' }
    else if d == 7 { '7' }
    else if d == 8 { '8' }
    else { '9' }
}

/// The clock face `MM:SS.mmm` of a span of `nanos` nanoseconds: minutes and seconds within
/// the hour and minute, and the milliseconds, zero-padded.
pub open spec fn elapsed_label_of(nanos: nat) -> Seq<char> {
    let secs = whole_secs(nanos);
    let minutes = (secs / 60) % 60;
    let seconds = secs % 60;
    let millis = subsec_millis_of(nanos) % 1000;
    seq![
        digit_char(minutes / 10),
        digit_char(minutes % 10),
        ':',
        digit_char(seconds / 10),
        digit_char(seconds % 10),
        '.',
        digit_char(millis / 100),
        digit_char((millis / 10) % 10),
        digit_char(millis % 10),
    ]
}

fn digit_str(d: u64) -> (r: &'static str)
    requires
        d < 10,
    ensures
        r@ == seq![digit_char(d as nat)],
        r@.len() == 1 && r@[0] as u32 == 48 + d,
{
    proof {
        reveal_strlit("0");
        reveal_strlit("1");
        reveal_strlit("2");
        reveal_strlit("3");
        reveal_strlit("4");
        reveal_strlit("5");
        reveal_strlit("6");
        reveal_strlit("7");
        reveal_strlit("8");
        reveal_strlit("9");
    }
    if d == 0 { "0" }
    else if d == 1 { "1" }
    else if d == 2 { "2" }
    else if d == 3 { "3" }
    else if d == 4 { "4" }
    else if d == 5 { "5" }
    else if d == 6 { "6" }
    else if d == 7 { "7" }
    else if d == 8 { "8" }
    else { "9" }
}

/// The text a timer view shows for `elapsed`: `MM:SS.mmm`.
pub fn elapsed_label(elapsed: &Duration) -> (r: String)
    ensures
        r@ == elapsed_label_of(elapsed@),
{
    let secs = elapsed.as_secs();
    let minutes: u64 = (secs / 60) % 60;
    let seconds: u64 = secs % 60;
    let millis: u64 = (elapsed.subsec_millis() % 1000) as u64;
    proof {
        reveal_strlit(":");
        reveal_strlit(".");
    }
    let mut label = String::new();
    label.append(digit_str(minutes / 10));
    label.append(digit_str(minutes % 10));
    label.append(":");
    label.append(digit_str(seconds / 10));
    label.append(digit_str(seconds % 10));
    label.append(".");
    label.append(digit_str(millis / 100));
    label.append(digit_str((millis / 10) % 10));
    label.append(digit_str(millis % 10));
    assert(label@ =~= elapsed_label_of(elapsed@));
    label
}

/// Each digit is written as its ASCII decimal character: `'0'` plus the digit.
pub proof fn lemma_digit_char_is_decimal(d: nat)
    requires
        d < 10,
    ensures
        digit_char(d) as u32 == 48 + d,
{
}

/// The clock face reads back as the time it shows: two decimal digits of the minutes within
/// the hour, a colon, two of the seconds within the minute, a dot and three of the
/// milliseconds.
pub proof fn lemma_label_reads_back(nanos: nat)
    ensures
        elapsed_label_of(nanos).len() == 9,
        elapsed_label_of(nanos)[2] == ':',
        elapsed_label_of(nanos)[5] == '.',
        (elapsed_label_of(nanos)[0] as u32 - 48) * 10 + (elapsed_label_of(nanos)[1] as u32 - 48)
            == (whole_secs(nanos) / 60) % 60,
        (elapsed_label_of(nanos)[3] as u32 - 48) * 10 + (elapsed_label_of(nanos)[4] as u32 - 48)
            == whole_secs(nanos) % 60,
        (elapsed_label_of(nanos)[6] as u32 - 48) * 100 + (elapsed_label_of(nanos)[7] as u32 - 48)
            * 10 + (elapsed_label_of(nanos)[8] as u32 - 48) == subsec_millis_of(nanos) % 1000,
{
    let secs = whole_secs(nanos);
    let minutes = (secs / 60) % 60;
    let seconds = secs % 60;
    let millis = subsec_millis_of(nanos) % 1000;
    lemma_digit_char_is_decimal(minutes / 10);
    lemma_digit_char_is_decimal(minutes % 10);
    lemma_digit_char_is_decimal(seconds / 10);
    lemma_digit_char_is_decimal(seconds % 10);
    lemma_digit_char_is_decimal(millis / 100);
    lemma_digit_char_is_decimal((millis / 10) % 10);
    lemma_digit_char_is_decimal(millis % 10);
}

/// Advances the round's stopwatch, if there is one, by the frame time `delta`, and gives the
/// text its view shows: the counted time, or zero when there is no stopwatch.
pub fn advance_timer_view(timer: &mut Option<GameplayTimer>, delta: Duration) -> (r: String)
    requires
        *old(timer) matches Some(t) ==> (t@.phase is Running ==> t@.can_count_by(delta@)),
    ensures
        *old(timer) is None ==> *final(timer) is None && r@ == elapsed_label_of(0),
        *old(timer) matches Some(t) ==> *final(timer) matches Some(u) && u@ == t@.ticked_by(delta@)
            && r@ == elapsed_label_of(u@.elapsed),
{
    match timer {
        Some(t) => {
            t.tick_duration(delta);
            elapsed_label(&t.elapsed())
        },
        None => elapsed_label(&Duration::zero()),
    }
}

} // verus!
