use schulte::clock::{Duration, Instant};
use schulte::gameplay_timer::{advance_timer_view, elapsed_label, GameplayTimer, TimerState};
use schulte::timer::{advance_timer_view as advance_plain_view, Timer, TimerState as PlainTimerState};

fn at_secs(secs: u64) -> Instant {
    Instant::from_since_origin(Duration::from_secs(secs))
}

fn at_millis(millis: u64) -> Instant {
    Instant::from_since_origin(Duration::from_millis(millis))
}

#[test]
fn default_timer_is_paused_and_empty() {
    let mut t = GameplayTimer::default();
    assert_eq!(t.elapsed(), Duration::zero());
    t.tick_duration(Duration::from_secs(5));
    assert_eq!(t.elapsed(), Duration::zero());
}

#[test]
fn timer_state_defaults_to_running() {
    assert_eq!(TimerState::default(), TimerState::Running);
    assert_eq!(PlainTimerState::default(), PlainTimerState::Running);
}

#[test]
fn running_timer_counts_between_readings() {
    let mut t = GameplayTimer::default();
    t.resume_at(at_secs(10)).tick_at(at_secs(12));
    assert_eq!(t.elapsed(), Duration::from_secs(2));
    t.tick_at(at_millis(12_500));
    assert_eq!(t.elapsed(), Duration::from_millis(2_500));
}

#[test]
fn ticking_twice_equals_ticking_once_at_the_later_reading() {
    let mut a = GameplayTimer::default();
    a.resume_at(at_secs(1)).tick_at(at_secs(4)).tick_at(at_secs(9));
    let mut b = GameplayTimer::default();
    b.resume_at(at_secs(1)).tick_at(at_secs(9));
    assert_eq!(a.elapsed(), b.elapsed());
    assert_eq!(a.elapsed(), Duration::from_secs(8));
}

#[test]
fn tick_durations_add_up() {
    let mut a = GameplayTimer::default();
    a.resume_at(at_secs(0));
    a.tick_duration(Duration::from_millis(300)).tick_duration(Duration::from_millis(450));
    let mut b = GameplayTimer::default();
    b.resume_at(at_secs(0));
    b.tick_duration(Duration::from_millis(750));
    assert_eq!(a.elapsed(), b.elapsed());
    assert_eq!(a.elapsed(), Duration::from_millis(750));
}

#[test]
fn paused_time_is_not_counted() {
    let mut t = GameplayTimer::default();
    t.resume_at(at_secs(0)).tick_at(at_secs(3)).pause();
    t.tick_at(at_secs(10)).tick_duration(Duration::from_secs(4));
    assert_eq!(t.elapsed(), Duration::from_secs(3));
    t.resume_at(at_secs(20)).tick_at(at_secs(22));
    assert_eq!(t.elapsed(), Duration::from_secs(5));
}

#[test]
fn stopped_timer_ignores_everything_but_reset() {
    let mut t = GameplayTimer::default();
    t.resume_at(at_secs(0)).tick_at(at_secs(2)).stop();
    t.resume_at(at_secs(3)).tick_at(at_secs(8)).pause().tick_duration(Duration::from_secs(1));
    assert_eq!(t.elapsed(), Duration::from_secs(2));
    t.reset();
    assert_eq!(t.elapsed(), Duration::zero());
    t.resume_at(at_secs(10)).tick_at(at_secs(11));
    assert_eq!(t.elapsed(), Duration::from_secs(1));
}

#[test]
fn reading_before_last_update_counts_nothing() {
    let mut t = GameplayTimer::default();
    t.resume_at(at_secs(10)).tick_at(at_secs(7));
    assert_eq!(t.elapsed(), Duration::zero());
    t.tick_at(at_secs(9));
    assert_eq!(t.elapsed(), Duration::from_secs(2));
}

#[test]
fn force_ticks_count_whatever_the_state() {
    let mut t = GameplayTimer::default();
    t.force_tick_duration(Duration::from_secs(2));
    assert_eq!(t.elapsed(), Duration::from_secs(2));
    t.stop();
    t.force_tick_duration(Duration::from_secs(1));
    assert_eq!(t.elapsed(), Duration::from_secs(3));
}

#[test]
fn force_tick_at_moves_the_last_reading() {
    let mut t = GameplayTimer::default();
    t.resume_at(at_secs(5)).pause();
    t.force_tick_at(at_secs(8));
    assert_eq!(t.elapsed(), Duration::from_secs(3));
    t.resume_at(at_secs(8)).tick_at(at_secs(9));
    assert_eq!(t.elapsed(), Duration::from_secs(4));
}

#[test]
fn resume_reads_the_system_clock() {
    let now = std::time::SystemTime::now().duration_since(std::time::UNIX_EPOCH).unwrap();
    let mut t = GameplayTimer::default();
    t.resume();
    let later = Duration::new(now.as_secs() + 60, now.subsec_nanos());
    t.tick_at(Instant::from_since_origin(later));
    let secs = t.elapsed().as_secs();
    assert!(secs >= 59 && secs <= 60, "counted {} s", secs);
}

#[test]
fn tick_reads_the_system_clock() {
    let now = std::time::SystemTime::now().duration_since(std::time::UNIX_EPOCH).unwrap();
    let mut t = GameplayTimer::default();
    let start = Duration::new(now.as_secs() - 30, now.subsec_nanos());
    t.resume_at(Instant::from_since_origin(start));
    t.tick();
    let secs = t.elapsed().as_secs();
    assert!(secs >= 30 && secs <= 31, "counted {} s", secs);
}

#[test]
fn can_tick_checks_the_range_of_a_running_timer() {
    let mut t = GameplayTimer::default();
    t.resume_at(at_secs(0));
    assert!(t.can_tick_by(&Duration::from_secs(5)));
    t.tick_duration(Duration::from_secs(u64::MAX - 1));
    assert!(!t.can_tick_by(&Duration::from_secs(2)));
    assert!(t.can_tick_by(&Duration::from_secs(1)));
    t.pause();
    assert!(t.can_tick_by(&Duration::from_secs(2)));
}

#[test]
fn plain_timer_behaves_like_the_gameplay_timer() {
    let mut t = Timer::default();
    t.resume_at(at_secs(1)).tick_at(at_secs(3));
    t.tick_duration(Duration::from_millis(500));
    assert_eq!(t.elapsed(), Duration::from_millis(2_500));
    t.pause().tick_at(at_secs(100));
    assert_eq!(t.elapsed(), Duration::from_millis(2_500));
    t.reset();
    assert_eq!(t.elapsed(), Duration::zero());
    t.stop().resume_at(at_secs(200)).tick_at(at_secs(201));
    assert_eq!(t.elapsed(), Duration::zero());
    // the last reading is still 3.5 s: a reset keeps it
    t.force_tick_at(at_secs(250));
    assert_eq!(t.elapsed(), Duration::from_millis(246_500));
    t.force_tick_duration(Duration::from_secs(1));
    t.tick();
    assert_eq!(t.elapsed(), Duration::from_millis(247_500));
}

#[test]
fn label_is_minutes_seconds_millis() {
    assert_eq!(elapsed_label(&Duration::zero()), "00:00.000");
    assert_eq!(elapsed_label(&Duration::new(61, 5_000_000)), "01:01.005");
    assert_eq!(elapsed_label(&Duration::from_millis(754_321)), "12:34.321");
    assert_eq!(elapsed_label(&Duration::new(59, 999_999_999)), "00:59.999");
}

#[test]
fn label_wraps_at_the_hour() {
    assert_eq!(elapsed_label(&Duration::from_secs(3_600)), "00:00.000");
    assert_eq!(elapsed_label(&Duration::from_secs(3_725)), "02:05.000");
}

#[test]
fn timer_view_advances_the_timer() {
    let mut t = GameplayTimer::default();
    t.resume_at(at_secs(0));
    let mut slot = Some(t);
    let label = advance_timer_view(&mut slot, Duration::from_millis(1_250));
    assert_eq!(label, "00:01.250");
    assert_eq!(slot.unwrap().elapsed(), Duration::from_millis(1_250));
    let mut none: Option<GameplayTimer> = None;
    assert_eq!(advance_timer_view(&mut none, Duration::from_secs(3)), "00:00.000");
    assert!(none.is_none());
}

#[test]
fn durations_split_into_parts() {
    let d = Duration::new(3, 1_500_000_000);
    assert_eq!(d.as_secs(), 4);
    assert_eq!(d.subsec_nanos(), 500_000_000);
    assert_eq!(d.subsec_millis(), 500);
    assert_eq!(d.as_nanos(), 4_500_000_000);
    assert_eq!(Duration::from_nanos(7).as_nanos(), 7);
    assert_eq!(Duration::from_secs(2).saturating_sub(&Duration::from_secs(3)), Duration::zero());
    assert_eq!(Duration::from_secs(u64::MAX).checked_add(&Duration::from_secs(1)), None);
    assert_eq!(
        Duration::from_secs(1).checked_add(&Duration::from_millis(1)),
        Some(Duration::from_millis(1_001))
    );
}

#[test]
fn instants_measure_spans() {
    let a = at_secs(5);
    let b = at_secs(8);
    assert_eq!(b.duration_since(&a), Duration::from_secs(3));
    assert_eq!(a.duration_since(&b), Duration::zero());
    assert_eq!(a.checked_add(&Duration::from_secs(3)), Some(b));
    assert_eq!(a.plus(&Duration::from_secs(3)), b);
    assert_eq!(b.since_origin(), Duration::from_secs(8));
}

#[test]
fn plain_timer_view_advances_the_timer() {
    let mut t = Timer::default();
    t.resume_at(at_secs(0));
    let mut slot = Some(t);
    assert_eq!(advance_plain_view(&mut slot, Duration::from_millis(61_007)), "01:01.007");
    assert_eq!(slot.unwrap().elapsed(), Duration::from_millis(61_007));
    let mut none: Option<Timer> = None;
    assert_eq!(advance_plain_view(&mut none, Duration::from_secs(3)), "00:00.000");
    assert!(none.is_none());
}
