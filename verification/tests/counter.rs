use schulte::level_progress_tracker::{CheckResult as TrackerCheckResult, LevelProgressTracker};
use schulte::sequential_counter::{CheckResult, SequentialCounter, START_LEVEL};

#[test]
fn new_counter_starts_at_zero() {
    let c = SequentialCounter::new(9);
    assert_eq!(c.current_level(), START_LEVEL);
    assert_eq!(c.max_level(), 9);
    assert!(!c.is_level_completed());
    assert!(c.visited(0));
    assert!(!c.visited(1));
}

#[test]
fn first_correct_click_opens_the_round() {
    let mut c = SequentialCounter::new(9);
    assert_eq!(c.check_cell(1), CheckResult::Correct { is_first: true });
    assert_eq!(c.current_level(), 1);
    assert_eq!(c.check_cell(2), CheckResult::Correct { is_first: false });
    assert_eq!(c.current_level(), 2);
}

#[test]
fn wrong_click_does_not_advance() {
    let mut c = SequentialCounter::new(9);
    assert_eq!(c.check_cell(3), CheckResult::Incorrect);
    assert_eq!(c.current_level(), 0);
    assert_eq!(c.check_cell(0), CheckResult::Visited);
    assert_eq!(c.current_level(), 0);
    c.check_cell(1);
    assert_eq!(c.check_cell(1), CheckResult::Visited);
    assert_eq!(c.check_cell(9), CheckResult::Incorrect);
    assert_eq!(c.current_level(), 1);
}

#[test]
fn clicking_in_order_completes_the_round() {
    let mut c = SequentialCounter::new(9);
    for cell in 1..=9u8 {
        assert!(!c.is_level_completed());
        assert_eq!(c.check_cell(cell), CheckResult::Correct { is_first: cell == 1 });
    }
    assert!(c.is_level_completed());
    assert_eq!(c.current_level(), 9);
}

#[test]
fn visited_cells_stay_visited() {
    let mut c = SequentialCounter::new(4);
    c.check_cell(1);
    c.check_cell(2);
    assert!(c.visited(2));
    c.check_cell(4);
    c.check_cell(1);
    assert!(c.visited(1) && c.visited(2));
    assert!(!c.visited(3));
}

#[test]
fn empty_round_is_complete_from_the_start() {
    let c = SequentialCounter::new(0);
    assert!(c.is_level_completed());
}

#[test]
fn counter_reaches_the_last_representable_level() {
    let mut c = SequentialCounter::new(255);
    for cell in 1..=254u8 {
        c.check_cell(cell);
    }
    assert_eq!(c.check_cell(255), CheckResult::Correct { is_first: false });
    assert!(c.is_level_completed());
}

struct FixedTracker {
    current: u8,
    max: u8,
}

impl LevelProgressTracker for FixedTracker {
    fn spec_current_level(&self) -> u8 {
        self.current
    }

    fn spec_max_level(&self) -> u8 {
        self.max
    }

    fn current_level(&self) -> u8 {
        self.current
    }

    fn max_level(&self) -> u8 {
        self.max
    }

    fn check_cell(&mut self, cell_index: u8) -> TrackerCheckResult {
        if cell_index == self.current + 1 {
            self.current += 1;
            TrackerCheckResult::Correct
        } else if cell_index <= self.current {
            TrackerCheckResult::Visited
        } else {
            TrackerCheckResult::Incorrect
        }
    }
}

#[test]
fn tracker_default_methods_follow_the_levels() {
    let mut t = FixedTracker { current: 2, max: 3 };
    assert!(t.visited(2));
    assert!(!t.visited(3));
    assert!(!t.is_level_completed());
    assert_eq!(t.check_cell(3), TrackerCheckResult::Correct);
    assert!(t.is_level_completed());
}

#[test]
fn level_counts_the_correct_clicks_in_order() {
    let mut c = SequentialCounter::new(9);
    let clicks = [3u8, 1, 1, 2, 5, 0, 3, 9, 4, 4, 2];
    let mut correct = Vec::new();
    for cell in clicks {
        if let CheckResult::Correct { .. } = c.check_cell(cell) {
            correct.push(cell);
        }
    }
    assert_eq!(c.current_level() as usize, correct.len());
    assert_eq!(correct, vec![1, 2, 3, 4]);
    assert_eq!(c.max_level(), 9);
}
