use vstd::prelude::*;

verus! {

/// What a click on a cell means for a tracker's round.
#[derive(Debug, Clone, Copy, PartialEq, Eq, Structural)]
pub enum CheckResult {
    Correct,
    Visited,
    Incorrect,
}

/// The interface of anything that tracks how far a round of cells has been cleared.
pub trait LevelProgressTracker {
    /// The highest cell cleared so far.
    spec fn spec_current_level(&self) -> u8;

    /// The number of cells in the round.
    spec fn spec_max_level(&self) -> u8;

    fn current_level(&self) -> (r: u8)
        ensures
            r == self.spec_current_level(),
    ;

    fn max_level(&self) -> (r: u8)
        ensures
            r == self.spec_max_level(),
    ;

    /// Whether `cell_index` has already been cleared.
    fn visited(&self, cell_index: u8) -> (r: bool)
        ensures
            r == (cell_index <= self.spec_current_level()),
    {
        cell_index <= self.current_level()
    }

    /// Whether every cell of the round has been cleared.
    fn is_level_completed(&self) -> (r: bool)
        ensures
            r == (self.spec_current_level() >= self.spec_max_level()),
    {
        self.current_level() >= self.max_level()
    }

    /// Judges a click on `cell_index`.
    fn check_cell(&mut self, cell_index: u8) -> CheckResult;
}

} // verus!
