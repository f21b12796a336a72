use vstd::prelude::*;

verus! {

/// The level a fresh counter starts from: nothing has been cleared yet.
pub const START_LEVEL: u8 = 0;

/// What a click on a cell means for the progress of a round.
#[derive(Debug, Clone, Copy, PartialEq, Eq, Structural)]
pub enum CheckResult {
    /// The cell was the next one in order; `is_first` tells whether it opened the round.
    Correct { is_first: bool },
    /// The cell had already been cleared.
    Visited,
    /// The cell lies beyond the next one.
    Incorrect,
}

/// The abstract state of a round: the highest cell cleared so far and the number of cells.
pub struct LevelProgress {
    pub current_level: u8,
    pub max_level: u8,
}

impl LevelProgress {
    /// Cell `cell_index` counts as cleared.
    pub open spec fn visited(self, cell_index: u8) -> bool {
        cell_index <= self.current_level
    }

    /// Every cell of the round has been cleared.
    pub open spec fn is_level_completed(self) -> bool {
        self.current_level >= self.max_level
    }

    /// How a click on `cell_index` is judged.
    pub open spec fn judge(self, cell_index: u8) -> CheckResult {
        if cell_index == self.current_level + 1 {
            CheckResult::Correct { is_first: self.current_level == START_LEVEL }
        } else if cell_index <= self.current_level {
            CheckResult::Visited
        } else {
            CheckResult::Incorrect
        }
    }

    /// The progress after a click on `cell_index`: only the next cell in order advances it.
    pub open spec fn after_click(self, cell_index: u8) -> LevelProgress {
        if cell_index == self.current_level + 1 {
            LevelProgress { current_level: cell_index, max_level: self.max_level }
        } else {
            self
        }
    }
}

/// Tracks how far a player has cleared the cells `1, 2, ..., max_level` in order.
#[derive(Debug)]
pub struct SequentialCounter {
    current_level: u8,
    max_level: u8,
}

impl View for SequentialCounter {
    type V = LevelProgress;

    closed spec fn view(&self) -> LevelProgress {
        LevelProgress { current_level: self.current_level, max_level: self.max_level }
    }
}

impl SequentialCounter {
    /// A round of `max_level` cells in which nothing has been cleared yet.
    pub fn new(max_level: u8) -> (r: Self)
        ensures
            r@ == (LevelProgress { current_level: START_LEVEL, max_level }),
    {
        SequentialCounter { current_level: START_LEVEL, max_level }
    }

    pub fn current_level(&self) -> (r: u8)
        ensures
            r == self@.current_level,
    {
        self.current_level
    }

    pub fn max_level(&self) -> (r: u8)
        ensures
            r == self@.max_level,
    {
        self.max_level
    }

    /// Whether `cell_index` has already been cleared.
    pub fn visited(&self, cell_index: u8) -> (r: bool)
        ensures
            r == self@.visited(cell_index),
            r <==> cell_index <= self@.current_level,
    {
        cell_index <= self.current_level()
    }

    /// Whether every cell of the round has been cleared.
    pub fn is_level_completed(&self) -> (r: bool)
        ensures
            r == self@.is_level_completed(),
    {
        self.current_level() >= self.max_level()
    }

    /// Judges a click on `cell_index` and advances the round when it was the next cell.
    pub fn check_cell(&mut self, cell_index: u8) -> (r: CheckResult)
        requires
            old(self)@.current_level < u8::MAX,
        ensures
            r == old(self)@.judge(cell_index),
            final(self)@ == old(self)@.after_click(cell_index),
            cell_index == old(self)@.current_level + 1 ==> r == (CheckResult::Correct {
                is_first: (old(self)@.current_level == 0),
            }),
            cell_index == old(self)@.current_level + 1 ==> final(self)@.current_level == cell_index,
            cell_index <= old(self)@.current_level ==> r == CheckResult::Visited,
            cell_index > old(self)@.current_level + 1 ==> r == CheckResult::Incorrect,
            !(r is Correct) ==> final(self)@ == old(self)@,
    {
        let level = self.current_level;
        if cell_index == level + 1 {
            let is_first = self.current_level == START_LEVEL;
            self.current_level = self.current_level + 1;
            CheckResult::Correct { is_first }
        } else if cell_index <= level {
            CheckResult::Visited
        } else {
            CheckResult::Incorrect
        }
    }
}

/// The progress after clicking `cells` one after another.
pub open spec fn after_clicks(p: LevelProgress, cells: Seq<u8>) -> LevelProgress
    decreases cells.len(),
{
    if cells.len() == 0 {
        p
    } else {
        after_clicks(p, cells.drop_last()).after_click(cells.last())
    }
}

/// The cells `1, 2, ..., n` in ascending order.
pub open spec fn ascending_cells(n: nat) -> Seq<u8> {
    Seq::new(n, |i: int| (i + 1) as u8)
}

/// The cells judged correct, in order, when `cells` are clicked one after another from `p`.
pub open spec fn correct_cells(p: LevelProgress, cells: Seq<u8>) -> Seq<u8>
    decreases cells.len(),
{
    if cells.len() == 0 {
        Seq::<u8>::empty()
    } else {
        let before = correct_cells(p, cells.drop_last());
        if after_clicks(p, cells.drop_last()).judge(cells.last()) is Correct {
            before.push(cells.last())
        } else {
            before
        }
    }
}

/// Whatever cells are clicked from a fresh round, the level reached is the number of clicks
/// judged correct, those clicks were on the cells `1, 2, ..., level` in that order, and the
/// size of the round never changes.
pub proof fn lemma_level_counts_correct_clicks(max_level: u8, cells: Seq<u8>)
    ensures
        after_clicks(LevelProgress { current_level: START_LEVEL, max_level }, cells).current_level
            == correct_cells(LevelProgress { current_level: START_LEVEL, max_level }, cells).len(),
        correct_cells(LevelProgress { current_level: START_LEVEL, max_level }, cells)
            == ascending_cells(
            correct_cells(LevelProgress { current_level: START_LEVEL, max_level }, cells).len(),
        ),
        after_clicks(LevelProgress { current_level: START_LEVEL, max_level }, cells).max_level
            == max_level,
    decreases cells.len(),
{
    let start = LevelProgress { current_level: START_LEVEL, max_level };
    if cells.len() > 0 {
        lemma_level_counts_correct_clicks(max_level, cells.drop_last());
        let k = correct_cells(start, cells.drop_last()).len();
        if after_clicks(start, cells.drop_last()).judge(cells.last()) is Correct {
            assert(ascending_cells(k).push(cells.last()) =~= ascending_cells(k + 1));
        }
    }
}

/// How a click is judged, in terms of the level reached: the next cell is correct (opening the
/// round exactly when nothing was cleared), a cell already cleared is visited, and a cell
/// beyond the next is incorrect; only a correct click changes the progress.
pub proof fn lemma_judge_by_level(p: LevelProgress, c: u8)
    ensures
        c == p.current_level + 1 ==> p.judge(c) == (CheckResult::Correct {
            is_first: (p.current_level == 0),
        }),
        c == p.current_level + 1 ==> p.after_click(c).current_level == p.current_level + 1,
        c <= p.current_level ==> p.judge(c) == CheckResult::Visited && p.after_click(c) == p,
        c > p.current_level + 1 ==> p.judge(c) == CheckResult::Incorrect && p.after_click(c) == p,
        (p.judge(c) == CheckResult::Visited) <==> p.visited(c),
{
}

/// The progress of a fresh round of `max_level` cells.
pub open spec fn fresh_round(max_level: u8) -> LevelProgress {
    LevelProgress { current_level: START_LEVEL, max_level }
}

/// A cell counts as cleared exactly when its number is at most the level reached; in a fresh
/// round no cell from 1 on is cleared, and after any run of clicks from a fresh round a cell
/// from 1 on is cleared exactly when one of the clicks judged correct was on it, and clicking
/// it again is judged visited.
pub proof fn lemma_visited_means_cleared(max_level: u8, cells: Seq<u8>, c: u8)
    ensures
        fresh_round(max_level).visited(c) <==> c == 0,
        after_clicks(fresh_round(max_level), cells).visited(c) <==> c <= after_clicks(
            fresh_round(max_level),
            cells,
        ).current_level,
        1 <= c ==> (after_clicks(fresh_round(max_level), cells).visited(c) <==> correct_cells(
            fresh_round(max_level),
            cells,
        ).contains(c)),
        correct_cells(fresh_round(max_level), cells).contains(c) ==> after_clicks(
            fresh_round(max_level),
            cells,
        ).judge(c) == CheckResult::Visited,
{
    let start = fresh_round(max_level);
    lemma_level_counts_correct_clicks(max_level, cells);
    let k = correct_cells(start, cells).len();
    if 1 <= c && c <= k {
        assert(ascending_cells(k)[c - 1] == c);
    }
    if correct_cells(start, cells).contains(c) {
        let i = choose|i: int| 0 <= i < k && correct_cells(start, cells)[i] == c;
        assert(ascending_cells(k)[i] == (i + 1) as u8);
    }
}

/// A click never undoes progress: the level does not go down, the round size stays, cleared
/// cells stay cleared, and the progress changes exactly when the click is judged correct.
pub proof fn lemma_click_keeps_progress(p: LevelProgress, cell_index: u8, other: u8)
    ensures
        p.after_click(cell_index).current_level >= p.current_level,
        p.after_click(cell_index).max_level == p.max_level,
        p.visited(other) ==> p.after_click(cell_index).visited(other),
        (p.after_click(cell_index) != p) <==> (p.judge(cell_index) is Correct),
{
}

/// Clicking the first `k` cells in ascending order from a fresh round clears exactly them.
pub proof fn lemma_in_order_clears(max_level: u8, k: nat)
    requires
        k <= u8::MAX,
    ensures
        after_clicks(LevelProgress { current_level: START_LEVEL, max_level }, ascending_cells(k))
            == (LevelProgress { current_level: k as u8, max_level }),
    decreases k,
{
    if k > 0 {
        lemma_in_order_clears(max_level, (k - 1) as nat);
        assert(ascending_cells(k).drop_last() =~= ascending_cells((k - 1) as nat));
    }
}

/// Clicking the cells `1, ..., max_level` in order from a fresh round completes it, every
/// click being judged correct and only the first one opening the round.
pub proof fn lemma_in_order_completes(max_level: u8)
    ensures
        after_clicks(
            LevelProgress { current_level: START_LEVEL, max_level },
            ascending_cells(max_level as nat),
        ).is_level_completed(),
        forall|i: nat|
            i < max_level ==> #[trigger] after_clicks(
                LevelProgress { current_level: START_LEVEL, max_level },
                ascending_cells(i),
            ).judge((i + 1) as u8) == (CheckResult::Correct { is_first: i == 0 }),
{
    lemma_in_order_clears(max_level, max_level as nat);
    assert forall|i: nat| i < max_level implies #[trigger] after_clicks(
        LevelProgress { current_level: START_LEVEL, max_level },
        ascending_cells(i),
    ).judge((i + 1) as u8) == (CheckResult::Correct { is_first: i == 0 }) by {
        lemma_in_order_clears(max_level, i);
    }
}

} // verus!
