use vstd::prelude::*;
use crate::gameplay_timer::GameplayTimer;
use crate::sequential_counter::{CheckResult, SequentialCounter};
use crate::timer_model::TimerModel;

verus! {

/// The number of a cell, counted from 1.
pub type LevelSize = u8;

/// Cells per row and per column of the grid.
pub const GRID_SIZE: LevelSize = 3;

/// The colours a cell takes, by role.
#[derive(Debug, Clone, Copy, PartialEq, Eq, Structural)]
pub enum CellColor {
    /// An untouched cell.
    Default,
    /// A cell under the pointer.
    Hovered,
    /// A cell being pressed.
    Pressed,
    /// A cleared cell.
    Disabled,
    /// The flash that greets a correct click.
    CorrectStart,
    /// The flash that greets a wrong click.
    IncorrectStart,
}

/// What the pointer is doing to a cell.
#[derive(Debug, Clone, Copy, PartialEq, Eq, Structural)]
pub enum CellInteraction {
    Pressed,
    Hovered,
    Idle,
}

/// A colour animation of a cell from `start` to `end`.
#[derive(Debug, Clone, Copy, PartialEq, Eq, Structural)]
pub struct ColorFade {
    pub start: CellColor,
    pub end: CellColor,
}

/// How the game answers a press on a cell.
#[derive(Debug, Clone, Copy, PartialEq, Eq, Structural)]
pub struct CellPress {
    /// How the press was judged.
    pub result: CheckResult,
    /// The animation to play on the pressed cell, if any.
    pub fade: Option<ColorFade>,
    /// The cell that should have been pressed, after a wrong press.
    pub expected_next: Option<LevelSize>,
    /// Whether the round is complete after the press.
    pub level_completed: bool,
}

/// The animation that answers a judged press: a correct cell fades to disabled, a wrong one
/// flashes back to its default colour, an already cleared one does not move.
pub open spec fn fade_for(result: CheckResult) -> Option<ColorFade> {
    match result {
        CheckResult::Correct { .. } => Some(
            ColorFade { start: CellColor::CorrectStart, end: CellColor::Disabled },
        ),
        CheckResult::Incorrect => Some(
            ColorFade { start: CellColor::IncorrectStart, end: CellColor::Default },
        ),
        CheckResult::Visited => None,
    }
}

/// The stopwatch after a press judged `result`, the clock reading `at` when it restarts: the
/// first correct press restarts it from zero, and a press that completes the round pauses it.
pub open spec fn timer_after_press(t: TimerModel, result: CheckResult, completed: bool, at: nat) -> TimerModel {
    let started = if result == (CheckResult::Correct { is_first: true }) {
        t.reset().resumed_at(at)
    } else {
        t
    };
    if completed {
        started.paused()
    } else {
        started
    }
}

/// The colour a cell takes under the pointer.
pub open spec fn hover_color_for(interaction: CellInteraction) -> CellColor {
    match interaction {
        CellInteraction::Pressed => CellColor::Pressed,
        CellInteraction::Hovered => CellColor::Hovered,
        CellInteraction::Idle => CellColor::Default,
    }
}

/// Answers a press on cell `cell_index`: judges it, advances the round, starts the round's
/// stopwatch (if any) on the first correct press and pauses it once the round is complete.
pub fn handle_cell_press(
    tracker: &mut SequentialCounter,
    timer: &mut Option<GameplayTimer>,
    cell_index: LevelSize,
) -> (r: CellPress)
    requires
        old(tracker)@.current_level < u8::MAX,
    ensures
        r.result == old(tracker)@.judge(cell_index),
        final(tracker)@ == old(tracker)@.after_click(cell_index),
        r.fade == fade_for(r.result),
        r.result is Correct ==> r.fade == Some(
            ColorFade { start: CellColor::CorrectStart, end: CellColor::Disabled },
        ),
        r.result is Incorrect ==> r.fade == Some(
            ColorFade { start: CellColor::IncorrectStart, end: CellColor::Default },
        ),
        r.result is Visited ==> r.fade is None,
        r.expected_next == if r.result is Incorrect {
            Some((old(tracker)@.current_level + 1) as u8)
        } else {
            None::<u8>
        },
        r.level_completed == final(tracker)@.is_level_completed(),
        *old(timer) is None ==> *final(timer) is None,
        *old(timer) matches Some(t) ==> *final(timer) matches Some(u) && exists|at: nat|
            u@ == timer_after_press(t@, r.result, r.level_completed, at),
{
    let result = tracker.check_cell(cell_index);
    let mut fade = None;
    let mut expected_next = None;
    let mut stopwatch = *timer;
    let ghost mut at: nat = 0;
    match result {
        CheckResult::Correct { is_first } => {
            if is_first {
                if let Some(mut t) = stopwatch {
                    let ghost before = t@;
                    t.reset().resume();
                    proof {
                        at = choose|a: nat| t@ == before.reset().resumed_at(a);
                    }
                    stopwatch = Some(t);
                }
            }
            fade = Some(ColorFade { start: CellColor::CorrectStart, end: CellColor::Disabled });
        },
        CheckResult::Incorrect => {
            expected_next = Some(tracker.current_level() + 1);
            fade = Some(ColorFade { start: CellColor::IncorrectStart, end: CellColor::Default });
        },
        CheckResult::Visited => {},
    }
    let level_completed = tracker.is_level_completed();
    if level_completed {
        if let Some(mut t) = stopwatch {
            t.pause();
            stopwatch = Some(t);
        }
    }
    *timer = stopwatch;
    proof {
        if let Some(t) = *old(timer) {
            assert(timer_after_press(t@, result, level_completed, at) == stopwatch.unwrap()@);
        }
    }
    CellPress { result, fade, expected_next, level_completed }
}

/// Answers what the pointer does to cell `cell_index`: only a press reaches the round (as
/// `handle_cell_press`); hovering or leaving a cell changes nothing and answers `None`.
pub fn handle_cell_interaction(
    tracker: &mut SequentialCounter,
    timer: &mut Option<GameplayTimer>,
    cell_index: LevelSize,
    interaction: CellInteraction,
) -> (r: Option<CellPress>)
    requires
        interaction is Pressed ==> old(tracker)@.current_level < u8::MAX,
    ensures
        r is Some <==> interaction is Pressed,
        !(interaction is Pressed) ==> final(tracker)@ == old(tracker)@ && *final(timer) == *old(timer),
        r matches Some(p) ==> {
            &&& p.result == old(tracker)@.judge(cell_index)
            &&& final(tracker)@ == old(tracker)@.after_click(cell_index)
            &&& p.fade == fade_for(p.result)
            &&& p.expected_next == if p.result is Incorrect {
                Some((old(tracker)@.current_level + 1) as u8)
            } else {
                None::<u8>
            }
            &&& p.level_completed == final(tracker)@.is_level_completed()
            &&& *old(timer) is None ==> *final(timer) is None
            &&& *old(timer) matches Some(t) ==> *final(timer) matches Some(u) && exists|at: nat|
                u@ == timer_after_press(t@, p.result, p.level_completed, at)
        },
{
    match interaction {
        CellInteraction::Pressed => Some(handle_cell_press(tracker, timer, cell_index)),
        _ => None,
    }
}

/// The colour a cell takes under the pointer; a cleared cell keeps its colour (`None`).
pub fn cell_hover_color(
    tracker: &SequentialCounter,
    cell_index: LevelSize,
    interaction: CellInteraction,
) -> (r: Option<CellColor>)
    ensures
        r == if tracker@.visited(cell_index) {
            None
        } else {
            Some(hover_color_for(interaction))
        },
        r is None <==> cell_index <= tracker@.current_level,
{
    if tracker.visited(cell_index) {
        return None;
    }
    match interaction {
        CellInteraction::Pressed => Some(CellColor::Pressed),
        CellInteraction::Hovered => Some(CellColor::Hovered),
        CellInteraction::Idle => Some(CellColor::Default),
    }
}

/// Every press judged correct, whether it opens the round or not, fades from the correct
/// flash to the colour of a cleared cell; a wrong press flashes back to the untouched colour,
/// and a press on a cleared cell plays nothing.
pub proof fn lemma_fade_by_judgement(is_first: bool)
    ensures
        fade_for(CheckResult::Correct { is_first }) == Some(
            ColorFade { start: CellColor::CorrectStart, end: CellColor::Disabled },
        ),
        fade_for(CheckResult::Correct { is_first }) == fade_for(
            CheckResult::Correct { is_first: !is_first },
        ),
        fade_for(CheckResult::Incorrect) == Some(
            ColorFade { start: CellColor::IncorrectStart, end: CellColor::Default },
        ),
        fade_for(CheckResult::Visited) is None,
{
}

/// The first correct press of a round restarts the stopwatch from zero at the press's clock
/// reading; a press that completes the round leaves it not running; any other press leaves
/// it as it was.
pub proof fn lemma_press_timing(t: TimerModel, result: CheckResult, completed: bool, at: nat)
    ensures
        result == (CheckResult::Correct { is_first: true }) && !completed ==> {
            &&& timer_after_press(t, result, completed, at).phase is Running
            &&& timer_after_press(t, result, completed, at).elapsed == 0
            &&& timer_after_press(t, result, completed, at).last_update == at
        },
        completed && !(t.phase is Stopped) ==> timer_after_press(t, result, completed, at).phase is Paused,
        completed ==> !(timer_after_press(t, result, completed, at).phase is Running),
        result != (CheckResult::Correct { is_first: true }) && !completed ==> timer_after_press(
            t,
            result,
            completed,
            at,
        ) == t,
{
}

} // verus!
