use vstd::prelude::*;
use rand::seq::SliceRandom;
use crate::sequential_counter::{ascending_cells, LevelProgress, SequentialCounter, START_LEVEL};

verus! {

/// Puts the cells in a random order.
///
/// Calls `rand::seq::SliceRandom::shuffle` on the cells with the thread-local generator
/// `rand::rng()`. Its source swaps elements in place (a Fisher-Yates shuffle), so the cells
/// come out as a permutation of those that went in; which permutation is left to chance.
/// `rand::rng()` panics when the operating system's random source cannot seed it, which
/// depends on the machine and not on the cells.
#[verifier::external_body]
fn shuffle_cells(cells: &mut Vec<u8>)
    ensures
        final(cells)@.len() == old(cells)@.len(),
        final(cells)@.to_multiset() == old(cells)@.to_multiset(),
{
    cells.as_mut_slice().shuffle(&mut rand::rng());
}

/// The cells `1, ..., grid_size * grid_size` of a grid, in a random order.
pub fn schulte_cell_order(grid_size: u8) -> (r: Vec<u8>)
    requires
        grid_size * grid_size <= u8::MAX,
    ensures
        r@.len() == grid_size * grid_size,
        r@.to_multiset() == ascending_cells((grid_size * grid_size) as nat).to_multiset(),
{
    let count: u8 = grid_size * grid_size;
    let mut cells: Vec<u8> = Vec::new();
    let mut i: u8 = 0;
    while i < count
        invariant
            i <= count,
            count == grid_size * grid_size,
            cells@ == ascending_cells(i as nat),
        decreases count - i,
    {
        i = i + 1;
        cells.push(i);
        assert(cells@ =~= ascending_cells(i as nat));
    }
    shuffle_cells(&mut cells);
    cells
}

proof fn lemma_ascending_count(n: nat, c: u8)
    requires
        n <= u8::MAX,
    ensures
        ascending_cells(n).to_multiset().count(c) == (if 1 <= c && c <= n { 1nat } else { 0nat }),
    decreases n,
{
    broadcast use vstd::seq_lib::to_multiset_build, vstd::seq_lib::to_multiset_contains, vstd::multiset::group_multiset_axioms;

    if n == 0 {
        assert(ascending_cells(0) =~= Seq::<u8>::empty());
        assert(!ascending_cells(0).contains(c));
    } else {
        lemma_ascending_count((n - 1) as nat, c);
        assert(ascending_cells(n) =~= ascending_cells((n - 1) as nat).push(n as u8));
    }
}

/// A cell order holding the same cells as `1, ..., n` holds each of those cells exactly once
/// and no other cell.
pub proof fn lemma_cells_each_once(cells: Seq<u8>, n: nat)
    requires
        n <= u8::MAX,
        cells.to_multiset() == ascending_cells(n).to_multiset(),
    ensures
        forall|c: u8|
            #[trigger] cells.to_multiset().count(c) == (if 1 <= c && c <= n { 1nat } else { 0nat }),
{
    assert forall|c: u8|
        #[trigger] cells.to_multiset().count(c) == (if 1 <= c && c <= n { 1nat } else { 0nat }) by {
        lemma_ascending_count(n, c);
    }
}

/// A fresh round on a `grid_size` by `grid_size` grid: the cells in a random order, and a
/// counter that expects them in ascending order.
pub fn new_schulte_round(grid_size: u8) -> (r: (Vec<u8>, SequentialCounter))
    requires
        grid_size * grid_size <= u8::MAX,
    ensures
        r.0@.len() == grid_size * grid_size,
        r.0@.to_multiset() == ascending_cells((grid_size * grid_size) as nat).to_multiset(),
        r.1@ == (LevelProgress { current_level: START_LEVEL, max_level: (grid_size * grid_size) as u8 }),
{
    let cells = schulte_cell_order(grid_size);
    (cells, SequentialCounter::new(grid_size * grid_size))
}

} // verus!
