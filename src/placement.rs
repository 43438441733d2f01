//! Random placement of the apple on a free cell of the grid.

use crate::geometry::{cell_coord, in_playfield, on_grid, GridPosition, GRID_CELLS};
use rand::rngs::ThreadRng;
use rand::Rng;
use vstd::prelude::*;

verus! {

/// Number of random draws made before placement falls back to a scan.
pub const MAX_DRAWS: u32 = 64;

#[verifier::external_type_specification]
#[verifier::external_body]
pub struct ExThreadRng(rand::rngs::ThreadRng);

/// Relies on rand::Rng::gen_range: a value drawn from the half-open range
/// `0..n`; it panics only on an empty range, which `n > 0` rules out.
#[verifier::external_body]
fn gen_below(rng: &mut ThreadRng, n: i32) -> (r: i32)
    requires
        n > 0,
    ensures
        0 <= r < n,
{
    rng.gen_range(0..n)
}

/// Whether `p` is one of `cells`.
pub fn occupies(cells: &Vec<GridPosition>, p: GridPosition) -> (r: bool)
    ensures
        r == cells@.contains(p),
{
    let mut i: usize = 0;
    while i < cells.len()
        invariant
            i <= cells@.len(),
            forall|j: int| 0 <= j < i ==> cells@[j] != p,
        decreases cells@.len() - i,
    {
        if cells[i] == p {
            return true;
        }
        i = i + 1;
    }
    false
}

/// A cell of the grid drawn uniformly at random: column and row are drawn
/// independently.
pub fn random_position(rng: &mut ThreadRng) -> (p: GridPosition)
    ensures
        on_grid(p),
        in_playfield(p),
{
    let col = gen_below(rng, GRID_CELLS);
    let row = gen_below(rng, GRID_CELLS);
    GridPosition::cell(col, row)
}

/// The `k`-th cell of the grid in row-major order, starting at the
/// bottom-left corner: rows from the bottom, cells of a row from the left.
pub open spec fn scan_cell(k: int) -> GridPosition {
    GridPosition { x: cell_coord(k % GRID_CELLS as int) as i32, y: cell_coord(k / GRID_CELLS as int) as i32 }
}

/// Distinct places in the scan are distinct cells.
pub proof fn lemma_scan_cell_injective(i: int, j: int)
    requires
        0 <= i < GRID_CELLS * GRID_CELLS,
        0 <= j < GRID_CELLS * GRID_CELLS,
        i != j,
    ensures
        scan_cell(i) != scan_cell(j),
{
    vstd::arithmetic::div_mod::lemma_fundamental_div_mod(i, 50);
    vstd::arithmetic::div_mod::lemma_fundamental_div_mod(j, 50);
    assert(0 <= i % 50 < 50 && 0 <= j % 50 < 50);
    assert(0 <= i / 50 < 50 && 0 <= j / 50 < 50);
    if i % 50 == j % 50 {
        assert(i / 50 != j / 50);
    }
}

/// Among the first `n + 1` cells of the scan, at least one is not in a
/// sequence of `n` positions.
pub proof fn lemma_scan_has_free_cell(reserved: Seq<GridPosition>)
    requires
        reserved.len() < GRID_CELLS * GRID_CELLS,
    ensures
        exists|k: int| 0 <= k <= reserved.len() && !reserved.contains(#[trigger] scan_cell(k)),
{
    let n = reserved.len();
    let cells = Seq::new((n + 1) as nat, |k: int| scan_cell(k));
    assert(cells.no_duplicates()) by {
        assert forall|i: int, j: int| 0 <= i < cells.len() && 0 <= j < cells.len() && i != j implies cells[i] != cells[j] by {
            lemma_scan_cell_injective(i, j);
        }
    }
    cells.unique_seq_to_set();
    reserved.lemma_cardinality_of_set();
    if forall|k: int| 0 <= k <= n ==> reserved.contains(#[trigger] scan_cell(k)) {
        assert(cells.to_set().subset_of(reserved.to_set())) by {
            assert forall|p: GridPosition| cells.to_set().contains(p) implies reserved.to_set().contains(p) by {
                let k = choose|k: int| 0 <= k < cells.len() && cells[k] == p;
                assert(reserved.contains(scan_cell(k)));
            }
        }
        vstd::set_lib::lemma_len_subset(cells.to_set(), reserved.to_set());
        assert(false);
    }
}

/// The first cell of the scan, in row-major order from the bottom-left
/// corner, that is not in `reserved`.
pub fn first_free_cell(reserved: &Vec<GridPosition>) -> (p: GridPosition)
    requires
        reserved@.len() < GRID_CELLS * GRID_CELLS,
    ensures
        on_grid(p),
        in_playfield(p),
        !reserved@.contains(p),
        exists|k: int|
            0 <= k <= reserved@.len() && p == scan_cell(k) && forall|j: int|
                0 <= j < k ==> reserved@.contains(#[trigger] scan_cell(j)),
{
    proof {
        lemma_scan_has_free_cell(reserved@);
    }
    let n = reserved.len() as i32;
    let mut k: i32 = 0;
    while k <= n
        invariant
            0 <= k <= n + 1,
            n == reserved@.len(),
            n < GRID_CELLS * GRID_CELLS,
            forall|j: int| 0 <= j < k ==> reserved@.contains(#[trigger] scan_cell(j)),
        decreases n + 1 - k,
    {
        assert(0 <= k / GRID_CELLS < GRID_CELLS);
        let c = GridPosition::cell(k % GRID_CELLS, k / GRID_CELLS);
        assert(c == scan_cell(k as int));
        if !occupies(reserved, c) {
            return c;
        }
        k = k + 1;
    }
    proof {
        let j = choose|j: int| 0 <= j <= reserved@.len() && !reserved@.contains(#[trigger] scan_cell(j));
        assert(reserved@.contains(scan_cell(j)));
    }
    GridPosition::cell(0, 0)
}

/// A cell of the grid outside `reserved`. Cells are drawn at random and
/// redrawn while they fall on a reserved cell, at most `MAX_DRAWS` times;
/// should every draw fall on a reserved cell, `first_free_cell` is taken.
pub fn random_free_position(rng: &mut ThreadRng, reserved: &Vec<GridPosition>) -> (p: GridPosition)
    requires
        reserved@.len() < GRID_CELLS * GRID_CELLS,
    ensures
        on_grid(p),
        in_playfield(p),
        !reserved@.contains(p),
{
    let mut draws: u32 = 0;
    while draws < MAX_DRAWS
        decreases MAX_DRAWS - draws,
    {
        let candidate = random_position(rng);
        if !occupies(reserved, candidate) {
            return candidate;
        }
        draws = draws + 1;
    }
    first_free_cell(reserved)
}

} // verus!
