//! Playfield geometry: grid constants, world positions and wrap-around.

use vstd::prelude::*;

verus! {

/// World units covered by one grid cell along each axis.
pub const CELL_SIZE: i32 = 20;

/// Number of cells along each axis of the region where apples are placed.
pub const GRID_CELLS: i32 = 50;

/// Distance from the origin to the left and right edges of the playfield.
pub const HALF_WIDTH: i32 = 500;

/// Distance from the origin to the top and bottom edges of the playfield.
pub const HALF_HEIGHT: i32 = 500;

/// A position in world coordinates; equality is exact coordinate equality.
#[derive(Clone, Copy, Debug, PartialEq, Eq, Structural)]
pub struct GridPosition {
    pub x: i32,
    pub y: i32,
}

/// The playfield is the closed rectangle centred on the origin.
pub open spec fn in_playfield(p: GridPosition) -> bool {
    &&& -HALF_WIDTH <= p.x <= HALF_WIDTH
    &&& -HALF_HEIGHT <= p.y <= HALF_HEIGHT
}

/// World coordinate of the cell with index `i` (0-based) along one axis.
pub open spec fn cell_coord(i: int) -> int {
    (i - GRID_CELLS / 2) * CELL_SIZE
}

/// A coordinate that is the centre of one of the grid's cells.
pub open spec fn is_cell_coord(v: int) -> bool {
    &&& -(GRID_CELLS / 2) * CELL_SIZE <= v < (GRID_CELLS / 2) * CELL_SIZE
    &&& v % (CELL_SIZE as int) == 0
}

/// A position that names one of the grid's cells.
pub open spec fn on_grid(p: GridPosition) -> bool {
    is_cell_coord(p.x as int) && is_cell_coord(p.y as int)
}

/// One axis of wrap-around: a coordinate past `+half` re-enters at `-half`
/// and one past `-half` re-enters at `+half`.
pub open spec fn wrap_coord(v: int, half: int) -> int {
    if v > half {
        -half
    } else if v < -half {
        half
    } else {
        v
    }
}

pub proof fn lemma_cell_coord_on_grid(i: int)
    requires
        0 <= i < GRID_CELLS,
    ensures
        is_cell_coord(cell_coord(i)),
{
    assert((i - 25) * 20 % 20 == 0) by (nonlinear_arith)
        requires 0 <= i < 50;
}

impl GridPosition {
    /// Whether the position lies in the playfield.
    pub fn in_playfield(self) -> (r: bool)
        ensures
            r == in_playfield(self),
    {
        -HALF_WIDTH <= self.x && self.x <= HALF_WIDTH && -HALF_HEIGHT <= self.y && self.y <= HALF_HEIGHT
    }

    /// The position of the cell in column `col` and row `row`, both counted
    /// from the bottom-left corner of the grid.
    pub fn cell(col: i32, row: i32) -> (p: GridPosition)
        requires
            0 <= col < GRID_CELLS,
            0 <= row < GRID_CELLS,
        ensures
            p.x == cell_coord(col as int),
            p.y == cell_coord(row as int),
            on_grid(p),
            in_playfield(p),
    {
        proof {
            lemma_cell_coord_on_grid(col as int);
            lemma_cell_coord_on_grid(row as int);
        }
        GridPosition { x: (col - GRID_CELLS / 2) * CELL_SIZE, y: (row - GRID_CELLS / 2) * CELL_SIZE }
    }

    /// Wraps a position that has left the playfield to the opposite edge,
    /// axis by axis; a position inside the playfield is returned unchanged.
    pub fn wrapped(self) -> (p: GridPosition)
        ensures
            p.x == wrap_coord(self.x as int, HALF_WIDTH as int),
            p.y == wrap_coord(self.y as int, HALF_HEIGHT as int),
            in_playfield(p),
    {
        let x = if self.x > HALF_WIDTH {
            -HALF_WIDTH
        } else if self.x < -HALF_WIDTH {
            HALF_WIDTH
        } else {
            self.x
        };
        let y = if self.y > HALF_HEIGHT {
            -HALF_HEIGHT
        } else if self.y < -HALF_HEIGHT {
            HALF_HEIGHT
        } else {
            self.y
        };
        GridPosition { x, y }
    }
}

} // verus!
