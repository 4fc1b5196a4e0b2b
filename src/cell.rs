//! Cell states, orientations and move records.
use vstd::prelude::*;

verus! {

/// Edge length of the square board.
pub const BOARD_SIZE: usize = 20;

/// The board: indexed first by `x`, then by `y`.
pub type Grid = [[Case; 20]; 20];

/// State of one cell, on the board or in a piece shape.
#[derive(Clone, Copy, Debug, Default, PartialEq, Eq, Structural)]
pub enum Case {
    /// Occupied by one of our own pieces.
    Player,
    /// Occupied by an opponent.
    Opponent,
    /// Part of a piece shape (never stored on the board).
    New,
    /// Empty on the board, or outside the shape in a piece grid.
    #[default]
    Void,
}

/// Orientation tag carried by a move; it does not change the geometry.
#[derive(Clone, Copy, Debug, PartialEq, Eq, Structural)]
pub enum Orientation {
    UP,
    DOWN,
    LEFT,
    RIGHT,
}

/// A placement: anchor `(x, y)` of the piece's top-left bounding-box cell.
#[derive(Clone, Copy, Debug, PartialEq, Eq, Structural)]
pub struct Move {
    pub x: usize,
    pub y: usize,
    pub orientation: Orientation,
    pub piece_id: usize,
}

/// The cell at `(x, y)`, for coordinates on the board.
pub open spec fn at(m: Grid, x: int, y: int) -> Case {
    m@[x]@[y]
}

pub open spec fn on_board(x: int, y: int) -> bool {
    0 <= x < 20 && 0 <= y < 20
}

/// `(x, y)` is on the board and holds one of our pieces.
pub open spec fn is_player(m: Grid, x: int, y: int) -> bool {
    on_board(x, y) && at(m, x, y) == Case::Player
}

/// Reads one cell of the board.
pub fn get_cell(m: &Grid, x: usize, y: usize) -> (r: Case)
    requires
        x < 20,
        y < 20,
    ensures
        r == at(*m, x as int, y as int),
{
    m[x][y]
}

} // verus!
