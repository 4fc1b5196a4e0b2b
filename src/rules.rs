//! The adjacency rule for a single cell.
use vstd::prelude::*;
use crate::cell::{at, get_cell, is_player, on_board, Case, Grid};
use crate::piece::Piece;

verus! {

/// Some orthogonal neighbour of `(i, j)` holds one of our pieces.
pub open spec fn orth_player(m: Grid, i: int, j: int) -> bool {
    is_player(m, i - 1, j) || is_player(m, i + 1, j) || is_player(m, i, j - 1) || is_player(m, i, j + 1)
}

/// Some diagonal neighbour of `(i, j)` holds one of our pieces.
pub open spec fn diag_player(m: Grid, i: int, j: int) -> bool {
    is_player(m, i - 1, j - 1) || is_player(m, i - 1, j + 1) || is_player(m, i + 1, j - 1)
        || is_player(m, i + 1, j + 1)
}

/// Whether the neighbour at offset `(di, dj)` from `(i, j)` holds one of our pieces.
fn player_near(m: &Grid, i: usize, j: usize, di: i8, dj: i8) -> (r: bool)
    requires
        i < 20,
        j < 20,
        -1 <= di <= 1,
        -1 <= dj <= 1,
    ensures
        r == is_player(*m, i + di, j + dj),
{
    let x: i64 = i as i64 + di as i64;
    let y: i64 = j as i64 + dj as i64;
    if x < 0 || y < 0 || x > 19 || y > 19 {
        false
    } else {
        get_cell(m, x as usize, y as usize) == Case::Player
    }
}

/// Whether a new piece may cover `(i, j)`: no orthogonal neighbour may be one of
/// our pieces. When it may, `corner` is set if a diagonal neighbour is one of
/// ours; otherwise `corner` is left as it was.
pub fn check_edge(m: &Grid, i: usize, j: usize, corner: &mut bool) -> (r: bool)
    requires
        i < 20,
        j < 20,
    ensures
        r == !orth_player(*m, i as int, j as int),
        *final(corner) == (*old(corner) || (r && diag_player(*m, i as int, j as int))),
{
    if player_near(m, i, j, -1, 0) || player_near(m, i, j, 1, 0) || player_near(m, i, j, 0, -1)
        || player_near(m, i, j, 0, 1) {
        return false;
    }
    if player_near(m, i, j, -1, -1) || player_near(m, i, j, -1, 1) || player_near(m, i, j, 1, -1)
        || player_near(m, i, j, 1, 1) {
        *corner = true;
    }
    true
}

/// `(a, b)` is free for a new piece: not occupied, and no orthogonal
/// neighbour is one of our pieces.
pub open spec fn cell_free(m: Grid, a: int, b: int) -> bool {
    at(m, a, b) != Case::Player && at(m, a, b) != Case::Opponent && !orth_player(m, a, b)
}

/// Every cell of `p` anchored at `(x, y)` lies on the board.
pub open spec fn fits(p: Piece, x: int, y: int) -> bool {
    forall|i: int, j: int| #[trigger] p.is_new(i, j) ==> on_board(x + i, y + j)
}

/// Every cell of `p` anchored at `(x, y)` is free.
pub open spec fn cells_free(m: Grid, p: Piece, x: int, y: int) -> bool {
    forall|i: int, j: int| #[trigger] p.is_new(i, j) ==> cell_free(m, x + i, y + j)
}

/// Some cell of `p` anchored at `(x, y)` touches one of our pieces at a corner.
pub open spec fn touches_corner(m: Grid, p: Piece, x: int, y: int) -> bool {
    exists|i: int, j: int| #[trigger] p.is_new(i, j) && diag_player(m, x + i, y + j)
}

/// Some cell of `p` anchored at `(x, y)` lies on the last row or last column.
pub open spec fn touches_side(p: Piece, x: int, y: int) -> bool {
    exists|i: int, j: int| #[trigger] p.is_new(i, j) && (x + i == 19 || y + j == 19)
}

/// The geometric rule: all cells free; a corner touch unless this is the first
/// move of the game; a touch of the high border if it is.
pub open spec fn placement_legal(m: Grid, p: Piece, x: int, y: int, first: bool) -> bool {
    &&& cells_free(m, p, x, y)
    &&& first || touches_corner(m, p, x, y)
    &&& !first || touches_side(p, x, y)
}

} // verus!
