//! Properties of the legality rule and of the search, proved from the
//! specifications that `check_move_validity` and `try_position` meet.
use vstd::prelude::*;
use crate::board::BlockusMap;
use crate::cell::{at, Case, Move};
use crate::piece::ranks_before;
use crate::rules::{cells_free, orth_player, touches_corner, touches_side};

verus! {

/// A move that puts any cell of its piece on an occupied cell is illegal.
pub proof fn lemma_overlap_rejected(m: BlockusMap, mv: Move, need_side: bool, i: int, j: int)
    requires
        mv.piece_id < m.catalog().len(),
        m.catalog()[mv.piece_id as int].is_new(i, j),
        at(m.grid(), mv.x + i, mv.y + j) == Case::Player
            || at(m.grid(), mv.x + i, mv.y + j) == Case::Opponent,
    ensures
        !m.legal_with(mv.piece_id as int, mv.x as int, mv.y as int, need_side),
{
    assert(!cells_free(m.grid(), m.catalog()[mv.piece_id as int], mv.x as int, mv.y as int));
}

/// A move with any cell edge to edge with one of our pieces is illegal.
pub proof fn lemma_own_edge_rejected(m: BlockusMap, mv: Move, need_side: bool, i: int, j: int)
    requires
        mv.piece_id < m.catalog().len(),
        m.catalog()[mv.piece_id as int].is_new(i, j),
        orth_player(m.grid(), mv.x + i, mv.y + j),
    ensures
        !m.legal_with(mv.piece_id as int, mv.x as int, mv.y as int, need_side),
{
    assert(!cells_free(m.grid(), m.catalog()[mv.piece_id as int], mv.x as int, mv.y as int));
}

/// On the first move no corner touch is needed; on any other move a move
/// without one is illegal.
pub proof fn lemma_first_move_exempt_from_corner(m: BlockusMap, id: int, x: int, y: int)
    requires
        0 <= id < m.catalog().len(),
    ensures
        m.legal_with(id, x, y, true) <==> (m.used()[id] < m.catalog()[id].count && cells_free(
            m.grid(),
            m.catalog()[id],
            x,
            y,
        ) && touches_side(m.catalog()[id], x, y)),
        !touches_corner(m.grid(), m.catalog()[id], x, y) ==> !m.legal_with(id, x, y, false),
{
}

/// On the first move a move that touches neither the last row nor the last
/// column is illegal; on any other move the border is not looked at.
pub proof fn lemma_first_move_needs_border(m: BlockusMap, id: int, x: int, y: int)
    requires
        0 <= id < m.catalog().len(),
    ensures
        !touches_side(m.catalog()[id], x, y) ==> !m.legal_with(id, x, y, true),
        m.legal_with(id, x, y, false) <==> (m.used()[id] < m.catalog()[id].count && cells_free(
            m.grid(),
            m.catalog()[id],
            x,
            y,
        ) && touches_corner(m.grid(), m.catalog()[id], x, y)),
{
}

/// A piece used as many times as it may be is never legal, so the search
/// never picks it.
pub proof fn lemma_exhausted_piece_unused(m: BlockusMap, id: int, x: int, y: int, need_side: bool, mv: Move)
    requires
        0 <= id < m.catalog().len(),
        m.used()[id] >= m.catalog()[id].count,
    ensures
        !m.legal_with(id, x, y, need_side),
        m.is_search_result(mv) ==> mv.piece_id != id,
{
}

/// The search has one result at most: the same session state always gives
/// the same move.
pub proof fn lemma_search_deterministic(m: BlockusMap, mv1: Move, mv2: Move)
    requires
        m.is_search_result(mv1),
        m.is_search_result(mv2),
    ensures
        mv1 == mv2,
{
    let (a, b) = (mv1.piece_id as int, mv2.piece_id as int);
    if a != b {
        assert(ranks_before(m.catalog(), a, b) || ranks_before(m.catalog(), b, a));
        assert(!m.legal_at(a, mv1.x as int, mv1.y as int) || !m.legal_at(b, mv2.x as int, mv2.y as int));
    } else if mv1.x != mv2.x || mv1.y != mv2.y {
        assert(!m.legal_at(a, mv1.x as int, mv1.y as int) || !m.legal_at(b, mv2.x as int, mv2.y as int));
    }
}

/// A piece with more cells is tried first: when the search settles on a
/// piece, no placement of a piece with more cells was legal.
pub proof fn lemma_more_cells_tried_first(m: BlockusMap, mv: Move, id: int, x: int, y: int)
    requires
        m.is_search_result(mv),
        m.candidate(id, x, y),
        m.catalog()[id].cells() > m.catalog()[mv.piece_id as int].cells(),
    ensures
        ranks_before(m.catalog(), id, mv.piece_id as int),
        !m.legal_at(id, x, y),
{
}

} // verus!
