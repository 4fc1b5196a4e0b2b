//! The game session: board, catalogue, usage counts, legality and search.
use vstd::prelude::*;
use crate::cell::{at, get_cell, Case, Grid, Move, Orientation};
use crate::color::{color_of, parse_color, Color};
use crate::piece::{case_of, ranks_before, is_priority_order, Piece, Pieces};
use crate::rules::{cell_free, cells_free, check_edge, diag_player, fits, placement_legal};
use crate::ingest::{board_image, grid_of_image, ingest};
use crate::outside::{base64_decoded, decode_base64, decode_image, image_decoded};
use crate::server::{check_shape, shape_ok, ResponsePiece};
use vstd::utf8::encode_utf8;

verus! {

/// Why a session could not be set up or refreshed.
#[derive(Clone, Copy, Debug, PartialEq, Eq, Structural)]
pub enum GameError {
    /// The colour is not written `#RRGGBB`.
    InvalidColor,
    /// A piece shape is empty, not square, or larger than the board.
    InvalidShape,
    /// The board text is not standard base64.
    InvalidEncoding,
    /// The decoded bytes are not an image that can be read.
    InvalidImage,
    /// The image is not 400 by 400 pixels.
    InvalidImageSize,
}

/// One game session.
#[derive(Debug, Clone)]
pub struct BlockusMap {
    pieces: Pieces,
    used_pieces: Vec<usize>,
    map: Grid,
    color: Color,
}

/// `(a, b)` comes before `(i, j)` in row-major order.
pub open spec fn scanned(i: int, j: int, a: int, b: int) -> bool {
    a < i || (a == i && b < j)
}

/// The image bytes of a base64-encoded board, as the server sends it.
pub fn decode_board(board: &str) -> (r: Result<Vec<u8>, GameError>)
    ensures
        match r {
            Ok(v) => base64_decoded(board@) == Some(v@),
            Err(e) => e == GameError::InvalidEncoding && base64_decoded(board@) is None,
        },
{
    match decode_base64(board) {
        Some(v) => Ok(v),
        None => Err(GameError::InvalidEncoding),
    }
}

impl BlockusMap {
    /// The board.
    pub closed spec fn grid(&self) -> Grid {
        self.map
    }

    /// The catalogue, indexed by piece id.
    pub closed spec fn catalog(&self) -> Seq<Piece> {
        self.pieces.pieces@
    }

    /// How many times each piece has been placed.
    pub closed spec fn used(&self) -> Seq<usize> {
        self.used_pieces@
    }

    /// Our colour on the rendered board.
    pub closed spec fn own_color(&self) -> Color {
        self.color
    }

    pub open spec fn wf(&self) -> bool {
        &&& forall|k: int| 0 <= k < self.catalog().len() ==> (#[trigger] self.catalog()[k]).wf()
        &&& self.used().len() == self.catalog().len()
    }

    /// No piece has been placed yet in this game.
    pub open spec fn first_move(&self) -> bool {
        forall|k: int| 0 <= k < self.used().len() ==> #[trigger] self.used()[k] == 0
    }

    /// Piece `id` may be placed at `(x, y)` on the board as it stands, with
    /// `first` telling whether this is the first move of the game.
    pub open spec fn legal_with(&self, id: int, x: int, y: int, first: bool) -> bool {
        &&& self.used()[id] < self.catalog()[id].count
        &&& placement_legal(self.grid(), self.catalog()[id], x, y, first)
    }

    /// The move is legal for the session as it stands.
    pub open spec fn legal_at(&self, id: int, x: int, y: int) -> bool {
        self.legal_with(id, x, y, self.first_move())
    }

    /// An anchor that the search visits: the bounding box lies on the board.
    pub open spec fn candidate(&self, id: int, x: int, y: int) -> bool {
        &&& 0 <= id < self.catalog().len()
        &&& 0 <= x && x + self.catalog()[id].size <= 20
        &&& 0 <= y && y + self.catalog()[id].size <= 20
    }

    /// The search visits `(id1, x1, y1)` before `(id2, x2, y2)`.
    pub open spec fn searched_before(&self, id1: int, x1: int, y1: int, id2: int, x2: int, y2: int) -> bool {
        ranks_before(self.catalog(), id1, id2) || (id1 == id2 && scanned(x2, y2, x1, y1))
    }

    /// `mv` is the first legal placement in search order, tagged `UP`.
    pub open spec fn is_search_result(&self, mv: Move) -> bool {
        let (id, x, y) = (mv.piece_id as int, mv.x as int, mv.y as int);
        &&& mv.orientation == Orientation::UP
        &&& self.candidate(id, x, y)
        &&& self.legal_at(id, x, y)
        &&& forall|id2: int, x2: int, y2: int|
            self.candidate(id2, x2, y2) && self.searched_before(id2, x2, y2, id, x, y)
                ==> !#[trigger] self.legal_at(id2, x2, y2)
    }

    /// No visited anchor of any piece is legal.
    pub open spec fn no_legal_move(&self) -> bool {
        forall|id: int, x: int, y: int|
            self.candidate(id, x, y) ==> !#[trigger] self.legal_at(id, x, y)
    }

    /// Starts a session from our colour and the server's piece descriptions,
    /// with an empty board and no piece used.
    pub fn new(color: &String, pieces: &Vec<ResponsePiece>) -> (r: Result<Self, GameError>)
        ensures
            color_of(encode_utf8(color@)) is None ==> r == Err::<Self, GameError>(GameError::InvalidColor),
            color_of(encode_utf8(color@)) is Some && (exists|k: int|
                0 <= k < pieces@.len() && !shape_ok(#[trigger] pieces@[k].shape@))
                ==> r == Err::<Self, GameError>(GameError::InvalidShape),
            r is Ok <==> color_of(encode_utf8(color@)) is Some && (forall|k: int|
                0 <= k < pieces@.len() ==> shape_ok(#[trigger] pieces@[k].shape@)),
            r matches Ok(m) ==> {
                &&& m.wf()
                &&& Some(m.own_color()) == color_of(encode_utf8(color@))
                &&& m.first_move()
                &&& forall|x: int, y: int| 0 <= x < 20 && 0 <= y < 20 ==> #[trigger] at(m.grid(), x, y) == Case::Void
                &&& m.catalog().len() == pieces@.len()
                &&& forall|k: int|
                    0 <= k < m.catalog().len() ==> {
                        let (p, s) = (#[trigger] m.catalog()[k], pieces@[k]);
                        &&& p.size == s.shape@.len()
                        &&& p.count == s.count
                        &&& forall|i: int, j: int|
                            0 <= i < p.size && 0 <= j < p.size ==> p.grid@[i]@[j] == case_of(
                                s.shape@[i]@[j],
                            )
                    }
            },
    {
        let own = match parse_color(color.as_str()) {
            Some(c) => c,
            None => return Err(GameError::InvalidColor),
        };
        let mut k: usize = 0;
        while k < pieces.len()
            invariant
                k <= pieces@.len(),
                color_of(encode_utf8(color@)) == Some(own),
                forall|q: int| 0 <= q < k ==> shape_ok(#[trigger] pieces@[q].shape@),
            decreases pieces@.len() - k,
        {
            if !check_shape(&pieces[k].shape) {
                return Err(GameError::InvalidShape);
            }
            k += 1;
        }
        let pieces = Pieces::new(pieces);
        let mut used_pieces: Vec<usize> = Vec::new();
        let mut q: usize = 0;
        while q < pieces.pieces.len()
            invariant
                q <= pieces.pieces@.len(),
                used_pieces@.len() == q,
                forall|t: int| 0 <= t < q ==> #[trigger] used_pieces@[t] == 0,
            decreases pieces.pieces@.len() - q,
        {
            used_pieces.push(0);
            q += 1;
        }
        let map: Grid = [[Case::Void; 20]; 20];
        Ok(BlockusMap { pieces, used_pieces, map, color: own })
    }

    /// Whether the move is legal, with `need_side` telling whether it is the
    /// first move of the game (which must touch the last row or column instead
    /// of touching one of our pieces at a corner).
    pub fn check_move_validity(&self, next_move: &Move, need_side: bool) -> (r: bool)
        requires
            self.wf(),
            next_move.piece_id < self.catalog().len(),
            fits(self.catalog()[next_move.piece_id as int], next_move.x as int, next_move.y as int),
        ensures
            r == self.legal_with(next_move.piece_id as int, next_move.x as int, next_move.y as int, need_side),
    {
        let piece = self.pieces.get_piece(next_move.piece_id);
        if self.used_pieces[next_move.piece_id] >= piece.count {
            return false;
        }
        let x = next_move.x;
        let y = next_move.y;
        let ghost (m, xi, yi) = (self.map, x as int, y as int);
        assert(self.catalog()[next_move.piece_id as int] == *piece && self.grid() == m);
        let mut touch_edge = need_side;
        let mut touch_side = !need_side;
        let n = piece.size;
        let mut i: usize = 0;
        while i < n
            invariant
                piece.wf(),
                n == piece.size,
                fits(*piece, xi, yi),
                xi == x as int && yi == y as int && m == self.map && self.grid() == m,
                self.catalog()[next_move.piece_id as int] == *piece,
                x == next_move.x && y == next_move.y,
                i <= n,
                forall|a: int, b: int|
                    #[trigger] piece.is_new(a, b) && a < i ==> cell_free(m, xi + a, yi + b),
                touch_edge == (need_side || exists|a: int, b: int|
                    #[trigger] piece.is_new(a, b) && a < i && diag_player(m, xi + a, yi + b)),
                touch_side == (!need_side || exists|a: int, b: int|
                    #[trigger] piece.is_new(a, b) && a < i && (xi + a == 19 || yi + b == 19)),
            decreases n - i,
        {
            let mut j: usize = 0;
            while j < n
                invariant
                    piece.wf(),
                    n == piece.size,
                    fits(*piece, xi, yi),
                    xi == x as int && yi == y as int && m == self.map && self.grid() == m,
                    self.catalog()[next_move.piece_id as int] == *piece,
                x == next_move.x && y == next_move.y,
                    i < n,
                    j <= n,
                    forall|a: int, b: int|
                        #[trigger] piece.is_new(a, b) && scanned(i as int, j as int, a, b) ==> cell_free(m, xi + a, yi + b),
                    touch_edge == (need_side || exists|a: int, b: int|
                        #[trigger] piece.is_new(a, b) && scanned(i as int, j as int, a, b) && diag_player(m, xi + a, yi + b)),
                    touch_side == (!need_side || exists|a: int, b: int|
                        #[trigger] piece.is_new(a, b) && scanned(i as int, j as int, a, b) && (xi + a == 19 || yi + b == 19)),
                decreases n - j,
            {
                if piece.grid[i][j] == Case::New {
                    assert(piece.is_new(i as int, j as int));
                    let cx = x + i;
                    let cy = y + j;
                    let c = get_cell(&self.map, cx, cy);
                    if c == Case::Opponent || c == Case::Player {
                        assert(!cell_free(m, xi + i, yi + j));
                        assert(!cells_free(m, *piece, xi, yi));
                        return false;
                    }
                    if !check_edge(&self.map, cx, cy, &mut touch_edge) {
                        assert(!cell_free(m, xi + i, yi + j));
                        assert(!cells_free(m, *piece, xi, yi));
                        return false;
                    }
                    if cx == 19 || cy == 19 {
                        touch_side = true;
                    }
                }
                j += 1;
            }
            i += 1;
        }
        touch_edge && touch_side
    }

    /// Whether no piece has been placed yet in this game.
    pub fn is_first_move(&self) -> (r: bool)
        ensures
            r == self.first_move(),
    {
        let mut k: usize = 0;
        while k < self.used_pieces.len()
            invariant
                k <= self.used().len(),
                forall|q: int| 0 <= q < k ==> #[trigger] self.used()[q] == 0,
            decreases self.used().len() - k,
        {
            if self.used_pieces[k] != 0 {
                return false;
            }
            k += 1;
        }
        true
    }

    /// Finds the first legal placement: pieces in priority order, then anchors
    /// by ascending `x` and `y`, then the orientations `UP`, `RIGHT`, `DOWN`,
    /// `LEFT`. A placement found is recorded as one more use of its piece.
    pub fn try_position(&mut self) -> (r: Option<Move>)
        requires
            old(self).wf(),
        ensures
            final(self).wf(),
            final(self).grid() == old(self).grid(),
            final(self).catalog() == old(self).catalog(),
            final(self).own_color() == old(self).own_color(),
            r is None ==> old(self).no_legal_move() && final(self).used() == old(self).used(),
            r matches Some(mv) ==> {
                &&& old(self).is_search_result(mv)
                &&& final(self).used() == old(self).used().update(
                    mv.piece_id as int,
                    (old(self).used()[mv.piece_id as int] + 1) as usize,
                )
            },
    {
        let first = self.is_first_move();
        let order = self.pieces.get_order_priority();
        let ghost p = self.catalog();
        let n = order.len();
        let mut k: usize = 0;
        while k < n
            invariant
                self.wf(),
                *self == *old(self),
                p == self.catalog(),
                first == self.first_move(),
                n == order@.len(),
                is_priority_order(p, order@),
                k <= n,
                forall|t: int, x: int, y: int|
                    0 <= t < k && self.candidate(order@[t] as int, x, y)
                        ==> !#[trigger] self.legal_at(order@[t] as int, x, y),
            decreases n - k,
        {
            let piece_id = order[k];
            let size = self.pieces.get_piece(piece_id).size;
            let mut i: usize = 0;
            while i < 20 - (size - 1)
                invariant
                    self.wf(),
                    *self == *old(self),
                    p == self.catalog(),
                    first == self.first_move(),
                    n == order@.len(),
                    is_priority_order(p, order@),
                    k < n,
                    piece_id == order@[k as int],
                    size == p[piece_id as int].size,
                    i <= 21 - size,
                    forall|t: int, x: int, y: int|
                        0 <= t < k && self.candidate(order@[t] as int, x, y)
                            ==> !#[trigger] self.legal_at(order@[t] as int, x, y),
                    forall|x: int, y: int|
                        x < i && self.candidate(piece_id as int, x, y)
                            ==> !#[trigger] self.legal_at(piece_id as int, x, y),
                decreases 21 - size - i,
            {
                let mut j: usize = 0;
                while j < 20 - (size - 1)
                    invariant
                        self.wf(),
                        *self == *old(self),
                        p == self.catalog(),
                        first == self.first_move(),
                        n == order@.len(),
                        is_priority_order(p, order@),
                        k < n,
                        piece_id == order@[k as int],
                        size == p[piece_id as int].size,
                        i < 21 - size,
                        j <= 21 - size,
                        forall|t: int, x: int, y: int|
                            0 <= t < k && self.candidate(order@[t] as int, x, y)
                                ==> !#[trigger] self.legal_at(order@[t] as int, x, y),
                        forall|x: int, y: int|
                            scanned(i as int, j as int, x, y) && self.candidate(piece_id as int, x, y)
                                ==> !#[trigger] self.legal_at(piece_id as int, x, y),
                    decreases 21 - size - j,
                {
                    let orientations = [
                        Orientation::UP,
                        Orientation::RIGHT,
                        Orientation::DOWN,
                        Orientation::LEFT,
                    ];
                    let mut o: usize = 0;
                    while o < 4
                        invariant
                            self.wf(),
                            *self == *old(self),
                            p == self.catalog(),
                            first == self.first_move(),
                            k < n,
                            piece_id == order@[k as int],
                            size == p[piece_id as int].size,
                            i < 21 - size,
                            j < 21 - size,
                            o <= 4,
                            n == order@.len(),
                            is_priority_order(p, order@),
                            forall|t: int, x: int, y: int|
                                0 <= t < k && self.candidate(order@[t] as int, x, y)
                                    ==> !#[trigger] self.legal_at(order@[t] as int, x, y),
                            forall|x: int, y: int|
                                scanned(i as int, j as int, x, y) && self.candidate(piece_id as int, x, y)
                                    ==> !#[trigger] self.legal_at(piece_id as int, x, y),
                            orientations@[0] == Orientation::UP,
                            o > 0 ==> !self.legal_at(piece_id as int, i as int, j as int),
                        decreases 4 - o,
                    {
                        let next_move = Move { x: i, y: j, orientation: orientations[o], piece_id };
                        if self.check_move_validity(&next_move, first) {
                            proof {
                                let (id, xi, yi) = (piece_id as int, i as int, j as int);
                                assert forall|id2: int, x2: int, y2: int|
                                    self.candidate(id2, x2, y2) && self.searched_before(
                                        id2,
                                        x2,
                                        y2,
                                        id,
                                        xi,
                                        yi,
                                    ) implies !#[trigger] self.legal_at(id2, x2, y2) by {
                                    if ranks_before(p, id2, id) {
                                        assert(order@.contains(id2 as usize));
                                        let t = choose|t: int|
                                            0 <= t < order@.len() && order@[t] == id2 as usize;
                                        if t > k {
                                            assert(ranks_before(p, id, order@[t] as int));
                                        }
                                        assert(self.candidate(order@[t] as int, x2, y2));
                                    }
                                }
                                assert(o == 0);
                                assert(self.is_search_result(next_move));
                            }
                            let c = self.used_pieces[piece_id];
                            self.used_pieces.set(piece_id, c + 1);
                            return Some(next_move);
                        }
                        o += 1;
                    }
                    j += 1;
                }
                i += 1;
            }
            k += 1;
        }
        proof {
            assert forall|id: int, x: int, y: int| self.candidate(id, x, y) implies !#[trigger] self.legal_at(
                id,
                x,
                y,
            ) by {
                assert(order@.contains(id as usize));
                let t = choose|t: int| 0 <= t < order@.len() && order@[t] == id as usize;
                assert(self.candidate(order@[t] as int, x, y));
            }
        }
        None
    }

    /// `after` is this session with its board refreshed from the encoded image
    /// `bytes`, and `r` reports how that went: an unreadable image or one of
    /// the wrong size leaves the board as it was.
    pub open spec fn refreshed(&self, after: Self, bytes: Seq<u8>, r: Result<(), GameError>) -> bool {
        &&& after.catalog() == self.catalog()
        &&& after.used() == self.used()
        &&& after.own_color() == self.own_color()
        &&& match image_decoded(bytes) {
            None => r == Err::<(), GameError>(GameError::InvalidImage) && after.grid() == self.grid(),
            Some((w, h, px)) => if board_image(w, h, px) {
                r == Ok::<(), GameError>(()) && grid_of_image(after.grid(), px, self.own_color())
            } else {
                r == Err::<(), GameError>(GameError::InvalidImageSize) && after.grid() == self.grid()
            },
        }
    }

    /// Replaces the whole board by the one that the encoded image `bytes` shows.
    pub fn load_image(&mut self, bytes: Vec<u8>) -> (r: Result<(), GameError>)
        ensures
            old(self).refreshed(*final(self), bytes@, r),
    {
        let (w, h, px) = match decode_image(bytes) {
            Some(d) => d,
            None => return Err(GameError::InvalidImage),
        };
        match ingest(w, h, &px, self.color) {
            Some(g) => {
                self.map = g;
                Ok(())
            },
            None => Err(GameError::InvalidImageSize),
        }
    }

    /// Replaces the whole board by the one in a base64-encoded image, as the
    /// server sends it.
    pub fn update(&mut self, board: &str) -> (r: Result<(), GameError>)
        ensures
            match base64_decoded(board@) {
                None => r == Err::<(), GameError>(GameError::InvalidEncoding) && *final(self) == *old(self),
                Some(bytes) => old(self).refreshed(*final(self), bytes, r),
            },
    {
        match decode_board(board) {
            Ok(bytes) => self.load_image(bytes),
            Err(e) => Err(e),
        }
    }

    /// The cell at `(x, y)`.
    pub fn cell(&self, x: usize, y: usize) -> (r: Case)
        requires
            x < 20,
            y < 20,
        ensures
            r == at(self.grid(), x as int, y as int),
    {
        get_cell(&self.map, x, y)
    }

    /// How many times piece `piece_id` has been placed.
    pub fn used_count(&self, piece_id: usize) -> (r: usize)
        requires
            self.wf(),
            piece_id < self.catalog().len(),
        ensures
            r == self.used()[piece_id as int],
    {
        self.used_pieces[piece_id]
    }

    /// The piece catalogue.
    pub fn pieces(&self) -> (r: &Pieces)
        ensures
            r.pieces@ == self.catalog(),
    {
        &self.pieces
    }

    /// Our colour on the rendered board.
    pub fn color(&self) -> (r: Color)
        ensures
            r == self.own_color(),
    {
        self.color
    }
}

} // verus!
