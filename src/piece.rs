//! The piece catalogue and the order in which pieces are tried.
use vstd::prelude::*;
use crate::cell::Case;
use crate::server::{shape_ok, ResponsePiece};

verus! {

/// A piece shape: a `size` by `size` grid of `New` and `Void` cells, and the
/// number of times it may be placed.
#[derive(Clone, Debug)]
pub struct Piece {
    pub size: usize,
    pub count: usize,
    pub grid: Vec<Vec<Case>>,
}

/// The catalogue, indexed by piece id.
#[derive(Clone, Debug)]
pub struct Pieces {
    pub pieces: Vec<Piece>,
}

/// The cell of a shape that a server value describes.
pub open spec fn case_of(v: u32) -> Case {
    if v == 0 { Case::Void } else { Case::New }
}

/// Number of `New` cells in a row.
pub open spec fn row_new(row: Seq<Case>) -> nat
    decreases row.len(),
{
    if row.len() == 0 {
        0
    } else {
        row_new(row.drop_last()) + if row.last() == Case::New { 1nat } else { 0nat }
    }
}

/// Number of `New` cells in a grid.
pub open spec fn grid_new(g: Seq<Vec<Case>>) -> nat
    decreases g.len(),
{
    if g.len() == 0 {
        0
    } else {
        grid_new(g.drop_last()) + row_new(g.last()@)
    }
}

impl Piece {
    /// The grid is `size` by `size`, with `1 <= size <= 20`.
    pub open spec fn wf(&self) -> bool {
        &&& 1 <= self.size <= 20
        &&& self.grid@.len() == self.size
        &&& forall|i: int| 0 <= i < self.size ==> (#[trigger] self.grid@[i])@.len() == self.size
    }

    /// Cell `(i, j)` of the shape lies inside the grid and is part of the piece.
    pub open spec fn is_new(&self, i: int, j: int) -> bool {
        0 <= i < self.size && 0 <= j < self.size && self.grid@[i]@[j] == Case::New
    }

    /// Number of cells of the piece.
    pub open spec fn cells(&self) -> nat {
        grid_new(self.grid@)
    }

    /// Counts the `New` cells of the shape.
    pub fn new_cell_count(&self) -> (r: usize)
        requires
            self.wf(),
        ensures
            r == self.cells(),
    {
        let n = self.size;
        let mut total: usize = 0;
        let mut i: usize = 0;
        while i < n
            invariant
                self.wf(),
                n == self.size,
                i <= n,
                total == grid_new(self.grid@.subrange(0, i as int)),
                total <= i * 20,
            decreases n - i,
        {
            let row = &self.grid[i];
            let mut c: usize = 0;
            let mut j: usize = 0;
            while j < n
                invariant
                    self.wf(),
                    n == self.size,
                    i < n,
                    row == &self.grid@[i as int],
                    j <= n,
                    c == row_new(row@.subrange(0, j as int)),
                    c <= j,
                decreases n - j,
            {
                assert(row@.subrange(0, j + 1).drop_last() == row@.subrange(0, j as int));
                if row[j] == Case::New {
                    c += 1;
                }
                j += 1;
            }
            assert(row@.subrange(0, n as int) == row@);
            assert(self.grid@.subrange(0, i + 1).drop_last() == self.grid@.subrange(0, i as int));
            total += c;
            i += 1;
        }
        assert(self.grid@.subrange(0, n as int) == self.grid@);
        total
    }
}

/// `a` is tried before `b`: more cells first, then the larger bounding box,
/// then the smaller id.
pub open spec fn ranks_before(p: Seq<Piece>, a: int, b: int) -> bool {
    let (ca, cb) = (p[a].cells(), p[b].cells());
    ca > cb || (ca == cb && (p[a].size > p[b].size || (p[a].size == p[b].size && a < b)))
}

/// `ord` lists every id of `p` once, in the order of `ranks_before`.
pub open spec fn is_priority_order(p: Seq<Piece>, ord: Seq<usize>) -> bool {
    &&& ord.len() == p.len()
    &&& forall|k: int| 0 <= k < ord.len() ==> #[trigger] ord[k] < p.len()
    &&& forall|id: int| 0 <= id < p.len() ==> #[trigger] ord.contains(id as usize)
    &&& forall|k: int, l: int|
        0 <= k < l < ord.len() ==> #[trigger] ranks_before(p, ord[k] as int, ord[l] as int)
}

/// The shape grid that a server description gives.
fn grid_from_shape(shape: &Vec<Vec<u32>>) -> (r: Vec<Vec<Case>>)
    ensures
        r@.len() == shape@.len(),
        forall|i: int|
            0 <= i < r@.len() ==> (#[trigger] r@[i])@.len() == shape@[i]@.len(),
        forall|i: int, j: int|
            0 <= i < r@.len() && 0 <= j < r@[i]@.len() ==> #[trigger] r@[i]@[j] == case_of(
                shape@[i]@[j],
            ),
{
    let mut grid: Vec<Vec<Case>> = Vec::new();
    let mut i: usize = 0;
    while i < shape.len()
        invariant
            i <= shape@.len(),
            grid@.len() == i,
            forall|a: int| 0 <= a < i ==> (#[trigger] grid@[a])@.len() == shape@[a]@.len(),
            forall|a: int, b: int|
                0 <= a < i && 0 <= b < grid@[a]@.len() ==> #[trigger] grid@[a]@[b] == case_of(
                    shape@[a]@[b],
                ),
        decreases shape@.len() - i,
    {
        let src = &shape[i];
        let mut row: Vec<Case> = Vec::new();
        let mut j: usize = 0;
        while j < src.len()
            invariant
                j <= src@.len(),
                row@.len() == j,
                forall|b: int| 0 <= b < j ==> #[trigger] row@[b] == case_of(src@[b]),
            decreases src@.len() - j,
        {
            row.push(if src[j] == 0 { Case::Void } else { Case::New });
            j += 1;
        }
        grid.push(row);
        i += 1;
    }
    grid
}

impl Pieces {
    /// Every piece is well formed.
    pub open spec fn wf(&self) -> bool {
        forall|k: int| 0 <= k < self.pieces@.len() ==> (#[trigger] self.pieces@[k]).wf()
    }

    /// Builds the catalogue from well-formed server descriptions, keeping their order.
    pub fn new(response_pieces: &Vec<ResponsePiece>) -> (r: Self)
        requires
            forall|k: int|
                0 <= k < response_pieces@.len() ==> shape_ok(#[trigger] response_pieces@[k].shape@),
        ensures
            r.wf(),
            r.pieces@.len() == response_pieces@.len(),
            forall|k: int|
                0 <= k < r.pieces@.len() ==> {
                    let (p, s) = (#[trigger] r.pieces@[k], response_pieces@[k]);
                    &&& p.size == s.shape@.len()
                    &&& p.count == s.count
                    &&& forall|i: int, j: int|
                        0 <= i < p.size && 0 <= j < p.size ==> p.grid@[i]@[j] == case_of(
                            s.shape@[i]@[j],
                        )
                },
    {
        let mut pieces: Vec<Piece> = Vec::new();
        let mut k: usize = 0;
        while k < response_pieces.len()
            invariant
                k <= response_pieces@.len(),
                pieces@.len() == k,
                forall|q: int|
                    0 <= q < response_pieces@.len() ==> shape_ok(
                        #[trigger] response_pieces@[q].shape@,
                    ),
                forall|q: int|
                    0 <= q < k ==> {
                        let (p, s) = (#[trigger] pieces@[q], response_pieces@[q]);
                        &&& p.wf()
                        &&& p.size == s.shape@.len()
                        &&& p.count == s.count
                        &&& forall|i: int, j: int|
                            0 <= i < p.size && 0 <= j < p.size ==> p.grid@[i]@[j] == case_of(
                                s.shape@[i]@[j],
                            )
                    },
            decreases response_pieces@.len() - k,
        {
            let s = &response_pieces[k];
            assert(shape_ok(s.shape@));
            let grid = grid_from_shape(&s.shape);
            let p = Piece { size: s.shape.len(), count: s.count as usize, grid };
            assert(p.wf());
            pieces.push(p);
            k += 1;
        }
        Pieces { pieces }
    }

    /// Whether piece `a` is tried before piece `b`.
    fn tried_before(&self, cells: &Vec<usize>, a: usize, b: usize) -> (r: bool)
        requires
            self.wf(),
            a < self.pieces@.len(),
            b < self.pieces@.len(),
            cells@.len() == self.pieces@.len(),
            forall|k: int| 0 <= k < cells@.len() ==> #[trigger] cells@[k] == self.pieces@[k].cells(),
        ensures
            r == ranks_before(self.pieces@, a as int, b as int),
    {
        let (ca, cb) = (cells[a], cells[b]);
        let (sa, sb) = (self.pieces[a].size, self.pieces[b].size);
        ca > cb || (ca == cb && (sa > sb || (sa == sb && a < b)))
    }

    /// The piece ids in the order in which they are tried: more cells first,
    /// then larger bounding box, then smaller id.
    pub fn get_order_priority(&self) -> (r: Vec<usize>)
        requires
            self.wf(),
        ensures
            is_priority_order(self.pieces@, r@),
    {
        let n = self.pieces.len();
        let mut cells: Vec<usize> = Vec::new();
        let mut k: usize = 0;
        while k < n
            invariant
                self.wf(),
                n == self.pieces@.len(),
                k <= n,
                cells@.len() == k,
                forall|q: int| 0 <= q < k ==> #[trigger] cells@[q] == self.pieces@[q].cells(),
            decreases n - k,
        {
            cells.push(self.pieces[k].new_cell_count());
            k += 1;
        }
        let ghost p = self.pieces@;
        let mut ord: Vec<usize> = Vec::new();
        let mut id: usize = 0;
        while id < n
            invariant
                self.wf(),
                p == self.pieces@,
                n == p.len(),
                cells@.len() == n,
                forall|q: int| 0 <= q < n ==> #[trigger] cells@[q] == p[q].cells(),
                id <= n,
                ord@.len() == id,
                forall|t: int| 0 <= t < ord@.len() ==> #[trigger] ord@[t] < id,
                forall|x: int| 0 <= x < id ==> #[trigger] ord@.contains(x as usize),
                forall|t: int, u: int|
                    0 <= t < u < ord@.len() ==> #[trigger] ranks_before(p, ord@[t] as int, ord@[u] as int),
            decreases n - id,
        {
            let mut q: usize = 0;
            while q < ord.len() && !self.tried_before(&cells, id, ord[q])
                invariant
                    self.wf(),
                    p == self.pieces@,
                    n == p.len(),
                    cells@.len() == n,
                    forall|t: int| 0 <= t < n ==> #[trigger] cells@[t] == p[t].cells(),
                    id < n,
                    ord@.len() == id,
                    forall|t: int| 0 <= t < ord@.len() ==> #[trigger] ord@[t] < id,
                    q <= ord@.len(),
                    forall|t: int| 0 <= t < q ==> #[trigger] ranks_before(p, ord@[t] as int, id as int),
                decreases ord@.len() - q,
            {
                q += 1;
            }
            let ghost old_ord = ord@;
            proof {
                assert forall|t: int| q <= t < old_ord.len() implies #[trigger] ranks_before(
                    p,
                    id as int,
                    old_ord[t] as int,
                ) by {
                    if t > q {
                        assert(ranks_before(p, old_ord[q as int] as int, old_ord[t] as int));
                    }
                }
            }
            ord.insert(q, id);
            proof {
                let s = ord@;
                assert forall|t: int, u: int| 0 <= t < u < s.len() implies #[trigger] ranks_before(
                    p,
                    s[t] as int,
                    s[u] as int,
                ) by {
                    if u < q {
                    } else if u == q {
                    } else if t < q {
                        assert(s[u] == old_ord[u - 1]);
                        assert(ranks_before(p, old_ord[t] as int, id as int));
                    } else if t == q {
                        assert(s[u] == old_ord[u - 1]);
                    } else {
                        assert(s[u] == old_ord[u - 1]);
                        assert(s[t] == old_ord[t - 1]);
                    }
                }
                assert forall|x: int| 0 <= x < id + 1 implies #[trigger] s.contains(x as usize) by {
                    if x < id {
                        assert(old_ord.contains(x as usize));
                        let w = choose|w: int| 0 <= w < old_ord.len() && old_ord[w] == x as usize;
                        if w < q {
                            assert(s[w] == x as usize);
                        } else {
                            assert(s[w + 1] == x as usize);
                        }
                    } else {
                        assert(s[q as int] == id);
                    }
                }
                assert forall|t: int| 0 <= t < s.len() implies #[trigger] s[t] < id + 1 by {
                    if t < q {
                    } else if t > q {
                        assert(s[t] == old_ord[t - 1]);
                    }
                }
            }
            id += 1;
        }
        ord
    }

    /// The piece with id `piece_id`.
    pub fn get_piece(&self, piece_id: usize) -> (r: &Piece)
        requires
            piece_id < self.pieces@.len(),
        ensures
            *r == self.pieces@[piece_id as int],
    {
        &self.pieces[piece_id]
    }
}

} // verus!
