//! Plain records of the messages exchanged with the game server.
use vstd::prelude::*;

verus! {

/// One piece as the server describes it: nonzero entries of `shape` are part of it.
#[derive(Debug, Clone)]
pub struct ResponsePiece {
    pub id: u32,
    pub count: u32,
    pub shape: Vec<Vec<u32>>,
}

/// The game-start message: the encoded board image, our colour as `#RRGGBB`
/// and the piece catalogue.
#[derive(Debug, Clone)]
pub struct NewResponse {
    pub board: String,
    pub color: String,
    pub pieces: Vec<ResponsePiece>,
}

/// A shape is usable when it is a nonempty square grid no larger than the board.
pub open spec fn shape_ok(shape: Seq<Vec<u32>>) -> bool {
    &&& 1 <= shape.len() <= 20
    &&& forall|i: int| 0 <= i < shape.len() ==> (#[trigger] shape[i])@.len() == shape.len()
}

/// Checks `shape_ok`.
pub fn check_shape(shape: &Vec<Vec<u32>>) -> (r: bool)
    ensures
        r == shape_ok(shape@),
{
    let n = shape.len();
    if n < 1 || n > 20 {
        return false;
    }
    let mut i: usize = 0;
    while i < n
        invariant
            n == shape@.len(),
            i <= n,
            forall|k: int| 0 <= k < i ==> (#[trigger] shape@[k])@.len() == n,
        decreases n - i,
    {
        if shape[i].len() != n {
            return false;
        }
        i += 1;
    }
    true
}

} // verus!
