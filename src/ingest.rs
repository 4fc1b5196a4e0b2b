//! Reading the board from a rendered image.
use vstd::prelude::*;
use crate::cell::{at, Case, Grid};
use crate::color::{classify_pixel, pixel_case, Color};

verus! {

broadcast use vstd::array::group_array_axioms;

/// Edge length in pixels of a rendered board.
pub const IMAGE_SIZE: u32 = 400;

/// The RGBA pixel at `(x, y)` of a 400 pixel wide image.
pub open spec fn pixel_at(rgba: Seq<u8>, x: int, y: int) -> (u8, u8, u8, u8) {
    let o = (y * 400 + x) * 4;
    (rgba[o], rgba[o + 1], rgba[o + 2], rgba[o + 3])
}

/// The image has the shape of a rendered board: 400 by 400 RGBA pixels.
pub open spec fn board_image(width: u32, height: u32, rgba: Seq<u8>) -> bool {
    width == 400 && height == 400 && rgba.len() == 640000
}

/// The board that a rendered image shows: cell `(x, y)` is read from the
/// top-left pixel of its 20 by 20 block.
pub open spec fn grid_of_image(g: Grid, rgba: Seq<u8>, c: Color) -> bool {
    forall|x: int, y: int|
        0 <= x < 20 && 0 <= y < 20 ==> #[trigger] at(g, x, y) == pixel_case(
            pixel_at(rgba, 20 * x, 20 * y),
            c,
        )
}

/// Reads the board from an RGBA image, `c` being our colour; `None` if the
/// image is not 400 by 400 pixels.
pub fn ingest(width: u32, height: u32, rgba: &Vec<u8>, c: Color) -> (r: Option<Grid>)
    ensures
        r is Some <==> board_image(width, height, rgba@),
        r matches Some(g) ==> grid_of_image(g, rgba@, c),
{
    if width != IMAGE_SIZE || height != IMAGE_SIZE || rgba.len() != 640000 {
        return None;
    }
    let mut g: Grid = [[Case::Void; 20]; 20];
    let mut x: usize = 0;
    while x < 20
        invariant
            x <= 20,
            rgba@.len() == 640000,
            forall|a: int, b: int|
                0 <= a < x && 0 <= b < 20 ==> #[trigger] at(g, a, b) == pixel_case(
                    pixel_at(rgba@, 20 * a, 20 * b),
                    c,
                ),
        decreases 20 - x,
    {
        let mut y: usize = 0;
        while y < 20
            invariant
                x < 20,
                y <= 20,
                rgba@.len() == 640000,
                forall|a: int, b: int|
                    0 <= a < x && 0 <= b < 20 ==> #[trigger] at(g, a, b) == pixel_case(
                        pixel_at(rgba@, 20 * a, 20 * b),
                        c,
                    ),
                forall|b: int|
                    0 <= b < y ==> #[trigger] at(g, x as int, b) == pixel_case(
                        pixel_at(rgba@, 20 * x, 20 * b),
                        c,
                    ),
            decreases 20 - y,
        {
            let o: usize = (20 * y * 400 + 20 * x) * 4;
            let p = (rgba[o], rgba[o + 1], rgba[o + 2], rgba[o + 3]);
            assert(p == pixel_at(rgba@, 20 * x, 20 * y));
            let ghost g0 = g;
            g[x][y] = classify_pixel(p, c);
            assert(forall|a: int, b: int| 0 <= a < 20 && 0 <= b < 20 && (a, b) != (x as int, y as int) ==> at(g, a, b) == at(g0, a, b));
            y += 1;
        }
        x += 1;
    }
    Some(g)
}

} // verus!
