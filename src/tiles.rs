//! The sprite-sheet sketch: a square of tiles, each showing one cell of a
//! texture atlas.

use vstd::prelude::*;

verus! {

/// The number of tiles along each side.
pub const TILES_PER_SIDE: usize = 16;

/// The atlas cell shown by the tile in column `i` and row `j`.
pub fn atlas_index(i: usize, j: usize) -> (r: usize)
    requires
        i < TILES_PER_SIDE,
        j < TILES_PER_SIDE,
    ensures
        r == i * j + j,
{
    assert(i * j <= 15 * 15) by (nonlinear_arith)
        requires
            i < 16,
            j < 16,
    ;
    i * j + j
}

} // verus!
