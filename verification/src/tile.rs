use vstd::prelude::*;

verus! {

/// Pixels in one tile: eight rows of eight.
pub const TILE_PIXELS: usize = 64;

/// An 8x8 block of pixels, one byte per pixel, stored row by row.
pub struct Tile {
    pub pixels: [u8; 64],
}

impl Tile {
    /// A blank tile: every pixel is zero.
    pub fn new() -> (tile: Tile)
        ensures
            tile.pixels@ == Seq::new(TILE_PIXELS as nat, |at: int| 0u8),
    {
        let pixels: [u8; 64] = [0; 64];
        assert(pixels@ =~= Seq::new(TILE_PIXELS as nat, |at: int| 0u8));
        Tile { pixels }
    }
}

} // verus!
