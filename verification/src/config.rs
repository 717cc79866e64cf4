//! The constants of a tile server, as one value.

use vstd::prelude::*;

verus! {

/// The directory under which the server keeps its tiles, unless told
/// otherwise.
pub const CACHE_PATH: &'static str = "cache";

/// The usual side of a tile, in pixels.
pub const TILE_SIZE: u32 = 256;

/// What a store needs to know: where the tiles are kept and how large they
/// are.
#[derive(Debug, PartialEq, Eq)]
pub struct Config {
    /// The root directory of the store.
    pub cache_root: String,
    /// The number of pixels in a row of a tile, and of rows.
    pub tile_side: u32,
}

impl Default for Config {
    /// Tiles of `TILE_SIZE` pixels, kept under `CACHE_PATH`.
    fn default() -> (c: Config)
        ensures
            c.cache_root@ == CACHE_PATH@,
            c.tile_side == TILE_SIZE,
    {
        Config { cache_root: String::from_str(CACHE_PATH), tile_side: TILE_SIZE }
    }
}

} // verus!
