//! Static configuration: resolution, chunk and map sizes, camera speed.

use vstd::prelude::*;

verus! {

/// Window height in pixels.
pub const RESOLUTION_Y: u32 = 960;

/// The window is 16:9, so its width in pixels, `960 * 16 / 9`, is not a whole
/// number. It is kept as the fraction `RESOLUTION_X_NUM / RESOLUTION_X_DEN`.
pub const RESOLUTION_X_NUM: u32 = 15360;

pub const RESOLUTION_X_DEN: u32 = 9;

/// Edge length of one tile in pixels.
pub const DEFAULT_TILE_SIZE: u32 = 16;

/// Edge length of one chunk in tiles.
pub const DEFAULT_CHUNK_SIZE: u32 = 16;

/// Edge length of the map in chunks.
pub const DEFAULT_MAP_SIZE: u32 = 16;

/// Camera speed factor.
pub const CAMERA_SPEED: u32 = 1;

/// The states the game can be in.
#[derive(Debug, Clone, PartialEq, Hash, Copy, Eq)]
pub enum GameState {
    Game,
}

/// Edge length of one chunk in pixels for the given tile and chunk sizes.
pub open spec fn spec_chunk_size_in_pixel(tile_size: u32, chunk_size: u32) -> int {
    tile_size * chunk_size
}

/// Edge length of one chunk in pixels under the default settings.
pub fn chunk_size_in_pixel() -> (px: u32)
    ensures
        px == spec_chunk_size_in_pixel(DEFAULT_TILE_SIZE, DEFAULT_CHUNK_SIZE),
        px == 256,
{
    DEFAULT_TILE_SIZE * DEFAULT_CHUNK_SIZE
}

} // verus!
