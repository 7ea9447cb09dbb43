//! The two sprite sheets of the game and how each is cut into cells.

use vstd::prelude::*;

verus! {

/// A sprite sheet cut into a grid of square cells of equal size. A sprite is
/// named by the index of its cell, counted row by row.
#[derive(Debug, Clone, Copy, PartialEq, Eq)]
pub struct TilesetGrid {
    /// File the sheet is loaded from.
    pub path: &'static str,
    /// Edge length of one cell in pixels.
    pub tile_size: u32,
    pub columns: usize,
    pub rows: usize,
}

impl TilesetGrid {
    /// Number of cells of the sheet.
    pub open spec fn spec_len(&self) -> int {
        self.columns * self.rows
    }

    /// Whether `index` names a cell of the sheet.
    pub open spec fn spec_contains(&self, index: int) -> bool {
        0 <= index < self.spec_len()
    }
}

/// The ASCII sheet: 16 by 16 cells of 64 pixels.
pub open spec fn spec_ascii_tileset() -> TilesetGrid {
    TilesetGrid { path: "ascii.png", tile_size: 64, columns: 16, rows: 16 }
}

/// The terrain sheet: 10 by 10 cells of 16 pixels.
pub open spec fn spec_terrain_tileset() -> TilesetGrid {
    TilesetGrid { path: "terrain.png", tile_size: 16, columns: 10, rows: 10 }
}

/// Describes the ASCII sheet.
pub fn load_ascii() -> (grid: TilesetGrid)
    ensures
        grid == spec_ascii_tileset(),
        grid.spec_len() == 256,
{
    TilesetGrid { path: "ascii.png", tile_size: 64, columns: 16, rows: 16 }
}

/// Describes the terrain sheet.
pub fn load_terrain() -> (grid: TilesetGrid)
    ensures
        grid == spec_terrain_tileset(),
        grid.spec_len() == 100,
{
    TilesetGrid { path: "terrain.png", tile_size: 16, columns: 10, rows: 10 }
}

/// Named cells of the ASCII sheet.
#[derive(Debug, Clone, Copy, PartialEq, Eq, Structural)]
pub enum AsciiTilsetId {
    Zero,
}

impl AsciiTilsetId {
    /// The cell a name stands for.
    pub open spec fn spec_index(self) -> int {
        match self {
            AsciiTilsetId::Zero => 48,
        }
    }

    /// The cell a name stands for; it is a cell of the ASCII sheet.
    pub fn index(self) -> (i: usize)
        ensures
            i == self.spec_index(),
            spec_ascii_tileset().spec_contains(i as int),
    {
        match self {
            AsciiTilsetId::Zero => 48,
        }
    }
}

} // verus!
