//! The chunked tile map: a grid of chunks, each a grid of tiles.

use vstd::prelude::*;
use vstd::arithmetic::div_mod::lemma_fundamental_div_mod;
use vstd::arithmetic::div_mod::lemma_fundamental_div_mod_converse;
use vstd::arithmetic::div_mod::lemma_mod_bound;
use crate::plugin::texture_loader::spec_terrain_tileset;
use crate::settings::DEFAULT_CHUNK_SIZE;
use crate::settings::DEFAULT_MAP_SIZE;
use crate::settings::DEFAULT_TILE_SIZE;
use crate::vector::UVec2;

verus! {

/// The cell of a grid with `rows` cells per column that comes at place `i`
/// when the grid is walked column by column: `(i / rows, i % rows)`.
pub open spec fn spec_column_major(i: int, rows: int) -> UVec2 {
    UVec2 { x: (i / rows) as u32, y: (i % rows) as u32 }
}

/// The cell of a grid with `columns` cells per row that comes at place `i`
/// when the grid is walked row by row: `(i % columns, i / columns)`.
pub open spec fn spec_row_major(i: int, columns: int) -> UVec2 {
    UVec2 { x: (i % columns) as u32, y: (i / columns) as u32 }
}

/// Place `a * n + b` of a walk in runs of `n` is run `a`, step `b`.
pub proof fn lemma_place_splits(a: int, b: int, n: int)
    requires
        0 <= b < n,
    ensures
        (a * n + b) / n == a,
        (a * n + b) % n == b,
{
    lemma_fundamental_div_mod_converse(a * n + b, n, a, b);
}

/// A place below `m * n` lies in a run below `m`, at a step below `n`, and
/// the run and the step together give the place back.
pub proof fn lemma_place_in_grid(i: int, m: int, n: int)
    requires
        0 <= i < m * n,
        0 < n,
    ensures
        0 <= i / n < m,
        0 <= i % n < n,
        i == (i / n) * n + i % n,
{
    lemma_fundamental_div_mod(i, n);
    lemma_mod_bound(i, n);
    assert((i / n) * n == n * (i / n)) by (nonlinear_arith);
    assert(0 <= i / n < m) by (nonlinear_arith)
        requires
            0 <= i < m * n,
            0 < n,
            i == n * (i / n) + i % n,
            0 <= i % n < n,
    ;
}

/// Whether a chunk or a tile is to be drawn.
#[derive(Debug, Clone, Copy, PartialEq, Eq, Structural)]
pub struct Visibility {
    pub is_visible: bool,
}

/// A map of `width` by `height` chunks.
#[derive(Debug, Clone, Copy, PartialEq, Eq, Structural)]
pub struct TileMap {
    pub width: u32,
    pub height: u32,
}

/// One chunk of the map, at its place in the grid of chunks.
#[derive(Debug, Clone, Copy, PartialEq, Eq, Structural)]
pub struct TileMapChunk {
    pub pos: UVec2,
}

/// One tile of a chunk, at its place in the chunk's grid of tiles.
#[derive(Debug, Clone, Copy, PartialEq, Eq, Structural)]
pub struct TileMapTile {
    pub pos: UVec2,
}

impl TileMap {
    /// The chunks of the map: `width * height` of them, column by column.
    pub open spec fn spec_get_chunks(&self) -> Seq<TileMapChunk> {
        Seq::new(
            (self.width * self.height) as nat,
            |i: int| TileMapChunk { pos: spec_column_major(i, self.height as int) },
        )
    }

    pub fn new(width: u32, height: u32) -> (tilemap: Self)
        ensures
            tilemap == (TileMap { width, height }),
    {
        Self { width, height }
    }

    /// Generates the chunks of the map.
    pub fn get_chunks(&self) -> (chunks: Vec<TileMapChunk>)
        ensures
            chunks@ == self.spec_get_chunks(),
            chunks.len() == self.width * self.height,
            forall|i: int, j: int|
                0 <= i < j < chunks.len() ==> (#[trigger] chunks[i]).pos != (#[trigger] chunks[j]).pos,
    {
        let mut chunks: Vec<TileMapChunk> = Vec::new();
        for x in 0..self.width
            invariant
                chunks.len() == x * self.height,
                forall|k: int|
                    0 <= k < chunks.len() ==> (#[trigger] chunks[k]).pos == spec_column_major(
                        k,
                        self.height as int,
                    ),
        {
            for y in 0..self.height
                invariant
                    x < self.width,
                    chunks.len() == x * self.height + y,
                    forall|k: int|
                        0 <= k < chunks.len() ==> (#[trigger] chunks[k]).pos == spec_column_major(
                            k,
                            self.height as int,
                        ),
            {
                proof {
                    lemma_place_splits(x as int, y as int, self.height as int);
                }
                chunks.push(TileMapChunk::new(UVec2::new(x, y)));
            }
            assert((x + 1) * self.height == x * self.height + self.height) by (nonlinear_arith);
        }
        proof {
            assert(chunks@ =~= self.spec_get_chunks());
            assert forall|i: int, j: int| 0 <= i < j < chunks.len() implies (#[trigger] chunks[i]).pos
                != (#[trigger] chunks[j]).pos by {
                lemma_chunks_unique(*self, i, j);
            }
        }
        chunks
    }
}

/// No two chunks of a map lie at the same place.
pub proof fn lemma_chunks_unique(tilemap: TileMap, i: int, j: int)
    requires
        0 <= i < tilemap.width * tilemap.height,
        0 <= j < tilemap.width * tilemap.height,
        i != j,
    ensures
        tilemap.spec_get_chunks()[i].pos != tilemap.spec_get_chunks()[j].pos,
{
    let h = tilemap.height as int;
    assert(h > 0) by (nonlinear_arith)
        requires
            0 <= i < tilemap.width * h,
            h >= 0,
    ;
    lemma_place_in_grid(i, tilemap.width as int, h);
    lemma_place_in_grid(j, tilemap.width as int, h);
}

impl TileMapChunk {
    /// The tiles of a chunk: `DEFAULT_CHUNK_SIZE` squared of them, row by row.
    pub open spec fn spec_get_tiles(&self) -> Seq<TileMapTile> {
        Seq::new(
            (DEFAULT_CHUNK_SIZE * DEFAULT_CHUNK_SIZE) as nat,
            |i: int| TileMapTile { pos: spec_row_major(i, DEFAULT_CHUNK_SIZE as int) },
        )
    }

    pub fn new(pos: UVec2) -> (chunk: Self)
        ensures
            chunk == (TileMapChunk { pos }),
    {
        Self { pos }
    }

    /// Generates the tiles of the chunk.
    pub fn get_tiles(&self) -> (tiles: Vec<TileMapTile>)
        ensures
            tiles@ == self.spec_get_tiles(),
            tiles.len() == DEFAULT_CHUNK_SIZE * DEFAULT_CHUNK_SIZE,
            forall|i: int, j: int|
                0 <= i < j < tiles.len() ==> (#[trigger] tiles[i]).pos != (#[trigger] tiles[j]).pos,
    {
        let mut tiles: Vec<TileMapTile> = Vec::new();
        for y in 0..DEFAULT_CHUNK_SIZE
            invariant
                tiles.len() == y * DEFAULT_CHUNK_SIZE,
                forall|k: int|
                    0 <= k < tiles.len() ==> (#[trigger] tiles[k]).pos == spec_row_major(
                        k,
                        DEFAULT_CHUNK_SIZE as int,
                    ),
        {
            for x in 0..DEFAULT_CHUNK_SIZE
                invariant
                    y < DEFAULT_CHUNK_SIZE,
                    tiles.len() == y * DEFAULT_CHUNK_SIZE + x,
                    forall|k: int|
                        0 <= k < tiles.len() ==> (#[trigger] tiles[k]).pos == spec_row_major(
                            k,
                            DEFAULT_CHUNK_SIZE as int,
                        ),
            {
                tiles.push(TileMapTile::new(UVec2::new(x, y)));
            }
        }
        proof {
            assert(tiles@ =~= self.spec_get_tiles());
        }
        tiles
    }
}

/// No two tiles of a chunk lie at the same place.
pub proof fn lemma_tiles_unique(chunk: TileMapChunk, i: int, j: int)
    requires
        0 <= i < DEFAULT_CHUNK_SIZE * DEFAULT_CHUNK_SIZE,
        0 <= j < DEFAULT_CHUNK_SIZE * DEFAULT_CHUNK_SIZE,
        i != j,
    ensures
        chunk.spec_get_tiles()[i].pos != chunk.spec_get_tiles()[j].pos,
{
}

impl TileMapTile {
    pub fn new(pos_in_chunk: UVec2) -> (tile: Self)
        ensures
            tile == (TileMapTile { pos: pos_in_chunk }),
    {
        Self { pos: pos_in_chunk }
    }
}

/// What is spawned for one tile.
#[derive(Debug, Clone, Copy, PartialEq, Eq, Structural)]
pub struct SpawnedTile {
    pub tile: TileMapTile,
    /// Cell of the terrain sheet that the tile shows.
    pub sprite_index: usize,
    /// Place of the tile inside its chunk, in pixels.
    pub x: u64,
    pub y: u64,
    pub visibility: Visibility,
}

/// What is spawned for one chunk: the chunk and, as its children, its tiles.
#[derive(Debug, PartialEq, Eq)]
pub struct SpawnedChunk {
    pub chunk: TileMapChunk,
    /// Place of the chunk inside the map, in pixels.
    pub x: u64,
    pub y: u64,
    pub visibility: Visibility,
    pub tiles: Vec<SpawnedTile>,
}

/// What is spawned for the whole map: the map and, as its children, its chunks.
#[derive(Debug, PartialEq, Eq)]
pub struct SpawnedTileMap {
    pub tilemap: TileMap,
    pub chunks: Vec<SpawnedChunk>,
}

/// The sprite of every tile of the chunk that is spawned as number `counter`,
/// counting from one.
pub open spec fn spec_sprite_index(counter: int) -> int {
    counter % 100
}

/// What is spawned for `tile` in the chunk spawned as number `counter`.
pub open spec fn spec_spawn_tile(tile: TileMapTile, counter: int) -> SpawnedTile {
    SpawnedTile {
        tile,
        sprite_index: spec_sprite_index(counter) as usize,
        x: (tile.pos.x * DEFAULT_TILE_SIZE) as u64,
        y: (tile.pos.y * DEFAULT_TILE_SIZE) as u64,
        visibility: Visibility { is_visible: true },
    }
}

impl SpawnedChunk {
    /// Whether this is what is spawned for `chunk` as number `counter`: the
    /// chunk at its place in pixels, visible, with all its tiles in order.
    pub open spec fn is_spawn_of(&self, chunk: TileMapChunk, counter: int) -> bool {
        &&& self.chunk == chunk
        &&& self.x == chunk.pos.x * DEFAULT_CHUNK_SIZE * DEFAULT_TILE_SIZE
        &&& self.y == chunk.pos.y * DEFAULT_CHUNK_SIZE * DEFAULT_TILE_SIZE
        &&& self.visibility.is_visible
        &&& self.tiles@ == chunk.spec_get_tiles().map_values(
            |tile: TileMapTile| spec_spawn_tile(tile, counter),
        )
    }
}

impl SpawnedTileMap {
    /// Whether this is what is spawned for `tilemap`: each of its chunks in
    /// order, numbered from one.
    pub open spec fn is_spawn_of(&self, tilemap: TileMap) -> bool {
        &&& self.tilemap == tilemap
        &&& self.chunks.len() == tilemap.spec_get_chunks().len()
        &&& forall|k: int|
            0 <= k < self.chunks.len() ==> (#[trigger] self.chunks[k]).is_spawn_of(
                tilemap.spec_get_chunks()[k],
                k + 1,
            )
    }
}

/// Lays out the default map for spawning: `DEFAULT_MAP_SIZE` squared chunks,
/// each with its tiles, every tile of a chunk showing the same terrain sprite.
pub fn create_tilemap_system() -> (spawned: SpawnedTileMap)
    ensures
        spawned.is_spawn_of(TileMap { width: DEFAULT_MAP_SIZE, height: DEFAULT_MAP_SIZE }),
        spawned.chunks.len() == DEFAULT_MAP_SIZE * DEFAULT_MAP_SIZE,
        forall|k: int, t: int|
            0 <= k < spawned.chunks.len() && 0 <= t < spawned.chunks[k].tiles.len()
                ==> spec_terrain_tileset().spec_contains(
                (#[trigger] spawned.chunks[k].tiles[t]).sprite_index as int,
            ),
{
    let tilemap: TileMap = TileMap::new(DEFAULT_MAP_SIZE, DEFAULT_MAP_SIZE);
    let chunks: Vec<TileMapChunk> = tilemap.get_chunks();
    let mut chunk_entities: Vec<SpawnedChunk> = Vec::new();
    let mut debug_chunk_counter: usize = 1;
    let tile_px: u64 = DEFAULT_TILE_SIZE as u64;
    let chunk_px: u64 = DEFAULT_CHUNK_SIZE as u64 * tile_px;
    assert(chunk_px == 256) by (nonlinear_arith)
        requires
            chunk_px == DEFAULT_CHUNK_SIZE * tile_px,
            DEFAULT_CHUNK_SIZE == 16,
            tile_px == 16,
    ;
    for k in 0..chunks.len()
        invariant
            tile_px == 16,
            chunk_px == 256,
            tilemap == (TileMap { width: DEFAULT_MAP_SIZE, height: DEFAULT_MAP_SIZE }),
            chunks@ == tilemap.spec_get_chunks(),
            chunks.len() == DEFAULT_MAP_SIZE * DEFAULT_MAP_SIZE,
            chunk_entities.len() == k,
            debug_chunk_counter == k + 1,
            forall|i: int|
                0 <= i < k ==> (#[trigger] chunk_entities[i]).is_spawn_of(chunks[i], i + 1),
            forall|i: int, t: int|
                0 <= i < k && 0 <= t < chunk_entities[i].tiles.len() ==> (
                #[trigger] chunk_entities[i].tiles[t]).sprite_index < 100,
    {
        let chunk: TileMapChunk = chunks[k];
        let tiles: Vec<TileMapTile> = chunk.get_tiles();
        let mut tile_entities: Vec<SpawnedTile> = Vec::new();
        for t in 0..tiles.len()
            invariant
                tile_px == 16,
                tiles@ == chunk.spec_get_tiles(),
                tiles.len() == DEFAULT_CHUNK_SIZE * DEFAULT_CHUNK_SIZE,
                tile_entities.len() == t,
                0 < debug_chunk_counter <= DEFAULT_MAP_SIZE * DEFAULT_MAP_SIZE,
                forall|i: int|
                    0 <= i < t ==> #[trigger] tile_entities[i] == spec_spawn_tile(
                        tiles[i],
                        debug_chunk_counter as int,
                    ),
        {
            let tile: TileMapTile = tiles[t];
            tile_entities.push(
                SpawnedTile {
                    tile,
                    sprite_index: debug_chunk_counter % 100,
                    x: tile.pos.x as u64 * tile_px,
                    y: tile.pos.y as u64 * tile_px,
                    visibility: Visibility { is_visible: true },
                },
            );
        }
        proof {
            assert(tile_entities@ =~= chunk.spec_get_tiles().map_values(
                |tile: TileMapTile| spec_spawn_tile(tile, debug_chunk_counter as int),
            ));
        }
        chunk_entities.push(
            SpawnedChunk {
                chunk,
                x: chunk.pos.x as u64 * chunk_px,
                y: chunk.pos.y as u64 * chunk_px,
                visibility: Visibility { is_visible: true },
                tiles: tile_entities,
            },
        );
        debug_chunk_counter += 1;
    }
    SpawnedTileMap { tilemap, chunks: chunk_entities }
}

} // verus!
