//! A trial map: a square of tiles around the origin of the world, each with
//! a terrain sprite drawn at random.

use rand::rngs::ThreadRng;
use rand::Rng;
use vstd::prelude::*;
use vstd::arithmetic::div_mod::lemma_fundamental_div_mod_converse;
use crate::plugin::map::Visibility;
use crate::plugin::texture_loader::spec_terrain_tileset;
use crate::settings::DEFAULT_TILE_SIZE;
use crate::vector::IVec2;

verus! {

/// Edge length of the trial map in tiles.
pub const MAP_WIDTH_AND_HEIGHT: i32 = 200;

/// One tile of the trial map, as it is spawned.
#[derive(Debug, Clone, Copy, PartialEq, Eq, Structural)]
pub struct MapTile {
    /// Cell of the terrain sheet that the tile shows.
    pub id: usize,
    /// Place of the tile in the world, in pixels.
    pub x: i64,
    pub y: i64,
    pub visibility: Visibility,
}

/// `rand::rngs::ThreadRng`, the handle to the random number generator of the
/// current thread. Nothing is known of what it holds.
#[verifier::external_type_specification]
#[verifier::external_body]
pub struct ExThreadRng(ThreadRng);

/// Calls `rand::thread_rng`, which hands out the random number generator of
/// the current thread. Nothing is claimed of the generator. The call panics
/// where the system gives no entropy to seed it.
#[verifier::external_body]
fn thread_rng() -> ThreadRng {
    rand::thread_rng()
}

/// Calls `rand::Rng::gen` for a `usize`. The number depends on chance, so
/// nothing is claimed of it.
#[verifier::external_body]
fn gen_usize(rng: &mut ThreadRng) -> usize {
    rng.gen::<usize>()
}

/// The sprite that a random number picks: the number modulo 100.
pub open spec fn spec_sprite_id(random: int) -> int {
    random % 100
}

/// Picks a sprite by a random number. Whatever the number, the sprite is a
/// cell of the terrain sheet.
pub fn sprite_id(random: usize) -> (id: usize)
    ensures
        id == spec_sprite_id(random as int),
        spec_terrain_tileset().spec_contains(id as int),
{
    random % 100
}

/// The place, in tiles, of the tile that `create_map` spawns at place `i`:
/// the map is laid out column by column and centred on the origin.
pub open spec fn spec_map_position(i: int) -> IVec2 {
    IVec2 {
        x: (i / (MAP_WIDTH_AND_HEIGHT as int) - MAP_WIDTH_AND_HEIGHT / 2) as i32,
        y: (i % (MAP_WIDTH_AND_HEIGHT as int) - MAP_WIDTH_AND_HEIGHT / 2) as i32,
    }
}

/// Lays out one tile for spawning: it shows the sprite `id` at `position`,
/// which is counted in tiles, and is visible.
pub fn spawn_map_tile(id: usize, position: IVec2) -> (tile: MapTile)
    ensures
        tile.id == id,
        tile.x == position.x * DEFAULT_TILE_SIZE,
        tile.y == position.y * DEFAULT_TILE_SIZE,
        tile.visibility.is_visible,
{
    let tile_size: i64 = DEFAULT_TILE_SIZE as i64;
    MapTile {
        id,
        x: position.x as i64 * tile_size,
        y: position.y as i64 * tile_size,
        visibility: Visibility { is_visible: true },
    }
}

/// Lays out the trial map for spawning: `MAP_WIDTH_AND_HEIGHT` squared tiles,
/// column by column, centred on the origin, each with a sprite of the
/// terrain sheet drawn at random.
pub fn create_map() -> (tiles: Vec<MapTile>)
    ensures
        tiles.len() == MAP_WIDTH_AND_HEIGHT * MAP_WIDTH_AND_HEIGHT,
        forall|i: int|
            0 <= i < tiles.len() ==> {
                &&& spec_terrain_tileset().spec_contains((#[trigger] tiles[i]).id as int)
                &&& tiles[i].x == spec_map_position(i).x * DEFAULT_TILE_SIZE
                &&& tiles[i].y == spec_map_position(i).y * DEFAULT_TILE_SIZE
                &&& tiles[i].visibility.is_visible
            },
{
    let map_width_and_height: i32 = MAP_WIDTH_AND_HEIGHT;
    let mut rng: ThreadRng = thread_rng();
    let mut tiles: Vec<MapTile> = Vec::new();
    for x in 0..map_width_and_height
        invariant
            map_width_and_height == 200,
            tiles.len() == x * 200,
            forall|i: int|
                0 <= i < tiles.len() ==> {
                    &&& spec_terrain_tileset().spec_contains((#[trigger] tiles[i]).id as int)
                    &&& tiles[i].x == spec_map_position(i).x * DEFAULT_TILE_SIZE
                    &&& tiles[i].y == spec_map_position(i).y * DEFAULT_TILE_SIZE
                    &&& tiles[i].visibility.is_visible
                },
    {
        for y in 0..map_width_and_height
            invariant
                map_width_and_height == 200,
                0 <= x < 200,
                tiles.len() == x * 200 + y,
                forall|i: int|
                    0 <= i < tiles.len() ==> {
                        &&& spec_terrain_tileset().spec_contains((#[trigger] tiles[i]).id as int)
                        &&& tiles[i].x == spec_map_position(i).x * DEFAULT_TILE_SIZE
                        &&& tiles[i].y == spec_map_position(i).y * DEFAULT_TILE_SIZE
                        &&& tiles[i].visibility.is_visible
                    },
        {
            let id: usize = sprite_id(gen_usize(&mut rng));
            let position: IVec2 = IVec2::new(
                x - map_width_and_height / 2,
                y - map_width_and_height / 2,
            );
            proof {
                lemma_fundamental_div_mod_converse(x * 200 + y, 200, x as int, y as int);
                assert(spec_map_position(x * 200 + y) == position);
            }
            tiles.push(spawn_map_tile(id, position));
        }
    }
    tiles
}

} // verus!
