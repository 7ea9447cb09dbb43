//! The camera: which chunk it stands on, which chunks it sees, and which
//! chunks are drawn.
//!
//! Everything here is counted in integers. A place in the world is a whole
//! pixel, a zoom scale a number in fixed point, and what the camera reaches
//! is a fraction of two integers, so that floors and ceilings are exact.

use vstd::prelude::*;
use crate::division::ceil_div;
use crate::division::floor_div;
use crate::division::lemma_ceil_div_bounds;
use crate::division::lemma_div_monotone;
use crate::division::spec_floor_div;
use crate::division::Ratio;
use crate::plugin::map::TileMapChunk;
use crate::plugin::map::Visibility;
use crate::settings::chunk_size_in_pixel;
use crate::settings::spec_chunk_size_in_pixel;
use crate::settings::DEFAULT_CHUNK_SIZE;
use crate::settings::DEFAULT_TILE_SIZE;
use crate::settings::RESOLUTION_X_DEN;
use crate::settings::RESOLUTION_X_NUM;
use crate::settings::RESOLUTION_Y;
use crate::vector::IVec2;
use crate::vector::UVec2;

verus! {

/// The raw value of the scale 1.
pub const SCALE_ONE: i32 = 65536;

/// A zoom scale in fixed point: the scale is `raw / SCALE_ONE`. A smaller
/// scale shows less of the world.
#[derive(Debug, Clone, Copy, PartialEq, Eq, Structural)]
pub struct Scale {
    pub raw: i32,
}

impl Scale {
    /// The scale as a fraction.
    pub open spec fn ratio(self) -> Ratio {
        Ratio { num: self.raw as int, den: SCALE_ONE as int }
    }
}

/// A position in the world, in whole pixels.
#[derive(Debug, Clone, Copy, PartialEq, Eq, Structural)]
pub struct Translation {
    pub x: i32,
    pub y: i32,
}

/// The chunk coordinate of the world coordinate `p` where chunks are
/// `chunk_pixel` pixels wide: the floor of `p / chunk_pixel`.
pub open spec fn spec_chunk_coord(p: int, chunk_pixel: int) -> int {
    spec_floor_div(p, chunk_pixel)
}

/// Computes the chunk coordinate of the world coordinate `p`.
pub fn chunk_coord(p: i32, chunk_pixel: u32) -> (c: i32)
    requires
        chunk_pixel > 0,
    ensures
        c == spec_chunk_coord(p as int, chunk_pixel as int),
        chunk_pixel * c <= p < chunk_pixel * (c + 1),
{
    let c: i64 = floor_div(p as i64, chunk_pixel as i64);
    proof {
        assert(i32::MIN <= c <= i32::MAX) by (nonlinear_arith)
            requires
                chunk_pixel >= 1,
                chunk_pixel * c <= p < chunk_pixel * (c + 1),
                i32::MIN <= p <= i32::MAX,
        ;
    }
    c as i32
}

/// The chunk on which a camera at `transform` stands under the default
/// settings: per axis, the floor of the world coordinate over the size of a
/// chunk in pixels.
pub open spec fn spec_chunk_of(transform: Translation) -> IVec2 {
    IVec2 {
        x: spec_chunk_coord(
            transform.x as int,
            spec_chunk_size_in_pixel(DEFAULT_TILE_SIZE, DEFAULT_CHUNK_SIZE),
        ) as i32,
        y: spec_chunk_coord(
            transform.y as int,
            spec_chunk_size_in_pixel(DEFAULT_TILE_SIZE, DEFAULT_CHUNK_SIZE),
        ) as i32,
    }
}

/// How far the camera sees to the left and to the right of its own chunk, in
/// chunks: half the window's width, scaled, over the width of a chunk.
pub open spec fn spec_bound_offset_x(scale: Scale) -> Ratio {
    Ratio {
        num: RESOLUTION_X_NUM * scale.raw,
        den: RESOLUTION_X_DEN * 2 * SCALE_ONE * spec_chunk_size_in_pixel(
            DEFAULT_TILE_SIZE,
            DEFAULT_CHUNK_SIZE,
        ),
    }
}

/// How far the camera sees above and below its own chunk, in chunks: half the
/// window's height, scaled, over the height of a chunk.
pub open spec fn spec_bound_offset_y(scale: Scale) -> Ratio {
    Ratio {
        num: RESOLUTION_Y * scale.raw,
        den: 2 * SCALE_ONE * spec_chunk_size_in_pixel(DEFAULT_TILE_SIZE, DEFAULT_CHUNK_SIZE),
    }
}

/// The denominators of the two reaches under the default settings.
pub proof fn lemma_bound_offset_den(scale: Scale)
    ensures
        spec_bound_offset_y(scale).den == 0x200_0000,
        spec_bound_offset_x(scale).den == 0x1200_0000,
{
    let chunk_pixel = spec_chunk_size_in_pixel(DEFAULT_TILE_SIZE, DEFAULT_CHUNK_SIZE);
    assert(chunk_pixel == 256 && 2 * SCALE_ONE * chunk_pixel == 0x200_0000 && RESOLUTION_X_DEN * 2
        * SCALE_ONE * chunk_pixel == 0x1200_0000) by (nonlinear_arith)
        requires
            chunk_pixel == DEFAULT_TILE_SIZE * DEFAULT_CHUNK_SIZE,
            DEFAULT_TILE_SIZE == 16,
            DEFAULT_CHUNK_SIZE == 16,
            SCALE_ONE == 65536,
            RESOLUTION_X_DEN == 9,
    ;
}

/// The rectangle of chunk coordinates that the camera sees. A chunk is in
/// view when it lies strictly inside.
#[derive(Debug, Clone, Copy, PartialEq, Eq, Structural)]
pub struct Bounds {
    pub top: i32,
    pub right: i32,
    pub bottom: i32,
    pub left: i32,
}

impl Bounds {
    /// Whether these are the bounds seen at `scale` from the chunk `pos`.
    pub open spec fn is_view_from(&self, pos: IVec2, scale: Scale) -> bool {
        &&& self.top == pos.y + spec_bound_offset_y(scale).ceil() + scale.ratio().ceil()
        &&& self.right == pos.x + spec_bound_offset_x(scale).ceil() + scale.ratio().ceil()
        &&& self.bottom == pos.y + spec_bound_offset_y(scale).neg().floor()
            + scale.ratio().neg().floor()
        &&& self.left == pos.x + spec_bound_offset_x(scale).neg().floor()
            + scale.ratio().neg().floor()
    }

    /// Whether the bounds were never calculated: all four edges are zero.
    pub open spec fn is_uncalculated(&self) -> bool {
        self.top == 0 && self.right == 0 && self.bottom == 0 && self.left == 0
    }

    /// Whether the point lies strictly inside the bounds.
    pub open spec fn spec_contains(&self, x: int, y: int) -> bool {
        self.left < x < self.right && self.bottom < y < self.top
    }

    /// Whether the point lies strictly inside the bounds.
    pub fn contains(&self, pos: UVec2) -> (inside: bool)
        ensures
            inside == self.spec_contains(pos.x as int, pos.y as int),
    {
        (self.left as i64) < pos.x as i64 && (self.right as i64) > pos.x as i64 && (self.top as i64)
            > pos.y as i64 && (self.bottom as i64) < pos.y as i64
    }

    /// Computes the bounds seen at `scale` from the chunk `pos`.
    fn view_from(pos: IVec2, scale: Scale) -> (view: Bounds)
        requires
            -0x80_0000 <= pos.x < 0x80_0000,
            -0x80_0000 <= pos.y < 0x80_0000,
        ensures
            view.is_view_from(pos, scale),
    {
        proof {
            lemma_bound_offset_den(scale);
        }
        let den_y: i64 = 0x200_0000;
        let den_x: i64 = 0x1200_0000;
        let (up, down) = reach(RESOLUTION_Y, den_y, scale);
        let (right, left) = reach(RESOLUTION_X_NUM, den_x, scale);
        let more: i64 = ceil_div(scale.raw as i64, SCALE_ONE as i64);
        let less: i64 = floor_div(-(scale.raw as i64), SCALE_ONE as i64);
        assert(-0x1_0000 <= less && more <= 0x1_0000);
        Bounds {
            top: (pos.y as i64 + up + more) as i32,
            right: (pos.x as i64 + right + more) as i32,
            bottom: (pos.y as i64 + down + less) as i32,
            left: (pos.x as i64 + left + less) as i32,
        }
    }
}

/// How many chunks the camera reaches to either side at `scale`, for a
/// reach of `extent * scale.raw / den` chunks: the ceiling of the reach, and
/// the floor of its negation.
fn reach(extent: u32, den: i64, scale: Scale) -> (r: (i64, i64))
    requires
        extent <= 0x4000,
        den >= 0x200_0000,
    ensures
        r.0 == (Ratio { num: extent * scale.raw, den: den as int }).ceil(),
        r.1 == (Ratio { num: extent * scale.raw, den: den as int }).neg().floor(),
        -0x10_0000 <= r.1,
        r.0 <= 0x10_0000,
{
    assert(-0x2000_0000_0000 <= extent * scale.raw <= 0x2000_0000_0000) by (nonlinear_arith)
        requires
            0 <= extent <= 0x4000,
            -0x8000_0000 <= scale.raw < 0x8000_0000,
    ;
    let num: i64 = extent as i64 * scale.raw as i64;
    let up: i64 = ceil_div(num, den);
    let down: i64 = floor_div(-num, den);
    assert(up <= 0x10_0000) by (nonlinear_arith)
        requires
            den >= 0x200_0000,
            den * (up - 1) < num,
            num <= 0x2000_0000_0000,
    ;
    if down < -0x10_0000 {
        assert(den * (down + 1) <= 0x200_0000 * (down + 1)) by (nonlinear_arith)
            requires
                den >= 0x200_0000,
                down + 1 <= 0,
        ;
    }
    (up, down)
}

/// Where the camera stands on the grid of chunks, and what it sees from there.
#[derive(Debug, Clone, Copy)]
pub struct TileMapCameraPosition {
    /// The chunk the camera stands on.
    pub pos: IVec2,
    /// The chunks in view, or all zero where they were not calculated.
    pub view: Bounds,
}

impl TileMapCameraPosition {
    /// Whether this is the position of a camera at `transform` that zooms by
    /// `projection`: it stands on the chunk of `transform`, and its bounds
    /// are those seen from that chunk, or all zero where `calc_bounds` is off.
    pub open spec fn is_position_of(
        &self,
        transform: Translation,
        projection: Scale,
        calc_bounds: bool,
    ) -> bool {
        &&& self.pos == spec_chunk_of(transform)
        &&& if calc_bounds {
            self.view.is_view_from(self.pos, projection)
        } else {
            self.view.is_uncalculated()
        }
    }

    /// Whether two positions stand on the same chunk, whatever they see.
    pub open spec fn spec_eq(&self, other: TileMapCameraPosition) -> bool {
        self.pos.x == other.pos.x && self.pos.y == other.pos.y
    }

    /// Computes the position of a camera at `transform` that zooms by
    /// `projection`.
    pub fn new(transform: Translation, projection: Scale, calc_bounds: bool) -> (position: Self)
        ensures
            position.is_position_of(transform, projection, calc_bounds),
            position.pos.x == spec_chunk_coord(transform.x as int, 256),
            position.pos.y == spec_chunk_coord(transform.y as int, 256),
            calc_bounds && projection.raw > 0 ==> position.view.top > position.view.bottom
                && position.view.right > position.view.left,
    {
        let chunk_size_in_pixel: u32 = chunk_size_in_pixel();
        let cam_pos: IVec2 = IVec2::new(
            chunk_coord(transform.x, chunk_size_in_pixel),
            chunk_coord(transform.y, chunk_size_in_pixel),
        );
        let cam_view: Bounds = if calc_bounds {
            let view: Bounds = Bounds::view_from(cam_pos, projection);
            proof {
                if projection.raw > 0 {
                    lemma_view_is_not_empty(view, cam_pos, projection);
                }
            }
            view
        } else {
            Bounds { top: 0, right: 0, bottom: 0, left: 0 }
        };
        Self { pos: cam_pos, view: cam_view }
    }

    /// Tells whether two positions stand on the same chunk. What they see
    /// plays no part.
    pub fn eq(&self, other: TileMapCameraPosition) -> (same: bool)
        ensures
            same == self.spec_eq(other),
    {
        self.pos.x == other.pos.x && self.pos.y == other.pos.y
    }
}

/// At a positive scale the camera sees its own chunk: the bounds lie at
/// least two chunks apart around it, so the top is above the bottom and the
/// right is right of the left.
pub proof fn lemma_view_is_not_empty(view: Bounds, pos: IVec2, scale: Scale)
    requires
        view.is_view_from(pos, scale),
        scale.raw > 0,
    ensures
        view.top > view.bottom,
        view.right > view.left,
        view.spec_contains(pos.x as int, pos.y as int),
{
    lemma_bound_offset_den(scale);
    let x = spec_bound_offset_x(scale);
    let y = spec_bound_offset_y(scale);
    assert(x.num > 0 && y.num > 0) by (nonlinear_arith)
        requires
            x.num == RESOLUTION_X_NUM * scale.raw,
            y.num == RESOLUTION_Y * scale.raw,
            RESOLUTION_X_NUM == 15360,
            RESOLUTION_Y == 960,
            scale.raw > 0,
    ;
    lemma_ceil_div_bounds(x.num, x.den);
    lemma_ceil_div_bounds(y.num, y.den);
    lemma_ceil_div_bounds(scale.raw as int, SCALE_ONE as int);
}

/// Two positions on the same chunk are equal to `eq`, even where their
/// bounds differ.
pub proof fn lemma_eq_ignores_view(a: TileMapCameraPosition, b: TileMapCameraPosition)
    requires
        a.pos == b.pos,
    ensures
        a.spec_eq(b),
        a.spec_eq(TileMapCameraPosition { pos: b.pos, view: a.view }),
{
}

/// Sent when the camera has come onto another chunk or has changed its zoom:
/// where the camera is, its scale, and its position on the grid of chunks.
#[derive(Debug, Clone, Copy)]
pub struct CameraCrossedChunkBorderEvent(pub Translation, pub Scale, pub TileMapCameraPosition);

/// The camera of the game.
#[derive(Debug, Clone, Copy)]
pub struct MainCamera {
    /// Where the camera is in the world.
    pub transform: Translation,
    /// By how much the camera zooms.
    pub projection: Scale,
    /// Where the camera was on the grid of chunks when that was last taken down.
    pub position: TileMapCameraPosition,
}

/// Sets up the camera at the origin of the world at scale one half, and tells
/// what it sees from there.
pub fn spawn_camera() -> (spawned: (MainCamera, CameraCrossedChunkBorderEvent))
    ensures
        spawned.0.transform == (Translation { x: 0, y: 0 }),
        spawned.0.projection.raw * 2 == SCALE_ONE,
        spawned.0.position.is_position_of(spawned.0.transform, spawned.0.projection, true),
        spawned.1.0 == spawned.0.transform,
        spawned.1.1 == spawned.0.projection,
        spawned.1.2 == spawned.0.position,
{
    let transform: Translation = Translation { x: 0, y: 0 };
    let projection: Scale = Scale { raw: SCALE_ONE / 2 };
    let camera_position: TileMapCameraPosition = TileMapCameraPosition::new(
        transform,
        projection,
        true,
    );
    (
        MainCamera { transform, projection, position: camera_position },
        CameraCrossedChunkBorderEvent(transform, projection, camera_position),
    )
}

/// How many of `chunks` lie strictly inside `view`.
pub open spec fn spec_count_visible(view: Bounds, chunks: Seq<TileMapChunk>) -> nat
    decreases chunks.len(),
{
    if chunks.len() == 0 {
        0
    } else {
        let rest = spec_count_visible(view, chunks.drop_last());
        if view.spec_contains(chunks.last().pos.x as int, chunks.last().pos.y as int) {
            rest + 1
        } else {
            rest
        }
    }
}

/// The chunks that a query holds, in its order.
pub open spec fn spec_chunks(chunk_query: Seq<(Visibility, TileMapChunk)>) -> Seq<TileMapChunk> {
    chunk_query.map_values(|entity: (Visibility, TileMapChunk)| entity.1)
}

/// Marks each chunk visible if and only if it lies strictly inside the
/// bounds that the event carries, and returns how many chunks are visible.
pub fn chunk_visibility_check_system(
    event: &CameraCrossedChunkBorderEvent,
    chunk_query: &mut Vec<(Visibility, TileMapChunk)>,
) -> (vis_chunks: usize)
    ensures
        final(chunk_query).len() == old(chunk_query).len(),
        forall|i: int|
            0 <= i < old(chunk_query).len() ==> (#[trigger] final(chunk_query)[i]).1 == old(
                chunk_query,
            )[i].1,
        forall|i: int|
            0 <= i < old(chunk_query).len() ==> (#[trigger] final(chunk_query)[i]).0.is_visible
                == event.2.view.spec_contains(
                old(chunk_query)[i].1.pos.x as int,
                old(chunk_query)[i].1.pos.y as int,
            ),
        vis_chunks == spec_count_visible(event.2.view, spec_chunks(old(chunk_query)@)),
{
    let mut vis_chunks: usize = 0;
    let ghost chunks = spec_chunks(old(chunk_query)@);
    let len: usize = chunk_query.len();
    for i in 0..len
        invariant
            chunk_query.len() == len,
            len == old(chunk_query).len(),
            chunks == spec_chunks(old(chunk_query)@),
            spec_chunks(chunk_query@) == chunks,
            forall|k: int|
                0 <= k < i ==> (#[trigger] chunk_query[k]).0.is_visible
                    == event.2.view.spec_contains(
                    chunks[k].pos.x as int,
                    chunks[k].pos.y as int,
                ),
            vis_chunks <= i,
            vis_chunks == spec_count_visible(event.2.view, chunks.take(i as int)),
    {
        let chunk: TileMapChunk = chunk_query[i].1;
        let is_visible: bool = event.2.view.contains(chunk.pos);
        let ghost before = chunk_query@;
        chunk_query.set(i, (Visibility { is_visible }, chunk));
        proof {
            assert(spec_chunks(chunk_query@) =~= spec_chunks(before));
            assert(chunks.take(i + 1).drop_last() =~= chunks.take(i as int));
            assert(chunks.take(i + 1).last() == chunk);
        }
        if is_visible {
            vis_chunks += 1;
        }
    }
    proof {
        assert(chunks.take(len as int) =~= chunks);
    }
    vis_chunks
}

/// From one chunk, a smaller scale sees no chunk that a larger scale does not
/// see, so it leaves no more chunks visible.
pub proof fn lemma_smaller_scale_sees_no_more(
    pos: IVec2,
    small: Scale,
    large: Scale,
    near: Bounds,
    far: Bounds,
    chunks: Seq<TileMapChunk>,
)
    requires
        small.raw <= large.raw,
        near.is_view_from(pos, small),
        far.is_view_from(pos, large),
    ensures
        far.left <= near.left && near.right <= far.right,
        far.bottom <= near.bottom && near.top <= far.top,
        forall|x: int, y: int| near.spec_contains(x, y) ==> far.spec_contains(x, y),
        spec_count_visible(near, chunks) <= spec_count_visible(far, chunks),
    decreases chunks.len(),
{
    lemma_bound_offset_den(small);
    lemma_bound_offset_den(large);
    let sx = spec_bound_offset_x(small);
    let lx = spec_bound_offset_x(large);
    let sy = spec_bound_offset_y(small);
    let ly = spec_bound_offset_y(large);
    assert(sx.num <= lx.num && sy.num <= ly.num) by (nonlinear_arith)
        requires
            sx.num == RESOLUTION_X_NUM * small.raw,
            lx.num == RESOLUTION_X_NUM * large.raw,
            sy.num == RESOLUTION_Y * small.raw,
            ly.num == RESOLUTION_Y * large.raw,
            RESOLUTION_X_NUM == 15360,
            RESOLUTION_Y == 960,
            small.raw <= large.raw,
    ;
    lemma_div_monotone(sx.num, lx.num, sx.den);
    lemma_div_monotone(sy.num, ly.num, sy.den);
    lemma_div_monotone(-lx.num, -sx.num, sx.den);
    lemma_div_monotone(-ly.num, -sy.num, sy.den);
    lemma_div_monotone(small.raw as int, large.raw as int, SCALE_ONE as int);
    lemma_div_monotone(-(large.raw as int), -(small.raw as int), SCALE_ONE as int);
    if chunks.len() > 0 {
        lemma_smaller_scale_sees_no_more(pos, small, large, near, far, chunks.drop_last());
    }
}

} // verus!
