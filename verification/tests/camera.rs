use bevy_test::division::{ceil_div, floor_div};
use bevy_test::plugin::camera::{
    chunk_coord, chunk_visibility_check_system, spawn_camera, Bounds,
    CameraCrossedChunkBorderEvent, Scale, TileMapCameraPosition, Translation, SCALE_ONE,
};
use bevy_test::plugin::map::{TileMap, TileMapChunk, Visibility};
use bevy_test::settings::{chunk_size_in_pixel, DEFAULT_CHUNK_SIZE, DEFAULT_MAP_SIZE, DEFAULT_TILE_SIZE};
use bevy_test::vector::{IVec2, UVec2};

fn at(x: i32, y: i32) -> Translation {
    Translation { x, y }
}

fn scale(raw: i32) -> Scale {
    Scale { raw }
}

fn query(tilemap: &TileMap) -> Vec<(Visibility, TileMapChunk)> {
    tilemap
        .get_chunks()
        .into_iter()
        .map(|chunk| (Visibility { is_visible: true }, chunk))
        .collect()
}

fn event_at(x: i32, y: i32, raw: i32) -> CameraCrossedChunkBorderEvent {
    CameraCrossedChunkBorderEvent(
        at(x, y),
        scale(raw),
        TileMapCameraPosition::new(at(x, y), scale(raw), true),
    )
}

#[test]
fn floor_div_rounds_towards_minus_infinity() {
    assert_eq!(floor_div(7, 2), 3);
    assert_eq!(floor_div(-7, 2), -4);
    assert_eq!(floor_div(-8, 2), -4);
    assert_eq!(floor_div(0, 5), 0);
    assert_eq!(floor_div(-1, 5), -1);
    assert_eq!(floor_div(i64::MIN, 1), i64::MIN);
    assert_eq!(floor_div(i64::MAX, 1), i64::MAX);
    assert_eq!(floor_div(i64::MIN, i64::MAX), -2);
}

#[test]
fn ceil_div_rounds_towards_plus_infinity() {
    assert_eq!(ceil_div(7, 2), 4);
    assert_eq!(ceil_div(-7, 2), -3);
    assert_eq!(ceil_div(8, 2), 4);
    assert_eq!(ceil_div(0, 5), 0);
    assert_eq!(ceil_div(1, 5), 1);
    assert_eq!(ceil_div(-1, 5), 0);
    assert_eq!(ceil_div(i64::MIN, 1), i64::MIN);
    assert_eq!(ceil_div(i64::MAX, 1), i64::MAX);
    assert_eq!(ceil_div(i64::MAX, i64::MAX), 1);
    assert_eq!(ceil_div(i64::MIN, i64::MAX), -1);
}

#[test]
fn chunk_coord_is_the_floor_of_the_quotient() {
    assert_eq!(chunk_coord(0, 256), 0);
    assert_eq!(chunk_coord(255, 256), 0);
    assert_eq!(chunk_coord(256, 256), 1);
    assert_eq!(chunk_coord(-1, 256), -1);
    assert_eq!(chunk_coord(-256, 256), -1);
    assert_eq!(chunk_coord(-257, 256), -2);
    assert_eq!(chunk_coord(7, 3), 2);
    assert_eq!(chunk_coord(-7, 3), -3);
    assert_eq!(chunk_coord(i32::MAX, 1), i32::MAX);
    assert_eq!(chunk_coord(i32::MIN, 1), i32::MIN);
    assert_eq!(chunk_coord(i32::MIN, u32::MAX), -1);
    assert_eq!(chunk_coord(i32::MAX, u32::MAX), 0);
}

#[test]
fn chunk_coord_brackets_the_position() {
    for s in [1u32, 2, 3, 16, 255, 256, 257, 1000] {
        for p in -2000i32..2000 {
            let c = chunk_coord(p, s) as i64;
            assert!(c * s as i64 <= p as i64);
            assert!((p as i64) < (c + 1) * s as i64);
        }
    }
}

#[test]
fn camera_at_300_stands_on_chunk_one() {
    assert_eq!(DEFAULT_CHUNK_SIZE, 16);
    assert_eq!(DEFAULT_TILE_SIZE, 16);
    assert_eq!(chunk_size_in_pixel(), 256);
    assert_eq!(chunk_coord(300, chunk_size_in_pixel()), 1);
    let position = TileMapCameraPosition::new(at(300, 0), scale(SCALE_ONE), true);
    assert_eq!(position.pos, IVec2 { x: 1, y: 0 });
}

#[test]
fn position_floors_negative_coordinates() {
    let position = TileMapCameraPosition::new(at(-1, -257), scale(SCALE_ONE), false);
    assert_eq!(position.pos, IVec2 { x: -1, y: -2 });
    let far = TileMapCameraPosition::new(at(i32::MIN, i32::MAX), scale(SCALE_ONE), false);
    assert_eq!(far.pos, IVec2 { x: -8388608, y: 8388607 });
}

#[test]
fn bounds_at_half_scale() {
    let position = TileMapCameraPosition::new(at(0, 0), scale(SCALE_ONE / 2), true);
    assert_eq!(position.pos, IVec2 { x: 0, y: 0 });
    assert_eq!(position.view, Bounds { top: 2, right: 3, bottom: -2, left: -3 });
}

#[test]
fn bounds_at_scale_one() {
    let position = TileMapCameraPosition::new(at(300, -300), scale(SCALE_ONE), true);
    assert_eq!(position.pos, IVec2 { x: 1, y: -2 });
    assert_eq!(position.view, Bounds { top: 1, right: 6, bottom: -5, left: -4 });
}

#[test]
fn bounds_at_scale_two_and_a_half() {
    // (480 * 2.5) / 256 = 4.6875 and (7680 / 9 * 2.5) / 256 = 8.33..
    let position = TileMapCameraPosition::new(at(0, 0), scale(SCALE_ONE / 2 * 5), true);
    assert_eq!(position.view, Bounds { top: 8, right: 12, bottom: -8, left: -12 });
}

#[test]
fn bounds_where_the_offset_is_a_whole_number() {
    // (480 * 1.6) / 256 = 3: the scale in fixed point just above 1.6 reaches
    // into a fourth chunk, the one just below it does not.
    let position = TileMapCameraPosition::new(at(0, 0), scale(104858), true);
    assert_eq!(position.view.top, 4 + 2);
    let below = TileMapCameraPosition::new(at(0, 0), scale(104857), true);
    assert_eq!(below.view.top, 3 + 2);
    assert_eq!(below.view.bottom, -3 - 2);
}

#[test]
fn bounds_are_all_zero_when_not_calculated() {
    let position = TileMapCameraPosition::new(at(1000, 1000), scale(SCALE_ONE), false);
    assert_eq!(position.pos, IVec2 { x: 3, y: 3 });
    assert_eq!(position.view, Bounds { top: 0, right: 0, bottom: 0, left: 0 });
}

#[test]
fn bounds_at_scale_zero_close_on_the_chunk() {
    let position = TileMapCameraPosition::new(at(600, 600), scale(0), true);
    assert_eq!(position.view, Bounds { top: 2, right: 2, bottom: 2, left: 2 });
}

#[test]
fn bounds_at_the_extremes_do_not_overflow() {
    let most = TileMapCameraPosition::new(at(i32::MAX, i32::MAX), scale(i32::MAX), true);
    assert_eq!(most.pos, IVec2 { x: 8388607, y: 8388607 });
    assert_eq!(most.view.top, 8388607 + 61440 + 32768);
    assert_eq!(most.view.right, 8388607 + 109227 + 32768);
    assert_eq!(most.view.bottom, 8388607 - 61440 - 32768);
    assert_eq!(most.view.left, 8388607 - 109227 - 32768);
    let least = TileMapCameraPosition::new(at(i32::MIN, i32::MIN), scale(i32::MIN), true);
    // At the scale -32768 the width reaches -109226.67 chunks: its ceiling
    // is -109226, the floor of its negation 109226.
    assert_eq!(least.view.top, -8388608 - 61440 - 32768);
    assert_eq!(least.view.right, -8388608 - 109226 - 32768);
    assert_eq!(least.view.bottom, -8388608 + 61440 + 32768);
    assert_eq!(least.view.left, -8388608 + 109226 + 32768);
}

#[test]
fn bounds_are_not_empty_at_positive_scale() {
    for raw in [1, 2, 100, 32768, 65535, 65536, 65537, 1_000_000, i32::MAX] {
        for p in [i32::MIN, -300, -1, 0, 1, 255, 256, 300, i32::MAX] {
            let position = TileMapCameraPosition::new(at(p, -p.max(-i32::MAX)), scale(raw), true);
            assert!(position.view.top > position.view.bottom);
            assert!(position.view.right > position.view.left);
            assert!(position.view.left < position.pos.x && position.pos.x < position.view.right);
            assert!(position.view.bottom < position.pos.y && position.pos.y < position.view.top);
        }
    }
}

#[test]
fn eq_compares_the_chunk_only() {
    let a = TileMapCameraPosition {
        pos: IVec2 { x: 4, y: -7 },
        view: Bounds { top: 1, right: 2, bottom: 3, left: 4 },
    };
    let b = TileMapCameraPosition {
        pos: IVec2 { x: 4, y: -7 },
        view: Bounds { top: 0, right: 0, bottom: 0, left: 0 },
    };
    assert!(a.eq(b));
    assert!(b.eq(a));
    let c = TileMapCameraPosition { pos: IVec2 { x: 4, y: -6 }, view: a.view };
    assert!(!a.eq(c));
    let d = TileMapCameraPosition { pos: IVec2 { x: 5, y: -7 }, view: a.view };
    assert!(!a.eq(d));
}

#[test]
fn eq_of_positions_with_and_without_bounds() {
    let with = TileMapCameraPosition::new(at(300, 300), scale(SCALE_ONE), true);
    let without = TileMapCameraPosition::new(at(400, 500), scale(SCALE_ONE / 2), false);
    assert_ne!(with.view, without.view);
    assert!(with.eq(without));
}

#[test]
fn contains_is_strict_on_all_four_sides() {
    let view = Bounds { top: 2, right: 3, bottom: -2, left: -3 };
    assert!(view.contains(UVec2 { x: 0, y: 0 }));
    assert!(view.contains(UVec2 { x: 2, y: 1 }));
    assert!(!view.contains(UVec2 { x: 3, y: 0 }));
    assert!(!view.contains(UVec2 { x: 0, y: 2 }));
    let inner = Bounds { top: 5, right: 5, bottom: 1, left: 1 };
    assert!(!inner.contains(UVec2 { x: 1, y: 3 }));
    assert!(!inner.contains(UVec2 { x: 3, y: 1 }));
    assert!(inner.contains(UVec2 { x: 2, y: 2 }));
    assert!(inner.contains(UVec2 { x: 4, y: 4 }));
    assert!(!inner.contains(UVec2 { x: 5, y: 4 }));
}

#[test]
fn contains_does_not_wrap_large_coordinates() {
    let view = Bounds { top: i32::MAX, right: i32::MAX, bottom: i32::MIN, left: i32::MIN };
    assert!(view.contains(UVec2 { x: 0, y: 0 }));
    assert!(view.contains(UVec2 { x: 2147483646, y: 2147483646 }));
    assert!(!view.contains(UVec2 { x: 2147483647, y: 0 }));
    assert!(!view.contains(UVec2 { x: 2147483648, y: 0 }));
    assert!(!view.contains(UVec2 { x: 0, y: u32::MAX }));
}

#[test]
fn uncalculated_bounds_contain_nothing() {
    let view = Bounds { top: 0, right: 0, bottom: 0, left: 0 };
    assert!(!view.contains(UVec2 { x: 0, y: 0 }));
    assert!(!view.contains(UVec2 { x: 1, y: 1 }));
}

#[test]
fn spawn_camera_starts_at_the_origin_at_half_scale() {
    let (camera, event) = spawn_camera();
    assert_eq!(camera.transform, at(0, 0));
    assert_eq!(camera.projection, scale(32768));
    assert_eq!(camera.position.pos, IVec2 { x: 0, y: 0 });
    assert_eq!(camera.position.view, Bounds { top: 2, right: 3, bottom: -2, left: -3 });
    assert_eq!(event.0, camera.transform);
    assert_eq!(event.1, camera.projection);
    assert_eq!(event.2.pos, camera.position.pos);
    assert_eq!(event.2.view, camera.position.view);
}

#[test]
fn visibility_check_marks_chunks_strictly_inside() {
    let tilemap = TileMap::new(DEFAULT_MAP_SIZE, DEFAULT_MAP_SIZE);
    let mut chunks = query(&tilemap);
    let (_, event) = spawn_camera();
    let visible = chunk_visibility_check_system(&event, &mut chunks);
    assert_eq!(visible, 6);
    assert_eq!(chunks.len(), 256);
    for (visibility, chunk) in &chunks {
        assert_eq!(visibility.is_visible, chunk.pos.x < 3 && chunk.pos.y < 2);
    }
}

#[test]
fn visibility_check_hides_what_was_visible_and_shows_what_was_hidden() {
    let mut chunks = vec![
        (Visibility { is_visible: true }, TileMapChunk::new(UVec2 { x: 9, y: 9 })),
        (Visibility { is_visible: false }, TileMapChunk::new(UVec2 { x: 1, y: 1 })),
        (Visibility { is_visible: true }, TileMapChunk::new(UVec2 { x: 1, y: 1 })),
        (Visibility { is_visible: false }, TileMapChunk::new(UVec2 { x: 3, y: 1 })),
    ];
    let (_, event) = spawn_camera();
    let visible = chunk_visibility_check_system(&event, &mut chunks);
    assert_eq!(visible, 2);
    assert_eq!(
        chunks,
        vec![
            (Visibility { is_visible: false }, TileMapChunk::new(UVec2 { x: 9, y: 9 })),
            (Visibility { is_visible: true }, TileMapChunk::new(UVec2 { x: 1, y: 1 })),
            (Visibility { is_visible: true }, TileMapChunk::new(UVec2 { x: 1, y: 1 })),
            (Visibility { is_visible: false }, TileMapChunk::new(UVec2 { x: 3, y: 1 })),
        ]
    );
}

#[test]
fn visibility_check_of_no_chunks() {
    let mut chunks: Vec<(Visibility, TileMapChunk)> = Vec::new();
    let (_, event) = spawn_camera();
    assert_eq!(chunk_visibility_check_system(&event, &mut chunks), 0);
    assert!(chunks.is_empty());
}

#[test]
fn visibility_check_with_uncalculated_bounds_hides_all() {
    let tilemap = TileMap::new(4, 4);
    let mut chunks = query(&tilemap);
    let event = CameraCrossedChunkBorderEvent(
        at(0, 0),
        scale(SCALE_ONE),
        TileMapCameraPosition::new(at(0, 0), scale(SCALE_ONE), false),
    );
    assert_eq!(chunk_visibility_check_system(&event, &mut chunks), 0);
    assert!(chunks.iter().all(|(visibility, _)| !visibility.is_visible));
}

#[test]
fn visibility_check_in_the_middle_of_the_map() {
    let tilemap = TileMap::new(DEFAULT_MAP_SIZE, DEFAULT_MAP_SIZE);
    let mut chunks = query(&tilemap);
    // Chunk (8, 8) at scale one: x from 4 to 12, y from 6 to 10.
    let event = event_at(8 * 256 + 10, 8 * 256 + 10, SCALE_ONE);
    assert_eq!(event.2.view, Bounds { top: 11, right: 13, bottom: 5, left: 3 });
    let visible = chunk_visibility_check_system(&event, &mut chunks);
    assert_eq!(visible, 9 * 5);
    for (visibility, chunk) in &chunks {
        let inside = 3 < chunk.pos.x && chunk.pos.x < 13 && 5 < chunk.pos.y && chunk.pos.y < 11;
        assert_eq!(visibility.is_visible, inside);
    }
}

#[test]
fn a_smaller_scale_leaves_no_more_chunks_visible() {
    let tilemap = TileMap::new(DEFAULT_MAP_SIZE, DEFAULT_MAP_SIZE);
    let raws = [
        i32::MIN, -65536, -1, 0, 1, 1000, 16384, 32768, 40000, 65536, 65537, 100000, 131072,
        200000, 400000, 1_000_000, i32::MAX,
    ];
    for (x, y) in [(0, 0), (2000, 1500), (-300, 4000), (5000, -1)] {
        let mut last = 0;
        for raw in raws {
            let mut chunks = query(&tilemap);
            let visible = chunk_visibility_check_system(&event_at(x, y, raw), &mut chunks);
            assert!(last <= visible);
            last = visible;
        }
        assert_eq!(last, 256);
    }
}

#[test]
fn a_smaller_scale_sees_a_smaller_rectangle() {
    let near = TileMapCameraPosition::new(at(700, 700), scale(30000), true).view;
    let far = TileMapCameraPosition::new(at(700, 700), scale(90000), true).view;
    assert_eq!(near, Bounds { top: 4, right: 5, bottom: 0, left: -1 });
    assert_eq!(far, Bounds { top: 7, right: 9, bottom: -3, left: -5 });
}
