//! What the keyboard and the mouse wheel do to the camera.

use vstd::prelude::*;
use crate::plugin::camera::spec_chunk_of;
use crate::plugin::camera::CameraCrossedChunkBorderEvent;
use crate::plugin::camera::MainCamera;
use crate::plugin::camera::Scale;
use crate::plugin::camera::TileMapCameraPosition;
use crate::plugin::camera::Translation;

verus! {

/// A key of the keyboard: one of the eight that move the camera, or another.
#[derive(Debug, Clone, Copy, PartialEq, Eq, Structural)]
pub enum KeyCode {
    W,
    A,
    S,
    D,
    Up,
    Left,
    Down,
    Right,
    Other,
}

/// One of the four ways the camera moves.
#[derive(Debug, Clone, Copy, PartialEq, Eq, Structural)]
pub enum Direction {
    Up,
    Right,
    Down,
    Left,
}

/// The unit in which the mouse wheel reports how far it was turned.
#[derive(Debug, Clone, Copy, PartialEq, Eq, Structural)]
pub enum MouseScrollUnit {
    Line,
    Pixel,
}

/// The way in which a key moves the camera, if it does: the arrow keys and
/// W, A, S and D each move it in one direction.
pub open spec fn spec_direction(key: KeyCode) -> Option<Direction> {
    match key {
        KeyCode::W | KeyCode::Up => Some(Direction::Up),
        KeyCode::D | KeyCode::Right => Some(Direction::Right),
        KeyCode::S | KeyCode::Down => Some(Direction::Down),
        KeyCode::A | KeyCode::Left => Some(Direction::Left),
        KeyCode::Other => None,
    }
}

/// Tells in which way a key moves the camera, if it does.
pub fn direction(key: KeyCode) -> (way: Option<Direction>)
    ensures
        way == spec_direction(key),
{
    match key {
        KeyCode::W | KeyCode::Up => Some(Direction::Up),
        KeyCode::D | KeyCode::Right => Some(Direction::Right),
        KeyCode::S | KeyCode::Down => Some(Direction::Down),
        KeyCode::A | KeyCode::Left => Some(Direction::Left),
        KeyCode::Other => None,
    }
}

/// How many of the pressed keys move the camera in `way`.
pub open spec fn spec_presses(pressed: Seq<KeyCode>, way: Direction) -> nat
    decreases pressed.len(),
{
    if pressed.len() == 0 {
        0
    } else {
        let rest = spec_presses(pressed.drop_last(), way);
        if spec_direction(pressed.last()) == Some(way) {
            rest + 1
        } else {
            rest
        }
    }
}

/// Whether one of the pressed keys moves the camera.
pub open spec fn spec_camera_moved(pressed: Seq<KeyCode>) -> bool {
    exists|i: int| 0 <= i < pressed.len() && spec_direction(#[trigger] pressed[i]) is Some
}

/// What the pressed keys ask of the camera: for each direction, how many
/// steps. Steps in opposite directions are counted apart, so that keys
/// pressed together combine.
#[derive(Debug, Clone, Copy, PartialEq, Eq, Structural)]
pub struct CameraMovement {
    /// Whether any pressed key moves the camera.
    pub moved: bool,
    pub up: usize,
    pub right: usize,
    pub down: usize,
    pub left: usize,
}

/// Counts, for each direction, the pressed keys that move the camera there.
pub fn camera_movement(pressed: &Vec<KeyCode>) -> (movement: CameraMovement)
    ensures
        movement.moved == spec_camera_moved(pressed@),
        movement.up == spec_presses(pressed@, Direction::Up),
        movement.right == spec_presses(pressed@, Direction::Right),
        movement.down == spec_presses(pressed@, Direction::Down),
        movement.left == spec_presses(pressed@, Direction::Left),
{
    let mut movement: CameraMovement = CameraMovement {
        moved: false,
        up: 0,
        right: 0,
        down: 0,
        left: 0,
    };
    for i in 0..pressed.len()
        invariant
            movement.moved == spec_camera_moved(pressed@.take(i as int)),
            movement.up == spec_presses(pressed@.take(i as int), Direction::Up),
            movement.right == spec_presses(pressed@.take(i as int), Direction::Right),
            movement.down == spec_presses(pressed@.take(i as int), Direction::Down),
            movement.left == spec_presses(pressed@.take(i as int), Direction::Left),
            movement.up + movement.right + movement.down + movement.left <= i,
    {
        let ghost before = pressed@.take(i as int);
        let ghost after = pressed@.take(i + 1);
        proof {
            assert(after.drop_last() =~= before);
            assert(after.last() == pressed[i as int]);
            if spec_camera_moved(before) {
                let k = choose|k: int|
                    0 <= k < before.len() && spec_direction(#[trigger] before[k]) is Some;
                assert(after[k] == before[k]);
            }
            if spec_camera_moved(after) && !spec_camera_moved(before) {
                let k = choose|k: int|
                    0 <= k < after.len() && spec_direction(#[trigger] after[k]) is Some;
                if k < i {
                    assert(before[k] == after[k]);
                }
            }
        }
        match direction(pressed[i]) {
            Some(Direction::Up) => {
                movement.up += 1;
                movement.moved = true;
            },
            Some(Direction::Right) => {
                movement.right += 1;
                movement.moved = true;
            },
            Some(Direction::Down) => {
                movement.down += 1;
                movement.moved = true;
            },
            Some(Direction::Left) => {
                movement.left += 1;
                movement.moved = true;
            },
            None => {},
        }
    }
    proof {
        assert(pressed@.take(pressed.len() as int) =~= pressed@);
    }
    movement
}

/// Takes the camera to `transform` if one of the pressed keys moves it.
/// Where that brings the camera onto another chunk, its position is taken
/// down anew, without bounds, and an event tells of the crossing, with the
/// bounds seen from the new chunk.
pub fn key_input(
    camera: &mut MainCamera,
    pressed: &Vec<KeyCode>,
    transform: Translation,
) -> (event: Option<CameraCrossedChunkBorderEvent>)
    ensures
        ({
            let before = *old(camera);
            let after = *final(camera);
            let moved = spec_camera_moved(pressed@);
            let crossed = moved && spec_chunk_of(transform) != before.position.pos;
            &&& after.projection == before.projection
            &&& after.transform == if moved { transform } else { before.transform }
            &&& if crossed {
                &&& after.position.is_position_of(transform, before.projection, false)
                &&& event matches Some(sent)
                &&& sent.0 == transform
                &&& sent.1 == before.projection
                &&& sent.2.is_position_of(transform, before.projection, true)
            } else {
                &&& after.position == before.position
                &&& event is None
            }
        }),
{
    if !camera_movement(pressed).moved {
        return None;
    }
    camera.transform = transform;
    let new_tilemap_camera_position: TileMapCameraPosition = TileMapCameraPosition::new(
        camera.transform,
        camera.projection,
        false,
    );
    if !new_tilemap_camera_position.eq(camera.position) {
        camera.position = new_tilemap_camera_position;
        Some(
            CameraCrossedChunkBorderEvent(
                camera.transform,
                camera.projection,
                TileMapCameraPosition::new(camera.transform, camera.projection, true),
            ),
        )
    } else {
        None
    }
}

/// Zooms the camera to `zoomed` where the wheel was turned by lines: the
/// position is then taken down anew, with the bounds seen at the new scale,
/// and an event tells of it. A turn reported in pixels is ignored.
pub fn scroll_events(
    camera: &mut MainCamera,
    unit: MouseScrollUnit,
    zoomed: Scale,
) -> (event: Option<CameraCrossedChunkBorderEvent>)
    ensures
        ({
            let before = *old(camera);
            let after = *final(camera);
            match unit {
                MouseScrollUnit::Line => {
                    &&& after.transform == before.transform
                    &&& after.projection == zoomed
                    &&& after.position.is_position_of(before.transform, zoomed, true)
                    &&& event matches Some(sent)
                    &&& sent.0 == before.transform
                    &&& sent.1 == zoomed
                    &&& sent.2 == after.position
                },
                MouseScrollUnit::Pixel => {
                    &&& after == before
                    &&& event is None
                },
            }
        }),
{
    match unit {
        MouseScrollUnit::Line => {
            camera.projection = zoomed;
            let camera_pos: TileMapCameraPosition = TileMapCameraPosition::new(
                camera.transform,
                camera.projection,
                true,
            );
            camera.position = camera_pos;
            Some(CameraCrossedChunkBorderEvent(camera.transform, camera.projection, camera_pos))
        },
        MouseScrollUnit::Pixel => None,
    }
}

} // verus!
