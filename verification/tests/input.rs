use bevy_test::plugin::camera::{
    spawn_camera, Bounds, MainCamera, Scale, TileMapCameraPosition, Translation, SCALE_ONE,
};
use bevy_test::plugin::input::{
    camera_movement, direction, key_input, scroll_events, CameraMovement, Direction, KeyCode,
    MouseScrollUnit,
};
use bevy_test::vector::IVec2;

fn at(x: i32, y: i32) -> Translation {
    Translation { x, y }
}

fn camera_at(x: i32, y: i32, raw: i32) -> MainCamera {
    MainCamera {
        transform: at(x, y),
        projection: Scale { raw },
        position: TileMapCameraPosition::new(at(x, y), Scale { raw }, true),
    }
}

#[test]
fn arrows_and_wasd_move_in_four_directions() {
    assert_eq!(direction(KeyCode::W), Some(Direction::Up));
    assert_eq!(direction(KeyCode::Up), Some(Direction::Up));
    assert_eq!(direction(KeyCode::A), Some(Direction::Left));
    assert_eq!(direction(KeyCode::Left), Some(Direction::Left));
    assert_eq!(direction(KeyCode::S), Some(Direction::Down));
    assert_eq!(direction(KeyCode::Down), Some(Direction::Down));
    assert_eq!(direction(KeyCode::D), Some(Direction::Right));
    assert_eq!(direction(KeyCode::Right), Some(Direction::Right));
    assert_eq!(direction(KeyCode::Other), None);
}

#[test]
fn no_key_moves_nothing() {
    let still = CameraMovement { moved: false, up: 0, right: 0, down: 0, left: 0 };
    assert_eq!(camera_movement(&vec![]), still);
    assert_eq!(camera_movement(&vec![KeyCode::Other, KeyCode::Other]), still);
}

#[test]
fn keys_pressed_together_combine() {
    let movement = camera_movement(&vec![KeyCode::Up, KeyCode::Other, KeyCode::Right]);
    assert_eq!(movement, CameraMovement { moved: true, up: 1, right: 1, down: 0, left: 0 });
    let movement = camera_movement(&vec![KeyCode::W, KeyCode::Up, KeyCode::S, KeyCode::A]);
    assert_eq!(movement, CameraMovement { moved: true, up: 2, right: 0, down: 1, left: 1 });
    let all = vec![
        KeyCode::W,
        KeyCode::A,
        KeyCode::S,
        KeyCode::D,
        KeyCode::Up,
        KeyCode::Left,
        KeyCode::Down,
        KeyCode::Right,
    ];
    assert_eq!(
        camera_movement(&all),
        CameraMovement { moved: true, up: 2, right: 2, down: 2, left: 2 }
    );
}

#[test]
fn key_input_without_a_movement_key_changes_nothing() {
    let mut camera = camera_at(10, 10, SCALE_ONE);
    let event = key_input(&mut camera, &vec![KeyCode::Other], at(5000, 5000));
    assert!(event.is_none());
    assert_eq!(camera.transform, at(10, 10));
    assert_eq!(camera.projection, Scale { raw: SCALE_ONE });
    assert_eq!(camera.position.pos, IVec2 { x: 0, y: 0 });
    assert_eq!(camera.position.view, Bounds { top: 3, right: 5, bottom: -3, left: -5 });
}

#[test]
fn key_input_inside_the_chunk_sends_nothing() {
    let mut camera = camera_at(10, 10, SCALE_ONE);
    let event = key_input(&mut camera, &vec![KeyCode::Right], at(255, 10));
    assert!(event.is_none());
    assert_eq!(camera.transform, at(255, 10));
    assert_eq!(camera.position.pos, IVec2 { x: 0, y: 0 });
    assert_eq!(camera.position.view, Bounds { top: 3, right: 5, bottom: -3, left: -5 });
}

#[test]
fn key_input_across_the_border_sends_the_new_bounds() {
    let mut camera = camera_at(255, 10, SCALE_ONE);
    let event = key_input(&mut camera, &vec![KeyCode::D], at(256, 10)).unwrap();
    assert_eq!(event.0, at(256, 10));
    assert_eq!(event.1, Scale { raw: SCALE_ONE });
    assert_eq!(event.2.pos, IVec2 { x: 1, y: 0 });
    assert_eq!(event.2.view, Bounds { top: 3, right: 6, bottom: -3, left: -4 });
    assert_eq!(camera.transform, at(256, 10));
    assert_eq!(camera.projection, Scale { raw: SCALE_ONE });
    assert_eq!(camera.position.pos, IVec2 { x: 1, y: 0 });
    assert_eq!(camera.position.view, Bounds { top: 0, right: 0, bottom: 0, left: 0 });
}

#[test]
fn key_input_across_the_border_downwards() {
    let (mut camera, _) = spawn_camera();
    let event = key_input(&mut camera, &vec![KeyCode::S, KeyCode::Other], at(0, -1)).unwrap();
    assert_eq!(event.2.pos, IVec2 { x: 0, y: -1 });
    assert_eq!(event.2.view, Bounds { top: 1, right: 3, bottom: -3, left: -3 });
    assert_eq!(camera.position.pos, IVec2 { x: 0, y: -1 });
    let again = key_input(&mut camera, &vec![KeyCode::S], at(0, -2));
    assert!(again.is_none());
    assert_eq!(camera.transform, at(0, -2));
}

#[test]
fn scroll_by_lines_zooms_and_sends_the_bounds_at_the_new_scale() {
    let mut camera = camera_at(300, 300, SCALE_ONE);
    camera.position.view = Bounds { top: 0, right: 0, bottom: 0, left: 0 };
    let zoomed = Scale { raw: SCALE_ONE / 2 };
    let event = scroll_events(&mut camera, MouseScrollUnit::Line, zoomed).unwrap();
    assert_eq!(event.0, at(300, 300));
    assert_eq!(event.1, zoomed);
    assert_eq!(event.2.pos, IVec2 { x: 1, y: 1 });
    assert_eq!(event.2.view, Bounds { top: 3, right: 4, bottom: -1, left: -2 });
    assert_eq!(camera.transform, at(300, 300));
    assert_eq!(camera.projection, zoomed);
    assert_eq!(camera.position.pos, event.2.pos);
    assert_eq!(camera.position.view, event.2.view);
}

#[test]
fn scroll_out_by_lines_widens_the_bounds() {
    let mut camera = camera_at(300, 300, SCALE_ONE);
    let zoomed = Scale { raw: SCALE_ONE / 10 * 11 };
    let event = scroll_events(&mut camera, MouseScrollUnit::Line, zoomed).unwrap();
    // (480 * 1.1) / 256 = 2.06.. and (7680 / 9 * 1.1) / 256 = 3.66..
    assert_eq!(event.2.view, Bounds { top: 1 + 3 + 2, right: 1 + 4 + 2, bottom: 1 - 3 - 2, left: 1 - 4 - 2 });
    assert_eq!(camera.projection, zoomed);
}

#[test]
fn scroll_by_pixels_is_ignored() {
    let mut camera = camera_at(300, 300, SCALE_ONE);
    camera.position = TileMapCameraPosition::new(at(0, 0), Scale { raw: SCALE_ONE }, false);
    let event = scroll_events(&mut camera, MouseScrollUnit::Pixel, Scale { raw: 1 });
    assert!(event.is_none());
    assert_eq!(camera.transform, at(300, 300));
    assert_eq!(camera.projection, Scale { raw: SCALE_ONE });
    assert_eq!(camera.position.pos, IVec2 { x: 0, y: 0 });
    assert_eq!(camera.position.view, Bounds { top: 0, right: 0, bottom: 0, left: 0 });
}
