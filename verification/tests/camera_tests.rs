use orbit_grid::camera::{
    adjust, center_selection, decide, pan_orbit_camera, plugin_enabled, CameraAction, FrameInput,
    PanOrbitCamera, Projection, Transform, Viewport, MIN_RADIUS,
};
use orbit_grid::fixed::SCALE;
use orbit_grid::geom::{v3_dist, Quat, Vec2, Vec3};

fn still_input() -> FrameInput {
    FrameInput {
        motion: Vec2 { x: 0, y: 0 },
        scroll: 0,
        orbit_pressed: false,
        pan_key: false,
        orbit_changed: false,
    }
}

fn viewport_1000x1000() -> Viewport {
    Viewport { width: 1_000_000_000, height: 1_000_000_000 }
}

#[test]
fn default_state_orbits_the_origin() {
    let s = PanOrbitCamera::default();
    assert_eq!((s.focus.x, s.focus.y, s.focus.z), (0, 0, 0));
    assert_eq!(s.radius, 5_000_000);
    assert!(!s.upside_down);
}

#[test]
fn enable_follows_the_ui_pointer_state() {
    assert!(plugin_enabled(false, false, false));
    assert!(!plugin_enabled(true, false, false));
    assert!(!plugin_enabled(false, true, false));
    assert!(!plugin_enabled(false, false, true));
}

#[test]
fn rotation_has_highest_precedence() {
    let mut input = still_input();
    input.motion = Vec2 { x: 1_000_000, y: 0 };
    input.scroll = 1_000_000;
    input.orbit_pressed = true;
    assert!(matches!(decide(&input, true), CameraAction::Rotate(_)));
    input.pan_key = true;
    assert!(matches!(decide(&input, true), CameraAction::Pan(_)));
    input.motion = Vec2 { x: 0, y: 0 };
    assert!(matches!(decide(&input, true), CameraAction::Zoom(1_000_000)));
    input.scroll = 0;
    assert!(matches!(decide(&input, true), CameraAction::Idle));
}

#[test]
fn blocked_input_turns_every_action_idle() {
    let mut input = still_input();
    input.motion = Vec2 { x: 1_000_000, y: 0 };
    input.scroll = 1_000_000;
    input.orbit_pressed = true;
    assert!(matches!(decide(&input, false), CameraAction::Idle));
}

#[test]
fn zoom_shrinks_in_proportion() {
    let mut state = PanOrbitCamera::default();
    let mut transform = Transform::default();
    let mut input = still_input();
    input.scroll = 1_000_000;  // one scroll line
    pan_orbit_camera(
        &mut state,
        &mut transform,
        &input,
        &viewport_1000x1000(),
        &Projection::Orthographic,
        true,
    );
    assert_eq!(state.radius, 4_990_000);
    pan_orbit_camera(
        &mut state,
        &mut transform,
        &input,
        &viewport_1000x1000(),
        &Projection::Orthographic,
        true,
    );
    assert_eq!(state.radius, 4_980_020);
}

#[test]
fn zoom_out_grows_in_proportion() {
    let mut state = PanOrbitCamera::default();
    let mut transform = Transform::default();
    let mut input = still_input();
    input.scroll = -1_000_000;
    pan_orbit_camera(
        &mut state,
        &mut transform,
        &input,
        &viewport_1000x1000(),
        &Projection::Orthographic,
        true,
    );
    assert_eq!(state.radius, 5_010_000);
}

#[test]
fn radius_never_drops_below_the_floor() {
    let mut state = PanOrbitCamera::default();
    let mut transform = Transform::default();
    let mut input = still_input();
    input.scroll = 1_000_000_000;  // a huge zoom-in
    for _ in 0..5 {
        pan_orbit_camera(
            &mut state,
            &mut transform,
            &input,
            &viewport_1000x1000(),
            &Projection::Orthographic,
            true,
        );
        assert!(state.radius >= MIN_RADIUS);
    }
    assert_eq!(state.radius, MIN_RADIUS);
}

#[test]
fn empty_motion_changes_nothing() {
    let mut state = PanOrbitCamera::default();
    let mut transform = Transform::default();
    transform.translation = Vec3 { x: 0, y: 0, z: 5_000_000 };
    let mut input = still_input();
    input.orbit_pressed = true;  // held, but no motion and no scroll
    pan_orbit_camera(
        &mut state,
        &mut transform,
        &input,
        &viewport_1000x1000(),
        &Projection::Orthographic,
        true,
    );
    assert_eq!((state.focus.x, state.focus.y, state.focus.z), (0, 0, 0));
    assert_eq!(state.radius, 5_000_000);
    assert_eq!(
        (transform.translation.x, transform.translation.y, transform.translation.z),
        (0, 0, 5_000_000)
    );
    assert_eq!(transform.rotation, Quat { x: 0, y: 0, z: 0, w: SCALE });
}

#[test]
fn blocked_pan_leaves_the_focus_alone() {
    let mut state = PanOrbitCamera::default();
    let mut transform = Transform::default();
    let mut input = still_input();
    input.motion = Vec2 { x: 5_000_000, y: 5_000_000 };
    input.orbit_pressed = true;
    input.pan_key = true;
    pan_orbit_camera(
        &mut state,
        &mut transform,
        &input,
        &viewport_1000x1000(),
        &Projection::Orthographic,
        false,  // the UI wants the pointer
    );
    assert_eq!((state.focus.x, state.focus.y, state.focus.z), (0, 0, 0));
    assert_eq!((transform.translation.x, transform.translation.y, transform.translation.z), (0, 0, 0));
}

#[test]
fn orthographic_pan_moves_the_focus() {
    let mut state = PanOrbitCamera::default();
    let mut transform = Transform::default();
    let mut input = still_input();
    input.motion = Vec2 { x: 1_000_000, y: 2_000_000 };
    input.orbit_pressed = true;
    input.pan_key = true;
    pan_orbit_camera(
        &mut state,
        &mut transform,
        &input,
        &viewport_1000x1000(),
        &Projection::Orthographic,
        true,
    );
    assert_eq!(
        (state.focus.x, state.focus.y, state.focus.z),
        (-5_000_000, 10_000_000, 0)
    );
    assert_eq!(state.radius, 5_000_000);
    // position recomposed: focus + radius along the local Z axis
    assert_eq!(
        (transform.translation.x, transform.translation.y, transform.translation.z),
        (-5_000_000, 10_000_000, 5_000_000)
    );
}

#[test]
fn perspective_pan_scales_with_fov_and_viewport() {
    let mut state = PanOrbitCamera::default();
    let mut transform = Transform::default();
    let mut input = still_input();
    input.motion = Vec2 { x: 100_000_000, y: -50_000_000 };
    input.orbit_pressed = true;
    input.pan_key = true;
    let viewport = Viewport { width: 2_000_000_000, height: 1_000_000_000 };
    let projection = Projection::Perspective { fov: 785_398, aspect_ratio: 1_500_000 };
    pan_orbit_camera(&mut state, &mut transform, &input, &viewport, &projection, true);
    assert_eq!(
        (state.focus.x, state.focus.y, state.focus.z),
        (-294_500, -196_250, 0)
    );
    assert_eq!(
        (transform.translation.x, transform.translation.y, transform.translation.z),
        (-294_500, -196_250, 5_000_000)
    );
}

#[test]
fn quarter_turn_drag_orbits_the_camera() {
    let mut state = PanOrbitCamera::default();
    let mut transform = Transform::default();
    let mut input = still_input();
    // a quarter of the viewport width
    input.motion = Vec2 { x: 250_000_000, y: 0 };
    input.orbit_pressed = true;
    pan_orbit_camera(
        &mut state,
        &mut transform,
        &input,
        &viewport_1000x1000(),
        &Projection::Orthographic,
        true,
    );
    assert_eq!(transform.rotation, Quat { x: 0, y: -707_108, z: 0, w: 707_105 });
    // the camera swung from +Z around to -X (up to rounding)
    assert_eq!(
        (transform.translation.x, transform.translation.y, transform.translation.z),
        (-4_999_996, 0, -17)
    );
    assert_eq!((state.focus.x, state.focus.y, state.focus.z), (0, 0, 0));
    assert_eq!(state.radius, 5_000_000);
}

#[test]
fn vertical_drag_pitches_the_camera() {
    let mut state = PanOrbitCamera::default();
    let mut transform = Transform::default();
    let mut input = still_input();
    // a quarter of the viewport height: an eighth of a turn of pitch
    input.motion = Vec2 { x: 0, y: 250_000_000 };
    input.orbit_pressed = true;
    pan_orbit_camera(
        &mut state,
        &mut transform,
        &input,
        &viewport_1000x1000(),
        &Projection::Orthographic,
        true,
    );
    assert_eq!(transform.rotation, Quat { x: -382_683, y: 0, z: 0, w: 923_879 });
    // the camera rose on an arc between +Z and +Y
    assert_eq!(
        (transform.translation.x, transform.translation.y, transform.translation.z),
        (0, 3_535_527, 3_535_538)
    );
}

#[test]
fn upside_down_flag_follows_transitions() {
    let mut state = PanOrbitCamera::default();
    let mut transform = Transform::default();
    // flip the camera over: a half turn about X
    transform.rotation = Quat::from_rotation_x(3_141_593);
    let mut input = still_input();
    input.orbit_changed = true;
    pan_orbit_camera(
        &mut state,
        &mut transform,
        &input,
        &viewport_1000x1000(),
        &Projection::Orthographic,
        true,
    );
    assert!(state.upside_down);
    // without a transition the flag keeps its cached value
    transform.rotation = Quat { x: 0, y: 0, z: 0, w: SCALE };
    input.orbit_changed = false;
    pan_orbit_camera(
        &mut state,
        &mut transform,
        &input,
        &viewport_1000x1000(),
        &Projection::Orthographic,
        true,
    );
    assert!(state.upside_down);
    // the next transition, upright again, clears it
    input.orbit_changed = true;
    pan_orbit_camera(
        &mut state,
        &mut transform,
        &input,
        &viewport_1000x1000(),
        &Projection::Orthographic,
        true,
    );
    assert!(!state.upside_down);
}

#[test]
fn distance_rounds_down() {
    let a = Vec3 { x: 0, y: 5_000_000, z: 0 };
    let b = Vec3 { x: 0, y: 0, z: 0 };
    assert_eq!(v3_dist(&a, &b), 5_000_000);
    let c = Vec3 { x: 1_000_000, y: 1_000_000, z: 0 };
    assert_eq!(v3_dist(&c, &b), 1_414_213);
    assert_eq!(v3_dist(&b, &b), 0);
}

#[test]
fn recenter_on_two_points() {
    let mut state = PanOrbitCamera::default();
    let camera_position = Vec3 { x: 0, y: 5_000_000, z: 0 };
    let points = vec![
        Vec3 { x: 1_000_000, y: 0, z: 0 },
        Vec3 { x: -1_000_000, y: 0, z: 0 },
    ];
    center_selection(&mut state, &camera_position, &points);
    assert_eq!((state.focus.x, state.focus.y, state.focus.z), (0, 0, 0));
    assert_eq!(state.radius, 5_000_000);
}

#[test]
fn recenter_takes_the_centroid_distance() {
    let mut state = PanOrbitCamera::default();
    let camera_position = Vec3 { x: 0, y: 2_000_000, z: 0 };
    let points = vec![Vec3 { x: 1_000_000, y: 1_000_000, z: 0 }];
    center_selection(&mut state, &camera_position, &points);
    assert_eq!(
        (state.focus.x, state.focus.y, state.focus.z),
        (1_000_000, 1_000_000, 0)
    );
    // distance sqrt(1^2 + 1^2) rounded down in millionths
    assert_eq!(state.radius, 1_414_213);
}

#[test]
fn recenter_with_no_selection_is_a_no_op() {
    let mut state = PanOrbitCamera::default();
    state.focus = Vec3 { x: 7, y: 8, z: 9 };
    state.radius = 123_456;
    let camera_position = Vec3 { x: 0, y: 5_000_000, z: 0 };
    let points: Vec<Vec3> = Vec::new();
    center_selection(&mut state, &camera_position, &points);
    assert_eq!((state.focus.x, state.focus.y, state.focus.z), (7, 8, 9));
    assert_eq!(state.radius, 123_456);
}

#[test]
fn adjust_recomposes_the_position() {
    let mut state = PanOrbitCamera::default();
    state.focus = Vec3 { x: 1_000_000, y: 2_000_000, z: 3_000_000 };
    state.radius = 2_000_000;
    let mut transform = Transform::default();
    adjust(&state, &mut transform);
    assert_eq!(
        (transform.translation.x, transform.translation.y, transform.translation.z),
        (1_000_000, 2_000_000, 5_000_000)
    );
}

#[test]
fn adjust_twice_is_adjust_once() {
    let mut state = PanOrbitCamera::default();
    state.focus = Vec3 { x: -4_000_000, y: 500_000, z: 1_250_000 };
    state.radius = 3_333_333;
    let mut transform = Transform::default();
    transform.rotation = Quat::from_rotation_y(1_000_000);
    adjust(&state, &mut transform);
    let first = (
        transform.translation.x,
        transform.translation.y,
        transform.translation.z,
        transform.rotation,
    );
    adjust(&state, &mut transform);
    let second = (
        transform.translation.x,
        transform.translation.y,
        transform.translation.z,
        transform.rotation,
    );
    assert_eq!(first, second);
}

#[test]
fn adjust_follows_external_state_changes() {
    // other code moves the focus directly; the always-run pass catches it
    let mut state = PanOrbitCamera::default();
    let mut transform = Transform::default();
    adjust(&state, &mut transform);
    assert_eq!(transform.translation.z, 5_000_000);
    state.focus = Vec3 { x: 10_000_000, y: 0, z: 0 };
    adjust(&state, &mut transform);
    assert_eq!(
        (transform.translation.x, transform.translation.y, transform.translation.z),
        (10_000_000, 0, 5_000_000)
    );
}
