use gltf_viewer::controls::{MouseButtonKind, NavState, OrbitControls, RADIUS_MIN};
use gltf_viewer::events::{process_event, process_input, InputEvent, KeyCode};
use gltf_viewer::math::ONE;
use gltf_viewer::camera::Camera;
use gltf_viewer::viewer::{
    exit_code, import_failure_report, resolve_pose_overrides, select_camera, CameraOptions,
    CameraSelection, ImportErrorKind, ViewerError,
};
use gltf_viewer::math::Vec3Fx;

fn fresh() -> OrbitControls {
    OrbitControls::new(800, 600)
}

#[test]
fn first_move_suppressed() {
    let mut c = fresh();
    let initial = c;
    c.press_button(MouseButtonKind::Left);
    let pan = c.handle_mouse_move(37, -12);
    assert!(pan.is_none());
    assert_eq!(c.azimuth, initial.azimuth);
    assert_eq!(c.polar, initial.polar);
    assert_eq!(c.radius, initial.radius);
    assert_eq!(c.target, initial.target);
    assert!(c.last_cursor.is_some());
}

#[test]
fn orbit_round_trip() {
    let mut c = fresh();
    let initial = c;
    c.press_button(MouseButtonKind::Left);
    c.handle_mouse_move(0, 0);
    c.handle_mouse_move(100, 0);
    c.release_button(MouseButtonKind::Left);
    assert_ne!(c.azimuth, initial.azimuth);
    c.press_button(MouseButtonKind::Left);
    c.handle_mouse_move(100, 0);
    c.handle_mouse_move(0, 0);
    c.release_button(MouseButtonKind::Left);
    assert_eq!(c.azimuth, initial.azimuth);
    assert_eq!(c.polar, initial.polar);
    assert_eq!(c.radius, initial.radius);
    assert_eq!(c.target, initial.target);
}

#[test]
fn zoom_clamp_stays_above_minimum() {
    let mut c = fresh();
    assert_eq!(c.radius, 2 * ONE);
    for _ in 0..10000 {
        c.process_mouse_scroll(120);
    }
    assert!(c.radius >= RADIUS_MIN);
}

#[test]
fn scroll_monotonic() {
    let mut a = fresh();
    let mut b = fresh();
    a.process_mouse_scroll(200);
    b.process_mouse_scroll(100);
    assert!(a.radius <= b.radius);
    assert!(a.radius < 2 * ONE);
    assert!(b.radius < 2 * ONE);
}

#[test]
fn scroll_line_delta_counts_threefold() {
    let mut a = fresh();
    let mut b = fresh();
    process_event(&mut a, &InputEvent::WheelLines(7));
    process_event(&mut b, &InputEvent::WheelPixels(21));
    assert_eq!(a.radius, b.radius);
}

#[test]
fn rotate_object_full_circle() {
    let mut c = fresh();
    let start = c.azimuth;
    let step = 1073741824; // a quarter turn
    for _ in 0..4 {
        c.rotate_object(step);
    }
    assert_eq!(c.azimuth, start);
}

#[test]
fn dolly_forward_shrinks_radius() {
    let mut c = fresh();
    c.process_keyboard(gltf_viewer::controls::CameraMovement::Forward, true);
    c.frame_update(100000000, 0, 0); // 0.1 s
    assert_eq!(c.radius, 2 * ONE - 19660);
}

#[test]
fn strafe_moves_target_along_right_axis() {
    let mut c = fresh();
    c.process_keyboard(gltf_viewer::controls::CameraMovement::Right, true);
    c.frame_update(100000000, ONE, 0);
    assert_eq!(c.target.x, 19660);
    assert_eq!(c.target.y, 0);
    assert_eq!(c.target.z, 0);
}

#[test]
fn resize_updates_aspect() {
    let mut c = fresh();
    let out = process_event(&mut c, &InputEvent::Resized(1024, 768));
    assert!(out.keep_running);
    assert_eq!(c.camera.aspect_w, 1024);
    assert_eq!(c.camera.aspect_h, 768);
    assert_eq!(c.screen_width, 1024);
    assert_eq!(c.screen_height, 768);
    let before = c;
    process_event(&mut c, &InputEvent::Resized(0, 5));
    assert_eq!(c, before);
}

#[test]
fn button_state_machine() {
    let mut c = fresh();
    assert_eq!(c.nav, NavState::Idle);
    c.release_button(MouseButtonKind::Left);
    assert_eq!(c.nav, NavState::Idle);
    c.press_button(MouseButtonKind::Left);
    assert_eq!(c.nav, NavState::Rotating);
    c.release_button(MouseButtonKind::Right);
    assert_eq!(c.nav, NavState::Rotating);
    c.release_button(MouseButtonKind::Left);
    assert_eq!(c.nav, NavState::Idle);
    c.press_button(MouseButtonKind::Right);
    assert_eq!(c.nav, NavState::Panning);
    c.release_button(MouseButtonKind::Right);
    assert_eq!(c.nav, NavState::Idle);
    assert!(c.last_cursor.is_none());
}

#[test]
fn pan_reports_delta_and_translate_applies() {
    let mut c = fresh();
    c.press_button(MouseButtonKind::Right);
    assert!(c.handle_mouse_move(5, 5).is_none());
    let pan = c.handle_mouse_move(8, 9).expect("second move pans");
    assert_eq!(pan.dx, 3);
    assert_eq!(pan.dy, 4);
    c.translate(100, -200, 300);
    assert_eq!(c.target, Vec3Fx { x: 100, y: -200, z: 300 });
}

#[test]
fn escape_and_close_stop_the_loop() {
    let mut c = fresh();
    let out = process_event(&mut c, &InputEvent::Key(KeyCode::Escape, true));
    assert!(!out.keep_running);
    let out = process_event(&mut c, &InputEvent::Key(KeyCode::Escape, false));
    assert!(out.keep_running);
    let out = process_event(&mut c, &InputEvent::Closed);
    assert!(!out.keep_running);
    let out = process_event(&mut c, &InputEvent::FileDropped);
    assert!(out.keep_running);
}

#[test]
fn key_mapping_drives_held_keys() {
    let mut c = fresh();
    assert!(process_input(&mut c, KeyCode::W, true));
    assert!(c.keys.forward);
    assert!(process_input(&mut c, KeyCode::Up, false));
    assert!(!c.keys.forward);
    assert!(process_input(&mut c, KeyCode::S, true));
    assert!(c.keys.backward);
    assert!(process_input(&mut c, KeyCode::A, true));
    assert!(c.keys.left);
    assert!(process_input(&mut c, KeyCode::Right, true));
    assert!(c.keys.right);
}

#[test]
fn camera_index_override_warns() {
    let opts = CameraOptions {
        index: 0,
        position: Some(Vec3Fx { x: 1, y: 2, z: 3 }),
        target: Some(Vec3Fx { x: 0, y: 0, z: 0 }),
        fovy: 536870912,
    };
    match select_camera(1, &opts) {
        CameraSelection::UseNode { index, warn_overrides } => {
            assert_eq!(index, 0);
            assert!(warn_overrides);
        },
        _ => panic!("expected the camera node to be adopted"),
    }
}

#[test]
fn camera_selection_cases() {
    let none = CameraOptions { index: -1, position: None, target: None, fovy: 536870912 };
    assert!(matches!(select_camera(3, &none), CameraSelection::FromBounds));
    let five = CameraOptions { index: 5, position: None, target: None, fovy: 536870912 };
    assert!(matches!(select_camera(2, &five), CameraSelection::OutOfRange));
    // a requested index is an error even when the document has no camera nodes
    assert!(matches!(select_camera(0, &five), CameraSelection::OutOfRange));
    let zero = CameraOptions { index: 0, position: None, target: None, fovy: 536870912 };
    assert!(matches!(select_camera(0, &zero), CameraSelection::OutOfRange));
    assert_eq!(exit_code(ViewerError::InvalidCameraIndex), 2);
    assert_eq!(exit_code(ViewerError::ImportFailure), 1);
}

#[test]
fn vertical_keys_move_target_along_world_up() {
    let mut c = fresh();
    c.process_keyboard(gltf_viewer::controls::CameraMovement::Up, true);
    c.frame_update(100000000, 0, 0);
    assert_eq!(c.target.y, 19660);
    c.process_keyboard(gltf_viewer::controls::CameraMovement::Up, false);
    c.process_keyboard(gltf_viewer::controls::CameraMovement::Down, true);
    c.frame_update(100000000, 0, 0);
    assert_eq!(c.target.y, 0);
}

#[test]
fn left_strafe_opposes_right() {
    let mut c = fresh();
    c.process_keyboard(gltf_viewer::controls::CameraMovement::Left, true);
    c.frame_update(100000000, ONE, 0);
    assert_eq!(c.target.x, -19660);
    // both opposed keys held: no net movement
    c.process_keyboard(gltf_viewer::controls::CameraMovement::Right, true);
    c.frame_update(100000000, ONE, 0);
    assert_eq!(c.target.x, -19660);
}

#[test]
fn mouse_up_clears_cursor_sample() {
    let mut c = fresh();
    c.press_button(MouseButtonKind::Left);
    c.handle_mouse_move(3, 4);
    assert!(c.last_cursor.is_some());
    c.handle_mouse_up();
    assert!(c.last_cursor.is_none());
    // the next drag move is suppressed again
    let before = c.azimuth;
    c.handle_mouse_move(50, 60);
    assert_eq!(c.azimuth, before);
}

#[test]
fn idle_moves_are_ignored() {
    let mut c = fresh();
    let before = c;
    assert!(c.handle_mouse_move(10, 10).is_none());
    assert_eq!(c, before);
    assert!(c.last_cursor.is_none());
}

#[test]
fn explicit_overrides_replace_fitted_pose() {
    let fit_pos = Vec3Fx { x: 100, y: 200, z: 300 };
    let fit_tgt = Vec3Fx { x: 0, y: 0, z: 0 };
    let none = CameraOptions { index: -1, position: None, target: None, fovy: 536870912 };
    let kept = resolve_pose_overrides(fit_pos, fit_tgt, &none);
    assert_eq!(kept.position, fit_pos);
    assert_eq!(kept.target, fit_tgt);
    let over = CameraOptions {
        index: -1,
        position: Some(Vec3Fx { x: 7, y: 8, z: 9 }),
        target: Some(Vec3Fx { x: 1, y: 1, z: 1 }),
        fovy: 536870912,
    };
    let chosen = resolve_pose_overrides(fit_pos, fit_tgt, &over);
    assert_eq!(chosen.position, Vec3Fx { x: 7, y: 8, z: 9 });
    assert_eq!(chosen.target, Vec3Fx { x: 1, y: 1, z: 1 });
    // position alone: the fitted target stays
    let pos_only = CameraOptions {
        index: -1,
        position: Some(Vec3Fx { x: 7, y: 8, z: 9 }),
        target: None,
        fovy: 536870912,
    };
    let mixed = resolve_pose_overrides(fit_pos, fit_tgt, &pos_only);
    assert_eq!(mixed.position, Vec3Fx { x: 7, y: 8, z: 9 });
    assert_eq!(mixed.target, fit_tgt);
}

#[test]
fn set_camera_adopts_node_intrinsics() {
    let mut c = fresh();
    let node_cam = Camera {
        fovy: 357913941,
        aspect_w: 16,
        aspect_h: 9,
        znear: 100,
        zfar: 1000000,
    };
    let r = c.set_camera(&node_cam, Vec3Fx { x: 10, y: 20, z: 30 }, 3 * ONE, 0, 1073741824);
    assert!(r.is_ok());
    assert_eq!(c.camera, node_cam);
    assert_eq!(c.target, Vec3Fx { x: 10, y: 20, z: 30 });
    assert_eq!(c.radius, 3 * ONE);
    assert_eq!(c.azimuth, 0);
    assert_eq!(c.polar, 1073741824);
}

#[test]
fn set_camera_rejects_invalid_intrinsics() {
    let mut c = fresh();
    let before = c;
    let bad = Camera { fovy: 0, aspect_w: 16, aspect_h: 9, znear: 100, zfar: 1000000 };
    assert!(c.set_camera(&bad, Vec3Fx { x: 1, y: 2, z: 3 }, ONE, 0, 1073741824).is_err());
    assert_eq!(c, before);
    let inverted = Camera { fovy: 357913941, aspect_w: 16, aspect_h: 9, znear: 500, zfar: 100 };
    assert!(c.set_camera(&inverted, Vec3Fx { x: 1, y: 2, z: 3 }, ONE, 0, 1073741824).is_err());
    assert_eq!(c, before);
}

#[test]
fn import_failure_hints_only_on_io() {
    let io = import_failure_report(ImportErrorKind::Io);
    assert_eq!(io.exit, 1);
    assert!(io.hint_missing_bin);
    let doc = import_failure_report(ImportErrorKind::Document);
    assert_eq!(doc.exit, 1);
    assert!(!doc.hint_missing_bin);
}
