use sandbox_render::camera::{
    CameraWrapper, Key, DEFAULT_SPEED, DEFAULT_YAW, FULL_TURN, PITCH_LIMIT, QUARTER_TURN,
};

#[test]
fn forward_key_moves_along_front_at_default_speed() {
    let mut w = CameraWrapper::default();
    w.handle_keyboard(Key::Forward, true);
    let m = w.update(1_000_000);
    assert_eq!(m.forward, 2_500_000);
    assert_eq!(m.right, 0);
    assert_eq!(w.camera.yaw, DEFAULT_YAW);
    assert_eq!(w.camera.pitch, 0);
    assert_eq!(DEFAULT_SPEED, 2_500_000);
}

#[test]
fn opposed_keys_cancel_and_release_stops() {
    let mut w = CameraWrapper::default();
    w.handle_keyboard(Key::Forward, true);
    w.handle_keyboard(Key::Backward, true);
    w.handle_keyboard(Key::Left, true);
    let m = w.update(500_000);
    assert_eq!(m.forward, 0);
    assert_eq!(m.right, -1_250_000);
    w.handle_keyboard(Key::Left, false);
    w.handle_keyboard(Key::Unbound, true);
    let m = w.update(500_000);
    assert_eq!(m.right, 0);
}

#[test]
fn pitch_never_reaches_a_quarter_turn() {
    let mut w = CameraWrapper::default();
    for dy in [i32::MIN, i32::MAX, -5000, 5000, i32::MIN] {
        w.handle_mouse_motion(0, dy);
        w.update(10_000_000);
        assert!((w.camera.pitch as i64) > -QUARTER_TURN);
        assert!((w.camera.pitch as i64) < QUARTER_TURN);
    }
    w.handle_mouse_motion(0, -100_000);
    w.update(1_000_000);
    assert_eq!(w.camera.pitch as i64, PITCH_LIMIT);
}

#[test]
fn mouse_down_lowers_pitch() {
    let mut w = CameraWrapper::default();
    w.handle_mouse_motion(0, 256);
    w.update(1_000_000);
    // 1 px · 683565276 units per px-second · 1 s: one radian down
    assert_eq!(w.camera.pitch, -683_565_276);
    w.handle_mouse_motion(0, -256);
    w.update(500_000);
    assert_eq!(w.camera.pitch, -683_565_276 + 341_782_638);
}

#[test]
fn yaw_full_turns_return_to_start() {
    let mut w = CameraWrapper::default();
    w.camera_controller.sensitivity = 0x8000_0000;
    for _ in 0..5 {
        // 2 px · 2^31 units per px-second · 1 s is one full turn
        w.handle_mouse_motion(512, 0);
        w.update(1_000_000);
        assert_eq!(w.camera.yaw, DEFAULT_YAW);
    }
    w.handle_mouse_motion(-512, 0);
    w.update(3_000_000);
    assert_eq!(w.camera.yaw, DEFAULT_YAW);
}

#[test]
fn yaw_wraps_into_one_turn() {
    let mut w = CameraWrapper::default();
    w.camera_controller.sensitivity = 0x4000_0000;
    // a quarter turn on from three quarters is a full turn: yaw 0
    w.handle_mouse_motion(256, 0);
    w.update(1_000_000);
    assert_eq!(w.camera.yaw, 0);
    // a quarter turn back is three quarters again
    w.handle_mouse_motion(-256, 0);
    w.update(1_000_000);
    assert_eq!(w.camera.yaw as u64, 3 * FULL_TURN / 4);
}

#[test]
fn mouse_motion_is_consumed_and_last_report_wins() {
    let mut w = CameraWrapper::default();
    w.handle_mouse_motion(100, 100);
    w.handle_mouse_motion(0, 1);
    assert_eq!(w.camera_controller.rotate_horizontal, 0);
    assert_eq!(w.camera_controller.rotate_vertical, 1);
    w.update(1_000_000);
    assert_eq!(w.camera_controller.rotate_horizontal, 0);
    assert_eq!(w.camera_controller.rotate_vertical, 0);
    let before = w.camera;
    w.update(1_000_000);
    assert_eq!(w.camera, before);
}

#[test]
fn fractional_mouse_motion_is_kept() {
    let mut w = CameraWrapper::default();
    // half a pixel down for one second: half a radian
    w.handle_mouse_motion(0, 128);
    w.update(1_000_000);
    assert_eq!(w.camera.pitch, -341_782_638);
}
