use sandbox_render::camera::Key;
use sandbox_render::frame::{
    preferred_format, AppState, DrawCall, Recovery, SurfaceConfig, SurfaceError,
};

#[test]
fn resize_to_zero_is_clamped() {
    let mut s = AppState::new(800, 600, vec![36, 6]);
    let c = s.resize(0, 0);
    assert_eq!(c, SurfaceConfig { width: 1, height: 1 });
    assert!(s.is_surface_configured);
    assert_eq!(s.surface_config, c);
    assert_eq!(s.resize(0, 480), SurfaceConfig { width: 1, height: 480 });
    assert_eq!(s.resize(640, 480), SurfaceConfig { width: 640, height: 480 });
}

#[test]
fn render_skips_until_configured() {
    let mut s = AppState::new(800, 600, vec![36, 6]);
    assert!(s.render().is_none());
    s.resize(800, 600);
    let plan = s.render().unwrap();
    assert_eq!(
        plan,
        vec![
            DrawCall { pass: 0, entity: 0, instance_start: 0, instance_end: 128, index_count: 36 },
            DrawCall { pass: 1, entity: 1, instance_start: 128, instance_end: 256, index_count: 6 },
        ]
    );
}

#[test]
fn light_orbit_after_one_frame() {
    let mut s = AppState::new(800, 600, vec![36, 6]);
    let u = s.update(16_667, 16_667);
    // 16667 µs at 100° a second, in units of 2^-32 turn
    let expected = ((16_667u128 << 32) / 3_600_000) as u32;
    assert_eq!(u.light_angle, expected);
    assert_eq!(u.light_angle, 19_884_505);
    assert_eq!(u.light_entity, 0);
    assert_eq!(u.motion.forward, 0);
    assert_eq!(u.motion.right, 0);
}

#[test]
fn light_orbit_wraps_each_3_6_seconds() {
    let mut s = AppState::new(800, 600, vec![]);
    assert_eq!(s.update(0, 0).light_angle, 0);
    assert_eq!(s.update(0, 3_600_000).light_angle, 0);
    assert_eq!(s.update(0, 900_000).light_angle, 0x4000_0000);
}

#[test]
fn update_moves_camera_from_keys() {
    let mut s = AppState::new(800, 600, vec![36]);
    s.handle_keyboard(Key::Forward, true);
    s.handle_mouse_motion(0, 0);
    let u = s.update(1_000_000, 1_000_000);
    assert_eq!(u.motion.forward, 2_500_000);
}

#[test]
fn lost_and_outdated_surfaces_are_reconfigured() {
    assert_eq!(AppState::recovery(SurfaceError::Lost), Recovery::Reconfigure);
    assert_eq!(AppState::recovery(SurfaceError::Outdated), Recovery::Reconfigure);
    assert_eq!(AppState::recovery(SurfaceError::Timeout), Recovery::Report);
    assert_eq!(AppState::recovery(SurfaceError::OutOfMemory), Recovery::Report);
    assert_eq!(AppState::recovery(SurfaceError::Other), Recovery::Report);
}

#[test]
fn preferred_format_takes_first_srgb_else_first() {
    assert_eq!(preferred_format(&vec![false, true, true]), Some(1));
    assert_eq!(preferred_format(&vec![false, false]), Some(0));
    assert_eq!(preferred_format(&vec![true]), Some(0));
    assert_eq!(preferred_format(&vec![]), None);
}
