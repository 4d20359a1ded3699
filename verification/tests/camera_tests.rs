use voxel_scene::camera::{CameraController, KeyAction, Vec3Fine, View, PITCH_LIMIT};
use voxel_scene::trig::{bam_of, cos_fp, sin_fp};

const ORIGIN: Vec3Fine = Vec3Fine { x: 0, y: 0, z: 0 };

/// Fine position units per world unit.
const FINE_PER_UNIT: f64 = 32768.0 * 1000.0 * 1_000_000.0;

/// 45 degrees as a binary angle: one eighth of a turn.
const YAW_45_DEG: i64 = 0x2000_0000;

/// The binary-angle delta produced by consuming a rotation
/// accumulator, mirrored here in plain integer arithmetic.
fn rot_delta(r: i128, sens: i128, dt: i128) -> i128 {
    r * sens * dt * 683_565_276 / 1_000_000_000_000
}

#[test]
fn trig_endpoints_are_exact() {
    assert_eq!(sin_fp(0), 0);
    assert_eq!(sin_fp(0x4000_0000), 32768);
    assert_eq!(sin_fp(0xC000_0000u32), -32768);
    assert_eq!(cos_fp(0), 32768);
    assert_eq!(cos_fp(0x8000_0000u32), -32768);
}

#[test]
fn trig_matches_floating_point_within_tolerance() {
    for i in 0..64u64 {
        let bam = (i * 0x0400_0000) as u32;
        let angle = bam as f64 / 4294967296.0 * std::f64::consts::TAU;
        let s = sin_fp(bam) as f64 / 32768.0;
        let c = cos_fp(bam) as f64 / 32768.0;
        assert!((s - angle.sin()).abs() < 1e-3, "sin at {bam}: {s}");
        assert!((c - angle.cos()).abs() < 1e-3, "cos at {bam}: {c}");
    }
}

#[test]
fn bam_of_wraps_negative_angles() {
    assert_eq!(bam_of(0), 0);
    assert_eq!(bam_of(-1), u32::MAX);
    assert_eq!(bam_of(0x1_0000_0000), 0);
    assert_eq!(bam_of(-0x4000_0000), 0xC000_0000);
}

#[test]
fn forward_motion_at_yaw_45_scenario() {
    // View at yaw 45 degrees, pitch -25 degrees; forward held, speed
    // 4.0 (4000 thousandths), one second of integration.  The
    // displacement is speed * dt along (cos yaw, 0, sin yaw).
    let pitch = -298_261_618; // -25 degrees as a binary angle
    let mut view = View::new(ORIGIN, YAW_45_DEG, pitch);
    let mut ctrl = CameraController::new(4000, 1000);
    assert!(ctrl.process_keyboard(KeyAction::MoveForward, true));
    ctrl.update_camera(&mut view, 1_000_000);

    let cy = cos_fp(bam_of(YAW_45_DEG)) as i128;
    let sy = sin_fp(bam_of(YAW_45_DEG)) as i128;
    assert_eq!(view.position.x, cy * 4000 * 1_000_000);
    assert_eq!(view.position.y, 0);
    assert_eq!(view.position.z, sy * 4000 * 1_000_000);

    // In world units the displacement is 4.0 * (cos 45, 0, sin 45).
    let expect = 4.0 * std::f64::consts::FRAC_1_SQRT_2;
    let wx = view.position.x as f64 / FINE_PER_UNIT;
    let wz = view.position.z as f64 / FINE_PER_UNIT;
    assert!((wx - expect).abs() < 0.01, "x displacement {wx}");
    assert!((wz - expect).abs() < 0.01, "z displacement {wz}");
}

#[test]
fn mouse_deltas_are_consumed_exactly_once() {
    // process_mouse(dx 10, dy -5), one update: yaw rotates by
    // -10 * sensitivity * dt, pitch by +5 * sensitivity * dt (in the
    // controller's fixed-point units); a second update with no new
    // pointer event leaves both unchanged.
    let mut view = View::new(ORIGIN, 0, 0);
    let mut ctrl = CameraController::new(4000, 1000);
    ctrl.process_mouse(10, -5);
    let dt = 10_000u64;
    ctrl.update_camera(&mut view, dt);

    let expected_yaw = rot_delta(-10_000, 1000, dt as i128);
    let expected_pitch = rot_delta(5_000, 1000, dt as i128);
    assert!(expected_yaw < 0 && expected_pitch > 0);
    assert_eq!(view.yaw as i128, expected_yaw);
    assert_eq!(view.pitch as i128, expected_pitch);

    ctrl.update_camera(&mut view, dt);
    assert_eq!(view.yaw as i128, expected_yaw);
    assert_eq!(view.pitch as i128, expected_pitch);
    assert_eq!(view.position, ORIGIN);
}

#[test]
fn scroll_is_consumed_exactly_once() {
    let mut view = View::new(ORIGIN, 0, 0);
    let mut ctrl = CameraController::new(4000, 1000);
    ctrl.process_scroll(-100_000); // one scroll line toward the viewer
    ctrl.update_camera(&mut view, 10_000);
    let moved = view.position;
    assert!(moved.x > 0);
    ctrl.update_camera(&mut view, 10_000);
    assert_eq!(view.position, moved);
}

#[test]
fn pitch_never_exceeds_the_safe_limit() {
    let mut view = View::new(ORIGIN, 0, 0);
    let mut ctrl = CameraController::new(4000, 1000);
    for _ in 0..50 {
        ctrl.process_mouse(0, -10_000); // hard upward rotation
        ctrl.update_camera(&mut view, 100_000_000);
        assert!(view.pitch <= PITCH_LIMIT);
    }
    assert_eq!(view.pitch, PITCH_LIMIT);
    for _ in 0..50 {
        ctrl.process_mouse(0, 10_000); // hard downward rotation
        ctrl.update_camera(&mut view, 100_000_000);
        assert!(view.pitch >= -PITCH_LIMIT);
    }
    assert_eq!(view.pitch, -PITCH_LIMIT);
}

#[test]
fn integration_is_frame_rate_independent() {
    // Holding the same keys, one step over a whole second displaces
    // the camera exactly as four steps over quarter seconds.
    let mut view_one = View::new(ORIGIN, YAW_45_DEG, 123_456);
    let mut view_four = view_one;
    let mut ctrl_one = CameraController::new(4000, 1000);
    ctrl_one.process_keyboard(KeyAction::MoveForward, true);
    ctrl_one.process_keyboard(KeyAction::MoveRight, true);
    ctrl_one.process_keyboard(KeyAction::MoveUp, true);
    let mut ctrl_four = ctrl_one;

    ctrl_one.update_camera(&mut view_one, 1_000_000);
    for _ in 0..4 {
        ctrl_four.update_camera(&mut view_four, 250_000);
    }
    assert_eq!(view_one.position, view_four.position);
    assert_eq!(view_one.yaw, view_four.yaw);
    assert_eq!(view_one.pitch, view_four.pitch);
}

#[test]
fn released_keys_stop_contributing() {
    let mut view = View::new(ORIGIN, 0, 0);
    let mut ctrl = CameraController::new(4000, 1000);
    ctrl.process_keyboard(KeyAction::MoveForward, true);
    ctrl.update_camera(&mut view, 1_000_000);
    let after_press = view.position;
    assert!(after_press.x > 0);
    ctrl.process_keyboard(KeyAction::MoveForward, false);
    ctrl.update_camera(&mut view, 1_000_000);
    assert_eq!(view.position, after_press);
}

#[test]
fn opposed_keys_cancel() {
    let mut view = View::new(ORIGIN, 77, -9);
    let mut ctrl = CameraController::new(4000, 1000);
    ctrl.process_keyboard(KeyAction::MoveForward, true);
    ctrl.process_keyboard(KeyAction::MoveBackward, true);
    ctrl.process_keyboard(KeyAction::MoveLeft, true);
    ctrl.process_keyboard(KeyAction::MoveRight, true);
    ctrl.update_camera(&mut view, 1_000_000);
    assert_eq!(view.position, ORIGIN);
}

#[test]
fn rotation_keys_write_a_one_shot_half_pixel_delta() {
    let mut view = View::new(ORIGIN, 0, 0);
    let mut ctrl = CameraController::new(4000, 1000);
    assert!(!ctrl.process_keyboard(KeyAction::RotateLeft, true));
    let dt = 10_000u64;
    ctrl.update_camera(&mut view, dt);
    assert_eq!(view.yaw as i128, rot_delta(500, 1000, dt as i128));
    let after = view.yaw;
    ctrl.update_camera(&mut view, dt);
    assert_eq!(view.yaw, after);
}

#[test]
fn vertical_movement_is_direct() {
    let mut view = View::new(ORIGIN, 0, 0);
    let mut ctrl = CameraController::new(2000, 1000);
    ctrl.process_keyboard(KeyAction::MoveUp, true);
    ctrl.update_camera(&mut view, 500_000);
    // 2.0 units/s for half a second raises the camera one world unit.
    assert_eq!(view.position.y, 32768i128 * 2000 * 500_000);
    assert_eq!(view.position.y as f64 / FINE_PER_UNIT, 1.0);
    assert_eq!(view.position.x, 0);
    assert_eq!(view.position.z, 0);
}
