use car_sim::camera::{camera_distance, use_car_heading, DebugCameraController, CAM_EYE_DIST};
use car_sim::car::{CarState, ACCELERATION, MAX_ADJUSTED_DT, TURN_RADIUS_FAST, TURN_RADIUS_SLOW};
use car_sim::chassis::{
    downforce, drag_factor, spring_impulse, suspension_compression, suspension_compression_curve,
    PROBE_LENGTH,
};
use car_sim::controller::{CarController, Key};
use car_sim::framerate::{adjusted_dt, FramerateCounter};
use car_sim::host::{HostAction, HostState};
use car_sim::input::{resolve_drive_input, resolve_turn_input, DriveInputState, TurnInputState};
use car_sim::obj::{parse_faces, parse_vertex_ref, VertIndexes};
use car_sim::wheels::{clamp_wheel_forces, count_grounded, isqrt, SlipModel, MAX_FRICTION};

const TICK: u64 = 1_000_000;

fn held(keys: &[Key]) -> CarController {
    let mut c = CarController::new();
    for k in keys {
        c.handle_key_event(*k, true);
    }
    c
}

#[test]
fn controller_latches_driving_keys() {
    let mut c = CarController::new();
    assert!(!c.w_pressed && !c.a_pressed && !c.s_pressed && !c.d_pressed && !c.shift_pressed);
    c.handle_key_event(Key::W, true);
    c.handle_key_event(Key::ShiftRight, true);
    c.handle_key_event(Key::Tab, true);
    assert!(c.w_pressed && c.shift_pressed && !c.a_pressed);
    c.handle_key_event(Key::W, true);
    assert!(c.w_pressed);
    c.handle_key_event(Key::W, false);
    c.handle_key_event(Key::ShiftLeft, false);
    assert!(!c.w_pressed && !c.shift_pressed);
}

#[test]
fn drive_intent_follows_keys() {
    assert_eq!(resolve_drive_input(None), DriveInputState::Coasting);
    assert_eq!(resolve_drive_input(Some(&held(&[]))), DriveInputState::Coasting);
    assert_eq!(resolve_drive_input(Some(&held(&[Key::W]))), DriveInputState::Accelerating);
    assert_eq!(resolve_drive_input(Some(&held(&[Key::S]))), DriveInputState::Reversing);
    assert_eq!(resolve_drive_input(Some(&held(&[Key::W, Key::S]))), DriveInputState::HardBraking);
    assert_eq!(resolve_drive_input(Some(&held(&[Key::ShiftLeft]))), DriveInputState::HardBraking);
    assert_eq!(
        resolve_drive_input(Some(&held(&[Key::W, Key::ShiftLeft]))),
        DriveInputState::HardBraking
    );
}

#[test]
fn turn_intent_follows_keys() {
    assert_eq!(resolve_turn_input(None), TurnInputState::Straight);
    assert_eq!(resolve_turn_input(Some(&held(&[Key::A]))), TurnInputState::Left);
    assert_eq!(resolve_turn_input(Some(&held(&[Key::D]))), TurnInputState::Right);
    assert_eq!(resolve_turn_input(Some(&held(&[Key::A, Key::D]))), TurnInputState::Straight);
}

#[test]
fn one_tick_of_smoothing() {
    let mut car = CarState::new();
    car.update_inputs(TICK, 0, Some(&held(&[Key::W, Key::A])));
    assert_eq!(car.throttle, 12_000);
    assert_eq!(car.turn_angle, 12_946);
    assert_eq!(car.drive_input, DriveInputState::Accelerating);
    assert_eq!(car.turn_input, TurnInputState::Left);

    let mut car = CarState::new();
    car.update_inputs(TICK, 0, Some(&held(&[Key::S, Key::D])));
    assert_eq!(car.throttle, -9_600);
    assert_eq!(car.turn_angle, -12_946);
}

#[test]
fn fast_steering_set_above_threshold() {
    let mut car = CarState::new();
    car.update_inputs(TICK, 23_000, Some(&held(&[Key::A])));
    assert_eq!(car.turn_angle, 4_020);
    let mut slow = CarState::new();
    slow.update_inputs(TICK, 22_000, Some(&held(&[Key::A])));
    assert_eq!(slow.turn_angle, 12_946);
}

#[test]
fn steering_recentres_faster() {
    let mut car = CarState::new();
    car.turn_angle = 100_000;
    car.update_inputs(TICK, 0, None);
    assert_eq!(car.turn_angle, 93_455);
}

#[test]
fn throttle_and_steer_stay_bounded() {
    let mut car = CarState::new();
    let patterns: [&[Key]; 5] = [&[Key::W, Key::A], &[Key::S, Key::D], &[Key::A], &[], &[Key::W]];
    for step in 0..2_000u64 {
        let keys = patterns[(step / 97 % 5) as usize];
        let dt = 1 + (step * 7_919) % MAX_ADJUSTED_DT;
        car.update_inputs(dt, (step * 131) % 40_000, Some(&held(keys)));
        assert!(car.throttle.abs() <= ACCELERATION);
        assert!(car.turn_angle.abs() <= TURN_RADIUS_SLOW.max(TURN_RADIUS_FAST));
    }
    let mut full = CarState::new();
    for _ in 0..200 {
        full.update_inputs(TICK, 0, Some(&held(&[Key::W])));
    }
    assert_eq!(full.throttle, 119_991);
}

#[test]
fn grounded_count_matches_hits() {
    assert_eq!(count_grounded(&[Some(1.5f32), None, Some(0.2), Some(0.3)]), 3);
    assert_eq!(count_grounded::<u8>(&[None, None, None, None]), 0);
    let mut car = CarState::new();
    car.record_ground_hits(&[Some(()), Some(()), Some(()), Some(())]);
    assert_eq!(car.wheels_grounded, 4);
}

#[test]
fn slipping_rear_wheel_skids_at_speed() {
    let mut car = CarState::new();
    car.throttle = 120_000;
    let (x, y, skid) = car.tire_contact(2, Some(-800_000), 10_000);
    assert_eq!((x, y), (-169_108, 27_902));
    assert!(skid);
    assert!(car.wheels_slipping[2]);
    assert!(!car.wheels_slipping[0]);

    let (_, _, slow_skid) = car.tire_contact(3, Some(-800_000), 1_500);
    assert!(car.wheels_slipping[3]);
    assert!(!slow_skid);

    let (x, y, skid) = car.tire_contact(0, Some(100_000), 10_000);
    assert_eq!((x, y), (100_000, 0));
    assert!(!skid);
    assert!(!car.wheels_slipping[0]);

    assert_eq!(car.tire_contact(2, None, 10_000), (0, 0, false));
    assert!(car.wheels_slipping[2]);
}

#[test]
fn friction_clamp() {
    assert_eq!(clamp_wheel_forces(100_000, 120_000, MAX_FRICTION), (100_000, 120_000));
    assert_eq!(clamp_wheel_forces(0, 200_000, MAX_FRICTION), (0, 188_100));
    assert_eq!(isqrt(0), 0);
    assert_eq!(isqrt(15), 3);
    assert_eq!(isqrt(16), 4);
    assert_eq!(isqrt(u64::MAX), 4_294_967_295);
}

#[test]
fn suspension_spring() {
    assert_eq!(suspension_compression(0), 1_000_000);
    assert_eq!(suspension_compression(PROBE_LENGTH), 0);
    assert_eq!(suspension_compression(PROBE_LENGTH + 5), 0);
    assert_eq!(suspension_compression(309_163), 500_000);
    assert_eq!(suspension_compression_curve(0), 0);
    assert_eq!(suspension_compression_curve(1_000_000), 1_000_000);
    assert_eq!(suspension_compression_curve(250_000), 31_250);
    assert_eq!(spring_impulse(0), 1_800_000);
    assert_eq!(spring_impulse(PROBE_LENGTH), 0);
}

#[test]
fn aero_impulses() {
    assert_eq!(drag_factor(10_000, TICK), 400_000);
    assert_eq!(drag_factor(0, TICK), 0);
    assert_eq!(downforce(1, 10_000, TICK), 170_000);
    assert_eq!(downforce(0, 10_000, TICK), 0);
}

#[test]
fn follow_camera_choices() {
    assert!(use_car_heading(2, 30_000));
    assert!(use_car_heading(0, 499));
    assert!(!use_car_heading(1, 500));
    assert_eq!(camera_distance(None), CAM_EYE_DIST);
    assert_eq!(camera_distance(Some(2_400)), 2_400);
    assert_eq!(camera_distance(Some(9_000)), CAM_EYE_DIST);
}

#[test]
fn debug_camera_intent() {
    let mut cam = DebugCameraController::new();
    let i = cam.intent();
    assert_eq!((i.forward, i.right, i.lift, i.yaw, i.pitch), (0, 0, 0, 0, 0));
    cam.handle_key_event(Key::W, true);
    cam.handle_key_event(Key::A, true);
    cam.handle_key_event(Key::ShiftRight, true);
    cam.handle_key_event(Key::ArrowLeft, true);
    cam.handle_key_event(Key::ArrowDown, true);
    let i = cam.intent();
    assert_eq!((i.forward, i.right, i.lift, i.yaw, i.pitch), (1, -1, -1, 1, -1));
    cam.handle_key_event(Key::S, true);
    cam.handle_key_event(Key::Space, true);
    let i = cam.intent();
    assert_eq!((i.forward, i.lift), (0, 0));
}

#[test]
fn host_toggles() {
    let mut h = HostState::new();
    assert!(h.simulates() && h.car_controls_active());
    assert_eq!(h.handle_key(Key::Escape, true), HostAction::ShowPauseMenu(true));
    assert!(!h.simulates());
    assert_eq!(h.handle_key(Key::Escape, false), HostAction::Nothing);
    assert_eq!(h.handle_key(Key::Escape, true), HostAction::ShowPauseMenu(false));
    assert_eq!(h.handle_key(Key::Tab, true), HostAction::Nothing);
    assert!(!h.car_controls_active());
    assert_eq!(h.handle_key(Key::F1, true), HostAction::ShowDebugText(true));
    assert_eq!(h.handle_focus(false), HostAction::ShowPauseMenu(true));
    assert!(h.paused);
    assert_eq!(h.handle_focus(false), HostAction::Nothing);
    assert_eq!(h.handle_focus(true), HostAction::Nothing);
    assert!(h.paused);
}

#[test]
fn frame_timing() {
    let mut f = FramerateCounter::new(4);
    assert_eq!(f.fps(), Some(10_000));
    assert_eq!(f.tick(500_000), 100_000);
    for _ in 0..4 {
        assert_eq!(f.tick(16_667), 16_667);
    }
    assert_eq!(f.fps(), Some(59_998));
    for _ in 0..4 {
        f.tick(0);
    }
    assert_eq!(f.fps(), None);
    assert_eq!(adjusted_dt(16_667), 1_000_020);
    assert_eq!(adjusted_dt(100_000), 6_000_000);
}

fn words(ws: &[&str]) -> Vec<String> {
    ws.iter().map(|w| w.to_string()).collect()
}

fn vi(i: usize) -> VertIndexes {
    VertIndexes { pos_index: i }
}

#[test]
fn face_records() {
    assert_eq!(parse_faces(&words(&["1", "2", "3"])), Some(vec![[vi(0), vi(1), vi(2)]]));
    assert_eq!(
        parse_faces(&words(&["1/1/1", "2/5/2", "3/3/3", "4/4/4"])),
        Some(vec![[vi(0), vi(1), vi(2)], [vi(0), vi(2), vi(3)]])
    );
    assert_eq!(parse_faces(&words(&[])), Some(vec![]));
    assert_eq!(parse_faces(&words(&["1", "2"])), None);
    assert_eq!(parse_faces(&words(&["1", "2", "x"])), None);
    assert_eq!(parse_faces(&words(&["0", "2", "3"])), None);
    assert_eq!(parse_vertex_ref("12/7"), Some(vi(11)));
    assert_eq!(parse_vertex_ref("4//6"), None);
    assert_eq!(parse_vertex_ref("1/2/3/4"), None);
    assert_eq!(parse_vertex_ref(""), None);
    assert_eq!(parse_vertex_ref("99999999999999999999999"), None);
}

#[test]
fn front_wheels_steer_outside_dead_band() {
    let mut car = CarState::new();
    car.turn_angle = 10_000;
    assert!(!car.steers_wheel(0));
    car.turn_angle = -10_001;
    assert!(car.steers_wheel(0) && car.steers_wheel(1));
    assert!(!car.steers_wheel(2) && !car.steers_wheel(3));
}

#[test]
fn spring_curve_rises_below_diagonal() {
    let mut prev = 0;
    for c in (0..=1_000_000u64).step_by(12_500) {
        let v = suspension_compression_curve(c);
        assert!(v >= prev && v <= c);
        prev = v;
    }
}

#[test]
fn ring_overwrites_oldest_frame() {
    let mut f = FramerateCounter::new(2);
    assert_eq!(f.fps(), Some(10_000));
    f.tick(50_000);
    assert_eq!(f.fps(), Some(13_333));
    f.tick(50_000);
    assert_eq!(f.fps(), Some(20_000));
    f.tick(100_000);
    assert_eq!(f.fps(), Some(13_333));
}

#[test]
fn sticky_slip_lowers_the_limit_after_a_slide() {
    let mut stateless = CarState::new();
    assert_eq!(stateless.slip_model, SlipModel::Stateless);
    stateless.wheels_slipping[0] = true;
    assert_eq!(stateless.tire_contact(0, Some(160_000), 10_000), (160_000, 0, false));
    assert!(!stateless.wheels_slipping[0]);

    let mut sticky = CarState::new();
    sticky.slip_model = SlipModel::Sticky;
    sticky.wheels_slipping[0] = true;
    assert_eq!(sticky.tire_contact(0, Some(160_000), 10_000), (142_500, 0, true));
    assert!(sticky.wheels_slipping[0]);

    let mut fresh = CarState::new();
    fresh.slip_model = SlipModel::Sticky;
    assert_eq!(fresh.tire_contact(0, Some(160_000), 10_000), (160_000, 0, false));
}
