use cgmath::{InnerSpace, Point3, Vector3};
use scene_renderer::camera::Camera;
use scene_renderer::events::{
    event_handler, AppState, Controller, GameState, InputEvent, Key,
};
use scene_renderer::fx::{Fx, SCALE};
use scene_renderer::gameplay::{dt_from_micros, fps_label, GameLogic};
use scene_renderer::vec3::Vec3;

fn units(n: i64) -> Fx {
    Fx { raw: n * SCALE }
}

fn v3u(x: i64, y: i64, z: i64) -> Vec3 {
    Vec3 { x: units(x), y: units(y), z: units(z) }
}

fn to_f64(v: Fx) -> f64 {
    v.raw as f64 / SCALE as f64
}

fn run_events(events: Vec<InputEvent>) -> (Controller, AppState, bool) {
    let mut c = Controller::idle();
    let mut a = AppState { is_running: true, state: GameState::Playing };
    let mut t = false;
    event_handler(&mut c, &mut a, &mut t, &events);
    (c, a, t)
}

#[test]
fn key_down_sets_and_key_up_clears() {
    let (c, a, _) = run_events(vec![
        InputEvent::KeyDown(Key::W),
        InputEvent::KeyDown(Key::A),
        InputEvent::KeyDown(Key::S),
        InputEvent::KeyDown(Key::D),
        InputEvent::KeyUp(Key::A),
    ]);
    assert!(c.forward);
    assert!(c.backwards);
    assert!(!c.left);
    assert!(c.right);
    assert!(a.is_running);
}

#[test]
fn escape_stops_the_loop() {
    let (_, a, _) = run_events(vec![InputEvent::KeyDown(Key::Escape)]);
    assert!(!a.is_running);
}

#[test]
fn quit_stops_the_loop() {
    let (_, a, _) = run_events(vec![InputEvent::Quit]);
    assert!(!a.is_running);
}

#[test]
fn space_toggles_pipeline() {
    let (_, _, t1) = run_events(vec![InputEvent::KeyDown(Key::Space)]);
    assert!(t1);
    let (_, _, t2) = run_events(vec![
        InputEvent::KeyDown(Key::Space),
        InputEvent::KeyDown(Key::Space),
    ]);
    assert!(!t2);
}

#[test]
fn other_keys_change_nothing() {
    let (c, a, t) = run_events(vec![InputEvent::KeyDown(Key::Other), InputEvent::KeyUp(Key::Other)]);
    assert!(!c.forward && !c.backwards && !c.left && !c.right);
    assert!(a.is_running);
    assert!(!t);
}

#[test]
fn delta_time_tracks_the_clock() {
    let mut g = GameLogic::new(1_000_000, units(5));
    let dt = g.delta_time(1_016_000);
    assert_eq!(dt, 16_000);
    assert_eq!(g.last_frame_micros, 1_016_000);
    let dt2 = g.delta_time(1_050_000);
    assert_eq!(dt2, 34_000);
}

#[test]
fn framerate_publishes_once_a_second() {
    let mut g = GameLogic::new(0, units(5));
    for _ in 0..59 {
        g.display_framerate(16_000);
    }
    // 59 frames, 944000 microseconds: not yet a second.
    assert_eq!(g.fps, 0);
    assert_eq!(g.frame_count, 59);
    g.display_framerate(60_000);
    // Second boundary crossed at frame 60; remainder carried over.
    assert_eq!(g.fps, 60);
    assert_eq!(g.frame_count, 0);
    assert_eq!(g.frame_timer_micros, 4_000);
}

#[test]
fn fps_label_spells_the_number() {
    assert_eq!(fps_label(0), b"FPS: 0".to_vec());
    assert_eq!(fps_label(7), b"FPS: 7".to_vec());
    assert_eq!(fps_label(60), b"FPS: 60".to_vec());
    assert_eq!(fps_label(1234), b"FPS: 1234".to_vec());
}

#[test]
fn dt_conversion_is_exact_truncation() {
    let r = dt_from_micros(16_667);
    assert_eq!(r.raw, (16_667u64 * SCALE as u64 / 1_000_000) as i64);
    assert_eq!(dt_from_micros(0).raw, 0);
    assert_eq!(dt_from_micros(1_000_000).raw, SCALE);
}

fn movement_camera() -> Camera {
    Camera::new(
        v3u(0, 0, 10),
        v3u(0, 0, 0),
        v3u(0, 1, 0),
        units(1),
        units(45),
        Fx { raw: 6554 },
        units(100),
    )
}

#[test]
fn forward_moves_eye_toward_target() {
    let mut g = GameLogic::new(0, units(5));
    g.controller.forward = true;
    let mut cam = movement_camera();
    let dt = Fx { raw: SCALE / 10 };
    g.update(&mut cam, dt);
    // Half a unit along -z: speed 5 for a tenth of a second.
    let z = to_f64(cam.eye.z);
    assert!((z - 9.5).abs() < 0.01, "eye z moved to {}", z);
    assert_eq!(cam.eye.x.raw, 0);
    assert_eq!(cam.eye.y.raw, 0);
    assert_eq!(cam.target, movement_camera().target);
}

#[test]
fn forward_blocked_near_target() {
    let mut g = GameLogic::new(0, units(5));
    g.controller.forward = true;
    let mut cam = movement_camera();
    cam.eye = v3u(0, 0, 3);
    let before = cam.eye;
    // Distance 3 is not greater than the speed 5: the eye must not move.
    g.update(&mut cam, Fx { raw: SCALE / 10 });
    assert_eq!(cam.eye, before);
}

#[test]
fn backwards_moves_eye_away() {
    let mut g = GameLogic::new(0, units(5));
    g.controller.backwards = true;
    let mut cam = movement_camera();
    g.update(&mut cam, Fx { raw: SCALE / 10 });
    let z = to_f64(cam.eye.z);
    assert!((z - 10.5).abs() < 0.01, "eye z moved to {}", z);
}

#[test]
fn right_swings_eye_on_its_circle() {
    let mut g = GameLogic::new(0, units(5));
    g.controller.right = true;
    let mut cam = movement_camera();
    g.update(&mut cam, Fx { raw: SCALE / 10 });
    let eye = Vector3::new(to_f64(cam.eye.x), to_f64(cam.eye.y), to_f64(cam.eye.z));
    // The radius about the target is kept.
    assert!((eye.magnitude() - 10.0).abs() < 0.02, "radius {}", eye.magnitude());
    // The eye moved sideways: the camera orbits.
    assert!(eye.x.abs() > 0.3, "eye x {}", eye.x);

    // Against the reference formula.
    let target = Point3::new(0.0f64, 0.0, 0.0);
    let eye0 = Point3::new(0.0f64, 0.0, 10.0);
    let fwd = target - eye0;
    let fnorm = fwd.normalize();
    let right = fnorm.cross(Vector3::new(0.0, 1.0, 0.0));
    let step = 0.5f64;
    let want = target - (fwd + right * step).normalize() * fwd.magnitude();
    assert!((eye.x - want.x).abs() < 0.02);
    assert!((eye.z - want.z).abs() < 0.02);
}

#[test]
fn no_keys_no_motion() {
    let g = GameLogic::new(0, units(5));
    let mut cam = movement_camera();
    let before = cam.eye;
    g.update(&mut cam, Fx { raw: SCALE / 10 });
    assert_eq!(cam.eye, before);
}
