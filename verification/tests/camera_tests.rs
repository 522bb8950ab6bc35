use cgmath::{Deg, Matrix4, Point3, Vector3};
use scene_renderer::camera::{Camera, CameraStaging, CameraUniform};
use scene_renderer::fx::{Fx, SCALE};
use scene_renderer::mat::Mat4;
use scene_renderer::vec3::Vec3;

fn fx(raw: i64) -> Fx {
    Fx { raw }
}

fn units(n: i64) -> Fx {
    Fx { raw: n * SCALE }
}

fn v3(x: i64, y: i64, z: i64) -> Vec3 {
    Vec3 { x: units(x), y: units(y), z: units(z) }
}

fn to_f64(v: Fx) -> f64 {
    v.raw as f64 / SCALE as f64
}

fn mat_to_f64(m: &Mat4) -> [[f64; 4]; 4] {
    [
        [to_f64(m.x.x), to_f64(m.x.y), to_f64(m.x.z), to_f64(m.x.w)],
        [to_f64(m.y.x), to_f64(m.y.y), to_f64(m.y.z), to_f64(m.y.w)],
        [to_f64(m.z.x), to_f64(m.z.y), to_f64(m.z.z), to_f64(m.z.w)],
        [to_f64(m.w.x), to_f64(m.w.y), to_f64(m.w.z), to_f64(m.w.w)],
    ]
}

fn cg_to_f64(m: &Matrix4<f64>) -> [[f64; 4]; 4] {
    [
        [m.x.x, m.x.y, m.x.z, m.x.w],
        [m.y.x, m.y.y, m.y.z, m.y.w],
        [m.z.x, m.z.y, m.z.z, m.z.w],
        [m.w.x, m.w.y, m.w.z, m.w.w],
    ]
}

fn max_abs_diff(a: &[[f64; 4]; 4], b: &[[f64; 4]; 4]) -> f64 {
    let mut worst = 0.0f64;
    for c in 0..4 {
        for r in 0..4 {
            let d = (a[c][r] - b[c][r]).abs();
            if d > worst {
                worst = d;
            }
        }
    }
    worst
}

fn correction_f64() -> Matrix4<f64> {
    Matrix4::new(
        1.0, 0.0, 0.0, 0.0, //
        0.0, 1.0, 0.0, 0.0, //
        0.0, 0.0, 0.5, 0.0, //
        0.0, 0.0, 0.5, 1.0,
    )
}

fn standard_camera() -> Camera {
    let aspect = scene_renderer::frame::aspect_for(1280, 720);
    Camera::new(
        v3(0, 1, 2),
        v3(0, 0, 0),
        Vec3 { x: fx(0), y: fx(SCALE), z: fx(0) },
        aspect,
        units(45),
        fx(6554),
        units(100),
    )
}

fn expected_view_projection(cam: &Camera) -> Matrix4<f64> {
    let eye = Point3::new(to_f64(cam.eye.x), to_f64(cam.eye.y), to_f64(cam.eye.z));
    let target = Point3::new(to_f64(cam.target.x), to_f64(cam.target.y), to_f64(cam.target.z));
    let up = Vector3::new(to_f64(cam.up.x), to_f64(cam.up.y), to_f64(cam.up.z));
    let view = Matrix4::look_at_rh(eye, target, up);
    let proj = cgmath::perspective(
        Deg(to_f64(cam.fovy)),
        to_f64(cam.aspect),
        to_f64(cam.znear),
        to_f64(cam.zfar),
    );
    correction_f64() * proj * view
}

#[test]
fn view_projection_matches_reference() {
    let cam = standard_camera();
    let m = cam.build_view_projection_matrix().expect("transform must exist");
    let got = mat_to_f64(&m);
    let want = cg_to_f64(&expected_view_projection(&cam));
    let diff = max_abs_diff(&got, &want);
    assert!(diff < 0.01, "difference {} too large", diff);
}

#[test]
fn view_projection_composition_order_detectable() {
    let cam = standard_camera();
    let m = cam.build_view_projection_matrix().expect("transform must exist");
    let got = mat_to_f64(&m);

    let eye = Point3::new(0.0, 1.0, 2.0);
    let target = Point3::new(0.0, 0.0, 0.0);
    let up = Vector3::new(0.0, 1.0, 0.0);
    let view = Matrix4::look_at_rh(eye, target, up);
    let proj = cgmath::perspective(
        Deg(45.0),
        to_f64(cam.aspect),
        to_f64(cam.znear),
        to_f64(cam.zfar),
    );

    // Swapping any two factors must be visible.
    let swapped_a = cg_to_f64(&(proj * correction_f64() * view));
    let swapped_b = cg_to_f64(&(correction_f64() * view * proj));
    assert!(max_abs_diff(&got, &swapped_a) > 0.05);
    assert!(max_abs_diff(&got, &swapped_b) > 0.05);
}

#[test]
fn degenerate_camera_has_no_transform() {
    let mut cam = standard_camera();
    cam.target = cam.eye;
    assert!(cam.build_view_projection_matrix().is_none());
}

#[test]
fn on_resize_updates_aspect_only() {
    let mut cam = standard_camera();
    let before = cam;
    let new_aspect = scene_renderer::frame::aspect_for(1920, 1080);
    cam.on_resize(new_aspect);
    assert_eq!(cam.aspect.raw, new_aspect.raw);
    assert_eq!(cam.eye, before.eye);
    assert_eq!(cam.target, before.target);
    assert_eq!(cam.up, before.up);
    assert_eq!(cam.fovy, before.fovy);
    assert_eq!(cam.znear, before.znear);
    assert_eq!(cam.zfar, before.zfar);
}

#[test]
fn fresh_uniform_is_identity() {
    let u = CameraUniform::new();
    let m = mat_to_f64(&u.view_proj);
    for c in 0..4 {
        for r in 0..4 {
            let want = if c == r { 1.0 } else { 0.0 };
            assert_eq!(m[c][r], want);
        }
    }
}

#[test]
fn uniform_update_takes_camera_transform() {
    let cam = standard_camera();
    let mut u = CameraUniform::new();
    assert!(u.update_view_proj(&cam));
    let got = mat_to_f64(&u.view_proj);
    let want = cg_to_f64(&expected_view_projection(&cam));
    assert!(max_abs_diff(&got, &want) < 0.01);
}

#[test]
fn staging_accumulates_by_elapsed_time() {
    let cam = standard_camera();
    let mut st = CameraStaging::new(cam);
    assert_eq!(st.model_rotation.raw, 0);
    // 120 degrees per second for a quarter second each tick.
    let dt = fx(SCALE / 4);
    let rate = units(120);
    st.advance_rotation(dt, rate);
    st.advance_rotation(dt, rate);
    let deg = to_f64(st.model_rotation);
    assert!((deg - 60.0).abs() < 0.01, "accumulated {} degrees", deg);
}

#[test]
fn staging_wraps_after_a_full_turn() {
    let cam = standard_camera();
    let mut st = CameraStaging::new(cam);
    let dt = units(1);
    let rate = units(200);
    st.advance_rotation(dt, rate);
    st.advance_rotation(dt, rate);
    let deg = to_f64(st.model_rotation);
    assert!((deg - 40.0).abs() < 0.01, "wrapped to {} degrees", deg);
}

#[test]
fn staging_post_multiplies_model_rotation() {
    let cam = standard_camera();
    let mut st = CameraStaging::new(cam);
    st.advance_rotation(units(1), units(30));
    let mut u = CameraUniform::new();
    assert!(st.update_camera(&mut u));
    let got = mat_to_f64(&u.view_proj);
    let want = cg_to_f64(
        &(expected_view_projection(&cam) * Matrix4::from_angle_z(Deg(to_f64(st.model_rotation)))),
    );
    assert!(max_abs_diff(&got, &want) < 0.02);
}
