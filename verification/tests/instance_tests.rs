use cgmath::{Deg, InnerSpace, Matrix4, Quaternion, Rotation3, Vector3};
use scene_renderer::fx::{Fx, SCALE};
use scene_renderer::instance::{InstanceRaw, InstanceSet};
use scene_renderer::quat::Quat;

fn fxv(raw: i64) -> Fx {
    Fx { raw }
}

fn units(n: i64) -> Fx {
    Fx { raw: n * SCALE }
}

fn to_f64(v: Fx) -> f64 {
    v.raw as f64 / SCALE as f64
}

fn quat_diff(a: &Quaternion<f64>, b: &Quaternion<f64>) -> f64 {
    let d1 = (a.v.x - b.v.x).abs().max((a.v.y - b.v.y).abs()).max((a.v.z - b.v.z).abs()).max(
        (a.s - b.s).abs(),
    );
    // A quaternion and its negation are the same rotation.
    let d2 = (a.v.x + b.v.x).abs().max((a.v.y + b.v.y).abs()).max((a.v.z + b.v.z).abs()).max(
        (a.s + b.s).abs(),
    );
    d1.min(d2)
}

fn rot_of(set: &InstanceSet, i: usize) -> Quaternion<f64> {
    let q = set.get(i).rotation;
    Quaternion::new(to_f64(q.w), to_f64(q.x), to_f64(q.y), to_f64(q.z))
}

fn pos_of(set: &InstanceSet, i: usize) -> Vector3<f64> {
    let p = set.get(i).position;
    Vector3::new(to_f64(p.x), to_f64(p.y), to_f64(p.z))
}

#[test]
fn grid_is_deterministic_bitwise() {
    let a = InstanceSet::generate_grid(10, 10, units(1));
    let b = InstanceSet::generate_grid(10, 10, units(1));
    let pa: Vec<InstanceRaw> = a.packed();
    let pb: Vec<InstanceRaw> = b.packed();
    assert_eq!(pa.len(), 100);
    assert_eq!(pa, pb);
}

#[test]
fn grid_has_expected_lattice_positions() {
    let set = InstanceSet::generate_grid(10, 10, units(1));
    assert_eq!(set.len(), 100);
    // Index 23: row 2, column 3; displaced by half the 10-unit extent.
    let p = set.get(23).position;
    assert_eq!(p.x.raw, (3 - 5) * SCALE);
    assert_eq!(p.y.raw, 0);
    assert_eq!(p.z.raw, (2 - 5) * SCALE);
}

#[test]
fn origin_instance_gets_identity_rotation() {
    let set = InstanceSet::generate_grid(10, 10, units(1));
    // Row 5, column 5 lands exactly on the origin.
    let i = 5 * 10 + 5;
    let p = set.get(i).position;
    assert_eq!(p.x.raw, 0);
    assert_eq!(p.y.raw, 0);
    assert_eq!(p.z.raw, 0);
    let q = set.get(i).rotation;
    assert_eq!(q.x.raw, 0);
    assert_eq!(q.y.raw, 0);
    assert_eq!(q.z.raw, 0);
    assert_eq!(q.w.raw, SCALE);
}

#[test]
fn off_origin_rotation_axis_is_normalized_position() {
    let set = InstanceSet::generate_grid(10, 10, units(1));
    for &i in &[0usize, 7, 42, 99] {
        let p = pos_of(&set, i);
        if p.magnitude() == 0.0 {
            continue;
        }
        let want = Quaternion::from_axis_angle(p.normalize(), Deg(45.0));
        let got = rot_of(&set, i);
        assert!(quat_diff(&got, &want) < 0.005, "instance {} differs", i);
    }
}

#[test]
fn tick_with_zero_dt_is_noop() {
    let mut set = InstanceSet::generate_grid(10, 10, units(1));
    let before = set.packed();
    set.tick(fxv(0), units(10));
    let after = set.packed();
    assert_eq!(before, after);
}

#[test]
fn tick_preserves_positions_and_order() {
    let mut set = InstanceSet::generate_grid(4, 4, units(2));
    let before: Vec<Vector3<f64>> = (0..16).map(|i| pos_of(&set, i)).collect();
    for _ in 0..10 {
        set.tick(fxv(SCALE / 60), units(30));
    }
    for i in 0..16 {
        let after = pos_of(&set, i);
        assert_eq!(before[i], after);
    }
}

#[test]
fn two_half_ticks_approximate_one_full_tick() {
    let mut half = InstanceSet::generate_grid(10, 10, units(1));
    let mut full = InstanceSet::generate_grid(10, 10, units(1));
    let dt_half = fxv(546);
    let dt_full = fxv(1092);
    let rate = units(10);
    half.tick(dt_half, rate);
    half.tick(dt_half, rate);
    full.tick(dt_full, rate);
    for i in 0..100 {
        let a = rot_of(&half, i);
        let b = rot_of(&full, i);
        assert!(quat_diff(&a, &b) < 0.005, "instance {} differs", i);
    }
}

#[test]
fn sixty_ticks_accumulate_ten_degrees() {
    let mut set = InstanceSet::generate_grid(10, 10, units(1));
    let start = InstanceSet::generate_grid(10, 10, units(1));
    let dt = fxv(1092);  // about one sixtieth of a second
    let rate = units(10);  // degrees per second
    for _ in 0..60 {
        set.tick(dt, rate);
    }
    let total_deg = 10.0 * 60.0 * (1092.0 / SCALE as f64);
    for i in 0..100 {
        let p = pos_of(&set, i);
        if p.magnitude() == 0.0 {
            continue;
        }
        let want = Quaternion::from_angle_y(Deg(total_deg)) * rot_of(&start, i);
        let got = rot_of(&set, i);
        assert!(quat_diff(&got, &want) < 0.01, "instance {} differs", i);
    }
    assert!((total_deg - 10.0).abs() < 0.01);
}

#[test]
fn packed_matrix_is_translation_times_rotation() {
    let set = InstanceSet::generate_grid(3, 3, units(2));
    let packed = set.packed();
    assert_eq!(packed.len(), 9);
    for i in 0..9 {
        let p = pos_of(&set, i);
        let q = rot_of(&set, i);
        let want = Matrix4::from_translation(p) * Matrix4::from(q.normalize());
        let m = &packed[i].model;
        let got = [
            [to_f64(m.x.x), to_f64(m.x.y), to_f64(m.x.z), to_f64(m.x.w)],
            [to_f64(m.y.x), to_f64(m.y.y), to_f64(m.y.z), to_f64(m.y.w)],
            [to_f64(m.z.x), to_f64(m.z.y), to_f64(m.z.z), to_f64(m.z.w)],
            [to_f64(m.w.x), to_f64(m.w.y), to_f64(m.w.z), to_f64(m.w.w)],
        ];
        let wantc = [
            [want.x.x, want.x.y, want.x.z, want.x.w],
            [want.y.x, want.y.y, want.y.z, want.y.w],
            [want.z.x, want.z.y, want.z.z, want.z.w],
            [want.w.x, want.w.y, want.w.z, want.w.w],
        ];
        for c in 0..4 {
            for r in 0..4 {
                assert!(
                    (got[c][r] - wantc[c][r]).abs() < 0.01,
                    "instance {} entry ({}, {}) differs: {} vs {}",
                    i,
                    c,
                    r,
                    got[c][r],
                    wantc[c][r]
                );
            }
        }
    }
}

#[test]
fn composed_y_rotations_stay_about_y() {
    let a = Quat::y_rotation(units(20));
    let b = Quat::y_rotation(units(25));
    let q = a.mul_quat(b);
    // Nothing leaks off the Y axis, exactly.
    assert_eq!(q.x.raw, 0);
    assert_eq!(q.z.raw, 0);
    // And the angles add, within fixed-point tolerance.
    let want = Quaternion::from_angle_y(Deg(45.0));
    let got = Quaternion::new(to_f64(q.w), to_f64(q.x), to_f64(q.y), to_f64(q.z));
    assert!(quat_diff(&got, &want) < 0.001);
}

#[test]
fn grids_of_different_spacing_differ() {
    let a = InstanceSet::generate_grid(4, 4, units(1));
    let b = InstanceSet::generate_grid(4, 4, units(2));
    assert_ne!(a.packed(), b.packed());
}
