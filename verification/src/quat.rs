//! Unit-style quaternions over fixed point. An instance's orientation is a
//! quaternion; per-frame spin left-multiplies it by an incremental rotation
//! about the Y axis. The Hamilton product is computed exactly as stated by
//! `quat_mul_spec`; components are kept inside `Q_LIM` by an explicit clamp
//! whose effect is part of the contract.

use crate::fx::{fx_mul, lemma_fx_mul_mag, lemma_fx_mul_unit, lemma_fx_mul_zero, tz_div, Fx, SCALE};
use crate::trig::{cos_poly, rad_of_deg, reduce_rad, sin_poly, TRIG_LIM};
use crate::vec3::{v3_bounded, Vec3};
use vstd::prelude::*;

verus! {

/// Magnitude bound kept on quaternion components.
pub const Q_LIM: i64 = 0x40_0000;

#[derive(Clone, Copy, Debug, PartialEq, Eq, Structural)]
pub struct Quat {
    pub x: Fx,
    pub y: Fx,
    pub z: Fx,
    pub w: Fx,
}

pub open spec fn q_bounded(q: Quat, b: int) -> bool {
    &&& -b <= q.x.raw <= b
    &&& -b <= q.y.raw <= b
    &&& -b <= q.z.raw <= b
    &&& -b <= q.w.raw <= b
}

pub open spec fn quat_identity() -> Quat {
    Quat { x: Fx { raw: 0 }, y: Fx { raw: 0 }, z: Fx { raw: 0 }, w: Fx { raw: SCALE } }
}

/// The Hamilton product in fixed point.
pub open spec fn quat_mul_spec(a: Quat, b: Quat) -> Quat {
    let ax = a.x.raw as int;
    let ay = a.y.raw as int;
    let az = a.z.raw as int;
    let aw = a.w.raw as int;
    let bx = b.x.raw as int;
    let by = b.y.raw as int;
    let bz = b.z.raw as int;
    let bw = b.w.raw as int;
    Quat {
        x: Fx { raw: (fx_mul(aw, bx) + fx_mul(ax, bw) + fx_mul(ay, bz) - fx_mul(az, by)) as i64 },
        y: Fx { raw: (fx_mul(aw, by) - fx_mul(ax, bz) + fx_mul(ay, bw) + fx_mul(az, bx)) as i64 },
        z: Fx { raw: (fx_mul(aw, bz) + fx_mul(ax, by) - fx_mul(ay, bx) + fx_mul(az, bw)) as i64 },
        w: Fx { raw: (fx_mul(aw, bw) - fx_mul(ax, bx) - fx_mul(ay, by) - fx_mul(az, bz)) as i64 },
    }
}

/// Clamp a raw component to `[-Q_LIM, Q_LIM]`.
pub open spec fn clamp_raw(v: int) -> int {
    if v > Q_LIM {
        Q_LIM as int
    } else if v < -Q_LIM {
        -Q_LIM as int
    } else {
        v
    }
}

pub open spec fn clamp_quat_spec(q: Quat) -> Quat {
    Quat {
        x: Fx { raw: clamp_raw(q.x.raw as int) as i64 },
        y: Fx { raw: clamp_raw(q.y.raw as int) as i64 },
        z: Fx { raw: clamp_raw(q.z.raw as int) as i64 },
        w: Fx { raw: clamp_raw(q.w.raw as int) as i64 },
    }
}

/// The quaternion for a rotation of `deg` fixed-point degrees about `axis`:
/// the axis scaled by the sine of the half angle, with the cosine as the
/// scalar part.
pub open spec fn quat_from_axis_deg(axis: Vec3, deg: int) -> Quat {
    let half = tz_div(deg, 2);
    let h = rad_of_deg(half);
    let s = sin_poly(reduce_rad(h));
    let c = cos_poly(reduce_rad(h));
    Quat {
        x: Fx { raw: fx_mul(axis.x.raw as int, s) as i64 },
        y: Fx { raw: fx_mul(axis.y.raw as int, s) as i64 },
        z: Fx { raw: fx_mul(axis.z.raw as int, s) as i64 },
        w: Fx { raw: c as i64 },
    }
}

/// The incremental rotation about the Y axis.
pub open spec fn y_rotation_spec(deg: int) -> Quat {
    quat_from_axis_deg(unit_y_v(), deg)
}

pub open spec fn unit_y_v() -> Vec3 {
    Vec3 { x: Fx { raw: 0 }, y: Fx { raw: SCALE }, z: Fx { raw: 0 } }
}

impl Quat {
    pub fn identity() -> (r: Quat)
        ensures
            r == quat_identity(),
    {
        Quat { x: Fx { raw: 0 }, y: Fx { raw: 0 }, z: Fx { raw: 0 }, w: Fx { raw: SCALE } }
    }

    /// Hamilton product of two bounded quaternions.
    pub fn mul_quat(self, o: Quat) -> (r: Quat)
        requires
            q_bounded(self, Q_LIM as int),
            q_bounded(o, Q_LIM as int),
        ensures
            r == quat_mul_spec(self, o),
            q_bounded(r, 0x1_0000_0000),
    {
        proof {
            lemma_quat_term_bounds(self, o);
        }
        let x = self.w.times(o.x).plus(self.x.times(o.w)).plus(self.y.times(o.z)).minus(
            self.z.times(o.y),
        );
        let y = self.w.times(o.y).minus(self.x.times(o.z)).plus(self.y.times(o.w)).plus(
            self.z.times(o.x),
        );
        let z = self.w.times(o.z).plus(self.x.times(o.y)).minus(self.y.times(o.x)).plus(
            self.z.times(o.w),
        );
        let w = self.w.times(o.w).minus(self.x.times(o.x)).minus(self.y.times(o.y)).minus(
            self.z.times(o.z),
        );
        Quat { x, y, z, w }
    }

    /// Componentwise clamp to `Q_LIM`.
    pub fn clamped(self) -> (r: Quat)
        ensures
            r == clamp_quat_spec(self),
            q_bounded(r, Q_LIM as int),
    {
        Quat {
            x: clamp_fx(self.x),
            y: clamp_fx(self.y),
            z: clamp_fx(self.z),
            w: clamp_fx(self.w),
        }
    }

    /// Quaternion for a rotation about a unit axis, angle in fixed-point
    /// degrees.
    pub fn from_axis_angle(axis: Vec3, deg: Fx) -> (r: Quat)
        requires
            v3_bounded(axis, SCALE as int),
            -0x1000_0000_0000 <= deg.raw <= 0x1000_0000_0000,
        ensures
            r == quat_from_axis_deg(axis, deg.raw as int),
            q_bounded(r, Q_LIM as int),
    {
        let half = deg.div_trunc(2);
        let h = crate::trig::deg_to_rad(half);
        let s = crate::trig::sin_fx(h);
        let c = crate::trig::cos_fx(h);
        proof {
            lemma_fx_mul_mag(axis.x.raw as int, s.raw as int, SCALE as int, TRIG_LIM as int);
            lemma_fx_mul_mag(axis.y.raw as int, s.raw as int, SCALE as int, TRIG_LIM as int);
            lemma_fx_mul_mag(axis.z.raw as int, s.raw as int, SCALE as int, TRIG_LIM as int);
        }
        Quat { x: axis.x.times(s), y: axis.y.times(s), z: axis.z.times(s), w: c }
    }

    /// The incremental per-tick rotation about the Y axis.
    pub fn y_rotation(deg: Fx) -> (r: Quat)
        requires
            -0x1000_0000_0000 <= deg.raw <= 0x1000_0000_0000,
        ensures
            r == y_rotation_spec(deg.raw as int),
            q_bounded(r, Q_LIM as int),
    {
        let axis = Vec3::unit_y();
        proof {
            assert(axis == unit_y_v());
        }
        Quat::from_axis_angle(axis, deg)
    }
}

fn clamp_fx(v: Fx) -> (r: Fx)
    ensures
        r.raw == clamp_raw(v.raw as int),
        -Q_LIM <= r.raw <= Q_LIM,
{
    if v.raw > Q_LIM {
        Fx { raw: Q_LIM }
    } else if v.raw < -Q_LIM {
        Fx { raw: -Q_LIM }
    } else {
        v
    }
}

proof fn lemma_quat_term_bounds(a: Quat, b: Quat)
    requires
        q_bounded(a, Q_LIM as int),
        q_bounded(b, Q_LIM as int),
    ensures
        forall|p: int, q: int|
            -(Q_LIM as int) <= p <= Q_LIM as int && -(Q_LIM as int) <= q <= Q_LIM as int
                ==> -0x1000_0000 <= #[trigger] fx_mul(p, q) <= 0x1000_0000,
{
    assert forall|p: int, q: int|
        -(Q_LIM as int) <= p <= Q_LIM as int && -(Q_LIM as int) <= q <= Q_LIM as int
            implies -0x1000_0000 <= #[trigger] fx_mul(p, q) <= 0x1000_0000 by {
        lemma_fx_mul_mag(p, q, Q_LIM as int, Q_LIM as int);
    }
}

/// Left-multiplying by the identity quaternion changes nothing.
pub proof fn lemma_quat_identity_left(q: Quat)
    ensures
        quat_mul_spec(quat_identity(), q) == q,
{
    lemma_fx_mul_unit(q.x.raw as int);
    lemma_fx_mul_unit(q.y.raw as int);
    lemma_fx_mul_unit(q.z.raw as int);
    lemma_fx_mul_unit(q.w.raw as int);
    lemma_fx_mul_zero(q.x.raw as int);
    lemma_fx_mul_zero(q.y.raw as int);
    lemma_fx_mul_zero(q.z.raw as int);
    lemma_fx_mul_zero(q.w.raw as int);
}

/// A rotation about the Y axis has nothing off that axis: its vector part
/// is the half-angle sine on y alone, its scalar part the half-angle
/// cosine.
pub proof fn lemma_y_rotation_components(a: int)
    ensures
        ({
            let h = reduce_rad(rad_of_deg(tz_div(a, 2)));
            let q = y_rotation_spec(a);
            &&& q.x.raw == 0
            &&& q.z.raw == 0
            &&& q.y.raw == sin_poly(h)
            &&& q.w.raw == cos_poly(h)
        }),
{
    let h = reduce_rad(rad_of_deg(tz_div(a, 2)));
    crate::trig::lemma_reduce_rad_bounds(rad_of_deg(tz_div(a, 2)));
    crate::trig::lemma_sin_poly_bound(h);
    crate::trig::lemma_cos_poly_bound(h);
    lemma_fx_mul_zero(sin_poly(h));
    lemma_fx_mul_unit(sin_poly(h));
}

/// Composing two rotations about the Y axis yields a rotation still about
/// the Y axis, whose sine and cosine parts are the fixed-point
/// angle-addition forms of the two half-angle sines and cosines. This is
/// the exact content behind frame-rate independence: equality with the
/// single rotation of the summed angle holds only up to fixed-point
/// truncation, so the half-step-versus-full-step comparison is a tolerance
/// check, not an identity.
pub proof fn lemma_y_rotation_compose(a: int, b: int)
    ensures
        ({
            let qa = y_rotation_spec(a);
            let qb = y_rotation_spec(b);
            let q = quat_mul_spec(qa, qb);
            &&& q.x.raw == 0
            &&& q.z.raw == 0
            &&& q.y.raw == fx_mul(qa.w.raw as int, qb.y.raw as int) + fx_mul(
                qa.y.raw as int,
                qb.w.raw as int,
            )
            &&& q.w.raw == fx_mul(qa.w.raw as int, qb.w.raw as int) - fx_mul(
                qa.y.raw as int,
                qb.y.raw as int,
            )
        }),
{
    lemma_y_rotation_components(a);
    lemma_y_rotation_components(b);
    let qa = y_rotation_spec(a);
    let qb = y_rotation_spec(b);
    lemma_fx_mul_zero(qa.w.raw as int);
    lemma_fx_mul_zero(qa.y.raw as int);
    lemma_fx_mul_zero(qb.w.raw as int);
    lemma_fx_mul_zero(qb.y.raw as int);
    lemma_fx_mul_zero(0);
    let ha = reduce_rad(rad_of_deg(tz_div(a, 2)));
    let hb = reduce_rad(rad_of_deg(tz_div(b, 2)));
    crate::trig::lemma_reduce_rad_bounds(rad_of_deg(tz_div(a, 2)));
    crate::trig::lemma_reduce_rad_bounds(rad_of_deg(tz_div(b, 2)));
    crate::trig::lemma_sin_poly_bound(ha);
    crate::trig::lemma_cos_poly_bound(ha);
    crate::trig::lemma_sin_poly_bound(hb);
    crate::trig::lemma_cos_poly_bound(hb);
    lemma_fx_mul_mag(qa.w.raw as int, qb.y.raw as int, TRIG_LIM as int, TRIG_LIM as int);
    lemma_fx_mul_mag(qa.y.raw as int, qb.w.raw as int, TRIG_LIM as int, TRIG_LIM as int);
    lemma_fx_mul_mag(qa.w.raw as int, qb.w.raw as int, TRIG_LIM as int, TRIG_LIM as int);
    lemma_fx_mul_mag(qa.y.raw as int, qb.y.raw as int, TRIG_LIM as int, TRIG_LIM as int);
}

/// A clamp is the identity on a quaternion already inside the bound.
pub proof fn lemma_clamp_within(q: Quat)
    requires
        q_bounded(q, Q_LIM as int),
    ensures
        clamp_quat_spec(q) == q,
{
}

} // verus!
