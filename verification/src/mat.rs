//! Column-major 4x4 fixed-point matrices: model transforms, the camera's
//! view-projection and the clip-space correction. Multiplication is exact
//! per `mat_mul_spec`, so the composition order of the render pipeline's
//! matrices is part of every contract that produces one.

use crate::fx::{fx_mul, lemma_fx_mul_mag, Fx, SCALE};
use crate::quat::{q_bounded, Quat, Q_LIM};
use crate::trig::{cos_poly, rad_of_deg, reduce_rad, sin_poly, TRIG_LIM};
use crate::vec3::Vec3;
use vstd::prelude::*;

verus! {

/// Bound required of matrix-product operands.
pub const MAT_IN_LIM: i64 = 0x4_0000_0000;

/// Bound guaranteed of matrix-product results.
pub const MAT_ACC_LIM: i64 = 0x40_0000_0000_0000;

/// Half of one fixed-point unit.
pub const HALF_FX: i64 = 32768;

#[derive(Clone, Copy, Debug, PartialEq, Eq, Structural)]
pub struct Vec4 {
    pub x: Fx,
    pub y: Fx,
    pub z: Fx,
    pub w: Fx,
}

/// A column-major matrix: `x` is the first column.
#[derive(Clone, Copy, Debug, PartialEq, Eq, Structural)]
pub struct Mat4 {
    pub x: Vec4,
    pub y: Vec4,
    pub z: Vec4,
    pub w: Vec4,
}

pub open spec fn v4_bounded(v: Vec4, b: int) -> bool {
    &&& -b <= v.x.raw <= b
    &&& -b <= v.y.raw <= b
    &&& -b <= v.z.raw <= b
    &&& -b <= v.w.raw <= b
}

pub open spec fn m_bounded(m: Mat4, b: int) -> bool {
    &&& v4_bounded(m.x, b)
    &&& v4_bounded(m.y, b)
    &&& v4_bounded(m.z, b)
    &&& v4_bounded(m.w, b)
}

/// The matrix `m` applied to the column vector `v`.
pub open spec fn mv_mul_spec(m: Mat4, v: Vec4) -> Vec4 {
    Vec4 {
        x: Fx {
            raw: (fx_mul(m.x.x.raw as int, v.x.raw as int) + fx_mul(m.y.x.raw as int, v.y.raw as int)
                + fx_mul(m.z.x.raw as int, v.z.raw as int) + fx_mul(
                m.w.x.raw as int,
                v.w.raw as int,
            )) as i64,
        },
        y: Fx {
            raw: (fx_mul(m.x.y.raw as int, v.x.raw as int) + fx_mul(m.y.y.raw as int, v.y.raw as int)
                + fx_mul(m.z.y.raw as int, v.z.raw as int) + fx_mul(
                m.w.y.raw as int,
                v.w.raw as int,
            )) as i64,
        },
        z: Fx {
            raw: (fx_mul(m.x.z.raw as int, v.x.raw as int) + fx_mul(m.y.z.raw as int, v.y.raw as int)
                + fx_mul(m.z.z.raw as int, v.z.raw as int) + fx_mul(
                m.w.z.raw as int,
                v.w.raw as int,
            )) as i64,
        },
        w: Fx {
            raw: (fx_mul(m.x.w.raw as int, v.x.raw as int) + fx_mul(m.y.w.raw as int, v.y.raw as int)
                + fx_mul(m.z.w.raw as int, v.z.raw as int) + fx_mul(
                m.w.w.raw as int,
                v.w.raw as int,
            )) as i64,
        },
    }
}

/// Matrix product, column by column.
pub open spec fn mat_mul_spec(a: Mat4, b: Mat4) -> Mat4 {
    Mat4 {
        x: mv_mul_spec(a, b.x),
        y: mv_mul_spec(a, b.y),
        z: mv_mul_spec(a, b.z),
        w: mv_mul_spec(a, b.w),
    }
}

pub open spec fn mat_identity_spec() -> Mat4 {
    Mat4 {
        x: Vec4 { x: Fx { raw: SCALE }, y: Fx { raw: 0 }, z: Fx { raw: 0 }, w: Fx { raw: 0 } },
        y: Vec4 { x: Fx { raw: 0 }, y: Fx { raw: SCALE }, z: Fx { raw: 0 }, w: Fx { raw: 0 } },
        z: Vec4 { x: Fx { raw: 0 }, y: Fx { raw: 0 }, z: Fx { raw: SCALE }, w: Fx { raw: 0 } },
        w: Vec4 { x: Fx { raw: 0 }, y: Fx { raw: 0 }, z: Fx { raw: 0 }, w: Fx { raw: SCALE } },
    }
}

/// The clip-space correction: depth is remapped from [-1, 1] to [0, 1]; a
/// fixed constant matrix applied as the leftmost factor of the camera
/// transform.
pub open spec fn correction_spec() -> Mat4 {
    Mat4 {
        x: Vec4 { x: Fx { raw: SCALE }, y: Fx { raw: 0 }, z: Fx { raw: 0 }, w: Fx { raw: 0 } },
        y: Vec4 { x: Fx { raw: 0 }, y: Fx { raw: SCALE }, z: Fx { raw: 0 }, w: Fx { raw: 0 } },
        z: Vec4 { x: Fx { raw: 0 }, y: Fx { raw: 0 }, z: Fx { raw: HALF_FX }, w: Fx { raw: 0 } },
        w: Vec4 { x: Fx { raw: 0 }, y: Fx { raw: 0 }, z: Fx { raw: HALF_FX }, w: Fx { raw: SCALE } },
    }
}

/// Translation by `p`: the identity with `p` in the last column.
pub open spec fn translation_spec(p: Vec3) -> Mat4 {
    Mat4 {
        x: Vec4 { x: Fx { raw: SCALE }, y: Fx { raw: 0 }, z: Fx { raw: 0 }, w: Fx { raw: 0 } },
        y: Vec4 { x: Fx { raw: 0 }, y: Fx { raw: SCALE }, z: Fx { raw: 0 }, w: Fx { raw: 0 } },
        z: Vec4 { x: Fx { raw: 0 }, y: Fx { raw: 0 }, z: Fx { raw: SCALE }, w: Fx { raw: 0 } },
        w: Vec4 { x: p.x, y: p.y, z: p.z, w: Fx { raw: SCALE } },
    }
}

/// The rotation matrix of a quaternion.
pub open spec fn rot_mat_spec(q: Quat) -> Mat4 {
    let qx = q.x.raw as int;
    let qy = q.y.raw as int;
    let qz = q.z.raw as int;
    let qw = q.w.raw as int;
    let xx = fx_mul(qx, qx);
    let yy = fx_mul(qy, qy);
    let zz = fx_mul(qz, qz);
    let xy = fx_mul(qx, qy);
    let xz = fx_mul(qx, qz);
    let yz = fx_mul(qy, qz);
    let wx = fx_mul(qw, qx);
    let wy = fx_mul(qw, qy);
    let wz = fx_mul(qw, qz);
    Mat4 {
        x: Vec4 {
            x: Fx { raw: (SCALE - 2 * (yy + zz)) as i64 },
            y: Fx { raw: (2 * (xy + wz)) as i64 },
            z: Fx { raw: (2 * (xz - wy)) as i64 },
            w: Fx { raw: 0 },
        },
        y: Vec4 {
            x: Fx { raw: (2 * (xy - wz)) as i64 },
            y: Fx { raw: (SCALE - 2 * (xx + zz)) as i64 },
            z: Fx { raw: (2 * (yz + wx)) as i64 },
            w: Fx { raw: 0 },
        },
        z: Vec4 {
            x: Fx { raw: (2 * (xz + wy)) as i64 },
            y: Fx { raw: (2 * (yz - wx)) as i64 },
            z: Fx { raw: (SCALE - 2 * (xx + yy)) as i64 },
            w: Fx { raw: 0 },
        },
        w: Vec4 {
            x: Fx { raw: 0 },
            y: Fx { raw: 0 },
            z: Fx { raw: 0 },
            w: Fx { raw: SCALE },
        },
    }
}

/// Rotation about the Z axis by `deg` fixed-point degrees.
pub open spec fn z_rot_mat_spec(deg: int) -> Mat4 {
    let h = rad_of_deg(deg);
    let s = sin_poly(reduce_rad(h));
    let c = cos_poly(reduce_rad(h));
    Mat4 {
        x: Vec4 { x: Fx { raw: c as i64 }, y: Fx { raw: s as i64 }, z: Fx { raw: 0 }, w: Fx { raw: 0 } },
        y: Vec4 {
            x: Fx { raw: (-s) as i64 },
            y: Fx { raw: c as i64 },
            z: Fx { raw: 0 },
            w: Fx { raw: 0 },
        },
        z: Vec4 { x: Fx { raw: 0 }, y: Fx { raw: 0 }, z: Fx { raw: SCALE }, w: Fx { raw: 0 } },
        w: Vec4 { x: Fx { raw: 0 }, y: Fx { raw: 0 }, z: Fx { raw: 0 }, w: Fx { raw: SCALE } },
    }
}

proof fn lemma_mv_term_bounds(b: int)
    requires
        0 < b <= MAT_IN_LIM as int,
    ensures
        forall|p: int, q: int|
            -b <= p <= b && -b <= q <= b ==> -0x10_0000_0000_0000 <= #[trigger] fx_mul(p, q)
                <= 0x10_0000_0000_0000,
{
    assert forall|p: int, q: int| -b <= p <= b && -b <= q <= b implies -0x10_0000_0000_0000
        <= #[trigger] fx_mul(p, q) <= 0x10_0000_0000_0000 by {
        lemma_fx_mul_mag(p, q, MAT_IN_LIM as int, MAT_IN_LIM as int);
    }
}

/// One matrix-vector product, operands bounded by `MAT_IN_LIM`.
fn mv_mul(a: &Mat4, v: Vec4) -> (r: Vec4)
    requires
        m_bounded(*a, MAT_IN_LIM as int),
        v4_bounded(v, MAT_IN_LIM as int),
    ensures
        r == mv_mul_spec(*a, v),
        v4_bounded(r, MAT_ACC_LIM as int),
{
    proof {
        lemma_mv_term_bounds(MAT_IN_LIM as int);
    }
    let x = a.x.x.times(v.x).plus(a.y.x.times(v.y)).plus(a.z.x.times(v.z)).plus(a.w.x.times(v.w));
    let y = a.x.y.times(v.x).plus(a.y.y.times(v.y)).plus(a.z.y.times(v.z)).plus(a.w.y.times(v.w));
    let z = a.x.z.times(v.x).plus(a.y.z.times(v.y)).plus(a.z.z.times(v.z)).plus(a.w.z.times(v.w));
    let w = a.x.w.times(v.x).plus(a.y.w.times(v.y)).plus(a.z.w.times(v.z)).plus(a.w.w.times(v.w));
    Vec4 { x, y, z, w }
}

impl Mat4 {
    pub fn identity() -> (r: Mat4)
        ensures
            r == mat_identity_spec(),
    {
        let zero = Fx { raw: 0 };
        let one = Fx { raw: SCALE };
        Mat4 {
            x: Vec4 { x: one, y: zero, z: zero, w: zero },
            y: Vec4 { x: zero, y: one, z: zero, w: zero },
            z: Vec4 { x: zero, y: zero, z: one, w: zero },
            w: Vec4 { x: zero, y: zero, z: zero, w: one },
        }
    }

    /// The clip-space correction matrix.
    pub fn correction() -> (r: Mat4)
        ensures
            r == correction_spec(),
            m_bounded(r, SCALE as int),
    {
        let zero = Fx { raw: 0 };
        let one = Fx { raw: SCALE };
        let half = Fx { raw: HALF_FX };
        Mat4 {
            x: Vec4 { x: one, y: zero, z: zero, w: zero },
            y: Vec4 { x: zero, y: one, z: zero, w: zero },
            z: Vec4 { x: zero, y: zero, z: half, w: zero },
            w: Vec4 { x: zero, y: zero, z: half, w: one },
        }
    }

    pub fn translation(p: Vec3) -> (r: Mat4)
        ensures
            r == translation_spec(p),
    {
        let zero = Fx { raw: 0 };
        let one = Fx { raw: SCALE };
        Mat4 {
            x: Vec4 { x: one, y: zero, z: zero, w: zero },
            y: Vec4 { x: zero, y: one, z: zero, w: zero },
            z: Vec4 { x: zero, y: zero, z: one, w: zero },
            w: Vec4 { x: p.x, y: p.y, z: p.z, w: one },
        }
    }

    /// Rotation matrix of a bounded quaternion.
    pub fn rotation(q: Quat) -> (r: Mat4)
        requires
            q_bounded(q, Q_LIM as int),
        ensures
            r == rot_mat_spec(q),
            m_bounded(r, 0x8000_0000),
    {
        proof {
            lemma_fx_mul_mag(q.x.raw as int, q.x.raw as int, Q_LIM as int, Q_LIM as int);
            lemma_fx_mul_mag(q.y.raw as int, q.y.raw as int, Q_LIM as int, Q_LIM as int);
            lemma_fx_mul_mag(q.z.raw as int, q.z.raw as int, Q_LIM as int, Q_LIM as int);
            lemma_fx_mul_mag(q.x.raw as int, q.y.raw as int, Q_LIM as int, Q_LIM as int);
            lemma_fx_mul_mag(q.x.raw as int, q.z.raw as int, Q_LIM as int, Q_LIM as int);
            lemma_fx_mul_mag(q.y.raw as int, q.z.raw as int, Q_LIM as int, Q_LIM as int);
            lemma_fx_mul_mag(q.w.raw as int, q.x.raw as int, Q_LIM as int, Q_LIM as int);
            lemma_fx_mul_mag(q.w.raw as int, q.y.raw as int, Q_LIM as int, Q_LIM as int);
            lemma_fx_mul_mag(q.w.raw as int, q.z.raw as int, Q_LIM as int, Q_LIM as int);
        }
        let xx = q.x.times(q.x);
        let yy = q.y.times(q.y);
        let zz = q.z.times(q.z);
        let xy = q.x.times(q.y);
        let xz = q.x.times(q.z);
        let yz = q.y.times(q.z);
        let wx = q.w.times(q.x);
        let wy = q.w.times(q.y);
        let wz = q.w.times(q.z);
        let zero = Fx { raw: 0 };
        let one = Fx { raw: SCALE };
        Mat4 {
            x: Vec4 {
                x: Fx { raw: SCALE - 2 * (yy.raw + zz.raw) },
                y: Fx { raw: 2 * (xy.raw + wz.raw) },
                z: Fx { raw: 2 * (xz.raw - wy.raw) },
                w: zero,
            },
            y: Vec4 {
                x: Fx { raw: 2 * (xy.raw - wz.raw) },
                y: Fx { raw: SCALE - 2 * (xx.raw + zz.raw) },
                z: Fx { raw: 2 * (yz.raw + wx.raw) },
                w: zero,
            },
            z: Vec4 {
                x: Fx { raw: 2 * (xz.raw + wy.raw) },
                y: Fx { raw: 2 * (yz.raw - wx.raw) },
                z: Fx { raw: SCALE - 2 * (xx.raw + yy.raw) },
                w: zero,
            },
            w: Vec4 { x: zero, y: zero, z: zero, w: one },
        }
    }

    /// Rotation about the Z axis, angle in fixed-point degrees.
    pub fn z_rotation(deg: Fx) -> (r: Mat4)
        requires
            -0x1000_0000_0000 <= deg.raw <= 0x1000_0000_0000,
        ensures
            r == z_rot_mat_spec(deg.raw as int),
            m_bounded(r, TRIG_LIM as int),
    {
        let h = crate::trig::deg_to_rad(deg);
        let s = crate::trig::sin_fx(h);
        let c = crate::trig::cos_fx(h);
        let zero = Fx { raw: 0 };
        let one = Fx { raw: SCALE };
        Mat4 {
            x: Vec4 { x: c, y: s, z: zero, w: zero },
            y: Vec4 { x: Fx { raw: -s.raw }, y: c, z: zero, w: zero },
            z: Vec4 { x: zero, y: zero, z: one, w: zero },
            w: Vec4 { x: zero, y: zero, z: zero, w: one },
        }
    }

    /// Matrix product; both operands bounded by `MAT_IN_LIM`.
    pub fn mat_mul(&self, o: &Mat4) -> (r: Mat4)
        requires
            m_bounded(*self, MAT_IN_LIM as int),
            m_bounded(*o, MAT_IN_LIM as int),
        ensures
            r == mat_mul_spec(*self, *o),
            m_bounded(r, MAT_ACC_LIM as int),
    {
        Mat4 {
            x: mv_mul(self, o.x),
            y: mv_mul(self, o.y),
            z: mv_mul(self, o.z),
            w: mv_mul(self, o.w),
        }
    }

    /// Checks that every entry is small enough to be a further product
    /// operand: `Some` exactly when the matrix is bounded by `MAT_IN_LIM`.
    pub fn fitted(self) -> (r: Option<Mat4>)
        ensures
            match r {
                Some(m) => m == self && m_bounded(self, MAT_IN_LIM as int),
                None => !m_bounded(self, MAT_IN_LIM as int),
            },
    {
        if v4_fits(self.x) && v4_fits(self.y) && v4_fits(self.z) && v4_fits(self.w) {
            Some(self)
        } else {
            None
        }
    }
}

fn v4_fits(v: Vec4) -> (r: bool)
    ensures
        r <==> v4_bounded(v, MAT_IN_LIM as int),
{
    -MAT_IN_LIM <= v.x.raw && v.x.raw <= MAT_IN_LIM && -MAT_IN_LIM <= v.y.raw && v.y.raw
        <= MAT_IN_LIM && -MAT_IN_LIM <= v.z.raw && v.z.raw <= MAT_IN_LIM && -MAT_IN_LIM <= v.w.raw
        && v.w.raw <= MAT_IN_LIM
}

} // verus!
