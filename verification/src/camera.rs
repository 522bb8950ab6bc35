//! The camera: eye, look-at target, up vector, field of view, aspect ratio
//! and clip planes. Its view-projection matrix is the clip-space correction
//! times the perspective projection times the view transform, in exactly
//! that order; a rotating-rig decorator post-multiplies an extra Z rotation
//! that accumulates by a rate scaled with elapsed time.

use crate::fx::{fx_div, fx_div_ok, fx_mul, lemma_fx_mul_mag, tz_div, Fx, SCALE};
use crate::instance::tick_angle;
use crate::mat::{
    correction_spec, m_bounded, mat_identity_spec, mat_mul_spec, z_rot_mat_spec, Mat4, Vec4,
    MAT_IN_LIM,
};
use crate::trig::{cos_poly, rad_of_deg, reduce_rad, sin_poly, TRIG_LIM};
use crate::vec3::{
    cross_spec, dot_spec, normalize_spec, v3_bounded, v3_sub_spec, Vec3,
};
use vstd::prelude::*;

verus! {

/// Magnitude bound on camera parameters.
pub const CAM_LIM: i64 = 0x400_0000;

/// One full turn, 360 fixed-point degrees.
pub const FULL_TURN_FX: i64 = 23592960;

#[derive(Clone, Copy, Debug, PartialEq, Eq, Structural)]
pub struct Camera {
    pub eye: Vec3,
    pub target: Vec3,
    pub up: Vec3,
    pub aspect: Fx,
    pub fovy: Fx,
    pub znear: Fx,
    pub zfar: Fx,
}

/// Camera parameters are bounded, the aspect ratio and field of view are
/// positive, and the clip planes satisfy far > near > 0.
pub open spec fn cam_wf(c: Camera) -> bool {
    &&& v3_bounded(c.eye, CAM_LIM as int)
    &&& v3_bounded(c.target, CAM_LIM as int)
    &&& v3_bounded(c.up, CAM_LIM as int)
    &&& 0 < c.aspect.raw <= CAM_LIM
    &&& 0 < c.fovy.raw <= CAM_LIM
    &&& 0 < c.znear.raw
    &&& c.znear.raw < c.zfar.raw
    &&& c.zfar.raw <= CAM_LIM
}

/// The view transform exists: looking direction and side vector are both
/// nonzero.
pub open spec fn look_ok(eye: Vec3, target: Vec3, up: Vec3) -> bool {
    let fwd = v3_sub_spec(target, eye);
    let f = normalize_spec(fwd);
    let sc = cross_spec(f, up);
    &&& !(fwd.x.raw == 0 && fwd.y.raw == 0 && fwd.z.raw == 0)
    &&& !(sc.x.raw == 0 && sc.y.raw == 0 && sc.z.raw == 0)
}

/// The right-handed look-at matrix: the orthogonal-ish basis (side, up,
/// -forward) as rows, with the eye projected onto it as translation.
pub open spec fn look_at_spec(eye: Vec3, target: Vec3, up: Vec3) -> Mat4 {
    let fwd = v3_sub_spec(target, eye);
    let f = normalize_spec(fwd);
    let s = normalize_spec(cross_spec(f, up));
    let u = cross_spec(s, f);
    Mat4 {
        x: Vec4 {
            x: s.x,
            y: u.x,
            z: Fx { raw: (-(f.x.raw as int)) as i64 },
            w: Fx { raw: 0 },
        },
        y: Vec4 {
            x: s.y,
            y: u.y,
            z: Fx { raw: (-(f.y.raw as int)) as i64 },
            w: Fx { raw: 0 },
        },
        z: Vec4 {
            x: s.z,
            y: u.z,
            z: Fx { raw: (-(f.z.raw as int)) as i64 },
            w: Fx { raw: 0 },
        },
        w: Vec4 {
            x: Fx { raw: (-dot_spec(s, eye)) as i64 },
            y: Fx { raw: (-dot_spec(u, eye)) as i64 },
            z: Fx { raw: dot_spec(f, eye) as i64 },
            w: Fx { raw: SCALE },
        },
    }
}

/// All four fixed-point divisions of the perspective matrix succeed.
pub open spec fn persp_ok(fovy: int, aspect: int, znear: int, zfar: int) -> bool {
    let h = rad_of_deg(tz_div(fovy, 2));
    let s = sin_poly(reduce_rad(h));
    let c = cos_poly(reduce_rad(h));
    let f = fx_div(c, s);
    &&& fx_div_ok(c, s)
    &&& fx_div_ok(f, aspect)
    &&& fx_div_ok(zfar + znear, znear - zfar)
    &&& fx_div_ok(2 * fx_mul(zfar, znear), znear - zfar)
}

/// The perspective projection: f = cot(fovy / 2) over the aspect ratio in
/// the first column, the depth mapping of [znear, zfar] in the third and
/// fourth.
pub open spec fn persp_spec(fovy: int, aspect: int, znear: int, zfar: int) -> Mat4 {
    let h = rad_of_deg(tz_div(fovy, 2));
    let s = sin_poly(reduce_rad(h));
    let c = cos_poly(reduce_rad(h));
    let f = fx_div(c, s);
    let fa = fx_div(f, aspect);
    let a = fx_div(zfar + znear, znear - zfar);
    let b = fx_div(2 * fx_mul(zfar, znear), znear - zfar);
    Mat4 {
        x: Vec4 { x: Fx { raw: fa as i64 }, y: Fx { raw: 0 }, z: Fx { raw: 0 }, w: Fx { raw: 0 } },
        y: Vec4 { x: Fx { raw: 0 }, y: Fx { raw: f as i64 }, z: Fx { raw: 0 }, w: Fx { raw: 0 } },
        z: Vec4 {
            x: Fx { raw: 0 },
            y: Fx { raw: 0 },
            z: Fx { raw: a as i64 },
            w: Fx { raw: (-(SCALE as int)) as i64 },
        },
        w: Vec4 { x: Fx { raw: 0 }, y: Fx { raw: 0 }, z: Fx { raw: b as i64 }, w: Fx { raw: 0 } },
    }
}

/// The full camera transform exists: view and projection exist and their
/// product is small enough to take the correction factor.
pub open spec fn vp_ok(c: Camera) -> bool {
    &&& look_ok(c.eye, c.target, c.up)
    &&& persp_ok(c.fovy.raw as int, c.aspect.raw as int, c.znear.raw as int, c.zfar.raw as int)
    &&& m_bounded(
        mat_mul_spec(
            persp_spec(c.fovy.raw as int, c.aspect.raw as int, c.znear.raw as int, c.zfar.raw as int),
            look_at_spec(c.eye, c.target, c.up),
        ),
        MAT_IN_LIM as int,
    )
}

/// The view-projection matrix: correction * projection * view.
pub open spec fn vp_spec(c: Camera) -> Mat4 {
    mat_mul_spec(
        correction_spec(),
        mat_mul_spec(
            persp_spec(c.fovy.raw as int, c.aspect.raw as int, c.znear.raw as int, c.zfar.raw as int),
            look_at_spec(c.eye, c.target, c.up),
        ),
    )
}

impl Camera {
    pub fn new(eye: Vec3, target: Vec3, up: Vec3, aspect: Fx, fovy: Fx, znear: Fx, zfar: Fx) -> (r:
        Camera)
        ensures
            r.eye == eye && r.target == target && r.up == up && r.aspect == aspect && r.fovy
                == fovy && r.znear == znear && r.zfar == zfar,
    {
        Camera { eye, target, up, aspect, fovy, znear, zfar }
    }

    /// Whether the parameters lie inside the modelled ranges, so that the
    /// transform functions accept this camera.
    pub fn is_well_formed(&self) -> (r: bool)
        ensures
            r <==> cam_wf(*self),
    {
        self.eye.within(CAM_LIM) && self.target.within(CAM_LIM) && self.up.within(CAM_LIM) && 0
            < self.aspect.raw && self.aspect.raw <= CAM_LIM && 0 < self.fovy.raw && self.fovy.raw
            <= CAM_LIM && 0 < self.znear.raw && self.znear.raw < self.zfar.raw && self.zfar.raw
            <= CAM_LIM
    }

    /// A resize updates the aspect ratio only; eye, target and up, the field
    /// of view and the clip planes are untouched.
    pub fn on_resize(&mut self, new_aspect: Fx)
        ensures
            final(self).aspect == new_aspect,
            final(self).eye == old(self).eye,
            final(self).target == old(self).target,
            final(self).up == old(self).up,
            final(self).fovy == old(self).fovy,
            final(self).znear == old(self).znear,
            final(self).zfar == old(self).zfar,
    {
        self.aspect = new_aspect;
    }

    /// The view-projection matrix; `Some` exactly when the transform exists
    /// for these parameters, and then the correction times projection times
    /// view product.
    pub fn build_view_projection_matrix(&self) -> (r: Option<Mat4>)
        requires
            cam_wf(*self),
        ensures
            match r {
                Some(m) => vp_ok(*self) && m == vp_spec(*self),
                None => !vp_ok(*self),
            },
    {
        let v = match look_at(self.eye, self.target, self.up) {
            Some(v) => v,
            None => {
                return None;
            },
        };
        let p = match perspective(self.fovy, self.aspect, self.znear, self.zfar) {
            Some(p) => p,
            None => {
                return None;
            },
        };
        let pv = p.mat_mul(&v);
        let pv = match pv.fitted() {
            Some(m) => m,
            None => {
                return None;
            },
        };
        let c = Mat4::correction();
        Some(c.mat_mul(&pv))
    }
}

/// The right-handed view matrix; `None` exactly when the direction or the
/// side vector degenerates to zero.
pub fn look_at(eye: Vec3, target: Vec3, up: Vec3) -> (r: Option<Mat4>)
    requires
        v3_bounded(eye, CAM_LIM as int),
        v3_bounded(target, CAM_LIM as int),
        v3_bounded(up, CAM_LIM as int),
    ensures
        match r {
            Some(m) => look_ok(eye, target, up) && m == look_at_spec(eye, target, up) && m_bounded(
                m,
                0x4000_0000,
            ),
            None => !look_ok(eye, target, up),
        },
{
    let fwd = target.minus(eye);
    let f = match fwd.normalized() {
        Some(f) => f,
        None => {
            return None;
        },
    };
    let sc = f.cross(up);
    proof {
        lemma_cross_bound(f, up, SCALE as int, CAM_LIM as int);
    }
    let s = match sc.normalized() {
        Some(s) => s,
        None => {
            return None;
        },
    };
    let u = s.cross(f);
    proof {
        lemma_cross_bound(s, f, SCALE as int, SCALE as int);
        lemma_dot_bound(s, eye, SCALE as int, CAM_LIM as int);
        lemma_dot_bound(u, eye, 2 * SCALE as int + 2, CAM_LIM as int);
        lemma_dot_bound(f, eye, SCALE as int, CAM_LIM as int);
    }
    let ds = s.dot(eye);
    let du = u.dot(eye);
    let df = f.dot(eye);
    let zero = Fx { raw: 0 };
    let one = Fx { raw: SCALE };
    Some(
        Mat4 {
            x: Vec4 { x: s.x, y: u.x, z: f.x.negated(), w: zero },
            y: Vec4 { x: s.y, y: u.y, z: f.y.negated(), w: zero },
            z: Vec4 { x: s.z, y: u.z, z: f.z.negated(), w: zero },
            w: Vec4 { x: ds.negated(), y: du.negated(), z: df, w: one },
        },
    )
}

/// The perspective projection; `None` exactly when one of its fixed-point
/// divisions fails (a degenerate half-angle or an out-of-range quotient).
pub fn perspective(fovy: Fx, aspect: Fx, znear: Fx, zfar: Fx) -> (r: Option<Mat4>)
    requires
        0 < fovy.raw <= CAM_LIM,
        0 < aspect.raw <= CAM_LIM,
        0 < znear.raw,
        znear.raw < zfar.raw,
        zfar.raw <= CAM_LIM,
    ensures
        match r {
            Some(m) => persp_ok(fovy.raw as int, aspect.raw as int, znear.raw as int, zfar.raw as int)
                && m == persp_spec(
                fovy.raw as int,
                aspect.raw as int,
                znear.raw as int,
                zfar.raw as int,
            ) && m_bounded(m, MAT_IN_LIM as int),
            None => !persp_ok(
                fovy.raw as int,
                aspect.raw as int,
                znear.raw as int,
                zfar.raw as int,
            ),
        },
{
    let half = fovy.div_trunc(2);
    let h = crate::trig::deg_to_rad(half);
    let s = crate::trig::sin_fx(h);
    let c = crate::trig::cos_fx(h);
    let f = match c.over(s) {
        Some(f) => f,
        None => {
            return None;
        },
    };
    let fa = match f.over(aspect) {
        Some(fa) => fa,
        None => {
            return None;
        },
    };
    let sum = zfar.plus(znear);
    let diff = znear.minus(zfar);
    let a = match sum.over(diff) {
        Some(a) => a,
        None => {
            return None;
        },
    };
    proof {
        lemma_fx_mul_mag(zfar.raw as int, znear.raw as int, CAM_LIM as int, CAM_LIM as int);
    }
    let prod = zfar.times(znear);
    let prod2 = prod.plus(prod);
    let b = match prod2.over(diff) {
        Some(b) => b,
        None => {
            return None;
        },
    };
    let zero = Fx { raw: 0 };
    Some(
        Mat4 {
            x: Vec4 { x: fa, y: zero, z: zero, w: zero },
            y: Vec4 { x: zero, y: f, z: zero, w: zero },
            z: Vec4 { x: zero, y: zero, z: a, w: Fx { raw: -SCALE } },
            w: Vec4 { x: zero, y: zero, z: b, w: zero },
        },
    )
}

/// Components of a cross product are bounded by twice the product of the
/// operand bounds (scaled).
pub proof fn lemma_cross_bound(a: Vec3, b: Vec3, aa: int, bb: int)
    requires
        v3_bounded(a, aa),
        v3_bounded(b, bb),
        0 < aa,
        0 < bb,
        aa * bb <= 0x1000_0000_0000_0000,
    ensures
        v3_bounded(cross_spec(a, b), 2 * tz_div(aa * bb, SCALE as int) + 2),
{
    lemma_fx_mul_mag(a.x.raw as int, b.y.raw as int, aa, bb);
    lemma_fx_mul_mag(a.x.raw as int, b.z.raw as int, aa, bb);
    lemma_fx_mul_mag(a.y.raw as int, b.x.raw as int, aa, bb);
    lemma_fx_mul_mag(a.y.raw as int, b.z.raw as int, aa, bb);
    lemma_fx_mul_mag(a.z.raw as int, b.x.raw as int, aa, bb);
    lemma_fx_mul_mag(a.z.raw as int, b.y.raw as int, aa, bb);
}

/// A dot product is bounded by three times the product of the operand
/// bounds (scaled).
proof fn lemma_dot_bound(a: Vec3, b: Vec3, aa: int, bb: int)
    requires
        v3_bounded(a, aa),
        v3_bounded(b, bb),
        0 < aa,
        0 < bb,
        aa * bb <= 0x1000_0000_0000_0000,
    ensures
        -(3 * tz_div(aa * bb, SCALE as int) + 3) <= dot_spec(a, b) <= 3 * tz_div(
            aa * bb,
            SCALE as int,
        ) + 3,
{
    lemma_fx_mul_mag(a.x.raw as int, b.x.raw as int, aa, bb);
    lemma_fx_mul_mag(a.y.raw as int, b.y.raw as int, aa, bb);
    lemma_fx_mul_mag(a.z.raw as int, b.z.raw as int, aa, bb);
}

/// The view-projection transform is the clip-space correction, times the
/// perspective projection, times the view transform — in exactly that
/// order.
pub proof fn lemma_view_projection_composition(c: Camera)
    ensures
        vp_spec(c) == mat_mul_spec(
            correction_spec(),
            mat_mul_spec(
                persp_spec(
                    c.fovy.raw as int,
                    c.aspect.raw as int,
                    c.znear.raw as int,
                    c.zfar.raw as int,
                ),
                look_at_spec(c.eye, c.target, c.up),
            ),
        ),
{
}

/// The matrix snapshot uploaded to the camera uniform buffer.
#[derive(Clone, Copy, Debug, PartialEq, Eq, Structural)]
pub struct CameraUniform {
    pub view_proj: Mat4,
}

impl CameraUniform {
    /// A fresh uniform holds the identity matrix.
    pub fn new() -> (r: CameraUniform)
        ensures
            r.view_proj == mat_identity_spec(),
    {
        CameraUniform { view_proj: Mat4::identity() }
    }

    /// Refresh the snapshot from the camera; reports whether the transform
    /// existed, and leaves the snapshot untouched when it did not.
    pub fn update_view_proj(&mut self, camera: &Camera) -> (ok: bool)
        requires
            cam_wf(*camera),
        ensures
            ok <==> vp_ok(*camera),
            ok ==> final(self).view_proj == vp_spec(*camera),
            !ok ==> *final(self) == *old(self),
    {
        match camera.build_view_projection_matrix() {
            Some(m) => {
                self.view_proj = m;
                true
            },
            None => false,
        }
    }
}

/// Angle wrap into one turn of either sign.
pub open spec fn wrap_deg(v: int) -> int {
    if v >= FULL_TURN_FX {
        v - FULL_TURN_FX
    } else if v <= -FULL_TURN_FX {
        v + FULL_TURN_FX
    } else {
        v
    }
}

/// The staged transform exists: the camera transform exists and is small
/// enough to take the extra model rotation.
pub open spec fn staging_ok(st: CameraStaging) -> bool {
    &&& vp_ok(st.camera)
    &&& m_bounded(vp_spec(st.camera), MAT_IN_LIM as int)
}

/// The staged transform: the camera's view-projection post-multiplied by
/// the accumulated Z rotation.
pub open spec fn staging_spec(st: CameraStaging) -> Mat4 {
    mat_mul_spec(vp_spec(st.camera), z_rot_mat_spec(st.model_rotation.raw as int))
}

/// The rotating-rig decorator: the base camera plus an accumulated model
/// rotation about the Z axis.
#[derive(Clone, Copy, Debug, PartialEq, Eq, Structural)]
pub struct CameraStaging {
    pub camera: Camera,
    pub model_rotation: Fx,
}

impl CameraStaging {
    pub fn new(camera: Camera) -> (r: CameraStaging)
        ensures
            r.camera == camera,
            r.model_rotation.raw == 0,
    {
        CameraStaging { camera, model_rotation: Fx { raw: 0 } }
    }

    /// Accumulate the model rotation by `rate * dt` degrees, wrapped to one
    /// turn: the spin is scaled by elapsed time, not by frame count.
    pub fn advance_rotation(&mut self, dt: Fx, rate: Fx)
        requires
            -0x10_0000 <= dt.raw <= 0x10_0000,
            -0x4000_0000 <= rate.raw <= 0x4000_0000,
            -FULL_TURN_FX <= tick_angle(rate.raw as int, dt.raw as int) <= FULL_TURN_FX,
            -FULL_TURN_FX < old(self).model_rotation.raw < FULL_TURN_FX,
        ensures
            final(self).camera == old(self).camera,
            final(self).model_rotation.raw == wrap_deg(
                old(self).model_rotation.raw + tick_angle(rate.raw as int, dt.raw as int),
            ),
            -FULL_TURN_FX < final(self).model_rotation.raw < FULL_TURN_FX,
    {
        proof {
            lemma_fx_mul_mag(rate.raw as int, dt.raw as int, 0x4000_0000, 0x10_0000);
        }
        let angle = rate.times(dt);
        let next = self.model_rotation.plus(angle);
        let wrapped = if next.raw >= FULL_TURN_FX {
            Fx { raw: next.raw - FULL_TURN_FX }
        } else if next.raw <= -FULL_TURN_FX {
            Fx { raw: next.raw + FULL_TURN_FX }
        } else {
            next
        };
        self.model_rotation = wrapped;
    }

    /// Rebuild the uniform from the staged transform; reports whether it
    /// existed, and leaves the snapshot untouched when it did not.
    pub fn update_camera(&self, uniform: &mut CameraUniform) -> (ok: bool)
        requires
            cam_wf(self.camera),
            -0x1000_0000_0000 <= self.model_rotation.raw <= 0x1000_0000_0000,
        ensures
            ok <==> staging_ok(*self),
            ok ==> final(uniform).view_proj == staging_spec(*self),
            !ok ==> *final(uniform) == *old(uniform),
    {
        let vp = match self.camera.build_view_projection_matrix() {
            Some(m) => m,
            None => {
                return false;
            },
        };
        let vpf = match vp.fitted() {
            Some(m) => m,
            None => {
                return false;
            },
        };
        let rz = Mat4::z_rotation(self.model_rotation);
        proof {
            assert(TRIG_LIM <= MAT_IN_LIM);
        }
        uniform.view_proj = vpf.mat_mul(&rz);
        true
    }
}

} // verus!
