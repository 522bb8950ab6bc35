//! Per-tick game logic: frame timing, the frames-per-second counter and its
//! display label, and the camera movement driven by the held keys. The
//! movement mirrors the orbit controls: forward/backward along the look
//! direction (blocked when the eye would reach the target), and left/right
//! around the circle through the eye about the target.

use crate::camera::Camera;
use crate::events::Controller;
use crate::fx::{fx_mul, lemma_fx_mul_mag, Fx, SCALE};
use crate::trig::sqrt_floor;
use crate::vec3::{
    cross_spec, norm_sq, normalize_spec, v3_add_spec, v3_bounded, v3_scale_spec, v3_sub_spec, Vec3,
};
use vstd::prelude::*;

verus! {

/// Microseconds in one second.
pub const MICROS_PER_SEC: u64 = 1000000;

/// Elapsed microseconds as fixed-point seconds.
pub open spec fn secs_of_micros(us: int) -> int {
    (us * SCALE) / (MICROS_PER_SEC as int)
}

/// Convert a tick's elapsed microseconds to fixed-point seconds.
pub fn dt_from_micros(us: u64) -> (r: Fx)
    requires
        us <= 16 * MICROS_PER_SEC,
    ensures
        r.raw == secs_of_micros(us as int),
        0 <= r.raw <= 0x10_0000,
{
    proof {
        crate::fx::lemma_mul_mag(us as int, SCALE as int, 16 * MICROS_PER_SEC as int, SCALE as int);
        vstd::arithmetic::div_mod::lemma_div_pos_is_pos(us as int * SCALE as int, MICROS_PER_SEC as int);
        vstd::arithmetic::div_mod::lemma_div_is_ordered(
            us as int * SCALE as int,
            16 * MICROS_PER_SEC as int * SCALE as int,
            MICROS_PER_SEC as int,
        );
        assert((16 * MICROS_PER_SEC as int * SCALE as int) / (MICROS_PER_SEC as int) == 16
            * SCALE as int) by (nonlinear_arith);
    }
    let raw: u64 = us * (SCALE as u64) / MICROS_PER_SEC;
    Fx { raw: raw as i64 }
}

/// The per-tick update state: frame counters and the held-key controller.
pub struct GameLogic {
    pub fps: u32,
    pub frame_count: u32,
    pub frame_timer_micros: u64,
    pub last_frame_micros: u64,
    pub start_time_micros: u64,
    pub controller: Controller,
    pub speed: Fx,
}

impl GameLogic {
    pub fn new(now_micros: u64, speed: Fx) -> (r: GameLogic)
        ensures
            r.fps == 0,
            r.frame_count == 0,
            r.frame_timer_micros == 0,
            r.last_frame_micros == now_micros,
            r.start_time_micros == now_micros,
            !r.controller.forward && !r.controller.backwards && !r.controller.left
                && !r.controller.right,
            r.speed == speed,
    {
        GameLogic {
            fps: 0,
            frame_count: 0,
            frame_timer_micros: 0,
            last_frame_micros: now_micros,
            start_time_micros: now_micros,
            controller: Controller::idle(),
            speed,
        }
    }

    /// Time elapsed since the last call, given the clock's current reading;
    /// the reading becomes the new reference point.
    pub fn delta_time(&mut self, now_micros: u64) -> (dt: u64)
        requires
            now_micros >= old(self).last_frame_micros,
        ensures
            dt == now_micros - old(self).last_frame_micros,
            final(self).last_frame_micros == now_micros,
            final(self).fps == old(self).fps,
            final(self).frame_count == old(self).frame_count,
            final(self).frame_timer_micros == old(self).frame_timer_micros,
            final(self).start_time_micros == old(self).start_time_micros,
            final(self).controller == old(self).controller,
            final(self).speed == old(self).speed,
    {
        let dt = now_micros - self.last_frame_micros;
        self.last_frame_micros = now_micros;
        dt
    }

    /// Count the frame; once a full second has accumulated, publish the
    /// count as the frames-per-second figure and carry the remainder over.
    pub fn display_framerate(&mut self, dt_micros: u64)
        requires
            old(self).frame_count < 0xffff_ffffu32,
            old(self).frame_timer_micros + dt_micros <= 0xffff_ffff_ffff_ffffu64,
        ensures
            ({
                let count = old(self).frame_count + 1;
                let timer = old(self).frame_timer_micros + dt_micros;
                let f = *final(self);
                if timer >= MICROS_PER_SEC {
                    f.fps == count && f.frame_count == 0 && f.frame_timer_micros == timer
                        - MICROS_PER_SEC
                } else {
                    f.fps == old(self).fps && f.frame_count == count && f.frame_timer_micros
                        == timer
                }
            }),
            final(self).last_frame_micros == old(self).last_frame_micros,
            final(self).start_time_micros == old(self).start_time_micros,
            final(self).controller == old(self).controller,
            final(self).speed == old(self).speed,
    {
        self.frame_count = self.frame_count + 1;
        self.frame_timer_micros = self.frame_timer_micros + dt_micros;
        if self.frame_timer_micros >= MICROS_PER_SEC {
            self.fps = self.frame_count;
            self.frame_count = 0;
            self.frame_timer_micros = self.frame_timer_micros - MICROS_PER_SEC;
        }
    }

    /// Move the camera eye by the held keys over the elapsed time. Only the
    /// eye changes; the target, up vector, projection parameters and every
    /// counter are untouched.
    #[verifier::rlimit(60)]
    pub fn update(&self, camera: &mut Camera, dt: Fx)
        requires
            v3_bounded(old(camera).eye, 0x400_0000),
            v3_bounded(old(camera).target, 0x400_0000),
            v3_bounded(old(camera).up, 0x400_0000),
            0 <= dt.raw <= 0x10_0000,
            0 <= self.speed.raw <= 0x10_0000,
        ensures
            final(camera).eye == moved_eye_spec(
                old(camera).eye,
                old(camera).target,
                old(camera).up,
                self.controller,
                self.speed.raw as int,
                fx_mul(self.speed.raw as int, dt.raw as int),
            ),
            final(camera).target == old(camera).target,
            final(camera).up == old(camera).up,
            final(camera).aspect == old(camera).aspect,
            final(camera).fovy == old(camera).fovy,
            final(camera).znear == old(camera).znear,
            final(camera).zfar == old(camera).zfar,
    {
        proof {
            lemma_fx_mul_mag(self.speed.raw as int, dt.raw as int, 0x10_0000, 0x10_0000);
        }
        let step = self.speed.times(dt);
        let eye = camera.eye;
        let target = camera.target;
        let up = camera.up;
        let fwd = target.minus(eye);
        let fnorm = match fwd.normalized() {
            Some(f) => f,
            None => {
                return ;
            },
        };
        let mag = fwd.magnitude();
        proof {
            crate::vec3::lemma_scale_bound(fnorm, step.raw as int, SCALE as int, 0x100_0000);
        }
        let stepv = fnorm.scaled(step);
        proof {
            assert(stepv == v3_scale_spec(fnorm, step.raw as int));
        }
        let e1 = if self.controller.forward && mag.raw > self.speed.raw {
            eye.plus(stepv)
        } else {
            eye
        };
        let e2 = if self.controller.backwards {
            e1.minus(stepv)
        } else {
            e1
        };
        let right = fnorm.cross(up);
        proof {
            crate::camera::lemma_cross_bound(fnorm, up, SCALE as int, 0x400_0000);
        }
        let fwd2 = target.minus(e2);
        let mag2 = fwd2.magnitude();
        proof {
            lemma_mag_small(fwd2, mag2.raw as int);
            crate::vec3::lemma_scale_bound(right, step.raw as int, 0x800_0002, 0x100_0000);
        }
        let rstep = right.scaled(step);
        proof {
            assert(rstep == v3_scale_spec(right, step.raw as int));
        }
        let e3 = if self.controller.right {
            let d = fwd2.plus(rstep);
            match d.normalized() {
                Some(dn) => {
                    proof {
                        crate::vec3::lemma_scale_bound(dn, mag2.raw as int, SCALE as int, 0x4000_0000);
                    }
                    let sw = dn.scaled(mag2);
                    proof {
                        assert(sw == v3_scale_spec(dn, mag2.raw as int));
                    }
                    target.minus(sw)
                },
                None => e2,
            }
        } else {
            e2
        };
        let e4 = if self.controller.left {
            let d = fwd2.minus(rstep);
            match d.normalized() {
                Some(dn) => {
                    proof {
                        crate::vec3::lemma_scale_bound(dn, mag2.raw as int, SCALE as int, 0x4000_0000);
                    }
                    let sw = dn.scaled(mag2);
                    proof {
                        assert(sw == v3_scale_spec(dn, mag2.raw as int));
                    }
                    target.minus(sw)
                },
                None => e3,
            }
        } else {
            e3
        };
        camera.eye = e4;
    }
}

/// The magnitude of a moderately bounded vector stays a valid scale factor.
proof fn lemma_mag_small(v: Vec3, r: int)
    requires
        v3_bounded(v, 0x2000_0000),
        crate::trig::is_sqrt(norm_sq(v), r),
    ensures
        0 <= r <= 0x4000_0000,
{
    let n = norm_sq(v);
    crate::fx::lemma_mul_mag(v.x.raw as int, v.x.raw as int, 0x2000_0000, 0x2000_0000);
    crate::fx::lemma_mul_mag(v.y.raw as int, v.y.raw as int, 0x2000_0000, 0x2000_0000);
    crate::fx::lemma_mul_mag(v.z.raw as int, v.z.raw as int, 0x2000_0000, 0x2000_0000);
    assert(v.x.raw * v.x.raw >= 0) by (nonlinear_arith);
    assert(v.y.raw * v.y.raw >= 0) by (nonlinear_arith);
    assert(v.z.raw * v.z.raw >= 0) by (nonlinear_arith);
    assert(0 <= r <= 0x4000_0000) by (nonlinear_arith)
        requires
            crate::trig::is_sqrt(n, r),
            0 <= n <= 3 * 0x400_0000_0000_0000,
    ;
}

/// Where the held keys send the eye: forward/backward steps along the
/// normalized look direction (forward only while the eye is farther from
/// the target than one second of travel), then a left/right swing that
/// re-aims the eye on the circle of the same radius around the target.
/// A degenerate direction leaves that movement out.
pub open spec fn moved_eye_spec(
    eye: Vec3,
    target: Vec3,
    up: Vec3,
    ctrl: Controller,
    speed: int,
    step: int,
) -> Vec3 {
    let fwd = v3_sub_spec(target, eye);
    if fwd.x.raw == 0 && fwd.y.raw == 0 && fwd.z.raw == 0 {
        eye
    } else {
        let fnorm = normalize_spec(fwd);
        let mag = sqrt_floor(norm_sq(fwd));
        let stepv = v3_scale_spec(fnorm, step);
        let e1 = if ctrl.forward && mag > speed {
            v3_add_spec(eye, stepv)
        } else {
            eye
        };
        let e2 = if ctrl.backwards {
            v3_sub_spec(e1, stepv)
        } else {
            e1
        };
        let right = cross_spec(fnorm, up);
        let fwd2 = v3_sub_spec(target, e2);
        let mag2 = sqrt_floor(norm_sq(fwd2));
        let rstep = v3_scale_spec(right, step);
        let e3 = if ctrl.right {
            let d = v3_add_spec(fwd2, rstep);
            if d.x.raw == 0 && d.y.raw == 0 && d.z.raw == 0 {
                e2
            } else {
                v3_sub_spec(target, v3_scale_spec(normalize_spec(d), mag2))
            }
        } else {
            e2
        };
        if ctrl.left {
            let d = v3_sub_spec(fwd2, rstep);
            if d.x.raw == 0 && d.y.raw == 0 && d.z.raw == 0 {
                e3
            } else {
                v3_sub_spec(target, v3_scale_spec(normalize_spec(d), mag2))
            }
        } else {
            e3
        }
    }
}

/// The decimal digits of `n`, most significant first.
pub open spec fn dec_digits(n: nat) -> Seq<u8>
    decreases n,
{
    if n < 10 {
        seq![(48 + n) as u8]
    } else {
        dec_digits(n / 10).push((48 + n % 10) as u8)
    }
}

/// The display label: "FPS: " followed by the decimal digits.
pub open spec fn fps_label_spec(n: nat) -> Seq<u8> {
    seq![70u8, 80u8, 83u8, 58u8, 32u8] + dec_digits(n)
}

fn push_digits(n: u32, out: &mut Vec<u8>)
    ensures
        final(out)@ == old(out)@ + dec_digits(n as nat),
    decreases n,
{
    if n < 10 {
        out.push((48 + n) as u8);
    } else {
        push_digits(n / 10, out);
        out.push((48 + n % 10) as u8);
    }
}

/// The frames-per-second label as ASCII bytes.
pub fn fps_label(fps: u32) -> (r: Vec<u8>)
    ensures
        r@ == fps_label_spec(fps as nat),
{
    let mut out: Vec<u8> = Vec::new();
    out.push(70);
    out.push(80);
    out.push(83);
    out.push(58);
    out.push(32);
    proof {
        assert(out@ =~= seq![70u8, 80u8, 83u8, 58u8, 32u8]);
    }
    push_digits(fps, &mut out);
    out
}

} // verus!
