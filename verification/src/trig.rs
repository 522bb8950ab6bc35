//! Integer square root and fixed-point trigonometry. The sine and cosine used
//! for rotations are truncated Taylor series evaluated in fixed point after
//! range reduction; their contracts state the exact value computed, so every
//! rotation matrix the renderer builds is a deterministic function of its
//! angle.

use crate::fx::{fx_mul, lemma_fx_mul_mag, lemma_tz_div_mag, tz_div, Fx, SCALE};
use vstd::arithmetic::div_mod::{lemma_div_pos_is_pos, lemma_fundamental_div_mod};
use vstd::prelude::*;

verus! {

/// Fixed-point pi.
pub const PI_FX: i64 = 205887;

/// Fixed-point two pi; exactly twice `PI_FX`.
pub const TWO_PI_FX: i64 = 411774;

/// Fixed-point pi / 180.
pub const RAD_PER_DEG: i64 = 1144;

/// Magnitude bound on the sine and cosine polynomials over one period.
pub const TRIG_LIM: i64 = 0x40_0000;

/// `r` is the integer square root of `n`.
pub open spec fn is_sqrt(n: int, r: int) -> bool {
    0 <= r && r * r <= n && n < (r + 1) * (r + 1)
}

/// The integer square root itself.
pub open spec fn sqrt_floor(n: int) -> int {
    choose|r: int| is_sqrt(n, r)
}

pub proof fn lemma_sqrt_unique(n: int, a: int, b: int)
    by (nonlinear_arith)
    requires
        is_sqrt(n, a),
        is_sqrt(n, b),
    ensures
        a == b,
{
}

/// Binary-search integer square root.
pub fn isqrt_u128(n: u128) -> (r: u64)
    requires
        n < 0x4000_0000_0000_0000_0000_0000_0000_0000u128,
    ensures
        is_sqrt(n as int, r as int),
        r as int == sqrt_floor(n as int),
{
    let mut lo: u128 = 0;
    let mut hi: u128 = 0x8000_0000_0000_0000;
    proof {
        assert(hi * hi == 0x4000_0000_0000_0000_0000_0000_0000_0000) by (nonlinear_arith)
            requires
                hi == 0x8000_0000_0000_0000u128,
        ;
    }
    while lo + 1 < hi
        invariant
            lo < hi,
            hi <= 0x8000_0000_0000_0000,
            lo * lo <= n,
            n < hi * hi,
        decreases hi - lo,
    {
        let mid: u128 = lo + (hi - lo) / 2;
        proof {
            assert(mid * mid <= 0x8000_0000_0000_0000 * 0x8000_0000_0000_0000) by (nonlinear_arith)
                requires
                    0 <= mid <= 0x8000_0000_0000_0000,
            ;
            assert(0x8000_0000_0000_0000u128 * 0x8000_0000_0000_0000 <= u128::MAX) by (nonlinear_arith);
        }
        if mid * mid <= n {
            lo = mid;
        } else {
            hi = mid;
        }
    }
    proof {
        assert(hi == lo + 1);
        assert(is_sqrt(n as int, lo as int));
        assert(sqrt_floor(n as int) == lo as int) by {
            assert(is_sqrt(n as int, lo as int));
            lemma_sqrt_unique(n as int, sqrt_floor(n as int), lo as int);
        }
    }
    lo as u64
}

/// Reduction of an angle in fixed-point radians to `[-PI_FX, PI_FX]`.
pub open spec fn reduce_rad(x: int) -> int {
    let r0 = x - tz_div(x, TWO_PI_FX as int) * (TWO_PI_FX as int);
    let r1 = if r0 > PI_FX {
        r0 - TWO_PI_FX
    } else {
        r0
    };
    if r1 < -PI_FX {
        r1 + TWO_PI_FX
    } else {
        r1
    }
}

/// One period of the reduction lands inside `[-PI_FX, PI_FX]`.
pub proof fn lemma_reduce_rad_bounds(x: int)
    ensures
        -PI_FX <= reduce_rad(x) <= PI_FX,
{
    let t = TWO_PI_FX as int;
    let k = tz_div(x, t);
    let r0 = x - k * t;
    if x >= 0 {
        lemma_fundamental_div_mod(x, t);
        assert(x % t == x - t * (x / t));
        assert(k * t == t * (x / t)) by (nonlinear_arith)
            requires
                k == x / t,
        ;
        assert(r0 == x % t);
        assert(0 <= x % t < t);
    } else {
        lemma_fundamental_div_mod(-x, t);
        assert((-x) % t == -x - t * ((-x) / t));
        assert(k * t == -(t * ((-x) / t))) by (nonlinear_arith)
            requires
                k == -((-x) / t),
        ;
        assert(r0 == -((-x) % t));
        assert(0 <= (-x) % t < t);
    }
}

/// Reduction of an angle, executable form.
pub fn reduce_rad_fx(x: Fx) -> (r: Fx)
    ensures
        r.raw == reduce_rad(x.raw as int),
        -PI_FX <= r.raw <= PI_FX,
{
    let xi: i128 = x.raw as i128;
    let t: i128 = TWO_PI_FX as i128;
    let k: i128 = if xi >= 0 {
        xi / t
    } else {
        -((-xi) / t)
    };
    proof {
        assert(k == tz_div(x.raw as int, TWO_PI_FX as int));
        lemma_reduce_rad_bounds(x.raw as int);
        if xi >= 0 {
            lemma_div_pos_is_pos(xi as int, t as int);
            assert(k * t <= xi) by (nonlinear_arith)
                requires
                    t > 0,
                    k == xi as int / t as int,
                    xi >= 0,
            {
                lemma_fundamental_div_mod(xi as int, t as int);
            }
        } else {
            lemma_div_pos_is_pos(-xi as int, t as int);
            assert(xi <= k * t) by (nonlinear_arith)
                requires
                    t > 0,
                    k == -((-xi as int) / (t as int)),
                    xi < 0,
            {
                lemma_fundamental_div_mod(-xi as int, t as int);
            }
        }
    }
    let r0: i128 = xi - k * t;
    let r1: i128 = if r0 > PI_FX as i128 {
        r0 - t
    } else {
        r0
    };
    let r2: i128 = if r1 < -(PI_FX as i128) {
        r1 + t
    } else {
        r1
    };
    Fx { raw: r2 as i64 }
}

/// The sine polynomial: truncated Taylor series on the reduced range.
pub open spec fn sin_poly(x: int) -> int {
    let x2 = fx_mul(x, x);
    let x3 = fx_mul(x2, x);
    let x5 = fx_mul(x3, x2);
    let x7 = fx_mul(x5, x2);
    let x9 = fx_mul(x7, x2);
    let x11 = fx_mul(x9, x2);
    let x13 = fx_mul(x11, x2);
    x - tz_div(x3, 6) + tz_div(x5, 120) - tz_div(x7, 5040) + tz_div(x9, 362880) - tz_div(
        x11,
        39916800,
    ) + tz_div(x13, 6227020800)
}

/// The cosine polynomial: truncated Taylor series on the reduced range.
pub open spec fn cos_poly(x: int) -> int {
    let x2 = fx_mul(x, x);
    let x4 = fx_mul(x2, x2);
    let x6 = fx_mul(x4, x2);
    let x8 = fx_mul(x6, x2);
    let x10 = fx_mul(x8, x2);
    let x12 = fx_mul(x10, x2);
    SCALE - tz_div(x2, 2) + tz_div(x4, 24) - tz_div(x6, 720) + tz_div(x8, 40320) - tz_div(
        x10,
        3628800,
    ) + tz_div(x12, 479001600)
}

/// The sine polynomial stays inside `TRIG_LIM` on the reduced range.
pub proof fn lemma_sin_poly_bound(x: int)
    requires
        -PI_FX <= x <= PI_FX,
    ensures
        -TRIG_LIM <= sin_poly(x) <= TRIG_LIM,
{
    let x2 = fx_mul(x, x);
    lemma_fx_mul_mag(x, x, 0x40000, 0x40000);
    let x3 = fx_mul(x2, x);
    lemma_fx_mul_mag(x2, x, 0x100000, 0x40000);
    let x5 = fx_mul(x3, x2);
    lemma_fx_mul_mag(x3, x2, 0x400000, 0x100000);
    let x7 = fx_mul(x5, x2);
    lemma_fx_mul_mag(x5, x2, 0x4000000, 0x100000);
    let x9 = fx_mul(x7, x2);
    lemma_fx_mul_mag(x7, x2, 0x40000000, 0x100000);
    let x11 = fx_mul(x9, x2);
    lemma_fx_mul_mag(x9, x2, 0x400000000, 0x100000);
    let x13 = fx_mul(x11, x2);
    lemma_fx_mul_mag(x11, x2, 0x4000000000, 0x100000);
    lemma_tz_div_mag(x3, 6, 0x400000);
    lemma_tz_div_mag(x5, 120, 0x4000000);
    lemma_tz_div_mag(x7, 5040, 0x40000000);
    lemma_tz_div_mag(x9, 362880, 0x400000000);
    lemma_tz_div_mag(x11, 39916800, 0x4000000000);
    lemma_tz_div_mag(x13, 6227020800, 0x40000000000);
}

/// The cosine polynomial stays inside `TRIG_LIM` on the reduced range.
pub proof fn lemma_cos_poly_bound(x: int)
    requires
        -PI_FX <= x <= PI_FX,
    ensures
        -TRIG_LIM <= cos_poly(x) <= TRIG_LIM,
{
    let x2 = fx_mul(x, x);
    lemma_fx_mul_mag(x, x, 0x40000, 0x40000);
    let x4 = fx_mul(x2, x2);
    lemma_fx_mul_mag(x2, x2, 0x100000, 0x100000);
    let x6 = fx_mul(x4, x2);
    lemma_fx_mul_mag(x4, x2, 0x1000000, 0x100000);
    let x8 = fx_mul(x6, x2);
    lemma_fx_mul_mag(x6, x2, 0x10000000, 0x100000);
    let x10 = fx_mul(x8, x2);
    lemma_fx_mul_mag(x8, x2, 0x100000000, 0x100000);
    let x12 = fx_mul(x10, x2);
    lemma_fx_mul_mag(x10, x2, 0x1000000000, 0x100000);
    lemma_tz_div_mag(x2, 2, 0x100000);
    lemma_tz_div_mag(x4, 24, 0x1000000);
    lemma_tz_div_mag(x6, 720, 0x10000000);
    lemma_tz_div_mag(x8, 40320, 0x100000000);
    lemma_tz_div_mag(x10, 3628800, 0x1000000000);
    lemma_tz_div_mag(x12, 479001600, 0x10000000000);
}

/// Fixed-point sine: the sine polynomial after range reduction.
pub fn sin_fx(x: Fx) -> (r: Fx)
    ensures
        r.raw == sin_poly(reduce_rad(x.raw as int)),
        -TRIG_LIM <= r.raw <= TRIG_LIM,
{
    let xr = reduce_rad_fx(x);
    let x1 = xr;
    proof {
        lemma_fx_mul_mag(x1.raw as int, x1.raw as int, 0x40000, 0x40000);
    }
    let x2 = x1.times(x1);
    proof {
        lemma_fx_mul_mag(x2.raw as int, x1.raw as int, 0x100000, 0x40000);
    }
    let x3 = x2.times(x1);
    proof {
        lemma_fx_mul_mag(x3.raw as int, x2.raw as int, 0x400000, 0x100000);
    }
    let x5 = x3.times(x2);
    proof {
        lemma_fx_mul_mag(x5.raw as int, x2.raw as int, 0x4000000, 0x100000);
    }
    let x7 = x5.times(x2);
    proof {
        lemma_fx_mul_mag(x7.raw as int, x2.raw as int, 0x40000000, 0x100000);
    }
    let x9 = x7.times(x2);
    proof {
        lemma_fx_mul_mag(x9.raw as int, x2.raw as int, 0x400000000, 0x100000);
    }
    let x11 = x9.times(x2);
    proof {
        lemma_fx_mul_mag(x11.raw as int, x2.raw as int, 0x4000000000, 0x100000);
    }
    let x13 = x11.times(x2);
    proof {
        lemma_tz_div_mag(x3.raw as int, 6, 0x400000);
        lemma_tz_div_mag(x5.raw as int, 120, 0x4000000);
        lemma_tz_div_mag(x7.raw as int, 5040, 0x40000000);
        lemma_tz_div_mag(x9.raw as int, 362880, 0x400000000);
        lemma_tz_div_mag(x11.raw as int, 39916800, 0x4000000000);
        lemma_tz_div_mag(x13.raw as int, 6227020800, 0x40000000000);
    }
    let t3 = x3.div_trunc(6);
    let t5 = x5.div_trunc(120);
    let t7 = x7.div_trunc(5040);
    let t9 = x9.div_trunc(362880);
    let t11 = x11.div_trunc(39916800);
    let t13 = x13.div_trunc(6227020800);
    let r = x1.minus(t3).plus(t5).minus(t7).plus(t9).minus(t11).plus(t13);
    r
}

/// Fixed-point cosine: the cosine polynomial after range reduction.
pub fn cos_fx(x: Fx) -> (r: Fx)
    ensures
        r.raw == cos_poly(reduce_rad(x.raw as int)),
        -TRIG_LIM <= r.raw <= TRIG_LIM,
{
    let xr = reduce_rad_fx(x);
    let x1 = xr;
    proof {
        lemma_fx_mul_mag(x1.raw as int, x1.raw as int, 0x40000, 0x40000);
    }
    let x2 = x1.times(x1);
    proof {
        lemma_fx_mul_mag(x2.raw as int, x2.raw as int, 0x100000, 0x100000);
    }
    let x4 = x2.times(x2);
    proof {
        lemma_fx_mul_mag(x4.raw as int, x2.raw as int, 0x1000000, 0x100000);
    }
    let x6 = x4.times(x2);
    proof {
        lemma_fx_mul_mag(x6.raw as int, x2.raw as int, 0x10000000, 0x100000);
    }
    let x8 = x6.times(x2);
    proof {
        lemma_fx_mul_mag(x8.raw as int, x2.raw as int, 0x100000000, 0x100000);
    }
    let x10 = x8.times(x2);
    proof {
        lemma_fx_mul_mag(x10.raw as int, x2.raw as int, 0x1000000000, 0x100000);
    }
    let x12 = x10.times(x2);
    proof {
        lemma_tz_div_mag(x2.raw as int, 2, 0x100000);
        lemma_tz_div_mag(x4.raw as int, 24, 0x1000000);
        lemma_tz_div_mag(x6.raw as int, 720, 0x10000000);
        lemma_tz_div_mag(x8.raw as int, 40320, 0x100000000);
        lemma_tz_div_mag(x10.raw as int, 3628800, 0x1000000000);
        lemma_tz_div_mag(x12.raw as int, 479001600, 0x10000000000);
    }
    let t2 = x2.div_trunc(2);
    let t4 = x4.div_trunc(24);
    let t6 = x6.div_trunc(720);
    let t8 = x8.div_trunc(40320);
    let t10 = x10.div_trunc(3628800);
    let t12 = x12.div_trunc(479001600);
    let one = Fx::one();
    let r = one.minus(t2).plus(t4).minus(t6).plus(t8).minus(t10).plus(t12);
    r
}

/// Degrees to fixed-point radians.
pub open spec fn rad_of_deg(deg: int) -> int {
    fx_mul(deg, RAD_PER_DEG as int)
}

/// Degrees to radians, executable form.
pub fn deg_to_rad(deg: Fx) -> (r: Fx)
    requires
        -0x1000_0000_0000 <= deg.raw <= 0x1000_0000_0000,
    ensures
        r.raw == rad_of_deg(deg.raw as int),
{
    proof {
        lemma_fx_mul_mag(deg.raw as int, RAD_PER_DEG as int, 0x1000_0000_0000, 0x1000);
    }
    deg.times(Fx { raw: RAD_PER_DEG })
}

} // verus!
