//! Fixed-point scalars. Every real-valued quantity of the renderer (camera
//! coordinates, angles, matrix entries) is a multiple of 1/SCALE, stored as
//! its raw numerator in an `i64`. All operations round toward zero, exactly
//! as stated by the spec functions here, so results are reproducible
//! bit-for-bit across runs and machines.

use vstd::arithmetic::div_mod::{
    lemma_div_is_ordered, lemma_div_multiples_vanish, lemma_div_pos_is_pos,
};
use vstd::arithmetic::mul::lemma_mul_is_commutative;
use vstd::prelude::*;

verus! {

/// Number of raw units in one whole unit.
pub const SCALE: i64 = 65536;

/// Largest magnitude a fixed-point quotient is allowed to take; a division
/// whose result would exceed this reports failure instead.
pub const DIV_LIM: i64 = 0x4_0000_0000;

pub open spec fn fits_i64(v: int) -> bool {
    i64::MIN <= v <= i64::MAX
}

/// Division of `p` by a positive `d`, rounding toward zero.
pub open spec fn tz_div(p: int, d: int) -> int {
    if p >= 0 {
        p / d
    } else {
        -((-p) / d)
    }
}

/// Division rounding toward zero, divisor of either sign.
pub open spec fn tz_div_s(p: int, d: int) -> int {
    if d >= 0 {
        tz_div(p, d)
    } else {
        -tz_div(p, -d)
    }
}

/// Raw value of the fixed-point product of two raw values.
pub open spec fn fx_mul(a: int, b: int) -> int {
    tz_div(a * b, SCALE as int)
}

/// Raw value of the fixed-point quotient of two raw values (`b != 0`).
pub open spec fn fx_div(a: int, b: int) -> int {
    tz_div_s(a * (SCALE as int), b)
}

/// A fixed-point quotient is reported only when the divisor is nonzero and
/// the result stays within `DIV_LIM`.
pub open spec fn fx_div_ok(a: int, b: int) -> bool {
    b != 0 && -(DIV_LIM as int) <= fx_div(a, b) <= DIV_LIM as int
}

/// A fixed-point scalar: the value `raw / SCALE`.
#[derive(Clone, Copy, Debug, PartialEq, Eq, Structural)]
pub struct Fx {
    pub raw: i64,
}

impl Fx {
    pub fn zero() -> (r: Fx)
        ensures
            r.raw == 0,
    {
        Fx { raw: 0 }
    }

    pub fn one() -> (r: Fx)
        ensures
            r.raw == SCALE,
    {
        Fx { raw: SCALE }
    }

    /// The whole number `n` as a fixed-point value.
    pub fn from_units(n: i32) -> (r: Fx)
        ensures
            r.raw == n * SCALE,
    {
        proof {
            lemma_mul_mag(n as int, SCALE as int, 0x8000_0000, SCALE as int);
        }
        Fx { raw: (n as i64) * SCALE }
    }

    pub fn plus(self, o: Fx) -> (r: Fx)
        requires
            fits_i64(self.raw + o.raw),
        ensures
            r.raw == self.raw + o.raw,
    {
        Fx { raw: self.raw + o.raw }
    }

    pub fn minus(self, o: Fx) -> (r: Fx)
        requires
            fits_i64(self.raw - o.raw),
        ensures
            r.raw == self.raw - o.raw,
    {
        Fx { raw: self.raw - o.raw }
    }

    pub fn negated(self) -> (r: Fx)
        requires
            self.raw != i64::MIN,
        ensures
            r.raw == -self.raw,
    {
        Fx { raw: -self.raw }
    }

    /// Half of the value, rounded toward zero.
    pub fn halved(self) -> (r: Fx)
        requires
            self.raw != i64::MIN,
        ensures
            r.raw == tz_div(self.raw as int, 2),
    {
        if self.raw >= 0 {
            Fx { raw: self.raw / 2 }
        } else {
            Fx { raw: -((-self.raw) / 2) }
        }
    }

    /// Raw division by a positive constant, rounding toward zero.
    pub fn div_trunc(self, d: i64) -> (r: Fx)
        requires
            d > 0,
            self.raw != i64::MIN,
        ensures
            r.raw == tz_div(self.raw as int, d as int),
    {
        if self.raw >= 0 {
            Fx { raw: self.raw / d }
        } else {
            Fx { raw: -((-self.raw) / d) }
        }
    }

    /// Fixed-point product; the caller shows the result is representable.
    pub fn times(self, o: Fx) -> (r: Fx)
        requires
            fits_i64(fx_mul(self.raw as int, o.raw as int)),
        ensures
            r.raw == fx_mul(self.raw as int, o.raw as int),
    {
        proof {
            lemma_mul_mag(self.raw as int, o.raw as int, 0x8000_0000_0000_0000, 0x8000_0000_0000_0000);
        }
        let p: i128 = (self.raw as i128) * (o.raw as i128);
        let q: i128 = if p >= 0 {
            p / (SCALE as i128)
        } else {
            -((-p) / (SCALE as i128))
        };
        proof {
            assert(q == fx_mul(self.raw as int, o.raw as int));
        }
        Fx { raw: q as i64 }
    }

    /// Fixed-point quotient: `None` exactly when the divisor is zero or the
    /// result would exceed `DIV_LIM`.
    pub fn over(self, o: Fx) -> (r: Option<Fx>)
        ensures
            match r {
                Some(v) => fx_div_ok(self.raw as int, o.raw as int) && v.raw == fx_div(
                    self.raw as int,
                    o.raw as int,
                ),
                None => !fx_div_ok(self.raw as int, o.raw as int),
            },
    {
        if o.raw == 0 {
            return None;
        }
        proof {
            lemma_mul_mag(self.raw as int, SCALE as int, 0x8000_0000_0000_0000, SCALE as int);
        }
        let n: i128 = (self.raw as i128) * (SCALE as i128);
        let nn: i128 = if n >= 0 {
            n
        } else {
            -n
        };
        let dd: i128 = if o.raw >= 0 {
            o.raw as i128
        } else {
            -(o.raw as i128)
        };
        let qq: i128 = nn / dd;
        let q: i128 = if (n >= 0) == (o.raw >= 0) {
            qq
        } else {
            -qq
        };
        proof {
            assert(q == fx_div(self.raw as int, o.raw as int));
        }
        if q < -(DIV_LIM as i128) || q > DIV_LIM as i128 {
            None
        } else {
            Some(Fx { raw: q as i64 })
        }
    }
}

/// |a| <= aa and |b| <= bb bound the product: |a * b| <= aa * bb.
pub proof fn lemma_mul_mag(a: int, b: int, aa: int, bb: int)
    by (nonlinear_arith)
    requires
        -aa <= a <= aa,
        -bb <= b <= bb,
    ensures
        -(aa * bb) <= a * b <= aa * bb,
{
}

/// Magnitude bound for truncating division by a positive divisor.
pub proof fn lemma_tz_div_mag(p: int, d: int, m: int)
    requires
        d > 0,
        -m <= p <= m,
    ensures
        -tz_div(m, d) <= tz_div(p, d) <= tz_div(m, d),
        tz_div(m, d) == m / d,
{
    lemma_div_pos_is_pos(m, d);
    if p >= 0 {
        lemma_div_is_ordered(p, m, d);
        lemma_div_pos_is_pos(p, d);
    } else {
        lemma_div_is_ordered(-p, m, d);
        lemma_div_pos_is_pos(-p, d);
    }
}

/// Magnitude bound for a fixed-point product.
pub proof fn lemma_fx_mul_mag(a: int, b: int, aa: int, bb: int)
    requires
        -aa <= a <= aa,
        -bb <= b <= bb,
    ensures
        -tz_div(aa * bb, SCALE as int) <= fx_mul(a, b) <= tz_div(aa * bb, SCALE as int),
        tz_div(aa * bb, SCALE as int) == (aa * bb) / (SCALE as int),
{
    lemma_mul_mag(a, b, aa, bb);
    lemma_tz_div_mag(a * b, SCALE as int, aa * bb);
}

/// Multiplying by the fixed-point unit is the identity.
pub proof fn lemma_fx_mul_unit(a: int)
    ensures
        fx_mul(SCALE as int, a) == a,
        fx_mul(a, SCALE as int) == a,
{
    let s = SCALE as int;
    lemma_mul_is_commutative(a, s);
    if a >= 0 {
        lemma_div_multiples_vanish(a, s);
    } else {
        lemma_div_multiples_vanish(-a, s);
        assert(-(a * s) == (-a) * s) by (nonlinear_arith);
        assert(-(s * a) == (-a) * s) by (nonlinear_arith);
    }
}

/// Multiplying by zero gives zero.
pub proof fn lemma_fx_mul_zero(a: int)
    ensures
        fx_mul(0, a) == 0,
        fx_mul(a, 0) == 0,
{
    lemma_mul_is_commutative(a, 0);
    assert(0 * a == 0) by (nonlinear_arith);
    assert(tz_div(0, SCALE as int) == 0) by {
        vstd::arithmetic::div_mod::lemma_div_of0(SCALE as int);
    }
}

} // verus!
