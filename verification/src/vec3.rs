//! Three-component fixed-point vectors: positions, directions and the
//! camera basis. Normalization is exact integer arithmetic over the integer
//! square root, so a unit axis is a deterministic function of its input.

use crate::fx::{fits_i64, fx_mul, lemma_fx_mul_mag, lemma_mul_mag, lemma_tz_div_mag, tz_div, Fx,
    SCALE};
use crate::trig::{is_sqrt, isqrt_u128, sqrt_floor};
use vstd::arithmetic::div_mod::lemma_div_multiples_vanish;
use vstd::prelude::*;

verus! {

/// Bound used by the vector products below.
pub const V3_LIM: i64 = 0x4000_0000;

#[derive(Clone, Copy, Debug, PartialEq, Eq, Structural)]
pub struct Vec3 {
    pub x: Fx,
    pub y: Fx,
    pub z: Fx,
}

/// Every component has magnitude at most `b`.
pub open spec fn v3_bounded(v: Vec3, b: int) -> bool {
    &&& -b <= v.x.raw <= b
    &&& -b <= v.y.raw <= b
    &&& -b <= v.z.raw <= b
}

/// Sum of the squared raw components.
pub open spec fn norm_sq(v: Vec3) -> int {
    v.x.raw * v.x.raw + v.y.raw * v.y.raw + v.z.raw * v.z.raw
}

/// The normalized vector: each component divided by the integer square root
/// of the squared length.
pub open spec fn normalize_spec(v: Vec3) -> Vec3 {
    let l = sqrt_floor(norm_sq(v));
    Vec3 {
        x: Fx { raw: tz_div(v.x.raw * SCALE, l) as i64 },
        y: Fx { raw: tz_div(v.y.raw * SCALE, l) as i64 },
        z: Fx { raw: tz_div(v.z.raw * SCALE, l) as i64 },
    }
}

/// Componentwise sum on raw values.
pub open spec fn v3_add_spec(a: Vec3, b: Vec3) -> Vec3 {
    Vec3 {
        x: Fx { raw: (a.x.raw + b.x.raw) as i64 },
        y: Fx { raw: (a.y.raw + b.y.raw) as i64 },
        z: Fx { raw: (a.z.raw + b.z.raw) as i64 },
    }
}

/// Componentwise scaling on raw values.
pub open spec fn v3_scale_spec(v: Vec3, s: int) -> Vec3 {
    Vec3 {
        x: Fx { raw: fx_mul(v.x.raw as int, s) as i64 },
        y: Fx { raw: fx_mul(v.y.raw as int, s) as i64 },
        z: Fx { raw: fx_mul(v.z.raw as int, s) as i64 },
    }
}

/// Componentwise difference on raw values.
pub open spec fn v3_sub_spec(a: Vec3, b: Vec3) -> Vec3 {
    Vec3 {
        x: Fx { raw: (a.x.raw - b.x.raw) as i64 },
        y: Fx { raw: (a.y.raw - b.y.raw) as i64 },
        z: Fx { raw: (a.z.raw - b.z.raw) as i64 },
    }
}

pub open spec fn dot_spec(a: Vec3, b: Vec3) -> int {
    fx_mul(a.x.raw as int, b.x.raw as int) + fx_mul(a.y.raw as int, b.y.raw as int) + fx_mul(
        a.z.raw as int,
        b.z.raw as int,
    )
}

pub open spec fn cross_spec(a: Vec3, b: Vec3) -> Vec3 {
    Vec3 {
        x: Fx {
            raw: (fx_mul(a.y.raw as int, b.z.raw as int) - fx_mul(
                a.z.raw as int,
                b.y.raw as int,
            )) as i64,
        },
        y: Fx {
            raw: (fx_mul(a.z.raw as int, b.x.raw as int) - fx_mul(
                a.x.raw as int,
                b.z.raw as int,
            )) as i64,
        },
        z: Fx {
            raw: (fx_mul(a.x.raw as int, b.y.raw as int) - fx_mul(
                a.y.raw as int,
                b.x.raw as int,
            )) as i64,
        },
    }
}

impl Vec3 {
    pub fn new(x: Fx, y: Fx, z: Fx) -> (r: Vec3)
        ensures
            r.x == x && r.y == y && r.z == z,
    {
        Vec3 { x, y, z }
    }

    pub fn zero() -> (r: Vec3)
        ensures
            r.x.raw == 0 && r.y.raw == 0 && r.z.raw == 0,
    {
        Vec3 { x: Fx { raw: 0 }, y: Fx { raw: 0 }, z: Fx { raw: 0 } }
    }

    pub fn unit_y() -> (r: Vec3)
        ensures
            r.x.raw == 0 && r.y.raw == SCALE && r.z.raw == 0,
    {
        Vec3 { x: Fx { raw: 0 }, y: Fx { raw: SCALE }, z: Fx { raw: 0 } }
    }

    pub fn unit_z() -> (r: Vec3)
        ensures
            r.x.raw == 0 && r.y.raw == 0 && r.z.raw == SCALE,
    {
        Vec3 { x: Fx { raw: 0 }, y: Fx { raw: 0 }, z: Fx { raw: SCALE } }
    }

    /// Whether every component's magnitude is at most `b`.
    pub fn within(&self, b: i64) -> (r: bool)
        requires
            b >= 0,
        ensures
            r <==> v3_bounded(*self, b as int),
    {
        -b <= self.x.raw && self.x.raw <= b && -b <= self.y.raw && self.y.raw <= b && -b
            <= self.z.raw && self.z.raw <= b
    }

    pub fn is_zero(&self) -> (r: bool)
        ensures
            r <==> (self.x.raw == 0 && self.y.raw == 0 && self.z.raw == 0),
    {
        self.x.raw == 0 && self.y.raw == 0 && self.z.raw == 0
    }

    pub fn plus(self, o: Vec3) -> (r: Vec3)
        requires
            fits_i64(self.x.raw + o.x.raw),
            fits_i64(self.y.raw + o.y.raw),
            fits_i64(self.z.raw + o.z.raw),
        ensures
            r.x.raw == self.x.raw + o.x.raw,
            r.y.raw == self.y.raw + o.y.raw,
            r.z.raw == self.z.raw + o.z.raw,
    {
        Vec3 { x: self.x.plus(o.x), y: self.y.plus(o.y), z: self.z.plus(o.z) }
    }

    pub fn minus(self, o: Vec3) -> (r: Vec3)
        requires
            fits_i64(self.x.raw - o.x.raw),
            fits_i64(self.y.raw - o.y.raw),
            fits_i64(self.z.raw - o.z.raw),
        ensures
            r.x.raw == self.x.raw - o.x.raw,
            r.y.raw == self.y.raw - o.y.raw,
            r.z.raw == self.z.raw - o.z.raw,
    {
        Vec3 { x: self.x.minus(o.x), y: self.y.minus(o.y), z: self.z.minus(o.z) }
    }

    /// Componentwise scaling by a scalar.
    pub fn scaled(self, s: Fx) -> (r: Vec3)
        requires
            v3_bounded(self, V3_LIM as int),
            -V3_LIM <= s.raw <= V3_LIM,
        ensures
            r.x.raw == fx_mul(self.x.raw as int, s.raw as int),
            r.y.raw == fx_mul(self.y.raw as int, s.raw as int),
            r.z.raw == fx_mul(self.z.raw as int, s.raw as int),
    {
        proof {
            lemma_fx_mul_mag(self.x.raw as int, s.raw as int, V3_LIM as int, V3_LIM as int);
            lemma_fx_mul_mag(self.y.raw as int, s.raw as int, V3_LIM as int, V3_LIM as int);
            lemma_fx_mul_mag(self.z.raw as int, s.raw as int, V3_LIM as int, V3_LIM as int);
        }
        Vec3 { x: self.x.times(s), y: self.y.times(s), z: self.z.times(s) }
    }

    pub fn dot(self, o: Vec3) -> (r: Fx)
        requires
            v3_bounded(self, V3_LIM as int),
            v3_bounded(o, V3_LIM as int),
        ensures
            r.raw == dot_spec(self, o),
    {
        proof {
            lemma_fx_mul_mag(self.x.raw as int, o.x.raw as int, V3_LIM as int, V3_LIM as int);
            lemma_fx_mul_mag(self.y.raw as int, o.y.raw as int, V3_LIM as int, V3_LIM as int);
            lemma_fx_mul_mag(self.z.raw as int, o.z.raw as int, V3_LIM as int, V3_LIM as int);
        }
        self.x.times(o.x).plus(self.y.times(o.y)).plus(self.z.times(o.z))
    }

    pub fn cross(self, o: Vec3) -> (r: Vec3)
        requires
            v3_bounded(self, V3_LIM as int),
            v3_bounded(o, V3_LIM as int),
        ensures
            r == cross_spec(self, o),
    {
        proof {
            lemma_fx_mul_mag(self.x.raw as int, o.x.raw as int, V3_LIM as int, V3_LIM as int);
            lemma_fx_mul_mag(self.x.raw as int, o.y.raw as int, V3_LIM as int, V3_LIM as int);
            lemma_fx_mul_mag(self.x.raw as int, o.z.raw as int, V3_LIM as int, V3_LIM as int);
            lemma_fx_mul_mag(self.y.raw as int, o.x.raw as int, V3_LIM as int, V3_LIM as int);
            lemma_fx_mul_mag(self.y.raw as int, o.y.raw as int, V3_LIM as int, V3_LIM as int);
            lemma_fx_mul_mag(self.y.raw as int, o.z.raw as int, V3_LIM as int, V3_LIM as int);
            lemma_fx_mul_mag(self.z.raw as int, o.x.raw as int, V3_LIM as int, V3_LIM as int);
            lemma_fx_mul_mag(self.z.raw as int, o.y.raw as int, V3_LIM as int, V3_LIM as int);
            lemma_fx_mul_mag(self.z.raw as int, o.z.raw as int, V3_LIM as int, V3_LIM as int);
        }
        Vec3 {
            x: self.y.times(o.z).minus(self.z.times(o.y)),
            y: self.z.times(o.x).minus(self.x.times(o.z)),
            z: self.x.times(o.y).minus(self.y.times(o.x)),
        }
    }

    /// The length of the vector as a fixed-point scalar.
    pub fn magnitude(self) -> (r: Fx)
        requires
            v3_bounded(self, 0x40_0000_0000),
        ensures
            r.raw == sqrt_floor(norm_sq(self)),
            is_sqrt(norm_sq(self), r.raw as int),
            0 <= r.raw <= 0x80_0000_0000,
    {
        let xi: i128 = self.x.raw as i128;
        let yi: i128 = self.y.raw as i128;
        let zi: i128 = self.z.raw as i128;
        proof {
            lemma_mul_mag(xi as int, xi as int, 0x40_0000_0000, 0x40_0000_0000);
            lemma_mul_mag(yi as int, yi as int, 0x40_0000_0000, 0x40_0000_0000);
            lemma_mul_mag(zi as int, zi as int, 0x40_0000_0000, 0x40_0000_0000);
            assert(xi * xi >= 0) by (nonlinear_arith);
            assert(yi * yi >= 0) by (nonlinear_arith);
            assert(zi * zi >= 0) by (nonlinear_arith);
        }
        let n: i128 = xi * xi + yi * yi + zi * zi;
        proof {
            assert(n >= 0);
            assert(n as u128 == n as int);
            assert(norm_sq(self) == n as int);
        }
        let l: u64 = isqrt_u128(n as u128);
        proof {
            assert(is_sqrt(n as int, l as int));
            assert(l as int <= 0x80_0000_0000) by (nonlinear_arith)
                requires
                    is_sqrt(n as int, l as int),
                    n as int <= 3 * 0x1000_0000_0000_0000_0000,
            ;
        }
        Fx { raw: l as i64 }
    }

    /// Unit vector in the direction of `self`; `None` exactly for the zero
    /// vector. Components of the result are bounded by one unit.
    pub fn normalized(self) -> (r: Option<Vec3>)
        requires
            v3_bounded(self, 0x40_0000_0000),
        ensures
            match r {
                Some(u) => !(self.x.raw == 0 && self.y.raw == 0 && self.z.raw == 0) && u
                    == normalize_spec(self) && v3_bounded(u, SCALE as int),
                None => self.x.raw == 0 && self.y.raw == 0 && self.z.raw == 0,
            },
    {
        let xi: i128 = self.x.raw as i128;
        let yi: i128 = self.y.raw as i128;
        let zi: i128 = self.z.raw as i128;
        proof {
            lemma_mul_mag(xi as int, xi as int, 0x40_0000_0000, 0x40_0000_0000);
            lemma_mul_mag(yi as int, yi as int, 0x40_0000_0000, 0x40_0000_0000);
            lemma_mul_mag(zi as int, zi as int, 0x40_0000_0000, 0x40_0000_0000);
            assert(xi * xi >= 0) by (nonlinear_arith);
            assert(yi * yi >= 0) by (nonlinear_arith);
            assert(zi * zi >= 0) by (nonlinear_arith);
        }
        let n: i128 = xi * xi + yi * yi + zi * zi;
        proof {
            assert(n >= 0);
            assert(n as u128 == n as int);
            assert(norm_sq(self) == n as int);
        }
        let l: u64 = isqrt_u128(n as u128);
        if l == 0 {
            proof {
                assert(norm_sq(self) == n);
                assert(is_sqrt((n as u128) as int, l as int));
                assert((l as int + 1) * (l as int + 1) == 1) by (nonlinear_arith)
                    requires
                        l as int == 0,
                ;
                assert(n < 1);
                assert(xi * xi == 0 && yi * yi == 0 && zi * zi == 0);
                assert(xi == 0) by (nonlinear_arith)
                    requires
                        xi * xi == 0,
                ;
                assert(yi == 0) by (nonlinear_arith)
                    requires
                        yi * yi == 0,
                ;
                assert(zi == 0) by (nonlinear_arith)
                    requires
                        zi * zi == 0,
                ;
            }
            None
        } else {
            proof {
                lemma_component_le_sqrt(xi as int, n as int, l as int);
                lemma_component_le_sqrt(yi as int, n as int, l as int);
                lemma_component_le_sqrt(zi as int, n as int, l as int);
            }
            let ux = div_by_len(xi, l);
            let uy = div_by_len(yi, l);
            let uz = div_by_len(zi, l);
            proof {
                assert(is_sqrt(n as int, l as int));
                assert(sqrt_floor(norm_sq(self)) == l as int);
                assert(n >= 1) by (nonlinear_arith)
                    requires
                        is_sqrt(n as int, l as int),
                        l as int >= 1,
                ;
                if self.x.raw == 0 && self.y.raw == 0 && self.z.raw == 0 {
                    assert(xi * xi == 0 && yi * yi == 0 && zi * zi == 0) by (nonlinear_arith)
                        requires
                            xi == 0 && yi == 0 && zi == 0,
                    ;
                    assert(n == 0);
                }
                assert(Vec3 { x: ux, y: uy, z: uz } == normalize_spec(self));
            }
            Some(Vec3 { x: ux, y: uy, z: uz })
        }
    }
}

/// A componentwise scaling is bounded by the product of the bounds.
pub proof fn lemma_scale_bound(v: Vec3, s: int, vb: int, sb: int)
    requires
        v3_bounded(v, vb),
        -sb <= s <= sb,
        0 < vb,
        0 < sb,
        vb * sb <= 0x1000_0000_0000_0000,
    ensures
        v3_bounded(v3_scale_spec(v, s), tz_div(vb * sb, SCALE as int) + 1),
{
    lemma_fx_mul_mag(v.x.raw as int, s, vb, sb);
    lemma_fx_mul_mag(v.y.raw as int, s, vb, sb);
    lemma_fx_mul_mag(v.z.raw as int, s, vb, sb);
}

/// A component of a vector is bounded by the integer square root of the
/// vector's squared length.
proof fn lemma_component_le_sqrt(c: int, n: int, l: int)
    by (nonlinear_arith)
    requires
        is_sqrt(n, l),
        c * c <= n,
    ensures
        -l <= c <= l,
{
}

/// Divide a raw component (scaled up by one unit) by a positive length.
fn div_by_len(c: i128, l: u64) -> (r: Fx)
    requires
        l > 0,
        -0x40_0000_0000 <= c <= 0x40_0000_0000,
        -(l as int) <= c <= l as int,
    ensures
        r.raw == tz_div(c * SCALE, l as int),
        -SCALE <= r.raw <= SCALE,
{
    let num: i128 = c * (SCALE as i128);
    let li: i128 = l as i128;
    let q: i128 = if num >= 0 {
        num / li
    } else {
        -((-num) / li)
    };
    proof {
        lemma_mul_mag(c as int, SCALE as int, l as int, SCALE as int);
        lemma_tz_div_mag(num as int, l as int, l as int * SCALE as int);
        lemma_div_multiples_vanish(SCALE as int, l as int);
        assert(l as int * SCALE as int == SCALE as int * l as int) by (nonlinear_arith);
        assert(tz_div(l as int * SCALE as int, l as int) == SCALE as int);
    }
    Fx { raw: q as i64 }
}

} // verus!
