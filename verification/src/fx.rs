//! Signed fixed-point arithmetic with 32 fractional bits.
//!
//! A physical quantity `v` is stored as the integer `round(v * 2^32)` in an
//! `i64`, giving a resolution of about `2.3e-10` over the range
//! `[-2^31, 2^31)`. Addition, subtraction, negation and scaling saturate at
//! the `i64` range instead of wrapping, so every operation is total and its
//! result is pinned exactly by a spec function.

use vstd::prelude::*;

verus! {

/// The fixed-point scale factor, `2^32`.
pub const SCALE: i64 = 4294967296;

/// The number one (`2^32` raw units).
pub const ONE_RAW: i64 = 4294967296;

/// Minus one.
pub const NEG_ONE_RAW: i64 = -4294967296;

/// The number two.
pub const TWO_RAW: i64 = 8589934592;

/// The closest representable value to the circle constant pi.
pub const PI_RAW: i64 = 13493037705;

/// The closest representable value to two pi.
pub const TWO_PI_RAW: i64 = 26986075409;

/// The closest representable value to pi over two.
pub const HALF_PI_RAW: i64 = 6746518852;

/// A fixed-point number: the real value `raw / 2^32`.
#[derive(Clone, Copy, Debug, PartialEq, Eq, Structural)]
pub struct Fx {
    pub raw: i64,
}

/// Magnitude of a mathematical integer.
pub open spec fn iabs(v: int) -> int {
    if v >= 0 {
        v
    } else {
        -v
    }
}

/// Saturation of a mathematical integer at the `i64` range.
pub open spec fn sat64(v: int) -> int {
    if v > i64::MAX as int {
        i64::MAX as int
    } else if v < i64::MIN as int {
        i64::MIN as int
    } else {
        v
    }
}

/// Truncating (round-toward-zero) division, as Rust's `/` computes it on
/// signed integers. Meaningful only for `d != 0`.
pub open spec fn tdiv(n: int, d: int) -> int {
    if (n >= 0) == (d >= 0) {
        iabs(n) / iabs(d)
    } else {
        -(iabs(n) / iabs(d))
    }
}

/// The fixed-point value whose raw representation is `v` saturated at `i64`.
pub open spec fn fx_of(v: int) -> Fx {
    Fx { raw: sat64(v) as i64 }
}

/// Saturating fixed-point addition.
pub open spec fn s_add(a: Fx, b: Fx) -> Fx {
    fx_of(a.raw + b.raw)
}

/// Saturating fixed-point subtraction.
pub open spec fn s_sub(a: Fx, b: Fx) -> Fx {
    fx_of(a.raw - b.raw)
}

/// Saturating fixed-point negation.
pub open spec fn s_neg(a: Fx) -> Fx {
    fx_of(-a.raw)
}

/// Saturating fixed-point multiplication: the raw product rescaled by `2^32`
/// with truncation toward zero.
pub open spec fn s_mul(a: Fx, b: Fx) -> Fx {
    fx_of(tdiv(a.raw * b.raw, SCALE as int))
}

/// Saturating fixed-point division, truncating toward zero.
/// Meaningful only for `b.raw != 0`.
pub open spec fn s_div(a: Fx, b: Fx) -> Fx {
    if b.raw == 0 {
        Fx { raw: 0 }
    } else {
        fx_of(tdiv(a.raw * (SCALE as int), b.raw as int))
    }
}

/// Clamping into `[lo, hi]`.
pub open spec fn s_clamp(v: Fx, lo: Fx, hi: Fx) -> Fx {
    if v.raw < lo.raw {
        lo
    } else if v.raw > hi.raw {
        hi
    } else {
        v
    }
}

/// The magnitude of an `i64`, widened so that `i64::MIN` is representable.
fn abs_mag(v: i64) -> (r: u128)
    ensures
        r as int == iabs(v as int),
{
    if v >= 0 {
        v as u128
    } else {
        (-(v as i128)) as u128
    }
}

/// Magnitudes multiply and signs combine: the arithmetic facts about `a * b`
/// that the saturating multiplication and division need.
pub proof fn lemma_abs_mul_pub(a: int, b: int)
    ensures
        iabs(a * b) == iabs(a) * iabs(b),
        ((a < 0) == (b < 0)) ==> a * b >= 0,
        ((a < 0) != (b < 0)) ==> a * b <= 0,
{
    assert(iabs(a * b) == iabs(a) * iabs(b) && (((a < 0) == (b < 0)) ==> a * b >= 0) && (((a
        < 0) != (b < 0)) ==> a * b <= 0)) by (nonlinear_arith);
}

impl Fx {
    /// The fixed-point representation of a small integer.
    pub fn of_int(n: i32) -> (r: Fx)
        ensures
            r.raw == n as int * SCALE,
    {
        Fx { raw: (n as i64) * SCALE }
    }

    /// Saturating addition.
    pub fn sat_add(self, other: Fx) -> (r: Fx)
        ensures
            r == s_add(self, other),
    {
        let s: i128 = (self.raw as i128) + (other.raw as i128);
        if s > (i64::MAX as i128) {
            Fx { raw: i64::MAX }
        } else if s < (i64::MIN as i128) {
            Fx { raw: i64::MIN }
        } else {
            Fx { raw: s as i64 }
        }
    }

    /// Saturating subtraction.
    pub fn sat_sub(self, other: Fx) -> (r: Fx)
        ensures
            r == s_sub(self, other),
    {
        let s: i128 = (self.raw as i128) - (other.raw as i128);
        if s > (i64::MAX as i128) {
            Fx { raw: i64::MAX }
        } else if s < (i64::MIN as i128) {
            Fx { raw: i64::MIN }
        } else {
            Fx { raw: s as i64 }
        }
    }

    /// Saturating negation.
    pub fn sat_neg(self) -> (r: Fx)
        ensures
            r == s_neg(self),
    {
        if self.raw == i64::MIN {
            Fx { raw: i64::MAX }
        } else {
            Fx { raw: -self.raw }
        }
    }

    /// Saturating multiplication with rescaling by `2^32`.
    pub fn sat_mul(self, other: Fx) -> (r: Fx)
        ensures
            r == s_mul(self, other),
    {
        let a: i64 = self.raw;
        let b: i64 = other.raw;
        let sneg: bool = (a < 0) != (b < 0);
        let ma: u128 = abs_mag(a);
        let mb: u128 = abs_mag(b);
        proof {
            lemma_abs_mul_pub(a as int, b as int);
            assert((ma as int) * (mb as int) <= 0x8000000000000000int * 0x8000000000000000int)
                by (nonlinear_arith)
                requires
                    0 <= ma as int <= 0x8000000000000000int,
                    0 <= mb as int <= 0x8000000000000000int,
            ;
        }
        let prod: u128 = ma * mb;
        let q: u128 = prod / 4294967296u128;
        if sneg {
            if q >= 9223372036854775808u128 {
                Fx { raw: i64::MIN }
            } else {
                Fx { raw: -(q as i64) }
            }
        } else {
            if q > (i64::MAX as u128) {
                Fx { raw: i64::MAX }
            } else {
                Fx { raw: q as i64 }
            }
        }
    }

    /// Saturating division with rescaling by `2^32`, truncating toward zero.
    pub fn sat_div(self, other: Fx) -> (r: Fx)
        requires
            other.raw != 0,
        ensures
            r == s_div(self, other),
    {
        let a: i64 = self.raw;
        let b: i64 = other.raw;
        let sneg: bool = (a < 0) != (b < 0);
        let ma: u128 = abs_mag(a);
        let mb: u128 = abs_mag(b);
        proof {
            lemma_abs_mul_pub(a as int, SCALE as int);
        }
        let num: u128 = ma * 4294967296u128;
        let q: u128 = num / mb;
        proof {
            assert(iabs(a as int * SCALE as int) == iabs(a as int) * (SCALE as int));
            assert((a as int * SCALE as int >= 0) == (a >= 0));
            assert(((a as int * SCALE as int >= 0) == (b >= 0)) == !sneg);
        }
        if sneg {
            if q >= 9223372036854775808u128 {
                Fx { raw: i64::MIN }
            } else {
                Fx { raw: -(q as i64) }
            }
        } else {
            if q > (i64::MAX as u128) {
                Fx { raw: i64::MAX }
            } else {
                Fx { raw: q as i64 }
            }
        }
    }

    /// Clamping into `[lo, hi]`.
    pub fn clamped(self, lo: Fx, hi: Fx) -> (r: Fx)
        requires
            lo.raw <= hi.raw,
        ensures
            r == s_clamp(self, lo, hi),
            lo.raw <= r.raw <= hi.raw,
    {
        if self.raw < lo.raw {
            lo
        } else if self.raw > hi.raw {
            hi
        } else {
            self
        }
    }
}

} // verus!
