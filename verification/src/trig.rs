//! Fixed-point sine and cosine.
//!
//! The angle is first reduced modulo two pi into `[-pi, pi]`, then folded by
//! the half-angle symmetries into `[-pi/2, pi/2]`, where a degree-nine Taylor
//! polynomial is evaluated in nested form. The worst-case error against the
//! real sine is below `4e-6`, far finer than anything the simulation reads.

use vstd::arithmetic::div_mod::lemma_div_nonincreasing;
use vstd::arithmetic::div_mod::lemma_div_pos_is_pos;
use vstd::prelude::*;

use crate::fx::Fx;
use crate::fx::HALF_PI_RAW;
use crate::fx::ONE_RAW;
use crate::fx::PI_RAW;
use crate::fx::SCALE;
use crate::fx::TWO_PI_RAW;
use crate::fx::iabs;
use crate::fx::s_mul;
use crate::fx::s_sub;
use crate::fx::tdiv;

verus! {

/// The remainder of `a` modulo two pi, truncated toward zero (the sign of the
/// result is the sign of `a`, and its magnitude is below two pi).
pub open spec fn trem_two_pi(a: int) -> int {
    if a >= 0 {
        a % (TWO_PI_RAW as int)
    } else {
        -((-a) % (TWO_PI_RAW as int))
    }
}

/// Range reduction into `[-pi, pi]`.
pub open spec fn reduce_spec(a: int) -> int {
    let m = trem_two_pi(a);
    if m > PI_RAW as int {
        m - TWO_PI_RAW as int
    } else if m < -(PI_RAW as int) {
        m + TWO_PI_RAW as int
    } else {
        m
    }
}

/// Folding a reduced angle into `[-pi/2, pi/2]` by the symmetries
/// `sin(pi - x) == sin(x)` and `sin(-pi - x) == sin(x)`.
pub open spec fn fold_spec(x: int) -> int {
    if x > HALF_PI_RAW as int {
        PI_RAW as int - x
    } else if x < -(HALF_PI_RAW as int) {
        -(PI_RAW as int) - x
    } else {
        x
    }
}

/// Fixed-point division of a nonnegative value by a small positive constant.
pub open spec fn div_pos_spec(a: Fx, d: int) -> Fx {
    Fx { raw: ((a.raw as int) / d) as i64 }
}

/// The degree-nine Taylor polynomial of sine in nested form:
/// `x * (1 - x^2/6 * (1 - x^2/20 * (1 - x^2/42 * (1 - x^2/72))))`.
pub open spec fn sin_poly_spec(x: Fx) -> Fx {
    let one = Fx { raw: ONE_RAW };
    let x2 = s_mul(x, x);
    let u4 = s_sub(one, div_pos_spec(x2, 72));
    let u3 = s_sub(one, s_mul(div_pos_spec(x2, 42), u4));
    let u2 = s_sub(one, s_mul(div_pos_spec(x2, 20), u3));
    let u1 = s_sub(one, s_mul(div_pos_spec(x2, 6), u2));
    s_mul(x, u1)
}

/// The sine of a fixed-point angle in radians.
pub open spec fn sin_spec(a: Fx) -> Fx {
    sin_poly_spec(Fx { raw: fold_spec(reduce_spec(a.raw as int)) as i64 })
}

/// The cosine of a fixed-point angle, as the sine shifted by pi over two.
pub open spec fn cos_spec(a: Fx) -> Fx {
    sin_spec(crate::fx::s_add(a, Fx { raw: HALF_PI_RAW }))
}

/// The magnitude of an `i64`, widened so that `i64::MIN` is representable.
fn mag64(v: i64) -> (r: u64)
    ensures
        r as int == iabs(v as int),
{
    if v >= 0 {
        v as u64
    } else {
        (-(v as i128)) as u64
    }
}

/// Truncating division of a nonnegative `i64` by a positive constant.
fn pos_div(n: i64, d: u64) -> (r: i64)
    requires
        0 <= n,
        0 < d,
    ensures
        r as int == (n as int) / (d as int),
{
    proof {
        lemma_div_pos_is_pos(n as int, d as int);
        lemma_div_nonincreasing(n as int, d as int);
    }
    ((n as u64) / d) as i64
}

/// A square is never negative: the raw value of `x * x`.
pub proof fn lemma_square_nonneg(x: Fx)
    ensures
        0 <= s_mul(x, x).raw,
{
    crate::fx::lemma_abs_mul_pub(x.raw as int, x.raw as int);
    lemma_div_pos_is_pos(iabs(x.raw as int * x.raw as int), SCALE as int);
}

/// Reduction of an angle into `[-pi, pi]`.
pub fn reduce_angle(a: Fx) -> (r: Fx)
    ensures
        r.raw as int == reduce_spec(a.raw as int),
        -(PI_RAW as int) <= r.raw as int <= PI_RAW as int,
{
    let m: u64 = mag64(a.raw) % (TWO_PI_RAW as u64);
    let x: i64 = if a.raw >= 0 {
        m as i64
    } else {
        -(m as i64)
    };
    if x > PI_RAW {
        Fx { raw: x - TWO_PI_RAW }
    } else if x < -PI_RAW {
        Fx { raw: x + TWO_PI_RAW }
    } else {
        Fx { raw: x }
    }
}

/// The nested Taylor polynomial, valid as an approximation on
/// `[-pi/2, pi/2]` and defined (with saturation) everywhere.
fn sin_poly(x: Fx) -> (r: Fx)
    ensures
        r == sin_poly_spec(x),
{
    let one = Fx { raw: ONE_RAW };
    let x2 = x.sat_mul(x);
    proof {
        lemma_square_nonneg(x);
    }
    let u4 = one.sat_sub(Fx { raw: pos_div(x2.raw, 72) });
    let u3 = one.sat_sub(Fx { raw: pos_div(x2.raw, 42) }.sat_mul(u4));
    let u2 = one.sat_sub(Fx { raw: pos_div(x2.raw, 20) }.sat_mul(u3));
    let u1 = one.sat_sub(Fx { raw: pos_div(x2.raw, 6) }.sat_mul(u2));
    x.sat_mul(u1)
}

/// The sine of an angle in radians.
pub fn sin_fx(a: Fx) -> (r: Fx)
    ensures
        r == sin_spec(a),
{
    let x = reduce_angle(a);
    let y: i64 = if x.raw > HALF_PI_RAW {
        PI_RAW - x.raw
    } else if x.raw < -HALF_PI_RAW {
        -PI_RAW - x.raw
    } else {
        x.raw
    };
    sin_poly(Fx { raw: y })
}

/// The cosine of an angle in radians.
pub fn cos_fx(a: Fx) -> (r: Fx)
    ensures
        r == cos_spec(a),
{
    sin_fx(a.sat_add(Fx { raw: HALF_PI_RAW }))
}

} // verus!
