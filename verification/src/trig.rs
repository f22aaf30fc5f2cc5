//! Fixed-point trigonometry for the camera: range reduction to one period,
//! folding into the central half period, and an odd polynomial for the
//! sine. The results approximate the mathematical functions to a few
//! fixed-point units over the reduced range; each executable function is
//! specified exactly against its spec-level mirror.

use crate::fx::{
    fx_add, fx_div, fx_mul, fx_neg, fx_sub, lemma_div_nonneg, spec_add, spec_div, spec_mul,
    spec_neg, spec_sub,
};
use vstd::arithmetic::div_mod::{lemma_fundamental_div_mod, lemma_fundamental_div_mod_converse};
use vstd::prelude::*;

verus! {

/// Pi in 16.16 fixed point.
pub const PI_FX: i64 = 205887;

/// Pi / 2 in 16.16 fixed point.
pub const HALF_PI_FX: i64 = 102944;

/// 2 * Pi in 16.16 fixed point.
pub const TWO_PI_FX: i64 = 411775;

/// Pi / 180 in 16.16 fixed point: degrees to radians.
pub const DEG_TO_RAD_FX: i64 = 1144;

/// An angle reduced to one period around zero: the representative of `x`
/// modulo 2*Pi that lies in `[-Pi, Pi)`.
pub open spec fn spec_reduce_angle(x: i64) -> i64 {
    (((x + PI_FX) % (TWO_PI_FX as int)) - PI_FX) as i64
}

/// The Euclidean remainder of a negative dividend, computed from the
/// remainder of its negation.
proof fn lemma_mod_neg(p: int, q: int)
    requires
        p < 0,
        q > 0,
    ensures
        p % q == if (-p) % q == 0 {
            0int
        } else {
            q - ((-p) % q)
        },
{
    lemma_fundamental_div_mod(-p, q);
    let q0 = (-p) / q;
    let r0 = (-p) % q;
    if r0 == 0 {
        assert(p == (-q0) * q + 0) by (nonlinear_arith)
            requires
                -p == q * q0 + r0,
                r0 == 0,
        ;
        lemma_fundamental_div_mod_converse(p, q, -q0, 0);
    } else {
        assert(p == (-q0 - 1) * q + (q - r0)) by (nonlinear_arith)
            requires
                -p == q * q0 + r0,
        ;
        lemma_fundamental_div_mod_converse(p, q, -q0 - 1, q - r0);
    }
}

/// Reduce an angle to `[-Pi, Pi)`.
pub fn fx_reduce_angle(x: i64) -> (r: i64)
    ensures
        r == spec_reduce_angle(x),
{
    let p: i128 = (x as i128) + (PI_FX as i128);
    let m: u128 = if p >= 0 {
        (p as u128) % 411775
    } else {
        proof {
            lemma_mod_neg(p as int, TWO_PI_FX as int);
            lemma_div_nonneg((-p) as int, TWO_PI_FX as int);
        }
        let r0 = ((-p) as u128) % 411775;
        if r0 == 0 {
            0
        } else {
            411775 - r0
        }
    };
    proof {
        if p >= 0 {
            lemma_fundamental_div_mod(p as int, TWO_PI_FX as int);
        }
        assert(m as int == (x + PI_FX) % (TWO_PI_FX as int));
    }
    (m as i64) - PI_FX
}

/// Fold a reduced angle into the central half period `[-Pi/2, Pi/2]`,
/// using the symmetry of the sine about the quarter turns.
pub open spec fn spec_fold_half(y: i64) -> i64 {
    if y > HALF_PI_FX {
        spec_sub(PI_FX, y)
    } else if y < -HALF_PI_FX {
        spec_sub(spec_neg(PI_FX), y)
    } else {
        y
    }
}

/// The odd sine polynomial `y - y^3/6 + y^5/120 - y^7/5040` on the central
/// half period.
pub open spec fn spec_sin_poly(y: i64) -> i64 {
    let y2 = spec_mul(y, y);
    let y3 = spec_mul(y2, y);
    let y5 = spec_mul(y2, y3);
    let y7 = spec_mul(y2, y5);
    spec_add(
        spec_sub(y, spec_div(y3, 393216)),
        spec_sub(spec_div(y5, 7864320), spec_div(y7, 330301440)),
    )
}

/// The fixed-point sine.
pub open spec fn spec_sin(x: i64) -> i64 {
    spec_sin_poly(spec_fold_half(spec_reduce_angle(x)))
}

/// The fixed-point cosine: the sine shifted a quarter turn.
pub open spec fn spec_cos(x: i64) -> i64 {
    spec_sin(spec_add(x, HALF_PI_FX))
}

/// The fixed-point tangent: sine over cosine (zero on a zero cosine).
pub open spec fn spec_tan(x: i64) -> i64 {
    spec_div(spec_sin(x), spec_cos(x))
}

/// The fixed-point sine.
pub fn fx_sin(x: i64) -> (r: i64)
    ensures
        r == spec_sin(x),
{
    let red = fx_reduce_angle(x);
    let y = if red > HALF_PI_FX {
        fx_sub(PI_FX, red)
    } else if red < -HALF_PI_FX {
        fx_sub(fx_neg(PI_FX), red)
    } else {
        red
    };
    let y2 = fx_mul(y, y);
    let y3 = fx_mul(y2, y);
    let y5 = fx_mul(y2, y3);
    let y7 = fx_mul(y2, y5);
    fx_add(fx_sub(y, fx_div(y3, 393216)), fx_sub(fx_div(y5, 7864320), fx_div(y7, 330301440)))
}

/// The fixed-point cosine.
pub fn fx_cos(x: i64) -> (r: i64)
    ensures
        r == spec_cos(x),
{
    fx_sin(fx_add(x, HALF_PI_FX))
}

/// The fixed-point tangent.
pub fn fx_tan(x: i64) -> (r: i64)
    ensures
        r == spec_tan(x),
{
    fx_div(fx_sin(x), fx_cos(x))
}

} // verus!
