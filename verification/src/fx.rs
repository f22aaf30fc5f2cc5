//! Scalar 16.16 fixed-point arithmetic.
//!
//! A value `v: i64` stands for the rational number `v / 65536`. Every
//! operation is total: results that would leave the `i64` range saturate to
//! the nearest representable value, and division by zero yields zero, so no
//! operation can panic and no "not a number" state exists. Each executable
//! operation is specified exactly against a spec-level mirror.

use vstd::arithmetic::div_mod::{lemma_fundamental_div_mod, lemma_fundamental_div_mod_converse};
use vstd::prelude::*;

verus! {

/// The fixed-point representation of 1.0.
pub const FX_ONE: i64 = 65536;

/// Clip an unbounded integer to the `i64` range (saturation).
pub open spec fn fx_clip(x: int) -> i64 {
    if x > i64::MAX as int {
        i64::MAX
    } else if x < i64::MIN as int {
        i64::MIN
    } else {
        x as i64
    }
}

/// Floor division (rounds toward negative infinity), defined for `q != 0`.
pub open spec fn flr(p: int, q: int) -> int
    recommends
        q != 0,
{
    if q > 0 {
        p / q
    } else {
        (-p) / (-q)
    }
}

/// Saturating fixed-point addition.
pub open spec fn spec_add(a: i64, b: i64) -> i64 {
    fx_clip(a + b)
}

/// Saturating fixed-point subtraction.
pub open spec fn spec_sub(a: i64, b: i64) -> i64 {
    fx_clip(a - b)
}

/// Saturating fixed-point negation.
pub open spec fn spec_neg(a: i64) -> i64 {
    fx_clip(-a)
}

/// Saturating fixed-point multiplication: floor((a * b) / 65536).
pub open spec fn spec_mul(a: i64, b: i64) -> i64 {
    fx_clip((a * b) / (FX_ONE as int))
}

/// Saturating fixed-point division: floor((a * 65536) / b); zero when b == 0.
pub open spec fn spec_div(a: i64, b: i64) -> i64 {
    if b == 0 {
        0
    } else {
        fx_clip(flr(a * FX_ONE, b as int))
    }
}

/// Clamp to the unit range [0, 1] (in fixed point: [0, 65536]).
pub open spec fn spec_clamp01(a: i64) -> i64 {
    if a < 0 {
        0
    } else if a > FX_ONE {
        FX_ONE
    } else {
        a
    }
}

/// Floor division by a positive divisor equals the negated rounded-up
/// division of the negated dividend: (-m)/d == -((m + d - 1)/d) for m >= 0.
proof fn lemma_floor_neg_div(m: int, d: int)
    requires
        m >= 0,
        d > 0,
    ensures
        (-m) / d == -((m + d - 1) / d),
{
    lemma_fundamental_div_mod(m, d);
    let q = m / d;
    let r = m % d;
    assert(m == d * q + r);
    if r == 0 {
        assert(-m == (-q) * d + 0) by (nonlinear_arith)
            requires
                m == d * q + r,
                r == 0,
        ;
        lemma_fundamental_div_mod_converse(-m, d, -q, 0);
        assert(m + d - 1 == q * d + (d - 1)) by (nonlinear_arith)
            requires
                m == d * q + r,
                r == 0,
        ;
        lemma_fundamental_div_mod_converse(m + d - 1, d, q, d - 1);
    } else {
        assert(-m == (-q - 1) * d + (d - r)) by (nonlinear_arith)
            requires
                m == d * q + r,
        ;
        lemma_fundamental_div_mod_converse(-m, d, -q - 1, d - r);
        assert(m + d - 1 == (q + 1) * d + (r - 1)) by (nonlinear_arith)
            requires
                m == d * q + r,
        ;
        lemma_fundamental_div_mod_converse(m + d - 1, d, q + 1, r - 1);
    }
}

/// Division of a non-negative dividend by a positive divisor is
/// non-negative and no larger than the dividend.
pub proof fn lemma_div_nonneg(p: int, d: int)
    requires
        p >= 0,
        d > 0,
    ensures
        p / d >= 0,
        p / d <= p,
{
    lemma_fundamental_div_mod(p, d);
    let q = p / d;
    let r = p % d;
    assert(p == d * q + r);
    assert(q >= 0) by (nonlinear_arith)
        requires
            p == d * q + r,
            p >= 0,
            d > 0,
            0 <= r < d,
    ;
    assert(q <= p) by (nonlinear_arith)
        requires
            p == d * q + r,
            q >= 0,
            d > 0,
            0 <= r < d,
    ;
}

/// Division of a negative dividend by a positive divisor is negative.
pub proof fn lemma_div_neg(p: int, d: int)
    requires
        p < 0,
        d > 0,
    ensures
        p / d < 0,
{
    lemma_fundamental_div_mod(p, d);
    let q = p / d;
    let r = p % d;
    assert(q < 0) by (nonlinear_arith)
        requires
            p == d * q + r,
            0 <= r < d,
            p < 0,
            d > 0,
    ;
}

/// Saturating addition.
pub fn fx_add(a: i64, b: i64) -> (r: i64)
    ensures
        r == spec_add(a, b),
{
    match a.checked_add(b) {
        Some(v) => v,
        None => {
            if a >= 0 {
                i64::MAX
            } else {
                i64::MIN
            }
        },
    }
}

/// Saturating subtraction.
pub fn fx_sub(a: i64, b: i64) -> (r: i64)
    ensures
        r == spec_sub(a, b),
{
    match a.checked_sub(b) {
        Some(v) => v,
        None => {
            if a >= 0 {
                i64::MAX
            } else {
                i64::MIN
            }
        },
    }
}

/// Saturating negation (only `i64::MIN` saturates, to `i64::MAX`).
pub fn fx_neg(a: i64) -> (r: i64)
    ensures
        r == spec_neg(a),
{
    if a == i64::MIN {
        i64::MAX
    } else {
        -a
    }
}

/// Saturating fixed-point multiplication.
pub fn fx_mul(a: i64, b: i64) -> (r: i64)
    ensures
        r == spec_mul(a, b),
{
    proof {
        assert(-0x4000_0000_0000_0000_0000_0000_0000_0000 <= a as int * b as int
            <= 0x4000_0000_0000_0000_0000_0000_0000_0000) by (nonlinear_arith)
            requires
                i64::MIN <= a <= i64::MAX,
                i64::MIN <= b <= i64::MAX,
        ;
    }
    let p: i128 = (a as i128) * (b as i128);
    let q: i128 = if p >= 0 {
        let mag: u128 = p as u128;
        (mag / 65536) as i128
    } else {
        let mag: u128 = (-p) as u128;
        proof {
            lemma_floor_neg_div(mag as int, 65536);
            lemma_div_nonneg(mag as int + 65535, 65536);
        }
        -(((mag + 65535) / 65536) as i128)
    };
    proof {
        if p >= 0 {
            lemma_div_nonneg(p as int, 65536);
        }
        assert(q == (a * b) / (FX_ONE as int));
    }
    if q > (i64::MAX as i128) {
        i64::MAX
    } else if q < (i64::MIN as i128) {
        i64::MIN
    } else {
        q as i64
    }
}

/// Saturating fixed-point division; yields 0 for a zero divisor.
pub fn fx_div(a: i64, b: i64) -> (r: i64)
    ensures
        r == spec_div(a, b),
{
    if b == 0 {
        return 0;
    }
    let p: i128 = (a as i128) * 65536;
    // Normalize to a positive divisor so that floor rounding is uniform.
    let (pn, dn): (i128, i128) = if b < 0 {
        (-p, -(b as i128))
    } else {
        (p, b as i128)
    };
    let q: i128 = if pn >= 0 {
        let mag: u128 = pn as u128;
        let d: u128 = dn as u128;
        (mag / d) as i128
    } else {
        let mag: u128 = (-pn) as u128;
        let d: u128 = dn as u128;
        proof {
            lemma_floor_neg_div(mag as int, dn as int);
            lemma_div_nonneg(mag as int + (dn as int - 1), dn as int);
            lemma_div_nonneg(mag as int, dn as int);
        }
        -(((mag + (d - 1)) / d) as i128)
    };
    proof {
        if pn >= 0 {
            lemma_div_nonneg(pn as int, dn as int);
        }
        assert(q == flr(a * FX_ONE, b as int));
    }
    if q > (i64::MAX as i128) {
        i64::MAX
    } else if q < (i64::MIN as i128) {
        i64::MIN
    } else {
        q as i64
    }
}

/// `r` is the integer square root of `n`: the greatest integer whose square
/// does not exceed `n`.
pub open spec fn is_sqrt(n: int, r: int) -> bool {
    0 <= r && r * r <= n && n < (r + 1) * (r + 1)
}

/// The integer square root of `n` (meaningful for `n >= 0`).
pub open spec fn sqrt_of(n: int) -> int {
    choose|r: int| is_sqrt(n, r)
}

/// Every non-negative integer has an integer square root.
pub proof fn lemma_sqrt_exists(n: int)
    requires
        n >= 0,
    ensures
        is_sqrt(n, sqrt_of(n)),
    decreases n,
{
    if n == 0 {
        assert(is_sqrt(0, 0));
    } else {
        lemma_sqrt_exists(n - 1);
        let r = sqrt_of(n - 1);
        if (r + 1) * (r + 1) == n {
            assert((r + 2) * (r + 2) > n) by (nonlinear_arith)
                requires
                    (r + 1) * (r + 1) == n,
                    r >= 0,
            ;
            assert(is_sqrt(n, r + 1));
        } else {
            assert(is_sqrt(n, r));
        }
    }
}

/// The integer square root is unique.
pub proof fn lemma_sqrt_unique(n: int, r1: int, r2: int)
    requires
        is_sqrt(n, r1),
        is_sqrt(n, r2),
    ensures
        r1 == r2,
{
    assert(r1 == r2) by (nonlinear_arith)
        requires
            0 <= r1,
            0 <= r2,
            r1 * r1 <= n,
            n < (r1 + 1) * (r1 + 1),
            r2 * r2 <= n,
            n < (r2 + 1) * (r2 + 1),
    ;
}

/// Integer square root by binary search.
fn sqrt_u128(n: u128) -> (r: u128)
    requires
        n < 0x4000_0000_0000_0000_0000_0000_0000_0000,
    ensures
        is_sqrt(n as int, r as int),
{
    let mut lo: u128 = 0;
    let mut hi: u128 = 0x8000_0000_0000_0000;
    proof {
        assert((hi as int) * (hi as int) > n as int) by (nonlinear_arith)
            requires
                hi == 0x8000_0000_0000_0000u128,
                n < 0x4000_0000_0000_0000_0000_0000_0000_0000u128,
        ;
    }
    while lo + 1 < hi
        invariant
            lo < hi <= 0x8000_0000_0000_0000,
            (lo as int) * (lo as int) <= n as int,
            (n as int) < (hi as int) * (hi as int),
        decreases hi - lo,
    {
        let mid = lo + (hi - lo) / 2;
        proof {
            assert((mid as int) * (mid as int) < 0x1_0000_0000_0000_0000_0000_0000_0000_0000)
                by (nonlinear_arith)
                requires
                    mid <= 0x8000_0000_0000_0000u128,
            ;
        }
        if mid * mid <= n {
            lo = mid;
        } else {
            hi = mid;
        }
    }
    lo
}

/// The fixed-point square root of `x` (zero for `x <= 0`): the integer
/// square root of `x * 65536`, which represents the square root of the
/// rational value that `x` stands for.
pub open spec fn spec_sqrt(x: i64) -> i64 {
    if x <= 0 {
        0
    } else {
        sqrt_of(x * FX_ONE) as i64
    }
}

/// Fixed-point square root; negative inputs yield zero.
pub fn fx_sqrt(x: i64) -> (r: i64)
    ensures
        r == spec_sqrt(x),
{
    if x <= 0 {
        return 0;
    }
    let n: u128 = (x as u128) * 65536;
    let r = sqrt_u128(n);
    proof {
        lemma_sqrt_exists(n as int);
        lemma_sqrt_unique(n as int, r as int, sqrt_of(n as int));
        assert(r as int * r as int <= n as int);
        assert(r < 0x1_0000_0000_0000) by (nonlinear_arith)
            requires
                r as int * r as int <= n as int,
                n < 0x1_0000_0000_0000_0000_0000_0000u128,
        ;
    }
    r as i64
}

/// Clamp to the unit interval.
pub fn fx_clamp01(a: i64) -> (r: i64)
    ensures
        r == spec_clamp01(a),
{
    if a < 0 {
        0
    } else if a > FX_ONE {
        FX_ONE
    } else {
        a
    }
}

} // verus!
