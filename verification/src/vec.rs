//! Three-component fixed-point vectors: the coordinate, direction and color
//! type of the tracer. Every operation mirrors an exact spec-level
//! definition built from the scalar fixed-point operations.

use crate::fx::{
    fx_add, fx_div, fx_mul, fx_neg, fx_sqrt, fx_sub, spec_add, spec_div, spec_mul, spec_neg,
    spec_sqrt, spec_sub,
};
use vstd::prelude::*;

verus! {

/// A vector of three 16.16 fixed-point components.
#[derive(Clone, Copy, PartialEq, Eq, Structural, Debug)]
pub struct Fx3 {
    pub x: i64,
    pub y: i64,
    pub z: i64,
}

/// The zero vector.
pub open spec fn spec_v3_zero() -> Fx3 {
    Fx3 { x: 0, y: 0, z: 0 }
}

/// Componentwise saturating addition.
pub open spec fn spec_v3_add(a: Fx3, b: Fx3) -> Fx3 {
    Fx3 { x: spec_add(a.x, b.x), y: spec_add(a.y, b.y), z: spec_add(a.z, b.z) }
}

/// Componentwise saturating subtraction.
pub open spec fn spec_v3_sub(a: Fx3, b: Fx3) -> Fx3 {
    Fx3 { x: spec_sub(a.x, b.x), y: spec_sub(a.y, b.y), z: spec_sub(a.z, b.z) }
}

/// Componentwise saturating negation.
pub open spec fn spec_v3_neg(a: Fx3) -> Fx3 {
    Fx3 { x: spec_neg(a.x), y: spec_neg(a.y), z: spec_neg(a.z) }
}

/// Scaling by a fixed-point scalar.
pub open spec fn spec_v3_scale(a: Fx3, s: i64) -> Fx3 {
    Fx3 { x: spec_mul(a.x, s), y: spec_mul(a.y, s), z: spec_mul(a.z, s) }
}

/// Componentwise (Hadamard) product, used to tint colors.
pub open spec fn spec_v3_mul(a: Fx3, b: Fx3) -> Fx3 {
    Fx3 { x: spec_mul(a.x, b.x), y: spec_mul(a.y, b.y), z: spec_mul(a.z, b.z) }
}

/// Dot product.
pub open spec fn spec_v3_dot(a: Fx3, b: Fx3) -> i64 {
    spec_add(spec_add(spec_mul(a.x, b.x), spec_mul(a.y, b.y)), spec_mul(a.z, b.z))
}

/// Cross product.
pub open spec fn spec_v3_cross(a: Fx3, b: Fx3) -> Fx3 {
    Fx3 {
        x: spec_sub(spec_mul(a.y, b.z), spec_mul(a.z, b.y)),
        y: spec_sub(spec_mul(a.z, b.x), spec_mul(a.x, b.z)),
        z: spec_sub(spec_mul(a.x, b.y), spec_mul(a.y, b.x)),
    }
}

/// Euclidean length: the fixed-point square root of the self dot product.
pub open spec fn spec_v3_len(a: Fx3) -> i64 {
    spec_sqrt(spec_v3_dot(a, a))
}

/// Normalization; the zero vector (and any vector whose length rounds to
/// zero) normalizes to the zero vector instead of dividing by zero.
pub open spec fn spec_v3_normalize(a: Fx3) -> Fx3 {
    let l = spec_v3_len(a);
    if l == 0 {
        spec_v3_zero()
    } else {
        Fx3 { x: spec_div(a.x, l), y: spec_div(a.y, l), z: spec_div(a.z, l) }
    }
}

/// A vector's dot product with itself is non-negative, also after the
/// fixed-point rounding and saturation of each step.
pub proof fn lemma_dot_self_nonneg(a: Fx3)
    ensures
        spec_v3_dot(a, a) >= 0,
{
    assert(a.x * a.x >= 0) by (nonlinear_arith);
    assert(a.y * a.y >= 0) by (nonlinear_arith);
    assert(a.z * a.z >= 0) by (nonlinear_arith);
    crate::fx::lemma_div_nonneg(a.x * a.x, 65536);
    crate::fx::lemma_div_nonneg(a.y * a.y, 65536);
    crate::fx::lemma_div_nonneg(a.z * a.z, 65536);
}

impl Fx3 {
    /// Build a vector from its three components.
    pub fn new(x: i64, y: i64, z: i64) -> (r: Fx3)
        ensures
            r == (Fx3 { x, y, z }),
    {
        Fx3 { x, y, z }
    }

    /// The zero vector.
    pub fn zero() -> (r: Fx3)
        ensures
            r == spec_v3_zero(),
    {
        Fx3 { x: 0, y: 0, z: 0 }
    }

    /// Componentwise saturating addition.
    pub fn add(&self, o: &Fx3) -> (r: Fx3)
        ensures
            r == spec_v3_add(*self, *o),
    {
        Fx3 { x: fx_add(self.x, o.x), y: fx_add(self.y, o.y), z: fx_add(self.z, o.z) }
    }

    /// Componentwise saturating subtraction.
    pub fn sub(&self, o: &Fx3) -> (r: Fx3)
        ensures
            r == spec_v3_sub(*self, *o),
    {
        Fx3 { x: fx_sub(self.x, o.x), y: fx_sub(self.y, o.y), z: fx_sub(self.z, o.z) }
    }

    /// Componentwise saturating negation.
    pub fn neg(&self) -> (r: Fx3)
        ensures
            r == spec_v3_neg(*self),
    {
        Fx3 { x: fx_neg(self.x), y: fx_neg(self.y), z: fx_neg(self.z) }
    }

    /// Scaling by a fixed-point scalar.
    pub fn scale(&self, s: i64) -> (r: Fx3)
        ensures
            r == spec_v3_scale(*self, s),
    {
        Fx3 { x: fx_mul(self.x, s), y: fx_mul(self.y, s), z: fx_mul(self.z, s) }
    }

    /// Componentwise (Hadamard) product.
    pub fn mul(&self, o: &Fx3) -> (r: Fx3)
        ensures
            r == spec_v3_mul(*self, *o),
    {
        Fx3 { x: fx_mul(self.x, o.x), y: fx_mul(self.y, o.y), z: fx_mul(self.z, o.z) }
    }

    /// Dot product.
    pub fn dot(&self, o: &Fx3) -> (r: i64)
        ensures
            r == spec_v3_dot(*self, *o),
    {
        fx_add(fx_add(fx_mul(self.x, o.x), fx_mul(self.y, o.y)), fx_mul(self.z, o.z))
    }

    /// Cross product.
    pub fn cross(&self, o: &Fx3) -> (r: Fx3)
        ensures
            r == spec_v3_cross(*self, *o),
    {
        Fx3 {
            x: fx_sub(fx_mul(self.y, o.z), fx_mul(self.z, o.y)),
            y: fx_sub(fx_mul(self.z, o.x), fx_mul(self.x, o.z)),
            z: fx_sub(fx_mul(self.x, o.y), fx_mul(self.y, o.x)),
        }
    }

    /// Euclidean length.
    pub fn length(&self) -> (r: i64)
        ensures
            r == spec_v3_len(*self),
    {
        fx_sqrt(self.dot(self))
    }

    /// Normalization; vectors of (rounded) zero length yield the zero vector.
    pub fn normalize(&self) -> (r: Fx3)
        ensures
            r == spec_v3_normalize(*self),
    {
        let l = self.length();
        if l == 0 {
            Fx3 { x: 0, y: 0, z: 0 }
        } else {
            Fx3 { x: fx_div(self.x, l), y: fx_div(self.y, l), z: fx_div(self.z, l) }
        }
    }
}

} // verus!
