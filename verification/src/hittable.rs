//! The intersection query contract: rays, half-open parameter intervals,
//! hit records, and the `Hittable` trait that every primitive and the scene
//! aggregate implement against their own exact spec-level model.

use crate::material::Mat;
use crate::vec::Fx3;
use vstd::prelude::*;

verus! {

/// A ray: an origin and a direction. The direction need not be unit length
/// at construction; it is normalized where the semantics depend on it.
#[derive(Clone, Copy, PartialEq, Eq, Structural, Debug)]
pub struct Ray {
    pub origin: Fx3,
    pub direction: Fx3,
}

/// A half-open parameter interval `[lo, hi)`.
#[derive(Clone, Copy, PartialEq, Eq, Structural, Debug)]
pub struct Interval {
    pub lo: i64,
    pub hi: i64,
}

/// Membership in the half-open interval.
pub open spec fn spec_contains(iv: Interval, t: i64) -> bool {
    iv.lo <= t < iv.hi
}

impl Interval {
    /// Build an interval `[lo, hi)`.
    pub fn new(lo: i64, hi: i64) -> (r: Interval)
        ensures
            r == (Interval { lo, hi }),
    {
        Interval { lo, hi }
    }

    /// Whether `t` lies in the half-open interval.
    pub fn contains(&self, t: i64) -> (r: bool)
        ensures
            r == spec_contains(*self, t),
    {
        self.lo <= t && t < self.hi
    }
}

/// The result of a successful intersection. The material is an owned
/// snapshot, decoupling the record's lifetime from later scene mutation.
#[derive(Clone, Copy, PartialEq, Eq, Structural, Debug)]
pub struct HitRecord {
    pub point: Fx3,
    pub normal: Fx3,
    pub t: i64,
    pub material: Mat,
}

/// An entity supporting a ray/interval intersection query. `hit_model` is
/// the implementor's exact mathematical description of what `hit` returns;
/// a returned record's `t` always lies inside the queried interval.
pub trait Hittable {
    /// The exact model of this entity's intersection result.
    spec fn hit_model(&self, ray: Ray, interval: Interval) -> Option<HitRecord>;

    /// The earliest intersection with `t` inside the half-open interval,
    /// or none.
    fn hit(&self, ray: &Ray, interval: Interval) -> (r: Option<HitRecord>)
        ensures
            r == self.hit_model(*ray, interval),
            r is Some ==> spec_contains(interval, r->Some_0.t),
    ;
}

} // verus!
