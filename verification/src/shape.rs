//! Ray-intersectable primitives: spheres and planes, dispatched through a
//! closed sum type. Each `hit` is specified exactly against a spec-level
//! model of the same fixed-point computation.

use crate::fx::{
    fx_clip, fx_div, fx_mul, fx_neg, fx_sqrt, fx_sub, is_sqrt, lemma_sqrt_exists, spec_div,
    spec_mul, spec_neg, spec_sqrt, spec_sub, sqrt_of, FX_ONE,
};
use crate::hittable::{spec_contains, HitRecord, Hittable, Interval, Ray};
use crate::material::Mat;
use crate::vec::{spec_v3_add, spec_v3_dot, spec_v3_normalize, spec_v3_scale, spec_v3_sub, Fx3};
use vstd::prelude::*;

verus! {

/// A sphere given by center and radius.
#[derive(Clone, Copy, PartialEq, Eq, Structural, Debug)]
pub struct Sphere {
    pub center: Fx3,
    pub radius: i64,
    pub material: Mat,
}

/// An infinite plane through `point` with the given (not necessarily unit)
/// normal.
#[derive(Clone, Copy, PartialEq, Eq, Structural, Debug)]
pub struct Plane {
    pub point: Fx3,
    pub normal: Fx3,
    pub material: Mat,
}

/// A tagged shape variant.
#[derive(Clone, Copy, PartialEq, Eq, Structural, Debug)]
pub enum Shape {
    Sphere(Sphere),
    Plane(Plane),
}

impl Default for Shape {
    /// A degenerate sphere at the origin with zero radius.
    fn default() -> (r: Shape)
        ensures
            r == Shape::Sphere(
                Sphere {
                    center: Fx3 { x: 0, y: 0, z: 0 },
                    radius: 0,
                    material: Mat {
                        albedo: Fx3 { x: 0, y: 0, z: 0 },
                        roughness: 0,
                        specular_chance: 0,
                        emission: 0,
                        emission_color: Fx3 { x: 0, y: 0, z: 0 },
                    },
                },
            ),
    {
        Shape::Sphere(
            Sphere {
                center: Fx3 { x: 0, y: 0, z: 0 },
                radius: 0,
                material: Mat {
                    albedo: Fx3 { x: 0, y: 0, z: 0 },
                    roughness: 0,
                    specular_chance: 0,
                    emission: 0,
                    emission_color: Fx3 { x: 0, y: 0, z: 0 },
                },
            },
        )
    }
}

/// The ray origin relative to the sphere center.
pub open spec fn spec_sphere_oc(s: Sphere, ray: Ray) -> Fx3 {
    spec_v3_sub(ray.origin, s.center)
}

/// Quadratic coefficient `a = d . d`.
pub open spec fn spec_sphere_a(ray: Ray) -> i64 {
    spec_v3_dot(ray.direction, ray.direction)
}

/// Quadratic half-coefficient `b = (o - c) . d`.
pub open spec fn spec_sphere_b(s: Sphere, ray: Ray) -> i64 {
    spec_v3_dot(spec_sphere_oc(s, ray), ray.direction)
}

/// Quadratic constant `c = (o - c) . (o - c) - r * r`.
pub open spec fn spec_sphere_c(s: Sphere, ray: Ray) -> i64 {
    spec_sub(spec_v3_dot(spec_sphere_oc(s, ray), spec_sphere_oc(s, ray)), spec_mul(s.radius, s.radius))
}

/// Discriminant `b*b - a*c` of the (halved) quadratic.
pub open spec fn spec_sphere_dis(s: Sphere, ray: Ray) -> i64 {
    spec_sub(spec_mul(spec_sphere_b(s, ray), spec_sphere_b(s, ray)), spec_mul(spec_sphere_a(ray), spec_sphere_c(s, ray)))
}

/// The smaller quadratic root `(-b - sqrt(dis)) / a`.
pub open spec fn spec_sphere_t(s: Sphere, ray: Ray) -> i64 {
    spec_div(spec_sub(spec_neg(spec_sphere_b(s, ray)), spec_sqrt(spec_sphere_dis(s, ray))), spec_sphere_a(ray))
}

/// The candidate parameter of a sphere: the smaller root only. A ray whose
/// direction self-product rounds to zero is degenerate and never hits, as is
/// one with a negative discriminant. If the smaller root falls outside the
/// queried interval the sphere reports a miss even when the larger root
/// would lie inside it (a deliberate simplification of the model).
pub open spec fn spec_sphere_candidate(s: Sphere, ray: Ray) -> Option<i64> {
    if spec_sphere_a(ray) == 0 || spec_sphere_dis(s, ray) < 0 {
        None
    } else {
        Some(spec_sphere_t(s, ray))
    }
}

/// The full sphere intersection record at parameter `t`.
pub open spec fn spec_sphere_record(s: Sphere, ray: Ray, t: i64) -> HitRecord {
    let local = spec_v3_add(spec_sphere_oc(s, ray), spec_v3_scale(ray.direction, t));
    HitRecord {
        point: spec_v3_add(local, s.center),
        normal: spec_v3_normalize(local),
        t,
        material: s.material,
    }
}

/// What `Sphere::hit` returns: the candidate filtered by the interval.
pub open spec fn spec_sphere_hit(s: Sphere, ray: Ray, iv: Interval) -> Option<HitRecord> {
    match spec_sphere_candidate(s, ray) {
        None => None,
        Some(t) => if spec_contains(iv, t) {
            Some(spec_sphere_record(s, ray, t))
        } else {
            None
        },
    }
}

impl Hittable for Sphere {
    open spec fn hit_model(&self, ray: Ray, interval: Interval) -> Option<HitRecord> {
        spec_sphere_hit(*self, ray, interval)
    }

    fn hit(&self, ray: &Ray, interval: Interval) -> (r: Option<HitRecord>) {
        let oc = ray.origin.sub(&self.center);
        let a = ray.direction.dot(&ray.direction);
        let b = oc.dot(&ray.direction);
        let c = fx_sub(oc.dot(&oc), fx_mul(self.radius, self.radius));
        let dis = fx_sub(fx_mul(b, b), fx_mul(a, c));
        if a == 0 || dis < 0 {
            return None;
        }
        let t = fx_div(fx_sub(fx_neg(b), fx_sqrt(dis)), a);
        if !interval.contains(t) {
            return None;
        }
        let local = oc.add(&ray.direction.scale(t));
        Some(
            HitRecord {
                point: local.add(&self.center),
                normal: local.normalize(),
                t,
                material: self.material,
            },
        )
    }
}

/// The denominator `n . d` of the plane intersection.
pub open spec fn spec_plane_denom(p: Plane, ray: Ray) -> i64 {
    spec_v3_dot(p.normal, ray.direction)
}

/// The plane parameter `t = n . (p - o) / (n . d)`.
pub open spec fn spec_plane_t(p: Plane, ray: Ray) -> i64 {
    spec_div(spec_v3_dot(p.normal, spec_v3_sub(p.point, ray.origin)), spec_plane_denom(p, ray))
}

/// The candidate parameter of a plane: none when the ray is parallel to the
/// plane (denominator exactly zero in fixed point).
pub open spec fn spec_plane_candidate(p: Plane, ray: Ray) -> Option<i64> {
    if spec_plane_denom(p, ray) == 0 {
        None
    } else {
        Some(spec_plane_t(p, ray))
    }
}

/// The full plane intersection record at parameter `t`. The record carries
/// the plane's stored normal as is.
pub open spec fn spec_plane_record(p: Plane, ray: Ray, t: i64) -> HitRecord {
    HitRecord {
        point: spec_v3_add(ray.origin, spec_v3_scale(ray.direction, t)),
        normal: p.normal,
        t,
        material: p.material,
    }
}

/// What `Plane::hit` returns: the candidate filtered by the interval.
pub open spec fn spec_plane_hit(p: Plane, ray: Ray, iv: Interval) -> Option<HitRecord> {
    match spec_plane_candidate(p, ray) {
        None => None,
        Some(t) => if spec_contains(iv, t) {
            Some(spec_plane_record(p, ray, t))
        } else {
            None
        },
    }
}

impl Hittable for Plane {
    open spec fn hit_model(&self, ray: Ray, interval: Interval) -> Option<HitRecord> {
        spec_plane_hit(*self, ray, interval)
    }

    fn hit(&self, ray: &Ray, interval: Interval) -> (r: Option<HitRecord>) {
        let denom = self.normal.dot(&ray.direction);
        if denom == 0 {
            return None;
        }
        let t = fx_div(self.normal.dot(&self.point.sub(&ray.origin)), denom);
        if !interval.contains(t) {
            return None;
        }
        Some(
            HitRecord {
                point: ray.origin.add(&ray.direction.scale(t)),
                normal: self.normal,
                t,
                material: self.material,
            },
        )
    }
}

/// The exact (unscaled integer) dot product of two vectors, used to state
/// geometric laws free of fixed-point rounding.
pub open spec fn exact_dot(a: Fx3, b: Fx3) -> int {
    a.x * b.x + a.y * b.y + a.z * b.z
}

/// A point returned by a sphere hit lies on the sphere, stated for the
/// exact root: whenever `t` exactly solves the sphere's (halved) quadratic
/// `a*t^2 + 2*b*t + c == 0` in exact arithmetic, the point `o + t*d` is at
/// distance exactly `radius` from the center. All terms carry the scale
/// factor 65536 of the 16.16 encoding; the executable hit computes a
/// fixed-point rounding of this root, so its returned point lies on the
/// sphere up to rounding.
pub proof fn lemma_sphere_root_on_sphere(s: Sphere, ray: Ray, t: int)
    requires
        ({
            let oc = spec_v3_sub(ray.origin, s.center);
            let d = ray.direction;
            exact_dot(d, d) * t * t + 2 * 65536 * exact_dot(oc, d) * t + 65536 * 65536 * (
            exact_dot(oc, oc) - s.radius * s.radius) == 0
        }),
    ensures
        ({
            let oc = spec_v3_sub(ray.origin, s.center);
            let d = ray.direction;
            let px = 65536 * oc.x + t * d.x;
            let py = 65536 * oc.y + t * d.y;
            let pz = 65536 * oc.z + t * d.z;
            px * px + py * py + pz * pz == 65536 * 65536 * (s.radius * s.radius)
        }),
{
    let oc = spec_v3_sub(ray.origin, s.center);
    let d = ray.direction;
    let px = 65536 * oc.x + t * d.x;
    let py = 65536 * oc.y + t * d.y;
    let pz = 65536 * oc.z + t * d.z;
    assert(px * px == 65536 * 65536 * (oc.x * oc.x) + 2 * 65536 * t * (oc.x * d.x) + t * t * (d.x
        * d.x)) by (nonlinear_arith)
        requires
            px == 65536 * oc.x + t * d.x,
    ;
    assert(py * py == 65536 * 65536 * (oc.y * oc.y) + 2 * 65536 * t * (oc.y * d.y) + t * t * (d.y
        * d.y)) by (nonlinear_arith)
        requires
            py == 65536 * oc.y + t * d.y,
    ;
    assert(pz * pz == 65536 * 65536 * (oc.z * oc.z) + 2 * 65536 * t * (oc.z * d.z) + t * t * (d.z
        * d.z)) by (nonlinear_arith)
        requires
            pz == 65536 * oc.z + t * d.z,
    ;
    let ss = exact_dot(oc, oc);
    let bb = exact_dot(oc, d);
    let aa = exact_dot(d, d);
    assert(2 * 65536 * t * (oc.x * d.x) + 2 * 65536 * t * (oc.y * d.y) + 2 * 65536 * t * (oc.z
        * d.z) == 2 * 65536 * bb * t) by (nonlinear_arith)
        requires
            bb == oc.x * d.x + oc.y * d.y + oc.z * d.z,
    ;
    assert(t * t * (d.x * d.x) + t * t * (d.y * d.y) + t * t * (d.z * d.z) == aa * t * t)
        by (nonlinear_arith)
        requires
            aa == d.x * d.x + d.y * d.y + d.z * d.z,
    ;
    assert(px * px + py * py + pz * pz == 65536 * 65536 * (oc.x * oc.x) + 65536 * 65536 * (oc.y
        * oc.y) + 65536 * 65536 * (oc.z * oc.z) + 2 * 65536 * bb * t + aa * t * t);
    assert(65536 * 65536 * (oc.x * oc.x) + 65536 * 65536 * (oc.y * oc.y) + 65536 * 65536 * (oc.z
        * oc.z) == 65536 * 65536 * ss) by (nonlinear_arith)
        requires
            ss == oc.x * oc.x + oc.y * oc.y + oc.z * oc.z,
    ;
    let rr = s.radius * s.radius;
    assert(aa * t * t + 2 * 65536 * bb * t + 65536 * 65536 * (ss - rr) == 0);
    assert(65536 * 65536 * (ss - rr) == 65536 * 65536 * ss - 65536 * 65536 * rr)
        by (nonlinear_arith);
    assert(px * px + py * py + pz * pz == 65536 * 65536 * rr);
}

/// The sphere's (halved) quadratic at parameter `t`, with every term
/// carried at the common scale factor 65536^2 of the 16.16 encoding:
/// `a t^2 + 2 b t + c` for coefficients at scale 65536.
pub open spec fn spec_quadratic(a: int, b: int, c: int, t: int) -> int {
    a * t * t + 2 * 65536 * b * t + 65536 * 65536 * c
}

/// The computed smaller root nearly zeroes the sphere's rounded quadratic:
/// for the model coefficients `a`, `b`, `c` that the executable hit
/// computes (bounded away from saturation), the returned parameter `t`
/// leaves a residual of at most about `2 sqrt(dis) + 1` fixed-point units
/// (after dividing by `a` and the scale factor). Together with
/// `lemma_sphere_root_on_sphere` — an exact root places the point exactly
/// on the sphere — this bounds how far fixed-point rounding of the root
/// can push the returned point off the sphere; the rounding inside the
/// dot products themselves and in the final point evaluation is not
/// covered by this bound.
pub proof fn lemma_sphere_hit_near_root(s: Sphere, ray: Ray)
    requires
        1 <= spec_sphere_a(ray) <= 0x40_0000_0000,
        -0x40_0000_0000 <= spec_sphere_b(s, ray) <= 0x40_0000_0000,
        -0x40_0000_0000 <= spec_sphere_c(s, ray) <= 0x40_0000_0000,
        spec_sphere_dis(s, ray) >= 0,
    ensures
        ({
            let a = spec_sphere_a(ray) as int;
            let sq = spec_sqrt(spec_sphere_dis(s, ray)) as int;
            let q = spec_quadratic(
                a,
                spec_sphere_b(s, ray) as int,
                spec_sphere_c(s, ray) as int,
                spec_sphere_t(s, ray) as int,
            );
            -(65536 * 65536 * (2 * sq + 65536)) <= a * q <= 65536 * 65536 * (2 * sq + 65536) + a
                * a + 2 * 65536 * sq * a
        }),
{
    let a = spec_sphere_a(ray) as int;
    let b = spec_sphere_b(s, ray) as int;
    let c = spec_sphere_c(s, ray) as int;
    // The rounded products and their remainders.
    assert(b * b <= 0x1000_0000_0000_0000_0000 && b * b >= 0) by (nonlinear_arith)
        requires
            -0x40_0000_0000 <= b <= 0x40_0000_0000,
    ;
    assert(-0x1000_0000_0000_0000_0000 <= a * c <= 0x1000_0000_0000_0000_0000)
        by (nonlinear_arith)
        requires
            1 <= a <= 0x40_0000_0000,
            -0x40_0000_0000 <= c <= 0x40_0000_0000,
    ;
    vstd::arithmetic::div_mod::lemma_fundamental_div_mod(b * b, 65536);
    vstd::arithmetic::div_mod::lemma_fundamental_div_mod(a * c, 65536);
    let d1 = (b * b) / 65536;
    let e1 = (b * b) % 65536;
    let d2 = (a * c) / 65536;
    let e2 = (a * c) % 65536;
    assert(d1 >= 0 && d1 <= 0x1000_0000_0000_0000) by {
        crate::fx::lemma_div_nonneg(b * b, 65536);
    }
    assert(d2 <= 0x1000_0000_0000_0000 && d2 >= -0x1000_0000_0000_0001);
    assert(spec_mul(spec_sphere_b(s, ray), spec_sphere_b(s, ray)) == d1);
    assert(spec_mul(spec_sphere_a(ray), spec_sphere_c(s, ray)) == d2);
    let dis = spec_sphere_dis(s, ray) as int;
    assert(dis == d1 - d2);
    assert(0 <= dis <= 0x4000_0000_0000_0000);
    // The integer square root of the discriminant at scale 65536.
    let m = 65536 * dis;
    let sq = spec_sqrt(spec_sphere_dis(s, ray)) as int;
    if dis == 0 {
        assert(sq == 0);
    } else {
        lemma_sqrt_exists(m);
        let sr = sqrt_of(m);
        assert(sr * sr <= m && m < (sr + 1) * (sr + 1) && sr >= 0);
        assert(m <= 0x4000_0000_0000_0000_0000);
        assert(sr <= 0x80_0000_0000) by (nonlinear_arith)
            requires
                sr >= 0,
                sr * sr <= m,
                m <= 0x4000_0000_0000_0000_0000,
        ;
        assert(sq == sr);
    }
    assert(sq >= 0 && sq * sq <= m && m <= sq * sq + 2 * sq) by (nonlinear_arith)
        requires
            sq >= 0,
            sq * sq <= m,
            m < (sq + 1) * (sq + 1),
    ;
    // The floor-divided root and its remainder.
    assert(spec_neg(spec_sphere_b(s, ray)) == -b);
    let num = -b - sq;
    assert(spec_sub(spec_neg(spec_sphere_b(s, ray)), spec_sqrt(spec_sphere_dis(s, ray))) == num);
    assert(sq <= 0x80_0000_0000);
    let nn = num * 65536;
    assert(-0x1000_0000_0000_0000 <= nn <= 0x1000_0000_0000_0000);
    vstd::arithmetic::div_mod::lemma_fundamental_div_mod(nn, a);
    let t0 = nn / a;
    let r = nn % a;
    assert(-0x2000_0000_0000_0000 <= t0 <= 0x2000_0000_0000_0000) by (nonlinear_arith)
        requires
            nn == a * t0 + r,
            0 <= r < a,
            1 <= a <= 0x40_0000_0000,
            -0x1000_0000_0000_0000 <= nn <= 0x1000_0000_0000_0000,
    ;
    let t = spec_sphere_t(s, ray) as int;
    assert(t == t0);
    // The algebraic identity: a times the quadratic's value at t equals
    // the square-root defect plus the product-rounding defects plus the
    // division-remainder defect.
    let q = spec_quadratic(a, b, c, t);
    assert(a * q == (a * t) * (a * t) + 2 * 65536 * b * (a * t) + 65536 * 65536 * (a * c))
        by (nonlinear_arith)
        requires
            q == a * t * t + 2 * 65536 * b * t + 65536 * 65536 * c,
    ;
    assert((a * t) * (a * t) + 2 * 65536 * b * (a * t) == 65536 * 65536 * (sq * sq - b * b) + r
        * r + 2 * 65536 * sq * r) by (nonlinear_arith)
        requires
            a * t == num * 65536 - r,
            num == -b - sq,
    ;
    assert(a * q == 65536 * 65536 * (sq * sq - m) + 65536 * 65536 * (e2 - e1) + r * r + 2 * 65536
        * sq * r) by (nonlinear_arith)
        requires
            a * q == 65536 * 65536 * (sq * sq - b * b) + r * r + 2 * 65536 * sq * r + 65536
                * 65536 * (a * c),
            b * b == 65536 * d1 + e1,
            a * c == 65536 * d2 + e2,
            m == 65536 * (d1 - d2),
    ;
    // Bound each defect.
    assert(r * r <= a * a && 2 * 65536 * sq * r <= 2 * 65536 * sq * a) by (nonlinear_arith)
        requires
            0 <= r < a,
            sq >= 0,
    ;
    assert(r * r >= 0 && 2 * 65536 * sq * r >= 0) by (nonlinear_arith)
        requires
            r >= 0,
            sq >= 0,
    ;
    assert(-(2 * sq) <= sq * sq - m <= 0);
    assert(-65535 <= e2 - e1 <= 65535);
}
/// origin is strictly outside the sphere (at fixed-point resolution:
/// `a*c` rounds to at least one unit) and the direction does not point back
/// toward the center (`b >= 0`); the queried interval starts at or after
/// zero. Excluded input: a ray so short and so close to the sphere that the
/// product `a*c` rounds to zero, where the rounded discriminant can reach
/// zero and report a grazing hit at the origin.
pub proof fn lemma_ray_aimed_away_misses(s: Sphere, ray: Ray, iv: Interval)
    requires
        iv.lo >= 0,
        spec_sphere_b(s, ray) >= 0,
        spec_mul(spec_sphere_a(ray), spec_sphere_c(s, ray)) >= 1,
    ensures
        spec_sphere_hit(s, ray, iv) == None::<HitRecord>,
{
    let a = spec_sphere_a(ray);
    let b = spec_sphere_b(s, ray);
    let c = spec_sphere_c(s, ray);
    let mac = spec_mul(a, c);
    let mbb = spec_mul(b, b);
    let dis = spec_sphere_dis(s, ray);
    if a != 0 {
        assert(b * b >= 0) by (nonlinear_arith);
        crate::fx::lemma_div_nonneg(b * b, 65536);
        assert(mbb >= 0);
        assert(dis == fx_clip(mbb - mac));
        assert(dis <= mbb - 1);
        if dis >= 0 {
            // A zero b would force a negative discriminant, so b > 0 here.
            if b == 0 {
                assert(b * b == 0) by (nonlinear_arith)
                    requires
                        b == 0i64,
                ;
                assert(false);
            }
            assert(b > 0);
            crate::vec::lemma_dot_self_nonneg(ray.direction);
            assert(a > 0);
            let sq = spec_sqrt(dis);
            // sq * sq <= dis * 65536 <= (mbb - 1) * 65536 <= b*b - 65536.
            vstd::arithmetic::div_mod::lemma_fundamental_div_mod(b * b, 65536);
            assert(mbb * 65536 <= b * b);
            if dis > 0 {
                lemma_sqrt_exists(dis * FX_ONE);
                assert(is_sqrt(dis * FX_ONE, sqrt_of(dis * FX_ONE)));
                let sr = sqrt_of(dis * FX_ONE);
                assert(sr < 0x1_0000_0000_0000) by (nonlinear_arith)
                    requires
                        0 <= sr,
                        sr * sr <= dis * 65536,
                        dis <= i64::MAX,
                ;
                assert(sq == sr);
                assert(sq * sq <= dis * 65536);
            } else {
                assert(sq == 0);
            }
            assert(sq * sq < b * b) by (nonlinear_arith)
                requires
                    sq * sq <= dis * 65536,
                    dis <= mbb - 1,
                    mbb * 65536 <= b * b,
            ;
            assert(sq < b) by (nonlinear_arith)
                requires
                    sq >= 0,
                    b > 0,
                    sq * sq < b * b,
            ;
            // The numerator -b - sq is negative, so the root is negative.
            let num = spec_sub(spec_neg(b), sq);
            assert(num < 0);
            crate::fx::lemma_div_neg(num * FX_ONE, a as int);
            let t = spec_sphere_t(s, ray);
            assert(t < 0);
            assert(!spec_contains(iv, t));
        }
    }
}

/// A ray parallel to a plane (direction dot normal rounds to exactly zero
/// in fixed point) never hits it.
pub proof fn lemma_parallel_ray_misses_plane(p: Plane, ray: Ray, iv: Interval)
    requires
        spec_plane_denom(p, ray) == 0,
    ensures
        spec_plane_hit(p, ray, iv) == None::<HitRecord>,
{
}

/// What `Shape::hit` returns: dispatch on the variant.
pub open spec fn spec_shape_hit(sh: Shape, ray: Ray, iv: Interval) -> Option<HitRecord> {
    match sh {
        Shape::Sphere(s) => spec_sphere_hit(s, ray, iv),
        Shape::Plane(p) => spec_plane_hit(p, ray, iv),
    }
}

impl Hittable for Shape {
    open spec fn hit_model(&self, ray: Ray, interval: Interval) -> Option<HitRecord> {
        spec_shape_hit(*self, ray, interval)
    }

    fn hit(&self, ray: &Ray, interval: Interval) -> (r: Option<HitRecord>) {
        match self {
            Shape::Sphere(object) => object.hit(ray, interval),
            Shape::Plane(object) => object.hit(ray, interval),
        }
    }
}

} // verus!
