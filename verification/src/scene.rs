//! The scene: an ordered shape list, a light list, and the progressive
//! accumulation state. Scene intersection is a fold over the shapes that
//! tightens the interval's upper bound to the best parameter found so far,
//! and is proved to return the global-minimum-t hit.

use crate::hittable::{spec_contains, HitRecord, Hittable, Interval, Ray};
use crate::light::Light;
use crate::material::Mat;
use crate::shape::{spec_shape_hit, Shape, Sphere};
use crate::vec::Fx3;
use vstd::prelude::*;

verus! {

/// What the fold over a shape list returns: each shape is queried with the
/// upper bound tightened to the best parameter found so far, and a hit
/// replaces the running best.
pub open spec fn spec_list_hit(shapes: Seq<Shape>, ray: Ray, iv: Interval) -> Option<HitRecord>
    decreases shapes.len(),
{
    if shapes.len() == 0 {
        None
    } else {
        let prev = spec_list_hit(shapes.drop_last(), ray, iv);
        let hi = match prev {
            Some(rec) => rec.t,
            None => iv.hi,
        };
        match spec_shape_hit(shapes.last(), ray, Interval { lo: iv.lo, hi }) {
            Some(rec) => Some(rec),
            None => prev,
        }
    }
}

/// A record returned by the fold lies inside the full queried interval:
/// the upper bound only ever tightens.
pub proof fn lemma_list_hit_in_interval(shapes: Seq<Shape>, ray: Ray, iv: Interval)
    ensures
        match spec_list_hit(shapes, ray, iv) {
            Some(rec) => spec_contains(iv, rec.t),
            None => true,
        },
    decreases shapes.len(),
{
    if shapes.len() > 0 {
        lemma_list_hit_in_interval(shapes.drop_last(), ray, iv);
    }
}

/// Holds when an optional hit is either absent or no closer than `t`.
pub open spec fn spec_no_closer(oh: Option<HitRecord>, t: i64) -> bool {
    match oh {
        Some(r) => t <= r.t,
        None => true,
    }
}

/// A shape's candidate parameter does not depend on the queried interval;
/// the interval only filters it. So a hit carries over to any interval with
/// the same lower bound that still contains its parameter, and a miss
/// carries over to any narrower interval.
proof fn lemma_shape_hit_interval(sh: Shape, ray: Ray, iv1: Interval, iv2: Interval)
    requires
        iv1.lo == iv2.lo,
    ensures
        match spec_shape_hit(sh, ray, iv1) {
            Some(rec) => rec.t < iv2.hi ==> spec_shape_hit(sh, ray, iv2) == Some(rec),
            None => iv2.hi <= iv1.hi ==> spec_shape_hit(sh, ray, iv2) == None::<HitRecord>,
        },
{
}

/// The scene aggregate returns the global-minimum-t hit: a returned record
/// is some shape's hit over the full queried interval, and no shape hits at
/// a strictly smaller parameter; when it returns none, no shape hits the
/// interval at all.
#[verifier::rlimit(60)]
pub proof fn lemma_list_hit_global_min(shapes: Seq<Shape>, ray: Ray, iv: Interval)
    ensures
        match spec_list_hit(shapes, ray, iv) {
            Some(rec) => {
                &&& exists|i: int|
                    0 <= i < shapes.len() && spec_shape_hit(shapes[i], ray, iv) == Some(rec)
                &&& forall|j: int|
                    0 <= j < shapes.len() ==> spec_no_closer(
                        #[trigger] spec_shape_hit(shapes[j], ray, iv),
                        rec.t,
                    )
            },
            None => forall|j: int|
                0 <= j < shapes.len() ==> #[trigger] spec_shape_hit(shapes[j], ray, iv)
                    == None::<HitRecord>,
        },
    decreases shapes.len(),
{
    if shapes.len() > 0 {
        let prefix = shapes.drop_last();
        let last = shapes.last();
        lemma_list_hit_global_min(prefix, ray, iv);
        lemma_list_hit_in_interval(prefix, ray, iv);
        let prev = spec_list_hit(prefix, ray, iv);
        let hi = match prev {
            Some(rec) => rec.t,
            None => iv.hi,
        };
        let narrowed = Interval { lo: iv.lo, hi };
        let n = shapes.len() as int;
        lemma_shape_hit_interval(last, ray, narrowed, iv);
        match spec_shape_hit(last, ray, narrowed) {
            Some(rec) => {
                // The narrowed upper bound never exceeds the full interval's,
                // so the last shape also hits over the full interval, and
                // strictly earlier than anything the prefix found.
                assert(spec_shape_hit(shapes[n - 1], ray, iv) == Some(rec));
                assert forall|j: int| 0 <= j < n implies spec_no_closer(
                    #[trigger] spec_shape_hit(shapes[j], ray, iv),
                    rec.t,
                ) by {
                    if j < n - 1 {
                        assert(shapes[j] == prefix[j]);
                        assert(spec_no_closer(spec_shape_hit(prefix[j], ray, iv), rec.t));
                    }
                }
            },
            None => {
                match prev {
                    Some(rp) => {
                        // The last shape missed [lo, rp.t): if it hits the
                        // full interval, its parameter is at least rp.t.
                        lemma_shape_hit_interval(last, ray, iv, narrowed);
                        assert(spec_no_closer(spec_shape_hit(shapes[n - 1], ray, iv), rp.t));
                        assert forall|j: int| 0 <= j < n implies spec_no_closer(
                            #[trigger] spec_shape_hit(shapes[j], ray, iv),
                            rp.t,
                        ) by {
                            if j < n - 1 {
                                assert(shapes[j] == prefix[j]);
                            }
                        }
                        let i0 = choose|i: int|
                            0 <= i < prefix.len() && spec_shape_hit(prefix[i], ray, iv) == Some(
                                rp,
                            );
                        assert(shapes[i0] == prefix[i0]);
                        assert(spec_shape_hit(shapes[i0], ray, iv) == Some(rp));
                    },
                    None => {
                        assert(spec_shape_hit(shapes[n - 1], ray, iv) == None::<HitRecord>);
                        assert forall|j: int| 0 <= j < n implies #[trigger] spec_shape_hit(
                            shapes[j],
                            ray,
                            iv,
                        ) == None::<HitRecord> by {
                            if j < n - 1 {
                                assert(shapes[j] == prefix[j]);
                            }
                        }
                    },
                }
            },
        }
    }
}

impl Hittable for Vec<Shape> {
    open spec fn hit_model(&self, ray: Ray, interval: Interval) -> Option<HitRecord> {
        spec_list_hit(self@, ray, interval)
    }

    /// Fold over the members, tightening the interval's upper bound to the
    /// best parameter found so far.
    fn hit(&self, ray: &Ray, interval: Interval) -> (r: Option<HitRecord>) {
        let mut best: Option<HitRecord> = None;
        let mut hi = interval.hi;
        let mut i: usize = 0;
        while i < self.len()
            invariant
                0 <= i <= self@.len(),
                best == spec_list_hit(self@.take(i as int), *ray, interval),
                hi == match best {
                    Some(rec) => rec.t,
                    None => interval.hi,
                },
            decreases self@.len() - i,
        {
            proof {
                assert(self@.take(i + 1).drop_last() =~= self@.take(i as int));
                assert(self@.take(i + 1).last() == self@[i as int]);
            }
            match (&self[i]).hit(ray, Interval { lo: interval.lo, hi }) {
                Some(rec) => {
                    hi = rec.t;
                    best = Some(rec);
                },
                None => {},
            }
            i = i + 1;
        }
        proof {
            assert(self@.take(self@.len() as int) =~= self@);
            lemma_list_hit_in_interval(self@, *ray, interval);
        }
        best
    }
}

/// A bare ordered collection of shapes with the same fold-based
/// intersection as the scene.
pub struct Shapes(pub Vec<Shape>);

impl Shapes {
    /// Wrap an ordered shape list.
    pub fn new(vec: Vec<Shape>) -> (r: Shapes)
        ensures
            r.0 == vec,
    {
        Shapes(vec)
    }
}

impl Hittable for Shapes {
    open spec fn hit_model(&self, ray: Ray, interval: Interval) -> Option<HitRecord> {
        spec_list_hit(self.0@, ray, interval)
    }

    /// Delegate to the shape aggregate.
    fn hit(&self, ray: &Ray, interval: Interval) -> (r: Option<HitRecord>) {
        self.0.hit(ray, interval)
    }
}

/// The scene: shapes, lights, and progressive accumulation state. The
/// accumulation buffer holds one fixed-point value per output byte; a
/// `frame_index` of -1 is the sentinel meaning "invalid, restart the
/// running mean".
pub struct Scene {
    pub shapes: Vec<Shape>,
    pub lights: Vec<Light>,
    pub accumulate: bool,
    pub frame_index: i32,
    pub accumulation: Vec<i64>,
}

impl Scene {
    /// A fresh scene over the given shapes and lights, with accumulation
    /// enabled and no accumulated frame yet.
    pub fn new(shapes: Vec<Shape>, lights: Vec<Light>) -> (r: Scene)
        ensures
            r.shapes == shapes,
            r.lights == lights,
            r.accumulate,
            r.frame_index == 0,
            r.accumulation@.len() == 0,
    {
        Scene { shapes, lights, accumulate: true, frame_index: 0, accumulation: Vec::new() }
    }

    /// Invalidate the accumulation state: the next frame restarts the
    /// running mean from scratch. Nothing else changes.
    pub fn resize(&mut self)
        ensures
            final (self).frame_index == -1,
            final (self).shapes == old(self).shapes,
            final (self).lights == old(self).lights,
            final (self).accumulate == old(self).accumulate,
            final (self).accumulation == old(self).accumulation,
    {
        self.frame_index = -1;
    }
}

impl Default for Scene {
    /// The demonstration scene: three matte spheres (one acting as the
    /// ground) and one large emissive sphere, no point lights, accumulation
    /// enabled. All values are the 16.16 encodings of the intended
    /// coordinates and colors.
    fn default() -> (r: Scene)
        ensures
            r.shapes@.len() == 4,
            r.shapes@[0] == Shape::Sphere(
                Sphere {
                    center: Fx3 { x: 0, y: 0, z: 0 },
                    radius: 65536,
                    material: Mat {
                        albedo: Fx3 { x: 65536, y: 0, z: 65536 },
                        roughness: 52429,
                        specular_chance: 0,
                        emission: 0,
                        emission_color: Fx3 { x: 0, y: 0, z: 0 },
                    },
                },
            ),
            r.shapes@[1] == Shape::Sphere(
                Sphere {
                    center: Fx3 { x: 131072, y: 0, z: -65536i64 },
                    radius: 65536,
                    material: Mat {
                        albedo: Fx3 { x: 13107, y: 45875, z: 6554 },
                        roughness: 39322,
                        specular_chance: 0,
                        emission: 0,
                        emission_color: Fx3 { x: 0, y: 0, z: 0 },
                    },
                },
            ),
            r.shapes@[2] == Shape::Sphere(
                Sphere {
                    center: Fx3 { x: 0, y: -6619136i64, z: 0 },
                    radius: 6553600,
                    material: Mat {
                        albedo: Fx3 { x: 13107, y: 19661, z: 393216 },
                        roughness: 32768,
                        specular_chance: 0,
                        emission: 0,
                        emission_color: Fx3 { x: 0, y: 0, z: 0 },
                    },
                },
            ),
            r.shapes@[3] == Shape::Sphere(
                Sphere {
                    center: Fx3 { x: 6553600, y: 6619136, z: -1310720i64 },
                    radius: 6553600,
                    material: Mat {
                        albedo: Fx3 { x: 0, y: 0, z: 0 },
                        roughness: 0,
                        specular_chance: 0,
                        emission: 196608,
                        emission_color: Fx3 { x: 58982, y: 58982, z: 45875 },
                    },
                },
            ),
            r.lights@.len() == 0,
            r.accumulate,
            r.frame_index == 0,
            r.accumulation@.len() == 0,
    {
        let mut shapes: Vec<Shape> = Vec::new();
        shapes.push(
            Shape::Sphere(
                Sphere {
                    center: Fx3 { x: 0, y: 0, z: 0 },
                    radius: 65536,
                    material: Mat {
                        albedo: Fx3 { x: 65536, y: 0, z: 65536 },
                        roughness: 52429,
                        specular_chance: 0,
                        emission: 0,
                        emission_color: Fx3 { x: 0, y: 0, z: 0 },
                    },
                },
            ),
        );
        shapes.push(
            Shape::Sphere(
                Sphere {
                    center: Fx3 { x: 131072, y: 0, z: -65536i64 },
                    radius: 65536,
                    material: Mat {
                        albedo: Fx3 { x: 13107, y: 45875, z: 6554 },
                        roughness: 39322,
                        specular_chance: 0,
                        emission: 0,
                        emission_color: Fx3 { x: 0, y: 0, z: 0 },
                    },
                },
            ),
        );
        shapes.push(
            Shape::Sphere(
                Sphere {
                    center: Fx3 { x: 0, y: -6619136i64, z: 0 },
                    radius: 6553600,
                    material: Mat {
                        albedo: Fx3 { x: 13107, y: 19661, z: 393216 },
                        roughness: 32768,
                        specular_chance: 0,
                        emission: 0,
                        emission_color: Fx3 { x: 0, y: 0, z: 0 },
                    },
                },
            ),
        );
        shapes.push(
            Shape::Sphere(
                Sphere {
                    center: Fx3 { x: 6553600, y: 6619136, z: -1310720i64 },
                    radius: 6553600,
                    material: Mat {
                        albedo: Fx3 { x: 0, y: 0, z: 0 },
                        roughness: 0,
                        specular_chance: 0,
                        emission: 196608,
                        emission_color: Fx3 { x: 58982, y: 58982, z: 45875 },
                    },
                },
            ),
        );
        Scene::new(shapes, Vec::new())
    }
}

impl Hittable for Scene {
    open spec fn hit_model(&self, ray: Ray, interval: Interval) -> Option<HitRecord> {
        spec_list_hit(self.shapes@, ray, interval)
    }

    /// Delegate to the shape aggregate.
    fn hit(&self, ray: &Ray, interval: Interval) -> (r: Option<HitRecord>) {
        self.shapes.hit(ray, interval)
    }
}

} // verus!
