//! Intersection geometry: spheres, planes, and the scene aggregate.

use ray_tracing::fx::FX_ONE;
use ray_tracing::hittable::{Hittable, Interval, Ray};
use ray_tracing::material::Mat;
use ray_tracing::scene::{Scene, Shapes};
use ray_tracing::shape::{Plane, Shape, Sphere};
use ray_tracing::vec::Fx3;

fn matte(r: i64, g: i64, b: i64) -> Mat {
    Mat {
        albedo: Fx3::new(r, g, b),
        roughness: 0,
        specular_chance: 0,
        emission: 0,
        emission_color: Fx3::zero(),
    }
}

fn unit_sphere_at_origin() -> Sphere {
    Sphere { center: Fx3::zero(), radius: FX_ONE, material: matte(FX_ONE, 0, 0) }
}

fn forward_interval() -> Interval {
    Interval::new(0, i64::MAX)
}

#[test]
fn sphere_hit_head_on_is_exact() {
    let s = unit_sphere_at_origin();
    let ray = Ray { origin: Fx3::new(0, 0, 3 * FX_ONE), direction: Fx3::new(0, 0, -FX_ONE) };
    let rec = s.hit(&ray, forward_interval()).expect("must hit");
    assert_eq!(rec.t, 2 * FX_ONE);
    assert_eq!(rec.point, Fx3::new(0, 0, FX_ONE));
    assert_eq!(rec.normal, Fx3::new(0, 0, FX_ONE));
    assert_eq!(rec.material, s.material);
}

#[test]
fn sphere_hit_point_lies_on_sphere() {
    // An off-axis ray: the hit point's distance from the center equals the
    // radius within fixed-point epsilon.
    let s = unit_sphere_at_origin();
    let ray = Ray {
        origin: Fx3::new(FX_ONE / 4, FX_ONE / 3, 3 * FX_ONE),
        direction: Fx3::new(0, 0, -FX_ONE),
    };
    let rec = s.hit(&ray, forward_interval()).expect("must hit");
    let d = rec.point.sub(&s.center).length();
    assert!((d - FX_ONE).abs() <= 16, "|point - center| = {d}");
}

#[test]
fn sphere_smaller_root_outside_interval_is_a_miss() {
    // From inside the sphere the smaller root is negative: reported as a
    // miss even though the larger root would be valid.
    let s = unit_sphere_at_origin();
    let ray = Ray { origin: Fx3::zero(), direction: Fx3::new(0, 0, -FX_ONE) };
    assert!(s.hit(&ray, forward_interval()).is_none());
}

#[test]
fn ray_aimed_away_misses_sphere() {
    let s = unit_sphere_at_origin();
    let ray = Ray { origin: Fx3::new(0, 0, 3 * FX_ONE), direction: Fx3::new(0, 0, FX_ONE) };
    assert!(s.hit(&ray, forward_interval()).is_none());
    let sideways = Ray { origin: Fx3::new(0, 0, 3 * FX_ONE), direction: Fx3::new(FX_ONE, 0, 0) };
    assert!(sideways.direction.dot(&sideways.origin.sub(&s.center)) >= 0);
    assert!(s.hit(&sideways, forward_interval()).is_none());
}

#[test]
fn parallel_ray_misses_plane() {
    let p = Plane { point: Fx3::zero(), normal: Fx3::new(0, FX_ONE, 0), material: matte(0, 0, 0) };
    let ray = Ray { origin: Fx3::new(0, FX_ONE, 0), direction: Fx3::new(FX_ONE, 0, 0) };
    assert_eq!(p.normal.dot(&ray.direction), 0);
    assert!(p.hit(&ray, forward_interval()).is_none());
}

#[test]
fn plane_hit_from_above() {
    let p = Plane { point: Fx3::zero(), normal: Fx3::new(0, FX_ONE, 0), material: matte(0, 0, 0) };
    let ray = Ray { origin: Fx3::new(0, 2 * FX_ONE, 0), direction: Fx3::new(0, -FX_ONE, 0) };
    let rec = p.hit(&ray, forward_interval()).expect("must hit");
    assert_eq!(rec.t, 2 * FX_ONE);
    assert_eq!(rec.point, Fx3::zero());
    assert_eq!(rec.normal, Fx3::new(0, FX_ONE, 0));
}

#[test]
fn scene_returns_global_minimum_hit() {
    // Sphere A is hit at t = 2, sphere B at t = 5; whatever the list
    // order, the aggregate returns A's record.
    let a = Sphere { center: Fx3::zero(), radius: FX_ONE, material: matte(FX_ONE, 0, 0) };
    let b = Sphere {
        center: Fx3::new(0, 0, -3 * FX_ONE),
        radius: FX_ONE,
        material: matte(0, FX_ONE, 0),
    };
    let ray = Ray { origin: Fx3::new(0, 0, 3 * FX_ONE), direction: Fx3::new(0, 0, -FX_ONE) };

    let scene_ba = Scene::new(vec![Shape::Sphere(b), Shape::Sphere(a)], vec![]);
    let rec = scene_ba.hit(&ray, forward_interval()).expect("must hit");
    assert_eq!(rec.t, 2 * FX_ONE);
    assert_eq!(rec.material, a.material);

    let scene_ab = Scene::new(vec![Shape::Sphere(a), Shape::Sphere(b)], vec![]);
    let rec2 = scene_ab.hit(&ray, forward_interval()).expect("must hit");
    assert_eq!(rec2.t, 2 * FX_ONE);
    assert_eq!(rec2.material, a.material);

    // The bare aggregate behaves the same.
    let shapes = Shapes::new(vec![Shape::Sphere(b), Shape::Sphere(a)]);
    let rec3 = shapes.hit(&ray, forward_interval()).expect("must hit");
    assert_eq!(rec3.t, 2 * FX_ONE);
}

#[test]
fn empty_scene_never_hits() {
    let scene = Scene::new(vec![], vec![]);
    let ray = Ray { origin: Fx3::zero(), direction: Fx3::new(0, 0, -FX_ONE) };
    assert!(scene.hit(&ray, forward_interval()).is_none());
}

#[test]
fn interval_is_half_open() {
    let iv = Interval::new(0, 2 * FX_ONE);
    assert!(iv.contains(0));
    assert!(iv.contains(2 * FX_ONE - 1));
    assert!(!iv.contains(2 * FX_ONE));
    assert!(!iv.contains(-1));
}

#[test]
fn default_scene_contents() {
    let scene = Scene::default();
    assert_eq!(scene.shapes.len(), 4);
    assert!(scene.lights.is_empty());
    assert!(scene.accumulate);
    assert_eq!(scene.frame_index, 0);
    match &scene.shapes[0] {
        Shape::Sphere(s) => {
            assert_eq!(s.center, Fx3::zero());
            assert_eq!(s.radius, FX_ONE);
            assert_eq!(s.material.albedo, Fx3::new(FX_ONE, 0, FX_ONE));
        },
        Shape::Plane(_) => panic!("expected a sphere"),
    }
}

#[test]
fn resize_sets_sentinel_and_nothing_else() {
    let mut scene = Scene::default();
    let shapes_before = scene.shapes.len();
    scene.resize();
    assert_eq!(scene.frame_index, -1);
    assert_eq!(scene.shapes.len(), shapes_before);
    assert!(scene.accumulate);
}
