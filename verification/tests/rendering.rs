//! The camera, the shading kernel, progressive accumulation, and the
//! end-to-end render path.

use ray_tracing::camera::Camera;
use ray_tracing::fx::FX_ONE;
use ray_tracing::hittable::{Hittable, Interval, Ray};
use ray_tracing::trig::HALF_PI_FX;
use ray_tracing::light::{Light, Point};
use ray_tracing::material::Mat;
use ray_tracing::render::{merge_frame, render_frame, render_tick};
use ray_tracing::scene::Scene;
use ray_tracing::shading::{per_pixel, per_pixel_with};
use ray_tracing::shape::{Shape, Sphere};
use ray_tracing::vec::Fx3;

fn matte(r: i64, g: i64, b: i64) -> Mat {
    Mat {
        albedo: Fx3::new(r, g, b),
        roughness: 0,
        specular_chance: 0,
        emission: 0,
        emission_color: Fx3::zero(),
    }
}

/// The end-to-end camera of the one-sphere scenario: at (0, 0, 3) facing
/// -Z, 45 degree vertical field of view, near 0.1, far 100, 1x1 image.
fn tiny_camera() -> Camera {
    Camera::new(45 * FX_ONE, 6554, 100 * FX_ONE)
}

fn magenta_sphere_scene() -> Scene {
    let sphere = Sphere {
        center: Fx3::zero(),
        radius: FX_ONE / 2,
        material: matte(FX_ONE, 0, FX_ONE),
    };
    Scene::new(vec![Shape::Sphere(sphere)], vec![])
}

#[test]
fn camera_translate_moves_position() {
    let mut cam = Camera::new(45 * FX_ONE, 6554, 100 * FX_ONE);
    cam.translate(Fx3::new(FX_ONE, 0, 0), FX_ONE / 2);
    assert_eq!(cam.position, Fx3::new(FX_ONE / 2, 0, 3 * FX_ONE));
    assert_eq!(cam.forward, Fx3::new(0, 0, -FX_ONE));
}

#[test]
fn camera_rotate_quarter_turn_about_up() {
    let mut cam = Camera::new(45 * FX_ONE, 6554, 100 * FX_ONE);
    // Yaw angle is -dx * speed; a quarter turn left takes forward from -Z
    // to -X.
    cam.rotate(-HALF_PI_FX, 0, FX_ONE);
    assert_eq!(cam.forward.y, 0);
    assert!(cam.forward.x < -65000, "forward.x = {}", cam.forward.x);
    assert!(cam.forward.z.abs() < 1000, "forward.z = {}", cam.forward.z);
}

#[test]
fn camera_resize_is_noop_when_unchanged() {
    let mut cam = tiny_camera();
    let before = cam;
    cam.on_resize(1, 1);
    assert_eq!(cam, before);
}

#[test]
fn ray_directions_top_row_first() {
    let mut cam = tiny_camera();
    cam.on_resize(1, 2);
    let rows = cam.ray_directions();
    assert_eq!(rows.len(), 2);
    assert_eq!(rows[0].len(), 1);
    assert_eq!(rows[0][0], cam.ray_direction(0, 1));
    assert_eq!(rows[1][0], cam.ray_direction(0, 0));
    // The top image row looks upward, the bottom row downward.
    assert!(rows[0][0].y > 0);
    assert!(rows[1][0].y < 0);
}

#[test]
fn single_ray_points_toward_negative_z() {
    let cam = tiny_camera();
    let d = cam.ray_direction(0, 0);
    assert_eq!(d.x, 0);
    assert_eq!(d.y, 0);
    assert!(d.z < 0);
    assert!((d.z + FX_ONE).abs() <= 2, "direction z = {}", d.z);
}

#[test]
fn single_ray_hits_sphere_at_expected_parameter() {
    let cam = tiny_camera();
    let scene = magenta_sphere_scene();
    let ray = Ray { origin: cam.position, direction: cam.ray_direction(0, 0) };
    let rec = scene.hit(&ray, Interval::new(0, i64::MAX)).expect("must hit");
    // t is about 2.5 (163840 units) up to fixed-point rounding.
    assert!((rec.t - 163840).abs() <= 16, "t = {}", rec.t);
}

#[test]
fn end_to_end_single_pixel_is_shaded_albedo() {
    // One sphere at the origin, radius 0.5, albedo (1, 0, 1), no lights;
    // camera at (0, 0, 3) facing -Z over a 1x1 image. The single pixel is
    // non-background and deterministic: full albedo, opaque alpha.
    let cam = tiny_camera();
    let mut scene = magenta_sphere_scene();
    let out = render_tick(&mut scene, &cam);
    assert_eq!(out, vec![255, 0, 255, 255]);
    assert_eq!(scene.frame_index, 1);
    // A second tick of the static scene changes nothing.
    let out2 = render_tick(&mut scene, &cam);
    assert_eq!(out2, vec![255, 0, 255, 255]);
    assert_eq!(scene.frame_index, 2);
}

#[test]
fn miss_renders_transparent_background() {
    let cam = tiny_camera();
    let scene = Scene::new(vec![], vec![]);
    let frame = render_frame(&cam, &scene);
    assert_eq!(frame, vec![0, 0, 0, 0]);
}

#[test]
fn per_pixel_deterministic_without_lights() {
    let cam = tiny_camera();
    let scene = magenta_sphere_scene();
    let ray = Ray { origin: cam.position, direction: cam.ray_direction(0, 0) };
    let a = per_pixel(&ray, &scene);
    let b = per_pixel(&ray, &scene);
    assert_eq!(a, b);
    assert_eq!(a.a, 255);
}

#[test]
fn per_pixel_with_lights_is_opaque_on_hit() {
    let sphere = Sphere {
        center: Fx3::zero(),
        radius: FX_ONE / 2,
        material: matte(FX_ONE, FX_ONE, FX_ONE),
    };
    let light = Light::Point(Point::new(
        Fx3::new(0, 3 * FX_ONE, 3 * FX_ONE),
        Fx3::new(FX_ONE, FX_ONE, FX_ONE),
        FX_ONE,
    ));
    let scene = Scene::new(vec![Shape::Sphere(sphere)], vec![light]);
    let cam = tiny_camera();
    let ray = Ray { origin: cam.position, direction: cam.ray_direction(0, 0) };
    // The deterministic kernel with fixed picks and draws.
    let px = per_pixel_with(&ray, &scene, &vec![0usize], &vec![0u64]);
    assert_eq!(px.a, 255);
    let px2 = per_pixel_with(&ray, &scene, &vec![0usize], &vec![0u64]);
    assert_eq!(px, px2);
    // The drawing kernel agrees on alpha.
    let px3 = per_pixel(&ray, &scene);
    assert_eq!(px3.a, 255);
}

#[test]
fn zero_strength_light_adds_nothing() {
    // A zero target function forces a zero reservoir weight: the pixel
    // equals the light-free shading, with no division hazard.
    let sphere = Sphere {
        center: Fx3::zero(),
        radius: FX_ONE / 2,
        material: matte(FX_ONE / 4, FX_ONE / 4, FX_ONE / 4),
    };
    let dark = Light::Point(Point::new(
        Fx3::new(2 * FX_ONE, 0, 3 * FX_ONE),
        Fx3::new(FX_ONE, FX_ONE, FX_ONE),
        0,
    ));
    let lit_scene = Scene::new(vec![Shape::Sphere(sphere)], vec![dark]);
    let dark_scene = Scene::new(vec![Shape::Sphere(sphere)], vec![]);
    let cam = tiny_camera();
    let ray = Ray { origin: cam.position, direction: cam.ray_direction(0, 0) };
    let with_dark_light = per_pixel_with(&ray, &lit_scene, &vec![0usize], &vec![0u64]);
    let without_light = per_pixel(&ray, &dark_scene);
    assert_eq!(with_dark_light, without_light);
}

#[test]
fn occluded_light_adds_nothing() {
    // A blocker between the hit point and the chosen light forces a zero
    // weight: the pixel equals the light-free shading; removing the
    // blocker brightens it.
    let subject = Sphere {
        center: Fx3::zero(),
        radius: FX_ONE / 2,
        material: matte(FX_ONE / 4, FX_ONE / 4, FX_ONE / 4),
    };
    let blocker = Sphere {
        center: Fx3::new(FX_ONE, 0, FX_ONE + FX_ONE / 2),
        radius: FX_ONE / 2,
        material: matte(0, 0, 0),
    };
    let light = Light::Point(Point::new(
        Fx3::new(2 * FX_ONE, 0, 2 * FX_ONE + FX_ONE / 2),
        Fx3::new(FX_ONE, FX_ONE, FX_ONE),
        2 * FX_ONE,
    ));
    let cam = tiny_camera();
    let ray = Ray { origin: cam.position, direction: cam.ray_direction(0, 0) };

    let occluded_scene = Scene::new(
        vec![Shape::Sphere(subject), Shape::Sphere(blocker)],
        vec![light],
    );
    let open_scene = Scene::new(vec![Shape::Sphere(subject)], vec![light]);
    let unlit_scene = Scene::new(
        vec![Shape::Sphere(subject), Shape::Sphere(blocker)],
        vec![],
    );

    let occluded = per_pixel_with(&ray, &occluded_scene, &vec![0usize], &vec![0u64]);
    let open = per_pixel_with(&ray, &open_scene, &vec![0usize], &vec![0u64]);
    let unlit = per_pixel(&ray, &unlit_scene);
    assert_eq!(occluded, unlit);
    assert!(open.r > occluded.r, "lit {} vs occluded {}", open.r, occluded.r);
}

#[test]
fn light_sample_and_position() {
    let l = Light::Point(Point::new(Fx3::new(1, 2, 3), Fx3::new(FX_ONE, FX_ONE / 2, 0), 2 * FX_ONE));
    assert_eq!(l.sample(), Fx3::new(2 * FX_ONE, FX_ONE, 0));
    assert_eq!(l.get_pos(), Fx3::new(1, 2, 3));
}

#[test]
fn accumulating_constant_frames_is_stable() {
    let mut scene = Scene::new(vec![], vec![]);
    let frame = vec![10u8, 20, 30, 255];
    let first = merge_frame(&mut scene, &frame);
    assert_eq!(first, frame);
    assert_eq!(scene.frame_index, 1);
    for k in 2..=10 {
        let out = merge_frame(&mut scene, &frame);
        assert_eq!(out, frame, "frame {k}");
        assert_eq!(scene.frame_index, k);
    }
}

#[test]
fn accumulation_converges_to_the_mean() {
    // Alternating samples 100 and 120: the running mean approaches 110 and
    // its deviation shrinks as frames accumulate.
    let mut scene = Scene::new(vec![], vec![]);
    let lo = vec![100u8];
    let hi = vec![120u8];
    // Sample the deviation right after each odd-count (low) merge, where
    // the running mean swings furthest from the limit: the swing shrinks
    // as the frame count grows.
    let target = 110 * FX_ONE;
    let mut dev_early = 0i64;
    let mut out = Vec::new();
    for k in 0..41 {
        let frame = if k % 2 == 0 { &lo } else { &hi };
        out = merge_frame(&mut scene, frame);
        if k == 0 {
            dev_early = (scene.accumulation[0] - target).abs();
        }
    }
    let dev_late = (scene.accumulation[0] - target).abs();
    assert!(dev_late < dev_early, "deviation grew: {dev_late} >= {dev_early}");
    assert!(dev_late <= FX_ONE, "mean off by {dev_late}");
    assert!(out[0] == 109 || out[0] == 110, "displayed mean = {}", out[0]);
}

#[test]
fn resize_resets_accumulation() {
    // Accumulate a few frames, invalidate, and check that the next output
    // is exactly the fresh frame, never a blend with older data.
    let mut scene = Scene::new(vec![], vec![]);
    let old_frame = vec![200u8, 200, 200, 200];
    for _ in 0..5 {
        merge_frame(&mut scene, &old_frame);
    }
    scene.resize();
    assert_eq!(scene.frame_index, -1);
    let fresh = vec![10u8, 20, 30, 40];
    let out = merge_frame(&mut scene, &fresh);
    assert_eq!(out, fresh);
    assert_eq!(scene.frame_index, 1);
    assert_eq!(scene.accumulation, vec![10 * FX_ONE, 20 * FX_ONE, 30 * FX_ONE, 40 * FX_ONE]);
}

#[test]
fn resize_then_render_equals_fresh_render() {
    // After an invalidation the next tick's output equals a fresh
    // single-sample render of the (deterministic, light-free) scene.
    let cam = tiny_camera();
    let mut scene = magenta_sphere_scene();
    for _ in 0..3 {
        render_tick(&mut scene, &cam);
    }
    scene.resize();
    let out = render_tick(&mut scene, &cam);
    let fresh = render_frame(&cam, &scene);
    assert_eq!(out, fresh);
    assert_eq!(scene.frame_index, 1);
}
