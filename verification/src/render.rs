//! Frame rendering and progressive accumulation. A frame is the
//! concatenation of independent row renders (row-major, top image row
//! first, RGBA8); the accumulation merge folds each finished frame into a
//! running per-channel mean and restarts that mean whenever accumulation is
//! disabled, invalidated, or the buffer size no longer matches.
//!
//! Each row is a pure function of the camera and scene snapshots, so a host
//! may compute rows in any order or in parallel; `render_frame` fixes their
//! placement by index, never by completion order.

use crate::camera::{spec_ray_direction, Camera};
use crate::fx::{fx_add, fx_div, fx_sub, spec_add, spec_div, spec_sub, FX_ONE};
use crate::hittable::Ray;
use crate::scene::{spec_list_hit, Scene};
use crate::shading::{
    per_pixel, spec_full_interval, spec_pick_count, spec_pixel, Rgba,
};
use vstd::prelude::*;

verus! {

/// The camera ray of pixel `(x, y)`.
pub open spec fn spec_cam_ray(cam: Camera, x: int, y: int) -> Ray {
    Ray { origin: cam.position, direction: spec_ray_direction(cam, x, y) }
}

/// The four bytes of pixel `p` in a flat RGBA8 buffer.
pub open spec fn spec_rgba_at(bytes: Seq<u8>, p: int) -> Rgba {
    Rgba { r: bytes[4 * p], g: bytes[4 * p + 1], b: bytes[4 * p + 2], a: bytes[4 * p + 3] }
}

/// What a rendered pixel may be: the kernel's answer to the pixel's camera
/// ray for some valid choice of light picks and draws; deterministic (and
/// the transparent background) wherever the ray misses, and deterministic
/// whenever the scene has no lights.
pub open spec fn spec_pixel_ok(scene: Scene, cam: Camera, x: int, y: int, px: Rgba) -> bool {
    &&& exists|picks: Seq<usize>, draws: Seq<u64>|
        {
            &&& picks.len() == draws.len()
            &&& picks.len() == spec_pick_count(scene.lights@.len() as int)
            &&& (forall|i: int| 0 <= i < picks.len() ==> picks[i] < scene.lights@.len())
            &&& px == #[trigger] spec_pixel(scene, spec_cam_ray(cam, x, y), picks, draws)
        }
    &&& (scene.lights@.len() == 0 ==> px == spec_pixel(
        scene,
        spec_cam_ray(cam, x, y),
        Seq::<usize>::empty(),
        Seq::<u64>::empty(),
    ))
    &&& (spec_list_hit(scene.shapes@, spec_cam_ray(cam, x, y), spec_full_interval()) is None
        ==> px == (Rgba { r: 0, g: 0, b: 0, a: 0 }))
}

/// Render one image row: the RGBA8 bytes of every pixel of row `y`
/// (`y` counted in view space, growing upward).
pub fn render_row(camera: &Camera, scene: &Scene, y: u32) -> (r: Vec<u8>)
    ensures
        r@.len() == 4 * camera.width as int,
        forall|x: int|
            0 <= x < camera.width as int ==> spec_pixel_ok(
                *scene,
                *camera,
                x,
                y as int,
                #[trigger] spec_rgba_at(r@, x),
            ),
{
    let mut out: Vec<u8> = Vec::new();
    let mut x: u32 = 0;
    while x < camera.width
        invariant
            0 <= x <= camera.width,
            out@.len() == 4 * x as int,
            forall|j: int|
                0 <= j < x as int ==> spec_pixel_ok(
                    *scene,
                    *camera,
                    j,
                    y as int,
                    #[trigger] spec_rgba_at(out@, j),
                ),
        decreases camera.width - x,
    {
        let dir = camera.ray_direction(x, y);
        let ray = Ray { origin: camera.position, direction: dir };
        let px = per_pixel(&ray, scene);
        let ghost prev = out@;
        out.push(px.r);
        out.push(px.g);
        out.push(px.b);
        out.push(px.a);
        proof {
            assert(spec_rgba_at(out@, x as int) == px);
            assert forall|j: int| 0 <= j < x as int implies #[trigger] spec_rgba_at(out@, j)
                == spec_rgba_at(prev, j) by {
                assert(out@[4 * j] == prev[4 * j]);
                assert(out@[4 * j + 1] == prev[4 * j + 1]);
                assert(out@[4 * j + 2] == prev[4 * j + 2]);
                assert(out@[4 * j + 3] == prev[4 * j + 3]);
            }
        }
        x = x + 1;
    }
    out
}

/// Render a whole frame: the rows concatenated in order, top image row
/// first (row `i` of the output is view-space row `height - 1 - i`),
/// RGBA8, length `width * height * 4`. Pixel placement is by index, never
/// by computation order.
pub fn render_frame(camera: &Camera, scene: &Scene) -> (r: Vec<u8>)
    ensures
        r@.len() == 4 * camera.width as int * camera.height as int,
        forall|i: int, x: int|
            0 <= i < camera.height as int && 0 <= x < camera.width as int ==> spec_pixel_ok(
                *scene,
                *camera,
                x,
                camera.height as int - 1 - i,
                #[trigger] spec_rgba_at(r@, i * camera.width as int + x),
            ),
{
    let w = camera.width;
    let mut out: Vec<u8> = Vec::new();
    let mut i: u32 = 0;
    while i < camera.height
        invariant
            0 <= i <= camera.height,
            w == camera.width,
            out@.len() == 4 * w as int * i as int,
            forall|k: int, x: int|
                0 <= k < i as int && 0 <= x < w as int ==> spec_pixel_ok(
                    *scene,
                    *camera,
                    x,
                    camera.height as int - 1 - k,
                    #[trigger] spec_rgba_at(out@, k * w as int + x),
                ),
        decreases camera.height - i,
    {
        let y = camera.height - 1 - i;
        let mut row = render_row(camera, scene, y);
        let ghost prev = out@;
        let ghost rowview = row@;
        out.append(&mut row);
        proof {
            let wi = w as int;
            let ii = i as int;
            assert(4 * wi * (ii + 1) == 4 * wi * ii + 4 * wi) by (nonlinear_arith);
            assert forall|k: int, x: int|
                0 <= k < ii + 1 && 0 <= x < wi implies spec_pixel_ok(
                *scene,
                *camera,
                x,
                camera.height as int - 1 - k,
                #[trigger] spec_rgba_at(out@, k * wi + x),
            ) by {
                if k < ii {
                    assert(0 <= 4 * (k * wi + x) && 4 * (k * wi + x) + 3 < 4 * wi * ii)
                        by (nonlinear_arith)
                        requires
                            0 <= k < ii,
                            0 <= x < wi,
                    ;
                    assert(out@[4 * (k * wi + x)] == prev[4 * (k * wi + x)]);
                    assert(out@[4 * (k * wi + x) + 1] == prev[4 * (k * wi + x) + 1]);
                    assert(out@[4 * (k * wi + x) + 2] == prev[4 * (k * wi + x) + 2]);
                    assert(out@[4 * (k * wi + x) + 3] == prev[4 * (k * wi + x) + 3]);
                    assert(spec_rgba_at(out@, k * wi + x) == spec_rgba_at(prev, k * wi + x));
                } else {
                    assert(4 * (k * wi + x) == 4 * wi * ii + 4 * x && 4 * (k * wi + x) + 3 == 4 * wi
                        * ii + 4 * x + 3) by (nonlinear_arith)
                        requires
                            k == ii,
                            0 <= x < wi,
                    ;
                    assert(out@[4 * wi * ii + 4 * x] == rowview[4 * x]);
                    assert(out@[4 * wi * ii + 4 * x + 1] == rowview[4 * x + 1]);
                    assert(out@[4 * wi * ii + 4 * x + 2] == rowview[4 * x + 2]);
                    assert(out@[4 * wi * ii + 4 * x + 3] == rowview[4 * x + 3]);
                    assert(spec_rgba_at(out@, k * wi + x) == spec_rgba_at(rowview, x));
                }
            }
        }
        i = i + 1;
    }
    out
}

/// One per-channel step of the running mean: the previous mean moved
/// toward the new sample by `1 / k` of their difference (`kfx` is the frame
/// count as a fixed-point value).
pub open spec fn spec_merge_one(prev: i64, new_byte: u8, kfx: i64) -> i64 {
    spec_add(prev, spec_div(spec_sub((new_byte * FX_ONE) as i64, prev), kfx))
}

/// An accumulated fixed-point channel as an output byte (clamped).
pub open spec fn spec_acc_byte(v: i64) -> u8 {
    if v < 0 {
        0
    } else if v > 255 * FX_ONE {
        255
    } else {
        ((v as int) / (FX_ONE as int)) as u8
    }
}

/// An accumulated fixed-point channel as an output byte.
fn acc_byte(v: i64) -> (r: u8)
    ensures
        r == spec_acc_byte(v),
{
    if v < 0 {
        0
    } else if v > 255 * 65536 {
        255
    } else {
        ((v as u64) / 65536) as u8
    }
}

/// How one merge step relates the scene before and after it, the new
/// frame, and the produced output. The mean restarts (from exactly the new
/// frame) when accumulation is off, when the frame index holds the
/// invalidation sentinel, or when the buffer size no longer matches the
/// frame; otherwise every channel takes one running-mean step and the
/// output is the clamped mean.
pub open spec fn spec_merged(old_s: Scene, new_s: Scene, frame: Seq<u8>, out: Seq<u8>) -> bool {
    let reset = !old_s.accumulate || old_s.frame_index == -1 || old_s.accumulation@.len()
        != frame.len();
    &&& new_s.shapes == old_s.shapes
    &&& new_s.lights == old_s.lights
    &&& new_s.accumulate == old_s.accumulate
    &&& new_s.accumulation@.len() == frame.len()
    &&& out.len() == frame.len()
    &&& if reset {
        &&& new_s.frame_index == 1
        &&& (forall|i: int|
            0 <= i < frame.len() ==> #[trigger] new_s.accumulation@[i] == (frame[i] * FX_ONE) as i64)
        &&& out =~= frame
    } else {
        &&& new_s.frame_index == old_s.frame_index + 1
        &&& (forall|i: int|
            0 <= i < frame.len() ==> #[trigger] new_s.accumulation@[i] == spec_merge_one(
                old_s.accumulation@[i],
                frame[i],
                ((old_s.frame_index + 1) * FX_ONE) as i64,
            ))
        &&& (forall|i: int|
            0 <= i < frame.len() ==> #[trigger] out[i] == spec_acc_byte(new_s.accumulation@[i]))
    }
}

/// Fold a finished frame into the scene's accumulation state and return
/// the bytes to display.
pub fn merge_frame(scene: &mut Scene, frame: &Vec<u8>) -> (out: Vec<u8>)
    requires
        old(scene).frame_index < i32::MAX,
    ensures
        spec_merged(*old(scene), *final (scene), frame@, out@),
{
    if !scene.accumulate || scene.frame_index == -1 || scene.accumulation.len() != frame.len() {
        scene.frame_index = 1;
        let mut acc: Vec<i64> = Vec::new();
        let mut out: Vec<u8> = Vec::new();
        let mut i: usize = 0;
        while i < frame.len()
            invariant
                0 <= i <= frame@.len(),
                acc@.len() == i as int,
                out@.len() == i as int,
                forall|j: int| 0 <= j < i as int ==> #[trigger] acc@[j] == (frame@[j] * FX_ONE) as i64,
                forall|j: int| 0 <= j < i as int ==> #[trigger] out@[j] == frame@[j],
            decreases frame@.len() - i,
        {
            acc.push((frame[i] as i64) * 65536);
            out.push(frame[i]);
            i = i + 1;
        }
        scene.accumulation = acc;
        proof {
            assert(out@ =~= frame@);
        }
        out
    } else {
        scene.frame_index = scene.frame_index + 1;
        let kfx = (scene.frame_index as i64) * 65536;
        let mut acc: Vec<i64> = Vec::new();
        let mut out: Vec<u8> = Vec::new();
        let mut i: usize = 0;
        while i < frame.len()
            invariant
                0 <= i <= frame@.len(),
                frame@.len() == scene.accumulation@.len(),
                scene.frame_index == old(scene).frame_index + 1,
                scene.accumulation == old(scene).accumulation,
                kfx == ((old(scene).frame_index + 1) * FX_ONE) as i64,
                acc@.len() == i as int,
                out@.len() == i as int,
                forall|j: int|
                    0 <= j < i as int ==> #[trigger] acc@[j] == spec_merge_one(
                        scene.accumulation@[j],
                        frame@[j],
                        kfx,
                    ),
                forall|j: int| 0 <= j < i as int ==> #[trigger] out@[j] == spec_acc_byte(acc@[j]),
            decreases frame@.len() - i,
        {
            let prev = scene.accumulation[i];
            let merged = fx_add(prev, fx_div(fx_sub((frame[i] as i64) * 65536, prev), kfx));
            acc.push(merged);
            out.push(acc_byte(merged));
            i = i + 1;
        }
        scene.accumulation = acc;
        out
    }
}

/// Render one frame from the current camera and scene and fold it into the
/// accumulation state: one host tick. The returned bytes are the frame to
/// display (the running mean while accumulation is valid).
pub fn render_tick(scene: &mut Scene, camera: &Camera) -> (out: Vec<u8>)
    requires
        old(scene).frame_index < i32::MAX,
    ensures
        exists|frame: Seq<u8>|
            {
                &&& frame.len() == 4 * camera.width as int * camera.height as int
                &&& (forall|i: int, x: int|
                    0 <= i < camera.height as int && 0 <= x < camera.width as int
                        ==> spec_pixel_ok(
                        *old(scene),
                        *camera,
                        x,
                        camera.height as int - 1 - i,
                        #[trigger] spec_rgba_at(frame, i * camera.width as int + x),
                    ))
                &&& spec_merged(*old(scene), *final (scene), frame, out@)
            },
{
    let frame = render_frame(camera, scene);
    let out = merge_frame(scene, &frame);
    out
}

/// A channel that already equals the incoming sample is left exactly in
/// place by a running-mean step, whatever the frame count: accumulating a
/// static image is stable, so the mean converges to (and then stays at)
/// the per-pixel value.
pub proof fn lemma_constant_sample_keeps_mean(v: u8, kfx: i64)
    ensures
        spec_merge_one((v * FX_ONE) as i64, v, kfx) == (v * FX_ONE) as i64,
{
    let prev = (v * FX_ONE) as i64;
    assert(spec_sub(prev, prev) == 0);
    if kfx != 0 {
        let q = if kfx > 0 {
            kfx as int
        } else {
            -(kfx as int)
        };
        vstd::arithmetic::div_mod::lemma_fundamental_div_mod_converse(0, q, 0, 0);
        assert(spec_div(0, kfx) == 0);
    }
}

/// Immediately after an invalidation (the sentinel frame index), the next
/// merge restarts accumulation: its output is exactly the fresh frame and
/// the frame count is one, never a blend with older data.
pub proof fn lemma_reset_restarts_accumulation(
    old_s: Scene,
    new_s: Scene,
    frame: Seq<u8>,
    out: Seq<u8>,
)
    requires
        old_s.frame_index == -1,
        spec_merged(old_s, new_s, frame, out),
    ensures
        out =~= frame,
        new_s.frame_index == 1,
        forall|i: int|
            0 <= i < frame.len() ==> #[trigger] new_s.accumulation@[i] == (frame[i] * FX_ONE) as i64,
{
}

} // verus!
