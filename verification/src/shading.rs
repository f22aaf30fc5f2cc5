//! The shading kernel: single-hit next-event estimation with reservoir
//! light sampling. On a hit, the pixel color is a deterministic base term
//! (albedo scaled by how squarely the surface faces the ray) plus the
//! material's emission, plus one reservoir-resolved direct light sample.
//! The kernel never fails on a pathological scene: an empty light list
//! short-circuits to zero direct contribution, a zero target function or an
//! occluded shadow ray forces a zero weight, and a miss yields the
//! transparent background pixel.
//!
//! `per_pixel_with` is the deterministic core: it takes the light picks and
//! the uniform draws as arguments and is specified exactly. `per_pixel`
//! draws them from the thread-local generator and satisfies the same
//! specification for some valid sequence of draws.

use crate::fx::{fx_clamp01, fx_clip, fx_div, fx_mul, spec_clamp01, spec_div, spec_mul, FX_ONE};
use crate::hittable::{Hittable, Interval, Ray};
use crate::hittable::HitRecord;
use crate::light::{spec_light_pos, spec_light_sample, Light};
use crate::reservoir::{spec_reservoir_replaces, Reservoir};
use crate::rng::rand_below;
use crate::scene::{spec_list_hit, Scene};
use crate::vec::{
    spec_v3_add, spec_v3_dot, spec_v3_len, spec_v3_mul, spec_v3_neg, spec_v3_normalize,
    spec_v3_scale, spec_v3_sub, spec_v3_zero, Fx3,
};
use vstd::prelude::*;

verus! {

/// At most this many light candidates are drawn per pixel (with
/// replacement), however long the light list is.
pub const CANDIDATE_CAP: usize = 2;

/// Shadow rays start this far along their direction (about 1e-4 in fixed
/// point) to avoid self-intersection at the surface they leave.
pub const SHADOW_EPS: i64 = 7;

/// An output pixel: red, green, blue, alpha. The background (a ray that
/// hits nothing) is transparent black; every hit is fully opaque.
#[derive(Clone, Copy, PartialEq, Eq, Structural, Debug)]
pub struct Rgba {
    pub r: u8,
    pub g: u8,
    pub b: u8,
    pub a: u8,
}

/// The full forward interval: all non-negative parameters.
pub open spec fn spec_full_interval() -> Interval {
    Interval { lo: 0, hi: i64::MAX }
}

/// The shadow interval: offset by the self-intersection epsilon.
pub open spec fn spec_shadow_interval() -> Interval {
    Interval { lo: SHADOW_EPS, hi: i64::MAX }
}

/// A unit-range fixed-point channel mapped to a byte, rounding to nearest.
pub open spec fn spec_to_byte(c: i64) -> u8 {
    ((spec_clamp01(c) * 255 + 32768) / 65536) as u8
}

/// A unit-range fixed-point channel mapped to a byte.
pub fn to_byte(c: i64) -> (r: u8)
    ensures
        r == spec_to_byte(c),
{
    let v = fx_clamp01(c);
    (((v as u64) * 255 + 32768) / 65536) as u8
}

/// The number of candidates drawn for a light list of length `n`.
pub open spec fn spec_pick_count(n: int) -> int {
    if n < CANDIDATE_CAP as int {
        n
    } else {
        CANDIDATE_CAP as int
    }
}

/// The deterministic part of a hit's color: the albedo scaled by how
/// squarely the surface faces the incoming ray, plus the emitted term.
pub open spec fn spec_base_color(ray: Ray, rec: HitRecord) -> Fx3 {
    let view = spec_v3_normalize(spec_v3_neg(ray.direction));
    let base = spec_v3_scale(rec.material.albedo, spec_clamp01(spec_v3_dot(rec.normal, view)));
    spec_v3_add(base, spec_v3_scale(rec.material.emission_color, rec.material.emission))
}

/// The unshadowed direct contribution of one light at a hit: its radiance
/// tinted by the albedo and scaled by the clamped cosine term.
pub open spec fn spec_light_contrib(l: Light, rec: HitRecord) -> Fx3 {
    let ldir = spec_v3_normalize(spec_v3_sub(spec_light_pos(l), rec.point));
    let ndotl = spec_clamp01(spec_v3_dot(rec.normal, ldir));
    spec_v3_scale(spec_v3_mul(spec_light_sample(l), rec.material.albedo), ndotl)
}

/// The reservoir weight of a candidate light: the luminance (vector length)
/// of its contribution divided by the uniform pdf `1 / len`, that is,
/// multiplied by the light count.
pub open spec fn spec_candidate_weight(lights: Seq<Light>, rec: HitRecord, li: int) -> i64 {
    spec_mul(spec_v3_len(spec_light_contrib(lights[li], rec)), fx_clip(lights.len() * FX_ONE))
}

/// The reservoir state (selection, weight sum, count) after feeding the
/// candidates `picks` with the uniform draws `draws`, in order.
pub open spec fn spec_reservoir_after(
    lights: Seq<Light>,
    rec: HitRecord,
    picks: Seq<usize>,
    draws: Seq<u64>,
) -> (usize, i64, int)
    decreases picks.len(),
{
    if picks.len() == 0 {
        (0usize, 0i64, 0int)
    } else {
        let prev = spec_reservoir_after(lights, rec, picks.drop_last(), draws.drop_last());
        let li = picks.last();
        let w = spec_candidate_weight(lights, rec, li as int);
        let ws = crate::fx::spec_add(prev.1, w);
        let y = if spec_reservoir_replaces(ws, w, draws.last()) {
            li
        } else {
            prev.0
        };
        (y, ws, prev.2 + 1)
    }
}

/// The direct light term of a pixel: resolve the reservoir once, weight the
/// chosen light's contribution by the unbiased estimator weight
/// `(1 / p_hat) * (wsum / m)`, and force the weight to zero when the target
/// function is zero, when no candidate was seen, or when the shadow ray
/// toward the chosen light is occluded. The integer `p_hat` needs no
/// epsilon guard: when it is nonzero it is at least one fixed-point unit.
pub open spec fn spec_direct_light(
    scene: Scene,
    rec: HitRecord,
    picks: Seq<usize>,
    draws: Seq<u64>,
) -> Fx3 {
    if scene.lights@.len() == 0 || picks.len() == 0 {
        spec_v3_zero()
    } else {
        let st = spec_reservoir_after(scene.lights@, rec, picks, draws);
        let lc = spec_light_contrib(scene.lights@[st.0 as int], rec);
        let p_hat = spec_v3_len(lc);
        let ldir = spec_v3_normalize(
            spec_v3_sub(spec_light_pos(scene.lights@[st.0 as int]), rec.point),
        );
        let shadow = Ray { origin: rec.point, direction: ldir };
        let occluded = spec_list_hit(scene.shapes@, shadow, spec_shadow_interval()) is Some;
        let w = if p_hat == 0 || st.2 == 0 || occluded {
            0i64
        } else {
            spec_mul(spec_div(FX_ONE, p_hat), spec_div(st.1, fx_clip(st.2 * FX_ONE)))
        };
        spec_v3_scale(lc, w)
    }
}

/// What the kernel returns for a ray, a scene, and a sequence of candidate
/// picks and uniform draws: the transparent background on a miss, and on a
/// hit the base color plus the reservoir-sampled direct light, as opaque
/// bytes.
pub open spec fn spec_pixel(scene: Scene, ray: Ray, picks: Seq<usize>, draws: Seq<u64>) -> Rgba {
    match spec_list_hit(scene.shapes@, ray, spec_full_interval()) {
        None => Rgba { r: 0, g: 0, b: 0, a: 0 },
        Some(rec) => {
            let c = spec_v3_add(spec_base_color(ray, rec), spec_direct_light(scene, rec, picks, draws));
            Rgba { r: spec_to_byte(c.x), g: spec_to_byte(c.y), b: spec_to_byte(c.z), a: 255 }
        },
    }
}

/// The unshadowed direct contribution of one light at a hit.
fn light_contribution(l: &Light, rec: &HitRecord) -> (r: Fx3)
    ensures
        r == spec_light_contrib(*l, *rec),
{
    let ldir = l.get_pos().sub(&rec.point).normalize();
    let ndotl = fx_clamp01(rec.normal.dot(&ldir));
    l.sample().mul(&rec.material.albedo).scale(ndotl)
}

/// The reservoir weight of one candidate light.
fn candidate_weight(lights: &Vec<Light>, rec: &HitRecord, li: usize) -> (r: i64)
    requires
        li < lights@.len(),
    ensures
        r == spec_candidate_weight(lights@, *rec, li as int),
{
    let c = light_contribution(&lights[li], rec);
    let n64 = lights.len() as u64;
    let nfx: i64 = if n64 >= 0x8000_0000_0000u64 {
        i64::MAX
    } else {
        (n64 as i64) * 65536
    };
    fx_mul(c.length(), nfx)
}

/// The deterministic shading kernel: evaluate one ray against the scene
/// with the given candidate picks and uniform draws.
pub fn per_pixel_with(ray: &Ray, scene: &Scene, picks: &Vec<usize>, draws: &Vec<u64>) -> (px: Rgba)
    requires
        picks@.len() == draws@.len(),
        picks@.len() < 0x1_0000_0000,
        forall|i: int| 0 <= i < picks@.len() ==> picks@[i] < scene.lights@.len(),
    ensures
        px == spec_pixel(*scene, *ray, picks@, draws@),
{
    let hit = scene.hit(ray, Interval::new(0, i64::MAX));
    match hit {
        None => Rgba { r: 0, g: 0, b: 0, a: 0 },
        Some(rec) => {
            let view = ray.direction.neg().normalize();
            let ndotv = fx_clamp01(rec.normal.dot(&view));
            let mut color = rec.material.albedo.scale(ndotv);
            color = color.add(&rec.material.emission_color.scale(rec.material.emission));
            if scene.lights.len() > 0 && picks.len() > 0 {
                let mut res = Reservoir::new();
                let mut i: usize = 0;
                while i < picks.len()
                    invariant
                        0 <= i <= picks@.len(),
                        picks@.len() == draws@.len(),
                        picks@.len() < 0x1_0000_0000,
                        forall|j: int| 0 <= j < picks@.len() ==> picks@[j] < scene.lights@.len(),
                        scene.lights@.len() > 0,
                        res.y < scene.lights@.len(),
                        res.m as int == i as int,
                        (res.y, res.wsum, res.m as int) == spec_reservoir_after(
                            scene.lights@,
                            rec,
                            picks@.take(i as int),
                            draws@.take(i as int),
                        ),
                    decreases picks@.len() - i,
                {
                    proof {
                        assert(picks@.take(i + 1).drop_last() =~= picks@.take(i as int));
                        assert(draws@.take(i + 1).drop_last() =~= draws@.take(i as int));
                        assert(picks@.take(i + 1).last() == picks@[i as int]);
                        assert(draws@.take(i + 1).last() == draws@[i as int]);
                    }
                    let li = picks[i];
                    let w = candidate_weight(&scene.lights, &rec, li);
                    res.update_with_draw(li, w, draws[i]);
                    i = i + 1;
                }
                proof {
                    assert(picks@.take(picks@.len() as int) =~= picks@);
                    assert(draws@.take(draws@.len() as int) =~= draws@);
                }
                let lc = light_contribution(&scene.lights[res.y], &rec);
                let p_hat = lc.length();
                let ldir = scene.lights[res.y].get_pos().sub(&rec.point).normalize();
                let shadow = Ray { origin: rec.point, direction: ldir };
                let occluded = scene.hit(&shadow, Interval::new(SHADOW_EPS, i64::MAX)).is_some();
                let w = if p_hat == 0 || res.m == 0 || occluded {
                    0
                } else {
                    let mfx: i64 = (res.m as i64) * 65536;
                    fx_mul(fx_div(FX_ONE, p_hat), fx_div(res.wsum, mfx))
                };
                color = color.add(&lc.scale(w));
            }
            Rgba { r: to_byte(color.x), g: to_byte(color.y), b: to_byte(color.z), a: 255 }
        },
    }
}

/// Evaluate one ray against the scene, drawing the light candidates and
/// the replacement draws from the thread-local generator. The result is
/// the kernel's answer for some valid sequence of picks and draws; on a
/// miss, and whenever the light list is empty, it is fully deterministic.
pub fn per_pixel(ray: &Ray, scene: &Scene) -> (px: Rgba)
    ensures
        spec_list_hit(scene.shapes@, *ray, spec_full_interval()) is None ==> px == (Rgba {
            r: 0,
            g: 0,
            b: 0,
            a: 0,
        }),
        spec_list_hit(scene.shapes@, *ray, spec_full_interval()) is Some ==> px.a == 255,
        scene.lights@.len() == 0 ==> px == spec_pixel(
            *scene,
            *ray,
            Seq::<usize>::empty(),
            Seq::<u64>::empty(),
        ),
        exists|picks: Seq<usize>, draws: Seq<u64>|
            {
                &&& picks.len() == draws.len()
                &&& picks.len() == spec_pick_count(scene.lights@.len() as int)
                &&& (forall|i: int| 0 <= i < picks.len() ==> picks[i] < scene.lights@.len())
                &&& px == #[trigger] spec_pixel(*scene, *ray, picks, draws)
            },
{
    let n = scene.lights.len();
    let m = if n < CANDIDATE_CAP {
        n
    } else {
        CANDIDATE_CAP
    };
    let mut picks: Vec<usize> = Vec::new();
    let mut draws: Vec<u64> = Vec::new();
    let mut i: usize = 0;
    while i < m
        invariant
            0 <= i <= m,
            m <= n,
            m == spec_pick_count(n as int),
            n == scene.lights@.len(),
            picks@.len() == i as int,
            draws@.len() == i as int,
            forall|j: int| 0 <= j < picks@.len() ==> picks@[j] < n,
        decreases m - i,
    {
        let p = rand_below(n as u64);
        picks.push(p as usize);
        draws.push(rand_below(65536));
        i = i + 1;
    }
    let px = per_pixel_with(ray, scene, &picks, &draws);
    proof {
        if scene.lights@.len() == 0 {
            assert(picks@ =~= Seq::<usize>::empty());
            assert(draws@ =~= Seq::<u64>::empty());
        }
        assert(px == spec_pixel(*scene, *ray, picks@, draws@));
    }
    px
}

} // verus!
