//! The integrator: recursive radiance estimation with a fixed depth
//! bound, and the per-pixel average over jittered samples.
//!
//! Every function's result is pinned to a spec-level recursion over the
//! scene, the camera and the offset pool, so a whole render is an exact
//! function of those inputs: rendering twice from the same table gives
//! the same pixels, by contract alone.

use crate::camera::{Camera, spec_get_ray};
use crate::fixed::{FX_RAW_BOUND, FX_SCALE, Fx, fx_add, fx_clamp, fx_div, fx_of};
use crate::hit::{Hittable, HittableList, spec_list_hit};
use crate::material::{scatter, spec_scatter};
use crate::ray::Ray;
use crate::samples::{Samples, next_pos, to_unit};
use crate::vec3::{Vec3, vec_add, vec_div_scalar, vec_mul, vec_scale, vec_unit};
use vstd::prelude::*;

verus! {

/// The recursion bound on scattering depth.
pub const TRACE_DEPTH_BOUND: u32 = 50;

/// Raw hit-window start: distances below this (about 0.001) are treated
/// as self-intersection and skipped.
pub const TRACE_T_MIN_RAW: i64 = 66;

/// The background gradient: a vertical blend from white toward a sky
/// blue, keyed on the unit direction's height.
pub open spec fn spec_background(ray: Ray) -> Vec3 {
    let unit = vec_unit(ray.direction);
    let t = fx_mul_half(fx_add(unit.1, fx_of(FX_SCALE as int)));
    vec_add(
        vec_scale(Vec3(fx_of(65536), fx_of(65536), fx_of(65536)), fx_sub_one(t)),
        vec_scale(Vec3(fx_of(32768), fx_of(45875), fx_of(65536)), t),
    )
}

/// Half of a scalar, the gradient's rescaling of `[-1, 1]` to `[0, 1]`.
pub open spec fn fx_mul_half(a: Fx) -> Fx {
    crate::fixed::fx_mul(a, fx_of(32768))
}

/// One minus a scalar, the gradient's complementary weight.
pub open spec fn fx_sub_one(t: Fx) -> Fx {
    crate::fixed::fx_sub(fx_of(FX_SCALE as int), t)
}

/// Evaluates the background gradient.
pub fn background(ray: &Ray) -> (c: Vec3)
    requires
        ray.wf(),
    ensures
        c == spec_background(*ray),
        c.wf(),
{
    let unit = Vec3::unit_vector(&ray.direction);
    let t = unit.y().add(Fx::one()).mul(Fx { raw: 32768 });
    let white = Vec3::new(Fx::one(), Fx::one(), Fx::one());
    let sky = Vec3::new(Fx { raw: 32768 }, Fx { raw: 45875 }, Fx { raw: 65536 });
    white.scale(Fx::one().sub(t)).add(sky.scale(t))
}

/// Denotation of `trace`: the estimated radiance and the cursor position
/// after the draws the estimate used. At or beyond the depth bound the
/// background is returned with the cursor untouched: no further
/// recursion, no further draws.
pub open spec fn spec_trace(
    objs: Seq<crate::hit::Surface>,
    ray: Ray,
    depth: nat,
    vals: Seq<Fx>,
    pos: nat,
) -> (Vec3, nat)
    decreases TRACE_DEPTH_BOUND - depth,
{
    if depth >= TRACE_DEPTH_BOUND {
        (spec_background(ray), pos)
    } else {
        match spec_list_hit(objs, ray, fx_of(TRACE_T_MIN_RAW as int), fx_of(FX_RAW_BOUND as int)) {
            Some(h) => {
                let (resp, pos2) = spec_scatter(h.material, ray, h, vals, pos);
                match resp {
                    Some((attenuation, scattered)) => {
                        let (c, pos3) = spec_trace(objs, scattered, depth + 1, vals, pos2);
                        (vec_mul(attenuation, c), pos3)
                    },
                    None => (Vec3(fx_of(0), fx_of(0), fx_of(0)), pos2),
                }
            },
            None => (spec_background(ray), pos),
        }
    }
}

/// Estimates the radiance along `ray` through the scene: on a hit the
/// material's attenuation multiplies the radiance of the scattered ray,
/// absorbed rays are black, misses show the background gradient, and the
/// recursion stops at the depth bound.
#[verifier::rlimit(100)]
pub fn trace(world: &HittableList, ray: &Ray, depth: u32, samples: &mut Samples) -> (c: Vec3)
    requires
        world.shape_wf(),
        ray.wf(),
        old(samples).wf(),
    ensures
        final(samples).wf(),
        final(samples).offsets() == old(samples).offsets(),
        (c, final(samples).pos as nat) == spec_trace(
            world.0@,
            *ray,
            depth as nat,
            old(samples).offsets(),
            old(samples).pos as nat,
        ),
        c.wf(),
    decreases TRACE_DEPTH_BOUND - depth,
{
    if depth >= TRACE_DEPTH_BOUND {
        background(ray)
    } else {
        let t_min = Fx { raw: TRACE_T_MIN_RAW };
        let t_max = Fx { raw: FX_RAW_BOUND };
        match world.hit(ray, t_min, t_max) {
            Some(h) => {
                match scatter(&h.material, ray, &h, samples) {
                    Some((attenuation, scattered)) => {
                        let c = trace(world, &scattered, depth + 1, samples);
                        attenuation.mul(c)
                    },
                    None => Vec3::zero(),
                }
            },
            None => background(ray),
        }
    }
}

/// At the depth bound the estimate is the background with the cursor
/// untouched: the integrator recurses no further and draws nothing.
pub proof fn lemma_trace_depth_bound(
    objs: Seq<crate::hit::Surface>,
    ray: Ray,
    depth: nat,
    vals: Seq<Fx>,
    pos: nat,
)
    requires
        depth >= TRACE_DEPTH_BOUND,
    ensures
        spec_trace(objs, ray, depth, vals, pos) == (spec_background(ray), pos),
{
}

/// Denotation of one jittered sample: jitter the pixel coordinate by two
/// draws in `[0, 1)`, build the camera ray, trace it.
pub open spec fn spec_one_sample(
    objs: Seq<crate::hit::Surface>,
    cam: Camera,
    px: int,
    py: int,
    width: int,
    height: int,
    vals: Seq<Fx>,
    pos: nat,
) -> (Vec3, nat) {
    let jx = to_unit(vals[pos as int]);
    let pos1 = next_pos(pos, vals.len());
    let jy = to_unit(vals[pos1 as int]);
    let pos2 = next_pos(pos1, vals.len());
    let s = fx_div(fx_add(fx_of(fx_clamp(px * 65536)), jx), fx_of(fx_clamp(width * 65536)));
    let t = fx_div(fx_add(fx_of(fx_clamp(py * 65536)), jy), fx_of(fx_clamp(height * 65536)));
    let (ray, pos3) = spec_get_ray(cam, s, t, vals, pos2);
    spec_trace(objs, ray, 0, vals, pos3)
}

/// Denotation of the sample sum: `n` jittered samples added up, threaded
/// through the cursor in order.
pub open spec fn spec_pixel_sum(
    objs: Seq<crate::hit::Surface>,
    cam: Camera,
    px: int,
    py: int,
    width: int,
    height: int,
    n: nat,
    vals: Seq<Fx>,
    pos: nat,
) -> (Vec3, nat)
    decreases n,
{
    if n == 0 {
        (Vec3(fx_of(0), fx_of(0), fx_of(0)), pos)
    } else {
        let (acc, pos1) = spec_pixel_sum(objs, cam, px, py, width, height, (n - 1) as nat, vals, pos);
        let (c, pos2) = spec_one_sample(objs, cam, px, py, width, height, vals, pos1);
        (vec_add(acc, c), pos2)
    }
}

/// Denotation of `pixel_color`: the mean of the sample sum.
pub open spec fn spec_pixel_color(
    objs: Seq<crate::hit::Surface>,
    cam: Camera,
    px: int,
    py: int,
    width: int,
    height: int,
    ns: nat,
    vals: Seq<Fx>,
    pos: nat,
) -> (Vec3, nat) {
    let (sum, pos1) = spec_pixel_sum(objs, cam, px, py, width, height, ns, vals, pos);
    (vec_div_scalar(sum, fx_of(fx_clamp(ns * 65536int))), pos1)
}

/// One jittered sample.
#[verifier::rlimit(100)]
fn one_sample(
    world: &HittableList,
    cam: &Camera,
    px: usize,
    py: usize,
    width: usize,
    height: usize,
    samples: &mut Samples,
) -> (c: Vec3)
    requires
        world.shape_wf(),
        cam.wf(),
        old(samples).wf(),
        px <= 0xffff_ffff,
        py <= 0xffff_ffff,
        width <= 0xffff_ffff,
        height <= 0xffff_ffff,
    ensures
        final(samples).wf(),
        final(samples).offsets() == old(samples).offsets(),
        (c, final(samples).pos as nat) == spec_one_sample(
            world.0@,
            *cam,
            px as int,
            py as int,
            width as int,
            height as int,
            old(samples).offsets(),
            old(samples).pos as nat,
        ),
        c.wf(),
{
    let jx = samples.next_unit();
    let jy = samples.next_unit();
    let s = Fx::from_int(px as i64).add(jx).div(Fx::from_int(width as i64));
    let t = Fx::from_int(py as i64).add(jy).div(Fx::from_int(height as i64));
    let ray = cam.get_ray(s, t, samples);
    trace(world, &ray, 0, samples)
}

/// The color of one pixel: the arithmetic mean of `ns` traced samples,
/// each jittering the pixel coordinate by a fresh draw in `[0, 1)`.
#[verifier::rlimit(100)]
pub fn pixel_color(
    world: &HittableList,
    cam: &Camera,
    px: usize,
    py: usize,
    width: usize,
    height: usize,
    ns: u32,
    samples: &mut Samples,
) -> (c: Vec3)
    requires
        world.shape_wf(),
        cam.wf(),
        old(samples).wf(),
        px <= 0xffff_ffff,
        py <= 0xffff_ffff,
        width <= 0xffff_ffff,
        height <= 0xffff_ffff,
    ensures
        final(samples).wf(),
        final(samples).offsets() == old(samples).offsets(),
        (c, final(samples).pos as nat) == spec_pixel_color(
            world.0@,
            *cam,
            px as int,
            py as int,
            width as int,
            height as int,
            ns as nat,
            old(samples).offsets(),
            old(samples).pos as nat,
        ),
        c.wf(),
{
    let mut sum = Vec3::zero();
    let mut i: u32 = 0;
    while i < ns
        invariant
            world.shape_wf(),
            cam.wf(),
            samples.wf(),
            px <= 0xffff_ffff,
            py <= 0xffff_ffff,
            width <= 0xffff_ffff,
            height <= 0xffff_ffff,
            samples.offsets() == old(samples).offsets(),
            i <= ns,
            sum.wf(),
            (sum, samples.pos as nat) == spec_pixel_sum(
                world.0@,
                *cam,
                px as int,
                py as int,
                width as int,
                height as int,
                i as nat,
                old(samples).offsets(),
                old(samples).pos as nat,
            ),
        decreases ns - i,
    {
        let c = one_sample(world, cam, px, py, width, height, samples);
        sum = sum.add(c);
        i += 1;
    }
    sum.div_scalar(Fx::from_int(ns as i64))
}

/// Raw value of `255.99`, the quantization scale.
pub const FX_QUANT_SCALE: i64 = 16776929;

/// Denotation of `quantize_channel`: scale by the brightness and by
/// `255.99`, truncate toward zero, clamp into `[0, 255]`.
pub open spec fn spec_quantize(c: Fx, brightness: Fx) -> u8 {
    let scaled = crate::fixed::fx_mul(
        crate::fixed::fx_mul(c, brightness),
        fx_of(FX_QUANT_SCALE as int),
    );
    let units = crate::fixed::div_trunc(scaled.v(), FX_SCALE as int);
    if units < 0 {
        0u8
    } else if units > 255 {
        255u8
    } else {
        units as u8
    }
}

/// Quantizes one color channel to 8 bits.
pub fn quantize_channel(c: Fx, brightness: Fx) -> (q: u8)
    requires
        c.wf(),
        brightness.wf(),
    ensures
        q == spec_quantize(c, brightness),
{
    let scaled = c.mul(brightness).mul(Fx { raw: FX_QUANT_SCALE });
    let units: i64 = scaled.raw / FX_SCALE;
    proof {
        assert(units == crate::fixed::div_trunc(scaled.v(), FX_SCALE as int));
    }
    if units < 0 {
        0
    } else if units > 255 {
        255
    } else {
        units as u8
    }
}

/// Denotation of `brightness_of`: percentages from 1 to 100 become the
/// corresponding fraction; anything else means full brightness.
pub open spec fn spec_brightness(light: i32) -> Fx {
    if 1 <= light <= 100 {
        fx_of(crate::fixed::div_trunc(light as int * 65536, 100))
    } else {
        fx_of(FX_SCALE as int)
    }
}

/// The global brightness fraction for a light-intensity percentage.
pub fn brightness_of(light: i32) -> (b: Fx)
    ensures
        b == spec_brightness(light),
        b.wf(),
        0 < b.v() <= FX_SCALE,
{
    if 1 <= light && light <= 100 {
        let raw: i64 = (light as i64) * FX_SCALE / 100;
        proof {
            assert(raw == crate::fixed::div_trunc(light as int * 65536, 100));
        }
        Fx { raw }
    } else {
        Fx::one()
    }
}

} // verus!
