//! The thin-lens camera: maps normalized image coordinates to world rays.
//!
//! The viewport size comes from the vertical field of view through a
//! tangent, evaluated as the quotient of fixed-point sine and cosine
//! series; the contracts state those series exactly. Depth of field
//! perturbs the ray origin by a point on the lens disk drawn from the
//! offset pool; with a zero aperture the perturbation is provably the
//! zero vector, so the ray depends on nothing but `(s, t)`.

use crate::fixed::{Fx, fx_add, fx_div, fx_mul, fx_of, fx_sub, lemma_fx_mul_zero};
use crate::ray::Ray;
use crate::samples::{DISK_SAMPLE_ATTEMPTS, Samples, spec_point_in_disk};
use crate::vec3::{Vec3, vec_add, vec_cross, vec_scale, vec_sub, vec_unit};
use vstd::prelude::*;

verus! {

/// The circle constant in Q16.16: `round(pi * 65536)`.
pub const FX_PI: i64 = 205887;

/// The sine series `x - x^3/6 + x^5/120 - x^7/5040`, evaluated in
/// fixed point; an approximation of sine whose error on `[0, pi/4]`
/// is below the fixed-point resolution.
pub open spec fn spec_sin(x: Fx) -> Fx {
    let x3 = fx_mul(fx_mul(x, x), x);
    let x5 = fx_mul(fx_mul(x3, x), x);
    let x7 = fx_mul(fx_mul(x5, x), x);
    fx_add(
        fx_sub(x, fx_div(x3, fx_of(6int * 65536))),
        fx_sub(fx_div(x5, fx_of(120int * 65536)), fx_div(x7, fx_of(5040int * 65536))),
    )
}

/// The cosine series `1 - x^2/2 + x^4/24 - x^6/720` in fixed point.
pub open spec fn spec_cos(x: Fx) -> Fx {
    let x2 = fx_mul(x, x);
    let x4 = fx_mul(fx_mul(x2, x), x);
    let x6 = fx_mul(fx_mul(x4, x), x);
    fx_add(
        fx_sub(fx_of(65536), fx_div(x2, fx_of(2int * 65536))),
        fx_sub(fx_div(x4, fx_of(24int * 65536)), fx_div(x6, fx_of(720int * 65536))),
    )
}

/// The tangent as the quotient of the two series.
pub open spec fn spec_tan(x: Fx) -> Fx {
    fx_div(spec_sin(x), spec_cos(x))
}

/// The sine series, executable.
pub fn sin_series(x: Fx) -> (r: Fx)
    requires
        x.wf(),
    ensures
        r == spec_sin(x),
        r.wf(),
{
    let x3 = x.mul(x).mul(x);
    let x5 = x3.mul(x).mul(x);
    let x7 = x5.mul(x).mul(x);
    x.sub(x3.div(Fx::from_int(6))).add(
        x5.div(Fx::from_int(120)).sub(x7.div(Fx::from_int(5040))),
    )
}

/// The cosine series, executable.
pub fn cos_series(x: Fx) -> (r: Fx)
    requires
        x.wf(),
    ensures
        r == spec_cos(x),
        r.wf(),
{
    let x2 = x.mul(x);
    let x4 = x2.mul(x).mul(x);
    let x6 = x4.mul(x).mul(x);
    Fx::one().sub(x2.div(Fx::from_int(2))).add(
        x4.div(Fx::from_int(24)).sub(x6.div(Fx::from_int(720))),
    )
}

/// The tangent, executable.
pub fn tan_series(x: Fx) -> (r: Fx)
    requires
        x.wf(),
    ensures
        r == spec_tan(x),
        r.wf(),
{
    sin_series(x).div(cos_series(x))
}

/// The derived camera basis and viewport, computed once at construction.
#[derive(Clone, Copy, Debug, PartialEq, Eq, Structural)]
pub struct Camera {
    pub origin: Vec3,
    pub lower_left_corner: Vec3,
    pub horizontal: Vec3,
    pub vertical: Vec3,
    pub lens_radius: Fx,
    pub u: Vec3,
    pub v: Vec3,
    pub height: u32,
    pub width: u32,
}

/// Denotation of `Camera::new`.
pub open spec fn spec_camera(
    look_from: Vec3,
    look_at: Vec3,
    vup: Vec3,
    vfov: Fx,
    aperture: Fx,
    height: u32,
    width: u32,
) -> Camera {
    let aspect = fx_div(
        fx_of(crate::fixed::fx_clamp(width as int * 65536int)),
        fx_of(crate::fixed::fx_clamp(height as int * 65536)),
    );
    let lens_radius = fx_div(aperture, fx_of(2int * 65536));
    let focus_dist = crate::vec3::vec_length(vec_sub(look_from, look_at));
    let theta = fx_div(fx_mul(vfov, fx_of(FX_PI as int)), fx_of(180int * 65536));
    let half_height = spec_tan(fx_div(theta, fx_of(2int * 65536)));
    let half_width = fx_mul(aspect, half_height);
    let origin = look_from;
    let w = vec_unit(vec_sub(look_from, look_at));
    let u = vec_unit(vec_cross(vup, w));
    let v = vec_cross(w, u);
    Camera {
        lower_left_corner: vec_sub(
            vec_sub(
                vec_sub(origin, vec_scale(u, fx_mul(half_width, focus_dist))),
                vec_scale(v, fx_mul(half_height, focus_dist)),
            ),
            vec_scale(w, focus_dist),
        ),
        horizontal: vec_scale(u, fx_mul(fx_mul(fx_of(2int * 65536), half_width), focus_dist)),
        vertical: vec_scale(v, fx_mul(fx_mul(fx_of(2int * 65536), half_height), focus_dist)),
        origin,
        lens_radius,
        u,
        v,
        height,
        width,
    }
}

/// The ray through image point `(s, t)` with the given lens offset.
pub open spec fn spec_ray_through(cam: Camera, s: Fx, t: Fx, offset: Vec3) -> Ray {
    Ray {
        origin: vec_add(cam.origin, offset),
        direction: vec_sub(
            vec_sub(
                vec_add(
                    vec_add(cam.lower_left_corner, vec_scale(cam.horizontal, s)),
                    vec_scale(cam.vertical, t),
                ),
                cam.origin,
            ),
            offset,
        ),
    }
}

/// Denotation of `Camera::get_ray`: the lens offset comes from a disk
/// sample scaled by the lens radius.
pub open spec fn spec_get_ray(cam: Camera, s: Fx, t: Fx, vals: Seq<Fx>, pos: nat) -> (Ray, nat) {
    let (p, pos2) = spec_point_in_disk(vals, pos, DISK_SAMPLE_ATTEMPTS as nat);
    let rd = vec_scale(p, cam.lens_radius);
    let offset = vec_add(vec_scale(cam.u, rd.0), vec_scale(cam.v, rd.1));
    (spec_ray_through(cam, s, t, offset), pos2)
}

impl Camera {
    /// Every derived field is well-formed.
    pub open spec fn wf(self) -> bool {
        &&& self.origin.wf()
        &&& self.lower_left_corner.wf()
        &&& self.horizontal.wf()
        &&& self.vertical.wf()
        &&& self.lens_radius.wf()
        &&& self.u.wf()
        &&& self.v.wf()
    }

    /// Derives the camera basis from the view parameters. A degenerate
    /// view (`look_from == look_at`, or an up vector parallel to the view
    /// direction) yields saturated rather than meaningful basis vectors;
    /// callers guard against it.
    pub fn new(
        look_from: Vec3,
        look_at: Vec3,
        vup: Vec3,
        vfov: Fx,
        aperture: Fx,
        height: u32,
        width: u32,
    ) -> (cam: Camera)
        requires
            look_from.wf(),
            look_at.wf(),
            vup.wf(),
            vfov.wf(),
            aperture.wf(),
        ensures
            cam == spec_camera(look_from, look_at, vup, vfov, aperture, height, width),
            cam.wf(),
    {
        let two = Fx::from_int(2);
        let aspect = Fx::from_int(width as i64).div(Fx::from_int(height as i64));
        let lens_radius = aperture.div(two);
        let focus_dist = look_from.sub(look_at).length();
        let theta = vfov.mul(Fx { raw: FX_PI }).div(Fx::from_int(180));
        let half_height = tan_series(theta.div(two));
        let half_width = aspect.mul(half_height);
        let origin = look_from;
        let w = Vec3::unit_vector(&look_from.sub(look_at));
        let u = Vec3::unit_vector(&Vec3::cross(&vup, &w));
        let v = Vec3::cross(&w, &u);
        Camera {
            lower_left_corner: origin.sub(u.scale(half_width.mul(focus_dist))).sub(
                v.scale(half_height.mul(focus_dist)),
            ).sub(w.scale(focus_dist)),
            horizontal: u.scale(two.mul(half_width).mul(focus_dist)),
            vertical: v.scale(two.mul(half_height).mul(focus_dist)),
            origin,
            lens_radius,
            u,
            v,
            height,
            width,
        }
    }

    /// The world ray through normalized image coordinates `(s, t)`,
    /// with the origin perturbed across the lens disk for depth of
    /// field.
    pub fn get_ray(&self, s: Fx, t: Fx, samples: &mut Samples) -> (r: Ray)
        requires
            self.wf(),
            s.wf(),
            t.wf(),
            old(samples).wf(),
        ensures
            final(samples).wf(),
            final(samples).offsets() == old(samples).offsets(),
            (r, final(samples).pos as nat) == spec_get_ray(
                *self,
                s,
                t,
                old(samples).offsets(),
                old(samples).pos as nat,
            ),
            r.wf(),
    {
        let p = random_in_unit_disk(samples);
        let rd = p.scale(self.lens_radius);
        let offset = self.u.scale(rd.x()).add(self.v.scale(rd.y()));
        Ray {
            origin: self.origin.add(offset),
            direction: self.lower_left_corner.add(self.horizontal.scale(s)).add(
                self.vertical.scale(t),
            ).sub(self.origin).sub(offset),
        }
    }
}

/// Draws a point strictly inside the unit lens disk.
pub fn random_in_unit_disk(samples: &mut Samples) -> (p: Vec3)
    requires
        old(samples).wf(),
    ensures
        final(samples).wf(),
        final(samples).offsets() == old(samples).offsets(),
        (p, final(samples).pos as nat) == spec_point_in_disk(
            old(samples).offsets(),
            old(samples).pos as nat,
            DISK_SAMPLE_ATTEMPTS as nat,
        ),
        p.wf(),
        crate::vec3::vec_squared_length(p).v() < crate::fixed::FX_SCALE,
{
    samples.point_in_disk(DISK_SAMPLE_ATTEMPTS)
}

/// With a zero lens radius the lens offset vanishes: the ray depends
/// only on the camera and `(s, t)`, never on the offset pool.
pub proof fn lemma_pinhole_deterministic(cam: Camera, s: Fx, t: Fx, vals: Seq<Fx>, pos: nat)
    requires
        cam.wf(),
        cam.lens_radius.v() == 0,
    ensures
        spec_get_ray(cam, s, t, vals, pos).0 == spec_ray_through(
            cam,
            s,
            t,
            Vec3(fx_of(0), fx_of(0), fx_of(0)),
        ),
{
    let (p, pos2) = spec_point_in_disk(vals, pos, DISK_SAMPLE_ATTEMPTS as nat);
    lemma_fx_mul_zero(p.0, cam.lens_radius);
    lemma_fx_mul_zero(p.1, cam.lens_radius);
    lemma_fx_mul_zero(p.2, cam.lens_radius);
    let rd = vec_scale(p, cam.lens_radius);
    assert(rd.0 == fx_of(0) && rd.1 == fx_of(0));
    lemma_fx_mul_zero(cam.u.0, rd.0);
    lemma_fx_mul_zero(cam.u.1, rd.0);
    lemma_fx_mul_zero(cam.u.2, rd.0);
    lemma_fx_mul_zero(cam.v.0, rd.1);
    lemma_fx_mul_zero(cam.v.1, rd.1);
    lemma_fx_mul_zero(cam.v.2, rd.1);
    let offset = vec_add(vec_scale(cam.u, rd.0), vec_scale(cam.v, rd.1));
    assert(offset == Vec3(fx_of(0), fx_of(0), fx_of(0)));
}

} // verus!
