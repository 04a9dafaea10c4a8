//! Surface response in scatter mode: a material either absorbs a ray or
//! turns it into an attenuation color and one outgoing ray.
//!
//! The stochastic choices (the diffuse bounce target and the dielectric's
//! reflect-or-refract coin) come from the offset pool, so `scatter` is an
//! exact function of its arguments and the pool's state, as its contract
//! states.

use crate::color::Color;
use crate::fixed::{FX_SCALE, Fx, fx_add, fx_div, fx_mul, fx_neg, fx_of, fx_sqrt, fx_sub, lemma_fx_mul_zero};
use crate::hit::HitRecord;
use crate::ray::Ray;
use crate::samples::{
    DISK_SAMPLE_ATTEMPTS, Samples, next_pos, spec_point_in_sphere, to_unit,
};
use crate::vec3::{
    Vec3, vec_add, vec_dot, vec_length, vec_neg, vec_scale, vec_squared_length, vec_sub, vec_unit,
};
use vstd::prelude::*;

verus! {

/// The closed set of scatter-mode shading descriptors.
#[derive(Clone, Copy, Debug, PartialEq, Eq, Structural)]
pub enum Material {
    Lambertian { albedo: Color },
    Metal { albedo: Color },
    Dielectric { ref_idx: Fx },
}

impl Material {
    /// Every scalar the descriptor carries is well-formed.
    pub open spec fn wf(self) -> bool {
        match self {
            Material::Lambertian { albedo } => albedo.wf(),
            Material::Metal { albedo } => albedo.wf(),
            Material::Dielectric { ref_idx } => ref_idx.wf(),
        }
    }
}

impl Default for Material {
    /// A diffuse material with a black albedo.
    fn default() -> (r: Self)
        ensures
            r == (Material::Lambertian { albedo: Vec3(fx_of(0), fx_of(0), fx_of(0)) }),
    {
        Material::Lambertian { albedo: Vec3::zero() }
    }
}

/// Denotation of `reflect`: the mirror image of `v` about the normal `n`.
pub open spec fn spec_reflect(v: Vec3, n: Vec3) -> Vec3 {
    vec_sub(v, vec_scale(n, fx_mul(vec_dot(v, n), fx_of(2 * FX_SCALE))))
}

/// Mirrors `v` about the normal `n`: `v - 2 * dot(v, n) * n`.
pub fn reflect(v: &Vec3, n: &Vec3) -> (r: Vec3)
    requires
        v.wf(),
        n.wf(),
    ensures
        r == spec_reflect(*v, *n),
        r.wf(),
{
    let d = Vec3::dot(v, n);
    v.sub(n.scale(d.mul(Fx::from_int(2))))
}

/// Denotation of `refract`: `None` exactly on total internal reflection.
pub open spec fn spec_refract(v: Vec3, n: Vec3, ni_over_nt: Fx) -> Option<Vec3> {
    let uv = vec_unit(v);
    let dt = vec_dot(uv, n);
    let discriminant = fx_sub(
        fx_of(FX_SCALE as int),
        fx_mul(fx_mul(ni_over_nt, ni_over_nt), fx_sub(fx_of(FX_SCALE as int), fx_mul(dt, dt))),
    );
    if discriminant.v() > 0 {
        Some(
            vec_sub(
                vec_scale(vec_sub(uv, vec_scale(n, dt)), ni_over_nt),
                vec_scale(n, fx_sqrt(discriminant)),
            ),
        )
    } else {
        None
    }
}

/// Bends `v` through a surface with normal `n` by Snell's law; `None`
/// when the refraction discriminant is not positive (total internal
/// reflection).
pub fn refract(v: &Vec3, n: &Vec3, ni_over_nt: Fx) -> (r: Option<Vec3>)
    requires
        v.wf(),
        n.wf(),
        ni_over_nt.wf(),
    ensures
        r == spec_refract(*v, *n, ni_over_nt),
        r matches Some(p) ==> p.wf(),
{
    let uv = Vec3::unit_vector(v);
    let dt = Vec3::dot(&uv, n);
    let discriminant = Fx::one().sub(
        ni_over_nt.mul(ni_over_nt).mul(Fx::one().sub(dt.mul(dt))),
    );
    if discriminant.gt(Fx::zero()) {
        Some(uv.sub(n.scale(dt)).scale(ni_over_nt).sub(n.scale(discriminant.sqrt())))
    } else {
        None
    }
}

/// Denotation of `schlick`'s base reflectance `((1 - n) / (1 + n))^2`.
pub open spec fn spec_schlick_r0(ref_idx: Fx) -> Fx {
    let q = fx_div(fx_sub(fx_of(FX_SCALE as int), ref_idx), fx_add(fx_of(FX_SCALE as int), ref_idx));
    fx_mul(q, q)
}

/// Denotation of `schlick`.
pub open spec fn spec_schlick(cosine: Fx, ref_idx: Fx) -> Fx {
    let r0 = spec_schlick_r0(ref_idx);
    let omc = fx_sub(fx_of(FX_SCALE as int), cosine);
    let p5 = fx_mul(fx_mul(fx_mul(fx_mul(omc, omc), omc), omc), omc);
    fx_add(r0, fx_mul(fx_sub(fx_of(FX_SCALE as int), r0), p5))
}

/// The Schlick approximation of Fresnel reflectance.
pub fn schlick(cosine: Fx, ref_idx: Fx) -> (r: Fx)
    requires
        cosine.wf(),
        ref_idx.wf(),
    ensures
        r == spec_schlick(cosine, ref_idx),
        r.wf(),
{
    let one = Fx::one();
    let q = one.sub(ref_idx).div(one.add(ref_idx));
    let r0 = q.mul(q);
    let omc = one.sub(cosine);
    let p5 = omc.mul(omc).mul(omc).mul(omc).mul(omc);
    r0.add(one.sub(r0).mul(p5))
}

/// At normal incidence the Schlick reflectance is exactly the base
/// reflectance `((1 - n) / (1 + n))^2`.
pub proof fn lemma_schlick_normal_incidence(ref_idx: Fx)
    requires
        ref_idx.wf(),
    ensures
        spec_schlick(fx_of(FX_SCALE as int), ref_idx) == spec_schlick_r0(ref_idx),
{
    let r0 = spec_schlick_r0(ref_idx);
    let omc = fx_sub(fx_of(FX_SCALE as int), fx_of(FX_SCALE as int));
    assert(omc.v() == 0);
    lemma_fx_mul_zero(omc, omc);
    lemma_fx_mul_zero(fx_mul(omc, omc), omc);
    lemma_fx_mul_zero(fx_mul(fx_mul(omc, omc), omc), omc);
    lemma_fx_mul_zero(fx_mul(fx_mul(fx_mul(omc, omc), omc), omc), omc);
    let p5 = fx_mul(fx_mul(fx_mul(fx_mul(omc, omc), omc), omc), omc);
    assert(p5.v() == 0);
    lemma_fx_mul_zero(fx_sub(fx_of(FX_SCALE as int), r0), p5);
    assert(fx_add(r0, fx_mul(fx_sub(fx_of(FX_SCALE as int), r0), p5)).v() == r0.v());
    assert(r0.wf());
    assert(fx_of(r0.v()) == r0);
}

/// Draws a point strictly inside the unit sphere, the diffuse bounce
/// perturbation.
pub fn random_in_unit_sphere(samples: &mut Samples) -> (p: Vec3)
    requires
        old(samples).wf(),
    ensures
        final(samples).wf(),
        final(samples).offsets() == old(samples).offsets(),
        (p, final(samples).pos as nat) == spec_point_in_sphere(
            old(samples).offsets(),
            old(samples).pos as nat,
            DISK_SAMPLE_ATTEMPTS as nat,
        ),
        p.wf(),
        vec_squared_length(p).v() < crate::fixed::FX_SCALE,
{
    samples.point_in_sphere(DISK_SAMPLE_ATTEMPTS)
}

/// Denotation of `scatter`: the response and the cursor position after
/// the draws it made.
pub open spec fn spec_scatter(
    material: Material,
    ray_in: Ray,
    rec: HitRecord,
    vals: Seq<Fx>,
    pos: nat,
) -> (Option<(Color, Ray)>, nat) {
    match material {
        Material::Lambertian { albedo } => {
            let (p, pos2) = spec_point_in_sphere(vals, pos, DISK_SAMPLE_ATTEMPTS as nat);
            let target = vec_add(vec_add(rec.point, rec.normal), p);
            (
                Some(
                    (albedo, Ray { origin: rec.point, direction: vec_sub(target, rec.point) }),
                ),
                pos2,
            )
        },
        Material::Metal { albedo } => {
            let reflected = spec_reflect(vec_unit(ray_in.direction), rec.normal);
            if vec_dot(reflected, rec.normal).v() > 0 {
                (Some((albedo, Ray { origin: rec.point, direction: reflected })), pos)
            } else {
                (None, pos)
            }
        },
        Material::Dielectric { ref_idx } => {
            let d = vec_dot(ray_in.direction, rec.normal);
            let outward_normal = if d.v() > 0 {
                vec_neg(rec.normal)
            } else {
                rec.normal
            };
            let ni_over_nt = if d.v() > 0 {
                ref_idx
            } else {
                fx_div(fx_of(FX_SCALE as int), ref_idx)
            };
            let cosine = if d.v() > 0 {
                fx_div(fx_mul(ref_idx, d), vec_length(ray_in.direction))
            } else {
                fx_div(fx_neg(d), vec_length(ray_in.direction))
            };
            let reflect_prob = match spec_refract(ray_in.direction, outward_normal, ni_over_nt) {
                Some(_) => spec_schlick(cosine, ref_idx),
                None => fx_of(FX_SCALE as int),
            };
            let coin = to_unit(vals[pos as int]);
            let pos2 = next_pos(pos, vals.len());
            let out = if coin.v() < reflect_prob.v() {
                Ray { origin: rec.point, direction: spec_reflect(ray_in.direction, rec.normal) }
            } else {
                match spec_refract(ray_in.direction, outward_normal, ni_over_nt) {
                    Some(refracted) => Ray { origin: rec.point, direction: refracted },
                    None => Ray {
                        origin: rec.point,
                        direction: Vec3(fx_of(0), fx_of(0), fx_of(0)),
                    },
                }
            };
            (
                Some(
                    (
                        Vec3(
                            fx_of(FX_SCALE as int),
                            fx_of(FX_SCALE as int),
                            fx_of(FX_SCALE as int),
                        ),
                        out,
                    ),
                ),
                pos2,
            )
        },
    }
}

/// Computes the material's response to a hit: an attenuation color and
/// the outgoing ray, or `None` when the ray is absorbed. A metal absorbs
/// exactly when its mirror reflection does not leave the surface; diffuse
/// and dielectric materials always scatter.
pub fn scatter(material: &Material, ray_in: &Ray, rec: &HitRecord, samples: &mut Samples) -> (res:
    Option<(Color, Ray)>)
    requires
        material.wf(),
        ray_in.wf(),
        rec.wf(),
        old(samples).wf(),
    ensures
        final(samples).wf(),
        final(samples).offsets() == old(samples).offsets(),
        (res, final(samples).pos as nat) == spec_scatter(
            *material,
            *ray_in,
            *rec,
            old(samples).offsets(),
            old(samples).pos as nat,
        ),
        res matches Some((att, r)) ==> att.wf() && r.wf(),
{
    match material {
        Material::Lambertian { albedo } => {
            let p = random_in_unit_sphere(samples);
            let target = rec.point.add(rec.normal).add(p);
            Some((*albedo, Ray::new(rec.point, target.sub(rec.point))))
        },
        Material::Metal { albedo } => {
            let reflected = reflect(&Vec3::unit_vector(&ray_in.direction), &rec.normal);
            if Vec3::dot(&reflected, &rec.normal).gt(Fx::zero()) {
                Some((*albedo, Ray::new(rec.point, reflected)))
            } else {
                None
            }
        },
        Material::Dielectric { ref_idx } => {
            let d = Vec3::dot(&ray_in.direction, &rec.normal);
            let positive = d.gt(Fx::zero());
            let outward_normal = if positive {
                rec.normal.neg()
            } else {
                rec.normal
            };
            let ni_over_nt = if positive {
                *ref_idx
            } else {
                Fx::one().div(*ref_idx)
            };
            let len = ray_in.direction.length();
            let cosine = if positive {
                ref_idx.mul(d).div(len)
            } else {
                d.neg().div(len)
            };
            let refracted = refract(&ray_in.direction, &outward_normal, ni_over_nt);
            let reflect_prob = match refracted {
                Some(_) => schlick(cosine, *ref_idx),
                None => Fx::one(),
            };
            let coin = samples.next_unit();
            let out = if coin.lt(reflect_prob) {
                Ray::new(rec.point, reflect(&ray_in.direction, &rec.normal))
            } else {
                match refracted {
                    Some(refracted) => Ray::new(rec.point, refracted),
                    None => Ray::new(rec.point, Vec3::zero()),
                }
            };
            Some((Vec3::new(Fx::one(), Fx::one(), Fx::one()), out))
        },
    }
}

} // verus!
