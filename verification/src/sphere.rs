//! Spheres, intersected by solving the quadratic in the ray parameter.

use crate::fixed::{FX_RAW_BOUND, Fx, fx_add, fx_div, fx_mul, fx_neg, fx_sqrt, fx_sub};
use crate::hit::{HitRecord, Hittable};
use crate::material::Material;
use crate::ray::{Ray, ray_at};
use crate::vec3::{Vec3, vec_div_scalar, vec_dot, vec_sub};
use vstd::prelude::*;

verus! {

/// A sphere given by its center and radius; degenerate radii are the
/// caller's risk, the intersection test stays total either way.
#[derive(Clone, Copy, Debug, PartialEq, Eq, Structural)]
pub struct Sphere {
    pub center: Vec3,
    pub radius: Fx,
    pub material: Material,
}

/// Half the linear coefficient of the sphere's intersection quadratic:
/// `dot(origin - center, direction)`.
pub open spec fn sphere_b(s: Sphere, ray: Ray) -> Fx {
    vec_dot(vec_sub(ray.origin, s.center), ray.direction)
}

/// The quadratic coefficient: `dot(direction, direction)`.
pub open spec fn sphere_a(ray: Ray) -> Fx {
    vec_dot(ray.direction, ray.direction)
}

/// The discriminant `b^2 - a c` of the intersection quadratic.
pub open spec fn sphere_disc(s: Sphere, ray: Ray) -> Fx {
    let oc = vec_sub(ray.origin, s.center);
    let c = fx_sub(vec_dot(oc, oc), fx_mul(s.radius, s.radius));
    fx_sub(fx_mul(sphere_b(s, ray), sphere_b(s, ray)), fx_mul(sphere_a(ray), c))
}

/// The nearer root `(-b - sqrt(disc)) / a` of the quadratic.
pub open spec fn sphere_root_near(s: Sphere, ray: Ray) -> Fx {
    fx_div(fx_sub(fx_neg(sphere_b(s, ray)), fx_sqrt(sphere_disc(s, ray))), sphere_a(ray))
}

/// The farther root `(-b + sqrt(disc)) / a` of the quadratic.
pub open spec fn sphere_root_far(s: Sphere, ray: Ray) -> Fx {
    fx_div(fx_add(fx_neg(sphere_b(s, ray)), fx_sqrt(sphere_disc(s, ray))), sphere_a(ray))
}

/// The hit record the sphere reports at distance `t`.
pub open spec fn sphere_record(s: Sphere, ray: Ray, t: Fx) -> HitRecord {
    HitRecord {
        t,
        point: ray_at(ray, t),
        normal: vec_div_scalar(vec_sub(ray_at(ray, t), s.center), s.radius),
        u: crate::fixed::fx_of(0),
        v: crate::fixed::fx_of(0),
        material: s.material,
    }
}

impl Sphere {
    /// Builds a sphere.
    pub fn new(center: Vec3, radius: Fx, material: Material) -> (s: Sphere)
        ensures
            s == (Sphere { center, radius, material }),
    {
        Sphere { center, radius, material }
    }
}

impl Hittable for Sphere {
    open spec fn spec_hit(&self, ray: Ray, t_min: Fx, t_max: Fx) -> Option<HitRecord> {
        if sphere_disc(*self, ray).v() > 0 {
            let near = sphere_root_near(*self, ray);
            let far = sphere_root_far(*self, ray);
            if t_min.v() < near.v() < t_max.v() {
                Some(sphere_record(*self, ray, near))
            } else if t_min.v() < far.v() < t_max.v() {
                Some(sphere_record(*self, ray, far))
            } else {
                None
            }
        } else {
            None
        }
    }

    open spec fn shape_wf(&self) -> bool {
        self.center.wf() && self.radius.wf() && self.material.wf()
    }

    fn hit(&self, r: &Ray, t_min: Fx, t_max: Fx) -> (res: Option<HitRecord>) {
        let oc = r.origin.sub(self.center);
        let a = Vec3::dot(&r.direction, &r.direction);
        let b = Vec3::dot(&oc, &r.direction);
        let c = Vec3::dot(&oc, &oc).sub(self.radius.mul(self.radius));
        let discriminant = b.mul(b).sub(a.mul(c));
        if discriminant.gt(Fx::zero()) {
            let sq = discriminant.sqrt();
            let near = b.neg().sub(sq).div(a);
            if near.lt(t_max) && near.gt(t_min) {
                let point = r.at(near);
                return Some(
                    HitRecord {
                        t: near,
                        point,
                        normal: point.sub(self.center).div_scalar(self.radius),
                        u: Fx::zero(),
                        v: Fx::zero(),
                        material: self.material,
                    },
                );
            }
            let far = b.neg().add(sq).div(a);
            if far.lt(t_max) && far.gt(t_min) {
                let point = r.at(far);
                return Some(
                    HitRecord {
                        t: far,
                        point,
                        normal: point.sub(self.center).div_scalar(self.radius),
                        u: Fx::zero(),
                        v: Fx::zero(),
                        material: self.material,
                    },
                );
            }
        }
        None
    }
}

/// The computed roots are ordered: the "near" root never exceeds the
/// "far" one, whether the quadratic coefficient is positive or the
/// division saturates on a degenerate direction.
proof fn lemma_sphere_roots_ordered(s: Sphere, ray: Ray)
    requires
        sphere_disc(s, ray).v() > 0,
    ensures
        sphere_root_near(s, ray).v() <= sphere_root_far(s, ray).v(),
{
    let b = sphere_b(s, ray);
    let disc = sphere_disc(s, ray);
    assert(disc.wf());
    crate::fixed::lemma_fx_sqrt_props(disc);
    let sq = fx_sqrt(disc);
    assert(b.wf());
    let num_near = fx_sub(fx_neg(b), sq);
    let num_far = fx_add(fx_neg(b), sq);
    assert(num_near.v() <= num_far.v());
    let a = sphere_a(ray);
    crate::fixed::lemma_fx_square_nonneg(ray.direction.0);
    crate::fixed::lemma_fx_square_nonneg(ray.direction.1);
    crate::fixed::lemma_fx_square_nonneg(ray.direction.2);
    assert(a.v() >= 0);
    if a.v() > 0 {
        crate::fixed::lemma_fx_div_monotone(num_near, num_far, a);
    }
}

/// Widening the query window cannot lose or worsen a sphere hit: a hit
/// inside the shrunk window is the wide window's hit too, and after a
/// shrunk-window miss the wide window's hit, if any, lies at or beyond
/// the shrunk end.
pub proof fn lemma_sphere_window_extends(s: Sphere, ray: Ray, t_min: Fx, w: Fx, t_max: Fx)
    requires
        w.v() <= t_max.v(),
    ensures
        crate::hit::hit_window_extends(
            s.spec_hit(ray, t_min, w),
            s.spec_hit(ray, t_min, t_max),
            w,
        ),
{
    if sphere_disc(s, ray).v() > 0 {
        lemma_sphere_roots_ordered(s, ray);
    }
}

/// For a ray that meets a sphere, the two computed roots are symmetric
/// about the projection of the center onto the ray: before division by
/// the quadratic coefficient, the two numerators sum to exactly `-2 b`.
/// The reported hit, when both roots lie in the window, is the nearer
/// root, because the roots are ordered when the coefficient is positive.
pub proof fn lemma_sphere_roots(s: Sphere, ray: Ray, t_min: Fx, t_max: Fx)
    requires
        s.shape_wf(),
        ray.wf(),
        sphere_disc(s, ray).v() > 0,
        sphere_a(ray).v() > 0,
        sphere_b(s, ray).v() + fx_sqrt(sphere_disc(s, ray)).v() <= FX_RAW_BOUND,
        -(sphere_b(s, ray).v()) + fx_sqrt(sphere_disc(s, ray)).v() <= FX_RAW_BOUND,
    ensures
        fx_sub(fx_neg(sphere_b(s, ray)), fx_sqrt(sphere_disc(s, ray))).v() + fx_add(
            fx_neg(sphere_b(s, ray)),
            fx_sqrt(sphere_disc(s, ray)),
        ).v() == -2 * sphere_b(s, ray).v(),
        sphere_root_near(s, ray).v() <= sphere_root_far(s, ray).v(),
        t_min.v() < sphere_root_near(s, ray).v() < t_max.v() ==> s.spec_hit(ray, t_min, t_max)
            == Some(sphere_record(s, ray, sphere_root_near(s, ray))),
{
    let b = sphere_b(s, ray);
    let sq = fx_sqrt(sphere_disc(s, ray));
    let a = sphere_a(ray);
    assert(sphere_disc(s, ray).wf());
    crate::fixed::lemma_fx_sqrt_props(sphere_disc(s, ray));
    assert(sq.v() >= 0);
    let num_near = fx_sub(fx_neg(b), sq);
    let num_far = fx_add(fx_neg(b), sq);
    assert(num_near.v() == -b.v() - sq.v());
    assert(num_far.v() == -b.v() + sq.v());
    crate::fixed::lemma_fx_div_monotone(num_near, num_far, a);
}

} // verus!
