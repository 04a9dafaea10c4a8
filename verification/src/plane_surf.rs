//! Bounded planar patches.

use crate::fixed::{Fx, fx_abs, fx_div, fx_max, fx_neg, fx_of, fx_sub};
use crate::hit::{HitRecord, Hittable};
use crate::material::Material;
use crate::ray::{Ray, ray_at};
use crate::vec3::{Vec3, vec_dot, vec_neg};
use vstd::prelude::*;

verus! {

/// A plane `dot(normal, p) == -dist` cut down to a patch: hit points
/// must lie within half the declared width and height of the world
/// origin, measured as Chebyshev distance. The stored normal is the
/// constructor argument negated. Rays are rejected only when they run
/// parallel to the plane; a hit from either side counts, and on the
/// fixed-point grid "nearly parallel" means a zero denominator, since
/// the smallest nonzero raw value already exceeds the tolerance the
/// rule names.
#[derive(Clone, Copy, Debug, PartialEq, Eq, Structural)]
pub struct Plane {
    pub normal: Vec3,
    pub dist: Fx,
    pub width: Fx,
    pub height: Fx,
    pub material: Material,
}

/// The distance along the ray to the unbounded plane.
pub open spec fn plane_t(p: Plane, ray: Ray) -> Fx {
    fx_div(
        fx_sub(fx_neg(p.dist), vec_dot(p.normal, ray.origin)),
        vec_dot(p.normal, ray.direction),
    )
}

/// The Chebyshev distance of a point from the world origin: the largest
/// component magnitude.
pub open spec fn chebyshev(p: Vec3) -> Fx {
    fx_max(fx_abs(p.0), fx_max(fx_abs(p.1), fx_abs(p.2)))
}

/// The hit record the plane reports at distance `t`.
pub open spec fn plane_record(p: Plane, ray: Ray, t: Fx) -> HitRecord {
    HitRecord {
        t,
        point: ray_at(ray, t),
        normal: p.normal,
        u: fx_of(0),
        v: fx_of(0),
        material: p.material,
    }
}

impl Plane {
    /// Builds a patch; the normal is stored negated, so the visible face
    /// is the one the given normal points away from.
    pub fn new(normal: Vec3, dist: Fx, width: Fx, height: Fx, material: Material) -> (p: Plane)
        requires
            normal.wf(),
        ensures
            p == (Plane { normal: vec_neg(normal), dist, width, height, material }),
    {
        Plane { normal: normal.neg(), dist, width, height, material }
    }
}

/// Widening the query window cannot lose or worsen a patch hit: the
/// plane distance does not depend on the window at all.
pub proof fn lemma_plane_window_extends(p: Plane, ray: Ray, t_min: Fx, w: Fx, t_max: Fx)
    requires
        w.v() <= t_max.v(),
    ensures
        crate::hit::hit_window_extends(
            p.spec_hit(ray, t_min, w),
            p.spec_hit(ray, t_min, t_max),
            w,
        ),
{
}

impl Hittable for Plane {
    open spec fn spec_hit(&self, ray: Ray, t_min: Fx, t_max: Fx) -> Option<HitRecord> {
        let denom = vec_dot(self.normal, ray.direction);
        if denom.v() != 0 {
            let t = plane_t(*self, ray);
            if t_min.v() < t.v() < t_max.v() {
                let d = chebyshev(ray_at(ray, t));
                if d.v() < fx_div(self.width, fx_of(131072)).v() && d.v() < fx_div(
                    self.height,
                    fx_of(131072),
                ).v() {
                    Some(plane_record(*self, ray, t))
                } else {
                    None
                }
            } else {
                None
            }
        } else {
            None
        }
    }

    open spec fn shape_wf(&self) -> bool {
        self.normal.wf() && self.dist.wf() && self.width.wf() && self.height.wf()
            && self.material.wf()
    }

    fn hit(&self, r: &Ray, t_min: Fx, t_max: Fx) -> (res: Option<HitRecord>) {
        let denom = Vec3::dot(&self.normal, &r.direction);
        if denom.raw != 0 {
            let t = self.dist.neg().sub(Vec3::dot(&self.normal, &r.origin)).div(denom);
            if t.gt(t_min) && t.lt(t_max) {
                let point = r.at(t);
                let d = point.x().abs().max(point.y().abs().max(point.z().abs()));
                let two = Fx::from_int(2);
                if d.lt(self.width.div(two)) && d.lt(self.height.div(two)) {
                    return Some(
                        HitRecord {
                            t,
                            point,
                            normal: self.normal,
                            u: Fx::zero(),
                            v: Fx::zero(),
                            material: self.material,
                        },
                    );
                }
            }
        }
        None
    }
}

} // verus!
