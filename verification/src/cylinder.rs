//! Finite capped cylinders around a vertical axis.
//!
//! The lateral surface is intersected with a quadratic over the two
//! horizontal axes; the two caps are tested as horizontal planes cut to
//! the cap radius. The nearest valid candidate wins.

use crate::fixed::{Fx, fx_add, fx_div, fx_mul, fx_neg, fx_of, fx_sqrt, fx_sub};
use crate::hit::{HitRecord, Hittable};
use crate::material::Material;
use crate::ray::{Ray, ray_at};
use crate::vec3::{Vec3, vec_add, vec_div_scalar, vec_dot_xz, vec_scale, vec_sub};
use vstd::prelude::*;

verus! {

/// Tolerance, in raw units, on the lateral surface's height test.
pub const CYL_HEIGHT_EPS: i64 = 7;

/// A capped cylinder: base center, radius, and height along the second
/// axis.
#[derive(Clone, Copy, Debug, PartialEq, Eq, Structural)]
pub struct Cylinder {
    pub center: Vec3,
    pub radius: Fx,
    pub height: Fx,
    pub material: Material,
}

/// Of two optional hits, the one at the smaller distance; an earlier
/// candidate wins ties.
pub open spec fn nearer_hit(a: Option<HitRecord>, b: Option<HitRecord>) -> Option<HitRecord> {
    match (a, b) {
        (Some(x), Some(y)) => if x.t.v() <= y.t.v() {
            Some(x)
        } else {
            Some(y)
        },
        (Some(x), None) => Some(x),
        (None, y) => y,
    }
}

/// The hit record the cylinder reports at distance `t`: the normal is
/// the offset from the base center scaled by the radius, as for a
/// sphere, for the caps as well as the lateral surface.
pub open spec fn cyl_record(c: Cylinder, ray: Ray, t: Fx) -> HitRecord {
    HitRecord {
        t,
        point: ray_at(ray, t),
        normal: vec_div_scalar(vec_sub(ray_at(ray, t), c.center), c.radius),
        u: fx_of(0),
        v: fx_of(0),
        material: c.material,
    }
}

/// A cap candidate: where the ray crosses the horizontal plane at height
/// `cap_y`, valid if inside the window and radially within the cap.
pub open spec fn cyl_cap_hit(c: Cylinder, ray: Ray, t_min: Fx, t_max: Fx, cap_y: Fx) -> Option<
    HitRecord,
> {
    let oc = vec_sub(ray.origin, c.center);
    let t = fx_div(fx_sub(cap_y, ray.origin.1), ray.direction.1);
    let poi = vec_add(oc, vec_scale(ray.direction, t));
    if t.v() > t_min.v() && t.v() < t_max.v() && vec_dot_xz(poi, poi).v() < fx_mul(
        c.radius,
        c.radius,
    ).v() {
        Some(cyl_record(c, ray, t))
    } else {
        None
    }
}

/// The discriminant of the lateral quadratic.
pub open spec fn cyl_disc(c: Cylinder, ray: Ray) -> Fx {
    let oc = vec_sub(ray.origin, c.center);
    let a = vec_dot_xz(ray.direction, ray.direction);
    let b = vec_dot_xz(oc, ray.direction);
    let cc = fx_sub(vec_dot_xz(oc, oc), fx_mul(c.radius, c.radius));
    fx_sub(fx_mul(b, b), fx_mul(a, cc))
}

/// A lateral candidate at root `t`, valid if inside the window and at a
/// height within the cylinder's span, with a small tolerance.
pub open spec fn cyl_side_hit(c: Cylinder, ray: Ray, t_min: Fx, t_max: Fx, t: Fx) -> Option<
    HitRecord,
> {
    let y = fx_add(ray.origin.1, fx_mul(t, ray.direction.1));
    if t.v() < t_max.v() && t.v() > t_min.v() && y.v() >= fx_sub(c.center.1, fx_of(
        CYL_HEIGHT_EPS as int,
    )).v() && y.v() <= fx_add(fx_add(c.center.1, c.height), fx_of(CYL_HEIGHT_EPS as int)).v() {
        Some(cyl_record(c, ray, t))
    } else {
        None
    }
}

/// Both lateral candidates, nearer root first; nothing without a
/// positive discriminant.
pub open spec fn cyl_side_hits(c: Cylinder, ray: Ray, t_min: Fx, t_max: Fx) -> Option<HitRecord> {
    let oc = vec_sub(ray.origin, c.center);
    let a = vec_dot_xz(ray.direction, ray.direction);
    let b = vec_dot_xz(oc, ray.direction);
    let disc = cyl_disc(c, ray);
    if disc.v() > 0 {
        let sq = fx_sqrt(disc);
        let t_near = fx_div(fx_sub(fx_neg(b), sq), a);
        let t_far = fx_div(fx_add(fx_neg(b), sq), a);
        nearer_hit(
            cyl_side_hit(c, ray, t_min, t_max, t_near),
            cyl_side_hit(c, ray, t_min, t_max, t_far),
        )
    } else {
        None
    }
}

/// Taking the nearer of two candidates preserves the window-extension
/// relation: it never trades a near hit for a far one.
proof fn lemma_nearer_extends(
    a: Option<HitRecord>,
    a2: Option<HitRecord>,
    b: Option<HitRecord>,
    b2: Option<HitRecord>,
    w: Fx,
)
    requires
        crate::hit::hit_window_extends(a, a2, w),
        crate::hit::hit_window_extends(b, b2, w),
    ensures
        crate::hit::hit_window_extends(nearer_hit(a, b), nearer_hit(a2, b2), w),
{
}

/// Widening the query window cannot lose or worsen a cylinder hit: the
/// candidate distances do not depend on the window, only their validity
/// tests do, and each candidate extends.
pub proof fn lemma_cylinder_window_extends(c: Cylinder, ray: Ray, t_min: Fx, w: Fx, t_max: Fx)
    requires
        w.v() <= t_max.v(),
    ensures
        crate::hit::hit_window_extends(
            c.spec_hit(ray, t_min, w),
            c.spec_hit(ray, t_min, t_max),
            w,
        ),
{
    let bottom_w = cyl_cap_hit(c, ray, t_min, w, c.center.1);
    let bottom_f = cyl_cap_hit(c, ray, t_min, t_max, c.center.1);
    assert(crate::hit::hit_window_extends(bottom_w, bottom_f, w));
    let top_y = fx_add(c.center.1, c.height);
    let top_w = cyl_cap_hit(c, ray, t_min, w, top_y);
    let top_f = cyl_cap_hit(c, ray, t_min, t_max, top_y);
    assert(crate::hit::hit_window_extends(top_w, top_f, w));
    let side_w = cyl_side_hits(c, ray, t_min, w);
    let side_f = cyl_side_hits(c, ray, t_min, t_max);
    let disc = cyl_disc(c, ray);
    if disc.v() > 0 {
        let oc = vec_sub(ray.origin, c.center);
        let b = vec_dot_xz(oc, ray.direction);
        let a = vec_dot_xz(ray.direction, ray.direction);
        let sq = fx_sqrt(disc);
        let t_near = fx_div(fx_sub(fx_neg(b), sq), a);
        let t_far = fx_div(fx_add(fx_neg(b), sq), a);
        assert(crate::hit::hit_window_extends(
            cyl_side_hit(c, ray, t_min, w, t_near),
            cyl_side_hit(c, ray, t_min, t_max, t_near),
            w,
        ));
        assert(crate::hit::hit_window_extends(
            cyl_side_hit(c, ray, t_min, w, t_far),
            cyl_side_hit(c, ray, t_min, t_max, t_far),
            w,
        ));
        lemma_nearer_extends(
            cyl_side_hit(c, ray, t_min, w, t_near),
            cyl_side_hit(c, ray, t_min, t_max, t_near),
            cyl_side_hit(c, ray, t_min, w, t_far),
            cyl_side_hit(c, ray, t_min, t_max, t_far),
            w,
        );
    }
    assert(crate::hit::hit_window_extends(side_w, side_f, w));
    lemma_nearer_extends(side_w, side_f, bottom_w, bottom_f, w);
    lemma_nearer_extends(
        nearer_hit(side_w, bottom_w),
        nearer_hit(side_f, bottom_f),
        top_w,
        top_f,
        w,
    );
}

impl Cylinder {
    /// Builds a cylinder.
    pub fn new(center: Vec3, radius: Fx, height: Fx, material: Material) -> (c: Cylinder)
        ensures
            c == (Cylinder { center, radius, height, material }),
    {
        Cylinder { center, radius, height, material }
    }
}

impl Hittable for Cylinder {
    open spec fn spec_hit(&self, ray: Ray, t_min: Fx, t_max: Fx) -> Option<HitRecord> {
        let side = cyl_side_hits(*self, ray, t_min, t_max);
        let bottom = cyl_cap_hit(*self, ray, t_min, t_max, self.center.1);
        let top = cyl_cap_hit(*self, ray, t_min, t_max, fx_add(self.center.1, self.height));
        nearer_hit(nearer_hit(side, bottom), top)
    }

    open spec fn shape_wf(&self) -> bool {
        self.center.wf() && self.radius.wf() && self.height.wf() && self.material.wf()
    }

    fn hit(&self, r: &Ray, t_min: Fx, t_max: Fx) -> (res: Option<HitRecord>) {
        let oc = r.origin.sub(self.center);
        let a = r.direction.dot_xz(&r.direction);
        let b = oc.dot_xz(&r.direction);
        let cc = oc.dot_xz(&oc).sub(self.radius.mul(self.radius));
        let discriminant = b.mul(b).sub(a.mul(cc));
        let side = if discriminant.gt(Fx::zero()) {
            let sq = discriminant.sqrt();
            let t_near = b.neg().sub(sq).div(a);
            let t_far = b.neg().add(sq).div(a);
            let near = self.side_candidate(r, t_min, t_max, t_near);
            let far = self.side_candidate(r, t_min, t_max, t_far);
            Self::nearer(near, far)
        } else {
            None
        };
        let bottom = self.cap_candidate(r, t_min, t_max, self.center.y());
        let top = self.cap_candidate(r, t_min, t_max, self.center.y().add(self.height));
        Self::nearer(Self::nearer(side, bottom), top)
    }
}

impl Cylinder {
    /// The record at `t` on the lateral surface, if valid there.
    fn side_candidate(&self, r: &Ray, t_min: Fx, t_max: Fx, t: Fx) -> (res: Option<HitRecord>)
        requires
            self.shape_wf(),
            r.wf(),
            t_min.wf(),
            t_max.wf(),
            t.wf(),
        ensures
            res == cyl_side_hit(*self, *r, t_min, t_max, t),
            res matches Some(h) ==> h.wf() && t_min.v() < h.t.v() < t_max.v(),
    {
        let eps = Fx { raw: CYL_HEIGHT_EPS };
        let y = r.origin.y().add(t.mul(r.direction.y()));
        if t.lt(t_max) && t.gt(t_min) && y.ge(self.center.y().sub(eps)) && y.le(
            self.center.y().add(self.height).add(eps),
        ) {
            let point = r.at(t);
            Some(
                HitRecord {
                    t,
                    point,
                    normal: point.sub(self.center).div_scalar(self.radius),
                    u: Fx::zero(),
                    v: Fx::zero(),
                    material: self.material,
                },
            )
        } else {
            None
        }
    }

    /// The record where the ray crosses the cap plane at `cap_y`, if
    /// valid there.
    fn cap_candidate(&self, r: &Ray, t_min: Fx, t_max: Fx, cap_y: Fx) -> (res: Option<HitRecord>)
        requires
            self.shape_wf(),
            r.wf(),
            t_min.wf(),
            t_max.wf(),
            cap_y.wf(),
        ensures
            res == cyl_cap_hit(*self, *r, t_min, t_max, cap_y),
            res matches Some(h) ==> h.wf() && t_min.v() < h.t.v() < t_max.v(),
    {
        let oc = r.origin.sub(self.center);
        let t = cap_y.sub(r.origin.y()).div(r.direction.y());
        let poi = oc.add(r.direction.scale(t));
        if t.gt(t_min) && t.lt(t_max) && poi.dot_xz(&poi).lt(self.radius.mul(self.radius)) {
            let point = r.at(t);
            Some(
                HitRecord {
                    t,
                    point,
                    normal: point.sub(self.center).div_scalar(self.radius),
                    u: Fx::zero(),
                    v: Fx::zero(),
                    material: self.material,
                },
            )
        } else {
            None
        }
    }

    /// Of two optional hits, the one at the smaller distance.
    fn nearer(a: Option<HitRecord>, b: Option<HitRecord>) -> (res: Option<HitRecord>)
        ensures
            res == nearer_hit(a, b),
    {
        match (a, b) {
            (Some(x), Some(y)) => if x.t.le(y.t) {
                Some(x)
            } else {
                Some(y)
            },
            (Some(x), None) => Some(x),
            (None, y) => y,
        }
    }
}

} // verus!
