//! Hit records and the intersection capability.
//!
//! `Hittable` is the contract every primitive implements: `hit` returns
//! exactly the value of the implementor's `spec_hit`, the nearest valid
//! intersection in the open window `(t_min, t_max)` or `None`.

use crate::fixed::Fx;
use crate::material::Material;
use crate::ray::Ray;
use crate::vec3::{Vec3, vec_neg};
use vstd::prelude::*;

verus! {

/// The result of a successful ray-surface intersection query.
#[derive(Clone, Copy, Debug, PartialEq, Eq, Structural)]
pub struct HitRecord {
    pub t: Fx,
    pub point: Vec3,
    pub normal: Vec3,
    pub u: Fx,
    pub v: Fx,
    pub material: Material,
}

/// Denotation of `HitRecord::set_face_normal`: the stored normal is the
/// outward normal flipped, if need be, to oppose the incoming ray, so
/// that its dot product with the ray direction is never positive.
pub open spec fn spec_face_normal(r: Ray, outward_normal: Vec3) -> Vec3 {
    if crate::vec3::vec_dot(r.direction, outward_normal).v() > 0 {
        vec_neg(outward_normal)
    } else {
        outward_normal
    }
}

/// The fixed-up normal opposes the incoming ray: its dot product with
/// the ray direction is never positive.
pub proof fn lemma_face_normal_opposes(r: Ray, outward_normal: Vec3)
    requires
        r.wf(),
        outward_normal.wf(),
    ensures
        crate::vec3::vec_dot(r.direction, spec_face_normal(r, outward_normal)).v() <= 0,
{
    if crate::vec3::vec_dot(r.direction, outward_normal).v() > 0 {
        crate::vec3::lemma_vec_dot_neg(r.direction, outward_normal);
    }
}

impl HitRecord {
    /// Every stored scalar is well-formed.
    pub open spec fn wf(self) -> bool {
        &&& self.t.wf()
        &&& self.point.wf()
        &&& self.normal.wf()
        &&& self.u.wf()
        &&& self.v.wf()
        &&& self.material.wf()
    }

    /// Replaces the stored normal so that it opposes the incoming ray.
    pub fn set_face_normal(&mut self, r: &Ray, outward_normal: &Vec3)
        requires
            old(self).wf(),
            r.wf(),
            outward_normal.wf(),
        ensures
            *final(self) == (HitRecord {
                normal: spec_face_normal(*r, *outward_normal),
                ..*old(self)
            }),
            final(self).wf(),
    {
        if Vec3::dot(&r.direction, outward_normal).gt(Fx::zero()) {
            self.normal = outward_normal.neg();
        } else {
            self.normal = *outward_normal;
        }
    }
}

/// The closed set of primitives a scene may hold. The set of surfaces is
/// dispatched through `Hittable`, so adding a primitive touches neither
/// the scene scan nor the integrator.
#[derive(Clone, Copy, Debug, PartialEq, Eq, Structural)]
pub enum Surface {
    Sphere(crate::sphere::Sphere),
    Cube(crate::cube::Cube),
    Cylinder(crate::cylinder::Cylinder),
    Plane(crate::plane_surf::Plane),
}

/// An intersectable surface. `spec_hit` is the mathematical description
/// of the intersection query; `hit` computes exactly that value.
pub trait Hittable: Sized {
    /// The intersection result as a mathematical function of the query.
    spec fn spec_hit(&self, ray: Ray, t_min: Fx, t_max: Fx) -> Option<HitRecord>;

    /// The surface's own scalars are well-formed.
    spec fn shape_wf(&self) -> bool;

    /// The nearest intersection with `ray` at a distance of at least
    /// `t_min` and strictly below `t_max`, or `None` when the surface is
    /// missed. All primitives but the box report strictly past `t_min`;
    /// the box's slab entry may sit exactly on it.
    fn hit(&self, r: &Ray, t_min: Fx, t_max: Fx) -> (res: Option<HitRecord>)
        requires
            self.shape_wf(),
            r.wf(),
            t_min.wf(),
            t_max.wf(),
        ensures
            res == self.spec_hit(*r, t_min, t_max),
            res matches Some(h) ==> h.wf() && t_min.v() <= h.t.v() < t_max.v(),
    ;
}

impl Hittable for Surface {
    open spec fn spec_hit(&self, ray: Ray, t_min: Fx, t_max: Fx) -> Option<HitRecord> {
        match self {
            Surface::Sphere(s) => s.spec_hit(ray, t_min, t_max),
            Surface::Cube(c) => c.spec_hit(ray, t_min, t_max),
            Surface::Cylinder(c) => c.spec_hit(ray, t_min, t_max),
            Surface::Plane(p) => p.spec_hit(ray, t_min, t_max),
        }
    }

    open spec fn shape_wf(&self) -> bool {
        match self {
            Surface::Sphere(s) => s.shape_wf(),
            Surface::Cube(c) => c.shape_wf(),
            Surface::Cylinder(c) => c.shape_wf(),
            Surface::Plane(p) => p.shape_wf(),
        }
    }

    fn hit(&self, r: &Ray, t_min: Fx, t_max: Fx) -> (res: Option<HitRecord>) {
        match self {
            Surface::Sphere(s) => s.hit(r, t_min, t_max),
            Surface::Cube(c) => c.hit(r, t_min, t_max),
            Surface::Cylinder(c) => c.hit(r, t_min, t_max),
            Surface::Plane(p) => p.hit(r, t_min, t_max),
        }
    }
}

/// How a query on the window `(t_min, w)` relates to the same query on a
/// wider window: a hit inside the shrunk window is the wider window's
/// hit too, and a shrunk-window miss means the wider window's hit, if
/// any, lies at or beyond `w`. Every primitive satisfies this, which is
/// what lets the scene scan shrink its window as it goes and still
/// return the globally nearest hit.
pub open spec fn hit_window_extends(
    shrunk: Option<HitRecord>,
    full: Option<HitRecord>,
    w: Fx,
) -> bool {
    match (shrunk, full) {
        (Some(h), Some(g)) => g == h && h.t.v() < w.v(),
        (None, None) => true,
        (None, Some(g)) => g.t.v() >= w.v(),
        (Some(_), None) => false,
    }
}

/// The closest-hit scan from index `i` on, carrying the best hit so far
/// and the shrunken window end; the denotation of `HittableList::hit`.
pub open spec fn list_hit_from(
    objs: Seq<Surface>,
    i: int,
    ray: Ray,
    t_min: Fx,
    closest: Fx,
    best: Option<HitRecord>,
) -> Option<HitRecord>
    decreases objs.len() - i,
{
    if i < 0 || i >= objs.len() {
        best
    } else {
        match objs[i].spec_hit(ray, t_min, closest) {
            Some(h) => list_hit_from(objs, i + 1, ray, t_min, h.t, Some(h)),
            None => list_hit_from(objs, i + 1, ray, t_min, closest, best),
        }
    }
}

/// The nearest hit over a whole surface list.
pub open spec fn spec_list_hit(objs: Seq<Surface>, ray: Ray, t_min: Fx, t_max: Fx) -> Option<
    HitRecord,
> {
    list_hit_from(objs, 0, ray, t_min, t_max, None)
}

/// Every surface satisfies the window-extension relation: shrinking the
/// window's far end can only drop hits at or beyond the new end.
pub proof fn lemma_surface_window_extends(s: Surface, ray: Ray, t_min: Fx, w: Fx, t_max: Fx)
    requires
        w.v() <= t_max.v(),
    ensures
        hit_window_extends(s.spec_hit(ray, t_min, w), s.spec_hit(ray, t_min, t_max), w),
{
    match s {
        Surface::Sphere(p) => crate::sphere::lemma_sphere_window_extends(p, ray, t_min, w, t_max),
        Surface::Cube(p) => crate::cube::lemma_cube_window_extends(p, ray, t_min, w, t_max),
        Surface::Cylinder(p) => crate::cylinder::lemma_cylinder_window_extends(
            p,
            ray,
            t_min,
            w,
            t_max,
        ),
        Surface::Plane(p) => crate::plane_surf::lemma_plane_window_extends(p, ray, t_min, w, t_max),
    }
}

/// The scan's induction step from index `i`: the fold's result improves
/// on the best hit so far and on every remaining surface's own
/// full-window hit.
#[verifier::rlimit(100)]
#[verifier::spinoff_prover]
proof fn lemma_list_hit_nearest_from(
    objs: Seq<Surface>,
    i: int,
    ray: Ray,
    t_min: Fx,
    closest: Fx,
    best: Option<HitRecord>,
    t_max: Fx,
)
    requires
        0 <= i,
        closest.v() <= t_max.v(),
        best matches Some(b) ==> b.t == closest,
        best is None ==> closest == t_max,
    ensures
        ({
            let r = list_hit_from(objs, i, ray, t_min, closest, best);
            &&& best is Some ==> r is Some
            &&& r matches Some(rr) ==> rr.t.v() <= closest.v()
            &&& forall|j: int|
                i <= j < objs.len() ==> match #[trigger] objs[j].spec_hit(ray, t_min, t_max) {
                    Some(hj) => r matches Some(rr) && rr.t.v() <= hj.t.v(),
                    None => true,
                }
        }),
    decreases objs.len() - i,
{
    if i < objs.len() {
        let q = objs[i].spec_hit(ray, t_min, closest);
        let full_i = objs[i].spec_hit(ray, t_min, t_max);
        lemma_surface_window_extends(objs[i], ray, t_min, closest, t_max);
        let r = list_hit_from(objs, i, ray, t_min, closest, best);
        match q {
            Some(h) => {
                lemma_list_hit_nearest_from(objs, i + 1, ray, t_min, h.t, Some(h), t_max);
                assert(r == list_hit_from(objs, i + 1, ray, t_min, h.t, Some(h)));
                assert(r is Some);
                assert(r matches Some(rr) ==> rr.t.v() <= h.t.v());
                assert forall|j: int|
                    i <= j < objs.len() implies match #[trigger] objs[j].spec_hit(
                    ray,
                    t_min,
                    t_max,
                ) {
                    Some(hj) => r matches Some(rr) && rr.t.v() <= hj.t.v(),
                    None => true,
                } by {
                    if j == i {
                        assert(full_i == Some(h));
                    }
                }
            },
            None => {
                lemma_list_hit_nearest_from(objs, i + 1, ray, t_min, closest, best, t_max);
                assert(r == list_hit_from(objs, i + 1, ray, t_min, closest, best));
                assert forall|j: int|
                    i <= j < objs.len() implies match #[trigger] objs[j].spec_hit(
                    ray,
                    t_min,
                    t_max,
                ) {
                    Some(hj) => r matches Some(rr) && rr.t.v() <= hj.t.v(),
                    None => true,
                } by {
                    if j == i {
                        if best is None {
                            assert(closest == t_max);
                            assert(full_i == q);
                        } else {
                            assert(full_i is Some ==> (full_i matches Some(g) && g.t.v()
                                >= closest.v()));
                        }
                    }
                }
            },
        }
    }
}

/// The scene scan returns the globally nearest hit: no surface of the
/// list has a full-window hit strictly nearer than the scan's result,
/// and whenever any surface reports a hit the scan reports one.
pub proof fn lemma_list_hit_nearest(objs: Seq<Surface>, ray: Ray, t_min: Fx, t_max: Fx)
    ensures
        forall|j: int|
            0 <= j < objs.len() ==> match #[trigger] objs[j].spec_hit(ray, t_min, t_max) {
                Some(hj) => spec_list_hit(objs, ray, t_min, t_max) matches Some(r) && r.t.v()
                    <= hj.t.v(),
                None => true,
            },
{
    lemma_list_hit_nearest_from(objs, 0, ray, t_min, t_max, None, t_max);
}

/// An ordered collection of surfaces: the scene's geometry, queried as a
/// whole for the nearest hit.
#[derive(Clone, Debug)]
pub struct HittableList(pub Vec<Surface>);

impl HittableList {
    /// Builds a scene from its surfaces.
    pub fn new(list: Vec<Surface>) -> (l: HittableList)
        ensures
            l.0 == list,
    {
        HittableList(list)
    }
}

impl Hittable for HittableList {
    open spec fn spec_hit(&self, ray: Ray, t_min: Fx, t_max: Fx) -> Option<HitRecord> {
        spec_list_hit(self.0@, ray, t_min, t_max)
    }

    open spec fn shape_wf(&self) -> bool {
        forall|i: int| 0 <= i < self.0.len() ==> (#[trigger] self.0[i]).shape_wf()
    }

    fn hit(&self, r: &Ray, t_min: Fx, t_max: Fx) -> (res: Option<HitRecord>) {
        let mut best: Option<HitRecord> = None;
        let mut closest: Fx = t_max;
        let mut i: usize = 0;
        while i < self.0.len()
            invariant
                self.shape_wf(),
                r.wf(),
                t_min.wf(),
                t_max.wf(),
                closest.wf(),
                i <= self.0.len(),
                closest.v() <= t_max.v(),
                best matches Some(h) ==> h.wf() && t_min.v() <= h.t.v() < t_max.v() && closest
                    == h.t,
                best is None ==> closest == t_max,
                list_hit_from(self.0@, i as int, *r, t_min, closest, best) == spec_list_hit(
                    self.0@,
                    *r,
                    t_min,
                    t_max,
                ),
            decreases self.0.len() - i,
        {
            let obj = &self.0[i];
            match obj.hit(r, t_min, closest) {
                Some(h) => {
                    closest = h.t;
                    best = Some(h);
                },
                None => {},
            }
            i += 1;
        }
        best
    }
}

} // verus!
