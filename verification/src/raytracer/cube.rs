//! The factor-blend variant's axis-aligned box, given by center and
//! half-extent, intersected by the slab method with reciprocal direction
//! components.

use crate::color::Color;
use crate::fixed::{Fx, fx_abs, fx_div, fx_mul, fx_of, fx_sub};
use crate::ray::{Ray, ray_at};
use crate::raytracer::geometry::{FACTOR_EPS_RAW, GeomHit, Geometry, HitInfo};
use crate::vec3::{Vec3, vec_add, vec_sub};
use vstd::prelude::*;

verus! {

/// Tolerance, in raw units, for deciding which face a hit point lies on.
pub const FACE_EPS_RAW: i64 = 7;

/// A box described by its center and half-extent per axis.
#[derive(Clone, Copy, Debug, PartialEq, Eq, Structural)]
pub struct Cube {
    pub center: Vec3,
    pub color: Color,
    pub half_size: Vec3,
    pub reflection_factor: Option<Fx>,
    pub transparency_factor: Option<Fx>,
}

/// One axis' slab interval, entry before exit: the distances to the two
/// bounding planes, computed with the reciprocal direction component and
/// swapped into order.
pub open spec fn slab_pair(lo: Fx, hi: Fx, o: Fx, inv: Fx) -> (Fx, Fx) {
    let t1 = fx_mul(fx_sub(lo, o), inv);
    let t2 = fx_mul(fx_sub(hi, o), inv);
    if t1.v() > t2.v() {
        (t2, t1)
    } else {
        (t1, t2)
    }
}

/// The entry/exit interval of the whole box, `None` when the slabs do
/// not overlap.
pub open spec fn cube_slab_interval(c: Cube, ray: Ray) -> Option<(Fx, Fx)> {
    let min = vec_sub(c.center, c.half_size);
    let max = vec_add(c.center, c.half_size);
    let inv_x = fx_div(fx_of(65536), ray.direction.0);
    let inv_y = fx_div(fx_of(65536), ray.direction.1);
    let inv_z = fx_div(fx_of(65536), ray.direction.2);
    let (tmin0, tmax0) = slab_pair(min.0, max.0, ray.origin.0, inv_x);
    let (tymin, tymax) = slab_pair(min.1, max.1, ray.origin.1, inv_y);
    if tmin0.v() > tymax.v() || tymin.v() > tmax0.v() {
        None
    } else {
        let tmin1 = if tymin.v() > tmin0.v() {
            tymin
        } else {
            tmin0
        };
        let tmax1 = if tymax.v() < tmax0.v() {
            tymax
        } else {
            tmax0
        };
        let (tzmin, tzmax) = slab_pair(min.2, max.2, ray.origin.2, inv_z);
        if tmin1.v() > tzmax.v() || tzmin.v() > tmax1.v() {
            None
        } else {
            let tmin2 = if tzmin.v() > tmin1.v() {
                tzmin
            } else {
                tmin1
            };
            let tmax2 = if tzmax.v() < tmax1.v() {
                tzmax
            } else {
                tmax1
            };
            Some((tmin2, tmax2))
        }
    }
}

/// The face normal at a hit position: the axis whose bounding plane the
/// position lies on, within the tolerance; zero on a degenerate corner.
pub open spec fn cube_face_normal(c: Cube, position: Vec3) -> Vec3 {
    let min = vec_sub(c.center, c.half_size);
    let max = vec_add(c.center, c.half_size);
    let eps = FACE_EPS_RAW as int;
    if fx_abs(fx_sub(position.0, min.0)).v() < eps {
        Vec3(fx_of(-65536), fx_of(0), fx_of(0))
    } else if fx_abs(fx_sub(position.0, max.0)).v() < eps {
        Vec3(fx_of(65536), fx_of(0), fx_of(0))
    } else if fx_abs(fx_sub(position.1, min.1)).v() < eps {
        Vec3(fx_of(0), fx_of(-65536), fx_of(0))
    } else if fx_abs(fx_sub(position.1, max.1)).v() < eps {
        Vec3(fx_of(0), fx_of(65536), fx_of(0))
    } else if fx_abs(fx_sub(position.2, min.2)).v() < eps {
        Vec3(fx_of(0), fx_of(0), fx_of(-65536))
    } else if fx_abs(fx_sub(position.2, max.2)).v() < eps {
        Vec3(fx_of(0), fx_of(0), fx_of(65536))
    } else {
        Vec3(fx_of(0), fx_of(0), fx_of(0))
    }
}

impl Cube {
    /// Builds a box; factors at or below the threshold are dropped.
    pub fn new(
        center: Vec3,
        half_size: Vec3,
        color: Color,
        reflection_factor: Fx,
        transparency_factor: Fx,
    ) -> (c: Cube)
        ensures
            c.center == center,
            c.half_size == half_size,
            c.color == color,
            c.reflection_factor == if reflection_factor.v() > FACTOR_EPS_RAW {
                Some(reflection_factor)
            } else {
                None::<Fx>
            },
            c.transparency_factor == if transparency_factor.v() > FACTOR_EPS_RAW {
                Some(transparency_factor)
            } else {
                None::<Fx>
            },
    {
        Cube {
            center,
            half_size,
            color,
            reflection_factor: if reflection_factor.gt(Fx { raw: FACTOR_EPS_RAW }) {
                Some(reflection_factor)
            } else {
                None
            },
            transparency_factor: if transparency_factor.gt(Fx { raw: FACTOR_EPS_RAW }) {
                Some(transparency_factor)
            } else {
                None
            },
        }
    }

    /// The box's center.
    pub fn get_center(&self) -> (r: Vec3)
        ensures
            r == self.center,
    {
        self.center
    }

    /// The box's base color.
    pub fn get_color(&self) -> (r: Color)
        ensures
            r == self.color,
    {
        self.color
    }

    /// The box's half-extent.
    pub fn get_half_size(&self) -> (r: Vec3)
        ensures
            r == self.half_size,
    {
        self.half_size
    }
}

impl Geometry for Cube {
    open spec fn spec_compute_hit(&self, ray: Ray) -> Option<GeomHit> {
        match cube_slab_interval(*self, ray) {
            Some((tmin, tmax)) => {
                if tmin.v() < 0 && tmax.v() < 0 {
                    None
                } else {
                    let dist = if tmin.v() < 0 {
                        tmax
                    } else {
                        tmin
                    };
                    let position = ray_at(ray, dist);
                    Some(
                        GeomHit {
                            distance: dist,
                            exit_distance: tmax,
                            info: HitInfo { position, normal: cube_face_normal(*self, position) },
                        },
                    )
                }
            },
            None => None,
        }
    }

    open spec fn spec_color_at(&self, position: Vec3) -> Color {
        self.color
    }

    open spec fn geom_wf(&self) -> bool {
        &&& self.center.wf()
        &&& self.color.wf()
        &&& self.half_size.wf()
        &&& self.reflection_factor matches Some(f) ==> f.wf()
        &&& self.transparency_factor matches Some(f) ==> f.wf()
    }

    open spec fn spec_reflection_factor(&self) -> Option<Fx> {
        self.reflection_factor
    }

    open spec fn spec_transparency_factor(&self) -> Option<Fx> {
        self.transparency_factor
    }

    fn compute_hit(&self, ray: &Ray) -> (res: Option<GeomHit>) {
        let one = Fx::one();
        let min = self.center.sub(self.half_size);
        let max = self.center.add(self.half_size);
        let inv_x = one.div(ray.direction.x());
        let inv_y = one.div(ray.direction.y());
        let inv_z = one.div(ray.direction.z());
        let tx1 = min.x().sub(ray.origin.x()).mul(inv_x);
        let tx2 = max.x().sub(ray.origin.x()).mul(inv_x);
        let (mut tmin, mut tmax) = if tx1.gt(tx2) {
            (tx2, tx1)
        } else {
            (tx1, tx2)
        };
        let ty1 = min.y().sub(ray.origin.y()).mul(inv_y);
        let ty2 = max.y().sub(ray.origin.y()).mul(inv_y);
        let (tymin, tymax) = if ty1.gt(ty2) {
            (ty2, ty1)
        } else {
            (ty1, ty2)
        };
        if tmin.gt(tymax) || tymin.gt(tmax) {
            return None;
        }
        if tymin.gt(tmin) {
            tmin = tymin;
        }
        if tymax.lt(tmax) {
            tmax = tymax;
        }
        let tz1 = min.z().sub(ray.origin.z()).mul(inv_z);
        let tz2 = max.z().sub(ray.origin.z()).mul(inv_z);
        let (tzmin, tzmax) = if tz1.gt(tz2) {
            (tz2, tz1)
        } else {
            (tz1, tz2)
        };
        if tmin.gt(tzmax) || tzmin.gt(tmax) {
            return None;
        }
        if tzmin.gt(tmin) {
            tmin = tzmin;
        }
        if tzmax.lt(tmax) {
            tmax = tzmax;
        }
        if tmin.lt(Fx::zero()) && tmax.lt(Fx::zero()) {
            return None;
        }
        let dist = if tmin.lt(Fx::zero()) {
            tmax
        } else {
            tmin
        };
        let position = ray.at(dist);
        let eps = Fx { raw: FACE_EPS_RAW };
        let normal = if position.x().sub(min.x()).abs().lt(eps) {
            Vec3::new(Fx::one().neg(), Fx::zero(), Fx::zero())
        } else if position.x().sub(max.x()).abs().lt(eps) {
            Vec3::new(Fx::one(), Fx::zero(), Fx::zero())
        } else if position.y().sub(min.y()).abs().lt(eps) {
            Vec3::new(Fx::zero(), Fx::one().neg(), Fx::zero())
        } else if position.y().sub(max.y()).abs().lt(eps) {
            Vec3::new(Fx::zero(), Fx::one(), Fx::zero())
        } else if position.z().sub(min.z()).abs().lt(eps) {
            Vec3::new(Fx::zero(), Fx::zero(), Fx::one().neg())
        } else if position.z().sub(max.z()).abs().lt(eps) {
            Vec3::new(Fx::zero(), Fx::zero(), Fx::one())
        } else {
            Vec3::zero()
        };
        Some(GeomHit { distance: dist, exit_distance: tmax, info: HitInfo { position, normal } })
    }

    fn get_color_at(&self, position: &Vec3) -> (c: Color) {
        self.get_color()
    }

    fn get_reflection_factor(&self) -> (f: Option<Fx>) {
        self.reflection_factor
    }

    fn get_transparency_factor(&self) -> (f: Option<Fx>) {
        self.transparency_factor
    }
}

} // verus!
