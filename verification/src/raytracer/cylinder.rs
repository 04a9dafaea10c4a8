//! The factor-blend variant's cylinder: infinite lateral surface around
//! a vertical axis of the third coordinate, cut to a height span, no
//! caps.

use crate::color::Color;
use crate::fixed::{Fx, fx_add, fx_div, fx_mul, fx_neg, fx_of, fx_sqrt, fx_sub};
use crate::ray::{Ray, ray_at};
use crate::raytracer::geometry::{FACTOR_EPS_RAW, GeomHit, Geometry, HitInfo};
use crate::vec3::{Vec3, vec_dot, vec_sub, vec_unit};
use vstd::prelude::*;

verus! {

/// A cylinder around an axis parallel to the third coordinate, from the
/// center's height upward by `height`.
#[derive(Clone, Copy, Debug, PartialEq, Eq, Structural)]
pub struct Cylinder {
    pub center: Vec3,
    pub color: Color,
    pub radius: Fx,
    pub height: Fx,
    pub reflection_factor: Option<Fx>,
    pub transparency_factor: Option<Fx>,
}

/// The discriminant of the lateral quadratic, over the first two axes.
pub open spec fn cyl_delta(c: Cylinder, ray: Ray) -> Fx {
    let oc = vec_sub(ray.origin, c.center);
    let a = fx_sub(vec_dot(ray.direction, ray.direction), fx_mul(ray.direction.2, ray.direction.2));
    let b = fx_sub(vec_dot(ray.direction, oc), fx_mul(ray.direction.2, oc.2));
    let cc = fx_sub(
        fx_sub(vec_dot(oc, oc), fx_mul(oc.2, oc.2)),
        fx_mul(c.radius, c.radius),
    );
    fx_sub(fx_mul(b, b), fx_mul(a, cc))
}

/// The normal at a lateral hit: the horizontal offset from the axis,
/// normalized.
pub open spec fn cyl_normal(c: Cylinder, position: Vec3) -> Vec3 {
    vec_unit(Vec3(fx_sub(position.0, c.center.0), fx_sub(position.1, c.center.1), fx_of(0)))
}

impl Cylinder {
    /// Builds a cylinder; factors at or below the threshold are dropped.
    pub fn new(
        center: Vec3,
        radius: Fx,
        height: Fx,
        color: Color,
        reflection_factor: Fx,
        transparency_factor: Fx,
    ) -> (c: Cylinder)
        ensures
            c.center == center,
            c.radius == radius,
            c.height == height,
            c.color == color,
            c.reflection_factor == if reflection_factor.v() > FACTOR_EPS_RAW {
                Some(reflection_factor)
            } else {
                None::<Fx>
            },
            c.transparency_factor == if transparency_factor.v() > FACTOR_EPS_RAW {
                Some(transparency_factor)
            } else {
                None::<Fx>
            },
    {
        Cylinder {
            center,
            radius,
            height,
            color,
            reflection_factor: if reflection_factor.gt(Fx { raw: FACTOR_EPS_RAW }) {
                Some(reflection_factor)
            } else {
                None
            },
            transparency_factor: if transparency_factor.gt(Fx { raw: FACTOR_EPS_RAW }) {
                Some(transparency_factor)
            } else {
                None
            },
        }
    }

    /// The base center.
    pub fn get_center(&self) -> (r: Vec3)
        ensures
            r == self.center,
    {
        self.center
    }

    /// The base color.
    pub fn get_color(&self) -> (r: Color)
        ensures
            r == self.color,
    {
        self.color
    }

    /// The radius.
    pub fn get_radius(&self) -> (r: Fx)
        ensures
            r == self.radius,
    {
        self.radius
    }

    /// The height of the lateral span.
    pub fn get_height(&self) -> (r: Fx)
        ensures
            r == self.height,
    {
        self.height
    }
}

impl Geometry for Cylinder {
    open spec fn spec_compute_hit(&self, ray: Ray) -> Option<GeomHit> {
        let delta = cyl_delta(*self, ray);
        if delta.v() >= 0 {
            let oc = vec_sub(ray.origin, self.center);
            let a = fx_sub(
                vec_dot(ray.direction, ray.direction),
                fx_mul(ray.direction.2, ray.direction.2),
            );
            let b = fx_sub(vec_dot(ray.direction, oc), fx_mul(ray.direction.2, oc.2));
            let sq = fx_sqrt(delta);
            let enter0 = fx_div(fx_sub(fx_neg(b), sq), a);
            let exit0 = fx_div(fx_add(fx_neg(b), sq), a);
            let enter = if enter0.v() > exit0.v() {
                exit0
            } else {
                enter0
            };
            let exit = if enter0.v() > exit0.v() {
                enter0
            } else {
                exit0
            };
            let position = ray_at(ray, enter);
            if position.2.v() < self.center.2.v() || position.2.v() > fx_add(
                self.center.2,
                self.height,
            ).v() {
                None
            } else if enter.v() >= 0 {
                Some(
                    GeomHit {
                        distance: enter,
                        exit_distance: exit,
                        info: HitInfo { position, normal: cyl_normal(*self, position) },
                    },
                )
            } else {
                None
            }
        } else {
            None
        }
    }

    open spec fn spec_color_at(&self, position: Vec3) -> Color {
        self.color
    }

    open spec fn geom_wf(&self) -> bool {
        &&& self.center.wf()
        &&& self.color.wf()
        &&& self.radius.wf()
        &&& self.height.wf()
        &&& self.reflection_factor matches Some(f) ==> f.wf()
        &&& self.transparency_factor matches Some(f) ==> f.wf()
    }

    open spec fn spec_reflection_factor(&self) -> Option<Fx> {
        self.reflection_factor
    }

    open spec fn spec_transparency_factor(&self) -> Option<Fx> {
        self.transparency_factor
    }

    fn compute_hit(&self, ray: &Ray) -> (res: Option<GeomHit>) {
        let oc = ray.origin.sub(self.center);
        let a = Vec3::dot(&ray.direction, &ray.direction).sub(
            ray.direction.z().mul(ray.direction.z()),
        );
        let b = Vec3::dot(&ray.direction, &oc).sub(ray.direction.z().mul(oc.z()));
        let cc = Vec3::dot(&oc, &oc).sub(oc.z().mul(oc.z())).sub(self.radius.mul(self.radius));
        let delta = b.mul(b).sub(a.mul(cc));
        if delta.ge(Fx::zero()) {
            let sq = delta.sqrt();
            let enter0 = b.neg().sub(sq).div(a);
            let exit0 = b.neg().add(sq).div(a);
            let (enter, exit) = if enter0.gt(exit0) {
                (exit0, enter0)
            } else {
                (enter0, exit0)
            };
            let position = ray.at(enter);
            if position.z().lt(self.center.z()) || position.z().gt(
                self.center.z().add(self.height),
            ) {
                return None;
            }
            if enter.ge(Fx::zero()) {
                let normal = Vec3::unit_vector(
                    &Vec3::new(
                        position.x().sub(self.center.x()),
                        position.y().sub(self.center.y()),
                        Fx::zero(),
                    ),
                );
                return Some(
                    GeomHit { distance: enter, exit_distance: exit, info: HitInfo { position, normal } },
                );
            }
        }
        None
    }

    fn get_color_at(&self, position: &Vec3) -> (c: Color) {
        self.get_color()
    }

    fn get_reflection_factor(&self) -> (f: Option<Fx>) {
        self.reflection_factor
    }

    fn get_transparency_factor(&self) -> (f: Option<Fx>) {
        self.transparency_factor
    }
}

} // verus!
