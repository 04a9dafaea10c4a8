//! The intersection capability of the factor-blend variant: primitives
//! report the entry distance, the exit distance (needed to pass a
//! refracted ray through a solid), the hit point and its normal.

use crate::color::Color;
use crate::fixed::Fx;
use crate::ray::Ray;
use crate::vec3::Vec3;
use vstd::prelude::*;

verus! {

/// Threshold below which a reflection or transparency factor counts as
/// absent: about one thousandth.
pub const FACTOR_EPS_RAW: i64 = 65;

/// The position and surface normal at a hit point.
#[derive(Clone, Copy, Debug, PartialEq, Eq, Structural)]
pub struct HitInfo {
    pub position: Vec3,
    pub normal: Vec3,
}

impl HitInfo {
    /// Both vectors are well-formed.
    pub open spec fn wf(self) -> bool {
        self.position.wf() && self.normal.wf()
    }
}

/// A full intersection report: entry and exit distances and the surface
/// data at the entry point.
#[derive(Clone, Copy, Debug, PartialEq, Eq, Structural)]
pub struct GeomHit {
    pub distance: Fx,
    pub exit_distance: Fx,
    pub info: HitInfo,
}

impl GeomHit {
    /// Every scalar is well-formed.
    pub open spec fn wf(self) -> bool {
        self.distance.wf() && self.exit_distance.wf() && self.info.wf()
    }
}

/// A surface of the factor-blend variant.
pub trait Geometry: Sized {
    /// The intersection report as a mathematical function of the query.
    spec fn spec_compute_hit(&self, ray: Ray) -> Option<GeomHit>;

    /// The base color the surface shows at a position.
    spec fn spec_color_at(&self, position: Vec3) -> Color;

    /// The surface's own scalars are well-formed.
    spec fn geom_wf(&self) -> bool;

    /// The fraction of incoming light the surface mirrors, when above
    /// the threshold.
    spec fn spec_reflection_factor(&self) -> Option<Fx>;

    /// The fraction of incoming light the surface passes through, when
    /// above the threshold.
    spec fn spec_transparency_factor(&self) -> Option<Fx>;

    /// The nearest intersection along `ray`, with its exit distance, or
    /// `None` on a miss.
    fn compute_hit(&self, ray: &Ray) -> (res: Option<GeomHit>)
        requires
            self.geom_wf(),
            ray.wf(),
        ensures
            res == self.spec_compute_hit(*ray),
            res matches Some(h) ==> h.wf(),
    ;

    /// The base color at a position.
    fn get_color_at(&self, position: &Vec3) -> (c: Color)
        requires
            self.geom_wf(),
        ensures
            c == self.spec_color_at(*position),
            c.wf(),
    ;

    /// The reflection blend weight, if any.
    fn get_reflection_factor(&self) -> (f: Option<Fx>)
        requires
            self.geom_wf(),
        ensures
            f == self.spec_reflection_factor(),
            f matches Some(v) ==> v.wf(),
    ;

    /// The transparency blend weight, if any.
    fn get_transparency_factor(&self) -> (f: Option<Fx>)
        requires
            self.geom_wf(),
        ensures
            f == self.spec_transparency_factor(),
            f matches Some(v) ==> v.wf(),
    ;
}

} // verus!
