//! Rays: an origin and an (unnormalized) direction, parametrized by a
//! fixed-point distance `t`.

use crate::fixed::Fx;
use crate::vec3::{Vec3, vec_add, vec_scale};
use vstd::prelude::*;

verus! {

/// A half-line through `origin` along `direction`; the direction need not
/// be unit length, the intersection tests account for its scale.
#[derive(Clone, Copy, Debug, PartialEq, Eq, Structural)]
pub struct Ray {
    pub origin: Vec3,
    pub direction: Vec3,
}

/// Denotation of `Ray::at`: the point `origin + direction * t`.
pub open spec fn ray_at(r: Ray, t: Fx) -> Vec3 {
    vec_add(r.origin, vec_scale(r.direction, t))
}

impl Ray {
    /// Both end-point vectors are well-formed.
    pub open spec fn wf(self) -> bool {
        self.origin.wf() && self.direction.wf()
    }

    /// Builds a ray from an origin and a direction.
    pub fn new(origin: Vec3, direction: Vec3) -> (r: Ray)
        ensures
            r == (Ray { origin, direction }),
    {
        Ray { origin, direction }
    }

    /// The point reached after travelling `t` along the direction.
    pub fn at(self, t: Fx) -> (p: Vec3)
        requires
            self.wf(),
            t.wf(),
        ensures
            p == ray_at(self, t),
            p.wf(),
    {
        self.origin.add(self.direction.scale(t))
    }
}

} // verus!
