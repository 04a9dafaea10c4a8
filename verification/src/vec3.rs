//! Three-component vectors over fixed-point scalars.
//!
//! Every executable operation returns exactly the value of its spec-level
//! mirror (`vec_add`, `vec_dot`, ...), so vector algebra composes by
//! equality in the contracts of the layers above.

use crate::fixed::{Fx, fx_add, fx_sub, fx_neg, fx_mul, fx_div, fx_sqrt, fx_of};
use vstd::prelude::*;

verus! {

/// A vector of three fixed-point components; also used for colors, where
/// the components are the red, green and blue channels.
#[derive(Clone, Copy, Debug, PartialEq, Eq, Structural)]
pub struct Vec3(pub Fx, pub Fx, pub Fx);

/// Denotation of componentwise addition.
pub open spec fn vec_add(a: Vec3, b: Vec3) -> Vec3 {
    Vec3(fx_add(a.0, b.0), fx_add(a.1, b.1), fx_add(a.2, b.2))
}

/// Denotation of componentwise subtraction.
pub open spec fn vec_sub(a: Vec3, b: Vec3) -> Vec3 {
    Vec3(fx_sub(a.0, b.0), fx_sub(a.1, b.1), fx_sub(a.2, b.2))
}

/// Denotation of negation.
pub open spec fn vec_neg(a: Vec3) -> Vec3 {
    Vec3(fx_neg(a.0), fx_neg(a.1), fx_neg(a.2))
}

/// Denotation of componentwise (Hadamard) multiplication.
pub open spec fn vec_mul(a: Vec3, b: Vec3) -> Vec3 {
    Vec3(fx_mul(a.0, b.0), fx_mul(a.1, b.1), fx_mul(a.2, b.2))
}

/// Denotation of scaling by a scalar.
pub open spec fn vec_scale(a: Vec3, k: Fx) -> Vec3 {
    Vec3(fx_mul(a.0, k), fx_mul(a.1, k), fx_mul(a.2, k))
}

/// Denotation of componentwise division.
pub open spec fn vec_div(a: Vec3, b: Vec3) -> Vec3 {
    Vec3(fx_div(a.0, b.0), fx_div(a.1, b.1), fx_div(a.2, b.2))
}

/// Denotation of division by a scalar.
pub open spec fn vec_div_scalar(a: Vec3, k: Fx) -> Vec3 {
    Vec3(fx_div(a.0, k), fx_div(a.1, k), fx_div(a.2, k))
}

/// Denotation of the dot product.
pub open spec fn vec_dot(a: Vec3, b: Vec3) -> Fx {
    fx_add(fx_add(fx_mul(a.0, b.0), fx_mul(a.1, b.1)), fx_mul(a.2, b.2))
}

/// Denotation of the dot product restricted to the first and third axes.
pub open spec fn vec_dot_xz(a: Vec3, b: Vec3) -> Fx {
    fx_add(fx_mul(a.0, b.0), fx_mul(a.2, b.2))
}

/// Denotation of the dot product restricted to the first two axes.
pub open spec fn vec_dot_xy(a: Vec3, b: Vec3) -> Fx {
    fx_add(fx_mul(a.0, b.0), fx_mul(a.1, b.1))
}

/// Denotation of the dot product restricted to the last two axes.
pub open spec fn vec_dot_yz(a: Vec3, b: Vec3) -> Fx {
    fx_add(fx_mul(a.1, b.1), fx_mul(a.2, b.2))
}

/// Denotation of the cross product.
pub open spec fn vec_cross(a: Vec3, b: Vec3) -> Vec3 {
    Vec3(
        fx_sub(fx_mul(a.1, b.2), fx_mul(a.2, b.1)),
        fx_sub(fx_mul(a.2, b.0), fx_mul(a.0, b.2)),
        fx_sub(fx_mul(a.0, b.1), fx_mul(a.1, b.0)),
    )
}

/// Denotation of the squared length.
pub open spec fn vec_squared_length(a: Vec3) -> Fx {
    vec_dot(a, a)
}

/// Denotation of the length.
pub open spec fn vec_length(a: Vec3) -> Fx {
    fx_sqrt(vec_squared_length(a))
}

/// Denotation of unit normalization: division by the length, which for a
/// zero-length vector saturates instead of failing; callers that need a
/// meaningful direction must pass a vector of positive length.
pub open spec fn vec_unit(a: Vec3) -> Vec3 {
    vec_div_scalar(a, vec_length(a))
}

/// Negating one side negates the dot product: every fixed-point step of
/// the dot product is odd.
pub proof fn lemma_vec_dot_neg(a: Vec3, b: Vec3)
    requires
        b.wf(),
    ensures
        vec_dot(a, vec_neg(b)).v() == -vec_dot(a, b).v(),
{
    crate::fixed::lemma_fx_mul_neg(a.0, b.0);
    crate::fixed::lemma_fx_mul_neg(a.1, b.1);
    crate::fixed::lemma_fx_mul_neg(a.2, b.2);
}

/// Adding the zero vector to a well-formed vector changes nothing.
pub proof fn lemma_vec_add_zero(a: Vec3)
    requires
        a.wf(),
    ensures
        vec_add(a, Vec3(fx_of(0), fx_of(0), fx_of(0))) == a,
{
}

impl Vec3 {
    /// All three components are well-formed scalars.
    pub open spec fn wf(self) -> bool {
        self.0.wf() && self.1.wf() && self.2.wf()
    }

    /// Builds a vector from its components.
    pub fn new(x: Fx, y: Fx, z: Fx) -> (r: Vec3)
        ensures
            r == Vec3(x, y, z),
    {
        Vec3(x, y, z)
    }

    /// The vector with all components zero.
    pub fn zero() -> (r: Vec3)
        ensures
            r == Vec3(fx_of(0), fx_of(0), fx_of(0)),
            r.wf(),
    {
        Vec3(Fx::zero(), Fx::zero(), Fx::zero())
    }

    /// The red channel, when the vector is used as a color.
    pub fn r(self) -> (r: Fx)
        ensures
            r == self.0,
    {
        self.0
    }

    /// The green channel, when the vector is used as a color.
    pub fn g(self) -> (r: Fx)
        ensures
            r == self.1,
    {
        self.1
    }

    /// The blue channel, when the vector is used as a color.
    pub fn b(self) -> (r: Fx)
        ensures
            r == self.2,
    {
        self.2
    }

    /// The first spatial component.
    pub fn x(self) -> (r: Fx)
        ensures
            r == self.0,
    {
        self.0
    }

    /// The second spatial component.
    pub fn y(self) -> (r: Fx)
        ensures
            r == self.1,
    {
        self.1
    }

    /// The third spatial component.
    pub fn z(self) -> (r: Fx)
        ensures
            r == self.2,
    {
        self.2
    }

    /// The Euclidean length, rounded down to the fixed-point grid.
    pub fn length(self) -> (r: Fx)
        requires
            self.wf(),
        ensures
            r == vec_length(self),
            r.wf(),
    {
        self.squared_length().sqrt()
    }

    /// The dot product of the vector with itself.
    pub fn squared_length(self) -> (r: Fx)
        requires
            self.wf(),
        ensures
            r == vec_squared_length(self),
            r.wf(),
    {
        Self::dot(&self, &self)
    }

    /// The vector scaled to (approximately) unit length.
    pub fn unit_vector(v: &Vec3) -> (r: Vec3)
        requires
            v.wf(),
        ensures
            r == vec_unit(*v),
            r.wf(),
    {
        let len = v.length();
        v.div_scalar(len)
    }

    /// The dot product of two vectors.
    pub fn dot(v1: &Vec3, v2: &Vec3) -> (r: Fx)
        requires
            v1.wf(),
            v2.wf(),
        ensures
            r == vec_dot(*v1, *v2),
            r.wf(),
    {
        v1.0.mul(v2.0).add(v1.1.mul(v2.1)).add(v1.2.mul(v2.2))
    }

    /// The dot product, as a method.
    pub fn dot_j(&self, v2: &Vec3) -> (r: Fx)
        requires
            self.wf(),
            v2.wf(),
        ensures
            r == vec_dot(*self, *v2),
            r.wf(),
    {
        Self::dot(self, v2)
    }

    /// The product of the second components alone.
    pub fn dot_y(&self, other: &Vec3) -> (r: Fx)
        requires
            self.wf(),
            other.wf(),
        ensures
            r == fx_mul(self.1, other.1),
            r.wf(),
    {
        self.1.mul(other.1)
    }

    /// The dot product restricted to the first and third axes.
    pub fn dot_xz(&self, other: &Vec3) -> (r: Fx)
        requires
            self.wf(),
            other.wf(),
        ensures
            r == vec_dot_xz(*self, *other),
            r.wf(),
    {
        self.0.mul(other.0).add(self.2.mul(other.2))
    }

    /// The dot product restricted to the first two axes.
    pub fn dot_xy(&self, other: &Vec3) -> (r: Fx)
        requires
            self.wf(),
            other.wf(),
        ensures
            r == vec_dot_xy(*self, *other),
            r.wf(),
    {
        self.0.mul(other.0).add(self.1.mul(other.1))
    }

    /// The dot product restricted to the last two axes.
    pub fn dot_yz(&self, other: &Vec3) -> (r: Fx)
        requires
            self.wf(),
            other.wf(),
        ensures
            r == vec_dot_yz(*self, *other),
            r.wf(),
    {
        self.1.mul(other.1).add(self.2.mul(other.2))
    }

    /// The cross product of two vectors.
    pub fn cross(v1: &Vec3, v2: &Vec3) -> (r: Vec3)
        requires
            v1.wf(),
            v2.wf(),
        ensures
            r == vec_cross(*v1, *v2),
            r.wf(),
    {
        Vec3(
            v1.1.mul(v2.2).sub(v1.2.mul(v2.1)),
            v1.2.mul(v2.0).sub(v1.0.mul(v2.2)),
            v1.0.mul(v2.1).sub(v1.1.mul(v2.0)),
        )
    }

    /// The vector scaled to (approximately) unit length, as a method.
    pub fn unit(self) -> (r: Vec3)
        requires
            self.wf(),
        ensures
            r == vec_unit(self),
            r.wf(),
    {
        Self::unit_vector(&self)
    }

    /// Componentwise sum.
    pub fn add(self, rhs: Vec3) -> (r: Vec3)
        requires
            self.wf(),
            rhs.wf(),
        ensures
            r == vec_add(self, rhs),
            r.wf(),
    {
        Vec3(self.0.add(rhs.0), self.1.add(rhs.1), self.2.add(rhs.2))
    }

    /// Componentwise difference.
    pub fn sub(self, rhs: Vec3) -> (r: Vec3)
        requires
            self.wf(),
            rhs.wf(),
        ensures
            r == vec_sub(self, rhs),
            r.wf(),
    {
        Vec3(self.0.sub(rhs.0), self.1.sub(rhs.1), self.2.sub(rhs.2))
    }

    /// Componentwise negation.
    pub fn neg(self) -> (r: Vec3)
        requires
            self.wf(),
        ensures
            r == vec_neg(self),
            r.wf(),
    {
        Vec3(self.0.neg(), self.1.neg(), self.2.neg())
    }

    /// Componentwise product.
    pub fn mul(self, rhs: Vec3) -> (r: Vec3)
        requires
            self.wf(),
            rhs.wf(),
        ensures
            r == vec_mul(self, rhs),
            r.wf(),
    {
        Vec3(self.0.mul(rhs.0), self.1.mul(rhs.1), self.2.mul(rhs.2))
    }

    /// The vector scaled by a scalar.
    pub fn scale(self, k: Fx) -> (r: Vec3)
        requires
            self.wf(),
            k.wf(),
        ensures
            r == vec_scale(self, k),
            r.wf(),
    {
        Vec3(self.0.mul(k), self.1.mul(k), self.2.mul(k))
    }

    /// Componentwise quotient.
    pub fn div(self, rhs: Vec3) -> (r: Vec3)
        requires
            self.wf(),
            rhs.wf(),
        ensures
            r == vec_div(self, rhs),
            r.wf(),
    {
        Vec3(self.0.div(rhs.0), self.1.div(rhs.1), self.2.div(rhs.2))
    }

    /// The vector divided by a scalar.
    pub fn div_scalar(self, k: Fx) -> (r: Vec3)
        requires
            self.wf(),
            k.wf(),
        ensures
            r == vec_div_scalar(self, k),
            r.wf(),
    {
        Vec3(self.0.div(k), self.1.div(k), self.2.div(k))
    }
}

} // verus!
