//! Axis-aligned boxes, intersected by the slab method.
//!
//! Division by a zero direction component saturates to the clamping
//! bound with the sign of the numerator, which plays the role the
//! infinities play in the floating-point slab method: an axis the ray
//! cannot leave contributes an unbounded slab interval.

use crate::fixed::{FX_RAW_BOUND, Fx, fx_add, fx_div, fx_max, fx_min, fx_mul, fx_neg, fx_of, fx_sub};
use crate::hit::{HitRecord, Hittable};
use crate::material::Material;
use crate::ray::{Ray, ray_at};
use crate::vec3::Vec3;
use vstd::prelude::*;

verus! {

/// An axis-aligned box between the corners `min` and `max`; callers keep
/// `min < max` per axis, the test stays total either way.
#[derive(Clone, Copy, Debug, PartialEq, Eq, Structural)]
pub struct Cube {
    pub min: Vec3,
    pub max: Vec3,
    pub material: Material,
}

/// The slab distances along one axis: where the ray meets the low and
/// the high bounding plane.
pub open spec fn cube_axis_pair(lo: Fx, hi: Fx, o: Fx, d: Fx) -> (Fx, Fx) {
    (fx_div(fx_sub(lo, o), d), fx_div(fx_sub(hi, o), d))
}

/// The entry distance: the greatest of `t_min` and each axis' nearer
/// slab distance.
pub open spec fn cube_enter(c: Cube, ray: Ray, t_min: Fx) -> Fx {
    let (tx1, tx2) = cube_axis_pair(c.min.0, c.max.0, ray.origin.0, ray.direction.0);
    let (ty1, ty2) = cube_axis_pair(c.min.1, c.max.1, ray.origin.1, ray.direction.1);
    let (tz1, tz2) = cube_axis_pair(c.min.2, c.max.2, ray.origin.2, ray.direction.2);
    fx_max(fx_max(fx_max(t_min, fx_min(tx1, tx2)), fx_min(ty1, ty2)), fx_min(tz1, tz2))
}

/// The exit distance: the least of `t_max` and each axis' farther slab
/// distance.
pub open spec fn cube_exit(c: Cube, ray: Ray, t_max: Fx) -> Fx {
    let (tx1, tx2) = cube_axis_pair(c.min.0, c.max.0, ray.origin.0, ray.direction.0);
    let (ty1, ty2) = cube_axis_pair(c.min.1, c.max.1, ray.origin.1, ray.direction.1);
    let (tz1, tz2) = cube_axis_pair(c.min.2, c.max.2, ray.origin.2, ray.direction.2);
    fx_min(fx_min(fx_min(t_max, fx_max(tx1, tx2)), fx_max(ty1, ty2)), fx_max(tz1, tz2))
}

/// The face normal at a hit point, chosen by which bounding plane the
/// point lies on, with a one-raw-unit tolerance; the zero vector on a
/// degenerate corner or edge, a documented edge case rather than a fault.
pub open spec fn cube_normal(c: Cube, p: Vec3) -> Vec3 {
    if p.0.v() < fx_add(c.min.0, fx_of(1)).v() {
        Vec3(fx_of(-65536), fx_of(0), fx_of(0))
    } else if p.0.v() > fx_sub(c.max.0, fx_of(1)).v() {
        Vec3(fx_of(65536), fx_of(0), fx_of(0))
    } else if p.1.v() < fx_add(c.min.1, fx_of(1)).v() {
        Vec3(fx_of(0), fx_of(-65536), fx_of(0))
    } else if p.1.v() > fx_sub(c.max.1, fx_of(1)).v() {
        Vec3(fx_of(0), fx_of(65536), fx_of(0))
    } else if p.2.v() < fx_add(c.min.2, fx_of(1)).v() {
        Vec3(fx_of(0), fx_of(0), fx_of(-65536))
    } else if p.2.v() > fx_sub(c.max.2, fx_of(1)).v() {
        Vec3(fx_of(0), fx_of(0), fx_of(65536))
    } else {
        Vec3(fx_of(0), fx_of(0), fx_of(0))
    }
}

/// The hit record the cube reports at distance `t`.
pub open spec fn cube_record(c: Cube, ray: Ray, t: Fx) -> HitRecord {
    HitRecord {
        t,
        point: ray_at(ray, t),
        normal: cube_normal(c, ray_at(ray, t)),
        u: fx_of(65536),
        v: fx_of(65536),
        material: c.material,
    }
}

impl Cube {
    /// Builds a box from two opposite corners.
    pub fn new(min: Vec3, max: Vec3, material: Material) -> (c: Cube)
        ensures
            c == (Cube { min, max, material }),
    {
        Cube { min, max, material }
    }
}

/// Widening the query window cannot lose or worsen a box hit: the entry
/// distance does not depend on the window's end, and the exit only
/// grows with it.
pub proof fn lemma_cube_window_extends(c: Cube, ray: Ray, t_min: Fx, w: Fx, t_max: Fx)
    requires
        w.v() <= t_max.v(),
    ensures
        crate::hit::hit_window_extends(
            c.spec_hit(ray, t_min, w),
            c.spec_hit(ray, t_min, t_max),
            w,
        ),
{
    let enter = cube_enter(c, ray, t_min);
    let exit_w = cube_exit(c, ray, w);
    let exit_full = cube_exit(c, ray, t_max);
    assert(exit_w.v() <= w.v());
    assert(exit_w.v() <= exit_full.v());
    if exit_w.v() > enter.v() {
        assert(exit_full.v() > enter.v());
        assert(enter.v() < w.v());
    } else if exit_full.v() > enter.v() {
        assert(enter.v() >= w.v());
    }
}

/// A ray cast along the first axis, from outside the box toward its
/// interior, hits the box at the computed first-axis entry distance, and
/// the reported normal is the unit vector of the entry face: the low
/// face for a ray travelling in the positive direction. The premises ask
/// only that the window admits the entry distance, that the entry comes
/// before the exit on the fixed-point grid, and that the gap to the box
/// stays within the representable range.
pub proof fn lemma_cube_axis_entry_low(c: Cube, ray: Ray, t_min: Fx, t_max: Fx)
    requires
        c.shape_wf(),
        ray.wf(),
        t_min.wf(),
        t_max.wf(),
        ray.direction.0.v() > 0,
        ray.direction.1.v() == 0,
        ray.direction.2.v() == 0,
        ray.origin.0.v() < c.min.0.v() < c.max.0.v(),
        c.min.1.v() < ray.origin.1.v() < c.max.1.v(),
        c.min.2.v() < ray.origin.2.v() < c.max.2.v(),
        c.min.0.v() - ray.origin.0.v() <= crate::fixed::FX_RAW_BOUND,
        ({
            let (t1, t2) = cube_axis_pair(c.min.0, c.max.0, ray.origin.0, ray.direction.0);
            t_min.v() <= t1.v() < t_max.v() && t1.v() < t2.v()
        }),
    ensures
        ({
            let (t1, t2) = cube_axis_pair(c.min.0, c.max.0, ray.origin.0, ray.direction.0);
            &&& cube_enter(c, ray, t_min) == t1
            &&& c.spec_hit(ray, t_min, t_max) == Some(cube_record(c, ray, t1))
            &&& cube_record(c, ray, t1).normal == Vec3(fx_of(-65536), fx_of(0), fx_of(0))
        }),
{
    let (t1, t2) = cube_axis_pair(c.min.0, c.max.0, ray.origin.0, ray.direction.0);
    let num = fx_sub(c.min.0, ray.origin.0);
    assert(num.v() == c.min.0.v() - ray.origin.0.v());
    crate::fixed::lemma_fx_mul_div_le(num, ray.direction.0);
    let (ty1, ty2) = cube_axis_pair(c.min.1, c.max.1, ray.origin.1, ray.direction.1);
    let (tz1, tz2) = cube_axis_pair(c.min.2, c.max.2, ray.origin.2, ray.direction.2);
    assert(ty1.v() == -FX_RAW_BOUND && ty2.v() == FX_RAW_BOUND);
    assert(tz1.v() == -FX_RAW_BOUND && tz2.v() == FX_RAW_BOUND);
    assert(t1.wf() && t2.wf());
    assert(cube_enter(c, ray, t_min) == t1);
    assert(cube_exit(c, ray, t_max) == fx_min(t_max, t2));
    assert(cube_exit(c, ray, t_max).v() > t1.v());
    let p = ray_at(ray, t1);
    assert(fx_mul(ray.direction.0, t1) == fx_mul(t1, ray.direction.0)) by {
        assert(ray.direction.0.v() * t1.v() == t1.v() * ray.direction.0.v()) by (nonlinear_arith);
    }
    assert(p.0.v() <= c.min.0.v());
    assert(p.0.v() < fx_add(c.min.0, fx_of(1)).v());
    assert(cube_normal(c, p) == Vec3(fx_of(-65536), fx_of(0), fx_of(0)));
}

/// The mirror of `lemma_cube_axis_entry_low`: a ray travelling in the
/// negative first-axis direction from beyond the high face enters there,
/// and the reported normal is the positive first-axis unit vector.
pub proof fn lemma_cube_axis_entry_high(c: Cube, ray: Ray, t_min: Fx, t_max: Fx)
    requires
        c.shape_wf(),
        ray.wf(),
        t_min.wf(),
        t_max.wf(),
        ray.direction.0.v() < 0,
        ray.direction.1.v() == 0,
        ray.direction.2.v() == 0,
        c.min.0.v() < c.max.0.v() < ray.origin.0.v(),
        c.min.1.v() < ray.origin.1.v() < c.max.1.v(),
        c.min.2.v() < ray.origin.2.v() < c.max.2.v(),
        ray.origin.0.v() - c.max.0.v() <= crate::fixed::FX_RAW_BOUND,
        ({
            let (t1, t2) = cube_axis_pair(c.min.0, c.max.0, ray.origin.0, ray.direction.0);
            t_min.v() <= t2.v() < t_max.v() && t2.v() < t1.v()
        }),
    ensures
        ({
            let (t1, t2) = cube_axis_pair(c.min.0, c.max.0, ray.origin.0, ray.direction.0);
            &&& cube_enter(c, ray, t_min) == t2
            &&& c.spec_hit(ray, t_min, t_max) == Some(cube_record(c, ray, t2))
            &&& cube_record(c, ray, t2).normal == Vec3(fx_of(65536), fx_of(0), fx_of(0))
        }),
{
    let (t1, t2) = cube_axis_pair(c.min.0, c.max.0, ray.origin.0, ray.direction.0);
    let num = fx_sub(c.max.0, ray.origin.0);
    let d = ray.direction.0;
    assert(num.v() == c.max.0.v() - ray.origin.0.v() && num.v() < 0);
    crate::fixed::lemma_fx_mul_div_le(fx_neg(num), fx_neg(d));
    assert(fx_div(num, d).v() == fx_div(fx_neg(num), fx_neg(d)).v()) by {
        assert(num.v() * 65536 == -((-num.v()) * 65536)) by (nonlinear_arith);
    }
    assert(fx_mul(d, t2).v() == -(fx_mul(fx_neg(d), fx_div(fx_neg(num), fx_neg(d))).v())) by {
        assert(d.v() * t2.v() == -((-d.v()) * t2.v())) by (nonlinear_arith);
    }
    let (ty1, ty2) = cube_axis_pair(c.min.1, c.max.1, ray.origin.1, ray.direction.1);
    let (tz1, tz2) = cube_axis_pair(c.min.2, c.max.2, ray.origin.2, ray.direction.2);
    assert(ty1.v() == -FX_RAW_BOUND && ty2.v() == FX_RAW_BOUND);
    assert(tz1.v() == -FX_RAW_BOUND && tz2.v() == FX_RAW_BOUND);
    assert(t1.wf() && t2.wf());
    assert(cube_enter(c, ray, t_min) == t2);
    assert(cube_exit(c, ray, t_max) == fx_min(t_max, t1));
    assert(cube_exit(c, ray, t_max).v() > t2.v());
    let p = ray_at(ray, t2);
    assert(fx_mul(ray.direction.0, t2) == fx_mul(t2, ray.direction.0)) by {
        assert(ray.direction.0.v() * t2.v() == t2.v() * ray.direction.0.v()) by (nonlinear_arith);
    }
    assert(p.0.v() >= c.max.0.v());
    assert(p.0.v() > fx_sub(c.max.0, fx_of(1)).v());
    assert(!(p.0.v() < fx_add(c.min.0, fx_of(1)).v()));
    assert(cube_normal(c, p) == Vec3(fx_of(65536), fx_of(0), fx_of(0)));
}

/// As `lemma_cube_axis_entry_low`, for the second axis: the ray rises
/// into the box from below and enters through the low horizontal face.
pub proof fn lemma_cube_axis_entry_low_y(c: Cube, ray: Ray, t_min: Fx, t_max: Fx)
    requires
        c.shape_wf(),
        ray.wf(),
        t_min.wf(),
        t_max.wf(),
        ray.direction.1.v() > 0,
        ray.direction.0.v() == 0,
        ray.direction.2.v() == 0,
        ray.origin.1.v() < c.min.1.v() < c.max.1.v(),
        c.min.0.v() < ray.origin.0.v() < c.max.0.v(),
        c.min.2.v() < ray.origin.2.v() < c.max.2.v(),
        c.min.1.v() - ray.origin.1.v() <= crate::fixed::FX_RAW_BOUND,
        ({
            let (t1, t2) = cube_axis_pair(c.min.1, c.max.1, ray.origin.1, ray.direction.1);
            t_min.v() <= t1.v() < t_max.v() && t1.v() < t2.v()
        }),
    ensures
        ({
            let (t1, t2) = cube_axis_pair(c.min.1, c.max.1, ray.origin.1, ray.direction.1);
            &&& cube_enter(c, ray, t_min) == t1
            &&& c.spec_hit(ray, t_min, t_max) == Some(cube_record(c, ray, t1))
            &&& cube_record(c, ray, t1).normal == Vec3(fx_of(0), fx_of(-65536), fx_of(0))
        }),
{
    let (t1, t2) = cube_axis_pair(c.min.1, c.max.1, ray.origin.1, ray.direction.1);
    let num = fx_sub(c.min.1, ray.origin.1);
    crate::fixed::lemma_fx_mul_div_le(num, ray.direction.1);
    let (tx1, tx2) = cube_axis_pair(c.min.0, c.max.0, ray.origin.0, ray.direction.0);
    let (tz1, tz2) = cube_axis_pair(c.min.2, c.max.2, ray.origin.2, ray.direction.2);
    assert(tx1.v() == -FX_RAW_BOUND && tx2.v() == FX_RAW_BOUND);
    assert(tz1.v() == -FX_RAW_BOUND && tz2.v() == FX_RAW_BOUND);
    assert(t1.wf() && t2.wf());
    assert(cube_enter(c, ray, t_min) == t1);
    assert(cube_exit(c, ray, t_max).v() > t1.v());
    let p = ray_at(ray, t1);
    crate::fixed::lemma_fx_mul_zero(ray.direction.0, t1);
    crate::fixed::lemma_fx_mul_zero(ray.direction.2, t1);
    assert(p.0.v() == ray.origin.0.v() && p.2.v() == ray.origin.2.v());
    assert(fx_mul(ray.direction.1, t1) == fx_mul(t1, ray.direction.1)) by {
        assert(ray.direction.1.v() * t1.v() == t1.v() * ray.direction.1.v()) by (nonlinear_arith);
    }
    assert(p.1.v() <= c.min.1.v());
    assert(cube_normal(c, p) == Vec3(fx_of(0), fx_of(-65536), fx_of(0)));
}

/// As `lemma_cube_axis_entry_low`, for the third axis: the ray comes in
/// along the depth axis and enters through the low depth face.
pub proof fn lemma_cube_axis_entry_low_z(c: Cube, ray: Ray, t_min: Fx, t_max: Fx)
    requires
        c.shape_wf(),
        ray.wf(),
        t_min.wf(),
        t_max.wf(),
        ray.direction.2.v() > 0,
        ray.direction.0.v() == 0,
        ray.direction.1.v() == 0,
        ray.origin.2.v() < c.min.2.v() < c.max.2.v(),
        c.min.0.v() < ray.origin.0.v() < c.max.0.v(),
        c.min.1.v() < ray.origin.1.v() < c.max.1.v(),
        c.min.2.v() - ray.origin.2.v() <= crate::fixed::FX_RAW_BOUND,
        ({
            let (t1, t2) = cube_axis_pair(c.min.2, c.max.2, ray.origin.2, ray.direction.2);
            t_min.v() <= t1.v() < t_max.v() && t1.v() < t2.v()
        }),
    ensures
        ({
            let (t1, t2) = cube_axis_pair(c.min.2, c.max.2, ray.origin.2, ray.direction.2);
            &&& cube_enter(c, ray, t_min) == t1
            &&& c.spec_hit(ray, t_min, t_max) == Some(cube_record(c, ray, t1))
            &&& cube_record(c, ray, t1).normal == Vec3(fx_of(0), fx_of(0), fx_of(-65536))
        }),
{
    let (t1, t2) = cube_axis_pair(c.min.2, c.max.2, ray.origin.2, ray.direction.2);
    let num = fx_sub(c.min.2, ray.origin.2);
    crate::fixed::lemma_fx_mul_div_le(num, ray.direction.2);
    let (tx1, tx2) = cube_axis_pair(c.min.0, c.max.0, ray.origin.0, ray.direction.0);
    let (ty1, ty2) = cube_axis_pair(c.min.1, c.max.1, ray.origin.1, ray.direction.1);
    assert(tx1.v() == -FX_RAW_BOUND && tx2.v() == FX_RAW_BOUND);
    assert(ty1.v() == -FX_RAW_BOUND && ty2.v() == FX_RAW_BOUND);
    assert(t1.wf() && t2.wf());
    assert(cube_enter(c, ray, t_min) == t1);
    assert(cube_exit(c, ray, t_max).v() > t1.v());
    let p = ray_at(ray, t1);
    crate::fixed::lemma_fx_mul_zero(ray.direction.0, t1);
    crate::fixed::lemma_fx_mul_zero(ray.direction.1, t1);
    assert(p.0.v() == ray.origin.0.v() && p.1.v() == ray.origin.1.v());
    assert(fx_mul(ray.direction.2, t1) == fx_mul(t1, ray.direction.2)) by {
        assert(ray.direction.2.v() * t1.v() == t1.v() * ray.direction.2.v()) by (nonlinear_arith);
    }
    assert(p.2.v() <= c.min.2.v());
    assert(cube_normal(c, p) == Vec3(fx_of(0), fx_of(0), fx_of(-65536)));
}

/// As `lemma_cube_axis_entry_high`, for the second axis: the ray falls
/// into the box from above and enters through the high horizontal face.
pub proof fn lemma_cube_axis_entry_high_y(c: Cube, ray: Ray, t_min: Fx, t_max: Fx)
    requires
        c.shape_wf(),
        ray.wf(),
        t_min.wf(),
        t_max.wf(),
        ray.direction.1.v() < 0,
        ray.direction.0.v() == 0,
        ray.direction.2.v() == 0,
        c.min.1.v() < c.max.1.v() < ray.origin.1.v(),
        c.min.0.v() < ray.origin.0.v() < c.max.0.v(),
        c.min.2.v() < ray.origin.2.v() < c.max.2.v(),
        ray.origin.1.v() - c.max.1.v() <= crate::fixed::FX_RAW_BOUND,
        ({
            let (t1, t2) = cube_axis_pair(c.min.1, c.max.1, ray.origin.1, ray.direction.1);
            t_min.v() <= t2.v() < t_max.v() && t2.v() < t1.v()
        }),
    ensures
        ({
            let (t1, t2) = cube_axis_pair(c.min.1, c.max.1, ray.origin.1, ray.direction.1);
            &&& cube_enter(c, ray, t_min) == t2
            &&& c.spec_hit(ray, t_min, t_max) == Some(cube_record(c, ray, t2))
            &&& cube_record(c, ray, t2).normal == Vec3(fx_of(0), fx_of(65536), fx_of(0))
        }),
{
    let (t1, t2) = cube_axis_pair(c.min.1, c.max.1, ray.origin.1, ray.direction.1);
    let num = fx_sub(c.max.1, ray.origin.1);
    let d = ray.direction.1;
    assert(num.v() == c.max.1.v() - ray.origin.1.v() && num.v() < 0);
    crate::fixed::lemma_fx_mul_div_le(fx_neg(num), fx_neg(d));
    assert(fx_div(num, d).v() == fx_div(fx_neg(num), fx_neg(d)).v()) by {
        assert(num.v() * 65536 == -((-num.v()) * 65536)) by (nonlinear_arith);
    }
    assert(fx_mul(d, t2).v() == -(fx_mul(fx_neg(d), fx_div(fx_neg(num), fx_neg(d))).v())) by {
        assert(d.v() * t2.v() == -((-d.v()) * t2.v())) by (nonlinear_arith);
    }
    let (tx1, tx2) = cube_axis_pair(c.min.0, c.max.0, ray.origin.0, ray.direction.0);
    let (tz1, tz2) = cube_axis_pair(c.min.2, c.max.2, ray.origin.2, ray.direction.2);
    assert(tx1.v() == -FX_RAW_BOUND && tx2.v() == FX_RAW_BOUND);
    assert(tz1.v() == -FX_RAW_BOUND && tz2.v() == FX_RAW_BOUND);
    assert(t1.wf() && t2.wf());
    assert(cube_enter(c, ray, t_min) == t2);
    assert(cube_exit(c, ray, t_max).v() > t2.v());
    let p = ray_at(ray, t2);
    crate::fixed::lemma_fx_mul_zero(ray.direction.0, t2);
    crate::fixed::lemma_fx_mul_zero(ray.direction.2, t2);
    assert(p.0.v() == ray.origin.0.v() && p.2.v() == ray.origin.2.v());
    assert(fx_mul(ray.direction.1, t2) == fx_mul(t2, ray.direction.1)) by {
        assert(ray.direction.1.v() * t2.v() == t2.v() * ray.direction.1.v()) by (nonlinear_arith);
    }
    assert(p.1.v() >= c.max.1.v());
    assert(cube_normal(c, p) == Vec3(fx_of(0), fx_of(65536), fx_of(0)));
}

/// As `lemma_cube_axis_entry_high`, for the third axis: the ray comes
/// back along the depth axis and enters through the high depth face.
pub proof fn lemma_cube_axis_entry_high_z(c: Cube, ray: Ray, t_min: Fx, t_max: Fx)
    requires
        c.shape_wf(),
        ray.wf(),
        t_min.wf(),
        t_max.wf(),
        ray.direction.2.v() < 0,
        ray.direction.0.v() == 0,
        ray.direction.1.v() == 0,
        c.min.2.v() < c.max.2.v() < ray.origin.2.v(),
        c.min.0.v() < ray.origin.0.v() < c.max.0.v(),
        c.min.1.v() < ray.origin.1.v() < c.max.1.v(),
        ray.origin.2.v() - c.max.2.v() <= crate::fixed::FX_RAW_BOUND,
        ({
            let (t1, t2) = cube_axis_pair(c.min.2, c.max.2, ray.origin.2, ray.direction.2);
            t_min.v() <= t2.v() < t_max.v() && t2.v() < t1.v()
        }),
    ensures
        ({
            let (t1, t2) = cube_axis_pair(c.min.2, c.max.2, ray.origin.2, ray.direction.2);
            &&& cube_enter(c, ray, t_min) == t2
            &&& c.spec_hit(ray, t_min, t_max) == Some(cube_record(c, ray, t2))
            &&& cube_record(c, ray, t2).normal == Vec3(fx_of(0), fx_of(0), fx_of(65536))
        }),
{
    let (t1, t2) = cube_axis_pair(c.min.2, c.max.2, ray.origin.2, ray.direction.2);
    let num = fx_sub(c.max.2, ray.origin.2);
    let d = ray.direction.2;
    assert(num.v() == c.max.2.v() - ray.origin.2.v() && num.v() < 0);
    crate::fixed::lemma_fx_mul_div_le(fx_neg(num), fx_neg(d));
    assert(fx_div(num, d).v() == fx_div(fx_neg(num), fx_neg(d)).v()) by {
        assert(num.v() * 65536 == -((-num.v()) * 65536)) by (nonlinear_arith);
    }
    assert(fx_mul(d, t2).v() == -(fx_mul(fx_neg(d), fx_div(fx_neg(num), fx_neg(d))).v())) by {
        assert(d.v() * t2.v() == -((-d.v()) * t2.v())) by (nonlinear_arith);
    }
    let (tx1, tx2) = cube_axis_pair(c.min.0, c.max.0, ray.origin.0, ray.direction.0);
    let (ty1, ty2) = cube_axis_pair(c.min.1, c.max.1, ray.origin.1, ray.direction.1);
    assert(tx1.v() == -FX_RAW_BOUND && tx2.v() == FX_RAW_BOUND);
    assert(ty1.v() == -FX_RAW_BOUND && ty2.v() == FX_RAW_BOUND);
    assert(t1.wf() && t2.wf());
    assert(cube_enter(c, ray, t_min) == t2);
    assert(cube_exit(c, ray, t_max).v() > t2.v());
    let p = ray_at(ray, t2);
    crate::fixed::lemma_fx_mul_zero(ray.direction.0, t2);
    crate::fixed::lemma_fx_mul_zero(ray.direction.1, t2);
    assert(p.0.v() == ray.origin.0.v() && p.1.v() == ray.origin.1.v());
    assert(fx_mul(ray.direction.2, t2) == fx_mul(t2, ray.direction.2)) by {
        assert(ray.direction.2.v() * t2.v() == t2.v() * ray.direction.2.v()) by (nonlinear_arith);
    }
    assert(p.2.v() >= c.max.2.v());
    assert(cube_normal(c, p) == Vec3(fx_of(0), fx_of(0), fx_of(65536)));
}

impl Hittable for Cube {
    open spec fn spec_hit(&self, ray: Ray, t_min: Fx, t_max: Fx) -> Option<HitRecord> {
        let enter = cube_enter(*self, ray, t_min);
        let exit = cube_exit(*self, ray, t_max);
        if exit.v() > enter.v() {
            Some(cube_record(*self, ray, enter))
        } else {
            None
        }
    }

    open spec fn shape_wf(&self) -> bool {
        self.min.wf() && self.max.wf() && self.material.wf()
    }

    fn hit(&self, r: &Ray, t_min: Fx, t_max: Fx) -> (res: Option<HitRecord>) {
        let tx1 = self.min.x().sub(r.origin.x()).div(r.direction.x());
        let tx2 = self.max.x().sub(r.origin.x()).div(r.direction.x());
        let ty1 = self.min.y().sub(r.origin.y()).div(r.direction.y());
        let ty2 = self.max.y().sub(r.origin.y()).div(r.direction.y());
        let tz1 = self.min.z().sub(r.origin.z()).div(r.direction.z());
        let tz2 = self.max.z().sub(r.origin.z()).div(r.direction.z());
        let enter = t_min.max(tx1.min(tx2)).max(ty1.min(ty2)).max(tz1.min(tz2));
        let exit = t_max.min(tx1.max(tx2)).min(ty1.max(ty2)).min(tz1.max(tz2));
        if exit.gt(enter) {
            let eps = Fx { raw: 1 };
            let p = r.at(enter);
            let normal = if p.x().lt(self.min.x().add(eps)) {
                Vec3::new(Fx::one().neg(), Fx::zero(), Fx::zero())
            } else if p.x().gt(self.max.x().sub(eps)) {
                Vec3::new(Fx::one(), Fx::zero(), Fx::zero())
            } else if p.y().lt(self.min.y().add(eps)) {
                Vec3::new(Fx::zero(), Fx::one().neg(), Fx::zero())
            } else if p.y().gt(self.max.y().sub(eps)) {
                Vec3::new(Fx::zero(), Fx::one(), Fx::zero())
            } else if p.z().lt(self.min.z().add(eps)) {
                Vec3::new(Fx::zero(), Fx::zero(), Fx::one().neg())
            } else if p.z().gt(self.max.z().sub(eps)) {
                Vec3::new(Fx::zero(), Fx::zero(), Fx::one())
            } else {
                Vec3::zero()
            };
            Some(
                HitRecord {
                    t: enter,
                    point: p,
                    normal,
                    u: Fx::one(),
                    v: Fx::one(),
                    material: self.material,
                },
            )
        } else {
            None
        }
    }
}

} // verus!
