//! A small ray tracer whose arithmetic is carried out in Q16.16 fixed point,
//! so that every geometric and shading computation has an exact contract.
//!
//! The crate is organised bottom-up: `fixed` holds the scalar type, `vec3`
//! and `ray` the linear algebra, the primitive modules their intersection
//! tests, `material` and `camera` the shading and ray generation, `trace`
//! the recursive integrator, and `tile` the partitioning of the raster into
//! independently rendered rectangles.

pub mod camera;
pub mod color;
pub mod config;
pub mod cube;
pub mod cylinder;
pub mod plane_surf;
pub mod hit;
pub mod material;
pub mod samples;
pub mod sphere;
pub mod tile;
pub mod trace;
pub mod fixed;
pub mod flags;
pub mod ppm;
pub mod ray;
pub mod raytracer;
pub mod vec3;

use vstd::prelude::*;

verus! {

/// Packs three 8-bit channels into a `0RGB` 32-bit pixel, red in the
/// highest occupied byte.
pub fn color(r: u8, g: u8, b: u8) -> (p: u32)
    ensures
        p == ((r as u32) << 16u32 | (g as u32) << 8u32 | (b as u32)),
{
    (r as u32) << 16u32 | (g as u32) << 8u32 | (b as u32)
}

} // verus!
