//! The factor-blend renderer variant: primitives that report an exit
//! distance for refraction, lights with shadow tests, and a Whitted-style
//! deterministic integrator.

pub mod cube;
pub mod cylinder;
pub mod geometry;
pub mod light;
pub mod scene;
