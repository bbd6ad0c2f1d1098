//! The integer core of a Monte Carlo path tracer: the hash-based random
//! generator and its seeding, the bit patterns behind its uniform floats, the
//! control of the per-path bounce loop, the layout of the output buffer, and
//! the plain-text PPM encoding of the final image.

pub mod bvh;
pub mod data;
pub mod integrator;
pub mod kernel;
pub mod material;
pub mod ppm;
pub mod rand;
