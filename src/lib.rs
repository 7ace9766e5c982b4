//! Integer-valued building blocks of a Monte Carlo path tracer: the axis
//! bookkeeping of axis-aligned rectangles and rotations, texel lookup in an
//! RGB image texture, the permutation tables of Perlin noise, the scan order
//! of the output image, and the constant vectors a vector type provides.

pub mod axis;
pub mod bvh;
pub mod integrator;
pub mod perlin;
pub mod scan;
pub mod texture;
pub mod vector;
