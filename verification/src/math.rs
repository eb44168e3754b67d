//! Vector, matrix, and transform primitives over fixed-point scalars.

pub mod mat;
pub mod transform;
pub mod vec;
