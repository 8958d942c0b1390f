//! Two-dimensional points, and the positions of the vector types of a
//! linear-algebra crate seen as such points.

pub mod glam_support;
pub mod point;
