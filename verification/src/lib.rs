//! Shape-generic vector-space arithmetic over nested fixed-size arrays.
//!
//! A scalar leaf type carries the arithmetic; fixed-size arrays of any
//! element type that already participates inherit every operation
//! recursively, at any nesting depth.

pub mod composite;
pub mod scalar_i64;
pub mod vector_space;
