//! A small 3D transform kernel: vectors, 4x4 matrices, quaternions, a
//! spherical-to-Cartesian converter, matrix builders and scene entities.
//!
//! Every scalar is an IEEE-754 binary32 value carried as its raw `u32` bit
//! pattern, so that the numeric behaviour of the kernel can be stated and
//! checked exactly; see [`float32`] for the model.

pub mod coordinates;
pub mod float32;
pub mod math;
pub mod matrices;
pub mod models;
pub mod primitives;
