//! Elementwise addition (and fused multiply variants) over arrays of IEEE 754
//! binary32 values, carried as `u32` bit patterns, through a fixed-width lane
//! vector abstraction with a uniform full/partial window protocol.

pub mod scalar;
pub mod simd_vec;
pub mod f32x4;
pub mod f32x8;
pub mod f32x16;
pub mod add;
pub mod fmops;
pub mod capability;
