//! Lane-oriented vector algebra over IEEE-754 bit patterns.
//!
//! Every scalar in this crate is carried as its IEEE-754 bit pattern
//! (`u32` for the 32-bit format, `u64` for the 64-bit format), so that
//! sign handling, NaN handling and lane permutations can be stated and
//! checked exactly, bit for bit. Elementary operations that round —
//! multiply, add, square root, the trigonometric calls — come from one
//! software math provider behind a small set of trusted declarations;
//! everything built on top of them is verified.
//!
//! Vectors come in two physical layouts: packed, with exactly as many
//! lanes as logical components, and aligned, sized for a four-lane
//! register — where a three-component value carries one padding lane that
//! is never selectable and never read. The swizzle subsystem is pure lane
//! permutation, field copies that carry bits across untouched, with the
//! identity and composition laws proved once for every permutation.

pub mod arith;
pub mod fbits;
pub mod mat4;
pub mod provider;
pub mod quat;
pub mod scalar;
pub mod scalar64;
pub mod swizzle;
pub mod swizzle2;
pub mod swizzle3;
pub mod swizzle4;
pub mod vec2;
pub mod vec3;
pub mod vec4;
