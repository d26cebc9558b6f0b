//! Host-side orchestration of a GPU compute raytracer: a registry of byte
//! buffers bound to fixed slots, the per-frame snapshot handed to the render
//! stage, the binding set built from that snapshot, and the state machine that
//! picks the compute kernel to dispatch.
//!
//! Floating-point values never appear here as floats. A 32-bit float is
//! carried as the `u32` that holds its bit pattern, and a vector or matrix as
//! an array of such words.

pub mod bind_group;
pub mod buffers;
pub mod camera;
pub mod descriptors;
pub mod float_bits;
pub mod frame;
pub mod memory;
pub mod pipeline;
pub mod scene;
pub mod window;
