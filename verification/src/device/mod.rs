//! What device code sees: thread indices, disjoint slices, constant memory,
//! atomics, fences and debugging intrinsics.

pub mod atomic;
pub mod atomic_laws;
pub mod constant;
pub mod debug;
pub mod disjoint;
pub mod fence;
pub mod laws;
pub mod thread;
