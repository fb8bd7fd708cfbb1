//! The NVVM dialect.

pub mod debug;
pub mod laws;
