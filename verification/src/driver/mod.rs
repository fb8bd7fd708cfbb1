//! The CUDA driver API as seen from the host.

pub mod context;
pub mod error;
pub mod laws;
pub mod memory;
pub mod module;
pub mod peer;
pub mod stream;
