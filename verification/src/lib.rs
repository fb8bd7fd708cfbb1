//! The verified core of the CUDA-on-Rust toolchain.

pub mod device;
pub mod driver;
pub mod export;
pub mod host;
pub mod importer;
pub mod ir;
pub mod lowering;
pub mod nvvm;
pub mod runtime;
pub mod text;
pub mod text_laws;
