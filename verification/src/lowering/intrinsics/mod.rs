//! Lowering of GPU intrinsics to inline PTX and LLVM intrinsic calls.

pub mod basic;
pub mod clc;
pub mod debug;
pub mod laws;
pub mod rewrite;
pub mod tcgen05;
pub mod tma;
