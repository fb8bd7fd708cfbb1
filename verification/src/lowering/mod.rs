//! Lowering from the MIR dialect to the LLVM dialect.

pub mod intrinsics;
pub mod layout;
pub mod layout_laws;
pub mod slot_laws;
pub mod type_laws;
pub mod types;
