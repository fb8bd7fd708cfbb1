//! The two type systems the compiler works between, and the names of symbols.

pub mod identifier;
pub mod llvm;
pub mod mir;
