//! Printing LLVM IR.

pub mod flow_laws;
pub mod function;
pub mod jump_laws;
pub mod pointer_facts;
pub mod state;
pub mod typed;
pub mod type_laws;
pub mod types;
