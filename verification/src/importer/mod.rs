//! Importing rustc's MIR into the MIR dialect.

pub mod body;
pub mod slot_spaces;
pub mod space_laws;
pub mod value_laws;
pub mod values;
