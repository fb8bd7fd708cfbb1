//! MIR bodies, as far as the importer's pre-scans read them.

use vstd::prelude::*;

verus! {

/// A local of a MIR body.
pub type Local = usize;

/// A Rust type, as far as it matters for address spaces.
pub enum RustTy {
    /// `*const T` or `*mut T`.
    RawPtr(Box<RustTy>),
    /// `&T` or `&mut T`.
    Ref(Box<RustTy>),
    /// A struct, enum or union: its crate, and its name without the path.
    Adt { krate: String, trimmed_name: String },
    /// A function: its path, and its generic arguments as text.
    FnDef { name: String, substs: String },
    /// Any other type.
    Other,
}

/// What a pointer constant points to.
pub enum GlobalAlloc {
    /// A static of this type.
    Static(RustTy),
    /// Anything else.
    Other,
}

/// The value of a constant.
pub enum ConstantKind {
    /// Bytes: whether they are a null pointer, if that can be told, and what
    /// their first pointer points to.
    Allocated { is_null: Option<bool>, first_provenance: Option<GlobalAlloc> },
    /// No bytes.
    ZeroSized,
    /// Anything else.
    Other,
}

/// A constant operand.
pub struct ConstOperand {
    pub ty: RustTy,
    pub kind: ConstantKind,
}

/// A place: a local, or a projection out of one.
pub struct Place {
    pub local: Local,
    pub is_projected: bool,
}

/// An operand.
pub enum Operand {
    Copy(Place),
    Move(Place),
    Constant(ConstOperand),
}

/// The right-hand side of an assignment.
pub enum Rvalue {
    Use(Operand),
    CopyForDeref(Place),
    Other,
}

/// A statement.
pub enum Statement {
    Assign(Place, Rvalue),
    Other,
}

/// The end of a block.
pub enum Terminator {
    Call { func: Operand, destination: Place },
    Other,
}

/// A basic block.
pub struct BasicBlock {
    pub statements: Vec<Statement>,
    pub terminator: Terminator,
}

/// A function body.
pub struct Body {
    pub num_locals: usize,
    pub blocks: Vec<BasicBlock>,
}

} // verus!
