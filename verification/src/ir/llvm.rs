//! LLVM types with opaque pointers.

use vstd::prelude::*;

verus! {

/// An LLVM type. Integers are signless.
#[derive(Debug, PartialEq, Eq)]
pub enum LlvmType {
    /// `void`.
    Void,
    /// `iN`.
    Integer { width: u32 },
    /// `half`.
    Half,
    /// `float`.
    Float,
    /// `double`.
    Double,
    /// An opaque pointer.
    Pointer { addrspace: u32 },
    /// An unnamed struct.
    Struct { fields: Vec<LlvmType> },
    /// `[size x elem]`.
    Array { elem: Box<LlvmType>, size: u64 },
    /// `<num_elements x elem>`.
    Vector { elem: Box<LlvmType>, num_elements: u32, scalable: bool },
    /// Any other type, known only by how it is displayed.
    Other { display: String },
}

/// What an [`LlvmType`] says.
#[verifier::ext_equal]
pub enum LlvmTy {
    Void,
    Integer { width: u32 },
    Half,
    Float,
    Double,
    Pointer { addrspace: u32 },
    Struct { fields: Seq<LlvmTy> },
    Array { elem: Box<LlvmTy>, size: u64 },
    Vector { elem: Box<LlvmTy>, num_elements: u32, scalable: bool },
    Other { display: Seq<char> },
}

impl View for LlvmType {
    type V = LlvmTy;

    open spec fn view(&self) -> LlvmTy {
        llvm_ty(*self)
    }
}

/// What the type `t` says.
pub open spec fn llvm_ty(t: LlvmType) -> LlvmTy
    decreases t, 0nat,
{
    match t {
        LlvmType::Void => LlvmTy::Void,
        LlvmType::Integer { width } => LlvmTy::Integer { width },
        LlvmType::Half => LlvmTy::Half,
        LlvmType::Float => LlvmTy::Float,
        LlvmType::Double => LlvmTy::Double,
        LlvmType::Pointer { addrspace } => LlvmTy::Pointer { addrspace },
        LlvmType::Struct { fields } => LlvmTy::Struct { fields: llvm_tys(fields@) },
        LlvmType::Array { elem, size } => LlvmTy::Array { elem: Box::new(llvm_ty(*elem)), size },
        LlvmType::Vector { elem, num_elements, scalable } => LlvmTy::Vector {
            elem: Box::new(llvm_ty(*elem)),
            num_elements,
            scalable,
        },
        LlvmType::Other { display } => LlvmTy::Other { display: display@ },
    }
}

/// What a list of types says.
pub open spec fn llvm_tys(types: Seq<LlvmType>) -> Seq<LlvmTy>
    decreases types, 1nat,
{
    Seq::new(
        types.len(),
        |i: int|
            if 0 <= i < types.len() {
                llvm_ty(types[i])
            } else {
                LlvmTy::Void
            },
    )
}

impl Clone for LlvmType {
    fn clone(&self) -> (copy: Self)
        ensures
            copy@ == self@,
        decreases self,
    {
        match self {
            LlvmType::Void => LlvmType::Void,
            LlvmType::Integer { width } => LlvmType::Integer { width: *width },
            LlvmType::Half => LlvmType::Half,
            LlvmType::Float => LlvmType::Float,
            LlvmType::Double => LlvmType::Double,
            LlvmType::Pointer { addrspace } => LlvmType::Pointer { addrspace: *addrspace },
            LlvmType::Struct { fields } => {
                let mut copies: Vec<LlvmType> = Vec::new();
                let mut i: usize = 0;
                while i < fields.len()
                    invariant
                        i <= fields@.len(),
                        decreases_to!(self => fields@),
                        copies@.len() == i,
                        forall|k: int| 0 <= k < i ==> copies@[k]@ == fields@[k]@,
                    decreases fields@.len() - i,
                {
                    copies.push(fields[i].clone());
                    i = i + 1;
                }
                let copy = LlvmType::Struct { fields: copies };
                assert(llvm_tys(copy->fields@) =~= llvm_tys(fields@));
                copy
            },
            LlvmType::Array { elem, size } => LlvmType::Array {
                elem: Box::new((&**elem).clone()),
                size: *size,
            },
            LlvmType::Vector { elem, num_elements, scalable } => LlvmType::Vector {
                elem: Box::new((&**elem).clone()),
                num_elements: *num_elements,
                scalable: *scalable,
            },
            LlvmType::Other { display } => LlvmType::Other { display: display.clone() },
        }
    }
}

impl LlvmType {
    /// Whether the two types are the same.
    pub fn same(&self, other: &LlvmType) -> (yes: bool)
        ensures
            yes == (self@ == other@),
        decreases self,
    {
        match (self, other) {
            (LlvmType::Void, LlvmType::Void) => true,
            (LlvmType::Integer { width: a }, LlvmType::Integer { width: b }) => *a == *b,
            (LlvmType::Half, LlvmType::Half) => true,
            (LlvmType::Float, LlvmType::Float) => true,
            (LlvmType::Double, LlvmType::Double) => true,
            (LlvmType::Pointer { addrspace: a }, LlvmType::Pointer { addrspace: b }) => *a == *b,
            (LlvmType::Struct { fields: a }, LlvmType::Struct { fields: b }) => {
                if a.len() != b.len() {
                    assert(llvm_tys(a@).len() != llvm_tys(b@).len());
                    return false;
                }
                let mut i: usize = 0;
                while i < a.len()
                    invariant
                        i <= a@.len(),
                        a@.len() == b@.len(),
                        decreases_to!(self => a@),
                        self@ is Struct && other@ is Struct,
                        llvm_tys(a@) == self@->fields,
                        llvm_tys(b@) == other@->fields,
                        forall|k: int| 0 <= k < i ==> a@[k]@ == b@[k]@,
                    decreases a@.len() - i,
                {
                    if !a[i].same(&b[i]) {
                        assert(self@->fields[i as int] != other@->fields[i as int]);
                        return false;
                    }
                    i = i + 1;
                }
                assert(self@->fields =~= other@->fields);
                true
            },
            (LlvmType::Array { elem: a, size: n }, LlvmType::Array { elem: b, size: m }) => {
                *n == *m && a.same(b)
            },
            (
                LlvmType::Vector { elem: a, num_elements: n, scalable: s },
                LlvmType::Vector { elem: b, num_elements: m, scalable: t },
            ) => *n == *m && *s == *t && a.same(b),
            (LlvmType::Other { display: a }, LlvmType::Other { display: b }) => *a == *b,
            _ => false,
        }
    }
}

} // verus!
