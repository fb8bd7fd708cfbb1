//! Types of values for the typed-pointer syntax of older NVVM dialects.
//!
//! The IR has opaque pointers. A [`LegacyType`] says of a value what typed
//! syntax needs to know; facts about one value are merged.

use std::collections::HashMap;
use vstd::hash_map::StringHashMap;
use vstd::prelude::*;

use crate::ir::identifier::identifier;
use crate::ir::llvm::{llvm_tys, LlvmTy, LlvmType};
use crate::text::{decimal, push_decimal};

verus! {

/// An LLVM type that is no aggregate and no pointer.
#[derive(Debug, PartialEq, Eq)]
pub enum ScalarType {
    Void,
    Integer { width: u32 },
    Half,
    Float,
    Double,
    /// Any other type, known only by how it is displayed.
    Other { display: String },
}

/// What a [`ScalarType`] says.
#[verifier::ext_equal]
pub enum ScalarTy {
    Void,
    Integer { width: u32 },
    Half,
    Float,
    Double,
    Other { display: Seq<char> },
}

impl View for ScalarType {
    type V = ScalarTy;

    open spec fn view(&self) -> ScalarTy {
        match self {
            ScalarType::Void => ScalarTy::Void,
            ScalarType::Integer { width } => ScalarTy::Integer { width: *width },
            ScalarType::Half => ScalarTy::Half,
            ScalarType::Float => ScalarTy::Float,
            ScalarType::Double => ScalarTy::Double,
            ScalarType::Other { display } => ScalarTy::Other { display: display@ },
        }
    }
}

/// What is known of the type of a value.
#[derive(Debug, PartialEq, Eq)]
pub enum LegacyType {
    /// A type that is no aggregate and no pointer.
    Scalar(ScalarType),
    /// A typed pointer; without a pointee, only the address space is known.
    Pointer { pointee: Option<Box<LegacyType>>, addrspace: u32 },
    Struct(Vec<LegacyType>),
    Array { elem: Box<LegacyType>, size: u64 },
    Vector { elem: Box<LegacyType>, num_elements: u32, scalable: bool },
}

/// What a [`LegacyType`] says.
#[verifier::ext_equal]
pub enum LegacyTy {
    Scalar(ScalarTy),
    Pointer { pointee: Option<Box<LegacyTy>>, addrspace: u32 },
    Struct(Seq<LegacyTy>),
    Array { elem: Box<LegacyTy>, size: u64 },
    Vector { elem: Box<LegacyTy>, num_elements: u32, scalable: bool },
}

impl View for LegacyType {
    type V = LegacyTy;

    open spec fn view(&self) -> LegacyTy {
        legacy_ty(*self)
    }
}

/// What the type `t` says.
pub open spec fn legacy_ty(t: LegacyType) -> LegacyTy
    decreases t, 0nat,
{
    match t {
        LegacyType::Scalar(s) => LegacyTy::Scalar(s@),
        LegacyType::Pointer { pointee, addrspace } => LegacyTy::Pointer {
            pointee: match pointee {
                Some(p) => Some(Box::new(legacy_ty(*p))),
                None => None,
            },
            addrspace,
        },
        LegacyType::Struct(fields) => LegacyTy::Struct(legacy_tys(fields@)),
        LegacyType::Array { elem, size } => LegacyTy::Array { elem: Box::new(legacy_ty(*elem)), size },
        LegacyType::Vector { elem, num_elements, scalable } => LegacyTy::Vector {
            elem: Box::new(legacy_ty(*elem)),
            num_elements,
            scalable,
        },
    }
}

/// What a list of types says.
pub open spec fn legacy_tys(types: Seq<LegacyType>) -> Seq<LegacyTy>
    decreases types, 1nat,
{
    Seq::new(
        types.len(),
        |i: int|
            if 0 <= i < types.len() {
                legacy_ty(types[i])
            } else {
                LegacyTy::Scalar(ScalarTy::Void)
            },
    )
}

impl Clone for ScalarType {
    fn clone(&self) -> (copy: Self)
        ensures
            copy@ == self@,
    {
        match self {
            ScalarType::Void => ScalarType::Void,
            ScalarType::Integer { width } => ScalarType::Integer { width: *width },
            ScalarType::Half => ScalarType::Half,
            ScalarType::Float => ScalarType::Float,
            ScalarType::Double => ScalarType::Double,
            ScalarType::Other { display } => ScalarType::Other { display: display.clone() },
        }
    }
}

impl ScalarType {
    /// Whether the two types are the same.
    pub fn same(&self, other: &ScalarType) -> (yes: bool)
        ensures
            yes == (self@ == other@),
    {
        match (self, other) {
            (ScalarType::Void, ScalarType::Void) => true,
            (ScalarType::Integer { width: a }, ScalarType::Integer { width: b }) => *a == *b,
            (ScalarType::Half, ScalarType::Half) => true,
            (ScalarType::Float, ScalarType::Float) => true,
            (ScalarType::Double, ScalarType::Double) => true,
            (ScalarType::Other { display: a }, ScalarType::Other { display: b }) => *a == *b,
            _ => false,
        }
    }
}

/// A copy of a list of types.
fn clone_legacy(types: &Vec<LegacyType>) -> (copies: Vec<LegacyType>)
    ensures
        legacy_tys(copies@) == legacy_tys(types@),
        copies@.len() == types@.len(),
    decreases types@, 1nat,
{
    let mut copies: Vec<LegacyType> = Vec::new();
    let mut i: usize = 0;
    while i < types.len()
        invariant
            i <= types@.len(),
            copies@.len() == i,
            forall|k: int| 0 <= k < i ==> legacy_ty(copies@[k]) == legacy_ty(types@[k]),
        decreases types@.len() - i,
    {
        copies.push(types[i].clone());
        i = i + 1;
    }
    assert(legacy_tys(copies@) =~= legacy_tys(types@));
    copies
}

impl Clone for LegacyType {
    fn clone(&self) -> (copy: Self)
        ensures
            copy@ == self@,
        decreases self, 0nat,
    {
        match self {
            LegacyType::Scalar(s) => LegacyType::Scalar(s.clone()),
            LegacyType::Pointer { pointee, addrspace } => LegacyType::Pointer {
                pointee: match pointee {
                    Some(p) => Some(Box::new((&**p).clone())),
                    None => None,
                },
                addrspace: *addrspace,
            },
            LegacyType::Struct(fields) => LegacyType::Struct(clone_legacy(fields)),
            LegacyType::Array { elem, size } => LegacyType::Array {
                elem: Box::new((&**elem).clone()),
                size: *size,
            },
            LegacyType::Vector { elem, num_elements, scalable } => LegacyType::Vector {
                elem: Box::new((&**elem).clone()),
                num_elements: *num_elements,
                scalable: *scalable,
            },
        }
    }
}

// ---------------------------------------------------------------------------
// Facts
// ---------------------------------------------------------------------------

/// What an LLVM type alone says of a value: nothing of a pointer's pointee.
pub open spec fn from_llvm(ty: LlvmTy) -> LegacyTy
    decreases ty, 0nat,
{
    match ty {
        LlvmTy::Void => LegacyTy::Scalar(ScalarTy::Void),
        LlvmTy::Integer { width } => LegacyTy::Scalar(ScalarTy::Integer { width }),
        LlvmTy::Half => LegacyTy::Scalar(ScalarTy::Half),
        LlvmTy::Float => LegacyTy::Scalar(ScalarTy::Float),
        LlvmTy::Double => LegacyTy::Scalar(ScalarTy::Double),
        LlvmTy::Pointer { addrspace } => LegacyTy::Pointer { pointee: None, addrspace },
        LlvmTy::Struct { fields } => LegacyTy::Struct(from_llvms(fields)),
        LlvmTy::Array { elem, size } => LegacyTy::Array { elem: Box::new(from_llvm(*elem)), size },
        LlvmTy::Vector { elem, num_elements, scalable } => LegacyTy::Vector {
            elem: Box::new(from_llvm(*elem)),
            num_elements,
            scalable,
        },
        LlvmTy::Other { display } => LegacyTy::Scalar(ScalarTy::Other { display }),
    }
}

/// [`from_llvm`] of every type of the list.
pub open spec fn from_llvms(types: Seq<LlvmTy>) -> Seq<LegacyTy>
    decreases types, 1nat,
{
    Seq::new(
        types.len(),
        |i: int|
            if 0 <= i < types.len() {
                from_llvm(types[i])
            } else {
                LegacyTy::Scalar(ScalarTy::Void)
            },
    )
}

/// A pointer to `pointee`.
pub open spec fn pointer_ty(pointee: LegacyTy, addrspace: u32) -> LegacyTy {
    LegacyTy::Pointer { pointee: Some(Box::new(pointee)), addrspace }
}

/// A pointer of which only the address space is known.
pub open spec fn unknown_pointer_ty(addrspace: u32) -> LegacyTy {
    LegacyTy::Pointer { pointee: None, addrspace }
}

/// `t`, in another address space if it is a pointer.
pub open spec fn in_addrspace(t: LegacyTy, addrspace: u32) -> LegacyTy {
    match t {
        LegacyTy::Pointer { pointee, .. } => LegacyTy::Pointer { pointee, addrspace },
        _ => t,
    }
}

/// The two facts about one value as one. Where they contradict each other, the
/// older fact `a` stays.
pub open spec fn merged(a: LegacyTy, b: LegacyTy) -> LegacyTy
    decreases a, 0nat,
{
    match (a, b) {
        (
            LegacyTy::Pointer { pointee: pa, addrspace: sa },
            LegacyTy::Pointer { pointee: pb, addrspace: sb },
        ) => if sa == sb {
            LegacyTy::Pointer {
                pointee: match (pa, pb) {
                    (Some(x), Some(y)) => Some(Box::new(merged(*x, *y))),
                    (Some(x), None) => Some(x),
                    (None, known) => known,
                },
                addrspace: sa,
            }
        } else {
            a
        },
        (LegacyTy::Struct(fa), LegacyTy::Struct(fb)) => if fa.len() == fb.len() {
            LegacyTy::Struct(all_merged(fa, fb))
        } else {
            a
        },
        (
            LegacyTy::Array { elem: ea, size: na },
            LegacyTy::Array { elem: eb, size: nb },
        ) => if na == nb {
            LegacyTy::Array { elem: Box::new(merged(*ea, *eb)), size: na }
        } else {
            a
        },
        (
            LegacyTy::Vector { elem: ea, num_elements: na, scalable: ca },
            LegacyTy::Vector { elem: eb, num_elements: nb, scalable: cb },
        ) => if na == nb && ca == cb {
            LegacyTy::Vector { elem: Box::new(merged(*ea, *eb)), num_elements: na, scalable: ca }
        } else {
            a
        },
        _ => a,
    }
}

/// [`merged`] of each pair.
pub open spec fn all_merged(a: Seq<LegacyTy>, b: Seq<LegacyTy>) -> Seq<LegacyTy>
    decreases a, 1nat,
{
    Seq::new(
        a.len(),
        |i: int|
            if 0 <= i < a.len() {
                merged(a[i], b[i])
            } else {
                a[i]
            },
    )
}

/// What is known of the part of an aggregate that the indices lead to.
pub open spec fn indexed_ty(t: LegacyTy, indices: Seq<u32>) -> Option<LegacyTy>
    decreases indices.len(),
{
    if indices.len() == 0 {
        Some(t)
    } else {
        match t {
            LegacyTy::Struct(fields) => if indices[0] < fields.len() {
                indexed_ty(fields[indices[0] as int], indices.drop_first())
            } else {
                None
            },
            LegacyTy::Array { elem, size } => if indices[0] < size {
                indexed_ty(*elem, indices.drop_first())
            } else {
                None
            },
            _ => None,
        }
    }
}

/// `t` with the part that the indices lead to replaced by `value`.
pub open spec fn with_indexed_ty(t: LegacyTy, indices: Seq<u32>, value: LegacyTy) -> Option<
    LegacyTy,
>
    decreases indices.len(),
{
    if indices.len() == 0 {
        Some(value)
    } else {
        match t {
            LegacyTy::Struct(fields) => if indices[0] < fields.len() {
                match with_indexed_ty(fields[indices[0] as int], indices.drop_first(), value) {
                    Some(field) => Some(LegacyTy::Struct(fields.update(indices[0] as int, field))),
                    None => None,
                }
            } else {
                None
            },
            LegacyTy::Array { elem, size } => if indices[0] < size {
                match with_indexed_ty(*elem, indices.drop_first(), value) {
                    Some(e) => Some(LegacyTy::Array { elem: Box::new(e), size }),
                    None => None,
                }
            } else {
                None
            },
            _ => None,
        }
    }
}

/// Where a pointer computation with `indices` indices into `t` arrives, from
/// index `pos` on. A struct needs a constant index in range to go on; arrays
/// and vectors take any.
pub open spec fn gep_ty(
    t: LegacyTy,
    pos: nat,
    indices: nat,
    const_indices: Seq<Option<u32>>,
) -> LegacyTy
    decreases indices - pos,
{
    if pos >= indices {
        t
    } else {
        match t {
            LegacyTy::Struct(fields) => if pos < const_indices.len() && const_indices[pos as int]
                is Some && const_indices[pos as int]->0 < fields.len() {
                gep_ty(
                    fields[const_indices[pos as int]->0 as int],
                    pos + 1,
                    indices,
                    const_indices,
                )
            } else {
                t
            },
            LegacyTy::Array { elem, .. } => gep_ty(*elem, pos + 1, indices, const_indices),
            LegacyTy::Vector { elem, .. } => gep_ty(*elem, pos + 1, indices, const_indices),
            _ => t,
        }
    }
}

impl LegacyType {
    /// Whether the two types are the same.
    pub fn same(&self, other: &LegacyType) -> (yes: bool)
        ensures
            yes == (self@ == other@),
        decreases self,
    {
        match (self, other) {
            (LegacyType::Scalar(a), LegacyType::Scalar(b)) => a.same(b),
            (
                LegacyType::Pointer { pointee: a, addrspace: s },
                LegacyType::Pointer { pointee: b, addrspace: t },
            ) => *s == *t && match (a, b) {
                (Some(x), Some(y)) => x.same(y),
                (None, None) => true,
                _ => false,
            },
            (LegacyType::Struct(a), LegacyType::Struct(b)) => {
                let ghost (va, vb) = (legacy_tys(a@), legacy_tys(b@));
                assert(va.len() == a@.len() && vb.len() == b@.len());
                if a.len() != b.len() {
                    return false;
                }
                let mut i: usize = 0;
                while i < a.len()
                    invariant
                        i <= a@.len(),
                        a@.len() == b@.len(),
                        decreases_to!(self => a@),
                        va == legacy_tys(a@),
                        vb == legacy_tys(b@),
                        self@ == LegacyTy::Struct(va),
                        other@ == LegacyTy::Struct(vb),
                        forall|k: int| 0 <= k < i ==> va[k] == vb[k],
                    decreases a@.len() - i,
                {
                    if !a[i].same(&b[i]) {
                        assert(va[i as int] != vb[i as int]);
                        return false;
                    }
                    i = i + 1;
                }
                assert(va =~= vb);
                true
            },
            (LegacyType::Array { elem: a, size: n }, LegacyType::Array { elem: b, size: m }) => {
                *n == *m && a.same(b)
            },
            (
                LegacyType::Vector { elem: a, num_elements: n, scalable: s },
                LegacyType::Vector { elem: b, num_elements: m, scalable: t },
            ) => *n == *m && *s == *t && a.same(b),
            _ => false,
        }
    }

    /// What the LLVM type `ty` alone says of a value.
    pub fn from_llvm_type(ty: &LlvmType) -> (t: Self)
        ensures
            t@ == from_llvm(ty@),
        decreases ty,
    {
        match ty {
            LlvmType::Void => LegacyType::Scalar(ScalarType::Void),
            LlvmType::Integer { width } => LegacyType::Scalar(ScalarType::Integer { width: *width }),
            LlvmType::Half => LegacyType::Scalar(ScalarType::Half),
            LlvmType::Float => LegacyType::Scalar(ScalarType::Float),
            LlvmType::Double => LegacyType::Scalar(ScalarType::Double),
            LlvmType::Pointer { addrspace } => LegacyType::Pointer {
                pointee: None,
                addrspace: *addrspace,
            },
            LlvmType::Struct { fields } => {
                let ghost tys = llvm_tys(fields@);
                assert(ty@ == (LlvmTy::Struct { fields: tys }));
                let mut facts: Vec<LegacyType> = Vec::new();
                let mut i: usize = 0;
                while i < fields.len()
                    invariant
                        i <= fields@.len(),
                        decreases_to!(ty => fields@),
                        tys == llvm_tys(fields@),
                        facts@.len() == i,
                        forall|k: int| 0 <= k < i ==> legacy_ty(facts@[k]) == from_llvm(tys[k]),
                    decreases fields@.len() - i,
                {
                    facts.push(LegacyType::from_llvm_type(&fields[i]));
                    i = i + 1;
                }
                assert(legacy_tys(facts@) =~= from_llvms(tys));
                LegacyType::Struct(facts)
            },
            LlvmType::Array { elem, size } => LegacyType::Array {
                elem: Box::new(LegacyType::from_llvm_type(elem)),
                size: *size,
            },
            LlvmType::Vector { elem, num_elements, scalable } => LegacyType::Vector {
                elem: Box::new(LegacyType::from_llvm_type(elem)),
                num_elements: *num_elements,
                scalable: *scalable,
            },
            LlvmType::Other { display } => LegacyType::Scalar(
                ScalarType::Other { display: display.clone() },
            ),
        }
    }

    /// A pointer to a value of the LLVM type `pointee`.
    pub fn pointer_to_llvm(pointee: &LlvmType, addrspace: u32) -> (t: Self)
        ensures
            t@ == pointer_ty(from_llvm(pointee@), addrspace),
    {
        LegacyType::pointer_to(LegacyType::from_llvm_type(pointee), addrspace)
    }

    /// A pointer to `pointee`.
    pub fn pointer_to(pointee: LegacyType, addrspace: u32) -> (t: Self)
        ensures
            t@ == pointer_ty(pointee@, addrspace),
    {
        LegacyType::Pointer { pointee: Some(Box::new(pointee)), addrspace }
    }

    /// A pointer of which only the address space is known.
    pub fn unknown_pointer(addrspace: u32) -> (t: Self)
        ensures
            t@ == unknown_pointer_ty(addrspace),
    {
        LegacyType::Pointer { pointee: None, addrspace }
    }

    /// The address space and the pointee of a pointer.
    pub fn as_pointer(&self) -> (p: Option<(u32, Option<&LegacyType>)>)
        ensures
            match p {
                Some((addrspace, pointee)) => self@ == (LegacyTy::Pointer {
                    pointee: match pointee {
                        Some(t) => Some(Box::new(t@)),
                        None => None,
                    },
                    addrspace,
                }),
                None => self@ !is Pointer,
            },
    {
        match self {
            LegacyType::Pointer { pointee, addrspace } => match pointee {
                Some(p) => Some((*addrspace, Some(&**p))),
                None => Some((*addrspace, None)),
            },
            _ => None,
        }
    }

    /// This type, in another address space if it is a pointer.
    pub fn with_addrspace(&self, addrspace: u32) -> (t: Self)
        ensures
            t@ == in_addrspace(self@, addrspace),
    {
        match self {
            LegacyType::Pointer { pointee, .. } => LegacyType::Pointer {
                pointee: match pointee {
                    Some(p) => Some(Box::new((&**p).clone())),
                    None => None,
                },
                addrspace,
            },
            other => other.clone(),
        }
    }

    /// This fact and another about the same value, as one.
    pub fn merge(&self, other: &LegacyType) -> (t: LegacyType)
        ensures
            t@ == merged(self@, other@),
        decreases self,
    {
        match (self, other) {
            (
                LegacyType::Pointer { pointee: a, addrspace: sa },
                LegacyType::Pointer { pointee: b, addrspace: sb },
            ) => if *sa == *sb {
                let pointee = match (a, b) {
                    (Some(x), Some(y)) => Some(Box::new(x.merge(y))),
                    (Some(x), None) => Some(Box::new((&**x).clone())),
                    (None, Some(y)) => Some(Box::new((&**y).clone())),
                    (None, None) => None,
                };
                LegacyType::Pointer { pointee, addrspace: *sa }
            } else {
                self.clone()
            },
            (LegacyType::Struct(a), LegacyType::Struct(b)) => {
                let ghost (va, vb) = (legacy_tys(a@), legacy_tys(b@));
                assert(va.len() == a@.len() && vb.len() == b@.len());
                if a.len() == b.len() {
                    let mut fields: Vec<LegacyType> = Vec::new();
                    let mut i: usize = 0;
                    while i < a.len()
                        invariant
                            i <= a@.len(),
                            a@.len() == b@.len(),
                            decreases_to!(self => a@),
                            va == legacy_tys(a@),
                            vb == legacy_tys(b@),
                            fields@.len() == i,
                            forall|k: int|
                                0 <= k < i ==> legacy_ty(fields@[k]) == merged(va[k], vb[k]),
                        decreases a@.len() - i,
                    {
                        fields.push(a[i].merge(&b[i]));
                        i = i + 1;
                    }
                    assert(legacy_tys(fields@) =~= all_merged(va, vb));
                    LegacyType::Struct(fields)
                } else {
                    self.clone()
                }
            },
            (
                LegacyType::Array { elem: a, size: n },
                LegacyType::Array { elem: b, size: m },
            ) => if *n == *m {
                LegacyType::Array { elem: Box::new(a.merge(b)), size: *n }
            } else {
                self.clone()
            },
            (
                LegacyType::Vector { elem: a, num_elements: n, scalable: s },
                LegacyType::Vector { elem: b, num_elements: m, scalable: t },
            ) => if *n == *m && *s == *t {
                LegacyType::Vector {
                    elem: Box::new(a.merge(b)),
                    num_elements: *n,
                    scalable: *s,
                }
            } else {
                self.clone()
            },
            _ => self.clone(),
        }
    }

    /// What is known of the part that the indices lead to; `None` where an
    /// index is out of range or there is no aggregate to index.
    pub fn indexed(&self, indices: &Vec<u32>) -> (t: Option<LegacyType>)
        ensures
            match t {
                Some(part) => indexed_ty(self@, indices@) == Some(part@),
                None => indexed_ty(self@, indices@) is None,
            },
    {
        let mut cur = self;
        let mut i: usize = 0;
        assert(indices@.skip(0) =~= indices@);
        while i < indices.len()
            invariant
                i <= indices@.len(),
                indexed_ty(self@, indices@) == indexed_ty(cur@, indices@.skip(i as int)),
            decreases indices@.len() - i,
        {
            let idx: u32 = indices[i];
            let ghost rest = indices@.skip(i as int);
            assert(rest[0] == idx);
            assert(rest.drop_first() =~= indices@.skip(i + 1));
            match cur {
                LegacyType::Struct(fields) => {
                    assert(legacy_tys(fields@).len() == fields@.len());
                    if idx as usize >= fields.len() {
                        return None;
                    }
                    assert(legacy_tys(fields@)[idx as int] == fields@[idx as int]@);
                    cur = &fields[idx as usize];
                },
                LegacyType::Array { elem, size } => {
                    if idx as u64 >= *size {
                        return None;
                    }
                    cur = &**elem;
                },
                _ => {
                    return None;
                },
            }
            i = i + 1;
        }
        Some(cur.clone())
    }

    /// This type with the part that the indices from `from` on lead to
    /// replaced by `value`.
    fn with_indexed_from(&self, indices: &Vec<u32>, from: usize, value: LegacyType) -> (t: Option<
        LegacyType,
    >)
        requires
            from <= indices@.len(),
        ensures
            match t {
                Some(whole) => with_indexed_ty(self@, indices@.skip(from as int), value@) == Some(
                    whole@,
                ),
                None => with_indexed_ty(self@, indices@.skip(from as int), value@) is None,
            },
        decreases indices@.len() - from,
    {
        if from >= indices.len() {
            return Some(value);
        }
        let head: u32 = indices[from];
        let ghost rest = indices@.skip(from as int);
        assert(rest[0] == head);
        assert(rest.drop_first() =~= indices@.skip(from + 1));
        match self {
            LegacyType::Struct(fields) => {
                assert(legacy_tys(fields@).len() == fields@.len());
                let idx: usize = head as usize;
                if idx >= fields.len() {
                    return None;
                }
                assert(legacy_tys(fields@)[idx as int] == fields@[idx as int]@);
                match fields[idx].with_indexed_from(indices, from + 1, value) {
                    Some(field) => {
                        let mut next = clone_legacy(fields);
                        let ghost copies = next@;
                        next.set(idx, field);
                        assert(legacy_tys(next@) =~= legacy_tys(copies).update(idx as int, field@));
                        Some(LegacyType::Struct(next))
                    },
                    None => None,
                }
            },
            LegacyType::Array { elem, size } => {
                if head as u64 >= *size {
                    return None;
                }
                match elem.with_indexed_from(indices, from + 1, value) {
                    Some(e) => Some(LegacyType::Array { elem: Box::new(e), size: *size }),
                    None => None,
                }
            },
            _ => None,
        }
    }

    /// This type with the part that the indices lead to replaced by `value`.
    pub fn with_indexed(&self, indices: &Vec<u32>, value: LegacyType) -> (t: Option<LegacyType>)
        ensures
            match t {
                Some(whole) => with_indexed_ty(self@, indices@, value@) == Some(whole@),
                None => with_indexed_ty(self@, indices@, value@) is None,
            },
    {
        assert(indices@.skip(0) =~= indices@);
        self.with_indexed_from(indices, 0, value)
    }

    /// What the result of a pointer computation points to, when this type is
    /// its source element. The first index steps through the pointer itself,
    /// so indexing into aggregates starts at the second.
    pub fn gep_indexed_pointee(&self, indices: usize, const_indices: &Vec<Option<u32>>) -> (t:
        LegacyType)
        ensures
            t@ == gep_ty(self@, 1, indices as nat, const_indices@),
    {
        let mut cur = self;
        let mut pos: usize = 1;
        while pos < indices
            invariant
                1 <= pos,
                pos <= indices || pos == 1,
                gep_ty(self@, 1, indices as nat, const_indices@) == gep_ty(
                    cur@,
                    pos as nat,
                    indices as nat,
                    const_indices@,
                ),
            decreases indices - pos,
        {
            match cur {
                LegacyType::Struct(fields) => {
                    assert(legacy_tys(fields@).len() == fields@.len());
                    if pos >= const_indices.len() {
                        return cur.clone();
                    }
                    match const_indices[pos] {
                        Some(idx) => {
                            if idx as usize >= fields.len() {
                                return cur.clone();
                            }
                            assert(legacy_tys(fields@)[idx as int] == fields@[idx as int]@);
                            cur = &fields[idx as usize];
                        },
                        None => {
                            return cur.clone();
                        },
                    }
                },
                LegacyType::Array { elem, .. } => {
                    cur = &**elem;
                },
                LegacyType::Vector { elem, .. } => {
                    cur = &**elem;
                },
                _ => {
                    return cur.clone();
                },
            }
            pos = pos + 1;
        }
        cur.clone()
    }
}

// ---------------------------------------------------------------------------
// Text
// ---------------------------------------------------------------------------

/// How a scalar type is written.
pub open spec fn scalar_text(s: ScalarTy) -> Seq<char> {
    match s {
        ScalarTy::Void => "void"@,
        ScalarTy::Integer { width } => "i"@ + decimal(width as nat),
        ScalarTy::Half => "half"@,
        ScalarTy::Float => "float"@,
        ScalarTy::Double => "double"@,
        ScalarTy::Other { display } => "void /* unknown: "@ + display + " */"@,
    }
}

/// How a type is written in typed-pointer syntax. A pointer without a pointee
/// is an `i8*`.
pub open spec fn legacy_text(t: LegacyTy) -> Seq<char>
    decreases t, 0nat,
{
    match t {
        LegacyTy::Scalar(s) => scalar_text(s),
        LegacyTy::Pointer { pointee, addrspace } => (match pointee {
            Some(p) => legacy_text(*p),
            None => "i8"@,
        }) + (if addrspace != 0 {
            " addrspace("@ + decimal(addrspace as nat) + ")"@
        } else {
            Seq::empty()
        }) + "*"@,
        LegacyTy::Struct(fields) => "{ "@ + legacy_list_text(fields, fields.len()) + " }"@,
        LegacyTy::Array { elem, size } => "["@ + decimal(size as nat) + " x "@ + legacy_text(*elem)
            + "]"@,
        LegacyTy::Vector { elem, num_elements, scalable } => (if scalable {
            "<vscale x "@
        } else {
            "<"@
        }) + decimal(num_elements as nat) + " x "@ + legacy_text(*elem) + ">"@,
    }
}

/// How the first `n` types of a list are written.
pub open spec fn legacy_list_text(types: Seq<LegacyTy>, n: nat) -> Seq<char>
    decreases types, n,
{
    if n == 0 || n > types.len() {
        Seq::empty()
    } else if n == 1 {
        legacy_text(types[0])
    } else {
        legacy_list_text(types, (n - 1) as nat) + ", "@ + legacy_text(types[n - 1])
    }
}

/// Appends how a scalar type is written.
fn write_scalar_type(ty: &ScalarType, output: &mut String)
    ensures
        final(output)@ == old(output)@ + scalar_text(ty@),
{
    match ty {
        ScalarType::Integer { width } => {
            output.append("i");
            push_decimal(output, *width as u64);
        },
        ScalarType::Void => output.append("void"),
        ScalarType::Half => output.append("half"),
        ScalarType::Float => output.append("float"),
        ScalarType::Double => output.append("double"),
        ScalarType::Other { display } => {
            output.append("void /* unknown: ");
            output.append(display);
            output.append(" */");
        },
    }
    assert(output@ =~= old(output)@ + scalar_text(ty@));
}

impl LegacyType {
    /// This type in typed-pointer syntax.
    pub fn to_llvm_string(&self) -> (text: String)
        ensures
            text@ == legacy_text(self@),
    {
        let mut out = String::new();
        self.write_llvm(&mut out);
        assert(out@ =~= legacy_text(self@));
        out
    }

    /// Appends this type in typed-pointer syntax.
    pub fn write_llvm(&self, out: &mut String)
        ensures
            final(out)@ == old(out)@ + legacy_text(self@),
        decreases self,
    {
        let ghost start = out@;
        match self {
            LegacyType::Scalar(ty) => write_scalar_type(ty, out),
            LegacyType::Pointer { pointee, addrspace } => {
                match pointee {
                    Some(p) => p.write_llvm(out),
                    None => out.append("i8"),
                }
                if *addrspace != 0 {
                    out.append(" addrspace(");
                    push_decimal(out, *addrspace as u64);
                    out.append(")");
                }
                out.append("*");
            },
            LegacyType::Struct(fields) => {
                let ghost tys = legacy_tys(fields@);
                out.append("{ ");
                let ghost open = out@;
                assert(open + Seq::<char>::empty() =~= open);
                let mut i: usize = 0;
                while i < fields.len()
                    invariant
                        i <= fields@.len(),
                        decreases_to!(self => fields@),
                        tys == legacy_tys(fields@),
                        out@ == open + legacy_list_text(tys, i as nat),
                    decreases fields@.len() - i,
                {
                    if i > 0 {
                        out.append(", ");
                    }
                    fields[i].write_llvm(out);
                    assert(tys[i as int] == fields@[i as int]@);
                    i = i + 1;
                    assert(out@ =~= open + legacy_list_text(tys, i as nat));
                }
                out.append(" }");
            },
            LegacyType::Array { elem, size } => {
                out.append("[");
                push_decimal(out, *size);
                out.append(" x ");
                elem.write_llvm(out);
                out.append("]");
            },
            LegacyType::Vector { elem, num_elements, scalable } => {
                if *scalable {
                    out.append("<vscale x ");
                } else {
                    out.append("<");
                }
                push_decimal(out, *num_elements as u64);
                out.append(" x ");
                elem.write_llvm(out);
                out.append(">");
            },
        }
        assert(out@ =~= start + legacy_text(self@));
    }
}

// ---------------------------------------------------------------------------
// Facts about values
// ---------------------------------------------------------------------------

/// A value of the IR.
pub type Value = usize;

/// What is known of each value.
pub type Facts = Map<usize, LegacyTy>;

/// What is known of each value.
pub struct ValueFacts {
    map: HashMap<Value, LegacyType>,
}

impl View for ValueFacts {
    type V = Facts;

    closed spec fn view(&self) -> Facts {
        self.map@.map_values(|t: LegacyType| t@)
    }
}

/// The facts after `fact` about `value` has been merged in.
pub open spec fn fact_added(facts: Facts, value: Value, fact: LegacyTy) -> Facts {
    facts.insert(
        value,
        if facts.contains_key(value) {
            merged(facts[value], fact)
        } else {
            fact
        },
    )
}

impl ValueFacts {
    /// No facts.
    pub fn new() -> (facts: Self)
        ensures
            facts@ == Map::<usize, LegacyTy>::empty(),
    {
        let facts = ValueFacts { map: HashMap::new() };
        assert(facts@ =~= Map::<usize, LegacyTy>::empty());
        facts
    }

    /// The number of values of which something is known.
    pub fn len(&self) -> (n: usize)
        ensures
            n == self@.len(),
    {
        broadcast use vstd::std_specs::hash::group_hash_axioms;

        assert(self@.dom() =~= self.map@.dom());
        self.map.len()
    }

    /// What is known of `value`.
    pub fn get(&self, value: Value) -> (fact: Option<&LegacyType>)
        ensures
            match fact {
                Some(t) => self@.contains_key(value) && self@[value] == t@,
                None => !self@.contains_key(value),
            },
    {
        broadcast use vstd::std_specs::hash::group_hash_axioms;

        self.map.get(&value)
    }

    /// Sets what is known of `value`.
    pub fn insert(&mut self, value: Value, fact: LegacyType)
        ensures
            final(self)@ == old(self)@.insert(value, fact@),
    {
        broadcast use vstd::std_specs::hash::group_hash_axioms;

        self.map.insert(value, fact);
        assert(self@ =~= old(self)@.insert(value, fact@));
    }

    /// A copy of the facts.
    pub fn copied(&self) -> (facts: Self)
        ensures
            facts@ == self@,
    {
        ValueFacts { map: self.map.clone() }
    }
}

/// The name under which the facts are stored.
fn facts_key() -> (key: String)
    ensures
        key@ == "cuda_oxide_legacy_typed_pointer_facts"@,
{
    proof {
        reveal_strlit("cuda_oxide_legacy_typed_pointer_facts");
    }
    identifier("cuda_oxide_legacy_typed_pointer_facts")
}

/// Side data of the compilation, by name.
pub struct AuxData {
    entries: StringHashMap<ValueFacts>,
}

impl AuxData {
    /// The stored facts; none when nothing has been stored.
    pub closed spec fn facts(&self) -> Facts {
        if self.entries@.contains_key("cuda_oxide_legacy_typed_pointer_facts"@) {
            self.entries@["cuda_oxide_legacy_typed_pointer_facts"@]@
        } else {
            Map::empty()
        }
    }

    /// No side data.
    pub fn new() -> (aux: Self)
        ensures
            aux.facts() == Map::<usize, LegacyTy>::empty(),
    {
        AuxData { entries: StringHashMap::new() }
    }
}

/// Merges `fact` into what is stored of `value`.
pub fn set_value_type_fact(aux: &mut AuxData, value: Value, fact: LegacyType)
    ensures
        final(aux).facts() == fact_added(old(aux).facts(), value, fact@),
{
    let key = facts_key();
    let mut facts = value_type_facts(aux);
    let updated = match facts.get(value) {
        Some(existing) => existing.merge(&fact),
        None => fact,
    };
    facts.insert(value, updated);
    aux.entries.insert(key, facts);
}

/// A copy of the stored facts.
pub fn value_type_facts(aux: &AuxData) -> (facts: ValueFacts)
    ensures
        facts@ == aux.facts(),
{
    let key = facts_key();
    match aux.entries.get(&key) {
        Some(facts) => facts.copied(),
        None => ValueFacts::new(),
    }
}

// ---------------------------------------------------------------------------
// Laws of merging
// ---------------------------------------------------------------------------

/// Merging a fact with itself changes nothing.
pub proof fn law_merge_idempotent(a: LegacyTy)
    ensures
        merged(a, a) == a,
    decreases a,
{
    match a {
        LegacyTy::Pointer { pointee, .. } => {
            if let Some(p) = pointee {
                law_merge_idempotent(*p);
            }
        },
        LegacyTy::Struct(fields) => {
            assert forall|i: int| 0 <= i < fields.len() implies merged(
                #[trigger] fields[i],
                fields[i],
            ) == fields[i] by {
                law_merge_idempotent(fields[i]);
            }
            assert(all_merged(fields, fields) =~= fields);
        },
        LegacyTy::Array { elem, .. } => law_merge_idempotent(*elem),
        LegacyTy::Vector { elem, .. } => law_merge_idempotent(*elem),
        _ => {},
    }
}

/// A fact that has been merged in adds nothing when it comes again.
pub proof fn law_merge_absorbs(a: LegacyTy, b: LegacyTy)
    ensures
        merged(merged(a, b), b) == merged(a, b),
    decreases a,
{
    match (a, b) {
        (LegacyTy::Pointer { pointee: pa, .. }, LegacyTy::Pointer { pointee: pb, .. }) => {
            if let (Some(x), Some(y)) = (pa, pb) {
                law_merge_absorbs(*x, *y);
            } else if let Some(y) = pb {
                law_merge_idempotent(*y);
            }
        },
        (LegacyTy::Struct(fa), LegacyTy::Struct(fb)) => {
            if fa.len() == fb.len() {
                assert forall|i: int| 0 <= i < fa.len() implies merged(
                    merged(#[trigger] fa[i], fb[i]),
                    fb[i],
                ) == merged(fa[i], fb[i]) by {
                    law_merge_absorbs(fa[i], fb[i]);
                }
                assert(all_merged(all_merged(fa, fb), fb) =~= all_merged(fa, fb));
            }
        },
        (LegacyTy::Array { elem: x, .. }, LegacyTy::Array { elem: y, .. }) => {
            law_merge_absorbs(*x, *y)
        },
        (LegacyTy::Vector { elem: x, .. }, LegacyTy::Vector { elem: y, .. }) => {
            law_merge_absorbs(*x, *y)
        },
        _ => {},
    }
}

/// A merged fact holds all that the older fact said: merging the older fact
/// again adds nothing.
pub proof fn law_merge_keeps_older(a: LegacyTy, b: LegacyTy)
    ensures
        merged(merged(a, b), a) == merged(a, b),
        merged(a, merged(a, b)) == merged(a, b),
    decreases a,
{
    law_merge_idempotent(a);
    match (a, b) {
        (LegacyTy::Pointer { pointee: pa, .. }, LegacyTy::Pointer { pointee: pb, .. }) => {
            if let (Some(x), Some(y)) = (pa, pb) {
                law_merge_keeps_older(*x, *y);
            } else if let Some(x) = pa {
                law_merge_idempotent(*x);
            }
        },
        (LegacyTy::Struct(fa), LegacyTy::Struct(fb)) => {
            if fa.len() == fb.len() {
                let m = all_merged(fa, fb);
                assert forall|i: int| 0 <= i < fa.len() implies merged(
                    merged(#[trigger] fa[i], fb[i]),
                    fa[i],
                ) == merged(fa[i], fb[i]) && merged(fa[i], merged(fa[i], fb[i])) == merged(
                    fa[i],
                    fb[i],
                ) by {
                    law_merge_keeps_older(fa[i], fb[i]);
                }
                assert(all_merged(m, fa) =~= m);
                assert(all_merged(fa, m) =~= m);
            }
        },
        (LegacyTy::Array { elem: x, .. }, LegacyTy::Array { elem: y, .. }) => {
            law_merge_keeps_older(*x, *y)
        },
        (LegacyTy::Vector { elem: x, .. }, LegacyTy::Vector { elem: y, .. }) => {
            law_merge_keeps_older(*x, *y)
        },
        _ => {},
    }
}

/// A pointer without a pointee says nothing beyond its address space: merging
/// it into a pointer of that address space, or a pointer of that address space
/// into it, gives the other pointer.
pub proof fn law_unknown_pointer_is_neutral(p: LegacyTy, addrspace: u32)
    requires
        p is Pointer,
        p->addrspace == addrspace,
    ensures
        merged(p, unknown_pointer_ty(addrspace)) == p,
        merged(unknown_pointer_ty(addrspace), p) == p,
{
}

/// Whether two facts are of one kind and shape, so that their parts can be
/// merged: pointers into one address space, structs with as many fields, arrays
/// of one size, vectors of one size and kind.
pub open spec fn same_shape(a: LegacyTy, b: LegacyTy) -> bool {
    match (a, b) {
        (
            LegacyTy::Pointer { addrspace: sa, .. },
            LegacyTy::Pointer { addrspace: sb, .. },
        ) => sa == sb,
        (LegacyTy::Struct(fa), LegacyTy::Struct(fb)) => fa.len() == fb.len(),
        (LegacyTy::Array { size: na, .. }, LegacyTy::Array { size: nb, .. }) => na == nb,
        (
            LegacyTy::Vector { num_elements: na, scalable: ca, .. },
            LegacyTy::Vector { num_elements: nb, scalable: cb, .. },
        ) => na == nb && ca == cb,
        _ => false,
    }
}

/// Facts that differ in kind or shape contradict each other: the older fact
/// stays.
pub proof fn law_conflict_keeps_older(a: LegacyTy, b: LegacyTy)
    requires
        !same_shape(a, b),
    ensures
        merged(a, b) == a,
{
}

// ---------------------------------------------------------------------------
// Laws of indexing
// ---------------------------------------------------------------------------

/// A part can be replaced exactly where it can be read.
pub proof fn law_replace_where_readable(t: LegacyTy, indices: Seq<u32>, value: LegacyTy)
    ensures
        with_indexed_ty(t, indices, value) is Some <==> indexed_ty(t, indices) is Some,
    decreases indices.len(),
{
    if indices.len() > 0 {
        match t {
            LegacyTy::Struct(fields) => {
                if indices[0] < fields.len() {
                    law_replace_where_readable(
                        fields[indices[0] as int],
                        indices.drop_first(),
                        value,
                    );
                }
            },
            LegacyTy::Array { elem, .. } => {
                law_replace_where_readable(*elem, indices.drop_first(), value);
            },
            _ => {},
        }
    }
}

/// A replaced part reads back as what replaced it.
pub proof fn law_replaced_part_reads_back(t: LegacyTy, indices: Seq<u32>, value: LegacyTy)
    requires
        with_indexed_ty(t, indices, value) is Some,
    ensures
        indexed_ty(with_indexed_ty(t, indices, value)->0, indices) == Some(value),
    decreases indices.len(),
{
    if indices.len() > 0 {
        match t {
            LegacyTy::Struct(fields) => {
                law_replaced_part_reads_back(fields[indices[0] as int], indices.drop_first(), value);
            },
            LegacyTy::Array { elem, .. } => {
                law_replaced_part_reads_back(*elem, indices.drop_first(), value);
            },
            _ => {},
        }
    }
}

/// Replacing a part by itself changes nothing.
pub proof fn law_replace_by_itself(t: LegacyTy, indices: Seq<u32>)
    requires
        indexed_ty(t, indices) is Some,
    ensures
        with_indexed_ty(t, indices, indexed_ty(t, indices)->0) == Some(t),
    decreases indices.len(),
{
    if indices.len() > 0 {
        match t {
            LegacyTy::Struct(fields) => {
                law_replace_by_itself(fields[indices[0] as int], indices.drop_first());
                assert(fields.update(indices[0] as int, fields[indices[0] as int]) =~= fields);
            },
            LegacyTy::Array { elem, .. } => {
                law_replace_by_itself(*elem, indices.drop_first());
            },
            _ => {},
        }
    }
}

} // verus!
