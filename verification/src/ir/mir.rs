//! Rust-level types, as the MIR dialect carries them.

use vstd::prelude::*;

verus! {

/// How an integer type reads its bits.
#[derive(Debug, Clone, Copy, PartialEq, Eq, Structural)]
pub enum Signedness {
    Signed,
    Unsigned,
    Signless,
}

/// A Rust-level type.
#[derive(Debug, PartialEq, Eq)]
pub enum MirType {
    /// An integer.
    Integer { width: u32, signedness: Signedness },
    /// `f16`.
    Fp16,
    /// `f32`.
    Fp32,
    /// `f64`.
    Fp64,
    /// A thin pointer or reference.
    Ptr { pointee: Box<MirType>, is_mutable: bool, address_space: u32 },
    /// `[T]` behind a fat pointer.
    Slice { elem: Box<MirType> },
    /// `DisjointSlice<T>`.
    DisjointSlice { elem: Box<MirType> },
    /// A tuple.
    Tuple { types: Vec<MirType> },
    /// A struct or a closure.
    Struct(MirStructType),
    /// An enum.
    Enum(MirEnumType),
    /// `[T; N]`.
    Array { elem: Box<MirType>, size: u64 },
    /// A SIMD vector.
    Vector { elem: Box<MirType>, num_elements: u32 },
    /// Any other type, known only by how it is displayed.
    Other { display: String },
}

/// A struct with what rustc reports of its layout.
#[derive(Debug, PartialEq, Eq)]
pub struct MirStructType {
    pub name: String,
    /// Field types in declaration order.
    pub field_types: Vec<MirType>,
    /// `mem_to_decl[mem_idx] = decl_idx`; empty when rustc did not reorder.
    pub mem_to_decl: Vec<usize>,
    /// Byte offset of each field in declaration order; empty when unknown.
    pub field_offsets: Vec<u64>,
    /// Size in bytes including trailing padding; 0 when unknown.
    pub total_size: u64,
}

/// An enum with its discriminant and the payloads of all its variants.
#[derive(Debug, PartialEq, Eq)]
pub struct MirEnumType {
    pub name: String,
    pub discriminant_ty: Box<MirType>,
    /// The payload fields of every variant, concatenated.
    pub all_field_types: Vec<MirType>,
    /// Size in bytes; 0 when unknown.
    pub total_size: u64,
}

/// One variant of an enum.
#[derive(Debug, PartialEq, Eq)]
pub struct EnumVariant {
    pub name: String,
    pub field_types: Vec<MirType>,
}

/// What a [`MirType`] says.
#[verifier::ext_equal]
pub enum MirTy {
    Integer { width: u32, signedness: Signedness },
    Fp16,
    Fp32,
    Fp64,
    Ptr { pointee: Box<MirTy>, is_mutable: bool, address_space: u32 },
    Slice { elem: Box<MirTy> },
    DisjointSlice { elem: Box<MirTy> },
    Tuple { types: Seq<MirTy> },
    Struct {
        name: Seq<char>,
        field_types: Seq<MirTy>,
        mem_to_decl: Seq<usize>,
        field_offsets: Seq<u64>,
        total_size: u64,
    },
    Enum {
        name: Seq<char>,
        discriminant_ty: Box<MirTy>,
        all_field_types: Seq<MirTy>,
        total_size: u64,
    },
    Array { elem: Box<MirTy>, size: u64 },
    Vector { elem: Box<MirTy>, num_elements: u32 },
    Other { display: Seq<char> },
}

impl View for MirType {
    type V = MirTy;

    open spec fn view(&self) -> MirTy {
        mir_ty(*self)
    }
}

/// What the type `t` says.
pub open spec fn mir_ty(t: MirType) -> MirTy
    decreases t, 0nat,
{
    match t {
        MirType::Integer { width, signedness } => MirTy::Integer { width, signedness },
        MirType::Fp16 => MirTy::Fp16,
        MirType::Fp32 => MirTy::Fp32,
        MirType::Fp64 => MirTy::Fp64,
        MirType::Ptr { pointee, is_mutable, address_space } => MirTy::Ptr {
            pointee: Box::new(mir_ty(*pointee)),
            is_mutable,
            address_space,
        },
        MirType::Slice { elem } => MirTy::Slice { elem: Box::new(mir_ty(*elem)) },
        MirType::DisjointSlice { elem } => MirTy::DisjointSlice { elem: Box::new(mir_ty(*elem)) },
        MirType::Tuple { types } => MirTy::Tuple { types: mir_tys(types@) },
        MirType::Struct(s) => MirTy::Struct {
            name: s.name@,
            field_types: mir_tys(s.field_types@),
            mem_to_decl: s.mem_to_decl@,
            field_offsets: s.field_offsets@,
            total_size: s.total_size,
        },
        MirType::Enum(e) => MirTy::Enum {
            name: e.name@,
            discriminant_ty: Box::new(mir_ty(*e.discriminant_ty)),
            all_field_types: mir_tys(e.all_field_types@),
            total_size: e.total_size,
        },
        MirType::Array { elem, size } => MirTy::Array { elem: Box::new(mir_ty(*elem)), size },
        MirType::Vector { elem, num_elements } => MirTy::Vector {
            elem: Box::new(mir_ty(*elem)),
            num_elements,
        },
        MirType::Other { display } => MirTy::Other { display: display@ },
    }
}

/// What a list of types says.
pub open spec fn mir_tys(types: Seq<MirType>) -> Seq<MirTy>
    decreases types, 1nat,
{
    Seq::new(
        types.len(),
        |i: int|
            if 0 <= i < types.len() {
                mir_ty(types[i])
            } else {
                MirTy::Fp16
            },
    )
}

/// A copy of a list of types.
pub fn clone_types(types: &Vec<MirType>) -> (copies: Vec<MirType>)
    ensures
        mir_tys(copies@) == mir_tys(types@),
    decreases types@, 1nat,
{
    let mut copies: Vec<MirType> = Vec::new();
    let mut i: usize = 0;
    while i < types.len()
        invariant
            i <= types@.len(),
            copies@.len() == i,
            forall|k: int| 0 <= k < i ==> mir_ty(copies@[k]) == mir_ty(types@[k]),
        decreases types@.len() - i,
    {
        copies.push(types[i].clone());
        i = i + 1;
    }
    assert(mir_tys(copies@) =~= mir_tys(types@));
    copies
}

impl Clone for MirType {
    fn clone(&self) -> (copy: Self)
        ensures
            copy@ == self@,
        decreases self, 0nat,
    {
        match self {
            MirType::Integer { width, signedness } => MirType::Integer {
                width: *width,
                signedness: *signedness,
            },
            MirType::Fp16 => MirType::Fp16,
            MirType::Fp32 => MirType::Fp32,
            MirType::Fp64 => MirType::Fp64,
            MirType::Ptr { pointee, is_mutable, address_space } => MirType::Ptr {
                pointee: Box::new((&**pointee).clone()),
                is_mutable: *is_mutable,
                address_space: *address_space,
            },
            MirType::Slice { elem } => MirType::Slice { elem: Box::new((&**elem).clone()) },
            MirType::DisjointSlice { elem } => MirType::DisjointSlice {
                elem: Box::new((&**elem).clone()),
            },
            MirType::Tuple { types } => MirType::Tuple { types: clone_types(types) },
            MirType::Struct(s) => MirType::Struct(
                MirStructType {
                    name: s.name.clone(),
                    field_types: clone_types(&s.field_types),
                    mem_to_decl: s.mem_to_decl.clone(),
                    field_offsets: s.field_offsets.clone(),
                    total_size: s.total_size,
                },
            ),
            MirType::Enum(e) => MirType::Enum(
                MirEnumType {
                    name: e.name.clone(),
                    discriminant_ty: Box::new((&*e.discriminant_ty).clone()),
                    all_field_types: clone_types(&e.all_field_types),
                    total_size: e.total_size,
                },
            ),
            MirType::Array { elem, size } => MirType::Array {
                elem: Box::new((&**elem).clone()),
                size: *size,
            },
            MirType::Vector { elem, num_elements } => MirType::Vector {
                elem: Box::new((&**elem).clone()),
                num_elements: *num_elements,
            },
            MirType::Other { display } => MirType::Other { display: display.clone() },
        }
    }
}

/// Whether the two lists hold the same types.
fn same_types(a: &Vec<MirType>, b: &Vec<MirType>) -> (yes: bool)
    ensures
        yes == (mir_tys(a@) == mir_tys(b@)),
    decreases a@, 1nat,
{
    let ghost (va, vb) = (mir_tys(a@), mir_tys(b@));
    assert(va.len() == a@.len() && vb.len() == b@.len());
    if a.len() != b.len() {
        return false;
    }
    let mut i: usize = 0;
    while i < a.len()
        invariant
            i <= a@.len(),
            a@.len() == b@.len(),
            va == mir_tys(a@),
            vb == mir_tys(b@),
            forall|k: int| 0 <= k < i ==> va[k] == vb[k],
        decreases a@.len() - i,
    {
        if !a[i].same(&b[i]) {
            assert(va[i as int] != vb[i as int]);
            return false;
        }
        i = i + 1;
    }
    assert(va =~= vb);
    true
}

/// Whether the two lists hold the same numbers.
fn same_usizes(a: &Vec<usize>, b: &Vec<usize>) -> (yes: bool)
    ensures
        yes == (a@ == b@),
{
    if a.len() != b.len() {
        return false;
    }
    let mut i: usize = 0;
    while i < a.len()
        invariant
            i <= a@.len(),
            a@.len() == b@.len(),
            forall|k: int| 0 <= k < i ==> a@[k] == b@[k],
        decreases a@.len() - i,
    {
        if a[i] != b[i] {
            return false;
        }
        i = i + 1;
    }
    assert(a@ =~= b@);
    true
}

/// Whether the two lists hold the same numbers.
fn same_u64s(a: &Vec<u64>, b: &Vec<u64>) -> (yes: bool)
    ensures
        yes == (a@ == b@),
{
    if a.len() != b.len() {
        return false;
    }
    let mut i: usize = 0;
    while i < a.len()
        invariant
            i <= a@.len(),
            a@.len() == b@.len(),
            forall|k: int| 0 <= k < i ==> a@[k] == b@[k],
        decreases a@.len() - i,
    {
        if a[i] != b[i] {
            return false;
        }
        i = i + 1;
    }
    assert(a@ =~= b@);
    true
}

impl MirType {
    /// Whether the two types are the same.
    pub fn same(&self, other: &MirType) -> (yes: bool)
        ensures
            yes == (self@ == other@),
        decreases self, 0nat,
    {
        match (self, other) {
            (
                MirType::Integer { width: a, signedness: s },
                MirType::Integer { width: b, signedness: t },
            ) => *a == *b && *s == *t,
            (MirType::Fp16, MirType::Fp16) => true,
            (MirType::Fp32, MirType::Fp32) => true,
            (MirType::Fp64, MirType::Fp64) => true,
            (
                MirType::Ptr { pointee: a, is_mutable: m, address_space: s },
                MirType::Ptr { pointee: b, is_mutable: n, address_space: t },
            ) => *m == *n && *s == *t && a.same(b),
            (MirType::Slice { elem: a }, MirType::Slice { elem: b }) => a.same(b),
            (MirType::DisjointSlice { elem: a }, MirType::DisjointSlice { elem: b }) => a.same(b),
            (MirType::Tuple { types: a }, MirType::Tuple { types: b }) => same_types(a, b),
            (MirType::Struct(a), MirType::Struct(b)) => a.name == b.name && a.total_size
                == b.total_size && same_usizes(&a.mem_to_decl, &b.mem_to_decl) && same_u64s(
                &a.field_offsets,
                &b.field_offsets,
            ) && same_types(&a.field_types, &b.field_types),
            (MirType::Enum(a), MirType::Enum(b)) => a.name == b.name && a.total_size
                == b.total_size && a.discriminant_ty.same(&b.discriminant_ty) && same_types(
                &a.all_field_types,
                &b.all_field_types,
            ),
            (MirType::Array { elem: a, size: n }, MirType::Array { elem: b, size: m }) => *n == *m
                && a.same(b),
            (
                MirType::Vector { elem: a, num_elements: n },
                MirType::Vector { elem: b, num_elements: m },
            ) => *n == *m && a.same(b),
            (MirType::Other { display: a }, MirType::Other { display: b }) => *a == *b,
            _ => false,
        }
    }

    /// An enum with these variants: the payload fields of all of them, in
    /// declaration order. Its size is unknown.
    pub fn enum_of(name: String, discriminant_ty: MirType, variants: Vec<EnumVariant>) -> (ty: Self)
        ensures
            ty@ == (MirTy::Enum {
                name: name@,
                discriminant_ty: Box::new(discriminant_ty@),
                all_field_types: payloads(variants@, variants@.len()),
                total_size: 0,
            }),
    {
        let mut fields: Vec<MirType> = Vec::new();
        assert(mir_tys(fields@) =~= payloads(variants@, 0));
        let mut i: usize = 0;
        while i < variants.len()
            invariant
                i <= variants@.len(),
                mir_tys(fields@) == payloads(variants@, i as nat),
            decreases variants@.len() - i,
        {
            let ghost before = fields@;
            let mut more = clone_types(&variants[i].field_types);
            let ghost added = more@;
            fields.append(&mut more);
            assert(mir_tys(fields@) =~= mir_tys(before) + mir_tys(added));
            i = i + 1;
        }
        MirType::Enum(
            MirEnumType {
                name,
                discriminant_ty: Box::new(discriminant_ty),
                all_field_types: fields,
                total_size: 0,
            },
        )
    }
}

/// The payload fields of the first `n` variants.
pub open spec fn payloads(variants: Seq<EnumVariant>, n: nat) -> Seq<MirTy>
    decreases n,
{
    if n == 0 {
        Seq::empty()
    } else {
        payloads(variants, (n - 1) as nat) + mir_tys(variants[n - 1].field_types@)
    }
}

} // verus!
