//! Sizes and alignments of LLVM types on `nvptx64`.

use vstd::prelude::*;

use crate::ir::llvm::{llvm_ty, llvm_tys, LlvmTy, LlvmType};
use crate::ir::mir::{MirTy, MirType};

verus! {

/// Whether a value of this type takes no storage: a struct whose fields all
/// take none.
pub open spec fn zero_sized(ty: LlvmTy) -> bool
    decreases ty, 0nat,
{
    match ty {
        LlvmTy::Struct { fields } => all_zero_sized(fields),
        _ => false,
    }
}

/// Whether every type of the list takes no storage.
pub open spec fn all_zero_sized(types: Seq<LlvmTy>) -> bool
    decreases types, 1nat,
{
    forall|i: int| 0 <= i < types.len() ==> zero_sized(#[trigger] types[i])
}

/// Whether `ty` is zero-sized: an empty struct, or a struct of zero-sized
/// fields only (nested `PhantomData`).
pub fn is_zero_sized_type(ty: &LlvmType) -> (yes: bool)
    ensures
        yes == zero_sized(ty@),
    decreases ty,
{
    match ty {
        LlvmType::Struct { fields } => {
            let ghost tys = llvm_tys(fields@);
            assert(zero_sized(ty@) == all_zero_sized(tys));
            let mut i: usize = 0;
            while i < fields.len()
                invariant
                    i <= fields@.len(),
                    decreases_to!(ty => fields@),
                    tys == llvm_tys(fields@),
                    zero_sized(ty@) == all_zero_sized(tys),
                    forall|k: int| 0 <= k < i ==> zero_sized(tys[k]),
                decreases fields@.len() - i,
            {
                if !is_zero_sized_type(&fields[i]) {
                    assert(!zero_sized(tys[i as int]));
                    return false;
                }
                i = i + 1;
            }
            true
        },
        _ => false,
    }
}

/// The least multiple of `align` that is not below `x`.
pub open spec fn round_up(x: nat, align: nat) -> nat
    recommends
        align > 0,
{
    if x % align == 0 {
        x
    } else {
        (x - x % align + align) as nat
    }
}

/// `size` bytes of padding: `[size x i8]`.
pub open spec fn padding_ty(size: u64) -> LlvmTy {
    LlvmTy::Array { elem: Box::new(LlvmTy::Integer { width: 8 }), size }
}

/// Creates a padding type: `[size x i8]` for `size` bytes of padding.
pub fn make_padding_type(size: u64) -> (ty: LlvmType)
    ensures
        ty@ == padding_ty(size),
{
    proof {
        reveal_with_fuel(llvm_ty, 2);
    }
    LlvmType::Array { elem: Box::new(LlvmType::Integer { width: 8 }), size }
}

/// Bytes of an integer of `width` bits.
pub open spec fn int_bytes(width: u32) -> nat {
    (width as nat + 7) / 8
}

// ---------------------------------------------------------------------------
// Packed sizes
// ---------------------------------------------------------------------------

/// Bytes of a type when the fields of a struct are laid end to end.
pub open spec fn packed_size(ty: LlvmTy) -> nat
    decreases ty, 0nat,
{
    match ty {
        LlvmTy::Integer { width } => int_bytes(width),
        LlvmTy::Half => 2,
        LlvmTy::Float => 4,
        LlvmTy::Double => 8,
        LlvmTy::Pointer { .. } => 8,
        LlvmTy::Array { elem, size } => packed_size(*elem) * (size as nat),
        LlvmTy::Struct { fields } => packed_sum(fields, fields.len()),
        _ => 8,
    }
}

/// Bytes of the first `n` types, laid end to end.
pub open spec fn packed_sum(types: Seq<LlvmTy>, n: nat) -> nat
    decreases types, n,
{
    if n == 0 || n > types.len() {
        0
    } else {
        packed_sum(types, (n - 1) as nat) + packed_size(types[n - 1])
    }
}

/// Whether the packed size of the type, and of every type in it, is a `u64`.
pub open spec fn packed_fits(ty: LlvmTy) -> bool
    decreases ty, 0nat,
{
    match ty {
        LlvmTy::Array { elem, size } => packed_fits(*elem) && packed_size(ty) <= u64::MAX,
        LlvmTy::Struct { fields } => all_packed_fit(fields) && packed_size(ty) <= u64::MAX,
        _ => true,
    }
}

/// [`packed_fits`] of every type of the list.
pub open spec fn all_packed_fit(types: Seq<LlvmTy>) -> bool
    decreases types, 1nat,
{
    forall|i: int| 0 <= i < types.len() ==> packed_fits(#[trigger] types[i])
}

proof fn lemma_packed_sum_monotone(types: Seq<LlvmTy>, m: nat, n: nat)
    requires
        m <= n <= types.len(),
    ensures
        packed_sum(types, m) <= packed_sum(types, n),
    decreases n,
{
    if m < n {
        lemma_packed_sum_monotone(types, m, (n - 1) as nat);
    }
}

/// The size of an LLVM type in bytes, with the fields of a struct laid end to
/// end: exact when the padding of a struct is among its fields.
pub fn get_type_size(ty: &LlvmType) -> (size: u64)
    requires
        packed_fits(ty@),
    ensures
        size == packed_size(ty@),
    decreases ty,
{
    match ty {
        LlvmType::Integer { width } => (*width as u64 + 7) / 8,
        LlvmType::Half => 2,
        LlvmType::Float => 4,
        LlvmType::Double => 8,
        LlvmType::Pointer { .. } => 8,
        LlvmType::Array { elem, size } => get_type_size(elem) * *size,
        LlvmType::Struct { fields } => {
            let ghost tys = llvm_tys(fields@);
            assert(ty@ == (LlvmTy::Struct { fields: tys }));
            assert(all_packed_fit(tys));
            let mut sum: u64 = 0;
            let mut i: usize = 0;
            while i < fields.len()
                invariant
                    i <= fields@.len(),
                    decreases_to!(ty => fields@),
                    tys == llvm_tys(fields@),
                    all_packed_fit(tys),
                    packed_sum(tys, tys.len()) <= u64::MAX,
                    sum == packed_sum(tys, i as nat),
                decreases fields@.len() - i,
            {
                proof {
                    lemma_packed_sum_monotone(tys, (i + 1) as nat, tys.len());
                    assert(packed_fits(tys[i as int]));
                }
                sum = sum + get_type_size(&fields[i]);
                i = i + 1;
            }
            sum
        },
        _ => 8,
    }
}

// ---------------------------------------------------------------------------
// Natural layout
// ---------------------------------------------------------------------------

/// Natural alignment of an integer of `bytes` bytes: the next power of two,
/// at most 16.
pub open spec fn int_align(bytes: nat) -> nat {
    if bytes <= 1 {
        1
    } else if bytes <= 2 {
        2
    } else if bytes <= 4 {
        4
    } else if bytes <= 8 {
        8
    } else {
        16
    }
}

/// Allocation size of a type in LLVM's natural layout.
pub open spec fn natural_size(ty: LlvmTy) -> nat
    decreases ty, 0nat,
{
    match ty {
        LlvmTy::Integer { width } => int_bytes(width),
        LlvmTy::Half => 2,
        LlvmTy::Float => 4,
        LlvmTy::Double => 8,
        LlvmTy::Pointer { .. } => 8,
        LlvmTy::Array { elem, size } => natural_size(*elem) * (size as nat),
        LlvmTy::Struct { fields } => round_up(
            natural_end(fields, fields.len()),
            widest_align(fields, fields.len()),
        ),
        _ => 8,
    }
}

/// Alignment of a type in LLVM's natural layout.
pub open spec fn natural_align(ty: LlvmTy) -> nat
    decreases ty, 0nat,
{
    match ty {
        LlvmTy::Integer { width } => int_align(int_bytes(width)),
        LlvmTy::Half => 2,
        LlvmTy::Float => 4,
        LlvmTy::Double => 8,
        LlvmTy::Pointer { .. } => 8,
        LlvmTy::Array { elem, .. } => natural_align(*elem),
        LlvmTy::Struct { fields } => widest_align(fields, fields.len()),
        _ => 8,
    }
}

/// Offset just past the first `n` fields of a struct, each at the first
/// offset that its alignment allows.
pub open spec fn natural_end(fields: Seq<LlvmTy>, n: nat) -> nat
    decreases fields, n,
{
    if n == 0 || n > fields.len() {
        0
    } else {
        round_up(natural_end(fields, (n - 1) as nat), natural_align(fields[n - 1]))
            + natural_size(fields[n - 1])
    }
}

/// The widest alignment among the first `n` fields of a struct, at least 1.
pub open spec fn widest_align(fields: Seq<LlvmTy>, n: nat) -> nat
    decreases fields, n,
{
    if n == 0 || n > fields.len() {
        1
    } else {
        let rest = widest_align(fields, (n - 1) as nat);
        let last = natural_align(fields[n - 1]);
        if rest <= last {
            last
        } else {
            rest
        }
    }
}

/// Whether the natural size of the type, and of every type in it, is a `u64`.
pub open spec fn natural_fits(ty: LlvmTy) -> bool
    decreases ty, 0nat,
{
    match ty {
        LlvmTy::Array { elem, size } => natural_fits(*elem) && natural_size(ty) <= u64::MAX,
        LlvmTy::Struct { fields } => all_natural_fit(fields) && natural_size(ty) <= u64::MAX,
        _ => true,
    }
}

/// [`natural_fits`] of every type of the list.
pub open spec fn all_natural_fit(types: Seq<LlvmTy>) -> bool
    decreases types, 1nat,
{
    forall|i: int| 0 <= i < types.len() ==> natural_fits(#[trigger] types[i])
}

pub(crate) proof fn lemma_round_up(x: nat, align: nat)
    requires
        align > 0,
    ensures
        x <= round_up(x, align) < x + align,
        round_up(x, align) % align == 0,
{
    vstd::arithmetic::div_mod::lemma_mod_bound(x as int, align as int);
    if x % align != 0 {
        let q = x as int / align as int;
        vstd::arithmetic::div_mod::lemma_fundamental_div_mod(x as int, align as int);
        assert(round_up(x, align) == align * q + align);
        assert(align * q + align == align * (q + 1)) by (nonlinear_arith);
        vstd::arithmetic::div_mod::lemma_mod_multiples_basic(q + 1, align as int);
        assert((q + 1) * (align as int) == align * (q + 1)) by (nonlinear_arith);
    }
}

/// Every alignment is positive.
pub(crate) proof fn lemma_align_positive(ty: LlvmTy)
    ensures
        1 <= natural_align(ty) <= u64::MAX,
    decreases ty, 0nat,
{
    match ty {
        LlvmTy::Array { elem, .. } => lemma_align_positive(*elem),
        LlvmTy::Struct { fields } => lemma_widest_positive(fields, fields.len()),
        _ => {},
    }
}

pub(crate) proof fn lemma_widest_positive(fields: Seq<LlvmTy>, n: nat)
    requires
        n <= fields.len(),
    ensures
        1 <= widest_align(fields, n) <= u64::MAX,
    decreases fields, n,
{
    if n > 0 {
        lemma_widest_positive(fields, (n - 1) as nat);
        lemma_align_positive(fields[n - 1]);
    }
}

proof fn lemma_natural_end_monotone(fields: Seq<LlvmTy>, m: nat, n: nat)
    requires
        m <= n <= fields.len(),
    ensures
        natural_end(fields, m) <= natural_end(fields, n),
    decreases n,
{
    if m < n {
        lemma_natural_end_monotone(fields, m, (n - 1) as nat);
        lemma_align_positive(fields[n - 1]);
        lemma_round_up(natural_end(fields, (n - 1) as nat), natural_align(fields[n - 1]));
    }
}

/// The fields of a struct end within its size.
pub proof fn lemma_natural_end_in_size(fields: Seq<LlvmTy>)
    ensures
        natural_end(fields, fields.len()) <= natural_size(LlvmTy::Struct { fields }),
{
    lemma_widest_positive(fields, fields.len());
    lemma_round_up(natural_end(fields, fields.len()), widest_align(fields, fields.len()));
}

/// The least multiple of `align` that is not below `x`.
fn round_up_to(x: u64, align: u64) -> (rounded: u64)
    requires
        align > 0,
        round_up(x as nat, align as nat) <= u64::MAX,
    ensures
        rounded == round_up(x as nat, align as nat),
{
    let rest: u64 = x % align;
    if rest == 0 {
        x
    } else {
        proof {
            lemma_round_up(x as nat, align as nat);
            vstd::arithmetic::div_mod::lemma_mod_decreases(x as nat, align as nat);
        }
        x - rest + align
    }
}

/// Natural-layout `(size, align)` of an LLVM type, in bytes: scalars align to
/// their size, arrays to their element, structs to their widest field.
pub fn llvm_type_size_align(ty: &LlvmType) -> (size_align: (u64, u64))
    requires
        natural_fits(ty@),
    ensures
        size_align.0 == natural_size(ty@),
        size_align.1 == natural_align(ty@),
    decreases ty, 0nat,
{
    match ty {
        LlvmType::Integer { width } => {
            let size: u64 = (*width as u64 + 7) / 8;
            let align: u64 = if size <= 1 {
                1
            } else if size <= 2 {
                2
            } else if size <= 4 {
                4
            } else if size <= 8 {
                8
            } else {
                16
            };
            (size, align)
        },
        LlvmType::Half => (2, 2),
        LlvmType::Float => (4, 4),
        LlvmType::Double => (8, 8),
        LlvmType::Pointer { .. } => (8, 8),
        LlvmType::Array { elem, size } => {
            let (elem_size, elem_align) = llvm_type_size_align(elem);
            (elem_size * *size, elem_align)
        },
        LlvmType::Struct { fields } => {
            assert(natural_fits(LlvmTy::Struct { fields: llvm_tys(fields@) }));
            let (_end, size, align) = natural_struct_layout(fields);
            (size, align)
        },
        _ => (8, 8),
    }
}

/// Natural (non-packed) layout of a struct with these fields: the offset just
/// past the last field, that offset rounded up to the alignment of the struct,
/// and the alignment.
pub fn natural_struct_layout(fields: &Vec<LlvmType>) -> (layout: (u64, u64, u64))
    requires
        natural_fits(LlvmTy::Struct { fields: llvm_tys(fields@) }),
    ensures
        layout.0 == natural_end(llvm_tys(fields@), fields@.len()),
        layout.1 == natural_size(LlvmTy::Struct { fields: llvm_tys(fields@) }),
        layout.2 == widest_align(llvm_tys(fields@), fields@.len()),
    decreases fields@, 1nat,
{
    let ghost tys = llvm_tys(fields@);
    proof {
        lemma_widest_positive(tys, tys.len());
        lemma_round_up(natural_end(tys, tys.len()), widest_align(tys, tys.len()));
        assert(all_natural_fit(tys));
    }
    let mut end: u64 = 0;
    let mut align: u64 = 1;
    let mut i: usize = 0;
    while i < fields.len()
        invariant
            i <= fields@.len(),
            tys == llvm_tys(fields@),
            all_natural_fit(tys),
            natural_end(tys, tys.len()) <= u64::MAX,
            end == natural_end(tys, i as nat),
            align == widest_align(tys, i as nat),
        decreases fields@.len() - i,
    {
        proof {
            assert(natural_fits(tys[i as int]));
            lemma_natural_end_monotone(tys, (i + 1) as nat, tys.len());
            lemma_align_positive(tys[i as int]);
        }
        let (field_size, field_align) = llvm_type_size_align(&fields[i]);
        end = round_up_to(end, field_align);
        end = end + field_size;
        if align <= field_align {
            align = field_align;
        }
        i = i + 1;
    }
    let size: u64 = round_up_to(end, align);
    (end, size, align)
}

// ---------------------------------------------------------------------------
// Sizes that rustc reported
// ---------------------------------------------------------------------------

/// Size of a Rust-level type as rustc reported it, where it did.
pub open spec fn stored_size(ty: MirTy) -> Option<nat>
    decreases ty,
{
    match ty {
        MirTy::Struct { total_size, .. } => if total_size > 0 {
            Some(total_size as nat)
        } else {
            None
        },
        MirTy::Enum { total_size, .. } => if total_size > 0 {
            Some(total_size as nat)
        } else {
            None
        },
        MirTy::Array { elem, size } => match stored_size(*elem) {
            Some(elem_size) => Some(elem_size * (size as nat)),
            None => None,
        },
        _ => None,
    }
}

/// Whether the reported size of the type, and of the elements of an array, is
/// a `u64`.
pub open spec fn stored_fits(ty: MirTy) -> bool
    decreases ty,
{
    match ty {
        MirTy::Array { elem, .. } => stored_fits(*elem) && match stored_size(ty) {
            Some(size) => size <= u64::MAX,
            None => true,
        },
        _ => true,
    }
}

/// Size of a Rust-level type from rustc's own layout, when stored: structs and
/// enums carry it, arrays of them multiply it out.
pub fn mir_stored_size(ty: &MirType) -> (size: Option<u64>)
    requires
        stored_fits(ty@),
    ensures
        match size {
            Some(s) => stored_size(ty@) == Some(s as nat),
            None => stored_size(ty@) is None,
        },
    decreases ty,
{
    match ty {
        MirType::Struct(s) => if s.total_size > 0 {
            Some(s.total_size)
        } else {
            None
        },
        MirType::Enum(e) => if e.total_size > 0 {
            Some(e.total_size)
        } else {
            None
        },
        MirType::Array { elem, size } => match mir_stored_size(elem) {
            Some(elem_size) => Some(elem_size * *size),
            None => None,
        },
        _ => None,
    }
}

} // verus!
