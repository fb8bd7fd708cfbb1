//! What holds of sizes, alignments and offsets.

use vstd::prelude::*;

use crate::ir::llvm::{llvm_tys, LlvmTy, LlvmType};
use crate::ir::mir::MirType;
use crate::lowering::layout::{
    get_type_size, is_zero_sized_type, lemma_align_positive, lemma_round_up,
    lemma_widest_positive, llvm_type_size_align, make_padding_type, mir_stored_size,
    natural_align, natural_end, natural_size, natural_struct_layout, packed_size, packed_sum,
    round_up, widest_align, zero_sized,
};

verus! {

/// Rounding up gives the least multiple that is not below the number: it is a
/// multiple, at least the number, and less than one multiple above it; a
/// multiple stays as it is.
pub proof fn law_rounding_gives_least_multiple(x: nat, align: nat)
    requires
        align > 0,
    ensures
        round_up(x, align) % align == 0,
        x <= round_up(x, align) < x + align,
        round_up(round_up(x, align), align) == round_up(x, align),
{
    lemma_round_up(x, align);
}

/// Only structs can take no storage. The empty struct takes none, and one more
/// field adds storage exactly if it takes some.
pub proof fn law_zero_sized_structs(
    fields: Seq<LlvmTy>,
    more: LlvmTy,
    ty: LlvmType,
    yes: bool,
)
    requires
        call_ensures(is_zero_sized_type, (&ty,), yes),
    ensures
        ty@ !is Struct ==> !yes,
        ty@ is Struct && ty@->fields.len() == 0 ==> yes,
        ty@ == (LlvmTy::Struct { fields: fields.push(more) }) ==> yes == (zero_sized(
            LlvmTy::Struct { fields },
        ) && zero_sized(more)),
{
    if ty@ == (LlvmTy::Struct { fields: fields.push(more) }) {
        let all = fields.push(more);
        if zero_sized(LlvmTy::Struct { fields }) && zero_sized(more) {
            assert forall|i: int| 0 <= i < all.len() implies zero_sized(#[trigger] all[i]) by {
                if i < fields.len() {
                    assert(zero_sized(fields[i]));
                }
            }
        }
        if yes {
            assert(zero_sized(all[fields.len() as int]));
            assert forall|i: int| 0 <= i < fields.len() implies zero_sized(#[trigger] fields[i]) by {
                assert(zero_sized(all[i]));
            }
        }
    }
}

proof fn lemma_empty_sums(fields: Seq<LlvmTy>, n: nat)
    requires
        n <= fields.len(),
        forall|i: int| 0 <= i < fields.len() ==> zero_sized(#[trigger] fields[i]),
    ensures
        packed_sum(fields, n) == 0,
        natural_end(fields, n) == 0,
        widest_align(fields, n) == 1,
    decreases fields, n,
{
    if n > 0 {
        lemma_empty_sums(fields, (n - 1) as nat);
        assert(zero_sized(fields[n - 1]));
        law_no_storage_is_no_bytes(fields[n - 1]);
    }
}

/// A type that takes no storage has no bytes, in either layout, and asks for no
/// alignment.
pub proof fn law_no_storage_is_no_bytes(ty: LlvmTy)
    requires
        zero_sized(ty),
    ensures
        packed_size(ty) == 0,
        natural_size(ty) == 0,
        natural_align(ty) == 1,
    decreases ty, 0nat,
{
    match ty {
        LlvmTy::Struct { fields } => {
            assert forall|i: int| 0 <= i < fields.len() implies zero_sized(#[trigger] fields[i]) by {}
            lemma_empty_sums(fields, fields.len());
        },
        _ => {},
    }
}

/// The bytes of an integer hold its bits, and no fewer would.
pub proof fn law_integer_bytes_hold_bits(ty: LlvmType, size: u64, size_align: (u64, u64))
    requires
        call_ensures(get_type_size, (&ty,), size),
        call_ensures(llvm_type_size_align, (&ty,), size_align),
        ty@ is Integer,
    ensures
        8 * size >= ty@->width,
        8 * size < ty@->width + 8,
        size_align.0 == size,
        size_align.1 == 1 || size_align.1 == 2 || size_align.1 == 4 || size_align.1 == 8
            || size_align.1 == 16,
        size_align.1 >= size || size_align.1 == 16,
        size_align.1 == 1 || size_align.1 < 2 * size,
{
}

/// A float of 16, 32 or 64 bits takes 2, 4 or 8 bytes and a pointer 8, in
/// either layout, and is aligned to its size.
pub proof fn law_scalar_sizes(ty: LlvmType, size: u64, size_align: (u64, u64))
    requires
        call_ensures(get_type_size, (&ty,), size),
        call_ensures(llvm_type_size_align, (&ty,), size_align),
        ty@ !is Integer && ty@ !is Array && ty@ !is Struct,
    ensures
        size_align == (size, size),
        ty@ is Half ==> size == 2,
        ty@ is Float ==> size == 4,
        ty@ !is Half && ty@ !is Float ==> size == 8,
{
}

/// An array takes its element's bytes as often as it has elements, and is
/// aligned like its element.
pub proof fn law_array_sizes(
    ty: LlvmType,
    elem: LlvmType,
    size: u64,
    size_align: (u64, u64),
    elem_size: u64,
    elem_size_align: (u64, u64),
)
    requires
        call_ensures(get_type_size, (&ty,), size),
        call_ensures(llvm_type_size_align, (&ty,), size_align),
        call_ensures(get_type_size, (&elem,), elem_size),
        call_ensures(llvm_type_size_align, (&elem,), elem_size_align),
        ty@ is Array,
        *ty@->Array_elem == elem@,
    ensures
        size == elem_size * ty@->Array_size,
        size_align.0 == elem_size_align.0 * ty@->Array_size,
        size_align.1 == elem_size_align.1,
{
}

proof fn lemma_packed_prefix(fields: Seq<LlvmTy>, more: LlvmTy, n: nat)
    requires
        n <= fields.len(),
    ensures
        packed_sum(fields.push(more), n) == packed_sum(fields, n),
    decreases n,
{
    if n > 0 {
        lemma_packed_prefix(fields, more, (n - 1) as nat);
    }
}

/// Laid end to end, a struct takes the bytes of its fields together: none
/// without fields, and with one more field that field's bytes more.
pub proof fn law_packed_structs_add_up(fields: Seq<LlvmTy>, more: LlvmTy)
    ensures
        packed_size(LlvmTy::Struct { fields: Seq::empty() }) == 0,
        packed_size(LlvmTy::Struct { fields: fields.push(more) }) == packed_size(
            LlvmTy::Struct { fields },
        ) + packed_size(more),
{
    assert(packed_sum(Seq::<LlvmTy>::empty(), 0) == 0);
    lemma_packed_prefix(fields, more, fields.len());
    let all = fields.push(more);
    assert(packed_sum(all, all.len()) == packed_sum(all, fields.len()) + packed_size(more));
}

proof fn lemma_natural_prefix(fields: Seq<LlvmTy>, more: LlvmTy, n: nat)
    requires
        n <= fields.len(),
    ensures
        natural_end(fields.push(more), n) == natural_end(fields, n),
        widest_align(fields.push(more), n) == widest_align(fields, n),
    decreases n,
{
    if n > 0 {
        lemma_natural_prefix(fields, more, (n - 1) as nat);
    }
}

/// In the natural layout one more field starts at the first offset behind the
/// others that its alignment allows, and the fields before it stay where they
/// are.
pub proof fn law_next_field_is_aligned(fields: Seq<LlvmTy>, more: LlvmTy)
    ensures
        natural_end(Seq::empty(), 0) == 0,
        ({
            let end = natural_end(fields, fields.len());
            let all = fields.push(more);
            let start = natural_end(all, all.len()) - natural_size(more);
            &&& start % (natural_align(more) as int) == 0
            &&& end <= start < end + natural_align(more)
        }),
        forall|n: nat|
            n <= fields.len() ==> #[trigger] natural_end(fields.push(more), n) == natural_end(
                fields,
                n,
            ),
{
    let all = fields.push(more);
    let end = natural_end(fields, fields.len());
    lemma_natural_prefix(fields, more, fields.len());
    assert(all[fields.len() as int] == more);
    assert(natural_end(all, all.len()) == round_up(end, natural_align(more)) + natural_size(more));
    lemma_align_positive(more);
    lemma_round_up(end, natural_align(more));
    assert forall|n: nat| n <= fields.len() implies #[trigger] natural_end(fields.push(more), n)
        == natural_end(fields, n) by {
        lemma_natural_prefix(fields, more, n);
    }
}

proof fn lemma_widest_align(fields: Seq<LlvmTy>, n: nat)
    requires
        n <= fields.len(),
    ensures
        forall|i: int|
            0 <= i < n ==> natural_align(#[trigger] fields[i]) <= widest_align(fields, n),
        widest_align(fields, n) == 1 || exists|i: int|
            0 <= i < n && natural_align(#[trigger] fields[i]) == widest_align(fields, n),
    decreases n,
{
    if n > 0 {
        let m = (n - 1) as nat;
        lemma_widest_align(fields, m);
        if widest_align(fields, n) != 1 && natural_align(fields[m as int]) != widest_align(
            fields,
            n,
        ) {
            let i = choose|i: int|
                0 <= i < m && natural_align(#[trigger] fields[i]) == widest_align(fields, m);
            assert(natural_align(fields[i]) == widest_align(fields, n));
        }
    }
}

/// A struct is aligned as widely as its widest field and no wider; its size is
/// the first multiple of that alignment that its fields fit into.
pub proof fn law_struct_layout(fields: Vec<LlvmType>, layout: (u64, u64, u64))
    requires
        call_ensures(natural_struct_layout, (&fields,), layout),
    ensures
        ({
            let tys = llvm_tys(fields@);
            &&& layout.2 >= 1
            &&& forall|i: int| 0 <= i < tys.len() ==> natural_align(#[trigger] tys[i]) <= layout.2
            &&& layout.2 == 1 || exists|i: int|
                0 <= i < tys.len() && natural_align(#[trigger] tys[i]) == layout.2
            &&& layout.1 as int % layout.2 as int == 0
            &&& layout.0 <= layout.1 < layout.0 + layout.2
            &&& layout.0 == natural_end(tys, tys.len())
        }),
{
    let tys = llvm_tys(fields@);
    assert(tys.len() == fields@.len());
    lemma_widest_align(tys, tys.len());
    lemma_widest_positive(tys, tys.len());
    lemma_round_up(natural_end(tys, tys.len()), widest_align(tys, tys.len()));
}

/// The size and alignment of a struct are those of its layout.
pub proof fn law_struct_size_is_its_layout(
    ty: LlvmType,
    fields: Vec<LlvmType>,
    size_align: (u64, u64),
    layout: (u64, u64, u64),
)
    requires
        call_ensures(llvm_type_size_align, (&ty,), size_align),
        call_ensures(natural_struct_layout, (&fields,), layout),
        ty@ == (LlvmTy::Struct { fields: llvm_tys(fields@) }),
    ensures
        size_align.0 == layout.1,
        size_align.1 == layout.2,
{
    assert(llvm_tys(fields@).len() == fields@.len());
}

proof fn lemma_packed_below_natural(fields: Seq<LlvmTy>, n: nat)
    requires
        n <= fields.len(),
    ensures
        packed_sum(fields, n) <= natural_end(fields, n),
    decreases fields, n,
{
    if n > 0 {
        lemma_packed_below_natural(fields, (n - 1) as nat);
        law_packed_is_no_larger(fields[n - 1]);
        lemma_align_positive(fields[n - 1]);
        lemma_round_up(natural_end(fields, (n - 1) as nat), natural_align(fields[n - 1]));
    }
}

/// The packed layout is never larger than the natural one.
pub proof fn law_packed_is_no_larger(ty: LlvmTy)
    ensures
        packed_size(ty) <= natural_size(ty),
    decreases ty, 0nat,
{
    match ty {
        LlvmTy::Array { elem, size } => {
            law_packed_is_no_larger(*elem);
            assert(packed_size(*elem) * (size as nat) <= natural_size(*elem) * (size as nat))
                by (nonlinear_arith)
                requires
                    packed_size(*elem) <= natural_size(*elem),
            ;
        },
        LlvmTy::Struct { fields } => {
            lemma_packed_below_natural(fields, fields.len());
            lemma_widest_positive(fields, fields.len());
            lemma_round_up(natural_end(fields, fields.len()), widest_align(fields, fields.len()));
        },
        _ => {},
    }
}

/// Padding of a size is as many bytes, in either layout, aligned to 1.
pub proof fn law_padding_has_its_size(size: u64, ty: LlvmType)
    requires
        call_ensures(make_padding_type, (size,), ty),
    ensures
        ty@ is Array,
        *ty@->Array_elem == (LlvmTy::Integer { width: 8 }),
        ty@->Array_size == size,
        packed_size(ty@) == size,
        natural_size(ty@) == size,
        natural_align(ty@) == 1,
        !zero_sized(ty@),
{
    reveal_with_fuel(packed_size, 2);
    reveal_with_fuel(natural_size, 2);
    reveal_with_fuel(natural_align, 2);
    assert(1 * (size as nat) == size);
}

/// The size that rustc reports is known of structs and enums that carry one,
/// and of arrays whose elements have one, as often as there are elements.
pub proof fn law_reported_sizes(
    ty: MirType,
    elem: MirType,
    size: Option<u64>,
    elem_size: Option<u64>,
)
    requires
        call_ensures(mir_stored_size, (&ty,), size),
        call_ensures(mir_stored_size, (&elem,), elem_size),
    ensures
        ty@ is Struct ==> size == if ty@->Struct_total_size == 0 {
            None
        } else {
            Some(ty@->Struct_total_size)
        },
        ty@ is Enum ==> size == if ty@->Enum_total_size == 0 {
            None
        } else {
            Some(ty@->Enum_total_size)
        },
        ty@ is Array && *ty@->Array_elem == elem@ ==> {
            &&& size is Some <==> elem_size is Some
            &&& size is Some ==> size->0 == elem_size->0 * ty@->Array_size
        },
        ty@ !is Struct && ty@ !is Enum && ty@ !is Array ==> size is None,
{
}

} // verus!
