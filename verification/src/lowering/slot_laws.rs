//! What holds of every lowered struct and enum.

use vstd::prelude::*;

use crate::ir::llvm::LlvmTy;
use crate::ir::mir::MirTy;
use crate::lowering::layout::{
    int_bytes, lemma_natural_end_in_size, natural_align, natural_end, natural_size, packed_size,
    packed_sum, padding_ty, round_up, widest_align, zero_sized,
};
use crate::lowering::types::{
    before_field, convert_ty, enum_fields, explicit_layout, field_size, flat_fields, flat_input,
    flat_inputs, flat_result, is_permutation, layout_error, memory_order, pad_to, place,
    place_field, placed, ConvertErr, LayoutFacts, Placement,
};

verus! {

/// Every field index occurs in the memory order.
proof fn lemma_permutation_covers(order: Seq<usize>, n: nat, d: int)
    requires
        is_permutation(order, n),
        0 <= d < n,
    ensures
        exists|k: int| 0 <= k < n && #[trigger] order[k] == d,
{
    let ints = order.map_values(|x: usize| x as int);
    assert(ints.no_duplicates()) by {
        assert forall|i: int, j: int| 0 <= i < ints.len() && 0 <= j < ints.len() && i
            != j implies ints[i] != ints[j] by {
            if i < j {
                assert(order[i] != order[j]);
            } else {
                assert(order[j] != order[i]);
            }
        }
    }
    ints.unique_seq_to_set();
    let all = vstd::set_lib::set_int_range(0, n as int);
    vstd::set_lib::lemma_int_range(0, n as int);
    assert(ints.to_set().subset_of(all)) by {
        assert forall|x: int| ints.to_set().contains(x) implies all.contains(x) by {
            let i = choose|i: int| 0 <= i < ints.len() && ints[i] == x;
            assert(order[i] < n);
        }
    }
    vstd::set_lib::lemma_subset_equality(ints.to_set(), all);
    assert(all.contains(d));
    assert(ints.to_set().contains(d));
    let k = choose|k: int| 0 <= k < ints.len() && ints[k] == d;
    assert(order[k] == d);
}

proof fn lemma_place_grows(l: LayoutFacts, tys: Seq<LlvmTy>, m: nat, n: nat)
    requires
        m <= n,
    ensures
        place(l, tys, m).fields.len() <= place(l, tys, n).fields.len(),
        forall|i: int|
            0 <= i < place(l, tys, m).fields.len() ==> place(l, tys, n).fields[i] == #[trigger] place(
                l,
                tys,
                m,
            ).fields[i],
        place(l, tys, m).offset <= place(l, tys, n).offset,
    decreases n,
{
    if m < n {
        lemma_place_grows(l, tys, m, (n - 1) as nat);
    }
}

/// Where the first `n` fields in memory order went.
proof fn lemma_slots(l: LayoutFacts, tys: Seq<LlvmTy>, n: nat)
    requires
        is_permutation(l.mem_to_decl, l.field_types.len()),
        tys.len() == l.field_types.len(),
        n <= tys.len(),
        place(l, tys, n).fields.len() <= u32::MAX,
    ensures
        ({
            let p = place(l, tys, n);
            let order = l.mem_to_decl;
            &&& p.slots.len() == tys.len()
            &&& forall|k: int|
                0 <= k < n && !zero_sized(tys[#[trigger] order[k] as int]) ==> {
                    &&& p.slots[order[k] as int] is Some
                    &&& p.slots[order[k] as int]->0 < p.fields.len()
                    &&& p.fields[p.slots[order[k] as int]->0 as int] == tys[order[k] as int]
                }
            &&& forall|k: int|
                0 <= k < n && zero_sized(tys[#[trigger] order[k] as int])
                    ==> p.slots[order[k] as int] is None
            &&& forall|k: int|
                n <= k < tys.len() ==> p.slots[#[trigger] order[k] as int] is None
            &&& forall|i: int, j: int|
                #![trigger order[i], order[j]]
                0 <= i < j < n && !zero_sized(tys[order[i] as int]) && !zero_sized(
                    tys[order[j] as int],
                ) ==> p.slots[order[i] as int]->0 < p.slots[order[j] as int]->0
        }),
    decreases n,
{
    if n > 0 {
        let m = (n - 1) as nat;
        lemma_place_grows(l, tys, m, n);
        lemma_slots(l, tys, m);
        let order = l.mem_to_decl;
        let decl = order[m as int] as int;
        let p = place(l, tys, m);
        assert(place(l, tys, n) == place_field(l, tys[decl], p, decl));
        assert forall|k: int| 0 <= k < tys.len() && k != m implies order[k] != decl by {
            if k < m {
                assert(order[k] != order[m as int]);
            } else {
                assert(order[m as int] != order[k]);
            }
        }
    }
}

/// Every field of a lowered struct is found at its own slot: a field that takes
/// storage has one, which holds the field's converted type; a zero-sized field
/// has none. No two fields share a slot.
pub proof fn law_slots_hold_their_fields(l: LayoutFacts, tys: Seq<LlvmTy>)
    requires
        layout_error(l) is None,
        tys.len() == l.field_types.len(),
        placed(l, tys).fields.len() <= u32::MAX,
    ensures
        placed(l, tys).slots.len() == tys.len(),
        forall|d: int|
            0 <= d < tys.len() ==> (#[trigger] placed(l, tys).slots[d] is None <==> zero_sized(
                tys[d],
            )),
        forall|d: int|
            0 <= d < tys.len() && !zero_sized(tys[d]) ==> {
                &&& (#[trigger] placed(l, tys).slots[d])->0 < placed(l, tys).fields.len()
                &&& placed(l, tys).fields[placed(l, tys).slots[d]->0 as int] == tys[d]
            },
        forall|c: int, d: int|
            #![trigger placed(l, tys).slots[c], placed(l, tys).slots[d]]
            0 <= c < tys.len() && 0 <= d < tys.len() && c != d && !zero_sized(tys[c])
                && !zero_sized(tys[d]) ==> placed(l, tys).slots[c] != placed(l, tys).slots[d],
{
    let n = tys.len();
    let p = place(l, tys, n);
    lemma_slots(l, tys, n);
    let order = l.mem_to_decl;
    assert forall|d: int|
        #![trigger tys[d]]
        #![trigger p.slots[d]]
        0 <= d < n implies exists|k: int| 0 <= k < n && #[trigger] order[k] == d by {
        lemma_permutation_covers(order, n, d);
    }
    assert forall|c: int, d: int|
        0 <= c < n && 0 <= d < n && c != d && !zero_sized(tys[c]) && !zero_sized(
            tys[d],
        ) implies #[trigger] p.slots[c] != #[trigger] p.slots[d] by {
        let i = choose|k: int| 0 <= k < n && #[trigger] order[k] == c;
        let j = choose|k: int| 0 <= k < n && #[trigger] order[k] == d;
        if i < j {
            assert(p.slots[order[i] as int]->0 < p.slots[order[j] as int]->0);
        } else {
            assert(p.slots[order[j] as int]->0 < p.slots[order[i] as int]->0);
        }
    }
}

/// The slots of a lowered struct follow memory order.
pub proof fn law_slots_follow_memory_order(l: LayoutFacts, tys: Seq<LlvmTy>, i: int, j: int)
    requires
        layout_error(l) is None,
        tys.len() == l.field_types.len(),
        placed(l, tys).fields.len() <= u32::MAX,
        0 <= i < j < tys.len(),
        !zero_sized(tys[l.mem_to_decl[i] as int]),
        !zero_sized(tys[l.mem_to_decl[j] as int]),
    ensures
        placed(l, tys).slots[l.mem_to_decl[i] as int]->0 < placed(
            l,
            tys,
        ).slots[l.mem_to_decl[j] as int]->0,
{
    lemma_slots(l, tys, tys.len());
}

// ---------------------------------------------------------------------------
// Byte offsets
// ---------------------------------------------------------------------------

/// Whether rustc's layout is one: the fields that take storage do not overlap
/// in memory order, and end within the total size.
pub open spec fn sound_layout(l: LayoutFacts, tys: Seq<LlvmTy>) -> bool {
    let order = l.mem_to_decl;
    &&& forall|i: int, j: int|
        #![trigger order[i], order[j]]
        0 <= i < j < order.len() && !zero_sized(tys[order[i] as int]) && !zero_sized(
            tys[order[j] as int],
        ) ==> l.field_offsets[order[i] as int] + field_size(
            l.field_types[order[i] as int],
            tys[order[i] as int],
        ) <= l.field_offsets[order[j] as int]
    &&& forall|i: int|
        #![trigger order[i]]
        0 <= i < order.len() && !zero_sized(tys[order[i] as int])
            ==> l.field_offsets[order[i] as int] + field_size(
            l.field_types[order[i] as int],
            tys[order[i] as int],
        ) <= l.total_size
}

/// After the first `n` fields, the bytes so far end at the last field that
/// takes storage.
proof fn lemma_offset_within(l: LayoutFacts, tys: Seq<LlvmTy>, n: nat)
    requires
        layout_error(l) is None,
        explicit_layout(l),
        tys.len() == l.field_types.len(),
        n <= tys.len(),
        sound_layout(l, tys),
    ensures
        place(l, tys, n).offset <= l.total_size,
        forall|j: int|
            #![trigger l.mem_to_decl[j]]
            n <= j < tys.len() && !zero_sized(tys[l.mem_to_decl[j] as int]) ==> place(
                l,
                tys,
                n,
            ).offset <= l.field_offsets[l.mem_to_decl[j] as int],
    decreases n,
{
    if n > 0 {
        let m = (n - 1) as nat;
        lemma_offset_within(l, tys, m);
        let decl = l.mem_to_decl[m as int] as int;
        assert(place(l, tys, n) == place_field(l, tys[decl], place(l, tys, m), decl));
    }
}

/// With rustc's layout, each field that takes storage starts at the byte
/// offset that rustc gave it, and the struct ends at rustc's total size.
pub proof fn law_fields_at_rustc_offsets(l: LayoutFacts, tys: Seq<LlvmTy>)
    requires
        layout_error(l) is None,
        explicit_layout(l),
        tys.len() == l.field_types.len(),
        sound_layout(l, tys),
    ensures
        forall|k: int|
            #![trigger l.mem_to_decl[k]]
            0 <= k < tys.len() && !zero_sized(tys[l.mem_to_decl[k] as int]) ==> before_field(
                l,
                place(l, tys, k as nat),
                l.mem_to_decl[k] as int,
            ).offset == l.field_offsets[l.mem_to_decl[k] as int],
        placed(l, tys).offset == l.total_size,
{
    assert forall|k: int|
        #![trigger l.mem_to_decl[k]]
        0 <= k < tys.len() && !zero_sized(tys[l.mem_to_decl[k] as int]) implies before_field(
        l,
        place(l, tys, k as nat),
        l.mem_to_decl[k] as int,
    ).offset == l.field_offsets[l.mem_to_decl[k] as int] by {
        lemma_offset_within(l, tys, k as nat);
    }
    lemma_offset_within(l, tys, tys.len());
}

proof fn lemma_padding_size(size: u64)
    ensures
        packed_size(padding_ty(size)) == size,
        natural_size(padding_ty(size)) == size,
        natural_align(padding_ty(size)) == 1,
{
    reveal_with_fuel(packed_size, 2);
    reveal_with_fuel(natural_size, 2);
    reveal_with_fuel(natural_align, 2);
    assert(int_bytes(8) == 1);
    assert(1 * (size as nat) == size) by (nonlinear_arith);
}

proof fn lemma_packed_push(types: Seq<LlvmTy>, t: LlvmTy, n: nat)
    requires
        n <= types.len(),
    ensures
        packed_sum(types.push(t), n) == packed_sum(types, n),
    decreases n,
{
    if n > 0 {
        lemma_packed_push(types, t, (n - 1) as nat);
        assert(types.push(t)[n - 1] == types[n - 1]);
    }
}

proof fn lemma_packed_push_all(types: Seq<LlvmTy>, t: LlvmTy)
    ensures
        packed_sum(types.push(t), types.len() + 1) == packed_sum(types, types.len()) + packed_size(
            t,
        ),
{
    lemma_packed_push(types, t, types.len());
    assert(types.push(t)[types.len() as int] == t);
}

/// Whether the packed size of every field that takes storage is the size that
/// rustc reported for it, where it reported one.
pub open spec fn sizes_agree(l: LayoutFacts, tys: Seq<LlvmTy>) -> bool {
    forall|d: int|
        #![trigger tys[d]]
        0 <= d < tys.len() && !zero_sized(tys[d]) ==> field_size(l.field_types[d], tys[d])
            == packed_size(tys[d])
}

proof fn lemma_pad_to_size(p: Placement, target: u64)
    requires
        p.offset == packed_sum(p.fields, p.fields.len()),
    ensures
        pad_to(p, target).offset == packed_sum(
            pad_to(p, target).fields,
            pad_to(p, target).fields.len(),
        ),
{
    if p.offset < target {
        lemma_padding_size((target - p.offset) as u64);
        lemma_packed_push_all(p.fields, padding_ty((target - p.offset) as u64));
    }
}

proof fn lemma_offset_is_size(l: LayoutFacts, tys: Seq<LlvmTy>, n: nat)
    requires
        layout_error(l) is None,
        explicit_layout(l),
        tys.len() == l.field_types.len(),
        n <= tys.len(),
        sizes_agree(l, tys),
    ensures
        place(l, tys, n).offset == packed_sum(
            place(l, tys, n).fields,
            place(l, tys, n).fields.len(),
        ),
    decreases n,
{
    if n > 0 {
        let m = (n - 1) as nat;
        lemma_offset_is_size(l, tys, m);
        let decl = l.mem_to_decl[m as int] as int;
        let p = place(l, tys, m);
        assert(place(l, tys, n) == place_field(l, tys[decl], p, decl));
        if !zero_sized(tys[decl]) {
            lemma_pad_to_size(p, l.field_offsets[decl]);
            lemma_packed_push_all(before_field(l, p, decl).fields, tys[decl]);
        }
    }
}

/// Where the sizes of the fields agree with rustc's, the slots of a lowered
/// struct add up to rustc's total size.
pub proof fn law_struct_has_rustc_size(l: LayoutFacts, tys: Seq<LlvmTy>)
    requires
        layout_error(l) is None,
        explicit_layout(l),
        tys.len() == l.field_types.len(),
        sound_layout(l, tys),
        sizes_agree(l, tys),
    ensures
        packed_size(LlvmTy::Struct { fields: placed(l, tys).fields }) == l.total_size,
{
    law_fields_at_rustc_offsets(l, tys);
    lemma_offset_is_size(l, tys, tys.len());
    lemma_pad_to_size(place(l, tys, tys.len()), l.total_size);
}

// ---------------------------------------------------------------------------
// Padding
// ---------------------------------------------------------------------------

/// Whether slot `i` is where field `d` went.
pub open spec fn owns(p: Placement, d: int, i: int) -> bool {
    0 <= d < p.slots.len() && p.slots[d] == Some(i as u32)
}

/// The bytes of slot `i`: those that rustc gives to the field that owns it, or
/// the size of the padding.
pub open spec fn slot_bytes(l: LayoutFacts, tys: Seq<LlvmTy>, p: Placement, i: int) -> nat {
    if exists|d: int| owns(p, d, i) {
        let d = choose|d: int| owns(p, d, i);
        field_size(l.field_types[d], tys[d])
    } else {
        packed_size(p.fields[i])
    }
}

/// The bytes of the first `n` slots.
pub open spec fn bytes_before(l: LayoutFacts, tys: Seq<LlvmTy>, p: Placement, n: nat) -> nat
    decreases n,
{
    if n == 0 {
        0
    } else {
        bytes_before(l, tys, p, (n - 1) as nat) + slot_bytes(l, tys, p, n - 1)
    }
}

/// The position of the slot of the `k`th field in memory order, where it takes
/// storage.
spec fn position(l: LayoutFacts, tys: Seq<LlvmTy>, k: nat) -> nat {
    before_field(l, place(l, tys, k), l.mem_to_decl[k as int] as int).fields.len()
}

/// Each field's slot is at its position.
proof fn lemma_positions(l: LayoutFacts, tys: Seq<LlvmTy>, n: nat)
    requires
        is_permutation(l.mem_to_decl, l.field_types.len()),
        tys.len() == l.field_types.len(),
        n <= tys.len(),
    ensures
        ({
            let p = place(l, tys, n);
            let order = l.mem_to_decl;
            &&& p.slots.len() == tys.len()
            &&& forall|k: int|
                #![trigger order[k]]
                0 <= k < n ==> p.slots[order[k] as int] == if zero_sized(tys[order[k] as int]) {
                    None
                } else {
                    Some(position(l, tys, k as nat) as u32)
                }
            &&& forall|k: int|
                n <= k < tys.len() ==> p.slots[#[trigger] order[k] as int] is None
        }),
    decreases n,
{
    if n > 0 {
        let m = (n - 1) as nat;
        lemma_positions(l, tys, m);
        let order = l.mem_to_decl;
        let decl = order[m as int] as int;
        assert(place(l, tys, n) == place_field(l, tys[decl], place(l, tys, m), decl));
        assert forall|k: int| 0 <= k < tys.len() && k != m implies order[k] != decl by {
            if k < m {
                assert(order[k] != order[m as int]);
            } else {
                assert(order[m as int] != order[k]);
            }
        }
    }
}

/// Who owns slot `i`, read off the position of each field.
proof fn lemma_owner(l: LayoutFacts, tys: Seq<LlvmTy>, d: int, i: int)
    requires
        layout_error(l) is None,
        tys.len() == l.field_types.len(),
        placed(l, tys).fields.len() <= u32::MAX,
        owns(placed(l, tys), d, i),
        0 <= i <= u32::MAX,
    ensures
        exists|k: int|
            0 <= k < tys.len() && #[trigger] l.mem_to_decl[k] == d && !zero_sized(tys[d])
                && position(l, tys, k as nat) == i,
{
    let n = tys.len();
    lemma_positions(l, tys, n);
    lemma_permutation_covers(l.mem_to_decl, n, d);
    let k = choose|k: int| 0 <= k < n && #[trigger] l.mem_to_decl[k] == d;
    lemma_position_within(l, tys, k as nat);
}

/// The slot of the `k`th field lies behind those of the fields before it.
proof fn lemma_position_within(l: LayoutFacts, tys: Seq<LlvmTy>, k: nat)
    requires
        layout_error(l) is None,
        tys.len() == l.field_types.len(),
        k < tys.len(),
    ensures
        place(l, tys, k).fields.len() <= position(l, tys, k) <= place(l, tys, k).fields.len() + 1,
        !zero_sized(tys[l.mem_to_decl[k as int] as int]) ==> position(l, tys, k) + 1 == place(
            l,
            tys,
            (k + 1) as nat,
        ).fields.len(),
        !zero_sized(tys[l.mem_to_decl[k as int] as int]) ==> position(l, tys, k) < placed(
            l,
            tys,
        ).fields.len(),
{
    let decl = l.mem_to_decl[k as int] as int;
    assert(place(l, tys, (k + 1) as nat) == place_field(l, tys[decl], place(l, tys, k), decl));
    lemma_place_grows(l, tys, (k + 1) as nat, tys.len());
}

/// Slot `i` belongs to no field where it lies between what was placed before
/// the `k`th field and that field's slot.
proof fn lemma_gap_unowned(l: LayoutFacts, tys: Seq<LlvmTy>, k: nat, i: int)
    requires
        layout_error(l) is None,
        tys.len() == l.field_types.len(),
        placed(l, tys).fields.len() <= u32::MAX,
        k <= tys.len(),
        place(l, tys, k).fields.len() <= i < placed(l, tys).fields.len(),
        k < tys.len() ==> !zero_sized(tys[l.mem_to_decl[k as int] as int]) && i < position(
            l,
            tys,
            k,
        ),
    ensures
        !exists|d: int| owns(placed(l, tys), d, i),
{
    if exists|d: int| owns(placed(l, tys), d, i) {
        let d = choose|d: int| owns(placed(l, tys), d, i);
        lemma_owner(l, tys, d, i);
        let j = choose|j: int|
            0 <= j < tys.len() && #[trigger] l.mem_to_decl[j] == d && !zero_sized(tys[d])
                && position(l, tys, j as nat) == i;
        lemma_position_within(l, tys, j as nat);
        if j < k {
            lemma_place_grows(l, tys, (j + 1) as nat, k);
        } else if j > k {
            lemma_position_within(l, tys, k);
            lemma_place_grows(l, tys, (k + 1) as nat, j as nat);
        }
    }
}

/// The slot of the `k`th field belongs to that field alone.
proof fn lemma_field_slot(l: LayoutFacts, tys: Seq<LlvmTy>, k: nat)
    requires
        layout_error(l) is None,
        tys.len() == l.field_types.len(),
        placed(l, tys).fields.len() <= u32::MAX,
        k < tys.len(),
        !zero_sized(tys[l.mem_to_decl[k as int] as int]),
    ensures
        placed(l, tys).slots[l.mem_to_decl[k as int] as int] == Some(position(l, tys, k) as u32),
        slot_bytes(l, tys, placed(l, tys), position(l, tys, k) as int) == field_size(
            l.field_types[l.mem_to_decl[k as int] as int],
            tys[l.mem_to_decl[k as int] as int],
        ),
{
    let p = placed(l, tys);
    let i = position(l, tys, k) as int;
    let decl = l.mem_to_decl[k as int] as int;
    lemma_positions(l, tys, tys.len());
    lemma_position_within(l, tys, k);
    assert(owns(p, decl, i));
    let d = choose|d: int| owns(p, d, i);
    law_slots_hold_their_fields(l, tys);
    assert(p.slots[d] == p.slots[decl]);
    assert(d == decl);
}

/// A slot that no field owns is padding: an array of bytes that are not 0 in
/// number. There is padding only with rustc's layout.
pub proof fn law_unowned_slots_are_padding(l: LayoutFacts, tys: Seq<LlvmTy>, i: int)
    requires
        layout_error(l) is None,
        tys.len() == l.field_types.len(),
        placed(l, tys).fields.len() <= u32::MAX,
        0 <= i < placed(l, tys).fields.len(),
        forall|d: int| !owns(placed(l, tys), d, i),
    ensures
        explicit_layout(l),
        exists|size: u64| size > 0 && placed(l, tys).fields[i] == #[trigger] padding_ty(size),
{
    let n = tys.len();
    if i < place(l, tys, n).fields.len() {
        lemma_unowned_in_prefix(l, tys, n, i);
    }
}

proof fn lemma_unowned_in_prefix(l: LayoutFacts, tys: Seq<LlvmTy>, n: nat, i: int)
    requires
        layout_error(l) is None,
        tys.len() == l.field_types.len(),
        placed(l, tys).fields.len() <= u32::MAX,
        n <= tys.len(),
        0 <= i < place(l, tys, n).fields.len(),
        forall|d: int| !owns(placed(l, tys), d, i),
    ensures
        explicit_layout(l),
        exists|size: u64| size > 0 && placed(l, tys).fields[i] == #[trigger] padding_ty(size),
    decreases n,
{
    let m = (n - 1) as nat;
    let p = place(l, tys, m);
    if i < p.fields.len() {
        lemma_unowned_in_prefix(l, tys, m, i);
    } else {
        let decl = l.mem_to_decl[m as int] as int;
        assert(place(l, tys, n) == place_field(l, tys[decl], p, decl));
        lemma_field_slot(l, tys, m);
        lemma_position_within(l, tys, m);
        lemma_positions(l, tys, tys.len());
        if i == position(l, tys, m) {
            assert(owns(placed(l, tys), decl, i));
        }
        assert(i < position(l, tys, m));
        let size = (l.field_offsets[decl] - p.offset) as u64;
        assert(place(l, tys, n).fields[i] == padding_ty(size));
        lemma_place_grows(l, tys, n, tys.len());
    }
}

proof fn lemma_bytes_placed(l: LayoutFacts, tys: Seq<LlvmTy>, n: nat)
    requires
        layout_error(l) is None,
        explicit_layout(l),
        tys.len() == l.field_types.len(),
        placed(l, tys).fields.len() <= u32::MAX,
        n <= tys.len(),
    ensures
        bytes_before(l, tys, placed(l, tys), place(l, tys, n).fields.len()) == place(
            l,
            tys,
            n,
        ).offset,
        n < tys.len() && !zero_sized(tys[l.mem_to_decl[n as int] as int]) ==> bytes_before(
            l,
            tys,
            placed(l, tys),
            position(l, tys, n),
        ) == before_field(l, place(l, tys, n), l.mem_to_decl[n as int] as int).offset,
    decreases n,
{
    let p = placed(l, tys);
    if n > 0 {
        let m = (n - 1) as nat;
        lemma_bytes_placed(l, tys, m);
        let decl = l.mem_to_decl[m as int] as int;
        assert(place(l, tys, n) == place_field(l, tys[decl], place(l, tys, m), decl));
        if !zero_sized(tys[decl]) {
            lemma_position_within(l, tys, m);
            lemma_field_slot(l, tys, m);
        }
    }
    if n < tys.len() && !zero_sized(tys[l.mem_to_decl[n as int] as int]) {
        let q = place(l, tys, n);
        let decl = l.mem_to_decl[n as int] as int;
        lemma_position_within(l, tys, n);
        if q.offset < l.field_offsets[decl] {
            let size = (l.field_offsets[decl] - q.offset) as u64;
            let i = q.fields.len() as int;
            lemma_gap_unowned(l, tys, n, i);
            lemma_padding_size(size);
            assert(place(l, tys, (n + 1) as nat) == place_field(l, tys[decl], q, decl));
            assert(place(l, tys, (n + 1) as nat).fields[i] == padding_ty(size));
            lemma_place_grows(l, tys, (n + 1) as nat, tys.len());
            assert(p.fields[i] == padding_ty(size));
            assert(slot_bytes(l, tys, p, i) == size);
            assert(position(l, tys, n) == q.fields.len() + 1);
            assert(bytes_before(l, tys, p, q.fields.len()) == q.offset);
            assert(bytes_before(l, tys, p, q.fields.len() + 1) == bytes_before(
                l,
                tys,
                p,
                q.fields.len(),
            ) + slot_bytes(l, tys, p, i)) by {
                assert((q.fields.len() + 1 - 1) as nat == q.fields.len());
            }
        } else {
            assert(position(l, tys, n) == q.fields.len());
        }
    }
}

/// With rustc's layout, the slots before a field's own add up to the field's
/// offset, and all slots add up to the total size, where a field's slot counts
/// with the bytes that rustc gives to the field.
pub proof fn law_slots_add_up_to_offsets(l: LayoutFacts, tys: Seq<LlvmTy>, d: int)
    requires
        layout_error(l) is None,
        explicit_layout(l),
        tys.len() == l.field_types.len(),
        placed(l, tys).fields.len() <= u32::MAX,
        sound_layout(l, tys),
        0 <= d < tys.len(),
    ensures
        !zero_sized(tys[d]) ==> bytes_before(
            l,
            tys,
            placed(l, tys),
            placed(l, tys).slots[d]->0 as nat,
        ) == l.field_offsets[d],
        bytes_before(l, tys, placed(l, tys), placed(l, tys).fields.len()) == l.total_size,
{
    let n = tys.len();
    let p = placed(l, tys);
    law_fields_at_rustc_offsets(l, tys);
    if !zero_sized(tys[d]) {
        lemma_permutation_covers(l.mem_to_decl, n, d);
        let k = choose|k: int| 0 <= k < n && #[trigger] l.mem_to_decl[k] == d;
        lemma_bytes_placed(l, tys, k as nat);
        lemma_field_slot(l, tys, k as nat);
        lemma_position_within(l, tys, k as nat);
    }
    lemma_bytes_placed(l, tys, n);
    let q = place(l, tys, n);
    if q.offset < l.total_size {
        let size = (l.total_size - q.offset) as u64;
        let i = q.fields.len() as int;
        lemma_gap_unowned(l, tys, n, i);
        lemma_padding_size(size);
        assert(slot_bytes(l, tys, p, i) == size);
    }
}

// ---------------------------------------------------------------------------
// Enums
// ---------------------------------------------------------------------------

proof fn lemma_natural_push(types: Seq<LlvmTy>, t: LlvmTy, n: nat)
    requires
        n <= types.len(),
    ensures
        natural_end(types.push(t), n) == natural_end(types, n),
        widest_align(types.push(t), n) == widest_align(types, n),
    decreases n,
{
    if n > 0 {
        lemma_natural_push(types, t, (n - 1) as nat);
        assert(types.push(t)[n - 1] == types[n - 1]);
    }
}

proof fn lemma_widest_at_least_one(types: Seq<LlvmTy>, n: nat)
    requires
        n <= types.len(),
    ensures
        widest_align(types, n) >= 1,
    decreases n,
{
    if n > 0 {
        lemma_widest_at_least_one(types, (n - 1) as nat);
    }
}

/// An enum whose struct is not larger than rustc's size has exactly that size
/// in memory, where the size is a multiple of the struct's alignment.
pub proof fn law_enum_has_rustc_size(fields: Seq<LlvmTy>, total_size: u64)
    requires
        total_size > 0,
        natural_size(LlvmTy::Struct { fields }) <= total_size,
        (total_size as nat) % widest_align(fields, fields.len()) == 0,
    ensures
        natural_size(LlvmTy::Struct { fields: enum_fields(fields, total_size) }) == total_size,
{
    if natural_size(LlvmTy::Struct { fields }) < total_size {
        let end = natural_end(fields, fields.len());
        lemma_natural_end_in_size(fields);
        let pad = padding_ty((total_size - end) as u64);
        lemma_padding_size((total_size - end) as u64);
        lemma_natural_push(fields, pad, fields.len());
        let padded = fields.push(pad);
        assert(padded[fields.len() as int] == pad);
        lemma_widest_at_least_one(fields, fields.len());
        assert(round_up(end, 1) == end);
        assert(natural_end(padded, padded.len()) == total_size);
        assert(widest_align(padded, padded.len()) == widest_align(fields, fields.len()));
    }
}

/// Padding an enum appends: the fields before the padding keep their indices.
pub proof fn law_enum_padding_keeps_indices(fields: Seq<LlvmTy>, total_size: u64, i: int)
    requires
        0 <= i < fields.len(),
    ensures
        enum_fields(fields, total_size)[i] == fields[i],
{
}

/// The slots of the first `n` fields all take storage.
proof fn lemma_placed_slots_take_storage(l: LayoutFacts, tys: Seq<LlvmTy>, n: nat)
    ensures
        forall|i: int|
            0 <= i < place(l, tys, n).fields.len() ==> !zero_sized(
                #[trigger] place(l, tys, n).fields[i],
            ),
    decreases n,
{
    if n > 0 {
        lemma_placed_slots_take_storage(l, tys, (n - 1) as nat);
        let decl = l.mem_to_decl[n - 1] as int;
        let p = place(l, tys, (n - 1) as nat);
        let q = before_field(l, p, decl);
        assert forall|i: int| 0 <= i < place(l, tys, n).fields.len() implies !zero_sized(
            #[trigger] place(l, tys, n).fields[i],
        ) by {
            if i < p.fields.len() {
                assert(place(l, tys, n).fields[i] == p.fields[i]);
            } else if !zero_sized(tys[decl]) && i < q.fields.len() {
                assert(place(l, tys, n).fields[i] == q.fields[i]);
            }
        }
    }
}

/// No slot of a lowered struct is empty: zero-sized fields are stripped, and
/// padding is an array of bytes.
pub proof fn law_slots_take_storage(l: LayoutFacts, tys: Seq<LlvmTy>, i: int)
    requires
        0 <= i < placed(l, tys).fields.len(),
    ensures
        !zero_sized(placed(l, tys).fields[i]),
{
    lemma_placed_slots_take_storage(l, tys, l.mem_to_decl.len());
}

/// The fields of a flattened struct all take storage.
proof fn lemma_flat_fields_take_storage(field_types: Seq<MirTy>, order: Seq<usize>, n: nat)
    requires
        flat_fields(field_types, order, n) is Ok,
    ensures
        forall|i: int|
            0 <= i < flat_fields(field_types, order, n)->Ok_0.len() ==> !zero_sized(
                #[trigger] flat_fields(field_types, order, n)->Ok_0[i],
            ),
    decreases n,
{
    if n > 0 {
        lemma_flat_fields_take_storage(field_types, order, (n - 1) as nat);
    }
}

/// No parameter of a lowered function is zero-sized, and neither is its
/// result: PTX has no empty parameters.
pub proof fn law_parameters_take_storage(
    inputs: Seq<MirTy>,
    results: Seq<MirTy>,
    is_kernel_entry: bool,
    n: nat,
)
    requires
        n <= inputs.len(),
        flat_inputs(inputs, is_kernel_entry, n) is Ok,
    ensures
        forall|i: int|
            0 <= i < flat_inputs(inputs, is_kernel_entry, n)->Ok_0.len() ==> !zero_sized(
                #[trigger] flat_inputs(inputs, is_kernel_entry, n)->Ok_0[i],
            ),
        flat_result(results) is Ok ==> !zero_sized(flat_result(results)->Ok_0),
    decreases n,
{
    if n > 0 {
        law_parameters_take_storage(inputs, results, is_kernel_entry, (n - 1) as nat);
        let ty = inputs[n - 1];
        if ty is Struct && !is_kernel_entry {
            let field_types = ty->Struct_field_types;
            lemma_flat_fields_take_storage(
                field_types,
                memory_order(ty->mem_to_decl, field_types.len()),
                field_types.len(),
            );
        }
    }
}

/// A kernel entry takes a struct or closure as one parameter, as the host
/// passes it, while slices are a pointer and a length on both sides.
pub proof fn law_kernel_entry_keeps_structs_whole(ty: MirTy)
    requires
        flat_input(ty, true) is Ok,
    ensures
        ty is Slice || ty is DisjointSlice ==> flat_input(ty, true) == flat_input(ty, false)
            && flat_input(ty, true)->Ok_0.len() == 2,
        !(ty is Slice || ty is DisjointSlice) ==> flat_input(ty, true)->Ok_0.len() <= 1,
        ty is Struct && flat_input(ty, true)->Ok_0.len() == 1 ==> convert_ty(ty) == Ok::<
            LlvmTy,
            ConvertErr,
        >(flat_input(ty, true)->Ok_0[0]),
{
}

} // verus!
