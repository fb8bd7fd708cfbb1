//! What holds of the loads and stores of locals.

use vstd::prelude::*;

use crate::importer::body::Local;
use crate::importer::values::{
    align_pointer_addr_space, inserted, pointer_addr_space, BlockOps, MirBuilder, MirOp, OpId,
    ValueId, ValueMap,
};
use crate::ir::mir::{mir_tys, MirTy, MirType};

verus! {

/// Whether `op` stands directly behind `prev` in the block, or first where
/// there is no `prev`, and the block without it is `before`.
pub open spec fn stands_behind(
    before: Seq<OpId>,
    after: Seq<OpId>,
    op: OpId,
    prev: Option<OpId>,
) -> bool {
    exists|i: int|
        {
            &&& 0 <= i < after.len()
            &&& #[trigger] after[i] == op
            &&& after.remove(i) == before
            &&& prev is None ==> i == 0
            &&& prev is Some ==> i > 0 && after[i - 1] == prev->0
        }
}

/// An insertion puts the operation directly behind the one it names, or first,
/// and keeps the others in order.
pub proof fn law_insertion_keeps_order(
    before: Seq<OpId>,
    after: Seq<OpId>,
    op: OpId,
    prev: Option<OpId>,
)
    requires
        inserted(before, after, op, prev),
    ensures
        stands_behind(before, after, op, prev),
{
    match prev {
        Some(p) => {
            let i = choose|i: int|
                0 <= i < before.len() && #[trigger] before[i] == p && after == before.insert(
                    i + 1,
                    op,
                );
            assert(after[i + 1] == op);
            assert(after[i] == before[i]);
            assert(after.remove(i + 1) =~= before);
        },
        None => {
            assert(after[0] == op);
            assert(after.remove(0) =~= before);
        },
    }
}

proof fn lemma_pushed_type(a: MirBuilder, b: MirBuilder, ty: MirTy)
    requires
        mir_tys(b.value_types@) == mir_tys(a.value_types@).push(ty),
    ensures
        b.value_types@.len() == a.value_types@.len() + 1,
        b.type_of(a.value_types@.len() as usize) == ty,
        forall|v: ValueId| v < a.value_types@.len() ==> #[trigger] b.type_of(v) == a.type_of(v),
{
    let n = a.value_types@.len() as int;
    assert(a.value_types@.len() == a.value_types.len());
    assert(mir_tys(b.value_types@).len() == b.value_types@.len());
    assert(mir_tys(a.value_types@).len() == a.value_types@.len());
    assert(mir_tys(b.value_types@)[n] == ty);
    assert forall|v: ValueId| v < a.value_types@.len() implies #[trigger] b.type_of(v)
        == a.type_of(v) by {
        assert(mir_tys(b.value_types@)[v as int] == mir_tys(a.value_types@)[v as int]);
    }
}

/// A load of a local with a slot reads through the slot, gives a new value of
/// the type that the slot holds, and stands where it was asked to; one of a
/// local without a slot does nothing.
pub proof fn law_load_reads_the_slot(
    map: ValueMap,
    builder: &mut MirBuilder,
    local: Local,
    block: &mut BlockOps,
    prev: Option<OpId>,
    created: Option<(OpId, ValueId)>,
)
    requires
        call_ensures(ValueMap::load_local, (&map, builder, local, block, prev), created),
    ensures
        created is Some <==> map.slot_of(local) is Some,
        created is None ==> *final(builder) == *old(builder) && *final(block) == *old(block),
        created is Some ==> {
            let slot = map.slot_of(local)->0;
            let op = (created->0).0;
            let res = (created->0).1;
            &&& final(builder).ops@.len() == old(builder).ops@.len() + 1
            &&& final(builder).ops@.take(old(builder).ops@.len() as int) == old(builder).ops@
            &&& final(builder).ops@[op as int] == (MirOp::Load { ptr: slot, res })
            &&& res == old(builder).value_types@.len()
            &&& final(builder).type_of(res) == *old(builder).type_of(slot)->Ptr_pointee
            &&& forall|v: ValueId|
                v < old(builder).value_types@.len() ==> #[trigger] final(builder).type_of(v) == old(builder).type_of(v)
            &&& stands_behind(old(block)@, final(block)@, op, prev)
        },
{
    if created is Some {
        let slot = map.slot_of(local)->0;
        assert(old(builder).value_types@.len() == old(builder).value_types.len());
        assert(old(builder).ops@.len() == old(builder).ops.len());
        lemma_pushed_type(
            *old(builder),
            *final(builder),
            *old(builder).type_of(slot)->Ptr_pointee,
        );
        assert(final(builder).ops@.take(old(builder).ops@.len() as int) =~= old(builder).ops@);
        law_insertion_keeps_order(old(block)@, final(block)@, (created->0).0, prev);
    }
}

/// A store to a local with a slot writes through the slot. What it writes is
/// the value itself, or, where the value is a pointer of another type than the
/// pointer that the slot holds, the value cast to that type. One to a local
/// without a slot does nothing.
pub proof fn law_store_writes_the_slot(
    map: ValueMap,
    builder: &mut MirBuilder,
    local: Local,
    value: ValueId,
    block: &mut BlockOps,
    prev: Option<OpId>,
    created: Option<OpId>,
)
    requires
        call_ensures(ValueMap::store_local, (&map, builder, local, value, block, prev), created),
        value < old(builder).value_types@.len(),
    ensures
        created is Some <==> map.slot_of(local) is Some,
        created is None ==> *final(builder) == *old(builder) && *final(block) == *old(block),
        created is Some ==> {
            let slot = map.slot_of(local)->0;
            let held = *old(builder).type_of(slot)->Ptr_pointee;
            let given = old(builder).type_of(value);
            let written = final(builder).ops@.last();
            &&& created->0 == final(builder).ops@.len() - 1
            &&& written is Store
            &&& written->Store_ptr == slot
            &&& given is Ptr && held is Ptr ==> final(builder).type_of(written->Store_value)
                == held
            &&& given == held || given !is Ptr || held !is Ptr ==> written->Store_value == value
                && final(builder).ops@.len() == old(builder).ops@.len() + 1 && stands_behind(
                old(block)@,
                final(block)@,
                created->0,
                prev,
            )
            &&& given != held && given is Ptr && held is Ptr ==> {
                &&& final(builder).ops@.len() == old(builder).ops@.len() + 2
                &&& final(builder).ops@[old(builder).ops@.len() as int] == (MirOp::CastPtrToPtr {
                    value,
                    res: written->Store_value,
                })
                &&& exists|mid: Seq<OpId>|
                    {
                        &&& #[trigger] stands_behind(
                            old(block)@,
                            mid,
                            old(builder).ops@.len() as usize,
                            prev,
                        )
                        &&& stands_behind(
                            mid,
                            final(block)@,
                            created->0,
                            Some(old(builder).ops@.len() as usize),
                        )
                    }
            }
        },
{
    if created is Some {
        let slot = map.slot_of(local)->0;
        let held = *old(builder).type_of(slot)->Ptr_pointee;
        let given = old(builder).type_of(value);
        assert(old(builder).value_types@.len() == old(builder).value_types.len());
        assert(old(builder).ops@.len() == old(builder).ops.len());
        assert(final(builder).ops@.len() == final(builder).ops.len());
        assert(mir_tys(old(builder).value_types@).len() == old(builder).value_types@.len());
        if given != held && given is Ptr && held is Ptr {
            lemma_pushed_type(*old(builder), *final(builder), held);
            let cast_op = old(builder).ops@.len() as usize;
            let mid = choose|mid: Seq<OpId>|
                {
                    &&& #[trigger] inserted(old(block)@, mid, cast_op, prev)
                    &&& inserted(mid, final(block)@, created->0, Some(cast_op))
                };
            law_insertion_keeps_order(old(block)@, mid, cast_op, prev);
            law_insertion_keeps_order(mid, final(block)@, created->0, Some(cast_op));
        } else {
            law_insertion_keeps_order(old(block)@, final(block)@, created->0, prev);
            assert(mir_tys(final(builder).value_types@)[value as int] == mir_tys(
                old(builder).value_types@,
            )[value as int]);
            assert(mir_tys(final(builder).value_types@).len() == final(builder).value_types@.len());
        }
    }
}

/// A slot is reserved as a mutable pointer into the generic address space to
/// the type it was asked for, and stands where it was asked to.
pub proof fn law_alloca_reserves_a_slot(
    builder: &mut MirBuilder,
    elem_ty: MirType,
    block: &mut BlockOps,
    prev: Option<OpId>,
    created: (OpId, ValueId),
)
    requires
        call_ensures(ValueMap::emit_alloca, (builder, &elem_ty, block, prev), created),
    ensures
        final(builder).type_of(created.1) is Ptr,
        *final(builder).type_of(created.1)->Ptr_pointee == elem_ty@,
        final(builder).type_of(created.1)->is_mutable,
        final(builder).type_of(created.1)->address_space == 0,
        final(builder).ops@.len() == old(builder).ops@.len() + 1,
        final(builder).ops@[created.0 as int] == (MirOp::Alloca { res: created.1 }),
        forall|v: ValueId|
            v < old(builder).value_types@.len() ==> v != created.1 && #[trigger] final(builder).type_of(v) == old(builder).type_of(v),
        stands_behind(old(block)@, final(block)@, created.0, prev),
{
    assert(old(builder).value_types@.len() == old(builder).value_types.len());
    lemma_pushed_type(
        *old(builder),
        *final(builder),
        MirTy::Ptr { pointee: Box::new(elem_ty@), is_mutable: true, address_space: 0 },
    );
    law_insertion_keeps_order(old(block)@, final(block)@, created.0, prev);
}

/// A recorded slot is found again, and no other local is affected.
pub proof fn law_recorded_slot_is_found(
    num_locals: usize,
    map: &mut ValueMap,
    local: Local,
    slot: ValueId,
    found: Option<ValueId>,
    other: Local,
    found_other: Option<ValueId>,
)
    requires
        call_ensures(ValueMap::new, (num_locals,), *old(map)),
        call_ensures(ValueMap::set_slot, (map, local, slot), ()),
        call_ensures(ValueMap::get_slot, (final(map), local), found),
        call_ensures(ValueMap::get_slot, (final(map), other), found_other),
        other != local,
    ensures
        local < num_locals ==> found == Some(slot),
        local >= num_locals ==> found is None,
        found_other is None,
{
}

/// Recording the slot of one local keeps that of every other.
pub proof fn law_recording_keeps_other_slots(
    map: &mut ValueMap,
    local: Local,
    slot: ValueId,
    other: Local,
    before: Option<ValueId>,
    after: Option<ValueId>,
)
    requires
        call_ensures(ValueMap::set_slot, (map, local, slot), ()),
        call_ensures(ValueMap::get_slot, (old(map), other), before),
        call_ensures(ValueMap::get_slot, (final(map), other), after),
        other != local,
    ensures
        after == before,
{
}

/// Moving a type into an address space moves a pointer and nothing else.
pub proof fn law_aligning_moves_pointers_only(
    ty: MirType,
    target: u32,
    moved: MirType,
    before: Option<u32>,
    after: Option<u32>,
)
    requires
        call_ensures(align_pointer_addr_space, (&ty, target), moved),
        call_ensures(pointer_addr_space, (&ty,), before),
        call_ensures(pointer_addr_space, (&moved,), after),
    ensures
        before is Some <==> ty@ is Ptr,
        before is Some ==> before->0 == ty@->address_space && after == Some(target) && moved@ is Ptr
            && moved@->Ptr_pointee == ty@->Ptr_pointee && moved@->is_mutable == ty@->is_mutable,
        before is None ==> after is None && moved@ == ty@,
        before == Some(target) ==> moved@ == ty@,
{
}

} // verus!
