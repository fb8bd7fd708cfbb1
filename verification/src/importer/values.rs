//! MIR locals as stack slots: each local has one `mir.alloca`, its
//! definitions are stores and its uses loads.

use vstd::prelude::*;

use crate::importer::body::Local;
use crate::ir::mir::{mir_ty, mir_tys, MirTy, MirType};

verus! {

/// A value of the IR, by the order of creation.
pub type ValueId = usize;

/// An operation of the IR, by the order of creation.
pub type OpId = usize;

/// The operations on slots.
#[derive(Debug, Clone, Copy, PartialEq, Eq, Structural)]
pub enum MirOp {
    /// Reserves a slot; `res` points to it.
    Alloca { res: ValueId },
    /// Reads the slot that `ptr` points to.
    Load { ptr: ValueId, res: ValueId },
    /// Writes `value` to the slot that `ptr` points to.
    Store { ptr: ValueId, value: ValueId },
    /// Casts a pointer to another pointer type.
    CastPtrToPtr { value: ValueId, res: ValueId },
}

/// The values and operations created so far.
pub struct MirBuilder {
    /// The type of each value.
    pub value_types: Vec<MirType>,
    /// Each operation.
    pub ops: Vec<MirOp>,
}

impl MirBuilder {
    /// The type of a value.
    pub open spec fn type_of(&self, value: ValueId) -> MirTy {
        mir_ty(self.value_types@[value as int])
    }
}

/// The operations of a block, in order.
pub type BlockOps = Vec<OpId>;

/// Whether `after` is `before` with `op` inserted after `prev`, or at the
/// front where there is no `prev`.
pub open spec fn inserted(
    before: Seq<OpId>,
    after: Seq<OpId>,
    op: OpId,
    prev: Option<OpId>,
) -> bool {
    match prev {
        Some(p) => exists|i: int|
            0 <= i < before.len() && #[trigger] before[i] == p && after == before.insert(i + 1, op),
        None => after == before.insert(0, op),
    }
}

/// Whether `prev`, if there is one, stands in the block.
pub open spec fn anchored(block: Seq<OpId>, prev: Option<OpId>) -> bool {
    match prev {
        Some(p) => block.contains(p),
        None => true,
    }
}

/// Inserts `op` after `prev` if there is one, else at the front of the block.
fn insert_at(op: OpId, block: &mut BlockOps, prev: Option<OpId>)
    requires
        anchored(old(block)@, prev),
    ensures
        inserted(old(block)@, final(block)@, op, prev),
        final(block)@.contains(op),
{
    match prev {
        Some(p) => {
            let mut i: usize = 0;
            while block[i] != p
                invariant
                    i < block.len(),
                    block@ == old(block)@,
                    block@.contains(p),
                    forall|k: int| 0 <= k < i ==> block@[k] != p,
                decreases block@.len() - i,
            {
                proof {
                    let at = choose|k: int| 0 <= k < block@.len() && block@[k] == p;
                    assert(block@[at] == p);
                    assert(at > i);
                }
                i = i + 1;
            }
            assert(old(block)@[i as int] == p);
            block.insert(i + 1, op);
            assert(block@[i + 1] == op);
        },
        None => {
            block.insert(0, op);
            assert(block@[0] == op);
        },
    }
}

/// Maps MIR locals to their slots.
pub struct ValueMap {
    slots: Vec<Option<ValueId>>,
}

impl ValueMap {
    /// The number of locals.
    pub closed spec fn num_locals(&self) -> nat {
        self.slots@.len()
    }

    /// The slot of a local.
    pub closed spec fn slot_of(&self, local: Local) -> Option<ValueId> {
        if local < self.slots@.len() {
            self.slots@[local as int]
        } else {
            None
        }
    }

    /// A map in which no local has a slot.
    pub fn new(num_locals: usize) -> (map: Self)
        ensures
            map.num_locals() == num_locals,
            forall|local: Local| map.slot_of(local) is None,
    {
        ValueMap { slots: vec![None; num_locals] }
    }

    /// The pointer to the slot of `local`, if it has one.
    pub fn get_slot(&self, local: Local) -> (slot: Option<ValueId>)
        ensures
            slot == self.slot_of(local),
    {
        if local < self.slots.len() {
            self.slots[local]
        } else {
            None
        }
    }

    /// Records the pointer to the slot of `local`; a local that the map does
    /// not cover is ignored.
    pub fn set_slot(&mut self, local: Local, slot: ValueId)
        ensures
            final(self).num_locals() == old(self).num_locals(),
            forall|l: Local|
                final(self).slot_of(l) == if l == local && l < old(self).num_locals() {
                    Some(slot)
                } else {
                    old(self).slot_of(l)
                },
    {
        if local < self.slots.len() {
            self.slots.set(local, Some(slot));
        }
    }

    /// Reserves a slot for `elem_ty`: a mutable pointer in the generic address
    /// space.
    pub fn emit_alloca(
        builder: &mut MirBuilder,
        elem_ty: &MirType,
        block: &mut BlockOps,
        prev_op: Option<OpId>,
    ) -> (created: (OpId, ValueId))
        requires
            anchored(old(block)@, prev_op),
        ensures
            created.0 == old(builder).ops@.len(),
            created.1 == old(builder).value_types@.len(),
            final(builder).ops@ == old(builder).ops@.push(MirOp::Alloca { res: created.1 }),
            mir_tys(final(builder).value_types@) == mir_tys(old(builder).value_types@).push(
                (MirTy::Ptr {
                    pointee: Box::new(elem_ty@),
                    is_mutable: true,
                    address_space: 0,
                }),
            ),
            inserted(old(block)@, final(block)@, created.0, prev_op),
    {
        let ghost types = builder.value_types@;
        let res: ValueId = builder.value_types.len();
        let op: OpId = builder.ops.len();
        let ptr_ty = MirType::Ptr {
            pointee: Box::new(elem_ty.clone()),
            is_mutable: true,
            address_space: 0,
        };
        builder.value_types.push(ptr_ty);
        assert(mir_tys(builder.value_types@) =~= mir_tys(types).push(ptr_ty@));
        builder.ops.push(MirOp::Alloca { res });
        insert_at(op, block, prev_op);
        (op, res)
    }

    /// Whether the slot of a local, if it has one, is a pointer.
    pub open spec fn slot_is_pointer(&self, builder: MirBuilder, local: Local) -> bool {
        match self.slot_of(local) {
            Some(slot) => slot < builder.value_types@.len() && builder.type_of(slot) is Ptr,
            None => true,
        }
    }

    /// Reads the slot of `local`; `None` where it has none.
    pub fn load_local(
        &self,
        builder: &mut MirBuilder,
        local: Local,
        block: &mut BlockOps,
        prev_op: Option<OpId>,
    ) -> (created: Option<(OpId, ValueId)>)
        requires
            anchored(old(block)@, prev_op),
            self.slot_is_pointer(*old(builder), local),
        ensures
            match self.slot_of(local) {
                Some(slot) => {
                    &&& created == Some((old(builder).ops@.len() as usize, old(
                        builder,
                    ).value_types@.len() as usize))
                    &&& final(builder).ops@ == old(builder).ops@.push(
                        MirOp::Load { ptr: slot, res: (created->0).1 },
                    )
                    &&& mir_tys(final(builder).value_types@) == mir_tys(
                        old(builder).value_types@,
                    ).push(*old(builder).type_of(slot)->Ptr_pointee)
                    &&& inserted(old(block)@, final(block)@, (created->0).0, prev_op)
                },
                None => {
                    &&& created is None
                    &&& *final(builder) == *old(builder)
                    &&& *final(block) == *old(block)
                },
            },
    {
        match self.get_slot(local) {
            Some(slot) => {
                let ghost types = builder.value_types@;
                let res: ValueId = builder.value_types.len();
                let op: OpId = builder.ops.len();
                let elem_ty = slot_pointee(builder, slot);
                builder.value_types.push(elem_ty);
                assert(mir_tys(builder.value_types@) =~= mir_tys(types).push(elem_ty@));
                builder.ops.push(MirOp::Load { ptr: slot, res });
                insert_at(op, block, prev_op);
                Some((op, res))
            },
            None => None,
        }
    }

    /// Writes `value` to the slot of `local`; `None` where it has none.
    ///
    /// A pointer whose type is not the slot's is cast to it first.
    pub fn store_local(
        &self,
        builder: &mut MirBuilder,
        local: Local,
        value: ValueId,
        block: &mut BlockOps,
        prev_op: Option<OpId>,
    ) -> (created: Option<OpId>)
        requires
            anchored(old(block)@, prev_op),
            self.slot_is_pointer(*old(builder), local),
            value < old(builder).value_types@.len(),
        ensures
            match self.slot_of(local) {
                Some(slot) => {
                    let target = *old(builder).type_of(slot)->Ptr_pointee;
                    let types = mir_tys(old(builder).value_types@);
                    let ops = old(builder).ops@;
                    if needs_cast(old(builder).type_of(value), target) {
                        let cast_value = types.len() as usize;
                        let cast_op = ops.len() as usize;
                        &&& created == Some((ops.len() + 1) as usize)
                        &&& final(builder).ops@ == ops.push(
                            MirOp::CastPtrToPtr { value, res: cast_value },
                        ).push(MirOp::Store { ptr: slot, value: cast_value })
                        &&& mir_tys(final(builder).value_types@) == types.push(target)
                        &&& exists|mid: Seq<OpId>|
                            {
                                &&& #[trigger] inserted(old(block)@, mid, cast_op, prev_op)
                                &&& inserted(mid, final(block)@, created->0, Some(cast_op))
                            }
                    } else {
                        &&& created == Some(ops.len() as usize)
                        &&& final(builder).ops@ == ops.push(MirOp::Store { ptr: slot, value })
                        &&& mir_tys(final(builder).value_types@) == types
                        &&& inserted(old(block)@, final(block)@, created->0, prev_op)
                    }
                },
                None => {
                    &&& created is None
                    &&& *final(builder) == *old(builder)
                    &&& *final(block) == *old(block)
                },
            },
    {
        match self.get_slot(local) {
            Some(slot) => {
                let slot_elem_ty = slot_pointee(builder, slot);
                let (value, prev_op) = maybe_ptr_coerce(
                    builder,
                    value,
                    &slot_elem_ty,
                    block,
                    prev_op,
                );
                let ghost mid = block@;
                let op: OpId = builder.ops.len();
                builder.ops.push(MirOp::Store { ptr: slot, value });
                insert_at(op, block, prev_op);
                Some(op)
            },
            None => None,
        }
    }
}

/// Whether a value of type `from` must be cast to be stored as `to`: both are
/// pointers, of different types.
pub open spec fn needs_cast(from: MirTy, to: MirTy) -> bool {
    from != to && from is Ptr && to is Ptr
}

/// Casts a pointer value to the pointer type `target_ty` if it has another;
/// the value to use, and the operation to go on after.
fn maybe_ptr_coerce(
    builder: &mut MirBuilder,
    value: ValueId,
    target_ty: &MirType,
    block: &mut BlockOps,
    prev_op: Option<OpId>,
) -> (r: (ValueId, Option<OpId>))
    requires
        anchored(old(block)@, prev_op),
        value < old(builder).value_types@.len(),
    ensures
        ({
            let types = mir_tys(old(builder).value_types@);
            let ops = old(builder).ops@;
            if needs_cast(old(builder).type_of(value), target_ty@) {
                &&& r.0 == types.len()
                &&& r.1 == Some(ops.len() as usize)
                &&& final(builder).ops@ == ops.push(MirOp::CastPtrToPtr { value, res: r.0 })
                &&& mir_tys(final(builder).value_types@) == types.push(target_ty@)
                &&& inserted(old(block)@, final(block)@, ops.len() as usize, prev_op)
            } else {
                &&& r == (value, prev_op)
                &&& *final(builder) == *old(builder)
                &&& *final(block) == *old(block)
            }
        }),
        anchored(final(block)@, r.1),
{
    if builder.value_types[value].same(target_ty) {
        return (value, prev_op);
    }
    if !is_pointer_type(&builder.value_types[value]) || !is_pointer_type(target_ty) {
        return (value, prev_op);
    }
    let ghost types = builder.value_types@;
    let res: ValueId = builder.value_types.len();
    let op: OpId = builder.ops.len();
    let ty = target_ty.clone();
    builder.value_types.push(ty);
    assert(mir_tys(builder.value_types@) =~= mir_tys(types).push(ty@));
    builder.ops.push(MirOp::CastPtrToPtr { value, res });
    insert_at(op, block, prev_op);
    (res, Some(op))
}

/// Whether a type is a pointer.
fn is_pointer_type(ty: &MirType) -> (yes: bool)
    ensures
        yes == (ty@ is Ptr),
{
    match ty {
        MirType::Ptr { .. } => true,
        _ => false,
    }
}

/// What the pointer `slot` points to.
fn slot_pointee(builder: &MirBuilder, slot: ValueId) -> (ty: MirType)
    requires
        slot < builder.value_types@.len(),
        builder.type_of(slot) is Ptr,
    ensures
        ty@ == *builder.type_of(slot)->Ptr_pointee,
{
    match &builder.value_types[slot] {
        MirType::Ptr { pointee, .. } => (&**pointee).clone(),
        other => other.clone(),
    }
}

/// `elem_ty` with the address space `target`, if it is a pointer; otherwise
/// `elem_ty`.
pub fn align_pointer_addr_space(elem_ty: &MirType, target: u32) -> (ty: MirType)
    ensures
        ty@ == match elem_ty@ {
            MirTy::Ptr { pointee, is_mutable, .. } => MirTy::Ptr {
                pointee,
                is_mutable,
                address_space: target,
            },
            other => other,
        },
{
    match elem_ty {
        MirType::Ptr { pointee, is_mutable, .. } => MirType::Ptr {
            pointee: Box::new((&**pointee).clone()),
            is_mutable: *is_mutable,
            address_space: target,
        },
        other => other.clone(),
    }
}

/// The address space of a pointer type; `None` for any other type.
pub fn pointer_addr_space(elem_ty: &MirType) -> (space: Option<u32>)
    ensures
        space == match elem_ty@ {
            MirTy::Ptr { address_space, .. } => Some(address_space),
            _ => None,
        },
{
    match elem_ty {
        MirType::Ptr { address_space, .. } => Some(*address_space),
        _ => None,
    }
}

} // verus!
