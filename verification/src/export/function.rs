//! The LLVM functions that are exported.

use vstd::prelude::*;

use crate::export::pointer_facts::Value;
use crate::ir::llvm::{llvm_ty, LlvmTy, LlvmType};

verus! {

/// One index of a pointer computation.
pub enum GepIndex {
    /// A constant.
    Constant(u32),
    /// The operand at this position.
    OperandIdx(usize),
}

/// An operation, as far as the exporter looks into it.
pub enum LlvmOp {
    Load { ptr: Value, res: Value },
    Store { val: Value, ptr: Value },
    Alloca { res: Value, elem_ty: LlvmType },
    GetElementPtr { ptr: Value, res: Value, src_elem_ty: LlvmType, gep_indices: Vec<GepIndex> },
    AtomicLoad { ptr: Value, res: Value },
    AtomicStore { val: Value, ptr: Value },
    AtomicRmw { ptr: Value, val: Value, res: Value },
    AtomicCompareExchange { ptr: Value, expected: Value, res: Value },
    Bitcast { val: Value, res: Value },
    AddrSpaceCast { val: Value, res: Value },
    IntToPtr { val: Value, res: Value },
    Select { cond: Value, true_val: Value, false_val: Value, res: Value },
    ExtractValue { agg: Value, res: Value, indices: Vec<u32> },
    InsertValue { agg: Value, val: Value, res: Value, indices: Vec<u32> },
    /// A call; `ret_ty` is the result type of the callee.
    Call { ret_ty: LlvmType, args: Vec<Value>, res: Value },
    /// A jump to block `dest`.
    Br { dest: usize, args: Vec<Value> },
    /// A conditional jump. The operands are the condition, then the arguments
    /// of the true destination, then those of the false one.
    CondBr { true_dest: usize, false_dest: usize, operands: Vec<Value> },
    /// Any other operation.
    Other { results: Vec<Value> },
}

/// A basic block.
pub struct Block {
    pub args: Vec<Value>,
    pub ops: Vec<LlvmOp>,
}

/// A function. Values index `value_types`; blocks are named by their position.
pub struct LlvmFunction {
    pub value_types: Vec<LlvmType>,
    pub blocks: Vec<Block>,
}

/// The results of an operation.
pub open spec fn op_results(op: LlvmOp) -> Seq<Value> {
    match op {
        LlvmOp::Load { res, .. } => seq![res],
        LlvmOp::Alloca { res, .. } => seq![res],
        LlvmOp::GetElementPtr { res, .. } => seq![res],
        LlvmOp::AtomicLoad { res, .. } => seq![res],
        LlvmOp::AtomicRmw { res, .. } => seq![res],
        LlvmOp::AtomicCompareExchange { res, .. } => seq![res],
        LlvmOp::Bitcast { res, .. } => seq![res],
        LlvmOp::AddrSpaceCast { res, .. } => seq![res],
        LlvmOp::IntToPtr { res, .. } => seq![res],
        LlvmOp::Select { res, .. } => seq![res],
        LlvmOp::ExtractValue { res, .. } => seq![res],
        LlvmOp::InsertValue { res, .. } => seq![res],
        LlvmOp::Call { res, .. } => seq![res],
        LlvmOp::Other { results } => results@,
        _ => Seq::empty(),
    }
}

/// The operands that the exporter reads of an operation.
pub open spec fn op_operands(op: LlvmOp) -> Seq<Value> {
    match op {
        LlvmOp::Load { ptr, .. } => seq![ptr],
        LlvmOp::Store { val, ptr } => seq![val, ptr],
        LlvmOp::GetElementPtr { ptr, .. } => seq![ptr],
        LlvmOp::AtomicLoad { ptr, .. } => seq![ptr],
        LlvmOp::AtomicStore { val, ptr } => seq![val, ptr],
        LlvmOp::AtomicRmw { ptr, val, .. } => seq![ptr, val],
        LlvmOp::AtomicCompareExchange { ptr, expected, .. } => seq![ptr, expected],
        LlvmOp::Bitcast { val, .. } => seq![val],
        LlvmOp::AddrSpaceCast { val, .. } => seq![val],
        LlvmOp::Select { true_val, false_val, .. } => seq![true_val, false_val],
        LlvmOp::ExtractValue { agg, .. } => seq![agg],
        LlvmOp::InsertValue { agg, val, .. } => seq![agg, val],
        _ => Seq::empty(),
    }
}

/// Whether every value of the list has a type.
pub open spec fn typed_values(values: Seq<Value>, num_values: nat) -> bool {
    forall|i: int| 0 <= i < values.len() ==> #[trigger] values[i] < num_values
}

/// Whether the blocks that an operation jumps to exist.
pub open spec fn op_targets(op: LlvmOp, num_blocks: nat) -> bool {
    match op {
        LlvmOp::Br { dest, .. } => dest < num_blocks,
        LlvmOp::CondBr { true_dest, false_dest, .. } => true_dest < num_blocks && false_dest
            < num_blocks,
        _ => true,
    }
}

/// Whether an operation only names values and blocks of its function.
pub open spec fn op_wf(op: LlvmOp, num_values: nat, num_blocks: nat) -> bool {
    &&& typed_values(op_results(op), num_values)
    &&& typed_values(op_operands(op), num_values)
    &&& op_targets(op, num_blocks)
}

/// Whether a block only names values and blocks of its function.
pub open spec fn block_wf(block: Block, num_values: nat, num_blocks: nat) -> bool {
    &&& typed_values(block.args@, num_values)
    &&& forall|i: int|
        0 <= i < block.ops@.len() ==> op_wf(#[trigger] block.ops@[i], num_values, num_blocks)
}

impl LlvmFunction {
    /// Whether the function only names its own values and blocks.
    pub open spec fn wf(&self) -> bool {
        forall|i: int|
            0 <= i < self.blocks@.len() ==> block_wf(
                #[trigger] self.blocks@[i],
                self.value_types@.len(),
                self.blocks@.len(),
            )
    }

    /// The type of a value.
    pub open spec fn type_of(&self, value: Value) -> LlvmTy {
        llvm_ty(self.value_types@[value as int])
    }
}

/// The address space of a pointer type; 0 for any other type.
pub open spec fn addrspace_of(ty: LlvmTy) -> u32 {
    match ty {
        LlvmTy::Pointer { addrspace } => addrspace,
        _ => 0,
    }
}

/// The address space of a pointer type; 0 for any other type.
pub fn addrspace_of_type(ty: &LlvmType) -> (addrspace: u32)
    ensures
        addrspace == addrspace_of(ty@),
{
    match ty {
        LlvmType::Pointer { addrspace } => *addrspace,
        _ => 0,
    }
}

} // verus!
