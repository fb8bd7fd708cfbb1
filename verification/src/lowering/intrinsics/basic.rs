//! Thread intrinsics, barriers and fences.

use vstd::prelude::*;

use crate::ir::identifier::is_identifier;
use crate::ir::llvm::{LlvmTy, LlvmType};
use crate::lowering::intrinsics::rewrite::{
    asm_plan, call_intrinsic, call_plan, inline_asm_convergent, nullary, nullary_type, Arg,
    Lowering, Outcome, Plan,
};

verus! {

/// Lowers the read of a 32-bit special register to a call of its intrinsic.
pub fn convert_sreg_read_i32(intrinsic_name: &str) -> (lowering: Lowering)
    requires
        is_identifier(intrinsic_name@),
    ensures
        lowering@ == call_plan(
            intrinsic_name@,
            nullary(LlvmTy::Integer { width: 32 }),
            Seq::empty(),
            Outcome::ReplaceWith(0),
        ),
{
    call_intrinsic(
        intrinsic_name,
        nullary_type(LlvmType::Integer { width: 32 }),
        Vec::new(),
        Outcome::ReplaceWith(0),
    )
}

/// Lowers the block barrier to a call of `llvm.nvvm.barrier0`.
pub fn convert_barrier0() -> (lowering: Lowering)
    ensures
        lowering@ == call_plan(
            "llvm_nvvm_barrier0"@,
            nullary(LlvmTy::Void),
            Seq::empty(),
            Outcome::Erase,
        ),
{
    proof {
        reveal_strlit("llvm_nvvm_barrier0");
    }
    call_intrinsic(
        "llvm_nvvm_barrier0",
        nullary_type(LlvmType::Void),
        Vec::new(),
        Outcome::Erase,
    )
}

/// A memory fence.
pub open spec fn membar_plan(template: Seq<char>) -> Plan {
    asm_plan(LlvmTy::Void, Seq::<Arg>::empty(), template, "~{memory}"@, true, Outcome::Erase)
}

fn convert_membar(asm_template: &str) -> (lowering: Lowering)
    ensures
        lowering@ == membar_plan(asm_template@),
{
    inline_asm_convergent(Vec::new(), asm_template, "~{memory}")
}

/// Lowers a block-scoped memory fence to `membar.cta`.
pub fn convert_threadfence_block() -> (lowering: Lowering)
    ensures
        lowering@ == membar_plan("membar.cta;"@),
{
    convert_membar("membar.cta;")
}

/// Lowers a device-scoped memory fence to `membar.gl`.
pub fn convert_threadfence() -> (lowering: Lowering)
    ensures
        lowering@ == membar_plan("membar.gl;"@),
{
    convert_membar("membar.gl;")
}

/// Lowers a system-scoped memory fence to `membar.sys`.
pub fn convert_threadfence_system() -> (lowering: Lowering)
    ensures
        lowering@ == membar_plan("membar.sys;"@),
{
    convert_membar("membar.sys;")
}

} // verus!
