//! Timing, aborting, profiling and printing.

use vstd::prelude::*;

use crate::ir::llvm::{llvm_tys, LlvmTy, LlvmType};
use crate::lowering::intrinsics::rewrite::{
    asm_plan, call_intrinsic, call_plan, first_operands, inline_asm_convergent,
    nullary, nullary_type, take_operands, FuncTy, LowerError, Lowering, Outcome, Value,
};
use crate::lowering::types::LlvmFuncType;
use crate::nvvm::debug::PmEventOp;
use crate::text::{decimal, push_decimal};

verus! {

/// Lowers the read of the 32-bit clock counter.
pub fn convert_clock() -> (lowering: Lowering)
    ensures
        lowering@ == call_plan(
            "llvm_nvvm_read_ptx_sreg_clock"@,
            nullary(LlvmTy::Integer { width: 32 }),
            Seq::empty(),
            Outcome::ReplaceWith(0),
        ),
{
    proof {
        reveal_strlit("llvm_nvvm_read_ptx_sreg_clock");
    }
    call_intrinsic(
        "llvm_nvvm_read_ptx_sreg_clock",
        nullary_type(LlvmType::Integer { width: 32 }),
        Vec::new(),
        Outcome::ReplaceWith(0),
    )
}

/// Lowers the read of the 64-bit clock counter.
pub fn convert_clock64() -> (lowering: Lowering)
    ensures
        lowering@ == call_plan(
            "llvm_nvvm_read_ptx_sreg_clock64"@,
            nullary(LlvmTy::Integer { width: 64 }),
            Seq::empty(),
            Outcome::ReplaceWith(0),
        ),
{
    proof {
        reveal_strlit("llvm_nvvm_read_ptx_sreg_clock64");
    }
    call_intrinsic(
        "llvm_nvvm_read_ptx_sreg_clock64",
        nullary_type(LlvmType::Integer { width: 64 }),
        Vec::new(),
        Outcome::ReplaceWith(0),
    )
}

/// Lowers the read of the global timer.
pub fn convert_globaltimer() -> (lowering: Lowering)
    ensures
        lowering@ == call_plan(
            "llvm_nvvm_read_ptx_sreg_globaltimer"@,
            nullary(LlvmTy::Integer { width: 64 }),
            Seq::empty(),
            Outcome::ReplaceWith(0),
        ),
{
    proof {
        reveal_strlit("llvm_nvvm_read_ptx_sreg_globaltimer");
    }
    call_intrinsic(
        "llvm_nvvm_read_ptx_sreg_globaltimer",
        nullary_type(LlvmType::Integer { width: 64 }),
        Vec::new(),
        Outcome::ReplaceWith(0),
    )
}

/// Lowers the abort of the kernel.
pub fn convert_trap() -> (lowering: Lowering)
    ensures
        lowering@ == asm_plan(
            LlvmTy::Void,
            Seq::empty(),
            "trap;"@,
            ""@,
            true,
            Outcome::Erase,
        ),
{
    inline_asm_convergent(Vec::new(), "trap;", "")
}

/// Lowers the breakpoint.
pub fn convert_breakpoint() -> (lowering: Lowering)
    ensures
        lowering@ == asm_plan(
            LlvmTy::Void,
            Seq::empty(),
            "brkpt;"@,
            ""@,
            true,
            Outcome::Erase,
        ),
{
    inline_asm_convergent(Vec::new(), "brkpt;", "")
}

/// Lowers a profiler event; one without a number signals event 0.
pub fn convert_pm_event(event: &PmEventOp) -> (lowering: Lowering)
    ensures
        lowering@ == asm_plan(
            LlvmTy::Void,
            Seq::empty(),
            "pmevent "@ + decimal(
                match event.event_id() {
                    Some(id) => id as nat,
                    None => 0,
                },
            ) + ";"@,
            ""@,
            true,
            Outcome::Erase,
        ),
{
    let event_id: u32 = match event.get_event_id() {
        Some(id) => id,
        None => 0,
    };
    let mut template = String::from_str("pmevent ");
    push_decimal(&mut template, event_id as u64);
    template.append(";");
    inline_asm_convergent(Vec::new(), &template, "")
}

/// The type of `vprintf`.
pub open spec fn vprintf_ty() -> FuncTy {
    FuncTy {
        result: LlvmTy::Integer { width: 32 },
        inputs: seq![LlvmTy::Pointer { addrspace: 0 }, LlvmTy::Pointer { addrspace: 0 }],
        is_var_arg: false,
    }
}

/// Lowers formatted printing to a call of `vprintf`.
pub fn convert_vprintf(operands: &Vec<Value>) -> (r: Result<Lowering, LowerError>)
    ensures
        match r {
            Ok(lowering) => operands@.len() == 2 && lowering@ == call_plan(
                "vprintf"@,
                vprintf_ty(),
                first_operands(operands@, 2),
                Outcome::ReplaceWith(0),
            ),
            Err(e) => operands@.len() != 2 && e.message@ == "vprintf requires 2 operands, got "@
                + decimal(operands@.len()),
        },
{
    if operands.len() != 2 {
        let mut message = String::from_str("vprintf requires 2 operands, got ");
        push_decimal(&mut message, operands.len() as u64);
        return Err(LowerError { message });
    }
    let inputs: Vec<LlvmType> = vec![
        LlvmType::Pointer { addrspace: 0 },
        LlvmType::Pointer { addrspace: 0 },
    ];
    let func_ty = LlvmFuncType {
        result: LlvmType::Integer { width: 32 },
        inputs,
        is_var_arg: false,
    };
    assert(llvm_tys(func_ty.inputs@) =~= vprintf_ty().inputs);
    proof {
        reveal_strlit("vprintf");
    }
    Ok(call_intrinsic("vprintf", func_ty, take_operands(operands, 2), Outcome::ReplaceWith(0)))
}

} // verus!
