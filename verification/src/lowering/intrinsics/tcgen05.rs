//! Fifth-generation tensor cores.
//!
//! Every operation is lowered to inline PTX.

use vstd::prelude::*;

use crate::ir::llvm::{llvm_tys, LlvmTy, LlvmType};
use crate::lowering::intrinsics::rewrite::{
    asm_over_operands, asm_plan, emitted, first_operands, inline_asm, inline_asm_convergent,
    lowers_with_at_least, take_operands, Arg, Emitted, LowerError, LoweredOp, Lowering, Outcome,
    Plan, Value,
};
use crate::text::concat3;

verus! {

/// Lowers the allocation of tensor memory columns. The address is written to
/// shared memory.
pub fn convert_alloc(operands: &Vec<Value>) -> (r: Result<Lowering, LowerError>)
    ensures
        lowers_with_at_least(
            r,
            operands@,
            2,
            "tcgen05_alloc requires 2 operands"@,
            asm_plan(
                LlvmTy::Void,
                first_operands(operands@, 2),
                "{ .reg .u64 %shared64; .reg .u32 %shared32; cvta.to.shared.u64 %shared64, $0; cvt.u32.u64 %shared32, %shared64; tcgen05.alloc.cta_group::1.sync.aligned.shared::cta.b32 [%shared32], $1; }"@,
                "l,r,~{memory}"@,
                true,
                Outcome::Erase,
            ),
        ),
{
    asm_over_operands(
        operands,
        2,
        "tcgen05_alloc requires 2 operands",
        "{ .reg .u64 %shared64; .reg .u32 %shared32; cvta.to.shared.u64 %shared64, $0; cvt.u32.u64 %shared32, %shared64; tcgen05.alloc.cta_group::1.sync.aligned.shared::cta.b32 [%shared32], $1; }",
        "l,r,~{memory}",
    )
}

/// Lowers the deallocation of tensor memory.
pub fn convert_dealloc(operands: &Vec<Value>) -> (r: Result<Lowering, LowerError>)
    ensures
        lowers_with_at_least(
            r,
            operands@,
            2,
            "tcgen05_dealloc requires 2 operands"@,
            asm_plan(
                LlvmTy::Void,
                first_operands(operands@, 2),
                "tcgen05.dealloc.cta_group::1.sync.aligned.b32 $0, $1;"@,
                "r,r,~{memory}"@,
                true,
                Outcome::Erase,
            ),
        ),
{
    asm_over_operands(
        operands,
        2,
        "tcgen05_dealloc requires 2 operands",
        "tcgen05.dealloc.cta_group::1.sync.aligned.b32 $0, $1;",
        "r,r,~{memory}",
    )
}

/// Lowers giving up the right to allocate tensor memory.
pub fn convert_relinquish_alloc_permit() -> (lowering: Lowering)
    ensures
        lowering@ == asm_plan(
            LlvmTy::Void,
            Seq::empty(),
            "tcgen05.relinquish_alloc_permit.cta_group::1.sync.aligned;"@,
            "~{memory}"@,
            true,
            Outcome::Erase,
        ),
{
    inline_asm_convergent(
        Vec::new(),
        "tcgen05.relinquish_alloc_permit.cta_group::1.sync.aligned;",
        "~{memory}",
    )
}

/// Lowers the fence before a thread synchronization.
pub fn convert_fence_before_thread_sync() -> (lowering: Lowering)
    ensures
        lowering@ == asm_plan(
            LlvmTy::Void,
            Seq::empty(),
            "tcgen05.fence::before_thread_sync;"@,
            "~{memory}"@,
            true,
            Outcome::Erase,
        ),
{
    inline_asm_convergent(
        Vec::new(),
        "tcgen05.fence::before_thread_sync;",
        "~{memory}",
    )
}

/// Lowers the fence after a thread synchronization.
pub fn convert_fence_after_thread_sync() -> (lowering: Lowering)
    ensures
        lowering@ == asm_plan(
            LlvmTy::Void,
            Seq::empty(),
            "tcgen05.fence::after_thread_sync;"@,
            "~{memory}"@,
            true,
            Outcome::Erase,
        ),
{
    inline_asm_convergent(
        Vec::new(),
        "tcgen05.fence::after_thread_sync;",
        "~{memory}",
    )
}

/// Lowers the commit of pending operations to a barrier.
pub fn convert_commit(operands: &Vec<Value>) -> (r: Result<Lowering, LowerError>)
    ensures
        lowers_with_at_least(
            r,
            operands@,
            1,
            "tcgen05_commit requires operand"@,
            asm_plan(
                LlvmTy::Void,
                first_operands(operands@, 1),
                "tcgen05.commit.cta_group::1.mbarrier::arrive::one.b64 [$0];"@,
                "r,~{memory}"@,
                true,
                Outcome::Erase,
            ),
        ),
{
    asm_over_operands(
        operands,
        1,
        "tcgen05_commit requires operand",
        "tcgen05.commit.cta_group::1.mbarrier::arrive::one.b64 [$0];",
        "r,~{memory}",
    )
}

/// Lowers the commit of pending operations to a barrier of the cluster.
pub fn convert_commit_shared_cluster(operands: &Vec<Value>) -> (r: Result<Lowering, LowerError>)
    ensures
        lowers_with_at_least(
            r,
            operands@,
            1,
            "tcgen05_commit_shared_cluster requires operand"@,
            asm_plan(
                LlvmTy::Void,
                first_operands(operands@, 1),
                "tcgen05.commit.cta_group::1.mbarrier::arrive::one.shared::cluster.b64 [$0];"@,
                "r,~{memory}"@,
                true,
                Outcome::Erase,
            ),
        ),
{
    asm_over_operands(
        operands,
        1,
        "tcgen05_commit_shared_cluster requires operand",
        "tcgen05.commit.cta_group::1.mbarrier::arrive::one.shared::cluster.b64 [$0];",
        "r,~{memory}",
    )
}

/// Lowers the `f16` matrix multiply-accumulate.
pub fn convert_mma_f16(operands: &Vec<Value>) -> (r: Result<Lowering, LowerError>)
    ensures
        lowers_with_at_least(
            r,
            operands@,
            5,
            "tcgen05_mma_f16 requires 5 operands"@,
            asm_plan(
                LlvmTy::Void,
                first_operands(operands@, 5),
                "{ .reg .pred %enable_pred; setp.ne.s32 %enable_pred, $4, 0; .reg .u32 %z; mov.u32 %z, 0; tcgen05.mma.cta_group::1.kind::f16 [$0], $1, $2, $3, {%z, %z, %z, %z}, %enable_pred; }"@,
                "r,l,l,r,r,~{memory}"@,
                true,
                Outcome::Erase,
            ),
        ),
{
    asm_over_operands(
        operands,
        5,
        "tcgen05_mma_f16 requires 5 operands",
        "{ .reg .pred %enable_pred; setp.ne.s32 %enable_pred, $4, 0; .reg .u32 %z; mov.u32 %z, 0; tcgen05.mma.cta_group::1.kind::f16 [$0], $1, $2, $3, {%z, %z, %z, %z}, %enable_pred; }",
        "r,l,l,r,r,~{memory}",
    )
}

/// Lowers the copy from shared memory to tensor memory.
pub fn convert_cp_smem_to_tmem(operands: &Vec<Value>) -> (r: Result<Lowering, LowerError>)
    ensures
        lowers_with_at_least(
            r,
            operands@,
            2,
            "tcgen05_cp_smem_to_tmem requires 2 operands"@,
            asm_plan(
                LlvmTy::Void,
                first_operands(operands@, 2),
                "tcgen05.cp.cta_group::1.128x256b [$0], $1;"@,
                "r,l,~{memory}"@,
                true,
                Outcome::Erase,
            ),
        ),
{
    asm_over_operands(
        operands,
        2,
        "tcgen05_cp_smem_to_tmem requires 2 operands",
        "tcgen05.cp.cta_group::1.128x256b [$0], $1;",
        "r,l,~{memory}",
    )
}

/// Lowers the wait for tensor memory loads.
pub fn convert_load_wait() -> (lowering: Lowering)
    ensures
        lowering@ == asm_plan(
            LlvmTy::Void,
            Seq::empty(),
            "tcgen05.wait::ld.sync.aligned;"@,
            "~{memory}"@,
            true,
            Outcome::Erase,
        ),
{
    inline_asm_convergent(
        Vec::new(),
        "tcgen05.wait::ld.sync.aligned;",
        "~{memory}",
    )
}

/// Lowers the wait for tensor memory stores.
pub fn convert_store_wait() -> (lowering: Lowering)
    ensures
        lowering@ == asm_plan(
            LlvmTy::Void,
            Seq::empty(),
            "tcgen05.wait::st.sync.aligned;"@,
            "~{memory}"@,
            true,
            Outcome::Erase,
        ),
{
    inline_asm_convergent(
        Vec::new(),
        "tcgen05.wait::st.sync.aligned;",
        "~{memory}",
    )
}

/// Lowers the allocation of tensor memory columns for a CTA pair.
pub fn convert_alloc_cg2(operands: &Vec<Value>) -> (r: Result<Lowering, LowerError>)
    ensures
        lowers_with_at_least(
            r,
            operands@,
            2,
            "tcgen05_alloc_cg2 requires 2 operands"@,
            asm_plan(
                LlvmTy::Void,
                first_operands(operands@, 2),
                "{ .reg .u64 %shared64; .reg .u32 %shared32; cvta.to.shared.u64 %shared64, $0; cvt.u32.u64 %shared32, %shared64; tcgen05.alloc.cta_group::2.sync.aligned.shared::cta.b32 [%shared32], $1; }"@,
                "l,r,~{memory}"@,
                true,
                Outcome::Erase,
            ),
        ),
{
    asm_over_operands(
        operands,
        2,
        "tcgen05_alloc_cg2 requires 2 operands",
        "{ .reg .u64 %shared64; .reg .u32 %shared32; cvta.to.shared.u64 %shared64, $0; cvt.u32.u64 %shared32, %shared64; tcgen05.alloc.cta_group::2.sync.aligned.shared::cta.b32 [%shared32], $1; }",
        "l,r,~{memory}",
    )
}

/// Lowers the deallocation of tensor memory for a CTA pair.
pub fn convert_dealloc_cg2(operands: &Vec<Value>) -> (r: Result<Lowering, LowerError>)
    ensures
        lowers_with_at_least(
            r,
            operands@,
            2,
            "tcgen05_dealloc_cg2 requires 2 operands"@,
            asm_plan(
                LlvmTy::Void,
                first_operands(operands@, 2),
                "tcgen05.dealloc.cta_group::2.sync.aligned.b32 $0, $1;"@,
                "r,r,~{memory}"@,
                true,
                Outcome::Erase,
            ),
        ),
{
    asm_over_operands(
        operands,
        2,
        "tcgen05_dealloc_cg2 requires 2 operands",
        "tcgen05.dealloc.cta_group::2.sync.aligned.b32 $0, $1;",
        "r,r,~{memory}",
    )
}

/// Lowers giving up the right to allocate tensor memory, for a CTA pair.
pub fn convert_relinquish_alloc_permit_cg2() -> (lowering: Lowering)
    ensures
        lowering@ == asm_plan(
            LlvmTy::Void,
            Seq::empty(),
            "tcgen05.relinquish_alloc_permit.cta_group::2.sync.aligned;"@,
            "~{memory}"@,
            true,
            Outcome::Erase,
        ),
{
    inline_asm_convergent(
        Vec::new(),
        "tcgen05.relinquish_alloc_permit.cta_group::2.sync.aligned;",
        "~{memory}",
    )
}

/// Lowers the `f16` matrix multiply-accumulate of a CTA pair, which has twice as
/// many output lanes.
pub fn convert_mma_f16_cg2(operands: &Vec<Value>) -> (r: Result<Lowering, LowerError>)
    ensures
        lowers_with_at_least(
            r,
            operands@,
            5,
            "tcgen05_mma_f16_cg2 requires 5 operands"@,
            asm_plan(
                LlvmTy::Void,
                first_operands(operands@, 5),
                "{ .reg .pred %enable_pred; setp.ne.s32 %enable_pred, $4, 0; .reg .u32 %z; mov.u32 %z, 0; tcgen05.mma.cta_group::2.kind::f16 [$0], $1, $2, $3, {%z, %z, %z, %z, %z, %z, %z, %z}, %enable_pred; }"@,
                "r,l,l,r,r,~{memory}"@,
                true,
                Outcome::Erase,
            ),
        ),
{
    asm_over_operands(
        operands,
        5,
        "tcgen05_mma_f16_cg2 requires 5 operands",
        "{ .reg .pred %enable_pred; setp.ne.s32 %enable_pred, $4, 0; .reg .u32 %z; mov.u32 %z, 0; tcgen05.mma.cta_group::2.kind::f16 [$0], $1, $2, $3, {%z, %z, %z, %z, %z, %z, %z, %z}, %enable_pred; }",
        "r,l,l,r,r,~{memory}",
    )
}

/// Lowers the commit of pending operations of a CTA pair to a barrier.
pub fn convert_commit_cg2(operands: &Vec<Value>) -> (r: Result<Lowering, LowerError>)
    ensures
        lowers_with_at_least(
            r,
            operands@,
            1,
            "tcgen05_commit_cg2 requires operand"@,
            asm_plan(
                LlvmTy::Void,
                first_operands(operands@, 1),
                "tcgen05.commit.cta_group::2.mbarrier::arrive::one.b64 [$0];"@,
                "r,~{memory}"@,
                true,
                Outcome::Erase,
            ),
        ),
{
    asm_over_operands(
        operands,
        1,
        "tcgen05_commit_cg2 requires operand",
        "tcgen05.commit.cta_group::2.mbarrier::arrive::one.b64 [$0];",
        "r,~{memory}",
    )
}

/// Lowers the commit of pending operations of a CTA pair to a barrier of the
/// cluster.
pub fn convert_commit_shared_cluster_cg2(operands: &Vec<Value>) -> (r: Result<Lowering, LowerError>)
    ensures
        lowers_with_at_least(
            r,
            operands@,
            1,
            "tcgen05_commit_shared_cluster_cg2 requires operand"@,
            asm_plan(
                LlvmTy::Void,
                first_operands(operands@, 1),
                "tcgen05.commit.cta_group::2.mbarrier::arrive::one.shared::cluster.b64 [$0];"@,
                "r,~{memory}"@,
                true,
                Outcome::Erase,
            ),
        ),
{
    asm_over_operands(
        operands,
        1,
        "tcgen05_commit_shared_cluster_cg2 requires operand",
        "tcgen05.commit.cta_group::2.mbarrier::arrive::one.shared::cluster.b64 [$0];",
        "r,~{memory}",
    )
}

/// Lowers the commit of pending operations of a CTA pair to the barriers of
/// every CTA in a mask.
pub fn convert_commit_multicast_cg2(operands: &Vec<Value>) -> (r: Result<Lowering, LowerError>)
    ensures
        lowers_with_at_least(
            r,
            operands@,
            2,
            "tcgen05_commit_multicast_cg2 requires 2 operands (mbar, cta_mask)"@,
            asm_plan(
                LlvmTy::Void,
                first_operands(operands@, 2),
                "tcgen05.commit.cta_group::2.mbarrier::arrive::one.shared::cluster.multicast::cluster.b64 [$0], $1;"@,
                "r,h,~{memory}"@,
                true,
                Outcome::Erase,
            ),
        ),
{
    asm_over_operands(
        operands,
        2,
        "tcgen05_commit_multicast_cg2 requires 2 operands (mbar, cta_mask)",
        "tcgen05.commit.cta_group::2.mbarrier::arrive::one.shared::cluster.multicast::cluster.b64 [$0], $1;",
        "r,h,~{memory}",
    )
}

/// Lowers the copy from shared memory to tensor memory for a CTA pair.
pub fn convert_cp_smem_to_tmem_cg2(operands: &Vec<Value>) -> (r: Result<Lowering, LowerError>)
    ensures
        lowers_with_at_least(
            r,
            operands@,
            2,
            "tcgen05_cp_smem_to_tmem_cg2 requires 2 operands"@,
            asm_plan(
                LlvmTy::Void,
                first_operands(operands@, 2),
                "tcgen05.cp.cta_group::2.128x256b [$0], $1;"@,
                "r,l,~{memory}"@,
                true,
                Outcome::Erase,
            ),
        ),
{
    asm_over_operands(
        operands,
        2,
        "tcgen05_cp_smem_to_tmem_cg2 requires 2 operands",
        "tcgen05.cp.cta_group::2.128x256b [$0], $1;",
        "r,l,~{memory}",
    )
}

/// Lowers the weight-stationary matrix multiply-accumulate of the given kind:
/// `f16`, `bf16` or `tf32`.
pub fn convert_mma_ws(operands: &Vec<Value>, kind: &str) -> (r: Result<Lowering, LowerError>)
    ensures
        lowers_with_at_least(
            r,
            operands@,
            6,
            "tcgen05_mma_ws requires 6 operands"@,
            asm_plan(
                LlvmTy::Void,
                first_operands(operands@, 6),
                "{ .reg .pred %enable_pred; setp.ne.s32 %enable_pred, $5, 0; tcgen05.mma.ws.cta_group::1.kind::"@
                    + kind@ + " [$0], [$1], $2, $3, $4, %enable_pred; }"@,
                "r,r,l,l,r,r,~{memory}"@,
                true,
                Outcome::Erase,
            ),
        ),
{
    let asm_template = concat3(
        "{ .reg .pred %enable_pred; setp.ne.s32 %enable_pred, $5, 0; tcgen05.mma.ws.cta_group::1.kind::",
        kind,
        " [$0], [$1], $2, $3, $4, %enable_pred; }",
    );
    asm_over_operands(
        operands,
        6,
        "tcgen05_mma_ws requires 6 operands",
        &asm_template,
        "r,r,l,l,r,r,~{memory}",
    )
}

/// Lowers the conversion of two `f32` to packed `bf16x2`. It is a pure
/// computation, so the statement is not convergent.
pub fn convert_cvt_f32x2_bf16x2(operands: &Vec<Value>) -> (r: Result<Lowering, LowerError>)
    ensures
        lowers_with_at_least(
            r,
            operands@,
            2,
            "cvt_f32x2_bf16x2 requires 2 operands"@,
            asm_plan(
                LlvmTy::Integer { width: 32 },
                first_operands(operands@, 2),
                "cvt.rn.bf16x2.f32 $0, $2, $1;"@,
                "=r,f,f"@,
                false,
                Outcome::ReplaceWith(0),
            ),
        ),
{
    if operands.len() < 2 {
        return Err(
            LowerError { message: String::from_str("cvt_f32x2_bf16x2 requires 2 operands") },
        );
    }
    Ok(
        inline_asm(
            LlvmType::Integer { width: 32 },
            take_operands(operands, 2),
            "cvt.rn.bf16x2.f32 $0, $2, $1;",
            "=r,f,f",
            false,
            Outcome::ReplaceWith(0),
        ),
    )
}

/// A struct of `n` `float`s.
pub open spec fn float_struct(n: nat) -> LlvmTy {
    LlvmTy::Struct { fields: Seq::new(n, |i: int| LlvmTy::Float) }
}

/// Inline PTX that loads `n` registers from the address in `operand`, then the
/// extraction of each, which take the place of the results of the load.
pub open spec fn load_plan(
    operand: Value,
    n: nat,
    template: Seq<char>,
    constraints: Seq<char>,
) -> Plan {
    Plan {
        declare: None,
        ops: seq![
            Emitted::InlineAsm {
                result_ty: float_struct(n),
                args: seq![Arg::Existing(operand)],
                template,
                constraints,
                convergent: true,
            },
        ] + Seq::new(n, |i: int| Emitted::ExtractValue { agg: Arg::Result(0), index: i as u32 }),
        outcome: Outcome::ReplaceWithResults { first: 1, count: n as usize },
    }
}

fn convert_pure_load(operand: Value, n: u32, template: &str, constraints: &str) -> (lowering:
    Lowering)
    ensures
        lowering@ == load_plan(operand, n as nat, template@, constraints@),
{
    let mut fields: Vec<LlvmType> = Vec::new();
    let mut i: u32 = 0;
    while i < n
        invariant
            i <= n,
            fields@.len() == i,
            forall|k: int| 0 <= k < i ==> fields@[k]@ == LlvmTy::Float,
        decreases n - i,
    {
        fields.push(LlvmType::Float);
        i = i + 1;
    }
    assert(llvm_tys(fields@) =~= float_struct(n as nat)->fields);
    let result_ty = LlvmType::Struct { fields };
    assert(result_ty@ == float_struct(n as nat));
    let args: Vec<Arg> = vec![Arg::Existing(operand)];
    assert(args@ =~= seq![Arg::Existing(operand)]);
    let mut lowering = inline_asm(
        result_ty,
        args,
        template,
        constraints,
        true,
        Outcome::ReplaceWithResults { first: 1, count: n as usize },
    );
    let ghost plan = load_plan(operand, n as nat, template@, constraints@);
    assert(emitted(lowering.ops@) =~= plan.ops.take(1));
    let mut k: u32 = 0;
    while k < n
        invariant
            k <= n,
            plan == load_plan(operand, n as nat, template@, constraints@),
            lowering.declare is None,
            lowering.outcome == plan.outcome,
            emitted(lowering.ops@) == plan.ops.take(k + 1),
        decreases n - k,
    {
        let ghost before = lowering.ops@;
        let extract = LoweredOp::ExtractValue { agg: Arg::Result(0), index: k };
        lowering.ops.push(extract);
        assert(emitted(lowering.ops@) =~= emitted(before).push(extract@));
        k = k + 1;
        assert(emitted(lowering.ops@) =~= plan.ops.take(k + 1));
    }
    assert(emitted(lowering.ops@) =~= plan.ops);
    lowering
}

/// Lowers the load of 32 registers from tensor memory.
pub fn convert_ld_16x256b_x8_pure(operands: &Vec<Value>) -> (lowering: Lowering)
    requires
        operands@.len() >= 1,
    ensures
        lowering@ == load_plan(
            operands@[0],
            32,
            "tcgen05.ld.sync.aligned.16x256b.x8.b32 {$0,$1,$2,$3,$4,$5,$6,$7,$8,$9,$10,$11,$12,$13,$14,$15,$16,$17,$18,$19,$20,$21,$22,$23,$24,$25,$26,$27,$28,$29,$30,$31}, [$32];"@,
            "=f,=f,=f,=f,=f,=f,=f,=f,=f,=f,=f,=f,=f,=f,=f,=f,=f,=f,=f,=f,=f,=f,=f,=f,=f,=f,=f,=f,=f,=f,=f,=f,r"@,
        ),
{
    convert_pure_load(
        operands[0],
        32,
        "tcgen05.ld.sync.aligned.16x256b.x8.b32 {$0,$1,$2,$3,$4,$5,$6,$7,$8,$9,$10,$11,$12,$13,$14,$15,$16,$17,$18,$19,$20,$21,$22,$23,$24,$25,$26,$27,$28,$29,$30,$31}, [$32];",
        "=f,=f,=f,=f,=f,=f,=f,=f,=f,=f,=f,=f,=f,=f,=f,=f,=f,=f,=f,=f,=f,=f,=f,=f,=f,=f,=f,=f,=f,=f,=f,=f,r",
    )
}

/// Lowers the load of 4 registers from tensor memory.
pub fn convert_ld_16x256b_pure(operands: &Vec<Value>) -> (lowering: Lowering)
    requires
        operands@.len() >= 1,
    ensures
        lowering@ == load_plan(
            operands@[0],
            4,
            "tcgen05.ld.sync.aligned.16x256b.x1.b32 {$0,$1,$2,$3}, [$4];"@,
            "=f,=f,=f,=f,r"@,
        ),
{
    convert_pure_load(
        operands[0],
        4,
        "tcgen05.ld.sync.aligned.16x256b.x1.b32 {$0,$1,$2,$3}, [$4];",
        "=f,=f,=f,=f,r",
    )
}

} // verus!
