//! What each intrinsic is lowered to, and what the lowerings have in common.

use vstd::prelude::*;

use crate::ir::identifier::is_identifier;
use crate::ir::llvm::LlvmTy;
use crate::lowering::intrinsics::basic::{
    convert_barrier0, convert_sreg_read_i32, convert_threadfence, convert_threadfence_block,
    convert_threadfence_system,
};
use crate::lowering::intrinsics::debug::{
    convert_breakpoint, convert_clock, convert_clock64, convert_globaltimer, convert_pm_event,
    convert_trap, convert_vprintf,
};
use crate::lowering::intrinsics::clc::{
    convert_query_get_first_ctaid, convert_query_is_canceled, convert_try_cancel,
};
use crate::lowering::intrinsics::tcgen05::{
    convert_alloc, convert_alloc_cg2, convert_commit, convert_commit_cg2,
    convert_commit_multicast_cg2, convert_commit_shared_cluster,
    convert_commit_shared_cluster_cg2, convert_cp_smem_to_tmem, convert_cp_smem_to_tmem_cg2,
    convert_cvt_f32x2_bf16x2, convert_dealloc, convert_dealloc_cg2,
    convert_fence_after_thread_sync, convert_fence_before_thread_sync, convert_ld_16x256b_pure,
    convert_ld_16x256b_x8_pure, convert_load_wait, convert_mma_f16, convert_mma_f16_cg2,
    convert_mma_ws, convert_relinquish_alloc_permit, convert_relinquish_alloc_permit_cg2,
    convert_store_wait,
};
use crate::lowering::intrinsics::rewrite::{
    Arg, Emitted, LowerError, Lowering, Outcome, Plan, Value,
};
use crate::lowering::intrinsics::tma::{
    convert_commit_group, convert_g2s, convert_g2s_multicast_cg2, convert_s2g,
    convert_wait_group,
};
use crate::nvvm::debug::{Operation, PmEventOp};
use crate::text::decimal;

verus! {

/// Whether the arguments are the first `n` operands, in order.
pub open spec fn passes_operands(args: Seq<Arg>, operands: Seq<Value>, n: nat) -> bool {
    &&& args.len() == n
    &&& forall|i: int| 0 <= i < n ==> #[trigger] args[i] == Arg::Existing(operands[i])
}

/// Whether the plan is one PTX statement over the first `n` operands that gives
/// nothing, may not be moved across divergent control flow, and takes the place
/// of the operation.
pub open spec fn is_statement(
    plan: Plan,
    operands: Seq<Value>,
    n: nat,
    template: Seq<char>,
    constraints: Seq<char>,
) -> bool {
    &&& plan.declare is None
    &&& plan.ops.len() == 1
    &&& plan.ops[0] is InlineAsm
    &&& plan.ops[0]->result_ty is Void
    &&& passes_operands(plan.ops[0]->InlineAsm_args, operands, n)
    &&& plan.ops[0]->template == template
    &&& plan.ops[0]->constraints == constraints
    &&& plan.ops[0]->convergent
    &&& plan.outcome is Erase
}

/// Whether the plan is one PTX statement over the first `n` operands whose
/// 32-bit result takes the place of the operation's.
pub open spec fn computes_i32(
    plan: Plan,
    operands: Seq<Value>,
    n: nat,
    template: Seq<char>,
    constraints: Seq<char>,
    convergent: bool,
) -> bool {
    &&& plan.declare is None
    &&& plan.ops.len() == 1
    &&& plan.ops[0] is InlineAsm
    &&& plan.ops[0]->result_ty == (LlvmTy::Integer { width: 32 })
    &&& passes_operands(plan.ops[0]->InlineAsm_args, operands, n)
    &&& plan.ops[0]->template == template
    &&& plan.ops[0]->constraints == constraints
    &&& plan.ops[0]->convergent == convergent
    &&& plan.outcome == Outcome::ReplaceWith(0)
}

/// Whether the plan is one call of `name`, with the type that it is declared
/// with: fixed arguments of these types, and these values for them.
pub open spec fn calls(
    plan: Plan,
    name: Seq<char>,
    inputs: Seq<LlvmTy>,
    args: Seq<Arg>,
) -> bool {
    &&& plan.declare is Some
    &&& (plan.declare->0).0 == name
    &&& (plan.declare->0).1.inputs == inputs
    &&& !(plan.declare->0).1.is_var_arg
    &&& plan.ops.len() == 1
    &&& plan.ops[0] == (Emitted::Call { callee: name, func_ty: (plan.declare->0).1, args })
}

/// The block barrier: a call without arguments of the intrinsic that the module
/// declares.
pub proof fn law_convert_barrier0(lowering: Lowering)
    requires
        call_ensures(convert_barrier0, (), lowering),
    ensures
        calls(lowering@, "llvm_nvvm_barrier0"@, Seq::empty(), Seq::empty()),
        (lowering@.declare->0).1.result == (LlvmTy::Void),
        lowering@.outcome == Outcome::Erase,
{
}

/// A block-scoped memory fence: one PTX statement without operands.
pub proof fn law_convert_threadfence_block(lowering: Lowering)
    requires
        call_ensures(convert_threadfence_block, (), lowering),
    ensures
        is_statement(lowering@, Seq::empty(), 0, "membar.cta;"@, "~{memory}"@),
{
}

/// A device-scoped memory fence: one PTX statement without operands.
pub proof fn law_convert_threadfence(lowering: Lowering)
    requires
        call_ensures(convert_threadfence, (), lowering),
    ensures
        is_statement(lowering@, Seq::empty(), 0, "membar.gl;"@, "~{memory}"@),
{
}

/// A system-scoped memory fence: one PTX statement without operands.
pub proof fn law_convert_threadfence_system(lowering: Lowering)
    requires
        call_ensures(convert_threadfence_system, (), lowering),
    ensures
        is_statement(lowering@, Seq::empty(), 0, "membar.sys;"@, "~{memory}"@),
{
}

/// The read of the 32-bit clock counter: a call without arguments of the
/// intrinsic that the module declares.
pub proof fn law_convert_clock(lowering: Lowering)
    requires
        call_ensures(convert_clock, (), lowering),
    ensures
        calls(lowering@, "llvm_nvvm_read_ptx_sreg_clock"@, Seq::empty(), Seq::empty()),
        (lowering@.declare->0).1.result == (LlvmTy::Integer { width: 32 }),
        lowering@.outcome == Outcome::ReplaceWith(0),
{
}

/// The read of the 64-bit clock counter: a call without arguments of the
/// intrinsic that the module declares.
pub proof fn law_convert_clock64(lowering: Lowering)
    requires
        call_ensures(convert_clock64, (), lowering),
    ensures
        calls(lowering@, "llvm_nvvm_read_ptx_sreg_clock64"@, Seq::empty(), Seq::empty()),
        (lowering@.declare->0).1.result == (LlvmTy::Integer { width: 64 }),
        lowering@.outcome == Outcome::ReplaceWith(0),
{
}

/// The read of the global timer: a call without arguments of the intrinsic that
/// the module declares.
pub proof fn law_convert_globaltimer(lowering: Lowering)
    requires
        call_ensures(convert_globaltimer, (), lowering),
    ensures
        calls(lowering@, "llvm_nvvm_read_ptx_sreg_globaltimer"@, Seq::empty(), Seq::empty()),
        (lowering@.declare->0).1.result == (LlvmTy::Integer { width: 64 }),
        lowering@.outcome == Outcome::ReplaceWith(0),
{
}

/// The abort of the kernel: one PTX statement without operands.
pub proof fn law_convert_trap(lowering: Lowering)
    requires
        call_ensures(convert_trap, (), lowering),
    ensures
        is_statement(lowering@, Seq::empty(), 0, "trap;"@, ""@),
{
}

/// The breakpoint: one PTX statement without operands.
pub proof fn law_convert_breakpoint(lowering: Lowering)
    requires
        call_ensures(convert_breakpoint, (), lowering),
    ensures
        is_statement(lowering@, Seq::empty(), 0, "brkpt;"@, ""@),
{
}

/// The request to cancel a cluster that has not been launched yet, for this CTA
/// or for all CTAs of the cluster: the PTX takes the operands in order, and
/// fewer of them are an error.
pub proof fn law_convert_try_cancel(
    operands: Vec<Value>,
    multicast: bool,
    r: Result<Lowering, LowerError>,
)
    requires
        call_ensures(convert_try_cancel, (&operands, multicast,), r),
    ensures
        r is Ok <==> operands@.len() >= 2,
        r is Err ==> r->Err_0.message@ == "clc_try_cancel requires 2 operands (response, mbar)"@,
        r is Ok ==> is_statement(
            r->Ok_0@,
            operands@,
            2,
            if multicast {
                    "{ .reg .u64 %resp_shared64; .reg .u32 %resp_shared32; cvta.to.shared.u64 %resp_shared64, $0; cvt.u32.u64 %resp_shared32, %resp_shared64; .reg .u64 %mbar_shared64; .reg .u32 %mbar_shared32; cvta.to.shared.u64 %mbar_shared64, $1; cvt.u32.u64 %mbar_shared32, %mbar_shared64; clusterlaunchcontrol.try_cancel.async.shared::cta.mbarrier::complete_tx::bytes.multicast::cluster::all.b128 [%resp_shared32], [%mbar_shared32]; }"@
                } else {
                    "{ .reg .u64 %resp_shared64; .reg .u32 %resp_shared32; cvta.to.shared.u64 %resp_shared64, $0; cvt.u32.u64 %resp_shared32, %resp_shared64; .reg .u64 %mbar_shared64; .reg .u32 %mbar_shared32; cvta.to.shared.u64 %mbar_shared64, $1; cvt.u32.u64 %mbar_shared32, %mbar_shared64; clusterlaunchcontrol.try_cancel.async.shared::cta.mbarrier::complete_tx::bytes.b128 [%resp_shared32], [%mbar_shared32]; }"@
                },
            "l,l,~{memory}"@,
        ),
{
}

/// The query whether a request was canceled: the PTX takes the operands in
/// order, and fewer of them are an error.
pub proof fn law_convert_query_is_canceled(
    operands: Vec<Value>,
    r: Result<Lowering, LowerError>,
)
    requires
        call_ensures(convert_query_is_canceled, (&operands,), r),
    ensures
        r is Ok <==> operands@.len() >= 2,
        r is Err ==> r->Err_0.message@ == "clc_query_is_canceled requires 2 operands (resp_lo, resp_hi)"@,
        r is Ok ==> computes_i32(
            r->Ok_0@,
            operands@,
            2,
            "{ .reg .b128 %resp; mov.b128 %resp, {$1, $2}; .reg .pred %p; clusterlaunchcontrol.query_cancel.is_canceled.pred.b128 %p, %resp; selp.b32 $0, 1, 0, %p; }"@,
            "=r,l,l"@,
            true,
        ),
{
}

/// The query for one coordinate, `x`, `y` or `z`, of the first CTA of a
/// canceled cluster: the PTX takes the operands in order, and fewer of them are
/// an error.
pub proof fn law_convert_query_get_first_ctaid(
    operands: Vec<Value>,
    dim: &str,
    r: Result<Lowering, LowerError>,
)
    requires
        call_ensures(convert_query_get_first_ctaid, (&operands, dim,), r),
    ensures
        r is Ok <==> operands@.len() >= 2,
        r is Err ==> r->Err_0.message@ == "clc_query_get_first_ctaid_"@ + dim@ + " requires 2 operands (resp_lo, resp_hi)"@,
        r is Ok ==> computes_i32(
            r->Ok_0@,
            operands@,
            2,
            "{ .reg .b128 %resp; mov.b128 %resp, {$1, $2}; clusterlaunchcontrol.query_cancel.get_first_ctaid::"@
                    + dim@ + ".b32.b128 $0, %resp; }"@,
            "=r,l,l"@,
            true,
        ),
{
}

/// The allocation of tensor memory columns: the PTX takes the operands in
/// order, and fewer of them are an error.
pub proof fn law_convert_alloc(
    operands: Vec<Value>,
    r: Result<Lowering, LowerError>,
)
    requires
        call_ensures(convert_alloc, (&operands,), r),
    ensures
        r is Ok <==> operands@.len() >= 2,
        r is Err ==> r->Err_0.message@ == "tcgen05_alloc requires 2 operands"@,
        r is Ok ==> is_statement(
            r->Ok_0@,
            operands@,
            2,
            "{ .reg .u64 %shared64; .reg .u32 %shared32; cvta.to.shared.u64 %shared64, $0; cvt.u32.u64 %shared32, %shared64; tcgen05.alloc.cta_group::1.sync.aligned.shared::cta.b32 [%shared32], $1; }"@,
            "l,r,~{memory}"@,
        ),
{
}

/// The deallocation of tensor memory: the PTX takes the operands in order, and
/// fewer of them are an error.
pub proof fn law_convert_dealloc(
    operands: Vec<Value>,
    r: Result<Lowering, LowerError>,
)
    requires
        call_ensures(convert_dealloc, (&operands,), r),
    ensures
        r is Ok <==> operands@.len() >= 2,
        r is Err ==> r->Err_0.message@ == "tcgen05_dealloc requires 2 operands"@,
        r is Ok ==> is_statement(
            r->Ok_0@,
            operands@,
            2,
            "tcgen05.dealloc.cta_group::1.sync.aligned.b32 $0, $1;"@,
            "r,r,~{memory}"@,
        ),
{
}

/// Giving up the right to allocate tensor memory: one PTX statement without
/// operands.
pub proof fn law_convert_relinquish_alloc_permit(lowering: Lowering)
    requires
        call_ensures(convert_relinquish_alloc_permit, (), lowering),
    ensures
        is_statement(lowering@, Seq::empty(), 0, "tcgen05.relinquish_alloc_permit.cta_group::1.sync.aligned;"@, "~{memory}"@),
{
}

/// The fence before a thread synchronization: one PTX statement without
/// operands.
pub proof fn law_convert_fence_before_thread_sync(lowering: Lowering)
    requires
        call_ensures(convert_fence_before_thread_sync, (), lowering),
    ensures
        is_statement(lowering@, Seq::empty(), 0, "tcgen05.fence::before_thread_sync;"@, "~{memory}"@),
{
}

/// The fence after a thread synchronization: one PTX statement without
/// operands.
pub proof fn law_convert_fence_after_thread_sync(lowering: Lowering)
    requires
        call_ensures(convert_fence_after_thread_sync, (), lowering),
    ensures
        is_statement(lowering@, Seq::empty(), 0, "tcgen05.fence::after_thread_sync;"@, "~{memory}"@),
{
}

/// The commit of pending operations to a barrier: the PTX takes the operands in
/// order, and fewer of them are an error.
pub proof fn law_convert_commit(
    operands: Vec<Value>,
    r: Result<Lowering, LowerError>,
)
    requires
        call_ensures(convert_commit, (&operands,), r),
    ensures
        r is Ok <==> operands@.len() >= 1,
        r is Err ==> r->Err_0.message@ == "tcgen05_commit requires operand"@,
        r is Ok ==> is_statement(
            r->Ok_0@,
            operands@,
            1,
            "tcgen05.commit.cta_group::1.mbarrier::arrive::one.b64 [$0];"@,
            "r,~{memory}"@,
        ),
{
}

/// The commit of pending operations to a barrier of the cluster: the PTX takes
/// the operands in order, and fewer of them are an error.
pub proof fn law_convert_commit_shared_cluster(
    operands: Vec<Value>,
    r: Result<Lowering, LowerError>,
)
    requires
        call_ensures(convert_commit_shared_cluster, (&operands,), r),
    ensures
        r is Ok <==> operands@.len() >= 1,
        r is Err ==> r->Err_0.message@ == "tcgen05_commit_shared_cluster requires operand"@,
        r is Ok ==> is_statement(
            r->Ok_0@,
            operands@,
            1,
            "tcgen05.commit.cta_group::1.mbarrier::arrive::one.shared::cluster.b64 [$0];"@,
            "r,~{memory}"@,
        ),
{
}

/// The `f16` matrix multiply-accumulate: the PTX takes the operands in order,
/// and fewer of them are an error.
pub proof fn law_convert_mma_f16(
    operands: Vec<Value>,
    r: Result<Lowering, LowerError>,
)
    requires
        call_ensures(convert_mma_f16, (&operands,), r),
    ensures
        r is Ok <==> operands@.len() >= 5,
        r is Err ==> r->Err_0.message@ == "tcgen05_mma_f16 requires 5 operands"@,
        r is Ok ==> is_statement(
            r->Ok_0@,
            operands@,
            5,
            "{ .reg .pred %enable_pred; setp.ne.s32 %enable_pred, $4, 0; .reg .u32 %z; mov.u32 %z, 0; tcgen05.mma.cta_group::1.kind::f16 [$0], $1, $2, $3, {%z, %z, %z, %z}, %enable_pred; }"@,
            "r,l,l,r,r,~{memory}"@,
        ),
{
}

/// The copy from shared memory to tensor memory: the PTX takes the operands in
/// order, and fewer of them are an error.
pub proof fn law_convert_cp_smem_to_tmem(
    operands: Vec<Value>,
    r: Result<Lowering, LowerError>,
)
    requires
        call_ensures(convert_cp_smem_to_tmem, (&operands,), r),
    ensures
        r is Ok <==> operands@.len() >= 2,
        r is Err ==> r->Err_0.message@ == "tcgen05_cp_smem_to_tmem requires 2 operands"@,
        r is Ok ==> is_statement(
            r->Ok_0@,
            operands@,
            2,
            "tcgen05.cp.cta_group::1.128x256b [$0], $1;"@,
            "r,l,~{memory}"@,
        ),
{
}

/// The wait for tensor memory loads: one PTX statement without operands.
pub proof fn law_convert_load_wait(lowering: Lowering)
    requires
        call_ensures(convert_load_wait, (), lowering),
    ensures
        is_statement(lowering@, Seq::empty(), 0, "tcgen05.wait::ld.sync.aligned;"@, "~{memory}"@),
{
}

/// The wait for tensor memory stores: one PTX statement without operands.
pub proof fn law_convert_store_wait(lowering: Lowering)
    requires
        call_ensures(convert_store_wait, (), lowering),
    ensures
        is_statement(lowering@, Seq::empty(), 0, "tcgen05.wait::st.sync.aligned;"@, "~{memory}"@),
{
}

/// The allocation of tensor memory columns for a CTA pair: the PTX takes the
/// operands in order, and fewer of them are an error.
pub proof fn law_convert_alloc_cg2(
    operands: Vec<Value>,
    r: Result<Lowering, LowerError>,
)
    requires
        call_ensures(convert_alloc_cg2, (&operands,), r),
    ensures
        r is Ok <==> operands@.len() >= 2,
        r is Err ==> r->Err_0.message@ == "tcgen05_alloc_cg2 requires 2 operands"@,
        r is Ok ==> is_statement(
            r->Ok_0@,
            operands@,
            2,
            "{ .reg .u64 %shared64; .reg .u32 %shared32; cvta.to.shared.u64 %shared64, $0; cvt.u32.u64 %shared32, %shared64; tcgen05.alloc.cta_group::2.sync.aligned.shared::cta.b32 [%shared32], $1; }"@,
            "l,r,~{memory}"@,
        ),
{
}

/// The deallocation of tensor memory for a CTA pair: the PTX takes the operands
/// in order, and fewer of them are an error.
pub proof fn law_convert_dealloc_cg2(
    operands: Vec<Value>,
    r: Result<Lowering, LowerError>,
)
    requires
        call_ensures(convert_dealloc_cg2, (&operands,), r),
    ensures
        r is Ok <==> operands@.len() >= 2,
        r is Err ==> r->Err_0.message@ == "tcgen05_dealloc_cg2 requires 2 operands"@,
        r is Ok ==> is_statement(
            r->Ok_0@,
            operands@,
            2,
            "tcgen05.dealloc.cta_group::2.sync.aligned.b32 $0, $1;"@,
            "r,r,~{memory}"@,
        ),
{
}

/// Giving up the right to allocate tensor memory, for a CTA pair: one PTX
/// statement without operands.
pub proof fn law_convert_relinquish_alloc_permit_cg2(lowering: Lowering)
    requires
        call_ensures(convert_relinquish_alloc_permit_cg2, (), lowering),
    ensures
        is_statement(lowering@, Seq::empty(), 0, "tcgen05.relinquish_alloc_permit.cta_group::2.sync.aligned;"@, "~{memory}"@),
{
}

/// The `f16` matrix multiply-accumulate of a CTA pair, which has twice as many
/// output lanes: the PTX takes the operands in order, and fewer of them are an
/// error.
pub proof fn law_convert_mma_f16_cg2(
    operands: Vec<Value>,
    r: Result<Lowering, LowerError>,
)
    requires
        call_ensures(convert_mma_f16_cg2, (&operands,), r),
    ensures
        r is Ok <==> operands@.len() >= 5,
        r is Err ==> r->Err_0.message@ == "tcgen05_mma_f16_cg2 requires 5 operands"@,
        r is Ok ==> is_statement(
            r->Ok_0@,
            operands@,
            5,
            "{ .reg .pred %enable_pred; setp.ne.s32 %enable_pred, $4, 0; .reg .u32 %z; mov.u32 %z, 0; tcgen05.mma.cta_group::2.kind::f16 [$0], $1, $2, $3, {%z, %z, %z, %z, %z, %z, %z, %z}, %enable_pred; }"@,
            "r,l,l,r,r,~{memory}"@,
        ),
{
}

/// The commit of pending operations of a CTA pair to a barrier: the PTX takes
/// the operands in order, and fewer of them are an error.
pub proof fn law_convert_commit_cg2(
    operands: Vec<Value>,
    r: Result<Lowering, LowerError>,
)
    requires
        call_ensures(convert_commit_cg2, (&operands,), r),
    ensures
        r is Ok <==> operands@.len() >= 1,
        r is Err ==> r->Err_0.message@ == "tcgen05_commit_cg2 requires operand"@,
        r is Ok ==> is_statement(
            r->Ok_0@,
            operands@,
            1,
            "tcgen05.commit.cta_group::2.mbarrier::arrive::one.b64 [$0];"@,
            "r,~{memory}"@,
        ),
{
}

/// The commit of pending operations of a CTA pair to a barrier of the cluster:
/// the PTX takes the operands in order, and fewer of them are an error.
pub proof fn law_convert_commit_shared_cluster_cg2(
    operands: Vec<Value>,
    r: Result<Lowering, LowerError>,
)
    requires
        call_ensures(convert_commit_shared_cluster_cg2, (&operands,), r),
    ensures
        r is Ok <==> operands@.len() >= 1,
        r is Err ==> r->Err_0.message@ == "tcgen05_commit_shared_cluster_cg2 requires operand"@,
        r is Ok ==> is_statement(
            r->Ok_0@,
            operands@,
            1,
            "tcgen05.commit.cta_group::2.mbarrier::arrive::one.shared::cluster.b64 [$0];"@,
            "r,~{memory}"@,
        ),
{
}

/// The commit of pending operations of a CTA pair to the barriers of every CTA
/// in a mask: the PTX takes the operands in order, and fewer of them are an
/// error.
pub proof fn law_convert_commit_multicast_cg2(
    operands: Vec<Value>,
    r: Result<Lowering, LowerError>,
)
    requires
        call_ensures(convert_commit_multicast_cg2, (&operands,), r),
    ensures
        r is Ok <==> operands@.len() >= 2,
        r is Err ==> r->Err_0.message@ == "tcgen05_commit_multicast_cg2 requires 2 operands (mbar, cta_mask)"@,
        r is Ok ==> is_statement(
            r->Ok_0@,
            operands@,
            2,
            "tcgen05.commit.cta_group::2.mbarrier::arrive::one.shared::cluster.multicast::cluster.b64 [$0], $1;"@,
            "r,h,~{memory}"@,
        ),
{
}

/// The copy from shared memory to tensor memory for a CTA pair: the PTX takes
/// the operands in order, and fewer of them are an error.
pub proof fn law_convert_cp_smem_to_tmem_cg2(
    operands: Vec<Value>,
    r: Result<Lowering, LowerError>,
)
    requires
        call_ensures(convert_cp_smem_to_tmem_cg2, (&operands,), r),
    ensures
        r is Ok <==> operands@.len() >= 2,
        r is Err ==> r->Err_0.message@ == "tcgen05_cp_smem_to_tmem_cg2 requires 2 operands"@,
        r is Ok ==> is_statement(
            r->Ok_0@,
            operands@,
            2,
            "tcgen05.cp.cta_group::2.128x256b [$0], $1;"@,
            "r,l,~{memory}"@,
        ),
{
}

/// The weight-stationary matrix multiply-accumulate of the given kind: `f16`,
/// `bf16` or `tf32`: the PTX takes the operands in order, and fewer of them are
/// an error.
pub proof fn law_convert_mma_ws(
    operands: Vec<Value>,
    kind: &str,
    r: Result<Lowering, LowerError>,
)
    requires
        call_ensures(convert_mma_ws, (&operands, kind,), r),
    ensures
        r is Ok <==> operands@.len() >= 6,
        r is Err ==> r->Err_0.message@ == "tcgen05_mma_ws requires 6 operands"@,
        r is Ok ==> is_statement(
            r->Ok_0@,
            operands@,
            6,
            "{ .reg .pred %enable_pred; setp.ne.s32 %enable_pred, $5, 0; tcgen05.mma.ws.cta_group::1.kind::"@
                    + kind@ + " [$0], [$1], $2, $3, $4, %enable_pred; }"@,
            "r,r,l,l,r,r,~{memory}"@,
        ),
{
}

/// The conversion of two `f32` to packed `bf16x2`: the PTX takes the operands
/// in order, and fewer of them are an error.
pub proof fn law_convert_cvt_f32x2_bf16x2(
    operands: Vec<Value>,
    r: Result<Lowering, LowerError>,
)
    requires
        call_ensures(convert_cvt_f32x2_bf16x2, (&operands,), r),
    ensures
        r is Ok <==> operands@.len() >= 2,
        r is Err ==> r->Err_0.message@ == "cvt_f32x2_bf16x2 requires 2 operands"@,
        r is Ok ==> computes_i32(
            r->Ok_0@,
            operands@,
            2,
            "cvt.rn.bf16x2.f32 $0, $2, $1;"@,
            "=r,f,f"@,
            false,
        ),
{
}

/// The read of a special register is a call of the intrinsic that is named,
/// whose 32-bit result takes the place of the operation's.
pub proof fn law_convert_sreg_read_i32(intrinsic_name: &str, lowering: Lowering)
    requires
        is_identifier(intrinsic_name@),
        call_ensures(convert_sreg_read_i32, (intrinsic_name,), lowering),
    ensures
        calls(lowering@, intrinsic_name@, Seq::empty(), Seq::empty()),
        (lowering@.declare->0).1.result == (LlvmTy::Integer { width: 32 }),
        lowering@.outcome == Outcome::ReplaceWith(0),
{
}

/// A profiler event signals the number that it was made with, and event 0
/// where it carries none.
pub proof fn law_convert_pm_event(
    event_id: u32,
    made: Operation,
    event: PmEventOp,
    lowering: Lowering,
)
    requires
        call_ensures(PmEventOp::new_with_event_id, (event_id,), made),
        call_ensures(convert_pm_event, (&event,), lowering),
        event.op == made || (event.op.attributes@ == Map::<Seq<char>, u64>::empty() && event_id
            == 0),
    ensures
        is_statement(
            lowering@,
            Seq::empty(),
            0,
            "pmevent "@ + decimal(event_id as nat) + ";"@,
            ""@,
        ),
{
}

/// Printing calls `vprintf` with the format and the arguments, which are two
/// generic pointers, and gives its 32-bit result; any other number of operands
/// is an error that says how many there are.
pub proof fn law_convert_vprintf(operands: Vec<Value>, r: Result<Lowering, LowerError>)
    requires
        call_ensures(convert_vprintf, (&operands,), r),
    ensures
        r is Ok <==> operands@.len() == 2,
        r is Err ==> r->Err_0.message@ == "vprintf requires 2 operands, got "@ + decimal(
            operands@.len(),
        ),
        r is Ok ==> {
            &&& calls(
                r->Ok_0@,
                "vprintf"@,
                seq![LlvmTy::Pointer { addrspace: 0 }, LlvmTy::Pointer { addrspace: 0 }],
                seq![Arg::Existing(operands@[0]), Arg::Existing(operands@[1])],
            )
            &&& (r->Ok_0@.declare->0).1.result == (LlvmTy::Integer { width: 32 })
            &&& r->Ok_0@.outcome == Outcome::ReplaceWith(0)
        },
{
    if r is Ok {
        assert(r->Ok_0@.ops[0]->Call_args =~= seq![
            Arg::Existing(operands@[0]),
            Arg::Existing(operands@[1]),
        ]);
    }
}

/// Whether the plan loads `n` registers from the address in `operand` and hands
/// each out as its own result, in order.
pub open spec fn loads_registers(plan: Plan, operand: Value, n: nat) -> bool {
    &&& plan.declare is None
    &&& plan.ops.len() == n + 1
    &&& plan.ops[0] is InlineAsm
    &&& plan.ops[0]->InlineAsm_args == seq![Arg::Existing(operand)]
    &&& plan.ops[0]->convergent
    &&& plan.ops[0]->result_ty is Struct
    &&& plan.ops[0]->result_ty->fields.len() == n
    &&& forall|i: int| 0 <= i < n ==> #[trigger] plan.ops[0]->result_ty->fields[i] is Float
    &&& forall|i: int|
        0 <= i < n ==> #[trigger] plan.ops[i + 1] == (Emitted::ExtractValue {
            agg: Arg::Result(0),
            index: i as u32,
        })
    &&& plan.outcome == (Outcome::ReplaceWithResults { first: 1, count: n as usize })
}

/// A load from tensor memory gives its registers in order: 4 for one column
/// group and 32 for eight.
pub proof fn law_tensor_loads_give_registers_in_order(
    operands: Vec<Value>,
    small: Lowering,
    large: Lowering,
)
    requires
        operands@.len() >= 1,
        call_ensures(convert_ld_16x256b_pure, (&operands,), small),
        call_ensures(convert_ld_16x256b_x8_pure, (&operands,), large),
    ensures
        loads_registers(small@, operands@[0], 4),
        loads_registers(large@, operands@[0], 32),
        small@.ops[0]->template == "tcgen05.ld.sync.aligned.16x256b.x1.b32 {$0,$1,$2,$3}, [$4];"@,
        small@.ops[0]->constraints == "=f,=f,=f,=f,r"@,
{
}

// ---------------------------------------------------------------------------
// Bulk copies
// ---------------------------------------------------------------------------

/// Committing a group of bulk copies is one statement, and the operation stays.
pub proof fn law_convert_commit_group(lowering: Lowering)
    requires
        call_ensures(convert_commit_group, (), lowering),
    ensures
        is_statement(
            Plan { outcome: Outcome::Erase, ..lowering@ },
            Seq::empty(),
            0,
            "cp.async.bulk.commit_group;"@,
            "~{memory}"@,
        ),
        lowering@.outcome is Keep,
{
}

/// A wait is for the number of groups in its operand, or for all of them
/// without one: that is, for 0 to be left. Waiting for the reads alone differs
/// in the statement only.
pub proof fn law_convert_wait_group(
    operands: Vec<Value>,
    done: Lowering,
    read: Lowering,
)
    requires
        call_ensures(convert_wait_group, (&operands, false), done),
        call_ensures(convert_wait_group, (&operands, true), read),
    ensures
        ({
            let n = if operands@.len() > 0 {
                0
            } else {
                1int
            };
            let arg = if operands@.len() > 0 {
                Arg::Existing(operands@[0])
            } else {
                Arg::Result(0)
            };
            &&& done@.ops.len() == n + 1 && read@.ops.len() == n + 1
            &&& n == 1 ==> done@.ops[0] == Emitted::ConstI32(0) && read@.ops[0]
                == Emitted::ConstI32(0)
            &&& done@.ops[n] == (Emitted::InlineAsm {
                result_ty: LlvmTy::Void,
                args: seq![arg],
                template: "cp.async.bulk.wait_group $0;"@,
                constraints: "n,~{memory}"@,
                convergent: true,
            })
            &&& read@.ops[n] == (Emitted::InlineAsm {
                result_ty: LlvmTy::Void,
                args: seq![arg],
                template: "cp.async.bulk.wait_group.read $0;"@,
                constraints: "n,~{memory}"@,
                convergent: true,
            })
            &&& done@.outcome is Erase && read@.outcome is Erase
            &&& done@.declare is None && read@.declare is None
        }),
{
}

/// Whether the plan ends with a call of the function that it declares, with as
/// many arguments as that function takes, and the operation is erased.
pub open spec fn ends_with_call(plan: Plan) -> bool {
    let call = plan.ops.last();
    &&& plan.declare is Some
    &&& plan.ops.len() > 0
    &&& call is Call
    &&& call->callee == (plan.declare->0).0
    &&& call->func_ty == (plan.declare->0).1
    &&& call->Call_args.len() == call->func_ty.inputs.len()
    &&& call->func_ty.result is Void
    &&& !call->func_ty.is_var_arg
    &&& plan.outcome is Erase
}

/// A copy into shared memory takes the destination, the barrier, the tensor
/// map, one coordinate per dimension, the CTA mask and the cache hint, and
/// passes them on in that order. The destination goes to the cluster's shared
/// memory and the barrier to the block's; behind them come whether to
/// multicast, that there is no cache hint, and the CTA group.
pub proof fn law_convert_g2s(
    operands: Vec<Value>,
    dims: usize,
    multicast: bool,
    r: Result<Lowering, LowerError>,
    i: int,
)
    requires
        dims + 5 <= usize::MAX,
        call_ensures(convert_g2s, (&operands, dims, multicast), r),
    ensures
        r is Ok <==> operands@.len() == dims + 5,
        r is Err ==> r->Err_0.message@ == "TMA G2S "@ + decimal(dims as nat) + "D requires "@
            + decimal((dims + 5) as nat) + " operands, got "@ + decimal(operands@.len()),
        r is Ok ==> copies_in(r->Ok_0@, operands@, dims as nat, multicast, 0),
        r is Ok && 0 <= i < dims ==> r->Ok_0@.ops[5]->Call_args[3 + i] == Arg::Existing(
            operands@[3 + i],
        ) && r->Ok_0@.ops[5]->func_ty.inputs[3 + i] == (LlvmTy::Integer { width: 32 }),
{
}

/// Whether the plan copies a tile of `dims` dimensions into shared memory.
pub open spec fn copies_in(
    plan: Plan,
    operands: Seq<Value>,
    dims: nat,
    multicast: bool,
    cta_group: i32,
) -> bool {
    let call = plan.ops[5];
    let n = dims as int;
    &&& ends_with_call(plan)
    &&& plan.ops.len() == 6
    &&& call->callee == "llvm_nvvm_cp_async_bulk_tensor_g2s_tile_"@ + decimal(dims) + "d"@
    &&& plan.ops[0] == (Emitted::PointerInSpace {
        value: Arg::Existing(operands[0]),
        addrspace: 7,
    })
    &&& plan.ops[1] == (Emitted::PointerInSpace {
        value: Arg::Existing(operands[1]),
        addrspace: 3,
    })
    &&& plan.ops[2] == Emitted::ConstI1(multicast)
    &&& plan.ops[3] == Emitted::ConstI1(false)
    &&& plan.ops[4] == Emitted::ConstI32(cta_group)
    &&& call->Call_args.len() == n + 8
    &&& call->Call_args[0] == Arg::Result(0)
    &&& call->Call_args[1] == Arg::Result(1)
    &&& call->Call_args[2] == Arg::Existing(operands[2])
    &&& call->Call_args[n + 3] == Arg::Existing(operands[n + 3])
    &&& call->Call_args[n + 4] == Arg::Existing(operands[n + 4])
    &&& call->Call_args[n + 5] == Arg::Result(2)
    &&& call->Call_args[n + 6] == Arg::Result(3)
    &&& call->Call_args[n + 7] == Arg::Result(4)
    &&& call->func_ty.inputs[0] == (LlvmTy::Pointer { addrspace: 7 })
    &&& call->func_ty.inputs[1] == (LlvmTy::Pointer { addrspace: 3 })
    &&& call->func_ty.inputs[2] == (LlvmTy::Pointer { addrspace: 0 })
    &&& call->func_ty.inputs[n + 3] == (LlvmTy::Integer { width: 16 })
    &&& call->func_ty.inputs[n + 4] == (LlvmTy::Integer { width: 64 })
    &&& call->func_ty.inputs[n + 5] == (LlvmTy::Integer { width: 1 })
    &&& call->func_ty.inputs[n + 6] == (LlvmTy::Integer { width: 1 })
    &&& call->func_ty.inputs[n + 7] == (LlvmTy::Integer { width: 32 })
}

/// The copy for a CTA pair is the multicast copy in two dimensions, for CTA
/// group 2.
pub proof fn law_convert_g2s_multicast_cg2(
    operands: Vec<Value>,
    r: Result<Lowering, LowerError>,
    single: Result<Lowering, LowerError>,
)
    requires
        call_ensures(convert_g2s_multicast_cg2, (&operands,), r),
        call_ensures(convert_g2s, (&operands, 2, true), single),
    ensures
        r is Ok <==> single is Ok,
        r is Err ==> r->Err_0.message@ == single->Err_0.message@,
        r is Ok ==> copies_in(r->Ok_0@, operands@, 2, true, 2),
        r is Ok ==> r->Ok_0@.ops[5] == single->Ok_0@.ops[5],
{
}

/// A copy out of shared memory takes the source, the tensor map and one
/// coordinate per dimension, and passes them on in that order; the source goes
/// to shared memory first.
pub proof fn law_convert_s2g(
    operands: Vec<Value>,
    dims: usize,
    r: Result<Lowering, LowerError>,
    i: int,
)
    requires
        dims + 2 <= usize::MAX,
        call_ensures(convert_s2g, (&operands, dims), r),
    ensures
        r is Ok <==> operands@.len() == dims + 2,
        r is Err ==> r->Err_0.message@ == "TMA S2G "@ + decimal(dims as nat) + "D requires "@
            + decimal((dims + 2) as nat) + " operands, got "@ + decimal(operands@.len()),
        r is Ok ==> {
            let plan = r->Ok_0@;
            let call = plan.ops[1];
            &&& ends_with_call(plan)
            &&& plan.ops.len() == 2
            &&& call->callee == "llvm_nvvm_cp_async_bulk_tensor_s2g_tile_"@ + decimal(dims as nat)
                + "d"@
            &&& plan.ops[0] == (Emitted::PointerInSpace {
                value: Arg::Existing(operands@[0]),
                addrspace: 3,
            })
            &&& call->Call_args[0] == Arg::Result(0)
            &&& call->Call_args[1] == Arg::Existing(operands@[1])
            &&& call->func_ty.inputs[0] == (LlvmTy::Pointer { addrspace: 3 })
            &&& call->func_ty.inputs[1] == (LlvmTy::Pointer { addrspace: 0 })
            &&& 0 <= i < dims ==> call->Call_args[2 + i] == Arg::Existing(operands@[2 + i])
                && call->func_ty.inputs[2 + i] == (LlvmTy::Integer { width: 32 })
        },
{
}

} // verus!
