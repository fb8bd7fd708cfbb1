use cuda_oxide::ir::llvm::LlvmType;
use cuda_oxide::lowering::intrinsics::basic::{
    convert_barrier0, convert_sreg_read_i32, convert_threadfence, convert_threadfence_block,
    convert_threadfence_system,
};
use cuda_oxide::lowering::intrinsics::clc::{
    convert_query_get_first_ctaid, convert_query_is_canceled, convert_try_cancel,
};
use cuda_oxide::lowering::intrinsics::debug::{
    convert_breakpoint, convert_clock, convert_clock64, convert_globaltimer, convert_trap,
    convert_vprintf,
};
use cuda_oxide::lowering::intrinsics::rewrite::{Arg, LowerError, LoweredOp, Lowering, Outcome};
use cuda_oxide::lowering::intrinsics::tcgen05::{
    convert_alloc, convert_alloc_cg2, convert_commit, convert_commit_cg2,
    convert_commit_multicast_cg2, convert_commit_shared_cluster,
    convert_commit_shared_cluster_cg2, convert_cp_smem_to_tmem, convert_cp_smem_to_tmem_cg2,
    convert_cvt_f32x2_bf16x2, convert_dealloc, convert_dealloc_cg2,
    convert_fence_after_thread_sync, convert_fence_before_thread_sync, convert_ld_16x256b_pure,
    convert_ld_16x256b_x8_pure, convert_load_wait, convert_mma_f16, convert_mma_f16_cg2,
    convert_mma_ws, convert_relinquish_alloc_permit, convert_relinquish_alloc_permit_cg2,
    convert_store_wait,
};
use cuda_oxide::lowering::intrinsics::tma::{
    convert_commit_group, convert_g2s, convert_g2s_multicast_cg2, convert_s2g,
    convert_wait_group,
};

/// The template, constraints and outcome of a lowering to one statement of
/// inline PTX that must not be moved.
fn ptx(lowering: &Lowering) -> (&str, &str, Outcome) {
    assert!(lowering.declare.is_none());
    assert_eq!(lowering.ops.len(), 1);
    match &lowering.ops[0] {
        LoweredOp::InlineAsm { template, constraints, convergent, .. } => {
            assert!(convergent);
            (template.as_str(), constraints.as_str(), lowering.outcome)
        }
        _ => panic!("the lowering is inline PTX"),
    }
}

fn message(r: Result<Lowering, LowerError>) -> String {
    match r {
        Ok(_) => panic!("the lowering must fail"),
        Err(error) => error.message,
    }
}

fn existing(values: &[usize]) -> Vec<Arg> {
    values.iter().map(|value| Arg::Existing(*value)).collect()
}

/// The callee and arguments of the call that ends a lowering, with the
/// declared name.
fn call(lowering: &Lowering) -> (&str, Vec<Arg>) {
    let declared = lowering.declare.as_ref().unwrap();
    match lowering.ops.last().unwrap() {
        LoweredOp::Call { callee, func_ty, args } => {
            assert_eq!(callee, &declared.name);
            assert_eq!(func_ty, &declared.func_ty);
            assert_eq!(func_ty.inputs.len(), args.len());
            (callee.as_str(), args.iter().map(|arg| *arg).collect())
        }
        _ => panic!("the lowering ends with a call"),
    }
}

#[test]
fn register_reads_are_intrinsic_calls() {
    let lowering = convert_sreg_read_i32("llvm_nvvm_read_ptx_sreg_tid_x");
    assert_eq!(call(&lowering), ("llvm_nvvm_read_ptx_sreg_tid_x", vec![]));
    assert_eq!(lowering.outcome, Outcome::ReplaceWith(0));
    assert_eq!(call(&convert_clock()).0, "llvm_nvvm_read_ptx_sreg_clock");
    assert_eq!(call(&convert_clock64()).0, "llvm_nvvm_read_ptx_sreg_clock64");
    assert_eq!(call(&convert_globaltimer()).0, "llvm_nvvm_read_ptx_sreg_globaltimer");
}

#[test]
fn barrier_and_fences() {
    assert_eq!(call(&convert_barrier0()).0, "llvm_nvvm_barrier0");
    assert_eq!(ptx(&convert_threadfence_block()), ("membar.cta;", "~{memory}", Outcome::Erase));
    assert_eq!(ptx(&convert_threadfence()), ("membar.gl;", "~{memory}", Outcome::Erase));
    assert_eq!(ptx(&convert_threadfence_system()), ("membar.sys;", "~{memory}", Outcome::Erase));
    assert_eq!(ptx(&convert_trap()), ("trap;", "", Outcome::Erase));
    assert_eq!(ptx(&convert_breakpoint()), ("brkpt;", "", Outcome::Erase));
}

#[test]
fn printf_calls_vprintf() {
    let lowering = convert_vprintf(&vec![3, 8]).unwrap();
    assert_eq!(call(&lowering), ("vprintf", existing(&[3, 8])));
    assert_eq!(message(convert_vprintf(&vec![3])), "vprintf requires 2 operands, got 1");
    assert_eq!(message(convert_vprintf(&vec![1, 2, 3])), "vprintf requires 2 operands, got 3");
}

#[test]
fn cluster_launch_control() {
    let plain = convert_try_cancel(&vec![1, 2], false).unwrap();
    let (template, constraints, outcome) = ptx(&plain);
    assert!(template.ends_with(
        "clusterlaunchcontrol.try_cancel.async.shared::cta.mbarrier::complete_tx::bytes.b128 \
         [%resp_shared32], [%mbar_shared32]; }"
    ));
    assert_eq!((constraints, outcome), ("l,l,~{memory}", Outcome::Erase));
    let all = convert_try_cancel(&vec![1, 2], true).unwrap();
    assert!(ptx(&all).0.contains(".multicast::cluster::all.b128"));
    assert_eq!(
        message(convert_try_cancel(&vec![1], true)),
        "clc_try_cancel requires 2 operands (response, mbar)"
    );

    let query = convert_query_is_canceled(&vec![1, 2]).unwrap();
    assert_eq!(ptx(&query).1, "=r,l,l");
    assert_eq!(query.outcome, Outcome::ReplaceWith(0));
    assert_eq!(
        message(convert_query_is_canceled(&vec![])),
        "clc_query_is_canceled requires 2 operands (resp_lo, resp_hi)"
    );

    let first = convert_query_get_first_ctaid(&vec![1, 2], "y").unwrap();
    assert!(ptx(&first).0.contains("get_first_ctaid::y.b32.b128 $0, %resp;"));
    assert_eq!(
        message(convert_query_get_first_ctaid(&vec![1], "z")),
        "clc_query_get_first_ctaid_z requires 2 operands (resp_lo, resp_hi)"
    );
}

#[test]
fn bulk_copy_groups() {
    assert_eq!(
        ptx(&convert_commit_group()),
        ("cp.async.bulk.commit_group;", "~{memory}", Outcome::Keep)
    );
    let named = convert_wait_group(&vec![6], false);
    assert_eq!(
        ptx(&named),
        ("cp.async.bulk.wait_group $0;", "n,~{memory}", Outcome::Erase)
    );
    let all = convert_wait_group(&vec![], true);
    assert_eq!(all.ops.len(), 2);
    assert_eq!(all.ops[0], LoweredOp::ConstI32(0));
    match &all.ops[1] {
        LoweredOp::InlineAsm { template, args, .. } => {
            assert_eq!(template, "cp.async.bulk.wait_group.read $0;");
            assert_eq!(args, &vec![Arg::Result(0)]);
        }
        _ => panic!("the wait is inline PTX"),
    }
}

#[test]
fn tile_copies_into_shared_memory() {
    // Destination, barrier, map, two coordinates, mask, hint.
    let lowering = convert_g2s(&vec![10, 11, 12, 13, 14, 15, 16], 2, true).unwrap();
    let (callee, args) = call(&lowering);
    assert_eq!(callee, "llvm_nvvm_cp_async_bulk_tensor_g2s_tile_2d");
    let mut expected = vec![Arg::Result(0), Arg::Result(1)];
    expected.extend(existing(&[12, 13, 14, 15, 16]));
    expected.extend([Arg::Result(2), Arg::Result(3), Arg::Result(4)]);
    assert_eq!(args, expected);
    assert_eq!(
        lowering.ops[..5],
        [
            LoweredOp::PointerInSpace { value: Arg::Existing(10), addrspace: 7 },
            LoweredOp::PointerInSpace { value: Arg::Existing(11), addrspace: 3 },
            LoweredOp::ConstI1(true),
            LoweredOp::ConstI1(false),
            LoweredOp::ConstI32(0),
        ]
    );
    let types = &lowering.declare.as_ref().unwrap().func_ty.inputs;
    assert_eq!(types[3], LlvmType::Integer { width: 32 });
    assert_eq!(types[5], LlvmType::Integer { width: 16 });

    let pair = convert_g2s_multicast_cg2(&vec![10, 11, 12, 13, 14, 15, 16]).unwrap();
    assert_eq!(pair.ops[2], LoweredOp::ConstI1(true));
    assert_eq!(pair.ops[4], LoweredOp::ConstI32(2));

    let error = message(convert_g2s(&vec![1, 2, 3], 3, false));
    assert!(error.ends_with("3D requires 8 operands, got 3"));
}

#[test]
fn tile_copies_out_of_shared_memory() {
    let lowering = convert_s2g(&vec![20, 21, 22, 23, 24], 3).unwrap();
    assert_eq!(call(&lowering).0, "llvm_nvvm_cp_async_bulk_tensor_s2g_tile_3d");
    let error = message(convert_s2g(&vec![20, 21], 3));
    assert!(error.ends_with("3D requires 5 operands, got 2"));
}

#[test]
fn tensor_memory_statements() {
    assert_eq!(
        ptx(&convert_relinquish_alloc_permit()).0,
        "tcgen05.relinquish_alloc_permit.cta_group::1.sync.aligned;"
    );
    assert_eq!(
        ptx(&convert_relinquish_alloc_permit_cg2()).0,
        "tcgen05.relinquish_alloc_permit.cta_group::2.sync.aligned;"
    );
    assert_eq!(
        ptx(&convert_fence_before_thread_sync()).0,
        "tcgen05.fence::before_thread_sync;"
    );
    assert_eq!(ptx(&convert_fence_after_thread_sync()).0, "tcgen05.fence::after_thread_sync;");
    assert_eq!(ptx(&convert_load_wait()).0, "tcgen05.wait::ld.sync.aligned;");
    assert_eq!(ptx(&convert_store_wait()).0, "tcgen05.wait::st.sync.aligned;");
    assert_eq!(
        ptx(&convert_dealloc(&vec![1, 2]).unwrap()).0,
        "tcgen05.dealloc.cta_group::1.sync.aligned.b32 $0, $1;"
    );
    assert_eq!(
        ptx(&convert_dealloc_cg2(&vec![1, 2]).unwrap()).0,
        "tcgen05.dealloc.cta_group::2.sync.aligned.b32 $0, $1;"
    );
    assert!(ptx(&convert_alloc(&vec![1, 2]).unwrap())
        .0
        .contains("tcgen05.alloc.cta_group::1.sync.aligned.shared::cta.b32"));
    assert!(ptx(&convert_alloc_cg2(&vec![1, 2]).unwrap())
        .0
        .contains("tcgen05.alloc.cta_group::2.sync.aligned.shared::cta.b32"));
    assert_eq!(
        ptx(&convert_cp_smem_to_tmem(&vec![1, 2]).unwrap()).0,
        "tcgen05.cp.cta_group::1.128x256b [$0], $1;"
    );
    assert_eq!(
        ptx(&convert_cp_smem_to_tmem_cg2(&vec![1, 2]).unwrap()).0,
        "tcgen05.cp.cta_group::2.128x256b [$0], $1;"
    );
    assert!(convert_dealloc(&vec![1]).is_err());
    assert!(convert_alloc(&vec![1]).is_err());
    assert!(convert_cp_smem_to_tmem(&vec![]).is_err());
}

#[test]
fn tensor_commits() {
    let base = "tcgen05.commit.cta_group::";
    assert!(ptx(&convert_commit(&vec![1]).unwrap())
        .0
        .contains(&format!("{base}1.mbarrier::arrive::one.b64")));
    assert_eq!(
        ptx(&convert_commit_shared_cluster(&vec![1]).unwrap()).0,
        "tcgen05.commit.cta_group::1.mbarrier::arrive::one.shared::cluster.b64 [$0];"
    );
    assert!(ptx(&convert_commit_cg2(&vec![1]).unwrap())
        .0
        .contains(&format!("{base}2.mbarrier::arrive::one.b64")));
    assert!(ptx(&convert_commit_shared_cluster_cg2(&vec![1]).unwrap())
        .0
        .contains(&format!("{base}2.mbarrier::arrive::one.shared::cluster.b64")));
    assert!(ptx(&convert_commit_multicast_cg2(&vec![1, 2]).unwrap())
        .0
        .contains("multicast::cluster.b64"));
    assert!(convert_commit(&vec![]).is_err());
    assert!(convert_commit_multicast_cg2(&vec![1]).is_err());
}

#[test]
fn tensor_multiplies() {
    let mma = convert_mma_f16(&vec![1, 2, 3, 4, 5]).unwrap();
    let (template, constraints, _) = ptx(&mma);
    assert!(template.contains(
        "tcgen05.mma.cta_group::1.kind::f16 [$0], $1, $2, $3, {%z, %z, %z, %z}, %enable_pred;"
    ));
    assert_eq!(constraints, "r,l,l,r,r,~{memory}");
    assert_eq!(
        message(convert_mma_f16(&vec![1, 2, 3, 4])),
        "tcgen05_mma_f16 requires 5 operands"
    );

    let pair = convert_mma_f16_cg2(&vec![1, 2, 3, 4, 5]).unwrap();
    assert!(ptx(&pair).0.contains("{%z, %z, %z, %z, %z, %z, %z, %z}, %enable_pred;"));
    assert!(convert_mma_f16_cg2(&vec![]).is_err());

    let ws = convert_mma_ws(&vec![1, 2, 3, 4, 5, 6], "tf32").unwrap();
    assert_eq!(
        ptx(&ws),
        (
            "{ .reg .pred %enable_pred; setp.ne.s32 %enable_pred, $5, 0; \
             tcgen05.mma.ws.cta_group::1.kind::tf32 [$0], [$1], $2, $3, $4, %enable_pred; }",
            "r,r,l,l,r,r,~{memory}",
            Outcome::Erase
        )
    );
    assert_eq!(
        message(convert_mma_ws(&vec![1, 2, 3, 4, 5], "f16")),
        "tcgen05_mma_ws requires 6 operands"
    );
}

#[test]
fn tensor_loads_unpack_their_results() {
    let small = convert_ld_16x256b_pure(&vec![7]);
    assert_eq!(small.outcome, Outcome::ReplaceWithResults { first: 1, count: 4 });
    assert_eq!(small.ops.len(), 5);
    assert_eq!(small.ops[4], LoweredOp::ExtractValue { agg: Arg::Result(0), index: 3 });
    let large = convert_ld_16x256b_x8_pure(&vec![7]);
    assert_eq!(large.outcome, Outcome::ReplaceWithResults { first: 1, count: 32 });
    assert_eq!(large.ops.len(), 33);
}

#[test]
fn packing_swaps_the_halves() {
    let lowering = convert_cvt_f32x2_bf16x2(&vec![1, 2]).unwrap();
    match &lowering.ops[0] {
        LoweredOp::InlineAsm { template, .. } => {
            assert!(template.contains("cvt.rn.bf16x2.f32 $0, $2, $1;"))
        }
        _ => panic!("the conversion is inline PTX"),
    }
    assert!(convert_cvt_f32x2_bf16x2(&vec![1]).is_err());
}
