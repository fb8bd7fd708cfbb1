//! Cluster launch control.

use vstd::prelude::*;

use crate::ir::llvm::{LlvmTy, LlvmType};
use crate::lowering::intrinsics::rewrite::{
    asm_over_operands, asm_plan, first_operands, inline_asm, lowers_with_at_least, take_operands,
    LowerError, Lowering, Outcome, Value,
};
use crate::text::concat3;

verus! {

/// Lowers the request to cancel a cluster that has not been launched yet, for
/// this CTA or for all CTAs of the cluster. The response and the barrier are in
/// shared memory; their generic addresses are converted first.
pub fn convert_try_cancel(operands: &Vec<Value>, multicast: bool) -> (r: Result<
    Lowering,
    LowerError,
>)
    ensures
        lowers_with_at_least(
            r,
            operands@,
            2,
            "clc_try_cancel requires 2 operands (response, mbar)"@,
            asm_plan(
                LlvmTy::Void,
                first_operands(operands@, 2),
                if multicast {
                    "{ .reg .u64 %resp_shared64; .reg .u32 %resp_shared32; cvta.to.shared.u64 %resp_shared64, $0; cvt.u32.u64 %resp_shared32, %resp_shared64; .reg .u64 %mbar_shared64; .reg .u32 %mbar_shared32; cvta.to.shared.u64 %mbar_shared64, $1; cvt.u32.u64 %mbar_shared32, %mbar_shared64; clusterlaunchcontrol.try_cancel.async.shared::cta.mbarrier::complete_tx::bytes.multicast::cluster::all.b128 [%resp_shared32], [%mbar_shared32]; }"@
                } else {
                    "{ .reg .u64 %resp_shared64; .reg .u32 %resp_shared32; cvta.to.shared.u64 %resp_shared64, $0; cvt.u32.u64 %resp_shared32, %resp_shared64; .reg .u64 %mbar_shared64; .reg .u32 %mbar_shared32; cvta.to.shared.u64 %mbar_shared64, $1; cvt.u32.u64 %mbar_shared32, %mbar_shared64; clusterlaunchcontrol.try_cancel.async.shared::cta.mbarrier::complete_tx::bytes.b128 [%resp_shared32], [%mbar_shared32]; }"@
                },
                "l,l,~{memory}"@,
                true,
                Outcome::Erase,
            ),
        ),
{
    let ptx = if multicast {
        "{ .reg .u64 %resp_shared64; .reg .u32 %resp_shared32; cvta.to.shared.u64 %resp_shared64, $0; cvt.u32.u64 %resp_shared32, %resp_shared64; .reg .u64 %mbar_shared64; .reg .u32 %mbar_shared32; cvta.to.shared.u64 %mbar_shared64, $1; cvt.u32.u64 %mbar_shared32, %mbar_shared64; clusterlaunchcontrol.try_cancel.async.shared::cta.mbarrier::complete_tx::bytes.multicast::cluster::all.b128 [%resp_shared32], [%mbar_shared32]; }"
    } else {
        "{ .reg .u64 %resp_shared64; .reg .u32 %resp_shared32; cvta.to.shared.u64 %resp_shared64, $0; cvt.u32.u64 %resp_shared32, %resp_shared64; .reg .u64 %mbar_shared64; .reg .u32 %mbar_shared32; cvta.to.shared.u64 %mbar_shared64, $1; cvt.u32.u64 %mbar_shared32, %mbar_shared64; clusterlaunchcontrol.try_cancel.async.shared::cta.mbarrier::complete_tx::bytes.b128 [%resp_shared32], [%mbar_shared32]; }"
    };
    asm_over_operands(
        operands,
        2,
        "clc_try_cancel requires 2 operands (response, mbar)",
        ptx,
        "l,l,~{memory}",
    )
}

/// Lowers the query whether a request was canceled.
pub fn convert_query_is_canceled(operands: &Vec<Value>) -> (r: Result<Lowering, LowerError>)
    ensures
        lowers_with_at_least(
            r,
            operands@,
            2,
            "clc_query_is_canceled requires 2 operands (resp_lo, resp_hi)"@,
            asm_plan(
                LlvmTy::Integer { width: 32 },
                first_operands(operands@, 2),
                "{ .reg .b128 %resp; mov.b128 %resp, {$1, $2}; .reg .pred %p; clusterlaunchcontrol.query_cancel.is_canceled.pred.b128 %p, %resp; selp.b32 $0, 1, 0, %p; }"@,
                "=r,l,l"@,
                true,
                Outcome::ReplaceWith(0),
            ),
        ),
{
    if operands.len() < 2 {
        return Err(
            LowerError {
                message: String::from_str(
                    "clc_query_is_canceled requires 2 operands (resp_lo, resp_hi)",
                ),
            },
        );
    }
    Ok(
        inline_asm(
            LlvmType::Integer { width: 32 },
            take_operands(operands, 2),
            "{ .reg .b128 %resp; mov.b128 %resp, {$1, $2}; .reg .pred %p; clusterlaunchcontrol.query_cancel.is_canceled.pred.b128 %p, %resp; selp.b32 $0, 1, 0, %p; }",
            "=r,l,l",
            true,
            Outcome::ReplaceWith(0),
        ),
    )
}

/// Lowers the query for one coordinate, `x`, `y` or `z`, of the first CTA of a
/// canceled cluster.
pub fn convert_query_get_first_ctaid(operands: &Vec<Value>, dim: &str) -> (r: Result<
    Lowering,
    LowerError,
>)
    ensures
        lowers_with_at_least(
            r,
            operands@,
            2,
            "clc_query_get_first_ctaid_"@ + dim@ + " requires 2 operands (resp_lo, resp_hi)"@,
            asm_plan(
                LlvmTy::Integer { width: 32 },
                first_operands(operands@, 2),
                "{ .reg .b128 %resp; mov.b128 %resp, {$1, $2}; clusterlaunchcontrol.query_cancel.get_first_ctaid::"@
                    + dim@ + ".b32.b128 $0, %resp; }"@,
                "=r,l,l"@,
                true,
                Outcome::ReplaceWith(0),
            ),
        ),
{
    if operands.len() < 2 {
        return Err(
            LowerError {
                message: concat3(
                    "clc_query_get_first_ctaid_",
                    dim,
                    " requires 2 operands (resp_lo, resp_hi)",
                ),
            },
        );
    }
    let asm_template = concat3(
        "{ .reg .b128 %resp; mov.b128 %resp, {$1, $2}; clusterlaunchcontrol.query_cancel.get_first_ctaid::",
        dim,
        ".b32.b128 $0, %resp; }",
    );
    Ok(
        inline_asm(
            LlvmType::Integer { width: 32 },
            take_operands(operands, 2),
            &asm_template,
            "=r,l,l",
            true,
            Outcome::ReplaceWith(0),
        ),
    )
}

} // verus!
