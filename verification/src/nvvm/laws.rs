//! What the operations are verified to be.

use vstd::prelude::*;

use crate::ir::mir::{mir_ty, MirTy, Signedness};
use crate::nvvm::debug::{
    BreakpointOp, Operation, PmEventOp, ReadPtxSregClock64Op, ReadPtxSregClockOp,
    ReadPtxSregGlobaltimerOp, TrapOp, Value, VerifyError, VprintfOp,
};
use crate::text::decimal;

verus! {

/// Whether the verdict on the counts is right: it is good if and only if there
/// are this many operands and results; otherwise it tells the first count that
/// is wrong, with what was expected and what was found.
pub open spec fn judges_counts(
    op: Operation,
    operands: nat,
    results: nat,
    r: Result<(), VerifyError>,
) -> bool {
    &&& r is Ok <==> op.operands@.len() == operands && op.result_types@.len() == results
    &&& op.operands@.len() != operands ==> r is Err && r->Err_0 is OperandCount
        && r->Err_0->OperandCount_expected == operands && r->Err_0->OperandCount_found
        == op.operands@.len()
    &&& op.operands@.len() == operands && op.result_types@.len() != results ==> r is Err
        && r->Err_0 is ResultCount && r->Err_0->ResultCount_expected == results
        && r->Err_0->ResultCount_found == op.result_types@.len()
}

/// Whether the verdict on the result is right: it is good if and only if the
/// result is an integer of this width, of any signedness; otherwise it names
/// the operation.
pub open spec fn judges_result(
    op: Operation,
    name: Seq<char>,
    width: u32,
    r: Result<(), VerifyError>,
) -> bool {
    let ty = mir_ty(op.result_types@[0]);
    &&& r is Ok <==> ty is Integer && ty->width == width
    &&& ty !is Integer ==> r is Err && r->Err_0 is ResultNotInteger
        && r->Err_0->ResultNotInteger_op@ == name
    &&& ty is Integer && ty->width != width ==> r is Err && r->Err_0 is ResultWidth
        && r->Err_0->ResultWidth_op@ == name && r->Err_0->width == width
}

/// `ReadPtxSregClockOp` has no operands and one result, an integer of 32 bits.
pub proof fn law_read_ptx_sreg_clock_op(
    op: Operation,
    wrapped: ReadPtxSregClockOp,
    counts: Result<(), VerifyError>,
    result: Result<(), VerifyError>,
)
    requires
        call_ensures(ReadPtxSregClockOp::new, (op,), wrapped),
        call_ensures(ReadPtxSregClockOp::verify_interfaces, (&wrapped,), counts),
        op.result_types@.len() >= 1 ==> call_ensures(ReadPtxSregClockOp::verify, (&wrapped,), result),
    ensures
        judges_counts(op, 0, 1, counts),
        op.result_types@.len() >= 1 ==> judges_result(op, "nvvm.read_ptx_sreg_clock"@, 32, result),
{
}

/// `ReadPtxSregClock64Op` has no operands and one result, an integer of 64 bits.
pub proof fn law_read_ptx_sreg_clock64_op(
    op: Operation,
    wrapped: ReadPtxSregClock64Op,
    counts: Result<(), VerifyError>,
    result: Result<(), VerifyError>,
)
    requires
        call_ensures(ReadPtxSregClock64Op::new, (op,), wrapped),
        call_ensures(ReadPtxSregClock64Op::verify_interfaces, (&wrapped,), counts),
        op.result_types@.len() >= 1 ==> call_ensures(ReadPtxSregClock64Op::verify, (&wrapped,), result),
    ensures
        judges_counts(op, 0, 1, counts),
        op.result_types@.len() >= 1 ==> judges_result(op, "nvvm.read_ptx_sreg_clock64"@, 64, result),
{
}

/// `ReadPtxSregGlobaltimerOp` has no operands and one result, an integer of 64 bits.
pub proof fn law_read_ptx_sreg_globaltimer_op(
    op: Operation,
    wrapped: ReadPtxSregGlobaltimerOp,
    counts: Result<(), VerifyError>,
    result: Result<(), VerifyError>,
)
    requires
        call_ensures(ReadPtxSregGlobaltimerOp::new, (op,), wrapped),
        call_ensures(ReadPtxSregGlobaltimerOp::verify_interfaces, (&wrapped,), counts),
        op.result_types@.len() >= 1 ==> call_ensures(ReadPtxSregGlobaltimerOp::verify, (&wrapped,), result),
    ensures
        judges_counts(op, 0, 1, counts),
        op.result_types@.len() >= 1 ==> judges_result(op, "nvvm.read_ptx_sreg_globaltimer"@, 64, result),
{
}

/// `VprintfOp` has two operands and one result, an integer of 32 bits.
pub proof fn law_vprintf_op(
    op: Operation,
    wrapped: VprintfOp,
    counts: Result<(), VerifyError>,
    result: Result<(), VerifyError>,
)
    requires
        call_ensures(VprintfOp::new, (op,), wrapped),
        call_ensures(VprintfOp::verify_interfaces, (&wrapped,), counts),
        op.result_types@.len() >= 1 ==> call_ensures(VprintfOp::verify, (&wrapped,), result),
    ensures
        judges_counts(op, 2, 1, counts),
        op.result_types@.len() >= 1 ==> judges_result(op, "nvvm.vprintf"@, 32, result),
{
}

/// `TrapOp` has no operands and no results.
pub proof fn law_trap_op(
    op: Operation,
    wrapped: TrapOp,
    counts: Result<(), VerifyError>,
)
    requires
        call_ensures(TrapOp::new, (op,), wrapped),
        call_ensures(TrapOp::verify_interfaces, (&wrapped,), counts),
    ensures
        judges_counts(op, 0, 0, counts),
{
}

/// `BreakpointOp` has no operands and no results.
pub proof fn law_breakpoint_op(
    op: Operation,
    wrapped: BreakpointOp,
    counts: Result<(), VerifyError>,
)
    requires
        call_ensures(BreakpointOp::new, (op,), wrapped),
        call_ensures(BreakpointOp::verify_interfaces, (&wrapped,), counts),
    ensures
        judges_counts(op, 0, 0, counts),
{
}

/// `PmEventOp` has no operands and no results.
pub proof fn law_pm_event_op(
    op: Operation,
    wrapped: PmEventOp,
    counts: Result<(), VerifyError>,
)
    requires
        call_ensures(PmEventOp::new, (op,), wrapped),
        call_ensures(PmEventOp::verify_interfaces, (&wrapped,), counts),
    ensures
        judges_counts(op, 0, 0, counts),
{
}

/// The number of a profiler event reads back, and the operation is valid.
pub proof fn law_event_number_reads_back(
    event_id: u32,
    op: Operation,
    wrapped: PmEventOp,
    counts: Result<(), VerifyError>,
    read: Option<u32>,
)
    requires
        call_ensures(PmEventOp::new_with_event_id, (event_id,), op),
        call_ensures(PmEventOp::new, (op,), wrapped),
        call_ensures(PmEventOp::verify_interfaces, (&wrapped,), counts),
        call_ensures(PmEventOp::get_event_id, (&wrapped,), read),
    ensures
        read == Some(event_id),
        counts is Ok,
{
}

/// An event carries a number if and only if its attribute is there; a number
/// of 32 bits is read as it is.
pub proof fn law_event_number_is_an_attribute(event: PmEventOp, read: Option<u32>)
    requires
        call_ensures(PmEventOp::get_event_id, (&event,), read),
    ensures
        read is Some <==> event.op.attributes@.contains_key("event_id"@),
        read is Some && event.op.attributes@["event_id"@] <= u32::MAX ==> read->0
            == event.op.attributes@["event_id"@],
{
}

/// A printing operation has the format and the arguments as its operands, in
/// that order, and is valid.
pub proof fn law_printing_is_built_valid(
    format_ptr: Value,
    args_ptr: Value,
    op: Operation,
    wrapped: VprintfOp,
    counts: Result<(), VerifyError>,
    result: Result<(), VerifyError>,
)
    requires
        call_ensures(VprintfOp::build, (format_ptr, args_ptr), op),
        call_ensures(VprintfOp::new, (op,), wrapped),
        call_ensures(VprintfOp::verify_interfaces, (&wrapped,), counts),
        call_ensures(VprintfOp::verify, (&wrapped,), result),
    ensures
        op.operands@.len() == 2,
        op.operands@[0] == format_ptr,
        op.operands@[1] == args_ptr,
        counts is Ok && result is Ok,
        mir_ty(op.result_types@[0]) == (MirTy::Integer {
            width: 32,
            signedness: Signedness::Signed,
        }),
{
}

/// The text of a verdict tells what was expected and what was found.
pub proof fn law_verdicts_tell_the_counts(error: VerifyError, text: String)
    requires
        call_ensures(VerifyError::message, (&error,), text),
    ensures
        error matches VerifyError::OperandCount { expected, found } ==> text@ == "Expected "@
            + decimal(expected as nat) + " operand(s), but found "@ + decimal(found as nat),
        error matches VerifyError::ResultCount { expected, found } ==> text@ == "Expected "@
            + decimal(expected as nat) + " result(s), but found "@ + decimal(found as nat)
            + " results"@,
        error matches VerifyError::ResultNotInteger { op } ==> text@ == op@
            + " result must be integer"@,
        error matches VerifyError::ResultWidth { op, width } ==> text@ == op@ + " result must be "@
            + decimal(width as nat) + "-bit integer"@,
{
}

} // verus!
