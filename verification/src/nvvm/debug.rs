//! Timing, aborting, profiling and printing operations.
//!
//! | Operation                  | PTX            |
//! |----------------------------|----------------|
//! | [`ReadPtxSregClockOp`]       | `%clock`       |
//! | [`ReadPtxSregClock64Op`]     | `%clock64`     |
//! | [`ReadPtxSregGlobaltimerOp`] | `%globaltimer` |
//! | [`TrapOp`]                   | `trap`         |
//! | [`BreakpointOp`]             | `brkpt`        |
//! | [`PmEventOp`]                | `pmevent`      |
//! | [`VprintfOp`]                | `vprintf`      |

use vstd::arithmetic::power2::{lemma2_to64, pow2};
use vstd::hash_map::StringHashMap;
use vstd::prelude::*;

use crate::ir::identifier::identifier;
use crate::ir::mir::{mir_ty, MirTy, MirType, Signedness};
use crate::text::{decimal, push_decimal};

verus! {

/// A value of the IR.
pub type Value = usize;

/// An operation: its operands, the types of its results, and its integer
/// attributes.
pub struct Operation {
    pub operands: Vec<Value>,
    pub result_types: Vec<MirType>,
    pub attributes: StringHashMap<u64>,
}

/// Why an operation is not valid.
#[derive(Debug, PartialEq, Eq)]
pub enum VerifyError {
    /// Another number of operands than the operation has.
    OperandCount { expected: usize, found: usize },
    /// Another number of results than the operation has.
    ResultCount { expected: usize, found: usize },
    /// The result of the named operation is no integer.
    ResultNotInteger { op: String },
    /// The result of the named operation is no integer of this width.
    ResultWidth { op: String, width: u32 },
}

/// What a [`VerifyError`] says.
#[verifier::ext_equal]
pub enum VerifyErr {
    OperandCount { expected: nat, found: nat },
    ResultCount { expected: nat, found: nat },
    ResultNotInteger { op: Seq<char> },
    ResultWidth { op: Seq<char>, width: u32 },
}

impl View for VerifyError {
    type V = VerifyErr;

    open spec fn view(&self) -> VerifyErr {
        match self {
            VerifyError::OperandCount { expected, found } => VerifyErr::OperandCount {
                expected: *expected as nat,
                found: *found as nat,
            },
            VerifyError::ResultCount { expected, found } => VerifyErr::ResultCount {
                expected: *expected as nat,
                found: *found as nat,
            },
            VerifyError::ResultNotInteger { op } => VerifyErr::ResultNotInteger { op: op@ },
            VerifyError::ResultWidth { op, width } => VerifyErr::ResultWidth {
                op: op@,
                width: *width,
            },
        }
    }
}

/// The message of a verification error.
pub open spec fn verify_error_message(e: VerifyErr) -> Seq<char> {
    match e {
        VerifyErr::OperandCount { expected, found } => "Expected "@ + decimal(expected)
            + " operand(s), but found "@ + decimal(found),
        VerifyErr::ResultCount { expected, found } => "Expected "@ + decimal(expected)
            + " result(s), but found "@ + decimal(found) + " results"@,
        VerifyErr::ResultNotInteger { op } => op + " result must be integer"@,
        VerifyErr::ResultWidth { op, width } => op + " result must be "@ + decimal(width as nat)
            + "-bit integer"@,
    }
}

impl VerifyError {
    /// The message for the user.
    pub fn message(&self) -> (text: String)
        ensures
            text@ == verify_error_message(self@),
    {
        let mut out = String::new();
        match self {
            VerifyError::OperandCount { expected, found } => {
                out.append("Expected ");
                push_decimal(&mut out, *expected as u64);
                out.append(" operand(s), but found ");
                push_decimal(&mut out, *found as u64);
            },
            VerifyError::ResultCount { expected, found } => {
                out.append("Expected ");
                push_decimal(&mut out, *expected as u64);
                out.append(" result(s), but found ");
                push_decimal(&mut out, *found as u64);
                out.append(" results");
            },
            VerifyError::ResultNotInteger { op } => {
                out.append(op);
                out.append(" result must be integer");
            },
            VerifyError::ResultWidth { op, width } => {
                out.append(op);
                out.append(" result must be ");
                push_decimal(&mut out, *width as u64);
                out.append("-bit integer");
            },
        }
        assert(out@ =~= verify_error_message(self@));
        out
    }
}

/// What is wrong with the number of operands or results of an operation.
pub open spec fn count_error(op: Operation, operands: nat, results: nat) -> Option<VerifyErr> {
    if op.operands@.len() != operands {
        Some(VerifyErr::OperandCount { expected: operands, found: op.operands@.len() })
    } else if op.result_types@.len() != results {
        Some(VerifyErr::ResultCount { expected: results, found: op.result_types@.len() })
    } else {
        None
    }
}

/// What is wrong with the first result of the operation `name`, which must be
/// an integer of `width` bits.
pub open spec fn result_error(op: Operation, name: Seq<char>, width: u32) -> Option<VerifyErr> {
    match mir_ty(op.result_types@[0]) {
        MirTy::Integer { width: found, .. } => if found == width {
            None
        } else {
            Some(VerifyErr::ResultWidth { op: name, width })
        },
        _ => Some(VerifyErr::ResultNotInteger { op: name }),
    }
}

/// Whether `r` is `error`, or `Ok` where there is none.
pub open spec fn verifies_as(r: Result<(), VerifyError>, error: Option<VerifyErr>) -> bool {
    match r {
        Ok(()) => error is None,
        Err(e) => error == Some(e@),
    }
}

/// Checks the number of operands and results.
fn verify_counts(op: &Operation, operands: usize, results: usize) -> (r: Result<(), VerifyError>)
    ensures
        verifies_as(r, count_error(*op, operands as nat, results as nat)),
{
    if op.operands.len() != operands {
        return Err(VerifyError::OperandCount { expected: operands, found: op.operands.len() });
    }
    if op.result_types.len() != results {
        return Err(VerifyError::ResultCount { expected: results, found: op.result_types.len() });
    }
    Ok(())
}

/// Checks that the first result is an integer of `width` bits.
fn verify_result(op: &Operation, name: &str, width: u32) -> (r: Result<(), VerifyError>)
    requires
        op.result_types@.len() >= 1,
    ensures
        verifies_as(r, result_error(*op, name@, width)),
{
    match &op.result_types[0] {
        MirType::Integer { width: found, .. } => if *found == width {
            Ok(())
        } else {
            Err(VerifyError::ResultWidth { op: String::from_str(name), width })
        },
        _ => Err(VerifyError::ResultNotInteger { op: String::from_str(name) }),
    }
}

/// Calls `pliron::utils::apint::APInt::from_u64` and then `to_u64` on what it
/// returns: an integer of `width` bits keeps the low `width` bits of the value
/// that it is made from, and reads back as them.
#[verifier::external_body]
fn apint_bits(value: u64, width: usize) -> (bits: u64)
    requires
        0 < width < 64,
    ensures
        bits == (value as nat) % pow2(width as nat),
{
    let width = std::num::NonZeroUsize::new(width).unwrap();
    pliron::utils::apint::APInt::from_u64(value, width).to_u64()
}

/// Reads the 32-bit clock counter.
///
/// It has 0 operands and 1 result, an integer of 32 bits.
pub struct ReadPtxSregClockOp {
    pub op: Operation,
}

impl ReadPtxSregClockOp {
    /// Wraps an operation.
    pub fn new(op: Operation) -> (wrapped: Self)
        ensures
            wrapped.op == op,
    {
        ReadPtxSregClockOp { op }
    }

    /// Checks the number of operands and results.
    pub fn verify_interfaces(&self) -> (r: Result<(), VerifyError>)
        ensures
            verifies_as(r, count_error(self.op, 0, 1)),
    {
        verify_counts(&self.op, 0, 1)
    }

    /// Checks the type of the result.
    pub fn verify(&self) -> (r: Result<(), VerifyError>)
        requires
            self.op.result_types@.len() >= 1,
        ensures
            verifies_as(r, result_error(self.op, "nvvm.read_ptx_sreg_clock"@, 32)),
    {
        verify_result(&self.op, "nvvm.read_ptx_sreg_clock", 32)
    }
}

/// Reads the 64-bit clock counter.
///
/// It has 0 operands and 1 result, an integer of 64 bits.
pub struct ReadPtxSregClock64Op {
    pub op: Operation,
}

impl ReadPtxSregClock64Op {
    /// Wraps an operation.
    pub fn new(op: Operation) -> (wrapped: Self)
        ensures
            wrapped.op == op,
    {
        ReadPtxSregClock64Op { op }
    }

    /// Checks the number of operands and results.
    pub fn verify_interfaces(&self) -> (r: Result<(), VerifyError>)
        ensures
            verifies_as(r, count_error(self.op, 0, 1)),
    {
        verify_counts(&self.op, 0, 1)
    }

    /// Checks the type of the result.
    pub fn verify(&self) -> (r: Result<(), VerifyError>)
        requires
            self.op.result_types@.len() >= 1,
        ensures
            verifies_as(r, result_error(self.op, "nvvm.read_ptx_sreg_clock64"@, 64)),
    {
        verify_result(&self.op, "nvvm.read_ptx_sreg_clock64", 64)
    }
}

/// Reads the 64-bit global timer.
///
/// It has 0 operands and 1 result, an integer of 64 bits.
pub struct ReadPtxSregGlobaltimerOp {
    pub op: Operation,
}

impl ReadPtxSregGlobaltimerOp {
    /// Wraps an operation.
    pub fn new(op: Operation) -> (wrapped: Self)
        ensures
            wrapped.op == op,
    {
        ReadPtxSregGlobaltimerOp { op }
    }

    /// Checks the number of operands and results.
    pub fn verify_interfaces(&self) -> (r: Result<(), VerifyError>)
        ensures
            verifies_as(r, count_error(self.op, 0, 1)),
    {
        verify_counts(&self.op, 0, 1)
    }

    /// Checks the type of the result.
    pub fn verify(&self) -> (r: Result<(), VerifyError>)
        requires
            self.op.result_types@.len() >= 1,
        ensures
            verifies_as(r, result_error(self.op, "nvvm.read_ptx_sreg_globaltimer"@, 64)),
    {
        verify_result(&self.op, "nvvm.read_ptx_sreg_globaltimer", 64)
    }
}

/// Aborts the kernel.
///
/// It has 0 operands and 0 results.
pub struct TrapOp {
    pub op: Operation,
}

impl TrapOp {
    /// Wraps an operation.
    pub fn new(op: Operation) -> (wrapped: Self)
        ensures
            wrapped.op == op,
    {
        TrapOp { op }
    }

    /// Checks the number of operands and results.
    pub fn verify_interfaces(&self) -> (r: Result<(), VerifyError>)
        ensures
            verifies_as(r, count_error(self.op, 0, 0)),
    {
        verify_counts(&self.op, 0, 0)
    }
}

/// Stops in the debugger.
///
/// It has 0 operands and 0 results.
pub struct BreakpointOp {
    pub op: Operation,
}

impl BreakpointOp {
    /// Wraps an operation.
    pub fn new(op: Operation) -> (wrapped: Self)
        ensures
            wrapped.op == op,
    {
        BreakpointOp { op }
    }

    /// Checks the number of operands and results.
    pub fn verify_interfaces(&self) -> (r: Result<(), VerifyError>)
        ensures
            verifies_as(r, count_error(self.op, 0, 0)),
    {
        verify_counts(&self.op, 0, 0)
    }
}

/// Signals a profiler event, whose number is an attribute.
///
/// It has 0 operands and 0 results.
pub struct PmEventOp {
    pub op: Operation,
}

impl PmEventOp {
    /// Wraps an operation.
    pub fn new(op: Operation) -> (wrapped: Self)
        ensures
            wrapped.op == op,
    {
        PmEventOp { op }
    }

    /// Checks the number of operands and results.
    pub fn verify_interfaces(&self) -> (r: Result<(), VerifyError>)
        ensures
            verifies_as(r, count_error(self.op, 0, 0)),
    {
        verify_counts(&self.op, 0, 0)
    }

    /// The event number, where the operation carries one.
    pub open spec fn event_id(&self) -> Option<u32> {
        if self.op.attributes@.contains_key("event_id"@) {
            Some(self.op.attributes@["event_id"@] as u32)
        } else {
            None
        }
    }

    /// Creates an operation with the given event number.
    pub fn new_with_event_id(event_id: u32) -> (op: Operation)
        ensures
            count_error(op, 0, 0) is None,
            op.attributes@ == Map::<Seq<char>, u64>::empty().insert(
                "event_id"@,
                event_id as u64,
            ),
            (PmEventOp { op }).event_id() == Some(event_id),
    {
        proof {
            reveal_strlit("event_id");
            lemma2_to64();
        }
        let mut attributes: StringHashMap<u64> = StringHashMap::new();
        let bits: u64 = apint_bits(event_id as u64, 32);
        assert(bits == event_id) by (nonlinear_arith)
            requires
                bits == (event_id as nat) % 0x1_0000_0000,
        ;
        attributes.insert(identifier("event_id"), bits);
        Operation { operands: Vec::new(), result_types: Vec::new(), attributes }
    }

    /// The event number, where the operation carries one.
    pub fn get_event_id(&self) -> (id: Option<u32>)
        ensures
            id == self.event_id(),
    {
        proof {
            reveal_strlit("event_id");
        }
        let key = identifier("event_id");
        match self.op.attributes.get(&key) {
            Some(bits) => Some(*bits as u32),
            None => None,
        }
    }
}

/// Prints formatted text.
///
/// It has 2 operands and 1 result, an integer of 32 bits.
pub struct VprintfOp {
    pub op: Operation,
}

impl VprintfOp {
    /// Wraps an operation.
    pub fn new(op: Operation) -> (wrapped: Self)
        ensures
            wrapped.op == op,
    {
        VprintfOp { op }
    }

    /// Checks the number of operands and results.
    pub fn verify_interfaces(&self) -> (r: Result<(), VerifyError>)
        ensures
            verifies_as(r, count_error(self.op, 2, 1)),
    {
        verify_counts(&self.op, 2, 1)
    }

    /// Checks the type of the result.
    pub fn verify(&self) -> (r: Result<(), VerifyError>)
        requires
            self.op.result_types@.len() >= 1,
        ensures
            verifies_as(r, result_error(self.op, "nvvm.vprintf"@, 32)),
    {
        verify_result(&self.op, "nvvm.vprintf", 32)
    }

    /// Creates an operation that prints the arguments at `args_ptr` as the
    /// string at `format_ptr` says.
    pub fn build(format_ptr: Value, args_ptr: Value) -> (op: Operation)
        ensures
            op.operands@ == seq![format_ptr, args_ptr],
            op.result_types@.len() == 1,
            mir_ty(op.result_types@[0]) == (MirTy::Integer {
                width: 32,
                signedness: Signedness::Signed,
            }),
            op.attributes@ == Map::<Seq<char>, u64>::empty(),
            count_error(op, 2, 1) is None,
            result_error(op, "nvvm.vprintf"@, 32) is None,
    {
        let operands: Vec<Value> = vec![format_ptr, args_ptr];
        let result_types: Vec<MirType> = vec![
            MirType::Integer { width: 32, signedness: Signedness::Signed },
        ];
        assert(operands@ =~= seq![format_ptr, args_ptr]);
        Operation { operands, result_types, attributes: StringHashMap::new() }
    }
}

} // verus!
