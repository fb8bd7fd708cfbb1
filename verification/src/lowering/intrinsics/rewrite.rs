//! What an intrinsic is lowered to.
//!
//! A lowering is the list of operations that take the place of an intrinsic,
//! with what becomes of the intrinsic itself.

use vstd::prelude::*;

use crate::ir::identifier::{identifier, is_identifier};
use crate::ir::llvm::{llvm_tys, LlvmTy, LlvmType};
use crate::lowering::types::LlvmFuncType;

verus! {

/// A value of the function that is lowered.
pub type Value = usize;

/// An argument of an emitted operation.
#[derive(Debug, Clone, Copy, PartialEq, Eq, Structural)]
pub enum Arg {
    /// A value that was there before.
    Existing(Value),
    /// The result of the emitted operation at this position.
    Result(usize),
}

/// An emitted operation.
#[derive(Debug, PartialEq, Eq)]
pub enum LoweredOp {
    /// Inline PTX.
    InlineAsm {
        result_ty: LlvmType,
        args: Vec<Arg>,
        template: String,
        constraints: String,
        convergent: bool,
    },
    /// A direct call.
    Call { callee: String, func_ty: LlvmFuncType, args: Vec<Arg> },
    /// The pointer `value`, in another address space.
    PointerInSpace { value: Arg, addrspace: u32 },
    /// An `i32` constant.
    ConstI32(i32),
    /// An `i1` constant.
    ConstI1(bool),
    /// One field of a struct value.
    ExtractValue { agg: Arg, index: u32 },
}

/// What becomes of the lowered operation.
#[derive(Debug, Clone, Copy, PartialEq, Eq, Structural)]
pub enum Outcome {
    /// It stays.
    Keep,
    /// It is erased.
    Erase,
    /// The result of the emitted operation at this position takes its place.
    ReplaceWith(usize),
    /// The results of `count` emitted operations from `first` on take the place
    /// of its results.
    ReplaceWithResults { first: usize, count: usize },
}

/// A function that the module must declare.
#[derive(Debug, PartialEq, Eq)]
pub struct Declaration {
    pub name: String,
    pub func_ty: LlvmFuncType,
}

/// What an operation is lowered to.
#[derive(Debug, PartialEq, Eq)]
pub struct Lowering {
    pub declare: Option<Declaration>,
    pub ops: Vec<LoweredOp>,
    pub outcome: Outcome,
}

/// Why an operation cannot be lowered.
#[derive(Debug, PartialEq, Eq)]
pub struct LowerError {
    pub message: String,
}

/// What an [`LlvmFuncType`] says.
#[verifier::ext_equal]
pub struct FuncTy {
    pub result: LlvmTy,
    pub inputs: Seq<LlvmTy>,
    pub is_var_arg: bool,
}

/// What the function type `t` says.
pub open spec fn func_ty_of(t: LlvmFuncType) -> FuncTy {
    FuncTy { result: t.result@, inputs: llvm_tys(t.inputs@), is_var_arg: t.is_var_arg }
}

/// What a [`LoweredOp`] says.
#[verifier::ext_equal]
pub enum Emitted {
    InlineAsm {
        result_ty: LlvmTy,
        args: Seq<Arg>,
        template: Seq<char>,
        constraints: Seq<char>,
        convergent: bool,
    },
    Call { callee: Seq<char>, func_ty: FuncTy, args: Seq<Arg> },
    PointerInSpace { value: Arg, addrspace: u32 },
    ConstI32(i32),
    ConstI1(bool),
    ExtractValue { agg: Arg, index: u32 },
}

impl View for LoweredOp {
    type V = Emitted;

    open spec fn view(&self) -> Emitted {
        match self {
            LoweredOp::InlineAsm { result_ty, args, template, constraints, convergent } => {
                Emitted::InlineAsm {
                    result_ty: result_ty@,
                    args: args@,
                    template: template@,
                    constraints: constraints@,
                    convergent: *convergent,
                }
            },
            LoweredOp::Call { callee, func_ty, args } => Emitted::Call {
                callee: callee@,
                func_ty: func_ty_of(*func_ty),
                args: args@,
            },
            LoweredOp::PointerInSpace { value, addrspace } => Emitted::PointerInSpace {
                value: *value,
                addrspace: *addrspace,
            },
            LoweredOp::ConstI32(n) => Emitted::ConstI32(*n),
            LoweredOp::ConstI1(b) => Emitted::ConstI1(*b),
            LoweredOp::ExtractValue { agg, index } => Emitted::ExtractValue {
                agg: *agg,
                index: *index,
            },
        }
    }
}

/// What a [`Lowering`] says.
#[verifier::ext_equal]
pub struct Plan {
    pub declare: Option<(Seq<char>, FuncTy)>,
    pub ops: Seq<Emitted>,
    pub outcome: Outcome,
}

/// What a list of emitted operations says.
pub open spec fn emitted(ops: Seq<LoweredOp>) -> Seq<Emitted> {
    Seq::new(ops.len(), |i: int| ops[i]@)
}

impl View for Lowering {
    type V = Plan;

    open spec fn view(&self) -> Plan {
        Plan {
            declare: match self.declare {
                Some(d) => Some((d.name@, func_ty_of(d.func_ty))),
                None => None,
            },
            ops: emitted(self.ops@),
            outcome: self.outcome,
        }
    }
}

/// The first `n` operands, as arguments.
pub open spec fn first_operands(operands: Seq<Value>, n: nat) -> Seq<Arg> {
    Seq::new(n, |i: int| Arg::Existing(operands[i]))
}

/// One inline PTX statement.
pub open spec fn asm_plan(
    result_ty: LlvmTy,
    args: Seq<Arg>,
    template: Seq<char>,
    constraints: Seq<char>,
    convergent: bool,
    outcome: Outcome,
) -> Plan {
    Plan {
        declare: None,
        ops: seq![Emitted::InlineAsm { result_ty, args, template, constraints, convergent }],
        outcome,
    }
}

/// A call of the intrinsic `name`, which the module must declare.
pub open spec fn call_plan(
    name: Seq<char>,
    func_ty: FuncTy,
    args: Seq<Arg>,
    outcome: Outcome,
) -> Plan {
    Plan {
        declare: Some((name, func_ty)),
        ops: seq![Emitted::Call { callee: name, func_ty, args }],
        outcome,
    }
}

/// Whether `r` is the lowering `plan` for at least `n` operands, and the error
/// `message` for fewer.
pub open spec fn lowers_with_at_least(
    r: Result<Lowering, LowerError>,
    operands: Seq<Value>,
    n: nat,
    message: Seq<char>,
    plan: Plan,
) -> bool {
    match r {
        Ok(lowering) => operands.len() >= n && lowering@ == plan,
        Err(e) => operands.len() < n && e.message@ == message,
    }
}

/// The first `n` operands, as arguments.
pub fn take_operands(operands: &Vec<Value>, n: usize) -> (args: Vec<Arg>)
    requires
        n <= operands@.len(),
    ensures
        args@ == first_operands(operands@, n as nat),
{
    let mut args: Vec<Arg> = Vec::new();
    let mut i: usize = 0;
    while i < n
        invariant
            i <= n <= operands@.len(),
            args@ == first_operands(operands@, i as nat),
        decreases n - i,
    {
        args.push(Arg::Existing(operands[i]));
        i = i + 1;
        assert(args@ =~= first_operands(operands@, i as nat));
    }
    args
}

/// One inline PTX statement.
pub fn inline_asm(
    result_ty: LlvmType,
    args: Vec<Arg>,
    template: &str,
    constraints: &str,
    convergent: bool,
    outcome: Outcome,
) -> (lowering: Lowering)
    ensures
        lowering@ == asm_plan(
            result_ty@,
            args@,
            template@,
            constraints@,
            convergent,
            outcome,
        ),
{
    let statement = LoweredOp::InlineAsm {
        result_ty,
        args,
        template: String::from_str(template),
        constraints: String::from_str(constraints),
        convergent,
    };
    let ops: Vec<LoweredOp> = vec![statement];
    assert(emitted(ops@) =~= seq![statement@]);
    Lowering { declare: None, ops, outcome }
}

/// One inline PTX statement without a result, convergent, that takes the place
/// of the lowered operation.
pub fn inline_asm_convergent(args: Vec<Arg>, template: &str, constraints: &str) -> (lowering:
    Lowering)
    ensures
        lowering@ == asm_plan(
            LlvmTy::Void,
            args@,
            template@,
            constraints@,
            true,
            Outcome::Erase,
        ),
{
    inline_asm(LlvmType::Void, args, template, constraints, true, Outcome::Erase)
}

/// Inline PTX over the first `n` operands, or the error `message` where there
/// are fewer.
pub fn asm_over_operands(
    operands: &Vec<Value>,
    n: usize,
    message: &str,
    template: &str,
    constraints: &str,
) -> (r: Result<Lowering, LowerError>)
    ensures
        lowers_with_at_least(
            r,
            operands@,
            n as nat,
            message@,
            asm_plan(
                LlvmTy::Void,
                first_operands(operands@, n as nat),
                template@,
                constraints@,
                true,
                Outcome::Erase,
            ),
        ),
{
    if operands.len() < n {
        return Err(LowerError { message: String::from_str(message) });
    }
    Ok(inline_asm_convergent(take_operands(operands, n), template, constraints))
}

impl Clone for LlvmFuncType {
    fn clone(&self) -> (copy: Self)
        ensures
            func_ty_of(copy) == func_ty_of(*self),
    {
        let mut inputs: Vec<LlvmType> = Vec::new();
        let mut i: usize = 0;
        while i < self.inputs.len()
            invariant
                i <= self.inputs@.len(),
                inputs@.len() == i,
                forall|k: int| 0 <= k < i ==> inputs@[k]@ == self.inputs@[k]@,
            decreases self.inputs@.len() - i,
        {
            inputs.push(self.inputs[i].clone());
            i = i + 1;
        }
        assert(llvm_tys(inputs@) =~= llvm_tys(self.inputs@));
        LlvmFuncType { result: self.result.clone(), inputs, is_var_arg: self.is_var_arg }
    }
}

/// A call of the intrinsic `name`, which the module must declare.
pub fn call_intrinsic(name: &str, func_ty: LlvmFuncType, args: Vec<Arg>, outcome: Outcome) -> (lowering:
    Lowering)
    requires
        is_identifier(name@),
    ensures
        lowering@ == call_plan(name@, func_ty_of(func_ty), args@, outcome),
{
    let declared = func_ty.clone();
    let call = LoweredOp::Call { callee: identifier(name), func_ty, args };
    let ops: Vec<LoweredOp> = vec![call];
    assert(emitted(ops@) =~= seq![call@]);
    Lowering {
        declare: Some(Declaration { name: identifier(name), func_ty: declared }),
        ops,
        outcome,
    }
}

/// The type of a function without arguments that returns `result`.
pub open spec fn nullary(result: LlvmTy) -> FuncTy {
    FuncTy { result, inputs: Seq::empty(), is_var_arg: false }
}

/// The type of a function without arguments that returns `result`.
pub fn nullary_type(result: LlvmType) -> (ty: LlvmFuncType)
    ensures
        func_ty_of(ty) == nullary(result@),
{
    let ty = LlvmFuncType { result, inputs: Vec::new(), is_var_arg: false };
    assert(llvm_tys(ty.inputs@) =~= Seq::<LlvmTy>::empty());
    ty
}

} // verus!
