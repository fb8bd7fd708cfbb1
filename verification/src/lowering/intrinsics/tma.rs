//! The tensor memory accelerator: bulk copies of tensor tiles between global
//! and shared memory.

use vstd::prelude::*;

use crate::ir::identifier::{continues_identifier, identifier, is_identifier};
use crate::ir::llvm::{llvm_tys, LlvmTy, LlvmType};
use crate::lowering::intrinsics::rewrite::{
    asm_plan, emitted, func_ty_of, inline_asm, Arg, Declaration, Emitted, FuncTy,
    LowerError, LoweredOp, Lowering, Outcome, Plan, Value,
};
use crate::lowering::types::LlvmFuncType;
use crate::text::{decimal, digit_char, push_decimal};

verus! {

/// Lowers the commit of the pending bulk copies as one group.
pub fn convert_commit_group() -> (lowering: Lowering)
    ensures
        lowering@ == asm_plan(
            LlvmTy::Void,
            Seq::empty(),
            "cp.async.bulk.commit_group;"@,
            "~{memory}"@,
            true,
            Outcome::Keep,
        ),
{
    inline_asm(
        LlvmType::Void,
        Vec::new(),
        "cp.async.bulk.commit_group;",
        "~{memory}",
        true,
        Outcome::Keep,
    )
}

/// The statement that waits until at most `n` groups are pending; with
/// `is_read`, until they have been read.
pub open spec fn wait_statement(n: Arg, is_read: bool) -> Emitted {
    Emitted::InlineAsm {
        result_ty: LlvmTy::Void,
        args: seq![n],
        template: if is_read {
            "cp.async.bulk.wait_group.read $0;"@
        } else {
            "cp.async.bulk.wait_group $0;"@
        },
        constraints: "n,~{memory}"@,
        convergent: true,
    }
}

/// Lowers the wait for groups of bulk copies. Without an operand it waits for
/// all of them.
pub fn convert_wait_group(operands: &Vec<Value>, is_read: bool) -> (lowering: Lowering)
    ensures
        lowering@ == (Plan {
            declare: None,
            ops: if operands@.len() > 0 {
                seq![wait_statement(Arg::Existing(operands@[0]), is_read)]
            } else {
                seq![Emitted::ConstI32(0), wait_statement(Arg::Result(0), is_read)]
            },
            outcome: Outcome::Erase,
        }),
{
    let mut ops: Vec<LoweredOp> = Vec::new();
    let n = if operands.len() > 0 {
        Arg::Existing(operands[0])
    } else {
        ops.push(LoweredOp::ConstI32(0));
        Arg::Result(0)
    };
    let args: Vec<Arg> = vec![n];
    assert(args@ =~= seq![n]);
    let template = if is_read {
        "cp.async.bulk.wait_group.read $0;"
    } else {
        "cp.async.bulk.wait_group $0;"
    };
    let wait = LoweredOp::InlineAsm {
        result_ty: LlvmType::Void,
        args,
        template: String::from_str(template),
        constraints: String::from_str("n,~{memory}"),
        convergent: true,
    };
    assert(wait@ == wait_statement(n, is_read));
    ops.push(wait);
    assert(emitted(ops@) =~= if operands@.len() > 0 {
        seq![wait@]
    } else {
        seq![Emitted::ConstI32(0), wait@]
    });
    Lowering { declare: None, ops, outcome: Outcome::Erase }
}

// ---------------------------------------------------------------------------
// Names
// ---------------------------------------------------------------------------

/// Every character of a decimal numeral may stand in an identifier.
proof fn lemma_decimal_in_identifier(n: nat)
    ensures
        decimal(n).len() > 0,
        forall|i: int| 0 <= i < decimal(n).len() ==> continues_identifier(#[trigger] decimal(n)[i]),
    decreases n,
{
    if n >= 10 {
        lemma_decimal_in_identifier(n / 10);
        assert(continues_identifier(digit_char(n % 10)));
    } else {
        assert(continues_identifier(digit_char(n)));
    }
}

/// An identifier, a decimal numeral and more such characters make an
/// identifier.
proof fn lemma_numbered_identifier(prefix: Seq<char>, n: nat, suffix: Seq<char>)
    requires
        is_identifier(prefix),
        forall|i: int| 0 <= i < suffix.len() ==> continues_identifier(#[trigger] suffix[i]),
    ensures
        is_identifier(prefix + decimal(n) + suffix),
{
    lemma_decimal_in_identifier(n);
    let name = prefix + decimal(n) + suffix;
    assert(name[0] == prefix[0]);
    assert forall|i: int| 0 < i < name.len() implies continues_identifier(#[trigger] name[i]) by {
        if i < prefix.len() {
            assert(name[i] == prefix[i]);
        } else if i < prefix.len() + decimal(n).len() {
            assert(name[i] == decimal(n)[i - prefix.len()]);
        } else {
            assert(name[i] == suffix[i - prefix.len() - decimal(n).len()]);
        }
    }
}

/// The name of the copy from global to shared memory in `dims` dimensions.
pub open spec fn g2s_name(dims: nat) -> Seq<char> {
    "llvm_nvvm_cp_async_bulk_tensor_g2s_tile_"@ + decimal(dims) + "d"@
}

/// The name of the copy from shared to global memory in `dims` dimensions.
pub open spec fn s2g_name(dims: nat) -> Seq<char> {
    "llvm_nvvm_cp_async_bulk_tensor_s2g_tile_"@ + decimal(dims) + "d"@
}

/// The name of an intrinsic for `dims` dimensions.
fn tile_intrinsic(prefix: &str, dims: usize) -> (name: String)
    requires
        is_identifier(prefix@),
    ensures
        name@ == prefix@ + decimal(dims as nat) + "d"@,
        is_identifier(name@),
{
    let mut name = String::from_str(prefix);
    push_decimal(&mut name, dims as u64);
    name.append("d");
    proof {
        reveal_strlit("d");
        lemma_numbered_identifier(prefix@, dims as nat, "d"@);
    }
    identifier(&name)
}

/// The message for a wrong number of operands.
pub open spec fn operand_count_message(
    what: Seq<char>,
    dims: nat,
    expected: nat,
    got: nat,
) -> Seq<char> {
    what + decimal(dims) + "D requires "@ + decimal(expected) + " operands, got "@ + decimal(got)
}

fn operand_count_error(what: &str, dims: usize, expected: usize, got: usize) -> (e: LowerError)
    ensures
        e.message@ == operand_count_message(
            what@,
            dims as nat,
            expected as nat,
            got as nat,
        ),
{
    let mut message = String::from_str(what);
    push_decimal(&mut message, dims as u64);
    message.append("D requires ");
    push_decimal(&mut message, expected as u64);
    message.append(" operands, got ");
    push_decimal(&mut message, got as u64);
    LowerError { message }
}

// ---------------------------------------------------------------------------
// Copies
// ---------------------------------------------------------------------------

/// `n` times `i32`.
pub open spec fn coordinates(n: nat) -> Seq<LlvmTy> {
    Seq::new(n, |i: int| LlvmTy::Integer { width: 32 })
}

/// The operands from `from` on, as arguments.
pub open spec fn operands_from(operands: Seq<Value>, from: int) -> Seq<Arg> {
    Seq::new((operands.len() - from) as nat, |i: int| Arg::Existing(operands[from + i]))
}

/// The type of the copy from global to shared memory: destination, barrier,
/// tensor map, coordinates, CTA mask, cache hint, whether to use each, and the
/// CTA group.
pub open spec fn g2s_ty(dims: nat) -> FuncTy {
    FuncTy {
        result: LlvmTy::Void,
        inputs: seq![
            LlvmTy::Pointer { addrspace: 7 },
            LlvmTy::Pointer { addrspace: 3 },
            LlvmTy::Pointer { addrspace: 0 },
        ] + coordinates(dims) + seq![
            LlvmTy::Integer { width: 16 },
            LlvmTy::Integer { width: 64 },
            LlvmTy::Integer { width: 1 },
            LlvmTy::Integer { width: 1 },
            LlvmTy::Integer { width: 32 },
        ],
        is_var_arg: false,
    }
}

/// The copy from global to shared memory.
pub open spec fn g2s_plan(
    operands: Seq<Value>,
    dims: nat,
    multicast: bool,
    cta_group: i32,
) -> Plan {
    Plan {
        declare: Some((g2s_name(dims), g2s_ty(dims))),
        ops: seq![
            Emitted::PointerInSpace { value: Arg::Existing(operands[0]), addrspace: 7 },
            Emitted::PointerInSpace { value: Arg::Existing(operands[1]), addrspace: 3 },
            Emitted::ConstI1(multicast),
            Emitted::ConstI1(false),
            Emitted::ConstI32(cta_group),
            Emitted::Call {
                callee: g2s_name(dims),
                func_ty: g2s_ty(dims),
                args: seq![Arg::Result(0), Arg::Result(1)] + operands_from(operands, 2) + seq![
                    Arg::Result(2),
                    Arg::Result(3),
                    Arg::Result(4),
                ],
            },
        ],
        outcome: Outcome::Erase,
    }
}

/// The type of the copy from shared to global memory: source, tensor map and
/// coordinates.
pub open spec fn s2g_ty(dims: nat) -> FuncTy {
    FuncTy {
        result: LlvmTy::Void,
        inputs: seq![
            LlvmTy::Pointer { addrspace: 3 },
            LlvmTy::Pointer { addrspace: 0 },
        ] + coordinates(dims),
        is_var_arg: false,
    }
}

/// The copy from shared to global memory.
pub open spec fn s2g_plan(operands: Seq<Value>, dims: nat) -> Plan {
    Plan {
        declare: Some((s2g_name(dims), s2g_ty(dims))),
        ops: seq![
            Emitted::PointerInSpace { value: Arg::Existing(operands[0]), addrspace: 3 },
            Emitted::Call {
                callee: s2g_name(dims),
                func_ty: s2g_ty(dims),
                args: seq![Arg::Result(0)] + operands_from(operands, 1),
            },
        ],
        outcome: Outcome::Erase,
    }
}

/// Appends `n` times `i32`.
fn push_coordinates(types: &mut Vec<LlvmType>, n: usize)
    ensures
        llvm_tys(final(types)@) == llvm_tys(old(types)@) + coordinates(n as nat),
{
    let ghost start = llvm_tys(types@);
    let mut i: usize = 0;
    assert(start + coordinates(0) =~= start);
    while i < n
        invariant
            i <= n,
            llvm_tys(types@) == start + coordinates(i as nat),
        decreases n - i,
    {
        let ghost before = types@;
        let ty = LlvmType::Integer { width: 32 };
        types.push(ty);
        assert(llvm_tys(types@) =~= llvm_tys(before).push(ty@));
        i = i + 1;
        assert(llvm_tys(types@) =~= start + coordinates(i as nat));
    }
}

/// Appends the operands from `from` on.
fn push_operands_from(args: &mut Vec<Arg>, operands: &Vec<Value>, from: usize)
    requires
        from <= operands@.len(),
    ensures
        final(args)@ == old(args)@ + operands_from(operands@, from as int),
{
    let ghost start = args@;
    let mut i: usize = from;
    while i < operands.len()
        invariant
            from <= i <= operands@.len(),
            args@ == start + operands_from(operands@, from as int).take(i - from),
        decreases operands@.len() - i,
    {
        args.push(Arg::Existing(operands[i]));
        i = i + 1;
        assert(args@ =~= start + operands_from(operands@, from as int).take(i - from));
    }
    assert(args@ =~= start + operands_from(operands@, from as int));
}

/// The type of the copy from global to shared memory.
fn g2s_func_ty(dims: usize) -> (ty: LlvmFuncType)
    ensures
        func_ty_of(ty) == g2s_ty(dims as nat),
{
    let mut inputs: Vec<LlvmType> = vec![
        LlvmType::Pointer { addrspace: 7 },
        LlvmType::Pointer { addrspace: 3 },
        LlvmType::Pointer { addrspace: 0 },
    ];
    let ghost start = llvm_tys(inputs@);
    assert(start =~= seq![
        LlvmTy::Pointer { addrspace: 7 },
        LlvmTy::Pointer { addrspace: 3 },
        LlvmTy::Pointer { addrspace: 0 },
    ]);
    push_coordinates(&mut inputs, dims);
    let ghost before = inputs@;
    inputs.push(LlvmType::Integer { width: 16 });
    inputs.push(LlvmType::Integer { width: 64 });
    inputs.push(LlvmType::Integer { width: 1 });
    inputs.push(LlvmType::Integer { width: 1 });
    inputs.push(LlvmType::Integer { width: 32 });
    assert(llvm_tys(inputs@) =~= llvm_tys(before) + seq![
        LlvmTy::Integer { width: 16 },
        LlvmTy::Integer { width: 64 },
        LlvmTy::Integer { width: 1 },
        LlvmTy::Integer { width: 1 },
        LlvmTy::Integer { width: 32 },
    ]);
    LlvmFuncType { result: LlvmType::Void, inputs, is_var_arg: false }
}

fn convert_g2s_impl(operands: &Vec<Value>, dims: usize, multicast: bool, cta_group: i32) -> (r:
    Result<Lowering, LowerError>)
    requires
        dims + 5 <= usize::MAX,
    ensures
        match r {
            Ok(lowering) => operands@.len() == dims + 5 && lowering@ == g2s_plan(
                operands@,
                dims as nat,
                multicast,
                cta_group,
            ),
            Err(e) => operands@.len() != dims + 5 && e.message@ == operand_count_message(
                "TMA G2S "@,
                dims as nat,
                (dims + 5) as nat,
                operands@.len(),
            ),
        },
{
    let expected_operands: usize = 3 + dims + 2;
    if operands.len() != expected_operands {
        return Err(operand_count_error("TMA G2S ", dims, expected_operands, operands.len()));
    }
    let func_ty = g2s_func_ty(dims);
    proof {
        reveal_strlit("llvm_nvvm_cp_async_bulk_tensor_g2s_tile_");
    }
    let intrinsic_name = tile_intrinsic("llvm_nvvm_cp_async_bulk_tensor_g2s_tile_", dims);

    let mut call_args: Vec<Arg> = vec![Arg::Result(0), Arg::Result(1)];
    assert(call_args@ =~= seq![Arg::Result(0), Arg::Result(1)]);
    push_operands_from(&mut call_args, operands, 2);
    let ghost before = call_args@;
    call_args.push(Arg::Result(2));
    call_args.push(Arg::Result(3));
    call_args.push(Arg::Result(4));
    assert(call_args@ =~= before + seq![Arg::Result(2), Arg::Result(3), Arg::Result(4)]);

    let declare = Declaration { name: intrinsic_name.clone(), func_ty: func_ty.clone() };
    let call = LoweredOp::Call { callee: intrinsic_name, func_ty, args: call_args };
    let ops: Vec<LoweredOp> = vec![
        LoweredOp::PointerInSpace { value: Arg::Existing(operands[0]), addrspace: 7 },
        LoweredOp::PointerInSpace { value: Arg::Existing(operands[1]), addrspace: 3 },
        LoweredOp::ConstI1(multicast),
        LoweredOp::ConstI1(false),
        LoweredOp::ConstI32(cta_group),
        call,
    ];
    assert(emitted(ops@) =~= g2s_plan(operands@, dims as nat, multicast, cta_group).ops);
    Ok(Lowering { declare: Some(declare), ops, outcome: Outcome::Erase })
}

/// Lowers a copy of a tile of `dims` dimensions from global to shared memory.
pub fn convert_g2s(operands: &Vec<Value>, dims: usize, multicast: bool) -> (r: Result<
    Lowering,
    LowerError,
>)
    requires
        dims + 5 <= usize::MAX,
    ensures
        match r {
            Ok(lowering) => operands@.len() == dims + 5 && lowering@ == g2s_plan(
                operands@,
                dims as nat,
                multicast,
                0,
            ),
            Err(e) => operands@.len() != dims + 5 && e.message@ == operand_count_message(
                "TMA G2S "@,
                dims as nat,
                (dims + 5) as nat,
                operands@.len(),
            ),
        },
{
    convert_g2s_impl(operands, dims, multicast, 0)
}

/// Lowers a two-dimensional multicast copy from global to shared memory for a
/// CTA pair.
pub fn convert_g2s_multicast_cg2(operands: &Vec<Value>) -> (r: Result<Lowering, LowerError>)
    ensures
        match r {
            Ok(lowering) => operands@.len() == 7 && lowering@ == g2s_plan(operands@, 2, true, 2),
            Err(e) => operands@.len() != 7 && e.message@ == operand_count_message(
                "TMA G2S "@,
                2,
                7,
                operands@.len(),
            ),
        },
{
    convert_g2s_impl(operands, 2, true, 2)
}

/// Lowers a copy of a tile of `dims` dimensions from shared to global memory.
pub fn convert_s2g(operands: &Vec<Value>, dims: usize) -> (r: Result<Lowering, LowerError>)
    requires
        dims + 2 <= usize::MAX,
    ensures
        match r {
            Ok(lowering) => operands@.len() == dims + 2 && lowering@ == s2g_plan(
                operands@,
                dims as nat,
            ),
            Err(e) => operands@.len() != dims + 2 && e.message@ == operand_count_message(
                "TMA S2G "@,
                dims as nat,
                (dims + 2) as nat,
                operands@.len(),
            ),
        },
{
    let expected_operands: usize = 2 + dims;
    if operands.len() != expected_operands {
        return Err(operand_count_error("TMA S2G ", dims, expected_operands, operands.len()));
    }
    let mut inputs: Vec<LlvmType> = vec![
        LlvmType::Pointer { addrspace: 3 },
        LlvmType::Pointer { addrspace: 0 },
    ];
    assert(llvm_tys(inputs@) =~= seq![
        LlvmTy::Pointer { addrspace: 3 },
        LlvmTy::Pointer { addrspace: 0 },
    ]);
    push_coordinates(&mut inputs, dims);
    let func_ty = LlvmFuncType { result: LlvmType::Void, inputs, is_var_arg: false };
    proof {
        reveal_strlit("llvm_nvvm_cp_async_bulk_tensor_s2g_tile_");
    }
    let intrinsic_name = tile_intrinsic("llvm_nvvm_cp_async_bulk_tensor_s2g_tile_", dims);

    let mut call_args: Vec<Arg> = vec![Arg::Result(0)];
    assert(call_args@ =~= seq![Arg::Result(0)]);
    push_operands_from(&mut call_args, operands, 1);

    let declare = Declaration { name: intrinsic_name.clone(), func_ty: func_ty.clone() };
    let call = LoweredOp::Call { callee: intrinsic_name, func_ty, args: call_args };
    let ops: Vec<LoweredOp> = vec![
        LoweredOp::PointerInSpace { value: Arg::Existing(operands[0]), addrspace: 3 },
        call,
    ];
    assert(emitted(ops@) =~= s2g_plan(operands@, dims as nat).ops);
    Ok(Lowering { declare: Some(declare), ops, outcome: Outcome::Erase })
}

/// A bulk copy passes as many arguments as its intrinsic takes, and its
/// intrinsic has a name that the IR accepts.
pub proof fn law_copies_match_their_intrinsics(
    operands: Seq<Value>,
    dims: nat,
    multicast: bool,
    cta_group: i32,
)
    ensures
        operands.len() == dims + 5 ==> g2s_plan(operands, dims, multicast, cta_group).ops[5]->Call_args.len()
            == g2s_ty(dims).inputs.len(),
        operands.len() == dims + 2 ==> s2g_plan(operands, dims).ops[1]->Call_args.len() == s2g_ty(
            dims,
        ).inputs.len(),
        is_identifier(g2s_name(dims)),
        is_identifier(s2g_name(dims)),
{
    reveal_strlit("llvm_nvvm_cp_async_bulk_tensor_g2s_tile_");
    reveal_strlit("llvm_nvvm_cp_async_bulk_tensor_s2g_tile_");
    reveal_strlit("d");
    lemma_numbered_identifier("llvm_nvvm_cp_async_bulk_tensor_g2s_tile_"@, dims, "d"@);
    lemma_numbered_identifier("llvm_nvvm_cp_async_bulk_tensor_s2g_tile_"@, dims, "d"@);
}

} // verus!
