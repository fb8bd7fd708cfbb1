//! What the typed-pointer analysis finds out: what each operation teaches
//! about its operands and results, and what holds once nothing changes.

use vstd::prelude::*;

use crate::export::function::{op_results, GepIndex, LlvmFunction, LlvmOp};
use crate::export::pointer_facts::{
    all_merged, from_llvm, gep_ty, indexed_ty, law_merge_absorbs, law_merge_idempotent,
    law_replace_where_readable, law_replaced_part_reads_back, merged, with_indexed_ty, AuxData,
    Facts, LegacyTy, LegacyType, Value, ValueFacts,
};
use crate::export::state::{ModuleExportState, PointerMode};
use crate::export::typed::{
    all_rounds_change, args_step, blocks_step, cast_fact, cast_step, constant_indices, fact_of,
    law_analysis_ends_at_fixed_point, lemma_args_extend, lemma_blocks_extend, lemma_op_extends,
    lemma_ops_extend, lemma_phis_extend, lemma_preds_extend, load_like, op_step, ops_step,
    phis_step, pointee_of, preds_step, propagate_op_facts, propagate_phi_facts, put, put_known,
    round, rounds, seed_blocks, seed_function_values, seed_ops, seed_values, store_like, unify,
    Predecessor, PredecessorMap, Progress,
};
use crate::ir::llvm::{LlvmTy, LlvmType};

verus! {

/// Whether `fact` is already part of what is known of `value`.
pub open spec fn holds(facts: Facts, value: Value, fact: LegacyTy) -> bool {
    facts.contains_key(value) && merged(facts[value], fact) == facts[value]
}

/// What the facts say of `value`; what its type says where they say nothing.
pub open spec fn said(f: LlvmFunction, facts: Facts, value: Value) -> LegacyTy {
    if facts.contains_key(value) {
        facts[value]
    } else {
        from_llvm(f.type_of(value))
    }
}

/// The address space that a value of pointer type points into, else 0.
pub open spec fn space_of(f: LlvmFunction, value: Value) -> u32 {
    if f.type_of(value) is Pointer {
        f.type_of(value)->addrspace
    } else {
        0
    }
}

/// Whether the pointee of `value` is known, in address space `space`.
pub open spec fn knows_pointee(facts: Facts, value: Value, space: u32) -> bool {
    &&& facts.contains_key(value)
    &&& facts[value] is Pointer
    &&& facts[value]->addrspace == space
    &&& facts[value]->pointee is Some
}

/// Whether `value` is known to point into `space`.
pub open spec fn points_into(facts: Facts, value: Value, space: u32) -> bool {
    facts.contains_key(value) && facts[value] is Pointer && facts[value]->addrspace == space
}

/// Whether nothing is known of the pointee of `value`, and nothing that
/// contradicts a pointer into `space`.
pub open spec fn pointee_open(facts: Facts, value: Value, space: u32) -> bool {
    facts.contains_key(value) ==> facts[value] == (LegacyTy::Pointer {
        pointee: None,
        addrspace: space,
    })
}

/// Whether a fact about `b`, moved into address space `space` if it is one
/// about a pointer and `moved` holds, is part of what is known of `a`.
pub open spec fn holds_moved(facts: Facts, a: Value, b: Value, moved: bool, space: u32) -> bool {
    facts.contains_key(b) ==> holds(
        facts,
        a,
        match facts[b] {
            LegacyTy::Pointer { pointee, addrspace } => LegacyTy::Pointer {
                pointee,
                addrspace: if moved {
                    space
                } else {
                    addrspace
                },
            },
            other => other,
        },
    )
}

/// Whether the facts about the operands and results of an operation agree with
/// what the operation does: a load reads what its pointer points to, a store
/// writes it, a cast keeps the pointee, and so on.
pub open spec fn settled(f: LlvmFunction, facts: Facts, op: LlvmOp) -> bool {
    match op {
        LlvmOp::Load { ptr, res } => loads_through(f, facts, ptr, res),
        LlvmOp::AtomicLoad { ptr, res } => loads_through(f, facts, ptr, res),
        LlvmOp::Store { val, ptr } => points_to(f, facts, ptr, val),
        LlvmOp::AtomicStore { val, ptr } => points_to(f, facts, ptr, val),
        LlvmOp::AtomicRmw { ptr, val, res } => points_to(f, facts, ptr, val) && loads_through(
            f,
            facts,
            ptr,
            res,
        ),
        LlvmOp::AtomicCompareExchange { ptr, expected, .. } => points_to(f, facts, ptr, expected),
        LlvmOp::Alloca { res, elem_ty } => holds(
            facts,
            res,
            LegacyTy::Pointer { pointee: Some(Box::new(from_llvm(elem_ty@))), addrspace: 0 },
        ),
        LlvmOp::GetElementPtr { ptr, res, src_elem_ty, gep_indices } => {
            &&& facts.contains_key(ptr)
            &&& points_into(facts, ptr, space_of(f, ptr)) ==> {
                &&& facts[ptr]->pointee is Some
                &&& holds(
                    facts,
                    res,
                    LegacyTy::Pointer {
                        pointee: Some(
                            Box::new(
                                gep_ty(
                                    *facts[ptr]->pointee->0,
                                    1,
                                    gep_indices@.len(),
                                    constant_indices(gep_indices@),
                                ),
                            ),
                        ),
                        addrspace: space_of(f, ptr),
                    },
                )
            }
        },
        LlvmOp::Bitcast { val, res } => f.type_of(val) is Pointer && f.type_of(res) is Pointer
            ==> holds_moved(facts, res, val, false, 0) && holds_moved(facts, val, res, false, 0),
        LlvmOp::AddrSpaceCast { val, res } => f.type_of(val) is Pointer && f.type_of(res) is Pointer
            ==> holds_moved(facts, res, val, true, space_of(f, res)) && holds_moved(
            facts,
            val,
            res,
            true,
            space_of(f, val),
        ),
        LlvmOp::IntToPtr { res, .. } => holds(
            facts,
            res,
            LegacyTy::Pointer { pointee: None, addrspace: space_of(f, res) },
        ),
        LlvmOp::Select { true_val, false_val, res, .. } => agree(facts, res, true_val) && agree(
            facts,
            res,
            false_val,
        ),
        LlvmOp::ExtractValue { agg, res, indices } => facts.contains_key(agg) && indexed_ty(
            facts[agg],
            indices@,
        ) is Some ==> holds(facts, res, indexed_ty(facts[agg], indices@)->0),
        LlvmOp::InsertValue { agg, val, res, indices } => {
            let whole = with_indexed_ty(said(f, facts, agg), indices@, said(f, facts, val));
            whole is Some ==> holds(facts, res, whole->0)
        },
        LlvmOp::Call { ret_ty, res, .. } => ret_ty@ !is Void ==> holds(
            facts,
            res,
            from_llvm(ret_ty@),
        ),
        _ => true,
    }
}

/// Whether `ptr` is known to point to a value like `val`.
pub open spec fn points_to(f: LlvmFunction, facts: Facts, ptr: Value, val: Value) -> bool {
    holds(
        facts,
        ptr,
        LegacyTy::Pointer {
            pointee: Some(Box::new(said(f, facts, val))),
            addrspace: space_of(f, ptr),
        },
    )
}

/// Whether `ptr` is known to point to a value like `res`, and `res` to be what
/// `ptr` points to.
pub open spec fn loads_through(f: LlvmFunction, facts: Facts, ptr: Value, res: Value) -> bool {
    &&& points_to(f, facts, ptr, res)
    &&& facts[ptr] is Pointer && facts[ptr]->pointee is Some ==> holds(
        facts,
        res,
        *facts[ptr]->pointee->0,
    )
}

/// Whether what is known of either value is known of the other.
pub open spec fn agree(facts: Facts, a: Value, b: Value) -> bool {
    &&& facts.contains_key(a) ==> holds(facts, b, facts[a])
    &&& facts.contains_key(b) ==> holds(facts, a, facts[b])
}

/// What already holds still does when more is merged in.
pub proof fn law_merge_keeps_what_holds(a: LegacyTy, b: LegacyTy, c: LegacyTy)
    requires
        merged(a, b) == a,
    ensures
        merged(merged(a, c), b) == merged(a, c),
    decreases a,
{
    let ac = merged(a, c);
    match (a, b, c) {
        (
            LegacyTy::Pointer { pointee: pa, addrspace: sa },
            LegacyTy::Pointer { pointee: pb, addrspace: sb },
            LegacyTy::Pointer { pointee: pc, addrspace: sc },
        ) => {
            if sa == sb && sa == sc {
                if let (Some(x), Some(y), Some(z)) = (pa, pb, pc) {
                    law_merge_keeps_what_holds(*x, *y, *z);
                }
            }
        },
        (LegacyTy::Struct(fa), LegacyTy::Struct(fb), LegacyTy::Struct(fc)) => {
            if fa.len() == fb.len() && fa.len() == fc.len() {
                let ab = all_merged(fa, fb);
                let ac = all_merged(fa, fc);
                assert(ab == fa);
                assert forall|i: int| 0 <= i < fa.len() implies merged(
                    #[trigger] ac[i],
                    fb[i],
                ) == ac[i] by {
                    assert(ab[i] == fa[i]);
                    assert(ac[i] == merged(fa[i], fc[i]));
                    law_merge_keeps_what_holds(fa[i], fb[i], fc[i]);
                }
                assert(all_merged(ac, fb) =~= ac);
            } else if fa.len() == fc.len() {
                assert(ac == LegacyTy::Struct(all_merged(fa, fc)));
            }
        },
        (
            LegacyTy::Array { elem: ea, .. },
            LegacyTy::Array { elem: eb, .. },
            LegacyTy::Array { elem: ec, .. },
        ) => {
            if merged(*ea, *eb) == *ea {
                law_merge_keeps_what_holds(*ea, *eb, *ec);
            }
        },
        (
            LegacyTy::Vector { elem: ea, .. },
            LegacyTy::Vector { elem: eb, .. },
            LegacyTy::Vector { elem: ec, .. },
        ) => {
            if merged(*ea, *eb) == *ea {
                law_merge_keeps_what_holds(*ea, *eb, *ec);
            }
        },
        (LegacyTy::Struct(fa), _, LegacyTy::Struct(fc)) => {
            assert(ac is Struct);
        },
        _ => {},
    }
}

proof fn lemma_quiet_put(p: Progress, value: Value, fact: LegacyTy)
    requires
        !put(p, value, fact).changed,
    ensures
        put(p, value, fact) == p,
        holds(p.facts, value, fact),
        !p.changed,
{
}

proof fn lemma_put_keeps_flag(p: Progress, value: Value, fact: Option<LegacyTy>)
    ensures
        p.changed ==> put_known(p, value, fact).changed,
        !put_known(p, value, fact).changed ==> put_known(p, value, fact) == p,
        !put_known(p, value, fact).changed && fact is Some ==> holds(p.facts, value, fact->0),
{
}

proof fn lemma_quiet_unify(p: Progress, a: Value, b: Value)
    requires
        !unify(p, a, b).changed,
    ensures
        unify(p, a, b) == p,
        !p.changed,
        agree(p.facts, a, b),
{
    let q = put_known(p, b, fact_of(p, a));
    lemma_put_keeps_flag(p, b, fact_of(p, a));
    lemma_put_keeps_flag(q, a, fact_of(q, b));
}

proof fn lemma_quiet_load(f: LlvmFunction, p: Progress, ptr: Value, res: Value)
    requires
        !load_like(f, p, ptr, res).changed,
    ensures
        load_like(f, p, ptr, res) == p,
        !p.changed,
        loads_through(f, p.facts, ptr, res),
{
    let fact = LegacyTy::Pointer {
        pointee: Some(Box::new(said(f, p.facts, res))),
        addrspace: space_of(f, ptr),
    };
    let q = put(p, ptr, fact);
    lemma_put_keeps_flag(q, res, pointee_of(fact_of(q, ptr)));
    lemma_quiet_put(p, ptr, fact);
}

proof fn lemma_quiet_gep(f: LlvmFunction, p: Progress, op: LlvmOp)
    requires
        op is GetElementPtr,
        !op_step(f, p, op).changed,
    ensures
        settled(f, p.facts, op),
{
    match op {
        LlvmOp::GetElementPtr { ptr, res, src_elem_ty, gep_indices } => {
            let src_elem = match pointee_of(fact_of(p, ptr)) {
                Some(t) => t,
                None => from_llvm(src_elem_ty@),
            };
            let fact = LegacyTy::Pointer {
                pointee: Some(Box::new(src_elem)),
                addrspace: space_of(f, ptr),
            };
            let q = put(p, ptr, fact);
            let end = LegacyTy::Pointer {
                pointee: Some(
                    Box::new(
                        gep_ty(src_elem, 1, gep_indices@.len(), constant_indices(gep_indices@)),
                    ),
                ),
                addrspace: space_of(f, ptr),
            };
            assert(op_step(f, p, op) == put(q, res, end));
            lemma_quiet_put(q, res, end);
            lemma_quiet_put(p, ptr, fact);
        },
        _ => {},
    }
}

proof fn lemma_quiet_cast(
    f: LlvmFunction,
    p: Progress,
    val: Value,
    res: Value,
    moved: bool,
)
    requires
        f.type_of(val) is Pointer,
        f.type_of(res) is Pointer,
        !cast_step(f, p, val, res, moved).changed,
    ensures
        holds_moved(p.facts, res, val, moved, space_of(f, res)),
        holds_moved(p.facts, val, res, moved, space_of(f, val)),
{
    let there = cast_fact(fact_of(p, val), moved, space_of(f, res));
    let q = put_known(p, res, there);
    let back = cast_fact(fact_of(q, res), moved, space_of(f, val));
    lemma_put_keeps_flag(q, val, back);
    lemma_put_keeps_flag(p, res, there);
}

/// An operation that changes no fact is settled.
pub proof fn law_quiet_operation_is_settled(f: LlvmFunction, facts: Facts, op: LlvmOp)
    requires
        !op_step(f, Progress { facts, changed: false }, op).changed,
    ensures
        settled(f, facts, op),
{
    let p = Progress { facts, changed: false };
    match op {
        LlvmOp::Load { ptr, res } => lemma_quiet_load(f, p, ptr, res),
        LlvmOp::AtomicLoad { ptr, res } => lemma_quiet_load(f, p, ptr, res),
        LlvmOp::AtomicRmw { ptr, val, res } => {
            let q = store_like(f, p, ptr, val);
            lemma_quiet_load(f, q, ptr, res);
            assert(q == p);
        },
        LlvmOp::GetElementPtr { .. } => lemma_quiet_gep(f, p, op),
        LlvmOp::Bitcast { val, res } => {
            if f.type_of(val) is Pointer && f.type_of(res) is Pointer {
                lemma_quiet_cast(f, p, val, res, false);
            }
        },
        LlvmOp::AddrSpaceCast { val, res } => {
            if f.type_of(val) is Pointer && f.type_of(res) is Pointer {
                lemma_quiet_cast(f, p, val, res, true);
            }
        },
        LlvmOp::Select { true_val, false_val, res, .. } => {
            lemma_quiet_unify(unify(p, res, true_val), res, false_val);
            lemma_quiet_unify(p, res, true_val);
        },
        _ => {},
    }
}

/// The values that an operation can teach something about.
pub open spec fn taught(op: LlvmOp, value: Value) -> bool {
    match op {
        LlvmOp::Load { ptr, res } => value == ptr || value == res,
        LlvmOp::AtomicLoad { ptr, res } => value == ptr || value == res,
        LlvmOp::AtomicRmw { ptr, res, .. } => value == ptr || value == res,
        LlvmOp::GetElementPtr { ptr, res, .. } => value == ptr || value == res,
        LlvmOp::Store { ptr, .. } => value == ptr,
        LlvmOp::AtomicStore { ptr, .. } => value == ptr,
        LlvmOp::AtomicCompareExchange { ptr, .. } => value == ptr,
        LlvmOp::Bitcast { val, res } => value == val || value == res,
        LlvmOp::AddrSpaceCast { val, res } => value == val || value == res,
        LlvmOp::Select { true_val, false_val, res, .. } => value == true_val || value == false_val
            || value == res,
        LlvmOp::Alloca { res, .. } => value == res,
        LlvmOp::IntToPtr { res, .. } => value == res,
        LlvmOp::ExtractValue { res, .. } => value == res,
        LlvmOp::InsertValue { res, .. } => value == res,
        LlvmOp::Call { res, .. } => value == res,
        _ => false,
    }
}

/// An operation leaves alone what is known of every value that it does not
/// connect: a store says nothing of the stored value, an extraction nothing of
/// the aggregate, a jump nothing at all.
pub proof fn law_operation_leaves_others_alone(
    f: LlvmFunction,
    p: Progress,
    op: LlvmOp,
    value: Value,
)
    requires
        !taught(op, value),
    ensures
        op_step(f, p, op).facts.contains_key(value) == p.facts.contains_key(value),
        p.facts.contains_key(value) ==> op_step(f, p, op).facts[value] == p.facts[value],
{
}

/// A load through a pointer of which nothing was known learns its pointee: it
/// is what the loaded value is, which stays what it was.
pub proof fn law_load_teaches_pointee(
    f: LlvmFunction,
    p: Progress,
    op: LlvmOp,
    ptr: Value,
    res: Value,
)
    requires
        op == (LlvmOp::Load { ptr, res }) || op == (LlvmOp::AtomicLoad { ptr, res }),
        f.type_of(ptr) is Pointer,
        ptr != res,
        pointee_open(p.facts, ptr, f.type_of(ptr)->addrspace),
    ensures
        op_step(f, p, op).facts == p.facts.insert(
            ptr,
            LegacyTy::Pointer {
                pointee: Some(Box::new(said(f, p.facts, res))),
                addrspace: f.type_of(ptr)->addrspace,
            },
        ).insert(res, said(f, p.facts, res)),
{
    law_merge_idempotent(said(f, p.facts, res));
    assert(op_step(f, p, op).facts =~= p.facts.insert(
        ptr,
        LegacyTy::Pointer {
            pointee: Some(Box::new(said(f, p.facts, res))),
            addrspace: f.type_of(ptr)->addrspace,
        },
    ).insert(res, said(f, p.facts, res)));
}

/// A load through a pointer of which the pointee is known teaches the loaded
/// value: of a value of which nothing is known, all that is known of the
/// pointee.
pub proof fn law_load_teaches_result(
    f: LlvmFunction,
    p: Progress,
    op: LlvmOp,
    ptr: Value,
    res: Value,
)
    requires
        op == (LlvmOp::Load { ptr, res }) || op == (LlvmOp::AtomicLoad { ptr, res }),
        ptr != res,
        knows_pointee(p.facts, ptr, space_of(f, ptr)),
    ensures
        ({
            let q = op_step(f, p, op).facts;
            &&& knows_pointee(q, ptr, space_of(f, ptr))
            &&& *q[ptr]->pointee->0 == merged(*p.facts[ptr]->pointee->0, said(f, p.facts, res))
            &&& !p.facts.contains_key(res) ==> q.contains_key(res) && q[res] == *q[ptr]->pointee->0
            &&& holds(q, res, *q[ptr]->pointee->0)
        }),
{
    let x = merged(*p.facts[ptr]->pointee->0, said(f, p.facts, res));
    if p.facts.contains_key(res) {
        law_merge_absorbs(p.facts[res], x);
    } else {
        law_merge_idempotent(x);
    }
}

/// A store through a pointer of which nothing was known learns its pointee: it
/// is what the stored value is.
pub proof fn law_store_teaches_pointee(
    f: LlvmFunction,
    p: Progress,
    op: LlvmOp,
    ptr: Value,
    val: Value,
)
    requires
        op == (LlvmOp::Store { val, ptr }) || op == (LlvmOp::AtomicStore { val, ptr }) || (op
            is AtomicCompareExchange && op->AtomicCompareExchange_ptr == ptr
            && op->AtomicCompareExchange_expected == val),
        f.type_of(ptr) is Pointer,
        pointee_open(p.facts, ptr, f.type_of(ptr)->addrspace),
    ensures
        op_step(f, p, op).facts == p.facts.insert(
            ptr,
            LegacyTy::Pointer {
                pointee: Some(Box::new(said(f, p.facts, val))),
                addrspace: f.type_of(ptr)->addrspace,
            },
        ),
{
}

/// A store through a pointer of which the pointee is known merges what the
/// stored value is into it.
pub proof fn law_store_refines_pointee(
    f: LlvmFunction,
    p: Progress,
    op: LlvmOp,
    ptr: Value,
    val: Value,
)
    requires
        op == (LlvmOp::Store { val, ptr }) || op == (LlvmOp::AtomicStore { val, ptr }) || (op
            is AtomicCompareExchange && op->AtomicCompareExchange_ptr == ptr
            && op->AtomicCompareExchange_expected == val),
        knows_pointee(p.facts, ptr, space_of(f, ptr)),
    ensures
        ({
            let q = op_step(f, p, op).facts;
            &&& knows_pointee(q, ptr, space_of(f, ptr))
            &&& *q[ptr]->pointee->0 == merged(*p.facts[ptr]->pointee->0, said(f, p.facts, val))
        }),
{
}

/// A read-modify-write is a store of its operand and a load of its result.
pub proof fn law_read_modify_write_stores_and_loads(
    f: LlvmFunction,
    p: Progress,
    ptr: Value,
    val: Value,
    res: Value,
)
    ensures
        op_step(f, p, LlvmOp::AtomicRmw { ptr, val, res }) == op_step(
            f,
            op_step(f, p, LlvmOp::Store { val, ptr }),
            LlvmOp::Load { ptr, res },
        ),
{
}

/// An allocation gives a pointer into the generic address space to what it
/// allocates, and a call a value of the callee's result type.
pub proof fn law_definitions_teach_their_type(f: LlvmFunction, p: Progress, op: LlvmOp)
    requires
        op is Alloca || op is Call,
    ensures
        op matches LlvmOp::Alloca { res, elem_ty } ==> pointee_open(p.facts, res, 0) ==> op_step(
            f,
            p,
            op,
        ).facts == p.facts.insert(
            res,
            LegacyTy::Pointer { pointee: Some(Box::new(from_llvm(elem_ty@))), addrspace: 0 },
        ),
        op matches LlvmOp::Call { ret_ty, res, .. } ==> (ret_ty@ is Void || p.facts.contains_key(
            res,
        ) || op_step(f, p, op).facts == p.facts.insert(res, from_llvm(ret_ty@))),
        op matches LlvmOp::Call { ret_ty, .. } ==> (ret_ty@ is Void ==> op_step(f, p, op) == p),
{
}

/// A cast between pointers keeps the pointee, whichever side knows it, and the
/// address space is that of the pointer's own type.
pub proof fn law_cast_keeps_pointee(
    f: LlvmFunction,
    p: Progress,
    val: Value,
    res: Value,
    pointee: LegacyTy,
    from: u32,
    to: u32,
)
    requires
        val != res,
        f.type_of(val) == (LlvmTy::Pointer { addrspace: from }),
        f.type_of(res) == (LlvmTy::Pointer { addrspace: to }),
    ensures
        ({
            let q = op_step(f, p, LlvmOp::AddrSpaceCast { val, res }).facts;
            let known_from = LegacyTy::Pointer { pointee: Some(Box::new(pointee)), addrspace: from };
            let known_to = LegacyTy::Pointer { pointee: Some(Box::new(pointee)), addrspace: to };
            &&& p.facts.contains_key(val) && p.facts[val] == known_from && pointee_open(
                p.facts,
                res,
                to,
            ) ==> q == p.facts.insert(res, known_to)
            &&& p.facts.contains_key(res) && p.facts[res] == known_to && pointee_open(
                p.facts,
                val,
                from,
            ) ==> q == p.facts.insert(val, known_from)
        }),
        ({
            let q = op_step(f, p, LlvmOp::Bitcast { val, res }).facts;
            let known = LegacyTy::Pointer { pointee: Some(Box::new(pointee)), addrspace: from };
            from == to ==> {
                &&& p.facts.contains_key(val) && p.facts[val] == known && pointee_open(
                    p.facts,
                    res,
                    to,
                ) ==> q == p.facts.insert(res, known)
                &&& p.facts.contains_key(res) && p.facts[res] == known && pointee_open(
                    p.facts,
                    val,
                    from,
                ) ==> q == p.facts.insert(val, known)
            }
        }),
{
    law_merge_idempotent(pointee);
    let known_from = LegacyTy::Pointer { pointee: Some(Box::new(pointee)), addrspace: from };
    let known_to = LegacyTy::Pointer { pointee: Some(Box::new(pointee)), addrspace: to };
    let q = op_step(f, p, LlvmOp::AddrSpaceCast { val, res }).facts;
    let r = op_step(f, p, LlvmOp::Bitcast { val, res }).facts;
    if p.facts.contains_key(val) && p.facts[val] == known_from && pointee_open(p.facts, res, to) {
        assert(q =~= p.facts.insert(res, known_to));
        if from == to {
            assert(r =~= p.facts.insert(res, known_to));
        }
    }
    if p.facts.contains_key(res) && p.facts[res] == known_to && pointee_open(p.facts, val, from) {
        assert(q =~= p.facts.insert(val, known_from));
        if from == to {
            assert(r =~= p.facts.insert(val, known_from));
        }
    }
}

/// A cast teaches nothing unless both sides are pointers.
pub proof fn law_cast_of_no_pointer_teaches_nothing(
    f: LlvmFunction,
    p: Progress,
    val: Value,
    res: Value,
)
    requires
        f.type_of(val) !is Pointer || f.type_of(res) !is Pointer,
    ensures
        op_step(f, p, LlvmOp::AddrSpaceCast { val, res }) == p,
        op_step(f, p, LlvmOp::Bitcast { val, res }) == p,
{
}

/// A pointer made from an integer points into the address space of its type,
/// and its pointee stays open.
pub proof fn law_integer_to_pointer_leaves_pointee_open(
    f: LlvmFunction,
    p: Progress,
    val: Value,
    res: Value,
)
    requires
        f.type_of(res) is Pointer,
        pointee_open(p.facts, res, f.type_of(res)->addrspace),
    ensures
        op_step(f, p, LlvmOp::IntToPtr { val, res }).facts == p.facts.insert(
            res,
            LegacyTy::Pointer { pointee: None, addrspace: f.type_of(res)->addrspace },
        ),
{
    assert(op_step(f, p, LlvmOp::IntToPtr { val, res }).facts =~= p.facts.insert(
        res,
        LegacyTy::Pointer { pointee: None, addrspace: f.type_of(res)->addrspace },
    ));
}

/// The result and the two values of a selection learn from each other: what
/// any one of the three knows of its pointee, all know.
pub proof fn law_select_shares_pointee(
    f: LlvmFunction,
    p: Progress,
    cond: Value,
    true_val: Value,
    false_val: Value,
    res: Value,
    fact: LegacyTy,
    space: u32,
)
    requires
        true_val != false_val,
        true_val != res,
        false_val != res,
        fact is Pointer,
        fact->addrspace == space,
        p.facts.contains_key(res) || p.facts.contains_key(true_val),
        forall|v: Value|
            #![trigger p.facts.contains_key(v)]
            v == true_val || v == false_val || v == res ==> p.facts.contains_key(v) ==> p.facts[v]
                == fact || p.facts[v] == (LegacyTy::Pointer { pointee: None, addrspace: space }),
        p.facts.contains_key(res) && p.facts[res] == fact || p.facts.contains_key(true_val)
            && p.facts[true_val] == fact,
    ensures
        op_step(f, p, LlvmOp::Select { cond, true_val, false_val, res }).facts == p.facts.insert(
            true_val,
            fact,
        ).insert(false_val, fact).insert(res, fact),
{
    law_merge_idempotent(fact);
    assert(op_step(f, p, LlvmOp::Select { cond, true_val, false_val, res }).facts
        =~= p.facts.insert(true_val, fact).insert(false_val, fact).insert(res, fact));
}

/// Taking a part out of an aggregate and putting one in are inverse to each
/// other: what is extracted of what was inserted is what was inserted.
pub proof fn law_extract_reads_inserted(
    f: LlvmFunction,
    p: Progress,
    agg: Value,
    val: Value,
    whole: Value,
    part: Value,
    indices: Vec<u32>,
)
    requires
        whole != part,
        !p.facts.contains_key(whole),
        !p.facts.contains_key(part),
        indexed_ty(said(f, p.facts, agg), indices@) is Some,
    ensures
        ({
            let q = op_step(f, p, LlvmOp::InsertValue { agg, val, res: whole, indices });
            let r = op_step(f, q, LlvmOp::ExtractValue { agg: whole, res: part, indices });
            &&& q.facts.contains_key(whole)
            &&& indexed_ty(q.facts[whole], indices@) == Some(said(f, p.facts, val))
            &&& r.facts == q.facts.insert(part, said(f, p.facts, val))
        }),
{
    law_replace_where_readable(said(f, p.facts, agg), indices@, said(f, p.facts, val));
    law_replaced_part_reads_back(said(f, p.facts, agg), indices@, said(f, p.facts, val));
}

/// The values through which an operation reads or writes memory, or computes
/// an address.
pub open spec fn goes_through(op: LlvmOp, ptr: Value) -> bool {
    match op {
        LlvmOp::Load { ptr: p, .. } => p == ptr,
        LlvmOp::Store { ptr: p, .. } => p == ptr,
        LlvmOp::GetElementPtr { ptr: p, .. } => p == ptr,
        LlvmOp::AtomicLoad { ptr: p, .. } => p == ptr,
        LlvmOp::AtomicStore { ptr: p, .. } => p == ptr,
        LlvmOp::AtomicRmw { ptr: p, .. } => p == ptr,
        LlvmOp::AtomicCompareExchange { ptr: p, .. } => p == ptr,
        _ => false,
    }
}

/// Whether `q` keeps what `p` says of where `v` points.
pub open spec fn keeps_pointer(p: Facts, q: Facts, v: Value) -> bool {
    forall|space: u32|
        #![trigger points_into(p, v, space)]
        points_into(p, v, space) ==> points_into(q, v, space) && (knows_pointee(p, v, space)
            ==> knows_pointee(q, v, space))
}

proof fn lemma_put_keeps_pointer(p: Progress, value: Value, fact: Option<LegacyTy>, v: Value)
    ensures
        keeps_pointer(p.facts, put_known(p, value, fact).facts, v),
{
}

proof fn lemma_unify_keeps_pointer(p: Progress, a: Value, b: Value, v: Value)
    ensures
        keeps_pointer(p.facts, unify(p, a, b).facts, v),
{
    let q = put_known(p, b, fact_of(p, a));
    lemma_put_keeps_pointer(p, b, fact_of(p, a), v);
    lemma_put_keeps_pointer(q, a, fact_of(q, b), v);
}

proof fn lemma_load_keeps_pointer(f: LlvmFunction, p: Progress, ptr: Value, res: Value, v: Value)
    ensures
        keeps_pointer(p.facts, load_like(f, p, ptr, res).facts, v),
{
    let fact = LegacyTy::Pointer {
        pointee: Some(Box::new(said(f, p.facts, res))),
        addrspace: space_of(f, ptr),
    };
    let q = put(p, ptr, fact);
    lemma_put_keeps_pointer(p, ptr, Some(fact), v);
    lemma_put_keeps_pointer(q, res, pointee_of(fact_of(q, ptr)), v);
}

/// No operation forgets where a value points, nor what it points to.
pub proof fn law_operation_keeps_pointers(f: LlvmFunction, p: Progress, op: LlvmOp, v: Value)
    ensures
        keeps_pointer(p.facts, op_step(f, p, op).facts, v),
{
    match op {
        LlvmOp::Load { ptr, res } => lemma_load_keeps_pointer(f, p, ptr, res, v),
        LlvmOp::AtomicLoad { ptr, res } => lemma_load_keeps_pointer(f, p, ptr, res, v),
        LlvmOp::AtomicRmw { ptr, val, res } => {
            let q = store_like(f, p, ptr, val);
            assert(keeps_pointer(p.facts, q.facts, v));
            lemma_load_keeps_pointer(f, q, ptr, res, v);
        },
        LlvmOp::Bitcast { val, res } => {
            let q = put_known(p, res, cast_fact(fact_of(p, val), false, space_of(f, res)));
            lemma_put_keeps_pointer(
                p,
                res,
                cast_fact(fact_of(p, val), false, space_of(f, res)),
                v,
            );
            lemma_put_keeps_pointer(
                q,
                val,
                cast_fact(fact_of(q, res), false, space_of(f, val)),
                v,
            );
        },
        LlvmOp::AddrSpaceCast { val, res } => {
            let q = put_known(p, res, cast_fact(fact_of(p, val), true, space_of(f, res)));
            lemma_put_keeps_pointer(p, res, cast_fact(fact_of(p, val), true, space_of(f, res)), v);
            lemma_put_keeps_pointer(q, val, cast_fact(fact_of(q, res), true, space_of(f, val)), v);
        },
        LlvmOp::Select { true_val, false_val, res, .. } => {
            lemma_unify_keeps_pointer(p, res, true_val, v);
            lemma_unify_keeps_pointer(unify(p, res, true_val), res, false_val, v);
        },
        _ => {},
    }
}

/// Once an operation has gone through a pointer, its pointee is known.
pub proof fn law_operation_teaches_pointee(f: LlvmFunction, p: Progress, op: LlvmOp, ptr: Value)
    requires
        goes_through(op, ptr),
        points_into(p.facts, ptr, space_of(f, ptr)),
    ensures
        knows_pointee(op_step(f, p, op).facts, ptr, space_of(f, ptr)),
{
    match op {
        LlvmOp::Load { ptr, res } => lemma_load_knows(f, p, ptr, res),
        LlvmOp::AtomicLoad { ptr, res } => lemma_load_knows(f, p, ptr, res),
        LlvmOp::AtomicRmw { ptr, val, res } => {
            let q = store_like(f, p, ptr, val);
            assert(points_into(q.facts, ptr, space_of(f, ptr)));
            lemma_load_knows(f, q, ptr, res);
        },
        _ => {},
    }
}

proof fn lemma_load_knows(f: LlvmFunction, p: Progress, ptr: Value, res: Value)
    requires
        points_into(p.facts, ptr, space_of(f, ptr)),
    ensures
        knows_pointee(load_like(f, p, ptr, res).facts, ptr, space_of(f, ptr)),
{
    let fact = LegacyTy::Pointer {
        pointee: Some(Box::new(said(f, p.facts, res))),
        addrspace: space_of(f, ptr),
    };
    let q = put(p, ptr, fact);
    assert(knows_pointee(q.facts, ptr, space_of(f, ptr)));
    lemma_put_keeps_pointer(q, res, pointee_of(fact_of(q, ptr)), ptr);
    assert(points_into(q.facts, ptr, space_of(f, ptr)));
}

proof fn lemma_ops_keep_pointer(
    f: LlvmFunction,
    p: Progress,
    ops: Seq<LlvmOp>,
    n: nat,
    v: Value,
)
    ensures
        keeps_pointer(p.facts, ops_step(f, p, ops, n).facts, v),
    decreases n,
{
    if n > 0 {
        let q = ops_step(f, p, ops, (n - 1) as nat);
        lemma_ops_keep_pointer(f, p, ops, (n - 1) as nat, v);
        law_operation_keeps_pointers(f, q, ops[n - 1], v);
        assert forall|space: u32| #![trigger points_into(p.facts, v, space)]
            points_into(p.facts, v, space) implies points_into(q.facts, v, space) by {}
    }
}

proof fn lemma_blocks_keep_pointer(f: LlvmFunction, p: Progress, n: nat, v: Value)
    ensures
        keeps_pointer(p.facts, blocks_step(f, p, n).facts, v),
    decreases n,
{
    if n > 0 {
        let q = blocks_step(f, p, (n - 1) as nat);
        let ops = f.blocks@[n - 1].ops@;
        lemma_blocks_keep_pointer(f, p, (n - 1) as nat, v);
        lemma_ops_keep_pointer(f, q, ops, ops.len(), v);
        assert forall|space: u32| #![trigger points_into(p.facts, v, space)]
            points_into(p.facts, v, space) implies points_into(q.facts, v, space) by {}
    }
}

proof fn lemma_ops_teach(
    f: LlvmFunction,
    p: Progress,
    ops: Seq<LlvmOp>,
    n: nat,
    i: int,
    ptr: Value,
)
    requires
        0 <= i < n,
        goes_through(ops[i], ptr),
        points_into(p.facts, ptr, space_of(f, ptr)),
    ensures
        knows_pointee(ops_step(f, p, ops, n).facts, ptr, space_of(f, ptr)),
    decreases n,
{
    let q = ops_step(f, p, ops, (n - 1) as nat);
    lemma_ops_keep_pointer(f, p, ops, (n - 1) as nat, ptr);
    assert(points_into(q.facts, ptr, space_of(f, ptr)));
    if i == n - 1 {
        law_operation_teaches_pointee(f, q, ops[n - 1], ptr);
    } else {
        lemma_ops_teach(f, p, ops, (n - 1) as nat, i, ptr);
        law_operation_keeps_pointers(f, q, ops[n - 1], ptr);
    }
}

proof fn lemma_blocks_teach(
    f: LlvmFunction,
    p: Progress,
    n: nat,
    b: int,
    i: int,
    ptr: Value,
)
    requires
        0 <= b < n,
        0 <= i < f.blocks@[b].ops@.len(),
        goes_through(f.blocks@[b].ops@[i], ptr),
        points_into(p.facts, ptr, space_of(f, ptr)),
    ensures
        knows_pointee(blocks_step(f, p, n).facts, ptr, space_of(f, ptr)),
    decreases n,
{
    let q = blocks_step(f, p, (n - 1) as nat);
    let ops = f.blocks@[n - 1].ops@;
    lemma_blocks_keep_pointer(f, p, (n - 1) as nat, ptr);
    assert(points_into(q.facts, ptr, space_of(f, ptr)));
    if b == n - 1 {
        lemma_ops_teach(f, q, ops, ops.len(), i, ptr);
    } else {
        lemma_blocks_teach(f, p, (n - 1) as nat, b, i, ptr);
        lemma_ops_keep_pointer(f, q, ops, ops.len(), ptr);
    }
}

/// After one pass over the operations, the pointee of every pointer that some
/// operation loads from, stores to or computes an address from is known.
pub proof fn law_pass_teaches_pointees(
    f: LlvmFunction,
    facts: &mut ValueFacts,
    changed: bool,
    b: int,
    i: int,
    ptr: Value,
)
    requires
        call_ensures(propagate_op_facts, (&f, facts), changed),
        0 <= b < f.blocks@.len(),
        0 <= i < f.blocks@[b].ops@.len(),
        goes_through(f.blocks@[b].ops@[i], ptr),
        points_into(old(facts)@, ptr, space_of(f, ptr)),
    ensures
        knows_pointee(final(facts)@, ptr, space_of(f, ptr)),
{
    let p = Progress { facts: old(facts)@, changed: false };
    lemma_blocks_teach(f, p, f.blocks@.len(), b, i, ptr);
}

proof fn lemma_quiet_ops(f: LlvmFunction, p: Progress, ops: Seq<LlvmOp>, n: nat, i: int)
    requires
        0 <= i < n,
        !ops_step(f, p, ops, n).changed,
    ensures
        !p.changed,
        !op_step(f, p, ops[i]).changed,
    decreases n,
{
    let q = ops_step(f, p, ops, (n - 1) as nat);
    lemma_ops_extend(f, p, ops, n);
    lemma_ops_extend(f, p, ops, (n - 1) as nat);
    lemma_op_extends(f, q, ops[n - 1]);
    assert(q == p);
    if i < n - 1 {
        lemma_quiet_ops(f, p, ops, (n - 1) as nat, i);
    }
}

proof fn lemma_quiet_blocks(f: LlvmFunction, p: Progress, n: nat, b: int, i: int)
    requires
        0 <= b < n,
        0 <= i < f.blocks@[b].ops@.len(),
        !blocks_step(f, p, n).changed,
    ensures
        !p.changed,
        !op_step(f, p, f.blocks@[b].ops@[i]).changed,
    decreases n,
{
    let q = blocks_step(f, p, (n - 1) as nat);
    let ops = f.blocks@[n - 1].ops@;
    lemma_blocks_extend(f, p, n);
    lemma_blocks_extend(f, p, (n - 1) as nat);
    lemma_ops_extend(f, q, ops, ops.len());
    assert(q == p);
    if b == n - 1 {
        lemma_quiet_ops(f, p, ops, ops.len(), i);
    } else {
        lemma_quiet_blocks(f, p, (n - 1) as nat, b, i);
    }
}

/// Where a pass over the operations reports no change, the facts are what they
/// were, and every operation of the function is settled.
pub proof fn law_quiet_pass_is_settled(
    f: LlvmFunction,
    facts: &mut ValueFacts,
    b: int,
    i: int,
)
    requires
        call_ensures(propagate_op_facts, (&f, facts), false),
        0 <= b < f.blocks@.len(),
        0 <= i < f.blocks@[b].ops@.len(),
    ensures
        final(facts)@ == old(facts)@,
        settled(f, final(facts)@, f.blocks@[b].ops@[i]),
{
    let p = Progress { facts: old(facts)@, changed: false };
    lemma_blocks_extend(f, p, f.blocks@.len());
    lemma_quiet_blocks(f, p, f.blocks@.len(), b, i);
    law_quiet_operation_is_settled(f, old(facts)@, f.blocks@[b].ops@[i]);
}

proof fn lemma_quiet_preds(
    p: Progress,
    arg: Value,
    arg_idx: int,
    preds: Seq<Predecessor>,
    n: nat,
    k: int,
)
    requires
        0 <= k < n,
        0 <= arg_idx < preds[k].args@.len(),
        !preds_step(p, arg, arg_idx, preds, n).changed,
    ensures
        agree(p.facts, preds[k].args@[arg_idx], arg),
    decreases n,
{
    let q = preds_step(p, arg, arg_idx, preds, (n - 1) as nat);
    lemma_preds_extend(p, arg, arg_idx, preds, n);
    lemma_preds_extend(p, arg, arg_idx, preds, (n - 1) as nat);
    let args = preds[n - 1].args@;
    if arg_idx < args.len() {
        lemma_quiet_unify(q, args[arg_idx], arg);
    }
    assert(q == p);
    if k < n - 1 {
        lemma_quiet_preds(p, arg, arg_idx, preds, (n - 1) as nat, k);
    }
}

proof fn lemma_quiet_args(
    p: Progress,
    args: Seq<Value>,
    preds: Seq<Predecessor>,
    n: nat,
    i: int,
    k: int,
)
    requires
        0 <= i < n,
        0 <= k < preds.len(),
        i < preds[k].args@.len(),
        !args_step(p, args, preds, n).changed,
    ensures
        agree(p.facts, preds[k].args@[i], args[i]),
    decreases n,
{
    let q = args_step(p, args, preds, (n - 1) as nat);
    lemma_args_extend(p, args, preds, n);
    lemma_args_extend(p, args, preds, (n - 1) as nat);
    lemma_preds_extend(q, args[n - 1], n - 1, preds, preds.len());
    assert(q == p);
    if i == n - 1 {
        lemma_quiet_preds(p, args[n - 1], n - 1, preds, preds.len(), k);
    } else {
        lemma_quiet_args(p, args, preds, (n - 1) as nat, i, k);
    }
}

proof fn lemma_quiet_phis(
    f: LlvmFunction,
    preds: Seq<Vec<Predecessor>>,
    p: Progress,
    n: nat,
    b: int,
    i: int,
    k: int,
)
    requires
        0 <= b < n,
        0 <= i < f.blocks@[b].args@.len(),
        0 <= k < preds[b]@.len(),
        i < preds[b]@[k].args@.len(),
        !phis_step(f, preds, p, n).changed,
    ensures
        agree(p.facts, preds[b]@[k].args@[i], f.blocks@[b].args@[i]),
    decreases n,
{
    let q = phis_step(f, preds, p, (n - 1) as nat);
    let args = f.blocks@[n - 1].args@;
    lemma_phis_extend(f, preds, p, n);
    lemma_phis_extend(f, preds, p, (n - 1) as nat);
    lemma_args_extend(q, args, preds[n - 1]@, args.len());
    assert(q == p);
    if b == n - 1 {
        lemma_quiet_args(p, args, preds[b]@, args.len(), i, k);
    } else {
        lemma_quiet_phis(f, preds, p, (n - 1) as nat, b, i, k);
    }
}

/// Where a pass over the jumps reports no change, the facts are what they
/// were, and each argument of a block agrees with what each jump passes for
/// it.
pub proof fn law_quiet_jumps_agree(
    f: LlvmFunction,
    pred_map: PredecessorMap,
    facts: &mut ValueFacts,
    b: int,
    i: int,
    k: int,
)
    requires
        call_ensures(propagate_phi_facts, (&f, &pred_map, facts), false),
        0 <= b < f.blocks@.len(),
        0 <= i < f.blocks@[b].args@.len(),
        0 <= k < pred_map@[b]@.len(),
        i < pred_map@[b]@[k].args@.len(),
    ensures
        final(facts)@ == old(facts)@,
        agree(final(facts)@, pred_map@[b]@[k].args@[i], f.blocks@[b].args@[i]),
{
    let p = Progress { facts: old(facts)@, changed: false };
    lemma_phis_extend(f, pred_map@, p, f.blocks@.len());
    lemma_quiet_phis(f, pred_map@, p, f.blocks@.len(), b, i, k);
}

// ---------------------------------------------------------------------------
// Seeds
// ---------------------------------------------------------------------------

/// Whether a value is an argument of block `b`, or a result of one of its
/// operations.
pub open spec fn defined_in(f: LlvmFunction, b: int, value: Value) -> bool {
    f.blocks@[b].args@.contains(value) || exists|i: int|
        #![trigger f.blocks@[b].ops@[i]]
        0 <= i < f.blocks@[b].ops@.len() && op_results(f.blocks@[b].ops@[i]).contains(value)
}

/// What `value` is known to be once it has been seeded.
pub open spec fn seeded_from(f: LlvmFunction, facts: Facts, value: Value) -> LegacyTy {
    if facts.contains_key(value) {
        merged(facts[value], from_llvm(f.type_of(value)))
    } else {
        from_llvm(f.type_of(value))
    }
}

/// Whether `q` is `p` with the values in `seeds` seeded, and no others.
pub open spec fn seeds_exactly(
    f: LlvmFunction,
    p: Facts,
    q: Facts,
    value: Value,
    is_seed: bool,
) -> bool {
    &&& is_seed ==> q.contains_key(value) && q[value] == seeded_from(f, p, value)
    &&& !is_seed ==> q.contains_key(value) == p.contains_key(value) && (p.contains_key(value)
        ==> q[value] == p[value])
}

proof fn lemma_seed_again(f: LlvmFunction, p: Progress, value: Value)
    requires
        p.facts.contains_key(value),
    ensures
        merged(seeded_from(f, p.facts, value), from_llvm(f.type_of(value))) == seeded_from(
            f,
            p.facts,
            value,
        ),
{
    law_merge_absorbs(p.facts[value], from_llvm(f.type_of(value)));
}

proof fn lemma_seed_values(
    f: LlvmFunction,
    p: Progress,
    values: Seq<Value>,
    n: nat,
    value: Value,
)
    requires
        n <= values.len(),
    ensures
        seeds_exactly(
            f,
            p.facts,
            seed_values(f, p, values, n).facts,
            value,
            values.take(n as int).contains(value),
        ),
    decreases n,
{
    if n > 0 {
        let m = (n - 1) as nat;
        lemma_seed_values(f, p, values, m, value);
        assert(values.take(n as int) =~= values.take(m as int).push(values[n - 1]));
        law_merge_idempotent(from_llvm(f.type_of(value)));
        if p.facts.contains_key(value) {
            lemma_seed_again(f, p, value);
        }
        if values.take(m as int).contains(value) {
            let k = choose|k: int| 0 <= k < m && values.take(m as int)[k] == value;
            assert(values.take(n as int)[k] == value);
        }
        if value == values[n - 1] {
            assert(values.take(n as int)[n - 1] == value);
        } else if values.take(n as int).contains(value) {
            let k = choose|k: int| 0 <= k < n && values.take(n as int)[k] == value;
            assert(k < m);
            assert(values.take(m as int)[k] == value);
        }
    } else {
        assert(values.take(0) =~= Seq::empty());
    }
}

/// Seeding twice is seeding once.
proof fn lemma_seeds_compose(
    f: LlvmFunction,
    p: Facts,
    q: Facts,
    r: Facts,
    value: Value,
    first: bool,
    second: bool,
)
    requires
        seeds_exactly(f, p, q, value, first),
        seeds_exactly(f, q, r, value, second),
    ensures
        seeds_exactly(f, p, r, value, first || second),
{
    law_merge_idempotent(from_llvm(f.type_of(value)));
    if p.contains_key(value) {
        law_merge_absorbs(p[value], from_llvm(f.type_of(value)));
    }
}

/// Whether one of the first `n` operations has the result `value`.
pub open spec fn results_contain(ops: Seq<LlvmOp>, n: nat, value: Value) -> bool {
    exists|i: int| #![trigger ops[i]] 0 <= i < n && op_results(ops[i]).contains(value)
}

proof fn lemma_seed_ops(f: LlvmFunction, p: Progress, ops: Seq<LlvmOp>, n: nat, value: Value)
    requires
        n <= ops.len(),
    ensures
        seeds_exactly(
            f,
            p.facts,
            seed_ops(f, p, ops, n).facts,
            value,
            results_contain(ops, n, value),
        ),
    decreases n,
{
    if n > 0 {
        let m = (n - 1) as nat;
        lemma_seed_ops(f, p, ops, m, value);
        let q = seed_ops(f, p, ops, m);
        let results = op_results(ops[n - 1]);
        lemma_seed_values(f, q, results, results.len(), value);
        assert(results.take(results.len() as int) =~= results);
        lemma_seeds_compose(
            f,
            p.facts,
            q.facts,
            seed_ops(f, p, ops, n).facts,
            value,
            results_contain(ops, m, value),
            results.contains(value),
        );
        assert(results_contain(ops, n, value) == (results_contain(ops, m, value)
            || results.contains(value))) by {
            if results_contain(ops, m, value) {
                let i = choose|i: int|
                    #![trigger ops[i]]
                    0 <= i < m && op_results(ops[i]).contains(value);
                assert(op_results(ops[i]).contains(value));
            }
            if results.contains(value) {
                assert(op_results(ops[n - 1]).contains(value));
            }
        }
    }
}

/// Whether `value` is defined in one of the first `n` blocks.
pub open spec fn defined_within(f: LlvmFunction, n: nat, value: Value) -> bool {
    exists|b: int| 0 <= b < n && #[trigger] defined_in(f, b, value)
}

proof fn lemma_seed_blocks(f: LlvmFunction, p: Progress, n: nat, value: Value)
    requires
        n <= f.blocks@.len(),
    ensures
        seeds_exactly(
            f,
            p.facts,
            seed_blocks(f, p, n).facts,
            value,
            defined_within(f, n, value),
        ),
    decreases n,
{
    if n > 0 {
        let m = (n - 1) as nat;
        lemma_seed_blocks(f, p, m, value);
        let q = seed_blocks(f, p, m);
        let block = f.blocks@[n - 1];
        let args = block.args@;
        let r = seed_values(f, q, args, args.len());
        lemma_seed_values(f, q, args, args.len(), value);
        assert(args.take(args.len() as int) =~= args);
        lemma_seed_ops(f, r, block.ops@, block.ops@.len(), value);
        let all = seed_blocks(f, p, n);
        let in_ops = results_contain(block.ops@, block.ops@.len(), value);
        lemma_seeds_compose(f, q.facts, r.facts, all.facts, value, args.contains(value), in_ops);
        assert(defined_in(f, n - 1, value) == (args.contains(value) || in_ops));
        lemma_seeds_compose(
            f,
            p.facts,
            q.facts,
            all.facts,
            value,
            defined_within(f, m, value),
            defined_in(f, n - 1, value),
        );
        assert(defined_within(f, n, value) == (defined_within(f, m, value) || defined_in(
            f,
            n - 1,
            value,
        ))) by {
            if defined_within(f, m, value) {
                let b = choose|b: int| 0 <= b < m && #[trigger] defined_in(f, b, value);
                assert(defined_in(f, b, value));
            }
        }
    }
}

/// Seeding tells every argument and every result what its own type says,
/// merged behind what was known, and touches no other value. So without
/// earlier facts exactly the values that the function defines are known, each
/// by its type alone.
pub proof fn law_seeds_are_the_types(f: LlvmFunction, facts: &mut ValueFacts, value: Value)
    requires
        call_ensures(seed_function_values, (&f, facts), ()),
    ensures
        ({
            let defined = exists|b: int|
                0 <= b < f.blocks@.len() && #[trigger] defined_in(f, b, value);
            let known = old(facts)@.contains_key(value);
            &&& final(facts)@.contains_key(value) <==> known || defined
            &&& defined && !known ==> final(facts)@[value] == from_llvm(f.type_of(value))
            &&& defined && known ==> final(facts)@[value] == merged(
                old(facts)@[value],
                from_llvm(f.type_of(value)),
            )
            &&& !defined && known ==> final(facts)@[value] == old(facts)@[value]
        }),
{
    let p = Progress { facts: old(facts)@, changed: false };
    lemma_seed_blocks(f, p, f.blocks@.len(), value);
}

/// An operation with a result has just that one, whatever it is; stores and
/// jumps have none.
pub proof fn law_results_of_operations(op: LlvmOp, res: Value)
    ensures
        op matches LlvmOp::Load { res: r, .. } ==> (op_results(op).contains(res) <==> r == res),
        op matches LlvmOp::Alloca { res: r, .. } ==> (op_results(op).contains(res) <==> r == res),
        op matches LlvmOp::GetElementPtr { res: r, .. } ==> (op_results(op).contains(res) <==> r
            == res),
        op matches LlvmOp::AtomicLoad { res: r, .. } ==> (op_results(op).contains(res) <==> r
            == res),
        op matches LlvmOp::AtomicRmw { res: r, .. } ==> (op_results(op).contains(res) <==> r
            == res),
        op matches LlvmOp::AtomicCompareExchange { res: r, .. } ==> (op_results(op).contains(res)
            <==> r == res),
        op matches LlvmOp::Bitcast { res: r, .. } ==> (op_results(op).contains(res) <==> r == res),
        op matches LlvmOp::AddrSpaceCast { res: r, .. } ==> (op_results(op).contains(res) <==> r
            == res),
        op matches LlvmOp::IntToPtr { res: r, .. } ==> (op_results(op).contains(res) <==> r == res),
        op matches LlvmOp::Select { res: r, .. } ==> (op_results(op).contains(res) <==> r == res),
        op matches LlvmOp::ExtractValue { res: r, .. } ==> (op_results(op).contains(res) <==> r
            == res),
        op matches LlvmOp::InsertValue { res: r, .. } ==> (op_results(op).contains(res) <==> r
            == res),
        op matches LlvmOp::Call { res: r, .. } ==> (op_results(op).contains(res) <==> r == res),
        op matches LlvmOp::Other { results } ==> (op_results(op).contains(res)
            <==> results@.contains(res)),
        op is Store || op is AtomicStore || op is Br || op is CondBr ==> !op_results(op).contains(
            res,
        ),
{
    if op_results(op).len() > 0 {
        assert(op_results(op)[0] == op_results(op).first());
    }
}

// ---------------------------------------------------------------------------
// The whole analysis
// ---------------------------------------------------------------------------

proof fn lemma_preds_keep_pointer(
    p: Progress,
    arg: Value,
    arg_idx: int,
    preds: Seq<Predecessor>,
    n: nat,
    v: Value,
)
    ensures
        keeps_pointer(p.facts, preds_step(p, arg, arg_idx, preds, n).facts, v),
    decreases n,
{
    if n > 0 {
        let q = preds_step(p, arg, arg_idx, preds, (n - 1) as nat);
        lemma_preds_keep_pointer(p, arg, arg_idx, preds, (n - 1) as nat, v);
        lemma_unify_keeps_pointer(q, preds[n - 1].args@[arg_idx], arg, v);
        assert forall|space: u32| #![trigger points_into(p.facts, v, space)]
            points_into(p.facts, v, space) implies points_into(q.facts, v, space) by {}
    }
}

proof fn lemma_args_keep_pointer(
    p: Progress,
    args: Seq<Value>,
    preds: Seq<Predecessor>,
    n: nat,
    v: Value,
)
    ensures
        keeps_pointer(p.facts, args_step(p, args, preds, n).facts, v),
    decreases n,
{
    if n > 0 {
        let q = args_step(p, args, preds, (n - 1) as nat);
        lemma_args_keep_pointer(p, args, preds, (n - 1) as nat, v);
        lemma_preds_keep_pointer(q, args[n - 1], n - 1, preds, preds.len(), v);
        assert forall|space: u32| #![trigger points_into(p.facts, v, space)]
            points_into(p.facts, v, space) implies points_into(q.facts, v, space) by {}
    }
}

proof fn lemma_phis_keep_pointer(
    f: LlvmFunction,
    preds: Seq<Vec<Predecessor>>,
    p: Progress,
    n: nat,
    v: Value,
)
    ensures
        keeps_pointer(p.facts, phis_step(f, preds, p, n).facts, v),
    decreases n,
{
    if n > 0 {
        let q = phis_step(f, preds, p, (n - 1) as nat);
        let args = f.blocks@[n - 1].args@;
        lemma_phis_keep_pointer(f, preds, p, (n - 1) as nat, v);
        lemma_args_keep_pointer(q, args, preds[n - 1]@, args.len(), v);
        assert forall|space: u32| #![trigger points_into(p.facts, v, space)]
            points_into(p.facts, v, space) implies points_into(q.facts, v, space) by {}
    }
}

proof fn lemma_rounds_teach(
    f: LlvmFunction,
    preds: Seq<Vec<Predecessor>>,
    facts: Facts,
    n: nat,
    b: int,
    i: int,
    ptr: Value,
)
    requires
        n > 0,
        0 <= b < f.blocks@.len(),
        0 <= i < f.blocks@[b].ops@.len(),
        goes_through(f.blocks@[b].ops@[i], ptr),
        points_into(facts, ptr, space_of(f, ptr)),
    ensures
        knows_pointee(rounds(f, preds, facts, n), ptr, space_of(f, ptr)),
    decreases n,
{
    let len = f.blocks@.len();
    let p = Progress { facts, changed: false };
    let q = phis_step(f, preds, p, len);
    lemma_phis_keep_pointer(f, preds, p, len, ptr);
    assert(points_into(q.facts, ptr, space_of(f, ptr)));
    lemma_blocks_teach(f, q, len, b, i, ptr);
    let r = round(f, preds, facts);
    assert(points_into(r.facts, ptr, space_of(f, ptr)));
    if r.changed && n > 1 {
        lemma_rounds_teach(f, preds, r.facts, (n - 1) as nat, b, i, ptr);
    }
}

/// The analysis knows the pointee of every pointer that the function defines
/// and that some operation loads from, stores to or computes an address from,
/// unless lowering left a fact that contradicts the pointer's type.
pub proof fn law_analysis_teaches_pointees(
    state: ModuleExportState,
    aux: AuxData,
    f: LlvmFunction,
    pred_map: PredecessorMap,
    facts: ValueFacts,
    b: int,
    i: int,
    ptr: Value,
)
    requires
        call_ensures(
            ModuleExportState::analyze_legacy_type_facts,
            (&state, &aux, &f, &pred_map),
            facts,
        ),
        state.pointer_mode == PointerMode::LegacyTyped,
        0 <= b < f.blocks@.len(),
        0 <= i < f.blocks@[b].ops@.len(),
        goes_through(f.blocks@[b].ops@[i], ptr),
        f.type_of(ptr) is Pointer,
        aux.facts().contains_key(ptr) ==> points_into(
            aux.facts(),
            ptr,
            f.type_of(ptr)->addrspace,
        ),
        exists|d: int| 0 <= d < f.blocks@.len() && #[trigger] defined_in(f, d, ptr),
    ensures
        facts@.contains_key(ptr),
        facts@[ptr] is Pointer,
        facts@[ptr]->addrspace == f.type_of(ptr)->addrspace,
        facts@[ptr]->pointee is Some,
{
    let p = Progress { facts: aux.facts(), changed: false };
    lemma_seed_blocks(f, p, f.blocks@.len(), ptr);
    let seeded = seed_blocks(f, p, f.blocks@.len()).facts;
    assert(points_into(seeded, ptr, space_of(f, ptr)));
    lemma_rounds_teach(f, pred_map@, seeded, 64, b, i, ptr);
}

/// Unless all its rounds changed something, the analysis ends with facts on
/// which every operation is settled and every jump agrees with the arguments
/// of the block it leads to.
pub proof fn law_analysis_is_settled(
    state: ModuleExportState,
    aux: AuxData,
    f: LlvmFunction,
    pred_map: PredecessorMap,
    facts: ValueFacts,
)
    requires
        call_ensures(
            ModuleExportState::analyze_legacy_type_facts,
            (&state, &aux, &f, &pred_map),
            facts,
        ),
        state.pointer_mode == PointerMode::LegacyTyped,
        !all_rounds_change(
            f,
            pred_map@,
            seed_blocks(
                f,
                Progress { facts: aux.facts(), changed: false },
                f.blocks@.len(),
            ).facts,
            64,
        ),
    ensures
        forall|b: int, i: int|
            #![trigger f.blocks@[b].ops@[i]]
            0 <= b < f.blocks@.len() && 0 <= i < f.blocks@[b].ops@.len() ==> settled(
                f,
                facts@,
                f.blocks@[b].ops@[i],
            ),
        forall|b: int, i: int, k: int|
            #![trigger f.blocks@[b].args@[i], pred_map@[b]@[k]]
            0 <= b < f.blocks@.len() && 0 <= i < f.blocks@[b].args@.len() && 0 <= k
                < pred_map@[b]@.len() && i < pred_map@[b]@[k].args@.len() ==> agree(
                facts@,
                pred_map@[b]@[k].args@[i],
                f.blocks@[b].args@[i],
            ),
{
    let n = f.blocks@.len();
    let preds = pred_map@;
    let seeded = seed_blocks(f, Progress { facts: aux.facts(), changed: false }, n).facts;
    law_analysis_ends_at_fixed_point(f, preds, seeded, 64);
    assert(facts@ == rounds(f, preds, seeded, 64));
    let p = Progress { facts: facts@, changed: false };
    let q = phis_step(f, preds, p, n);
    lemma_phis_extend(f, preds, p, n);
    lemma_blocks_extend(f, q, n);
    assert(q == p);
    assert forall|b: int, i: int|
        #![trigger f.blocks@[b].ops@[i]]
        0 <= b < f.blocks@.len() && 0 <= i < f.blocks@[b].ops@.len() implies settled(
        f,
        facts@,
        f.blocks@[b].ops@[i],
    ) by {
        lemma_quiet_blocks(f, p, n, b, i);
        law_quiet_operation_is_settled(f, facts@, f.blocks@[b].ops@[i]);
    }
    assert forall|b: int, i: int, k: int|
        #![trigger f.blocks@[b].args@[i], preds[b]@[k]]
        0 <= b < f.blocks@.len() && 0 <= i < f.blocks@[b].args@.len() && 0 <= k < preds[b]@.len()
            && i < preds[b]@[k].args@.len() implies agree(
        facts@,
        preds[b]@[k].args@[i],
        f.blocks@[b].args@[i],
    ) by {
        lemma_quiet_phis(f, preds, p, n, b, i, k);
    }
}

/// Where pointers are opaque nothing is analysed.
pub proof fn law_opaque_pointers_have_no_facts(
    state: ModuleExportState,
    aux: AuxData,
    f: LlvmFunction,
    pred_map: PredecessorMap,
    facts: ValueFacts,
    value: Value,
)
    requires
        call_ensures(
            ModuleExportState::analyze_legacy_type_facts,
            (&state, &aux, &f, &pred_map),
            facts,
        ),
        state.pointer_mode != PointerMode::LegacyTyped,
    ensures
        !facts@.contains_key(value),
{
}

/// A constant index counts as itself, and an operand as no constant.
pub proof fn law_constant_indices(indices: Seq<GepIndex>, k: int)
    requires
        0 <= k < indices.len(),
    ensures
        constant_indices(indices).len() == indices.len(),
        indices[k] is Constant ==> constant_indices(indices)[k] == Some(indices[k]->Constant_0),
        indices[k] is OperandIdx ==> constant_indices(indices)[k] is None,
{
}

/// An address computation from a pointer of which nothing was known learns its
/// pointee from the computation's element type. Its result points, in the same
/// address space, to where the indices lead from there.
pub proof fn law_gep_teaches_both(
    f: LlvmFunction,
    p: Progress,
    ptr: Value,
    res: Value,
    src_elem_ty: LlvmType,
    gep_indices: Vec<GepIndex>,
)
    requires
        f.type_of(ptr) is Pointer,
        ptr != res,
        pointee_open(p.facts, ptr, f.type_of(ptr)->addrspace),
        !p.facts.contains_key(res),
    ensures
        ({
            let q = op_step(
                f,
                p,
                LlvmOp::GetElementPtr { ptr, res, src_elem_ty, gep_indices },
            ).facts;
            let elem = from_llvm(src_elem_ty@);
            let space = f.type_of(ptr)->addrspace;
            &&& q.contains_key(ptr) && q[ptr] == (LegacyTy::Pointer {
                pointee: Some(Box::new(elem)),
                addrspace: space,
            })
            &&& q.contains_key(res) && q[res] is Pointer && q[res]->addrspace == space
            &&& gep_indices@.len() <= 1 ==> q[res] == q[ptr]
            &&& gep_indices@.len() == 2 && elem is Array ==> q[res]->pointee == Some(
                elem->Array_elem,
            )
            &&& gep_indices@.len() == 2 && elem is Struct && gep_indices@[1] is Constant
                && gep_indices@[1]->Constant_0 < elem->Struct_0.len() ==> *q[res]->pointee->0
                == elem->Struct_0[gep_indices@[1]->Constant_0 as int]
            &&& gep_indices@.len() == 2 && elem is Struct && gep_indices@[1] is OperandIdx
                ==> q[res] == q[ptr]
        }),
{
    reveal_with_fuel(gep_ty, 3);
}

/// An address computation from a pointer whose pointee is known goes on from
/// what is known, whatever element type the computation names.
pub proof fn law_gep_goes_on_from_known_pointee(
    f: LlvmFunction,
    p: Progress,
    ptr: Value,
    res: Value,
    src_elem_ty: LlvmType,
    other_elem_ty: LlvmType,
    gep_indices: Vec<GepIndex>,
)
    requires
        knows_pointee(p.facts, ptr, space_of(f, ptr)),
        ptr != res,
        !p.facts.contains_key(res),
    ensures
        ({
            let q = op_step(
                f,
                p,
                LlvmOp::GetElementPtr { ptr, res, src_elem_ty, gep_indices },
            ).facts;
            &&& q == op_step(
                f,
                p,
                LlvmOp::GetElementPtr { ptr, res, src_elem_ty: other_elem_ty, gep_indices },
            ).facts
            &&& q[ptr] == p.facts[ptr]
            &&& gep_indices@.len() <= 1 ==> q[res] == p.facts[ptr]
        }),
{
    law_merge_idempotent(*p.facts[ptr]->pointee->0);
}

/// A fact that was set is read back, and the others stay.
pub proof fn law_set_facts_read_back(
    facts: &mut ValueFacts,
    value: Value,
    fact: LegacyType,
    found: Option<&LegacyType>,
    other: Value,
    found_other: Option<&LegacyType>,
)
    requires
        call_ensures(ValueFacts::insert, (facts, value, fact), ()),
        call_ensures(ValueFacts::get, (final(facts), value), found),
        call_ensures(ValueFacts::get, (final(facts), other), found_other),
        other != value,
    ensures
        found is Some && found->0@ == fact@,
        found_other is Some <==> old(facts)@.contains_key(other),
        found_other is Some ==> found_other->0@ == old(facts)@[other],
{
}

/// The exporter begins without facts, kernels or functions, in the mode it is
/// asked for; it reads facts as they were stored.
pub proof fn law_export_state_begins_empty(
    track_all_kernels: bool,
    emit_ptx_kernel_keyword: bool,
    mode: PointerMode,
    state: ModuleExportState,
    typed: bool,
    value: Value,
    fact: Option<&LegacyType>,
)
    requires
        call_ensures(
            ModuleExportState::new,
            (track_all_kernels, emit_ptx_kernel_keyword, mode),
            state,
        ),
        call_ensures(ModuleExportState::uses_legacy_typed_pointers, (&state,), typed),
        call_ensures(ModuleExportState::legacy_fact, (&state, value), fact),
    ensures
        typed <==> mode == PointerMode::LegacyTyped,
        state.track_all_kernels == track_all_kernels,
        state.emit_ptx_kernel_keyword == emit_ptx_kernel_keyword,
        fact is None,
        state.all_kernels@.len() == 0 && state.cluster_kernels@.len() == 0
            && state.launch_bounds_kernels@.len() == 0 && state.device_functions@.len() == 0,
        !state.convergent_used,
{
}

} // verus!
