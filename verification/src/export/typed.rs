//! Typed-pointer dataflow: what each value of a function points to.

use vstd::prelude::*;

use crate::export::function::{
    addrspace_of, addrspace_of_type, block_wf, op_operands, op_results, op_wf,
    typed_values, GepIndex, LlvmFunction, LlvmOp,
};
use crate::export::pointer_facts::{
    from_llvm, gep_ty, in_addrspace, indexed_ty, law_merge_absorbs, law_merge_idempotent, merged,
    pointer_ty, unknown_pointer_ty, with_indexed_ty, Facts, LegacyTy, LegacyType, Value, ValueFacts,
};
use crate::ir::llvm::{LlvmTy, LlvmType};
use crate::text::{decimal, lemma_decimal_injective, push_decimal};

verus! {

/// The facts of a running analysis, and whether any changed.
#[verifier::ext_equal]
pub struct Progress {
    pub facts: Facts,
    pub changed: bool,
}

/// `p` after `fact` about `value` has been merged in.
pub open spec fn put(p: Progress, value: Value, fact: LegacyTy) -> Progress {
    if p.facts.contains_key(value) {
        let m = merged(p.facts[value], fact);
        if m == p.facts[value] {
            p
        } else {
            Progress { facts: p.facts.insert(value, m), changed: true }
        }
    } else {
        Progress { facts: p.facts.insert(value, fact), changed: true }
    }
}

/// `p` with `fact` about `value` merged in, if there is one.
pub open spec fn put_known(p: Progress, value: Value, fact: Option<LegacyTy>) -> Progress {
    match fact {
        Some(t) => put(p, value, t),
        None => p,
    }
}

/// What is known of `value`, if anything.
pub open spec fn fact_of(p: Progress, value: Value) -> Option<LegacyTy> {
    if p.facts.contains_key(value) {
        Some(p.facts[value])
    } else {
        None
    }
}

/// What is known of `value`, or else what its type says.
pub open spec fn fact_or_type(f: LlvmFunction, p: Progress, value: Value) -> LegacyTy {
    if p.facts.contains_key(value) {
        p.facts[value]
    } else {
        from_llvm(f.type_of(value))
    }
}

/// What a pointer points to, if that is known.
pub open spec fn pointee_of(fact: Option<LegacyTy>) -> Option<LegacyTy> {
    match fact {
        Some(LegacyTy::Pointer { pointee: Some(t), .. }) => Some(*t),
        _ => None,
    }
}

/// The facts after a load of `res` through `ptr`.
pub open spec fn load_like(f: LlvmFunction, p: Progress, ptr: Value, res: Value) -> Progress {
    let q = put(p, ptr, pointer_ty(fact_or_type(f, p, res), addrspace_of(f.type_of(ptr))));
    put_known(q, res, pointee_of(fact_of(q, ptr)))
}

/// The facts after a store of `val` through `ptr`.
pub open spec fn store_like(f: LlvmFunction, p: Progress, ptr: Value, val: Value) -> Progress {
    put(p, ptr, pointer_ty(fact_or_type(f, p, val), addrspace_of(f.type_of(ptr))))
}

/// The constants among the indices of a pointer computation.
pub open spec fn constant_indices(indices: Seq<GepIndex>) -> Seq<Option<u32>> {
    Seq::new(
        indices.len(),
        |i: int|
            match indices[i] {
                GepIndex::Constant(c) => Some(c),
                GepIndex::OperandIdx(_) => None,
            },
    )
}

/// The facts after a pointer computation from `ptr` to `res`.
pub open spec fn gep_step(
    f: LlvmFunction,
    p: Progress,
    ptr: Value,
    res: Value,
    src_elem_ty: LlvmTy,
    indices: Seq<GepIndex>,
) -> Progress {
    let src_elem = match pointee_of(fact_of(p, ptr)) {
        Some(t) => t,
        None => from_llvm(src_elem_ty),
    };
    let addrspace = addrspace_of(f.type_of(ptr));
    let q = put(p, ptr, pointer_ty(src_elem, addrspace));
    put(
        q,
        res,
        pointer_ty(gep_ty(src_elem, 1, indices.len(), constant_indices(indices)), addrspace),
    )
}

/// `fact`, in another address space if `update_addrspace` holds.
pub open spec fn cast_fact(
    fact: Option<LegacyTy>,
    update_addrspace: bool,
    addrspace: u32,
) -> Option<LegacyTy> {
    match fact {
        Some(t) => if update_addrspace {
            Some(in_addrspace(t, addrspace))
        } else {
            Some(t)
        },
        None => None,
    }
}

/// The facts after a pointer cast from `val` to `res`.
pub open spec fn cast_step(
    f: LlvmFunction,
    p: Progress,
    val: Value,
    res: Value,
    update_addrspace: bool,
) -> Progress {
    if f.type_of(val) is Pointer && f.type_of(res) is Pointer {
        let src = addrspace_of(f.type_of(val));
        let dst = addrspace_of(f.type_of(res));
        let q = put_known(p, res, cast_fact(fact_of(p, val), update_addrspace, dst));
        put_known(q, val, cast_fact(fact_of(q, res), update_addrspace, src))
    } else {
        p
    }
}

/// The facts after what is known of either value has been told of the other.
pub open spec fn unify(p: Progress, a: Value, b: Value) -> Progress {
    let q = put_known(p, b, fact_of(p, a));
    put_known(q, a, fact_of(q, b))
}

/// The facts after an operation.
pub open spec fn op_step(f: LlvmFunction, p: Progress, op: LlvmOp) -> Progress {
    match op {
        LlvmOp::Load { ptr, res } => load_like(f, p, ptr, res),
        LlvmOp::Store { val, ptr } => store_like(f, p, ptr, val),
        LlvmOp::Alloca { res, elem_ty } => put(p, res, pointer_ty(from_llvm(elem_ty@), 0)),
        LlvmOp::GetElementPtr { ptr, res, src_elem_ty, gep_indices } => gep_step(
            f,
            p,
            ptr,
            res,
            src_elem_ty@,
            gep_indices@,
        ),
        LlvmOp::AtomicLoad { ptr, res } => load_like(f, p, ptr, res),
        LlvmOp::AtomicStore { val, ptr } => store_like(f, p, ptr, val),
        LlvmOp::AtomicRmw { ptr, val, res } => load_like(f, store_like(f, p, ptr, val), ptr, res),
        LlvmOp::AtomicCompareExchange { ptr, expected, .. } => store_like(f, p, ptr, expected),
        LlvmOp::Bitcast { val, res } => cast_step(f, p, val, res, false),
        LlvmOp::AddrSpaceCast { val, res } => cast_step(f, p, val, res, true),
        LlvmOp::IntToPtr { res, .. } => put(
            p,
            res,
            unknown_pointer_ty(addrspace_of(f.type_of(res))),
        ),
        LlvmOp::Select { true_val, false_val, res, .. } => unify(
            unify(p, res, true_val),
            res,
            false_val,
        ),
        LlvmOp::ExtractValue { agg, res, indices } => match fact_of(p, agg) {
            Some(t) => put_known(p, res, indexed_ty(t, indices@)),
            None => p,
        },
        LlvmOp::InsertValue { agg, val, res, indices } => put_known(
            p,
            res,
            with_indexed_ty(fact_or_type(f, p, agg), indices@, fact_or_type(f, p, val)),
        ),
        LlvmOp::Call { ret_ty, res, .. } => if ret_ty@ is Void {
            p
        } else {
            put(p, res, from_llvm(ret_ty@))
        },
        _ => p,
    }
}

/// The facts after the first `n` operations of a block.
pub open spec fn ops_step(f: LlvmFunction, p: Progress, ops: Seq<LlvmOp>, n: nat) -> Progress
    decreases n,
{
    if n == 0 {
        p
    } else {
        op_step(f, ops_step(f, p, ops, (n - 1) as nat), ops[n - 1])
    }
}

/// The facts after the operations of the first `n` blocks.
pub open spec fn blocks_step(f: LlvmFunction, p: Progress, n: nat) -> Progress
    decreases n,
{
    if n == 0 {
        p
    } else {
        let ops = f.blocks@[n - 1].ops@;
        ops_step(f, blocks_step(f, p, (n - 1) as nat), ops, ops.len())
    }
}

/// A jump into a block: where it comes from, and the arguments it passes.
pub struct Predecessor {
    pub block: usize,
    pub args: Vec<Value>,
}

/// The jumps into each block.
pub type PredecessorMap = Vec<Vec<Predecessor>>;

/// The facts after the first `n` predecessors have passed argument `arg_idx`.
pub open spec fn preds_step(
    p: Progress,
    arg: Value,
    arg_idx: int,
    preds: Seq<Predecessor>,
    n: nat,
) -> Progress
    decreases n,
{
    if n == 0 {
        p
    } else {
        let q = preds_step(p, arg, arg_idx, preds, (n - 1) as nat);
        let args = preds[n - 1].args@;
        if arg_idx < args.len() {
            unify(q, args[arg_idx], arg)
        } else {
            q
        }
    }
}

/// The facts after the predecessors have passed the first `n` arguments.
pub open spec fn args_step(
    p: Progress,
    args: Seq<Value>,
    preds: Seq<Predecessor>,
    n: nat,
) -> Progress
    decreases n,
{
    if n == 0 {
        p
    } else {
        preds_step(
            args_step(p, args, preds, (n - 1) as nat),
            args[n - 1],
            n - 1,
            preds,
            preds.len(),
        )
    }
}

/// The facts after the arguments of the first `n` blocks have been passed.
pub open spec fn phis_step(
    f: LlvmFunction,
    preds: Seq<Vec<Predecessor>>,
    p: Progress,
    n: nat,
) -> Progress
    decreases n,
{
    if n == 0 {
        p
    } else {
        let args = f.blocks@[n - 1].args@;
        args_step(
            phis_step(f, preds, p, (n - 1) as nat),
            args,
            preds[n - 1]@,
            args.len(),
        )
    }
}

/// One round: arguments first, then operations.
pub open spec fn round(f: LlvmFunction, preds: Seq<Vec<Predecessor>>, facts: Facts) -> Progress {
    let n = f.blocks@.len();
    blocks_step(f, phis_step(f, preds, Progress { facts, changed: false }, n), n)
}

/// At most `n` rounds, until one changes nothing.
pub open spec fn rounds(
    f: LlvmFunction,
    preds: Seq<Vec<Predecessor>>,
    facts: Facts,
    n: nat,
) -> Facts
    decreases n,
{
    if n == 0 {
        facts
    } else {
        let p = round(f, preds, facts);
        if p.changed {
            rounds(f, preds, p.facts, (n - 1) as nat)
        } else {
            p.facts
        }
    }
}

/// The facts after what their types say of the first `n` values of a list.
pub open spec fn seed_values(f: LlvmFunction, p: Progress, values: Seq<Value>, n: nat) -> Progress
    decreases n,
{
    if n == 0 {
        p
    } else {
        put(
            seed_values(f, p, values, (n - 1) as nat),
            values[n - 1],
            from_llvm(f.type_of(values[n - 1])),
        )
    }
}

/// The facts after what their types say of the results of the first `n`
/// operations.
pub open spec fn seed_ops(f: LlvmFunction, p: Progress, ops: Seq<LlvmOp>, n: nat) -> Progress
    decreases n,
{
    if n == 0 {
        p
    } else {
        let results = op_results(ops[n - 1]);
        seed_values(f, seed_ops(f, p, ops, (n - 1) as nat), results, results.len())
    }
}

/// The facts after what their types say of the values of the first `n` blocks.
pub open spec fn seed_blocks(f: LlvmFunction, p: Progress, n: nat) -> Progress
    decreases n,
{
    if n == 0 {
        p
    } else {
        let block = f.blocks@[n - 1];
        let q = seed_values(
            f,
            seed_blocks(f, p, (n - 1) as nat),
            block.args@,
            block.args@.len(),
        );
        seed_ops(f, q, block.ops@, block.ops@.len())
    }
}

// ---------------------------------------------------------------------------
// The analysis
// ---------------------------------------------------------------------------

/// The facts of a running analysis, and whether any changed.
struct Run {
    facts: ValueFacts,
    changed: bool,
}

impl View for Run {
    type V = Progress;

    closed spec fn view(&self) -> Progress {
        Progress { facts: self.facts@, changed: self.changed }
    }
}

/// Merges `fact` into what is known of `value`.
fn set_fact(run: &mut Run, value: Value, fact: LegacyType)
    ensures
        final(run)@ == put(old(run)@, value, fact@),
{
    let updated = match run.facts.get(value) {
        Some(existing) => {
            let merged = existing.merge(&fact);
            if existing.same(&merged) {
                return;
            }
            merged
        },
        None => fact,
    };
    run.facts.insert(value, updated);
    run.changed = true;
}

/// A copy of what is known of `value`.
fn known(run: &Run, value: Value) -> (fact: Option<LegacyType>)
    ensures
        match fact {
            Some(t) => fact_of(run@, value) == Some(t@),
            None => fact_of(run@, value) is None,
        },
{
    match run.facts.get(value) {
        Some(t) => Some(t.clone()),
        None => None,
    }
}

/// A copy of what is known of `value`, or else what its type says.
fn known_or_type(f: &LlvmFunction, run: &Run, value: Value) -> (fact: LegacyType)
    requires
        value < f.value_types@.len(),
    ensures
        fact@ == fact_or_type(*f, run@, value),
{
    match run.facts.get(value) {
        Some(t) => t.clone(),
        None => LegacyType::from_llvm_type(&f.value_types[value]),
    }
}

/// A copy of what `ptr` is known to point to.
fn known_pointee(run: &Run, ptr: Value) -> (fact: Option<LegacyType>)
    ensures
        match fact {
            Some(t) => pointee_of(fact_of(run@, ptr)) == Some(t@),
            None => pointee_of(fact_of(run@, ptr)) is None,
        },
{
    match run.facts.get(ptr) {
        Some(t) => match t.as_pointer() {
            Some((_, Some(pointee))) => Some(pointee.clone()),
            _ => None,
        },
        None => None,
    }
}

fn propagate_load_like(f: &LlvmFunction, ptr: Value, res: Value, run: &mut Run)
    requires
        ptr < f.value_types@.len(),
        res < f.value_types@.len(),
    ensures
        final(run)@ == load_like(*f, old(run)@, ptr, res),
{
    let result_fact = known_or_type(f, run, res);
    let addrspace: u32 = addrspace_of_type(&f.value_types[ptr]);
    set_fact(run, ptr, LegacyType::pointer_to(result_fact, addrspace));
    if let Some(pointee) = known_pointee(run, ptr) {
        set_fact(run, res, pointee);
    }
}

fn propagate_store_like(f: &LlvmFunction, ptr: Value, val: Value, run: &mut Run)
    requires
        ptr < f.value_types@.len(),
        val < f.value_types@.len(),
    ensures
        final(run)@ == store_like(*f, old(run)@, ptr, val),
{
    let val_fact = known_or_type(f, run, val);
    let addrspace: u32 = addrspace_of_type(&f.value_types[ptr]);
    set_fact(run, ptr, LegacyType::pointer_to(val_fact, addrspace));
}

fn propagate_gep(
    f: &LlvmFunction,
    ptr: Value,
    res: Value,
    src_elem_ty: &LlvmType,
    indices: &Vec<GepIndex>,
    run: &mut Run,
)
    requires
        ptr < f.value_types@.len(),
    ensures
        final(run)@ == gep_step(*f, old(run)@, ptr, res, src_elem_ty@, indices@),
{
    let src_elem = match known_pointee(run, ptr) {
        Some(t) => t,
        None => LegacyType::from_llvm_type(src_elem_ty),
    };
    let addrspace: u32 = addrspace_of_type(&f.value_types[ptr]);
    set_fact(run, ptr, LegacyType::pointer_to(src_elem.clone(), addrspace));
    let mut const_indices: Vec<Option<u32>> = Vec::new();
    let mut i: usize = 0;
    while i < indices.len()
        invariant
            i <= indices@.len(),
            const_indices@ == constant_indices(indices@).take(i as int),
        decreases indices@.len() - i,
    {
        match &indices[i] {
            GepIndex::Constant(c) => const_indices.push(Some(*c)),
            GepIndex::OperandIdx(_) => const_indices.push(None),
        }
        i = i + 1;
        assert(const_indices@ =~= constant_indices(indices@).take(i as int));
    }
    assert(const_indices@ =~= constant_indices(indices@));
    let result_pointee = src_elem.gep_indexed_pointee(indices.len(), &const_indices);
    set_fact(run, res, LegacyType::pointer_to(result_pointee, addrspace));
}

/// Whether a type is a pointer.
fn is_pointer(ty: &LlvmType) -> (yes: bool)
    ensures
        yes == (ty@ is Pointer),
{
    match ty {
        LlvmType::Pointer { .. } => true,
        _ => false,
    }
}

fn propagate_pointer_cast(
    f: &LlvmFunction,
    val: Value,
    res: Value,
    update_addrspace: bool,
    run: &mut Run,
)
    requires
        val < f.value_types@.len(),
        res < f.value_types@.len(),
    ensures
        final(run)@ == cast_step(*f, old(run)@, val, res, update_addrspace),
{
    let src_as: u32 = addrspace_of_type(&f.value_types[val]);
    let dst_as: u32 = addrspace_of_type(&f.value_types[res]);
    if !is_pointer(&f.value_types[val]) || !is_pointer(&f.value_types[res]) {
        return;
    }
    if let Some(src) = known(run, val) {
        let fact = if update_addrspace {
            src.with_addrspace(dst_as)
        } else {
            src
        };
        set_fact(run, res, fact);
    }
    if let Some(dst) = known(run, res) {
        let fact = if update_addrspace {
            dst.with_addrspace(src_as)
        } else {
            dst
        };
        set_fact(run, val, fact);
    }
}

fn unify_values(a: Value, b: Value, run: &mut Run)
    ensures
        final(run)@ == unify(old(run)@, a, b),
{
    if let Some(fact) = known(run, a) {
        set_fact(run, b, fact);
    }
    if let Some(fact) = known(run, b) {
        set_fact(run, a, fact);
    }
}

fn propagate_op(f: &LlvmFunction, op: &LlvmOp, run: &mut Run)
    requires
        op_wf(*op, f.value_types@.len(), f.blocks@.len()),
    ensures
        final(run)@ == op_step(*f, old(run)@, *op),
{
    proof {
        let n = f.value_types@.len();
        assert(forall|i: int|
            0 <= i < op_results(*op).len() ==> #[trigger] op_results(*op)[i] < n);
        assert(forall|i: int|
            0 <= i < op_operands(*op).len() ==> #[trigger] op_operands(*op)[i] < n);
        assert(op_results(*op).len() > 0 ==> op_results(*op)[0] < n);
        assert(op_operands(*op).len() > 0 ==> op_operands(*op)[0] < n);
        assert(op_operands(*op).len() > 1 ==> op_operands(*op)[1] < n);
    }
    match op {
        LlvmOp::Load { ptr, res } => propagate_load_like(f, *ptr, *res, run),
        LlvmOp::Store { val, ptr } => propagate_store_like(f, *ptr, *val, run),
        LlvmOp::Alloca { res, elem_ty } => set_fact(
            run,
            *res,
            LegacyType::pointer_to_llvm(elem_ty, 0),
        ),
        LlvmOp::GetElementPtr { ptr, res, src_elem_ty, gep_indices } => propagate_gep(
            f,
            *ptr,
            *res,
            src_elem_ty,
            gep_indices,
            run,
        ),
        LlvmOp::AtomicLoad { ptr, res } => propagate_load_like(f, *ptr, *res, run),
        LlvmOp::AtomicStore { val, ptr } => propagate_store_like(f, *ptr, *val, run),
        LlvmOp::AtomicRmw { ptr, val, res } => {
            propagate_store_like(f, *ptr, *val, run);
            propagate_load_like(f, *ptr, *res, run);
        },
        LlvmOp::AtomicCompareExchange { ptr, expected, .. } => propagate_store_like(
            f,
            *ptr,
            *expected,
            run,
        ),
        LlvmOp::Bitcast { val, res } => propagate_pointer_cast(f, *val, *res, false, run),
        LlvmOp::AddrSpaceCast { val, res } => propagate_pointer_cast(f, *val, *res, true, run),
        LlvmOp::IntToPtr { res, .. } => {
            let addrspace: u32 = addrspace_of_type(&f.value_types[*res]);
            set_fact(run, *res, LegacyType::unknown_pointer(addrspace));
        },
        LlvmOp::Select { true_val, false_val, res, .. } => {
            unify_values(*res, *true_val, run);
            unify_values(*res, *false_val, run);
        },
        LlvmOp::ExtractValue { agg, res, indices } => {
            if let Some(agg_fact) = known(run, *agg) {
                if let Some(field_fact) = agg_fact.indexed(indices) {
                    set_fact(run, *res, field_fact);
                }
            }
        },
        LlvmOp::InsertValue { agg, val, res, indices } => {
            let agg_fact = known_or_type(f, run, *agg);
            let val_fact = known_or_type(f, run, *val);
            if let Some(result_fact) = agg_fact.with_indexed(indices, val_fact) {
                set_fact(run, *res, result_fact);
            }
        },
        LlvmOp::Call { ret_ty, res, .. } => match ret_ty {
            LlvmType::Void => {},
            _ => set_fact(run, *res, LegacyType::from_llvm_type(ret_ty)),
        },
        _ => {},
    }
}

/// Merges in what the operations of the function say of its values; whether
/// anything changed.
pub fn propagate_op_facts(f: &LlvmFunction, facts: &mut ValueFacts) -> (changed: bool)
    requires
        f.wf(),
    ensures
        (Progress { facts: final(facts)@, changed }) == blocks_step(
            *f,
            Progress { facts: old(facts)@, changed: false },
            f.blocks@.len(),
        ),
{
    let mut run = Run { facts: ValueFacts::new(), changed: false };
    std::mem::swap(&mut run.facts, facts);
    let ghost start = run@;
    let mut b: usize = 0;
    while b < f.blocks.len()
        invariant
            b <= f.blocks@.len(),
            f.wf(),
            run@ == blocks_step(*f, start, b as nat),
        decreases f.blocks@.len() - b,
    {
        let ops = &f.blocks[b].ops;
        let ghost before = run@;
        assert(block_wf(f.blocks@[b as int], f.value_types@.len(), f.blocks@.len()));
        let mut i: usize = 0;
        while i < ops.len()
            invariant
                i <= ops@.len(),
                ops == f.blocks@[b as int].ops,
                block_wf(f.blocks@[b as int], f.value_types@.len(), f.blocks@.len()),
                run@ == ops_step(*f, before, ops@, i as nat),
            decreases ops@.len() - i,
        {
            assert(op_wf(ops@[i as int], f.value_types@.len(), f.blocks@.len()));
            propagate_op(f, &ops[i], &mut run);
            i = i + 1;
        }
        b = b + 1;
    }
    std::mem::swap(&mut run.facts, facts);
    run.changed
}

fn propagate_arg(arg: Value, arg_idx: usize, preds: &Vec<Predecessor>, run: &mut Run)
    ensures
        final(run)@ == preds_step(old(run)@, arg, arg_idx as int, preds@, preds@.len()),
{
    let ghost start = run@;
    let mut i: usize = 0;
    while i < preds.len()
        invariant
            i <= preds@.len(),
            run@ == preds_step(start, arg, arg_idx as int, preds@, i as nat),
        decreases preds@.len() - i,
    {
        let pred_args = &preds[i].args;
        if arg_idx < pred_args.len() {
            unify_values(pred_args[arg_idx], arg, run);
        }
        i = i + 1;
    }
}

/// Merges in what the arguments of jumps say of the arguments of the blocks
/// they jump to, and the other way round; whether anything changed.
pub fn propagate_phi_facts(
    f: &LlvmFunction,
    pred_map: &PredecessorMap,
    facts: &mut ValueFacts,
) -> (changed: bool)
    requires
        pred_map@.len() == f.blocks@.len(),
    ensures
        (Progress { facts: final(facts)@, changed }) == phis_step(
            *f,
            pred_map@,
            Progress { facts: old(facts)@, changed: false },
            f.blocks@.len(),
        ),
{
    let mut run = Run { facts: ValueFacts::new(), changed: false };
    std::mem::swap(&mut run.facts, facts);
    let ghost start = run@;
    let mut b: usize = 0;
    while b < f.blocks.len()
        invariant
            b <= f.blocks@.len(),
            pred_map@.len() == f.blocks@.len(),
            run@ == phis_step(*f, pred_map@, start, b as nat),
        decreases f.blocks@.len() - b,
    {
        let args = &f.blocks[b].args;
        let preds = &pred_map[b];
        let ghost before = run@;
        let mut i: usize = 0;
        while i < args.len()
            invariant
                i <= args@.len(),
                run@ == args_step(before, args@, preds@, i as nat),
            decreases args@.len() - i,
        {
            propagate_arg(args[i], i, preds, &mut run);
            i = i + 1;
        }
        b = b + 1;
    }
    std::mem::swap(&mut run.facts, facts);
    run.changed
}

fn seed_value_types(f: &LlvmFunction, values: &Vec<Value>, run: &mut Run)
    requires
        typed_values(values@, f.value_types@.len()),
    ensures
        final(run)@ == seed_values(*f, old(run)@, values@, values@.len()),
{
    let ghost start = run@;
    let mut i: usize = 0;
    while i < values.len()
        invariant
            i <= values@.len(),
            typed_values(values@, f.value_types@.len()),
            run@ == seed_values(*f, start, values@, i as nat),
        decreases values@.len() - i,
    {
        assert(values@[i as int] < f.value_types@.len());
        set_fact(run, values[i], LegacyType::from_llvm_type(&f.value_types[values[i]]));
        i = i + 1;
    }
}

/// The results of an operation.
fn results_of(op: &LlvmOp) -> (results: Vec<Value>)
    ensures
        results@ == op_results(*op),
{
    match op {
        LlvmOp::Load { res, .. }
        | LlvmOp::Alloca { res, .. }
        | LlvmOp::GetElementPtr { res, .. }
        | LlvmOp::AtomicLoad { res, .. }
        | LlvmOp::AtomicRmw { res, .. }
        | LlvmOp::AtomicCompareExchange { res, .. }
        | LlvmOp::Bitcast { res, .. }
        | LlvmOp::AddrSpaceCast { res, .. }
        | LlvmOp::IntToPtr { res, .. }
        | LlvmOp::Select { res, .. }
        | LlvmOp::ExtractValue { res, .. }
        | LlvmOp::InsertValue { res, .. }
        | LlvmOp::Call { res, .. } => vec![*res],
        LlvmOp::Other { results } => results.clone(),
        LlvmOp::Store { .. }
        | LlvmOp::AtomicStore { .. }
        | LlvmOp::Br { .. }
        | LlvmOp::CondBr { .. } => Vec::new(),
    }
}

/// Merges in what the type of each block argument and each result says.
pub fn seed_function_values(f: &LlvmFunction, facts: &mut ValueFacts)
    requires
        f.wf(),
    ensures
        final(facts)@ == seed_blocks(
            *f,
            Progress { facts: old(facts)@, changed: false },
            f.blocks@.len(),
        ).facts,
{
    let mut run = Run { facts: ValueFacts::new(), changed: false };
    std::mem::swap(&mut run.facts, facts);
    let ghost start = run@;
    let mut b: usize = 0;
    while b < f.blocks.len()
        invariant
            b <= f.blocks@.len(),
            f.wf(),
            run@ == seed_blocks(*f, start, b as nat),
        decreases f.blocks@.len() - b,
    {
        let block = &f.blocks[b];
        assert(block_wf(f.blocks@[b as int], f.value_types@.len(), f.blocks@.len()));
        seed_value_types(f, &block.args, &mut run);
        let ghost before = run@;
        let mut i: usize = 0;
        while i < block.ops.len()
            invariant
                i <= block.ops@.len(),
                block_wf(*block, f.value_types@.len(), f.blocks@.len()),
                run@ == seed_ops(*f, before, block.ops@, i as nat),
            decreases block.ops@.len() - i,
        {
            assert(op_wf(block.ops@[i as int], f.value_types@.len(), f.blocks@.len()));
            let results = results_of(&block.ops[i]);
            seed_value_types(f, &results, &mut run);
            i = i + 1;
        }
        b = b + 1;
    }
    std::mem::swap(&mut run.facts, facts);
}

// ---------------------------------------------------------------------------
// Jumps and labels
// ---------------------------------------------------------------------------

/// What a [`Predecessor`] says.
#[verifier::ext_equal]
pub struct Edge {
    pub block: usize,
    pub args: Seq<Value>,
}

/// What a list of predecessors says.
pub open spec fn edges(preds: Seq<Predecessor>) -> Seq<Edge> {
    Seq::new(preds.len(), |i: int| Edge { block: preds[i].block, args: preds[i].args@ })
}

/// What a predecessor map says.
pub open spec fn edge_lists(map: Seq<Vec<Predecessor>>) -> Seq<Seq<Edge>> {
    Seq::new(map.len(), |i: int| edges(map[i]@))
}

/// `lists` with `edge` appended to the list of block `dest`.
pub open spec fn with_edge(lists: Seq<Seq<Edge>>, dest: usize, edge: Edge) -> Seq<Seq<Edge>> {
    lists.update(dest as int, lists[dest as int].push(edge))
}

/// `lists` with the jumps of block `b` appended. A conditional jump with too
/// few operands for the arguments of its destinations is left out.
pub open spec fn with_jumps(f: LlvmFunction, lists: Seq<Seq<Edge>>, b: int) -> Seq<Seq<Edge>> {
    let ops = f.blocks@[b].ops@;
    if ops.len() == 0 {
        lists
    } else {
        match ops.last() {
            LlvmOp::Br { dest, args } => with_edge(
                lists,
                dest,
                Edge { block: b as usize, args: args@ },
            ),
            LlvmOp::CondBr { true_dest, false_dest, operands } => {
                let num_true = f.blocks@[true_dest as int].args@.len();
                let num_false = f.blocks@[false_dest as int].args@.len();
                if operands@.len() >= 1 + num_true + num_false {
                    with_edge(
                        with_edge(
                            lists,
                            true_dest,
                            Edge {
                                block: b as usize,
                                args: operands@.subrange(1, 1 + num_true as int),
                            },
                        ),
                        false_dest,
                        Edge {
                            block: b as usize,
                            args: operands@.subrange(
                                1 + num_true as int,
                                1 + num_true + num_false as int,
                            ),
                        },
                    )
                } else {
                    lists
                }
            },
            _ => lists,
        }
    }
}

/// The jumps of the first `n` blocks, by destination.
pub open spec fn jumps(f: LlvmFunction, n: nat) -> Seq<Seq<Edge>>
    decreases n,
{
    if n == 0 {
        Seq::new(f.blocks@.len(), |i: int| Seq::empty())
    } else {
        with_jumps(f, jumps(f, (n - 1) as nat), n - 1)
    }
}

/// Appends a jump from `block` to the list of block `dest`.
fn push_edge(map: &mut PredecessorMap, dest: usize, block: usize, args: Vec<Value>)
    requires
        dest < old(map)@.len(),
    ensures
        edge_lists(final(map)@) == with_edge(
            edge_lists(old(map)@),
            dest,
            Edge { block, args: args@ },
        ),
{
    let ghost before = map@;
    let mut list: Vec<Predecessor> = Vec::new();
    std::mem::swap(&mut list, &mut map[dest]);
    let ghost preds = list@;
    list.push(Predecessor { block, args });
    assert(edges(list@) =~= edges(preds).push(Edge { block, args: args@ }));
    std::mem::swap(&mut list, &mut map[dest]);
    assert(edge_lists(map@) =~= with_edge(edge_lists(before), dest, Edge { block, args: args@ }));
}

/// The values at positions `from..to`.
fn slice_of(values: &Vec<Value>, from: usize, to: usize) -> (part: Vec<Value>)
    requires
        from <= to <= values@.len(),
    ensures
        part@ == values@.subrange(from as int, to as int),
{
    let mut part: Vec<Value> = Vec::new();
    let mut i: usize = from;
    while i < to
        invariant
            from <= i <= to <= values@.len(),
            part@ == values@.subrange(from as int, i as int),
        decreases to - i,
    {
        part.push(values[i]);
        i = i + 1;
        assert(part@ =~= values@.subrange(from as int, i as int));
    }
    part
}

proof fn lemma_jumps_len(f: LlvmFunction, n: nat)
    requires
        f.wf(),
        n <= f.blocks@.len(),
    ensures
        jumps(f, n).len() == f.blocks@.len(),
    decreases n,
{
    if n > 0 {
        lemma_jumps_len(f, (n - 1) as nat);
        let block = f.blocks@[n - 1];
        assert(block_wf(block, f.value_types@.len(), f.blocks@.len()));
        if block.ops@.len() > 0 {
            assert(op_wf(
                block.ops@[block.ops@.len() - 1],
                f.value_types@.len(),
                f.blocks@.len(),
            ));
        }
    }
}

/// The jumps into each block, with the arguments each passes.
pub fn build_predecessor_map(f: &LlvmFunction) -> (pred_map: PredecessorMap)
    requires
        f.wf(),
    ensures
        edge_lists(pred_map@) == jumps(*f, f.blocks@.len()),
{
    let mut map: PredecessorMap = Vec::new();
    let mut k: usize = 0;
    while k < f.blocks.len()
        invariant
            k <= f.blocks@.len(),
            map@.len() == k,
            forall|i: int| 0 <= i < k ==> (#[trigger] map@[i])@.len() == 0,
        decreases f.blocks@.len() - k,
    {
        map.push(Vec::new());
        k = k + 1;
    }
    assert(edge_lists(map@) =~= jumps(*f, 0)) by {
        assert forall|i: int| 0 <= i < map@.len() implies edges(#[trigger] map@[i]@)
            =~= Seq::<Edge>::empty() by {}
    }
    let mut b: usize = 0;
    while b < f.blocks.len()
        invariant
            b <= f.blocks@.len(),
            f.wf(),
            map@.len() == f.blocks@.len(),
            edge_lists(map@) == jumps(*f, b as nat),
        decreases f.blocks@.len() - b,
    {
        let ops = &f.blocks[b].ops;
        assert(block_wf(f.blocks@[b as int], f.value_types@.len(), f.blocks@.len()));
        proof {
            lemma_jumps_len(*f, (b + 1) as nat);
        }
        if ops.len() > 0 {
            assert(op_wf(ops@[ops@.len() - 1], f.value_types@.len(), f.blocks@.len()));
            match &ops[ops.len() - 1] {
                LlvmOp::Br { dest, args } => {
                    push_edge(&mut map, *dest, b, args.clone());
                },
                LlvmOp::CondBr { true_dest, false_dest, operands } => {
                    let num_true: usize = f.blocks[*true_dest].args.len();
                    let num_false: usize = f.blocks[*false_dest].args.len();
                    let all: usize = operands.len();
                    if all > num_true && all - 1 - num_true >= num_false {
                        let true_args = slice_of(operands, 1, 1 + num_true);
                        let false_args = slice_of(
                            operands,
                            1 + num_true,
                            1 + num_true + num_false,
                        );
                        push_edge(&mut map, *true_dest, b, true_args);
                        assert(edge_lists(map@).len() == f.blocks@.len());
                        push_edge(&mut map, *false_dest, b, false_args);
                    }
                },
                _ => {},
            }
        }
        b = b + 1;
        assert(edge_lists(map@).len() == f.blocks@.len());
    }
    map
}

/// The label of block `i`: `entry` for the first, then `bb0`, `bb1`, ...
pub open spec fn block_label(i: int) -> Seq<char> {
    if i == 0 {
        "entry"@
    } else {
        "bb"@ + decimal((i - 1) as nat)
    }
}

/// The label of each block.
pub fn build_block_labels(f: &LlvmFunction) -> (labels: Vec<String>)
    ensures
        labels@.len() == f.blocks@.len(),
        forall|i: int| 0 <= i < labels@.len() ==> (#[trigger] labels@[i])@ == block_label(i),
{
    let mut labels: Vec<String> = Vec::new();
    let mut i: usize = 0;
    while i < f.blocks.len()
        invariant
            i <= f.blocks@.len(),
            labels@.len() == i,
            forall|k: int| 0 <= k < i ==> (#[trigger] labels@[k])@ == block_label(k),
        decreases f.blocks@.len() - i,
    {
        if i == 0 {
            labels.push(String::from_str("entry"));
        } else {
            let mut label = String::from_str("bb");
            push_decimal(&mut label, (i - 1) as u64);
            labels.push(label);
        }
        i = i + 1;
    }
    labels
}

// ---------------------------------------------------------------------------
// Laws
// ---------------------------------------------------------------------------

/// No two blocks have the same label.
pub proof fn law_block_labels_distinct(i: int, j: int)
    requires
        0 <= i < j,
    ensures
        block_label(i) != block_label(j),
{
    reveal_strlit("entry");
    reveal_strlit("bb");
    if i == 0 {
        assert(block_label(i)[0] == 'e');
        assert(block_label(j)[0] == 'b');
    } else if block_label(i) == block_label(j) {
        assert(block_label(i).skip(2) =~= decimal((i - 1) as nat));
        assert(block_label(j).skip(2) =~= decimal((j - 1) as nat));
        lemma_decimal_injective((i - 1) as nat, (j - 1) as nat);
    }
}

/// Whether `q` comes from `p` by merging facts in: no value is forgotten, a
/// change is never taken back, and without one the facts are the same.
pub open spec fn extends(p: Progress, q: Progress) -> bool {
    &&& p.facts.dom().subset_of(q.facts.dom())
    &&& p.changed ==> q.changed
    &&& !q.changed ==> q == p
}

pub(crate) proof fn lemma_unify_extends(p: Progress, a: Value, b: Value)
    ensures
        extends(p, unify(p, a, b)),
{
}

pub(crate) proof fn lemma_op_extends(f: LlvmFunction, p: Progress, op: LlvmOp)
    ensures
        extends(p, op_step(f, p, op)),
{
    match op {
        LlvmOp::Select { true_val, false_val, res, .. } => {
            lemma_unify_extends(p, res, true_val);
            lemma_unify_extends(unify(p, res, true_val), res, false_val);
        },
        _ => {},
    }
}

pub(crate) proof fn lemma_ops_extend(f: LlvmFunction, p: Progress, ops: Seq<LlvmOp>, n: nat)
    ensures
        extends(p, ops_step(f, p, ops, n)),
    decreases n,
{
    if n > 0 {
        lemma_ops_extend(f, p, ops, (n - 1) as nat);
        lemma_op_extends(f, ops_step(f, p, ops, (n - 1) as nat), ops[n - 1]);
    }
}

pub(crate) proof fn lemma_blocks_extend(f: LlvmFunction, p: Progress, n: nat)
    ensures
        extends(p, blocks_step(f, p, n)),
    decreases n,
{
    if n > 0 {
        lemma_blocks_extend(f, p, (n - 1) as nat);
        let ops = f.blocks@[n - 1].ops@;
        lemma_ops_extend(f, blocks_step(f, p, (n - 1) as nat), ops, ops.len());
    }
}

pub(crate) proof fn lemma_preds_extend(
    p: Progress,
    arg: Value,
    arg_idx: int,
    preds: Seq<Predecessor>,
    n: nat,
)
    ensures
        extends(p, preds_step(p, arg, arg_idx, preds, n)),
    decreases n,
{
    if n > 0 {
        lemma_preds_extend(p, arg, arg_idx, preds, (n - 1) as nat);
        let q = preds_step(p, arg, arg_idx, preds, (n - 1) as nat);
        lemma_unify_extends(q, preds[n - 1].args@[arg_idx], arg);
    }
}

pub(crate) proof fn lemma_args_extend(p: Progress, args: Seq<Value>, preds: Seq<Predecessor>, n: nat)
    ensures
        extends(p, args_step(p, args, preds, n)),
    decreases n,
{
    if n > 0 {
        lemma_args_extend(p, args, preds, (n - 1) as nat);
        lemma_preds_extend(
            args_step(p, args, preds, (n - 1) as nat),
            args[n - 1],
            n - 1,
            preds,
            preds.len(),
        );
    }
}

pub(crate) proof fn lemma_phis_extend(f: LlvmFunction, preds: Seq<Vec<Predecessor>>, p: Progress, n: nat)
    ensures
        extends(p, phis_step(f, preds, p, n)),
    decreases n,
{
    if n > 0 {
        lemma_phis_extend(f, preds, p, (n - 1) as nat);
        let args = f.blocks@[n - 1].args@;
        lemma_args_extend(
            phis_step(f, preds, p, (n - 1) as nat),
            args,
            preds[n - 1]@,
            args.len(),
        );
    }
}

/// Operations merge the same facts in whatever has changed before; a change
/// before is still one after.
pub proof fn lemma_flag_is_sticky(f: LlvmFunction, p: Progress, n: nat)
    ensures
        ({
            let q = blocks_step(f, p, n);
            let r = blocks_step(f, Progress { facts: p.facts, changed: false }, n);
            &&& q.facts == r.facts
            &&& q.changed == (p.changed || r.changed)
        }),
    decreases n,
{
    if n > 0 {
        let m = (n - 1) as nat;
        lemma_flag_is_sticky(f, p, m);
        let ops = f.blocks@[n - 1].ops@;
        let cold = Progress { facts: p.facts, changed: false };
        let q = blocks_step(f, p, m);
        let r = blocks_step(f, cold, m);
        lemma_ops_flag(f, q, ops, ops.len());
        lemma_ops_flag(f, r, ops, ops.len());
    }
}

proof fn lemma_ops_flag(f: LlvmFunction, p: Progress, ops: Seq<LlvmOp>, n: nat)
    ensures
        ({
            let q = ops_step(f, p, ops, n);
            let r = ops_step(f, Progress { facts: p.facts, changed: false }, ops, n);
            &&& q.facts == r.facts
            &&& q.changed == (p.changed || r.changed)
        }),
    decreases n,
{
    if n > 0 {
        lemma_ops_flag(f, p, ops, (n - 1) as nat);
        let q = ops_step(f, p, ops, (n - 1) as nat);
        let cold = Progress { facts: p.facts, changed: false };
        let r = ops_step(f, cold, ops, (n - 1) as nat);
        lemma_op_flag(f, q, ops[n - 1]);
        lemma_op_flag(f, r, ops[n - 1]);
    }
}

proof fn lemma_op_flag(f: LlvmFunction, p: Progress, op: LlvmOp)
    ensures
        ({
            let q = op_step(f, p, op);
            let r = op_step(f, Progress { facts: p.facts, changed: false }, op);
            &&& q.facts == r.facts
            &&& q.changed == (p.changed || r.changed)
        }),
{
}

/// A round that reports no change leaves the facts as they are, and no round
/// forgets a value.
pub proof fn law_quiet_round_changes_nothing(
    f: LlvmFunction,
    preds: Seq<Vec<Predecessor>>,
    facts: Facts,
)
    ensures
        !round(f, preds, facts).changed ==> round(f, preds, facts).facts == facts,
        facts.dom().subset_of(round(f, preds, facts).facts.dom()),
{
    let n = f.blocks@.len();
    let p = Progress { facts, changed: false };
    lemma_phis_extend(f, preds, p, n);
    lemma_blocks_extend(f, phis_step(f, preds, p, n), n);
}

/// Whether each of the first `n` rounds changes something.
pub open spec fn all_rounds_change(
    f: LlvmFunction,
    preds: Seq<Vec<Predecessor>>,
    facts: Facts,
    n: nat,
) -> bool
    decreases n,
{
    n == 0 || {
        let p = round(f, preds, facts);
        p.changed && all_rounds_change(f, preds, p.facts, (n - 1) as nat)
    }
}

/// The analysis ends at facts that another round would not change, unless the
/// rounds ran out while every one still changed something.
pub proof fn law_analysis_ends_at_fixed_point(
    f: LlvmFunction,
    preds: Seq<Vec<Predecessor>>,
    facts: Facts,
    n: nat,
)
    ensures
        all_rounds_change(f, preds, facts, n) || !round(
            f,
            preds,
            rounds(f, preds, facts, n),
        ).changed,
        facts.dom().subset_of(rounds(f, preds, facts, n).dom()),
    decreases n,
{
    if n > 0 {
        law_quiet_round_changes_nothing(f, preds, facts);
        let p = round(f, preds, facts);
        if p.changed {
            law_analysis_ends_at_fixed_point(f, preds, p.facts, (n - 1) as nat);
        }
    }
}

/// Merging the same fact in again changes nothing.
pub proof fn law_fact_counts_once(p: Progress, value: Value, fact: LegacyTy)
    ensures
        put(put(p, value, fact), value, fact) == put(p, value, fact),
{
    if p.facts.contains_key(value) {
        law_merge_absorbs(p.facts[value], fact);
    } else {
        law_merge_idempotent(fact);
    }
}

} // verus!
