//! What holds of the jumps between blocks and of their labels.

use vstd::prelude::*;

use crate::export::function::{block_wf, op_wf, LlvmFunction, LlvmOp};
use crate::export::pointer_facts::Value;
use crate::export::typed::{
    build_block_labels, build_predecessor_map, edge_lists, edges, jumps,
    law_block_labels_distinct, with_edge, with_jumps, Edge, PredecessorMap,
};
use crate::text::decimal;

verus! {

/// Whether block `b` ends in a jump to block `dest` that passes `args`. A
/// conditional jump passes the operands behind its condition: first those of
/// the true destination, as many as it has arguments, then those of the false
/// one.
pub open spec fn jumps_to(f: LlvmFunction, b: int, dest: int, args: Seq<Value>) -> bool {
    let ops = f.blocks@[b].ops@;
    &&& 0 <= b < f.blocks@.len()
    &&& ops.len() > 0
    &&& match ops.last() {
        LlvmOp::Br { dest: d, args: passed } => d == dest && args == passed@,
        LlvmOp::CondBr { true_dest, false_dest, operands } => {
            let num_true = f.blocks@[true_dest as int].args@.len() as int;
            let num_false = f.blocks@[false_dest as int].args@.len() as int;
            &&& operands@.len() >= 1 + num_true + num_false
            &&& (true_dest == dest && args == operands@.skip(1).take(num_true)) || (false_dest
                == dest && args == operands@.skip(1 + num_true).take(num_false))
        },
        _ => false,
    }
}

/// Whether block `b` ends in a conditional jump both of whose destinations are
/// block `dest`.
pub open spec fn jumps_twice_to(f: LlvmFunction, b: int, dest: int) -> bool {
    match f.blocks@[b].ops@.last() {
        LlvmOp::CondBr { true_dest, false_dest, .. } => true_dest == dest && false_dest == dest,
        _ => false,
    }
}

/// Whether the lists hold the jumps of the first `n` blocks and no others, in
/// the order of the blocks.
spec fn lists_jumps(f: LlvmFunction, lists: Seq<Seq<Edge>>, n: nat) -> bool {
    &&& lists.len() == f.blocks@.len()
    &&& forall|d: int, k: int|
        #![trigger lists[d][k]]
        0 <= d < lists.len() && 0 <= k < lists[d].len() ==> lists[d][k].block < n && jumps_to(
            f,
            lists[d][k].block as int,
            d,
            lists[d][k].args,
        )
    &&& forall|d: int, j: int, k: int|
        #![trigger lists[d][j], lists[d][k]]
        0 <= d < lists.len() && 0 <= j < k < lists[d].len() ==> lists[d][j].block
            < lists[d][k].block || (lists[d][j].block == lists[d][k].block && k == j + 1
            && jumps_twice_to(f, lists[d][k].block as int, d))
    &&& forall|b: int, d: int, args: Seq<Value>|
        0 <= b < n && 0 <= d < lists.len() && #[trigger] jumps_to(f, b, d, args)
            ==> lists[d].contains(Edge { block: b as usize, args })
}

proof fn lemma_block_number(f: LlvmFunction, b: int)
    requires
        0 <= b < f.blocks@.len(),
    ensures
        b as usize == b,
{
    assert(f.blocks@.len() == f.blocks.len());
}

proof fn lemma_contains_push(list: Seq<Edge>, edge: Edge, other: Edge)
    ensures
        list.contains(other) ==> list.push(edge).contains(other),
        list.push(edge).contains(edge),
{
    if list.contains(other) {
        let k = choose|k: int| 0 <= k < list.len() && list[k] == other;
        assert(list.push(edge)[k] == other);
    }
    assert(list.push(edge)[list.len() as int] == edge);
}

proof fn lemma_jumps_listed(f: LlvmFunction, n: nat)
    requires
        f.wf(),
        n <= f.blocks@.len(),
    ensures
        lists_jumps(f, jumps(f, n), n),
    decreases n,
{
    if n > 0 {
        let m = (n - 1) as nat;
        lemma_jumps_listed(f, m);
        lemma_block_number(f, m as int);
        let before = jumps(f, m);
        let after = jumps(f, n);
        assert(after == with_jumps(f, before, m as int));
        let block = f.blocks@[m as int];
        let ops = block.ops@;
        assert(block_wf(block, f.value_types@.len(), f.blocks@.len()));
        if ops.len() > 0 {
            assert(op_wf(ops[ops.len() - 1], f.value_types@.len(), f.blocks@.len()));
            match ops.last() {
                LlvmOp::Br { dest, args } => {
                    let e = Edge { block: m as usize, args: args@ };
                    assert(after == with_edge(before, dest, e));
                    assert forall|b: int, d: int, xs: Seq<Value>|
                        0 <= b < n && 0 <= d < after.len() && #[trigger] jumps_to(
                            f,
                            b,
                            d,
                            xs,
                        ) implies after[d].contains(Edge { block: b as usize, args: xs }) by {
                        lemma_contains_push(
                            before[d],
                            e,
                            Edge { block: b as usize, args: xs },
                        );
                    }
                },
                LlvmOp::CondBr { true_dest, false_dest, operands } => {
                    let nt = f.blocks@[true_dest as int].args@.len() as int;
                    let nf = f.blocks@[false_dest as int].args@.len() as int;
                    if operands@.len() >= 1 + nt + nf {
                        let et = Edge { block: m as usize, args: operands@.subrange(1, 1 + nt) };
                        let ef = Edge {
                            block: m as usize,
                            args: operands@.subrange(1 + nt, 1 + nt + nf),
                        };
                        assert(et.args =~= operands@.skip(1).take(nt));
                        assert(ef.args =~= operands@.skip(1 + nt).take(nf));
                        let mid = with_edge(before, true_dest, et);
                        assert(after == with_edge(mid, false_dest, ef));
                        assert forall|b: int, d: int, xs: Seq<Value>|
                            0 <= b < n && 0 <= d < after.len() && #[trigger] jumps_to(
                                f,
                                b,
                                d,
                                xs,
                            ) implies after[d].contains(Edge { block: b as usize, args: xs }) by {
                            let x = Edge { block: b as usize, args: xs };
                            lemma_contains_push(before[d], et, x);
                            lemma_contains_push(mid[d], ef, x);
                        }
                    }
                },
                _ => {},
            }
        }
    }
}

/// The predecessors of a block are the jumps that lead to it, each with the
/// block it comes from and the arguments it passes, in the order of the blocks.
/// Every jump is there, nothing else is, and a block is there twice only if it
/// ends in a conditional jump with that one destination.
pub proof fn law_predecessors_are_the_jumps(
    f: LlvmFunction,
    map: PredecessorMap,
    d: int,
)
    requires
        f.wf(),
        call_ensures(build_predecessor_map, (&f,), map),
        0 <= d < f.blocks@.len(),
    ensures
        map@.len() == f.blocks@.len(),
        forall|k: int|
            0 <= k < map@[d]@.len() ==> jumps_to(
                f,
                (#[trigger] map@[d]@[k]).block as int,
                d,
                map@[d]@[k].args@,
            ),
        forall|b: int, args: Seq<Value>| #[trigger]
            jumps_to(f, b, d, args) ==> exists|k: int|
                0 <= k < map@[d]@.len() && (#[trigger] map@[d]@[k]).block == b
                    && map@[d]@[k].args@ == args,
        forall|j: int, k: int|
            #![trigger map@[d]@[j], map@[d]@[k]]
            0 <= j < k < map@[d]@.len() ==> map@[d]@[j].block < map@[d]@[k].block || (
            map@[d]@[j].block == map@[d]@[k].block && k == j + 1 && jumps_twice_to(
                f,
                map@[d]@[k].block as int,
                d,
            )),
{
    let n = f.blocks@.len();
    lemma_jumps_listed(f, n);
    let lists = jumps(f, n);
    assert(edge_lists(map@) == lists);
    assert(map@.len() == lists.len());
    assert(edges(map@[d]@) == lists[d]);
    let preds = map@[d]@;
    assert forall|k: int| 0 <= k < preds.len() implies jumps_to(
        f,
        (#[trigger] preds[k]).block as int,
        d,
        preds[k].args@,
    ) by {
        assert(lists[d][k] == Edge { block: preds[k].block, args: preds[k].args@ });
    }
    assert forall|b: int, args: Seq<Value>| #[trigger] jumps_to(f, b, d, args) implies exists|
        k: int,
    |
        0 <= k < preds.len() && (#[trigger] preds[k]).block == b && preds[k].args@ == args by {
        lemma_block_number(f, b);
        let e = Edge { block: b as usize, args };
        assert(lists[d].contains(e));
        let k = choose|k: int| 0 <= k < lists[d].len() && lists[d][k] == e;
        assert(lists[d][k] == Edge { block: preds[k].block, args: preds[k].args@ });
        assert(preds[k].block == b);
    }
    assert forall|j: int, k: int| #![trigger preds[j], preds[k]] 0 <= j < k < preds.len() implies
        preds[j].block < preds[k].block || (preds[j].block == preds[k].block && k == j + 1
            && jumps_twice_to(f, preds[k].block as int, d)) by {
        assert(lists[d][j].block == preds[j].block);
        assert(lists[d][k].block == preds[k].block);
    }
}

/// The arguments of a jump are as many as those of the block it leads to, if
/// it is a conditional one.
pub proof fn law_conditional_jumps_fill_arguments(
    f: LlvmFunction,
    b: int,
    dest: int,
    args: Seq<Value>,
)
    requires
        jumps_to(f, b, dest, args),
        f.blocks@[b].ops@.last() is CondBr,
    ensures
        args.len() == f.blocks@[dest].args@.len(),
{
}

/// Every block has a label, the first one `entry`, the others `bb` and a number
/// that counts from 0; no two blocks share one.
pub proof fn law_labels_name_blocks(f: LlvmFunction, labels: Vec<String>, i: int, j: int)
    requires
        call_ensures(build_block_labels, (&f,), labels),
        0 <= i < j < f.blocks@.len(),
    ensures
        labels@.len() == f.blocks@.len(),
        labels@[0]@ == "entry"@,
        labels@[j]@ == seq!['b', 'b'] + decimal((j - 1) as nat),
        labels@[i]@ != labels@[j]@,
{
    reveal_strlit("bb");
    assert("bb"@ =~= seq!['b', 'b']);
    law_block_labels_distinct(i, j);
}

} // verus!
