//! What holds of the address spaces that are inferred for a body.

use vstd::prelude::*;

use crate::importer::body::{
    BasicBlock, Body, ConstOperand, ConstantKind, GlobalAlloc, Local, Operand, Place, RustTy,
    Rvalue, Statement, Terminator,
};
use crate::importer::slot_spaces::{
    after_pass, after_passes, after_writes, all_not_below, block_writes, call_class,
    classify_call, classify_constant, classify_rvalue, constant_class, inferred,
    is_constant_wrapper_type, law_classified_writes_agree, lemma_passes_len,
    lemma_writes_monotone, no_classes, not_below, pass_limit, resolve, statement_write,
    terminator_write, write_class, writes_of, SlotAddrSpace, SlotAddrSpaceMap, Source, Write,
    WriteClass, CONSTANT, GENERIC, GLOBAL, SHARED,
};
use crate::text::occurs_in;

verus! {

/// The address spaces have the numbers that the NVPTX target gives them.
pub proof fn law_address_space_numbers()
    ensures
        GENERIC == 0,
        GLOBAL == 1,
        SHARED == 3,
        CONSTANT == 4,
{
}

/// Whether a type is an ADT with this name, whatever its crate.
pub open spec fn named(ty: RustTy, name: Seq<char>) -> bool {
    ty is Adt && ty->trimmed_name@ == name
}

/// What a pointer or a reference points to.
pub open spec fn target_of(ty: RustTy) -> Option<RustTy> {
    match ty {
        RustTy::RawPtr(t) => Some(*t),
        RustTy::Ref(t) => Some(*t),
        _ => None,
    }
}

/// Whether a constant is a pointer to a static of type `static_ty`: its first
/// provenance is one, and it is not known to be null.
pub open spec fn points_to_static(kind: ConstantKind, static_ty: RustTy) -> bool {
    &&& kind is Allocated
    &&& kind->is_null != Some(true)
    &&& kind->first_provenance == Some(GlobalAlloc::Static(static_ty))
}

/// A constant that points to a static is a pointer into constant memory where
/// the static is a `cuda_device::ConstantMemory`, and into global memory where
/// it is anything else, unless its type says shared memory.
pub proof fn law_pointers_to_statics(c: ConstOperand, static_ty: RustTy, class: WriteClass)
    requires
        call_ensures(classify_constant, (&c,), class),
        c.ty is RawPtr || c.ty is Ref,
        !named(target_of(c.ty)->0, "SharedArray"@),
        !named(target_of(c.ty)->0, "Barrier"@),
        points_to_static(c.kind, static_ty),
    ensures
        named(static_ty, "ConstantMemory"@) && static_ty->krate@ == "cuda_device"@ ==> class
            == WriteClass::Classified(CONSTANT),
        !(named(static_ty, "ConstantMemory"@) && static_ty->krate@ == "cuda_device"@) ==> class
            == WriteClass::Classified(GLOBAL),
{
}

/// A raw pointer and a reference to the same thing have the same class.
pub proof fn law_pointers_and_references_alike(
    target: RustTy,
    kind: ConstantKind,
    raw: WriteClass,
    reference: WriteClass,
)
    requires
        call_ensures(
            classify_constant,
            (&ConstOperand { ty: RustTy::RawPtr(Box::new(target)), kind },),
            raw,
        ),
        call_ensures(
            classify_constant,
            (&ConstOperand { ty: RustTy::Ref(Box::new(target)), kind },),
            reference,
        ),
    ensures
        raw == reference,
{
}

/// A constant is a pointer into shared memory exactly where its type is a
/// pointer to a `SharedArray` or a `Barrier`, whatever its value.
pub proof fn law_shared_constants(c: ConstOperand, class: WriteClass)
    requires
        call_ensures(classify_constant, (&c,), class),
    ensures
        class == WriteClass::Classified(SHARED) <==> target_of(c.ty) is Some && (named(
            target_of(c.ty)->0,
            "SharedArray"@,
        ) || named(target_of(c.ty)->0, "Barrier"@)),
{
}

/// Nothing is known of a constant that is no pointer, nor, outside of shared
/// memory, of one that is null or that points to no static.
pub proof fn law_other_constants_are_unclassified(c: ConstOperand, class: WriteClass)
    requires
        call_ensures(classify_constant, (&c,), class),
    ensures
        target_of(c.ty) is None ==> class == WriteClass::Unclassified,
        class != WriteClass::Classified(SHARED) && !(c.kind is Allocated && c.kind->is_null
            != Some(true) && c.kind->first_provenance is Some && c.kind->first_provenance->0
            is Static) ==> class == WriteClass::Unclassified,
        class == WriteClass::Unclassified || class == WriteClass::Classified(SHARED) || class
            == WriteClass::Classified(GLOBAL) || class == WriteClass::Classified(CONSTANT),
{
}

/// Only `ConstantMemory` of `cuda_device` is the constant wrapper: neither a
/// type of that name elsewhere nor another type of that crate.
pub proof fn law_constant_wrapper(ty: RustTy, yes: bool)
    requires
        call_ensures(is_constant_wrapper_type, (&ty,), yes),
    ensures
        yes <==> named(ty, "ConstantMemory"@) && ty->krate@ == "cuda_device"@,
{
}

/// The function that an operand names.
pub open spec fn function_operand(name: String, substs: String) -> Operand {
    Operand::Constant(
        ConstOperand { ty: RustTy::FnDef { name, substs }, kind: ConstantKind::ZeroSized },
    )
}

/// Indexing a shared array, by either operator and either path to it, gives a
/// pointer into shared memory; so do the accessors of a dynamic shared array.
/// The raw pointers of a shared array are generic.
pub proof fn law_calls_on_shared_memory(name: String, substs: String, class: WriteClass)
    requires
        call_ensures(classify_call, (&function_operand(name, substs),), class),
    ensures
        ({
            let path = name@;
            let indexes = path == "std::ops::Index::index"@ || path == "core::ops::Index::index"@
                || path == "std::ops::IndexMut::index_mut"@ || path
                == "core::ops::IndexMut::index_mut"@;
            let indexes_shared = indexes && occurs_in(substs@, "SharedArray"@);
            let accesses_dynamic = occurs_in(path, "DynamicSharedArray"@) && (occurs_in(
                path,
                "::get"@,
            ) || occurs_in(path, "::offset"@));
            let takes_pointer = occurs_in(path, "SharedArray"@) && (occurs_in(path, "as_ptr"@)
                || occurs_in(path, "as_mut_ptr"@));
            &&& class == WriteClass::Classified(SHARED) <==> indexes_shared || accesses_dynamic
            &&& class == WriteClass::Classified(GENERIC) <==> takes_pointer && !indexes_shared
                && !accesses_dynamic
            &&& class == WriteClass::Unclassified <==> !indexes_shared && !accesses_dynamic
                && !takes_pointer
        }),
{
}

/// A call through anything but a named function is not classified.
pub proof fn law_other_calls_are_unclassified(func: Operand, class: WriteClass)
    requires
        call_ensures(classify_call, (&func,), class),
        !(func is Constant && func->Constant_0.ty is FnDef && func->Constant_0.kind is ZeroSized),
    ensures
        class == WriteClass::Unclassified,
{
}

/// The whole local that a right-hand side reads, copied or moved.
pub open spec fn reads_whole(rvalue: Rvalue, place: Place) -> bool {
    &&& !place.is_projected
    &&& rvalue == Rvalue::Use(Operand::Copy(place)) || rvalue == Rvalue::Use(Operand::Move(place))
        || rvalue == Rvalue::CopyForDeref(place)
}

/// A copy of a whole local has the class of the local: its address space where
/// that is known, nothing where writes to it disagreed, and it waits where
/// nothing has been classified yet. A part of a local has no class.
pub proof fn law_copies_follow_their_source(
    rvalue: Rvalue,
    place: Place,
    classes: Vec<SlotAddrSpace>,
    class: WriteClass,
)
    requires
        call_ensures(classify_rvalue, (&rvalue, &classes), class),
    ensures
        reads_whole(rvalue, place) && place.local < classes@.len()
            && classes@[place.local as int] is Known ==> class == WriteClass::Classified(
            classes@[place.local as int]->Known_0,
        ),
        reads_whole(rvalue, place) && place.local < classes@.len()
            && classes@[place.local as int] is Generic ==> class == WriteClass::Unclassified,
        reads_whole(rvalue, place) && (place.local >= classes@.len()
            || classes@[place.local as int] is Uninit) ==> class == WriteClass::Pending,
        rvalue is Other ==> class == WriteClass::Unclassified,
        place.is_projected && (rvalue == Rvalue::Use(Operand::Copy(place)) || rvalue
            == Rvalue::Use(Operand::Move(place)) || rvalue == Rvalue::CopyForDeref(place)) ==> class
            == WriteClass::Unclassified,
{
}

/// A constant on the right-hand side is classified as a constant, whatever is
/// known of the locals.
pub proof fn law_constants_need_no_locals(
    c: ConstOperand,
    classes: Vec<SlotAddrSpace>,
    class: WriteClass,
    constant: WriteClass,
)
    requires
        call_ensures(
            classify_rvalue,
            (&Rvalue::Use(Operand::Constant(c)), &classes),
            class,
        ),
        call_ensures(classify_constant, (&c,), constant),
    ensures
        class == constant,
{
}

/// A write is observed if and only if it is classified, as its address space.
pub proof fn law_only_classified_writes_count(class: WriteClass, seen: Option<SlotAddrSpace>)
    requires
        call_ensures(resolve, (class,), seen),
    ensures
        seen is Some <==> class is Classified,
        class is Classified ==> seen == Some(SlotAddrSpace::Known(class->Classified_0)),
{
}

/// Two observations of one address space agree, two of different ones are
/// generic, and no observation changes nothing.
pub proof fn law_observations_merge(a: SlotAddrSpace, b: SlotAddrSpace, m: SlotAddrSpace)
    requires
        call_ensures(SlotAddrSpace::merge, (a, b), m),
    ensures
        a is Uninit ==> m == b,
        b is Uninit ==> m == a,
        a is Known && b is Known && a->Known_0 == b->Known_0 ==> m == a,
        a is Known && b is Known && a->Known_0 != b->Known_0 ==> m is Generic,
        a is Generic || b is Generic ==> m is Generic,
{
}

// ---------------------------------------------------------------------------
// Bodies
// ---------------------------------------------------------------------------

proof fn lemma_writes_contain(blocks: Seq<BasicBlock>, n: nat, b: int, write: Write)
    requires
        0 <= b < n,
        block_writes(blocks[b]).contains(write),
    ensures
        writes_of(blocks, n).contains(write),
    decreases n,
{
    let before = writes_of(blocks, (n - 1) as nat);
    let last = block_writes(blocks[n - 1]);
    if b == n - 1 {
        let k = choose|k: int| 0 <= k < last.len() && last[k] == write;
        assert((before + last)[before.len() + k] == write);
    } else {
        lemma_writes_contain(blocks, (n - 1) as nat, b, write);
        let k = choose|k: int| 0 <= k < before.len() && before[k] == write;
        assert((before + last)[k] == write);
    }
}

proof fn lemma_statement_counts(body: Body, b: int, i: int)
    requires
        0 <= b < body.blocks@.len(),
        0 <= i < body.blocks@[b].statements@.len(),
    ensures
        writes_of(body.blocks@, body.blocks@.len()).contains(
            statement_write(body.blocks@[b].statements@[i]),
        ),
{
    let writes = block_writes(body.blocks@[b]);
    assert(writes[i] == statement_write(body.blocks@[b].statements@[i]));
    lemma_writes_contain(body.blocks@, body.blocks@.len(), b, writes[i]);
}

/// Every assignment to a whole local is accounted for: where what is assigned
/// is classified, given what was inferred, the local's address space is that
/// class, or generic.
pub proof fn law_assignments_are_respected(
    body: Body,
    map: SlotAddrSpaceMap,
    b: int,
    i: int,
    place: Place,
    rvalue: Rvalue,
    classes: Vec<SlotAddrSpace>,
    class: WriteClass,
    declared: u32,
    space: u32,
)
    requires
        body.num_locals + 2 <= usize::MAX,
        call_ensures(SlotAddrSpaceMap::analyze, (&body,), map),
        0 <= b < body.blocks@.len(),
        0 <= i < body.blocks@[b].statements@.len(),
        body.blocks@[b].statements@[i] == Statement::Assign(place, rvalue),
        !place.is_projected,
        place.local < body.num_locals,
        classes@ == map.states(),
        call_ensures(classify_rvalue, (&rvalue, &classes), class),
        call_ensures(SlotAddrSpaceMap::effective, (&map, place.local, declared), space),
    ensures
        class is Classified ==> space == class->Classified_0 || space == 0,
{
    lemma_statement_counts(body, b, i);
    let writes = writes_of(body.blocks@, body.blocks@.len());
    let write = statement_write(body.blocks@[b].statements@[i]);
    let k = choose|k: int| 0 <= k < writes.len() && writes[k] == write;
    law_classified_writes_agree(body, k);
    lemma_passes_len(
        no_classes(body.num_locals as nat),
        writes,
        pass_limit(body.num_locals as nat),
    );
    assert(write_class(inferred(body), write) == class || class !is Classified);
}

/// Every call that returns into a whole local is accounted for likewise.
pub proof fn law_calls_are_respected(
    body: Body,
    map: SlotAddrSpaceMap,
    b: int,
    func: Operand,
    destination: Place,
    class: WriteClass,
    declared: u32,
    space: u32,
)
    requires
        body.num_locals + 2 <= usize::MAX,
        call_ensures(SlotAddrSpaceMap::analyze, (&body,), map),
        0 <= b < body.blocks@.len(),
        body.blocks@[b].terminator == (Terminator::Call { func, destination }),
        !destination.is_projected,
        destination.local < body.num_locals,
        call_ensures(classify_call, (&func,), class),
        call_ensures(SlotAddrSpaceMap::effective, (&map, destination.local, declared), space),
    ensures
        class is Classified ==> space == class->Classified_0 || space == 0,
{
    let last = block_writes(body.blocks@[b]);
    let write = terminator_write(body.blocks@[b].terminator);
    assert(last[last.len() - 1] == write);
    lemma_writes_contain(body.blocks@, body.blocks@.len(), b, write);
    let writes = writes_of(body.blocks@, body.blocks@.len());
    let k = choose|k: int| 0 <= k < writes.len() && writes[k] == write;
    law_classified_writes_agree(body, k);
    lemma_passes_len(
        no_classes(body.num_locals as nat),
        writes,
        pass_limit(body.num_locals as nat),
    );
}

/// Whether some write to `local` brings in address space `n`: a pointer into
/// it, or a copy of a local that is known to point into it, or was before its
/// writes disagreed.
pub open spec fn justified(
    classes: Seq<SlotAddrSpace>,
    writes: Seq<Write>,
    local: int,
    n: u32,
) -> bool {
    exists|k: int|
        0 <= k < writes.len() && (#[trigger] writes[k]).dest == local && match writes[k].source {
            Source::Space(m) => m == n,
            Source::Copy(other) => other < classes.len() && (classes[other as int]
                == SlotAddrSpace::Known(n) || classes[other as int] == SlotAddrSpace::Generic),
            Source::Unknown => false,
        }
}

spec fn all_justified(classes: Seq<SlotAddrSpace>, writes: Seq<Write>) -> bool {
    forall|l: int, n: u32|
        0 <= l < classes.len() && classes[l] == SlotAddrSpace::Known(n) ==> #[trigger] justified(
            classes,
            writes,
            l,
            n,
        )
}

proof fn lemma_still_justified(
    a: Seq<SlotAddrSpace>,
    b: Seq<SlotAddrSpace>,
    writes: Seq<Write>,
    local: int,
    n: u32,
)
    requires
        justified(a, writes, local, n),
        all_not_below(a, b),
    ensures
        justified(b, writes, local, n),
{
    let k = choose|k: int|
        0 <= k < writes.len() && (#[trigger] writes[k]).dest == local && match writes[k].source {
            Source::Space(m) => m == n,
            Source::Copy(other) => other < a.len() && (a[other as int] == SlotAddrSpace::Known(n)
                || a[other as int] == SlotAddrSpace::Generic),
            Source::Unknown => false,
        };
    match writes[k].source {
        Source::Copy(other) => {
            assert(not_below(a[other as int], b[other as int]));
        },
        _ => {},
    }
    assert(writes[k].dest == local);
}

proof fn lemma_write_justified(classes: Seq<SlotAddrSpace>, writes: Seq<Write>, n: nat)
    requires
        n <= writes.len(),
        all_justified(classes, writes),
    ensures
        all_justified(after_writes(classes, writes, n), writes),
    decreases n,
{
    if n > 0 {
        let m = (n - 1) as nat;
        lemma_write_justified(classes, writes, m);
        let before = after_writes(classes, writes, m);
        let after = after_writes(classes, writes, n);
        let w = writes[m as int];
        lemma_writes_monotone(classes, writes, m, n);
        assert forall|l: int, s: u32|
            0 <= l < after.len() && after[l] == SlotAddrSpace::Known(s) implies #[trigger] justified(
            after,
            writes,
            l,
            s,
        ) by {
            assert(not_below(before[l], after[l]));
            if before[l] == after[l] {
                assert(justified(before, writes, l, s));
                lemma_still_justified(before, after, writes, l, s);
            } else {
                assert(w.dest == l);
                match w.source {
                    Source::Copy(other) => {
                        assert(before[other as int] == SlotAddrSpace::Known(s));
                        assert(not_below(before[other as int], after[other as int]));
                    },
                    _ => {},
                }
                assert(writes[m as int].dest == l);
            }
        }
    }
}

proof fn lemma_passes_justified(classes: Seq<SlotAddrSpace>, writes: Seq<Write>, n: nat)
    requires
        all_justified(classes, writes),
    ensures
        all_justified(after_passes(classes, writes, n), writes),
    decreases n,
{
    if n > 0 && after_pass(classes, writes) != classes {
        lemma_write_justified(classes, writes, writes.len());
        lemma_passes_justified(after_pass(classes, writes), writes, (n - 1) as nat);
    }
}

/// An address space is inferred only where something says so: some write to the
/// local is a pointer into it, or copies a local that points into it.
pub proof fn law_inference_needs_a_write(
    body: Body,
    map: SlotAddrSpaceMap,
    local: Local,
    n: u32,
)
    requires
        call_ensures(SlotAddrSpaceMap::analyze, (&body,), map),
        local < body.num_locals,
        map.states()[local as int] == SlotAddrSpace::Known(n),
    ensures
        map.states().len() == body.num_locals,
        justified(
            map.states(),
            writes_of(body.blocks@, body.blocks@.len()),
            local as int,
            n,
        ),
{
    let writes = writes_of(body.blocks@, body.blocks@.len());
    let start = no_classes(body.num_locals as nat);
    lemma_passes_len(start, writes, pass_limit(body.num_locals as nat));
    lemma_passes_justified(start, writes, pass_limit(body.num_locals as nat));
}

/// The writes of a body are those of its statements and calls: whatever is
/// written goes to the whole local on the left of an assignment or to the whole
/// destination of a call. What is written into an address space is a constant
/// or the result of a call of that class, and a copied local is the right-hand
/// side.
pub proof fn law_writes_come_from_the_body(body: Body, k: int)
    requires
        0 <= k < writes_of(body.blocks@, body.blocks@.len()).len(),
    ensures
        ({
            let write = writes_of(body.blocks@, body.blocks@.len())[k];
            write.source is Unknown || exists|b: int| #[trigger]
                writes_in(body, b, write)
        }),
{
    lemma_origin(body, body.blocks@.len(), k);
}

/// Whether a right-hand side brings this source in.
pub open spec fn brings(rvalue: Rvalue, source: Source) -> bool {
    match source {
        Source::Space(n) => rvalue is Use && rvalue->Use_0 is Constant && constant_class(
            rvalue->Use_0->Constant_0,
        ) == WriteClass::Classified(n),
        Source::Copy(local) => reads_whole(rvalue, Place { local, is_projected: false }),
        Source::Unknown => true,
    }
}

/// Whether block `b` holds an assignment or ends in a call that makes `write`.
pub open spec fn writes_in(body: Body, b: int, write: Write) -> bool {
    &&& 0 <= b < body.blocks@.len()
    &&& (exists|i: int|
        0 <= i < body.blocks@[b].statements@.len() && match #[trigger] body.blocks@[b].statements@[i] {
            Statement::Assign(place, rvalue) => !place.is_projected && place.local == write.dest
                && brings(rvalue, write.source),
            Statement::Other => false,
        }) || match body.blocks@[b].terminator {
        Terminator::Call { func, destination } => !destination.is_projected && destination.local
            == write.dest && write.source is Space && call_class(func) == WriteClass::Classified(
            write.source->Space_0,
        ),
        Terminator::Other => false,
    }
}

proof fn lemma_origin(body: Body, n: nat, k: int)
    requires
        n <= body.blocks@.len(),
        0 <= k < writes_of(body.blocks@, n).len(),
    ensures
        ({
            let write = writes_of(body.blocks@, n)[k];
            write.source is Unknown || exists|b: int| #[trigger]
                writes_in(body, b, write)
        }),
    decreases n,
{
    if n > 0 {
        let before = writes_of(body.blocks@, (n - 1) as nat);
        let block = body.blocks@[n - 1];
        let last = block_writes(block);
        if k < before.len() {
            lemma_origin(body, (n - 1) as nat, k);
            assert((before + last)[k] == before[k]);
        } else {
            let i = k - before.len();
            assert((before + last)[k] == last[i]);
            if i < block.statements@.len() {
                assert(last[i] == statement_write(block.statements@[i]));
            } else {
                assert(last[i] == terminator_write(block.terminator));
            }
            if last[i].source !is Unknown {
                assert(writes_in(body, n - 1, last[i]));
            }
        }
    }
}

/// The address space of a slot is what was inferred; what Rust declares counts
/// exactly where nothing was.
pub proof fn law_inferred_space_wins(
    map: SlotAddrSpaceMap,
    local: Local,
    declared: u32,
    other: u32,
    space: u32,
    other_space: u32,
)
    requires
        call_ensures(SlotAddrSpaceMap::effective, (&map, local, declared), space),
        call_ensures(SlotAddrSpaceMap::effective, (&map, local, other), other_space),
    ensures
        local >= map.states().len() || map.states()[local as int] is Uninit ==> space == declared,
        local < map.states().len() && map.states()[local as int] !is Uninit ==> space
            == other_space,
        local < map.states().len() && map.states()[local as int] is Known ==> space
            == map.states()[local as int]->Known_0,
        local < map.states().len() && map.states()[local as int] is Generic ==> space == 0,
{
}

} // verus!
