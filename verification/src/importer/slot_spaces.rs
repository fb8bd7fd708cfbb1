//! Address spaces of the slots of pointer locals.
//!
//! Rust's pointer types name no address space. A pre-scan of a body infers
//! one for each local from what is written to it.

use vstd::prelude::*;

use crate::importer::body::{
    BasicBlock, Body, ConstOperand, ConstantKind, GlobalAlloc, Local, Operand, RustTy,
    Rvalue, Statement, Terminator,
};
use crate::text::{contains_text, occurs_in, same_text};

verus! {

/// Can point to any memory.
pub const GENERIC: u32 = 0;

/// Device memory.
pub const GLOBAL: u32 = 1;

/// Shared memory of a block.
pub const SHARED: u32 = 3;

/// Read-only device memory.
pub const CONSTANT: u32 = 4;

/// What the writes to a slot say of its address space.
#[derive(Debug, Clone, Copy, PartialEq, Eq, Structural)]
pub enum SlotAddrSpace {
    /// No classified write yet.
    Uninit,
    /// Every classified write so far was in this address space.
    Known(u32),
    /// Classified writes disagreed.
    Generic,
}

/// The two observations of one slot as one.
pub open spec fn joined_space(a: SlotAddrSpace, b: SlotAddrSpace) -> SlotAddrSpace {
    match (a, b) {
        (SlotAddrSpace::Uninit, x) => x,
        (x, SlotAddrSpace::Uninit) => x,
        (SlotAddrSpace::Known(m), SlotAddrSpace::Known(n)) => if m == n {
            a
        } else {
            SlotAddrSpace::Generic
        },
        _ => SlotAddrSpace::Generic,
    }
}

impl SlotAddrSpace {
    /// This observation and another of the same slot, as one.
    pub fn merge(self, other: SlotAddrSpace) -> (joined: SlotAddrSpace)
        ensures
            joined == joined_space(self, other),
    {
        match (self, other) {
            (SlotAddrSpace::Uninit, x) => x,
            (x, SlotAddrSpace::Uninit) => x,
            (SlotAddrSpace::Known(m), SlotAddrSpace::Known(n)) => if m == n {
                SlotAddrSpace::Known(m)
            } else {
                SlotAddrSpace::Generic
            },
            _ => SlotAddrSpace::Generic,
        }
    }
}

/// What one write says of the address space it wrote.
#[derive(Debug, Clone, Copy, PartialEq, Eq, Structural)]
pub enum WriteClass {
    /// The value is a pointer into this address space.
    Classified(u32),
    /// Nothing is known of the value.
    Unclassified,
    /// The value comes from a local of which nothing is known yet.
    Pending,
}

// ---------------------------------------------------------------------------
// Classification
// ---------------------------------------------------------------------------

/// Whether `ty` is `cuda_device::ConstantMemory`.
pub open spec fn constant_wrapper(ty: RustTy) -> bool {
    match ty {
        RustTy::Adt { krate, trimmed_name } => krate@ == "cuda_device"@ && trimmed_name@
            == "ConstantMemory"@,
        _ => false,
    }
}

/// Whether `ty` is one of the types that stand in shared memory.
pub open spec fn shared_type(ty: RustTy) -> bool {
    match ty {
        RustTy::Adt { trimmed_name, .. } => trimmed_name@ == "SharedArray"@ || trimmed_name@
            == "Barrier"@,
        _ => false,
    }
}

/// The class of a constant.
pub open spec fn constant_class(c: ConstOperand) -> WriteClass {
    let pointee = match c.ty {
        RustTy::RawPtr(t) => Some(*t),
        RustTy::Ref(t) => Some(*t),
        _ => None,
    };
    match pointee {
        None => WriteClass::Unclassified,
        Some(t) => if shared_type(t) {
            WriteClass::Classified(SHARED)
        } else {
            match c.kind {
                ConstantKind::Allocated {
                    is_null,
                    first_provenance: Some(GlobalAlloc::Static(static_ty)),
                } => if is_null == Some(true) {
                    WriteClass::Unclassified
                } else if constant_wrapper(static_ty) {
                    WriteClass::Classified(CONSTANT)
                } else {
                    WriteClass::Classified(GLOBAL)
                },
                _ => WriteClass::Unclassified,
            }
        },
    }
}

/// Whether `path` is one of the indexing operators.
pub open spec fn index_path(path: Seq<char>) -> bool {
    ||| path == "std::ops::Index::index"@
    ||| path == "core::ops::Index::index"@
    ||| path == "std::ops::IndexMut::index_mut"@
    ||| path == "core::ops::IndexMut::index_mut"@
}

/// The class of what a function returns, by its path and generic arguments.
pub open spec fn function_class(path: Seq<char>, substs: Seq<char>) -> WriteClass {
    if occurs_in(substs, "SharedArray"@) && index_path(path) {
        WriteClass::Classified(SHARED)
    } else if occurs_in(path, "DynamicSharedArray"@) && (occurs_in(path, "::get"@) || occurs_in(
        path,
        "::offset"@,
    )) {
        WriteClass::Classified(SHARED)
    } else if occurs_in(path, "SharedArray"@) && (occurs_in(path, "as_ptr"@) || occurs_in(
        path,
        "as_mut_ptr"@,
    )) {
        WriteClass::Classified(GENERIC)
    } else {
        WriteClass::Unclassified
    }
}

/// The class of what a call returns.
pub open spec fn call_class(func: Operand) -> WriteClass {
    match func {
        Operand::Constant(ConstOperand { ty: RustTy::FnDef { name, substs }, kind }) => if kind
            is ZeroSized {
            function_class(name@, substs@)
        } else {
            WriteClass::Unclassified
        },
        _ => WriteClass::Unclassified,
    }
}

/// The state of a local; a local that does not exist has no classified write.
pub open spec fn class_at(classes: Seq<SlotAddrSpace>, local: Local) -> SlotAddrSpace {
    if local < classes.len() {
        classes[local as int]
    } else {
        SlotAddrSpace::Uninit
    }
}

/// The class of a copy of a local.
pub open spec fn copy_class(classes: Seq<SlotAddrSpace>, local: Local) -> WriteClass {
    match class_at(classes, local) {
        SlotAddrSpace::Known(n) => WriteClass::Classified(n),
        SlotAddrSpace::Generic => WriteClass::Unclassified,
        SlotAddrSpace::Uninit => WriteClass::Pending,
    }
}

/// The local that a right-hand side copies, where it copies a whole one.
pub open spec fn copied_local(rvalue: Rvalue) -> Option<Local> {
    let place = match rvalue {
        Rvalue::Use(Operand::Copy(p)) => Some(p),
        Rvalue::Use(Operand::Move(p)) => Some(p),
        Rvalue::CopyForDeref(p) => Some(p),
        _ => None,
    };
    match place {
        Some(p) => if p.is_projected {
            None
        } else {
            Some(p.local)
        },
        None => None,
    }
}

/// The class of a right-hand side.
pub open spec fn rvalue_class(rvalue: Rvalue, classes: Seq<SlotAddrSpace>) -> WriteClass {
    match copied_local(rvalue) {
        Some(local) => copy_class(classes, local),
        None => match rvalue {
            Rvalue::Use(Operand::Constant(c)) => constant_class(c),
            _ => WriteClass::Unclassified,
        },
    }
}

/// Whether `ty` is `cuda_device::ConstantMemory`.
pub fn is_constant_wrapper_type(ty: &RustTy) -> (yes: bool)
    ensures
        yes == constant_wrapper(*ty),
{
    match ty {
        RustTy::Adt { krate, trimmed_name } => same_text(krate, "cuda_device") && same_text(
            trimmed_name,
            "ConstantMemory",
        ),
        _ => false,
    }
}

/// Classifies a constant operand.
pub fn classify_constant(const_op: &ConstOperand) -> (class: WriteClass)
    ensures
        class == constant_class(*const_op),
{
    let pointee = match &const_op.ty {
        RustTy::RawPtr(t) => t,
        RustTy::Ref(t) => t,
        _ => {
            return WriteClass::Unclassified;
        },
    };
    if let RustTy::Adt { trimmed_name, .. } = &**pointee {
        if same_text(trimmed_name, "SharedArray") || same_text(trimmed_name, "Barrier") {
            return WriteClass::Classified(SHARED);
        }
    }
    match &const_op.kind {
        ConstantKind::Allocated { is_null, first_provenance } => {
            if let Some(null) = is_null {
                if *null {
                    return WriteClass::Unclassified;
                }
            }
            match first_provenance {
                Some(GlobalAlloc::Static(static_ty)) => if is_constant_wrapper_type(static_ty) {
                    WriteClass::Classified(CONSTANT)
                } else {
                    WriteClass::Classified(GLOBAL)
                },
                _ => WriteClass::Unclassified,
            }
        },
        _ => WriteClass::Unclassified,
    }
}

/// Classifies what a call returns.
pub fn classify_call(func: &Operand) -> (class: WriteClass)
    ensures
        class == call_class(*func),
{
    let const_op = match func {
        Operand::Constant(c) => c,
        _ => {
            return WriteClass::Unclassified;
        },
    };
    match &const_op.kind {
        ConstantKind::ZeroSized => {},
        _ => {
            return WriteClass::Unclassified;
        },
    }
    match &const_op.ty {
        RustTy::FnDef { name, substs } => {
            let on_shared_array = contains_text(substs, "SharedArray");
            if on_shared_array && (same_text(name, "std::ops::Index::index") || same_text(
                name,
                "core::ops::Index::index",
            ) || same_text(name, "std::ops::IndexMut::index_mut") || same_text(
                name,
                "core::ops::IndexMut::index_mut",
            )) {
                return WriteClass::Classified(SHARED);
            }
            if contains_text(name, "DynamicSharedArray") && (contains_text(name, "::get")
                || contains_text(name, "::offset")) {
                return WriteClass::Classified(SHARED);
            }
            if contains_text(name, "SharedArray") && (contains_text(name, "as_ptr")
                || contains_text(name, "as_mut_ptr")) {
                return WriteClass::Classified(GENERIC);
            }
            WriteClass::Unclassified
        },
        _ => WriteClass::Unclassified,
    }
}

/// Classifies a copy of a local.
fn propagate_from_local(local: Local, classes: &Vec<SlotAddrSpace>) -> (class: WriteClass)
    ensures
        class == copy_class(classes@, local),
{
    if local >= classes.len() {
        return WriteClass::Pending;
    }
    match classes[local] {
        SlotAddrSpace::Known(n) => WriteClass::Classified(n),
        SlotAddrSpace::Generic => WriteClass::Unclassified,
        SlotAddrSpace::Uninit => WriteClass::Pending,
    }
}

/// Classifies the right-hand side of an assignment.
pub fn classify_rvalue(rvalue: &Rvalue, classes: &Vec<SlotAddrSpace>) -> (class: WriteClass)
    ensures
        class == rvalue_class(*rvalue, classes@),
{
    match rvalue {
        Rvalue::Use(Operand::Copy(place))
        | Rvalue::Use(Operand::Move(place))
        | Rvalue::CopyForDeref(place) => if place.is_projected {
            WriteClass::Unclassified
        } else {
            propagate_from_local(place.local, classes)
        },
        Rvalue::Use(Operand::Constant(c)) => classify_constant(c),
        Rvalue::Other => WriteClass::Unclassified,
    }
}

/// What a write is observed as: nothing, unless it is classified.
pub open spec fn observed(class: WriteClass) -> Option<SlotAddrSpace> {
    match class {
        WriteClass::Classified(n) => Some(SlotAddrSpace::Known(n)),
        _ => None,
    }
}

/// What a write is observed as: nothing, unless it is classified. A slot is
/// never demoted for lack of information.
pub fn resolve(class: WriteClass) -> (observation: Option<SlotAddrSpace>)
    ensures
        observation == observed(class),
{
    match class {
        WriteClass::Classified(n) => Some(SlotAddrSpace::Known(n)),
        WriteClass::Unclassified | WriteClass::Pending => None,
    }
}

/// The states after `observation` of `local` has been merged in.
pub open spec fn with_observation(
    classes: Seq<SlotAddrSpace>,
    local: Local,
    observation: Option<SlotAddrSpace>,
) -> Seq<SlotAddrSpace> {
    match observation {
        Some(o) => if local < classes.len() {
            classes.update(local as int, joined_space(classes[local as int], o))
        } else {
            classes
        },
        None => classes,
    }
}

/// Merges `observation` into the state of `local`; whether that changed it.
fn merge_into(classes: &mut Vec<SlotAddrSpace>, local: Local, observation: SlotAddrSpace) -> (changed:
    bool)
    ensures
        final(classes)@ == with_observation(old(classes)@, local, Some(observation)),
        changed == (final(classes)@ != old(classes)@),
{
    if local >= classes.len() {
        return false;
    }
    let slot = classes[local];
    let merged = slot.merge(observation);
    let ghost before = classes@;
    if merged != slot {
        classes.set(local, merged);
        assert(classes@[local as int] != before[local as int]);
        true
    } else {
        assert(before.update(local as int, merged) =~= before);
        false
    }
}

// ---------------------------------------------------------------------------
// The analysis
// ---------------------------------------------------------------------------

/// Where the value of a write comes from.
#[derive(Debug, Clone, Copy, PartialEq, Eq, Structural)]
pub enum Source {
    /// A pointer into this address space.
    Space(u32),
    /// A copy of this local.
    Copy(Local),
    /// Something that is not reasoned about.
    Unknown,
}

/// One write to a whole local.
#[verifier::ext_equal]
pub struct Write {
    pub dest: Local,
    pub source: Source,
}

/// The source that a class stands for.
pub open spec fn source_of(class: WriteClass) -> Source {
    match class {
        WriteClass::Classified(n) => Source::Space(n),
        _ => Source::Unknown,
    }
}

/// The write that a statement makes; one that makes none writes nothing known.
pub open spec fn statement_write(statement: Statement) -> Write {
    match statement {
        Statement::Assign(place, rvalue) => Write {
            dest: place.local,
            source: if place.is_projected {
                Source::Unknown
            } else {
                match copied_local(rvalue) {
                    Some(local) => Source::Copy(local),
                    None => match rvalue {
                        Rvalue::Use(Operand::Constant(c)) => source_of(constant_class(c)),
                        _ => Source::Unknown,
                    },
                }
            },
        },
        Statement::Other => Write { dest: 0, source: Source::Unknown },
    }
}

/// The write that a terminator makes.
pub open spec fn terminator_write(terminator: Terminator) -> Write {
    match terminator {
        Terminator::Call { func, destination } => Write {
            dest: destination.local,
            source: if destination.is_projected {
                Source::Unknown
            } else {
                source_of(call_class(func))
            },
        },
        Terminator::Other => Write { dest: 0, source: Source::Unknown },
    }
}

/// The writes of a block, in order.
pub open spec fn block_writes(block: BasicBlock) -> Seq<Write> {
    block.statements@.map_values(|s: Statement| statement_write(s)).push(
        terminator_write(block.terminator),
    )
}

/// The writes of the first `n` blocks, in order.
pub open spec fn writes_of(blocks: Seq<BasicBlock>, n: nat) -> Seq<Write>
    decreases n,
{
    if n == 0 {
        Seq::empty()
    } else {
        writes_of(blocks, (n - 1) as nat) + block_writes(blocks[n - 1])
    }
}

/// The class of a write, given the states of the locals.
pub open spec fn write_class(classes: Seq<SlotAddrSpace>, write: Write) -> WriteClass {
    match write.source {
        Source::Space(n) => WriteClass::Classified(n),
        Source::Copy(local) => copy_class(classes, local),
        Source::Unknown => WriteClass::Unclassified,
    }
}

/// The states after a write.
pub open spec fn after_write(classes: Seq<SlotAddrSpace>, write: Write) -> Seq<SlotAddrSpace> {
    with_observation(classes, write.dest, observed(write_class(classes, write)))
}

/// The states after the first `n` writes of a pass.
pub open spec fn after_writes(classes: Seq<SlotAddrSpace>, writes: Seq<Write>, n: nat) -> Seq<
    SlotAddrSpace,
>
    decreases n,
{
    if n == 0 {
        classes
    } else {
        after_write(after_writes(classes, writes, (n - 1) as nat), writes[n - 1])
    }
}

/// The states after one pass over all writes.
pub open spec fn after_pass(classes: Seq<SlotAddrSpace>, writes: Seq<Write>) -> Seq<SlotAddrSpace> {
    after_writes(classes, writes, writes.len())
}

/// The states after at most `n` passes, until one changes nothing.
pub open spec fn after_passes(classes: Seq<SlotAddrSpace>, writes: Seq<Write>, n: nat) -> Seq<
    SlotAddrSpace,
>
    decreases n,
{
    if n == 0 || after_pass(classes, writes) == classes {
        classes
    } else {
        after_passes(after_pass(classes, writes), writes, (n - 1) as nat)
    }
}

/// The states before the first pass.
pub open spec fn no_classes(num_locals: nat) -> Seq<SlotAddrSpace> {
    Seq::new(num_locals, |i: int| SlotAddrSpace::Uninit)
}

/// The number of passes that the analysis makes at most.
pub open spec fn pass_limit(num_locals: nat) -> nat {
    if num_locals + 2 <= usize::MAX {
        num_locals + 2
    } else {
        usize::MAX as nat
    }
}

/// The states that the analysis of a body ends with.
pub open spec fn inferred(body: Body) -> Seq<SlotAddrSpace> {
    after_passes(
        no_classes(body.num_locals as nat),
        writes_of(body.blocks@, body.blocks@.len()),
        pass_limit(body.num_locals as nat),
    )
}

/// Whether `b` can follow `a`: states only go from no classified write to a
/// known address space to disagreement.
pub open spec fn not_below(a: SlotAddrSpace, b: SlotAddrSpace) -> bool {
    a == b || a == SlotAddrSpace::Uninit || b == SlotAddrSpace::Generic
}

/// [`not_below`] for every local.
pub open spec fn all_not_below(a: Seq<SlotAddrSpace>, b: Seq<SlotAddrSpace>) -> bool {
    &&& a.len() == b.len()
    &&& forall|i: int| 0 <= i < a.len() ==> not_below(#[trigger] a[i], b[i])
}

pub(crate) proof fn lemma_writes_monotone(classes: Seq<SlotAddrSpace>, writes: Seq<Write>, m: nat, n: nat)
    requires
        m <= n <= writes.len(),
    ensures
        all_not_below(after_writes(classes, writes, m), after_writes(classes, writes, n)),
    decreases n,
{
    if m < n {
        lemma_writes_monotone(classes, writes, m, (n - 1) as nat);
        let a = after_writes(classes, writes, m);
        let b = after_writes(classes, writes, (n - 1) as nat);
        let c = after_writes(classes, writes, n);
        assert(c == after_write(b, writes[n - 1]));
        assert forall|i: int| 0 <= i < a.len() implies not_below(#[trigger] a[i], c[i]) by {
            assert(not_below(a[i], b[i]));
        }
    }
}

/// If a pass ends where it began, each of its writes changed nothing.
proof fn lemma_quiet_pass(classes: Seq<SlotAddrSpace>, writes: Seq<Write>, n: nat)
    requires
        n <= writes.len(),
        after_pass(classes, writes) == classes,
    ensures
        after_writes(classes, writes, n) == classes,
{
    lemma_writes_monotone(classes, writes, 0, n);
    lemma_writes_monotone(classes, writes, n, writes.len());
    let mid = after_writes(classes, writes, n);
    assert forall|i: int| 0 <= i < classes.len() implies mid[i] == classes[i] by {
        assert(not_below(classes[i], mid[i]));
        assert(not_below(mid[i], after_pass(classes, writes)[i]));
    }
    assert(mid =~= classes);
}

/// The address space that a state stands for, where Rust declares
/// `rust_declared`.
pub open spec fn effective_space(state: SlotAddrSpace, rust_declared: u32) -> u32 {
    match state {
        SlotAddrSpace::Uninit => rust_declared,
        SlotAddrSpace::Known(n) => n,
        SlotAddrSpace::Generic => GENERIC,
    }
}

/// Per-local result of the address-space pre-scan.
pub struct SlotAddrSpaceMap {
    classes: Vec<SlotAddrSpace>,
}

/// Makes one write; whether it changed the states.
fn observe(classes: &mut Vec<SlotAddrSpace>, local: Local, class: WriteClass) -> (changed: bool)
    ensures
        final(classes)@ == with_observation(old(classes)@, local, observed(class)),
        changed == (final(classes)@ != old(classes)@),
{
    match resolve(class) {
        Some(observation) => merge_into(classes, local, observation),
        None => false,
    }
}

/// Makes the writes of one block; whether they changed the states.
fn observe_block(classes: &mut Vec<SlotAddrSpace>, block: &BasicBlock) -> (changed: bool)
    ensures
        final(classes)@ == after_pass(old(classes)@, block_writes(*block)),
        changed == (final(classes)@ != old(classes)@),
{
    let ghost writes = block_writes(*block);
    let ghost start = classes@;
    let mut changed = false;
    let mut i: usize = 0;
    while i < block.statements.len()
        invariant
            i <= block.statements@.len(),
            writes == block_writes(*block),
            classes@ == after_writes(start, writes, i as nat),
            changed == (classes@ != start),
        decreases block.statements@.len() - i,
    {
        let ghost before = classes@;
        assert(writes[i as int] == statement_write(block.statements@[i as int]));
        match &block.statements[i] {
            Statement::Assign(place, rvalue) => {
                if !place.is_projected {
                    let class = classify_rvalue(rvalue, classes);
                    if observe(classes, place.local, class) {
                        changed = true;
                    }
                }
            },
            Statement::Other => {},
        }
        proof {
            assert(classes@ == after_write(before, writes[i as int]));
            lemma_states_grow(start, writes, i as nat);
        }
        i = i + 1;
    }
    let ghost before = classes@;
    assert(writes[i as int] == terminator_write(block.terminator));
    match &block.terminator {
        Terminator::Call { func, destination } => {
            if !destination.is_projected {
                let class = classify_call(func);
                if observe(classes, destination.local, class) {
                    changed = true;
                }
            }
        },
        Terminator::Other => {},
    }
    proof {
        assert(classes@ == after_write(before, writes[i as int]));
        lemma_states_grow(start, writes, i as nat);
    }
    changed
}

/// Once the states have changed within a pass, they stay changed.
proof fn lemma_states_grow(start: Seq<SlotAddrSpace>, writes: Seq<Write>, n: nat)
    requires
        n < writes.len(),
    ensures
        ({
            let mid = after_writes(start, writes, n);
            let end = after_writes(start, writes, n + 1);
            end != start <==> mid != start || end != mid
        }),
{
    let mid = after_writes(start, writes, n);
    let end = after_writes(start, writes, n + 1);
    lemma_writes_monotone(start, writes, 0, n);
    lemma_writes_monotone(start, writes, n, n + 1);
    if end == start {
        assert forall|i: int| 0 <= i < start.len() implies mid[i] == start[i] by {
            assert(not_below(start[i], mid[i]));
            assert(not_below(mid[i], end[i]));
        }
        assert(mid =~= start);
    }
}

proof fn lemma_pass_concat(classes: Seq<SlotAddrSpace>, a: Seq<Write>, b: Seq<Write>, n: nat)
    requires
        n <= b.len(),
    ensures
        after_writes(classes, a + b, a.len() + n) == after_writes(after_pass(classes, a), b, n),
    decreases n,
{
    if n == 0 {
        lemma_pass_prefix(classes, a, b, a.len());
    } else {
        lemma_pass_concat(classes, a, b, (n - 1) as nat);
        assert((a + b)[a.len() + n - 1] == b[n - 1]);
    }
}

proof fn lemma_pass_prefix(classes: Seq<SlotAddrSpace>, a: Seq<Write>, b: Seq<Write>, n: nat)
    requires
        n <= a.len(),
    ensures
        after_writes(classes, a + b, n) == after_writes(classes, a, n),
    decreases n,
{
    if n > 0 {
        lemma_pass_prefix(classes, a, b, (n - 1) as nat);
        assert((a + b)[n - 1] == a[n - 1]);
    }
}

/// Makes one pass over a body; whether it changed the states.
fn observe_body(classes: &mut Vec<SlotAddrSpace>, body: &Body) -> (changed: bool)
    ensures
        final(classes)@ == after_pass(
            old(classes)@,
            writes_of(body.blocks@, body.blocks@.len()),
        ),
        changed == (final(classes)@ != old(classes)@),
{
    let ghost start = classes@;
    let mut changed = false;
    let mut b: usize = 0;
    while b < body.blocks.len()
        invariant
            b <= body.blocks@.len(),
            classes@ == after_pass(start, writes_of(body.blocks@, b as nat)),
            changed == (classes@ != start),
        decreases body.blocks@.len() - b,
    {
        let ghost before = classes@;
        if observe_block(classes, &body.blocks[b]) {
            changed = true;
        }
        proof {
            let done = writes_of(body.blocks@, b as nat);
            let more = block_writes(body.blocks@[b as int]);
            lemma_pass_concat(start, done, more, more.len());
            assert(writes_of(body.blocks@, (b + 1) as nat) == done + more);
            lemma_writes_monotone(start, done, 0, done.len());
            lemma_writes_monotone(before, more, 0, more.len());
            if classes@ == start {
                assert forall|i: int| 0 <= i < start.len() implies before[i] == start[i] by {
                    assert(not_below(start[i], before[i]));
                    assert(not_below(before[i], classes@[i]));
                }
                assert(before =~= start);
            }
        }
        b = b + 1;
    }
    changed
}

impl SlotAddrSpaceMap {
    /// What was inferred of each local.
    pub closed spec fn states(&self) -> Seq<SlotAddrSpace> {
        self.classes@
    }

    /// Infers the address space of each local's slot from the writes of the
    /// body. Passes over the writes are repeated until one changes nothing,
    /// which is reached within as many passes as there are locals, and two.
    pub fn analyze(body: &Body) -> (map: Self)
        ensures
            map.states() == inferred(*body),
    {
        let num_locals: usize = body.num_locals;
        let ghost writes = writes_of(body.blocks@, body.blocks@.len());
        let mut classes: Vec<SlotAddrSpace> = vec![SlotAddrSpace::Uninit; num_locals];
        assert(classes@ =~= no_classes(num_locals as nat));
        let mut left: usize = if num_locals <= usize::MAX - 2 {
            num_locals + 2
        } else {
            usize::MAX
        };
        while left > 0
            invariant
                writes == writes_of(body.blocks@, body.blocks@.len()),
                inferred(*body) == after_passes(classes@, writes, left as nat),
            decreases left,
        {
            let ghost before = classes@;
            if !observe_body(&mut classes, body) {
                return SlotAddrSpaceMap { classes };
            }
            left = left - 1;
        }
        SlotAddrSpaceMap { classes }
    }

    /// The address space of the pointer in `local`'s slot: as inferred, or
    /// generic where the writes disagreed, or as declared where nothing was
    /// inferred.
    pub fn effective(&self, local: Local, rust_declared: u32) -> (space: u32)
        ensures
            space == effective_space(class_at(self.states(), local), rust_declared),
    {
        if local >= self.classes.len() {
            return rust_declared;
        }
        match self.classes[local] {
            SlotAddrSpace::Uninit => rust_declared,
            SlotAddrSpace::Known(n) => n,
            SlotAddrSpace::Generic => GENERIC,
        }
    }
}

// ---------------------------------------------------------------------------
// Laws of merging
// ---------------------------------------------------------------------------

/// Merging is a join: no observation is its identity, disagreement absorbs,
/// order and grouping do not matter, and nothing counts twice.
pub proof fn law_merge_is_a_join(a: SlotAddrSpace, b: SlotAddrSpace, c: SlotAddrSpace)
    ensures
        joined_space(SlotAddrSpace::Uninit, a) == a,
        joined_space(a, SlotAddrSpace::Uninit) == a,
        joined_space(SlotAddrSpace::Generic, a) == SlotAddrSpace::Generic,
        joined_space(a, SlotAddrSpace::Generic) == SlotAddrSpace::Generic,
        joined_space(a, a) == a,
        joined_space(a, b) == joined_space(b, a),
        joined_space(joined_space(a, b), c) == joined_space(a, joined_space(b, c)),
        not_below(a, joined_space(a, b)),
{
}

/// A slot is demoted only by an observation that disagrees with it.
pub proof fn law_demotion_needs_disagreement(a: SlotAddrSpace, n: u32)
    requires
        joined_space(a, SlotAddrSpace::Known(n)) == SlotAddrSpace::Generic,
    ensures
        a == SlotAddrSpace::Generic || (a is Known && a != SlotAddrSpace::Known(n)),
{
}

// ---------------------------------------------------------------------------
// Convergence
// ---------------------------------------------------------------------------

/// The number of locals without a classified write among the first `n`.
pub open spec fn unclassified_count(classes: Seq<SlotAddrSpace>, n: nat) -> nat
    decreases n,
{
    if n == 0 {
        0
    } else {
        unclassified_count(classes, (n - 1) as nat) + if classes[n - 1] == SlotAddrSpace::Uninit {
            1nat
        } else {
            0
        }
    }
}

/// Whether the same locals have no classified write.
pub open spec fn same_unclassified(a: Seq<SlotAddrSpace>, b: Seq<SlotAddrSpace>) -> bool {
    forall|i: int|
        0 <= i < a.len() ==> (#[trigger] a[i] == SlotAddrSpace::Uninit <==> b[i]
            == SlotAddrSpace::Uninit)
}

proof fn lemma_count_drops(a: Seq<SlotAddrSpace>, b: Seq<SlotAddrSpace>, n: nat)
    requires
        all_not_below(a, b),
        n <= a.len(),
    ensures
        unclassified_count(b, n) <= unclassified_count(a, n),
        (exists|i: int|
            0 <= i < n && #[trigger] a[i] == SlotAddrSpace::Uninit && b[i]
                != SlotAddrSpace::Uninit) ==> unclassified_count(b, n) < unclassified_count(a, n),
    decreases n,
{
    if n > 0 {
        lemma_count_drops(a, b, (n - 1) as nat);
        assert(not_below(a[n - 1], b[n - 1]));
    }
}

proof fn lemma_count_bounded(a: Seq<SlotAddrSpace>, n: nat)
    ensures
        unclassified_count(a, n) <= n,
    decreases n,
{
    if n > 0 {
        lemma_count_bounded(a, (n - 1) as nat);
    }
}

/// A pass that classifies no further local is followed by one that changes
/// nothing.
proof fn lemma_second_pass_quiet(s: Seq<SlotAddrSpace>, writes: Seq<Write>, n: nat)
    requires
        n <= writes.len(),
        same_unclassified(s, after_pass(s, writes)),
    ensures
        after_writes(after_pass(s, writes), writes, n) == after_pass(s, writes),
    decreases n,
{
    let t = after_pass(s, writes);
    if n > 0 {
        let m = (n - 1) as nat;
        lemma_second_pass_quiet(s, writes, m);
        let w = writes[n - 1];
        lemma_writes_monotone(s, writes, 0, m);
        lemma_writes_monotone(s, writes, m, writes.len());
        lemma_writes_monotone(s, writes, n, writes.len());
        let mid = after_writes(s, writes, m);
        let next = after_writes(s, writes, n);
        assert(next == after_write(mid, w));
        if w.dest < t.len() {
            let d = w.dest as int;
            assert(not_below(next[d], t[d]));
            match w.source {
                Source::Copy(local) => {
                    if local < t.len() {
                        let l = local as int;
                        assert(not_below(s[l], mid[l]));
                        assert(not_below(mid[l], t[l]));
                        assert(s[l] == SlotAddrSpace::Uninit <==> t[l] == SlotAddrSpace::Uninit);
                    }
                },
                _ => {},
            }
        }
        assert(after_write(t, w) =~= t);
    }
}

proof fn lemma_passes_converge(s: Seq<SlotAddrSpace>, writes: Seq<Write>, n: nat)
    requires
        n >= unclassified_count(s, s.len()) + 2,
    ensures
        after_pass(after_passes(s, writes, n), writes) == after_passes(s, writes, n),
    decreases n,
{
    let t = after_pass(s, writes);
    if t != s {
        lemma_writes_monotone(s, writes, 0, writes.len());
        if same_unclassified(s, t) {
            lemma_second_pass_quiet(s, writes, writes.len());
            assert(after_passes(t, writes, (n - 1) as nat) == t);
        } else {
            lemma_count_drops(s, t, s.len());
            assert(exists|i: int|
                0 <= i < s.len() && #[trigger] s[i] == SlotAddrSpace::Uninit && t[i]
                    != SlotAddrSpace::Uninit) by {
                let i = choose|i: int|
                    0 <= i < s.len() && !(#[trigger] s[i] == SlotAddrSpace::Uninit <==> t[i]
                        == SlotAddrSpace::Uninit);
                assert(not_below(s[i], t[i]));
            }
            lemma_passes_converge(t, writes, (n - 1) as nat);
        }
    }
}

/// The analysis ends at a fixed point: one more pass over the body changes
/// nothing.
pub proof fn law_analysis_converges(body: Body)
    requires
        body.num_locals + 2 <= usize::MAX,
    ensures
        after_pass(inferred(body), writes_of(body.blocks@, body.blocks@.len())) == inferred(body),
{
    let start = no_classes(body.num_locals as nat);
    lemma_count_bounded(start, start.len());
    lemma_passes_converge(
        start,
        writes_of(body.blocks@, body.blocks@.len()),
        pass_limit(body.num_locals as nat),
    );
}

pub(crate) proof fn lemma_passes_len(s: Seq<SlotAddrSpace>, writes: Seq<Write>, n: nat)
    ensures
        after_passes(s, writes, n).len() == s.len(),
    decreases n,
{
    if n > 0 && after_pass(s, writes) != s {
        lemma_writes_monotone(s, writes, 0, writes.len());
        lemma_passes_len(after_pass(s, writes), writes, (n - 1) as nat);
    }
}

/// Every classified write agrees with what was inferred: a local is inferred to
/// be in the address space of each classified write to it, or the writes
/// disagreed.
pub proof fn law_classified_writes_agree(body: Body, i: int)
    requires
        body.num_locals + 2 <= usize::MAX,
        0 <= i < writes_of(body.blocks@, body.blocks@.len()).len(),
    ensures
        ({
            let write = writes_of(body.blocks@, body.blocks@.len())[i];
            write.dest < body.num_locals ==> match write_class(inferred(body), write) {
                WriteClass::Classified(n) => {
                    ||| inferred(body)[write.dest as int] == SlotAddrSpace::Known(n)
                    ||| inferred(body)[write.dest as int] == SlotAddrSpace::Generic
                },
                _ => true,
            }
        }),
{
    let writes = writes_of(body.blocks@, body.blocks@.len());
    let r = inferred(body);
    law_analysis_converges(body);
    lemma_passes_len(
        no_classes(body.num_locals as nat),
        writes,
        pass_limit(body.num_locals as nat),
    );
    lemma_quiet_pass(r, writes, i as nat);
    lemma_quiet_pass(r, writes, (i + 1) as nat);
    let w = writes[i];
    assert(after_writes(r, writes, (i + 1) as nat) == after_write(r, w));
    if w.dest < body.num_locals {
        assert(after_write(r, w)[w.dest as int] == r[w.dest as int]);
    }
}

/// Whether no write to `local` has a source that could classify it.
pub open spec fn only_unknown_writes(writes: Seq<Write>, local: Local) -> bool {
    forall|i: int|
        0 <= i < writes.len() && (#[trigger] writes[i]).dest == local ==> writes[i].source
            == Source::Unknown
}

proof fn lemma_untouched(s: Seq<SlotAddrSpace>, writes: Seq<Write>, local: Local, n: nat)
    requires
        only_unknown_writes(writes, local),
        local < s.len(),
        n <= writes.len(),
    ensures
        after_writes(s, writes, n).len() == s.len(),
        after_writes(s, writes, n)[local as int] == s[local as int],
    decreases n,
{
    if n > 0 {
        lemma_untouched(s, writes, local, (n - 1) as nat);
        assert(writes[n - 1].dest == local ==> writes[n - 1].source == Source::Unknown);
    }
}

proof fn lemma_untouched_passes(s: Seq<SlotAddrSpace>, writes: Seq<Write>, local: Local, n: nat)
    requires
        only_unknown_writes(writes, local),
        local < s.len(),
    ensures
        after_passes(s, writes, n)[local as int] == s[local as int],
    decreases n,
{
    if n > 0 && after_pass(s, writes) != s {
        lemma_untouched(s, writes, local, writes.len());
        lemma_untouched_passes(after_pass(s, writes), writes, local, (n - 1) as nat);
    }
}

/// A local that is only written with values that are not reasoned about keeps
/// the address space that Rust declares.
pub proof fn law_unclassified_local_stays_declared(body: Body, local: Local)
    requires
        local < body.num_locals,
        only_unknown_writes(writes_of(body.blocks@, body.blocks@.len()), local),
    ensures
        class_at(inferred(body), local) == SlotAddrSpace::Uninit,
{
    let writes = writes_of(body.blocks@, body.blocks@.len());
    let start = no_classes(body.num_locals as nat);
    lemma_untouched_passes(start, writes, local, pass_limit(body.num_locals as nat));
    lemma_passes_len(start, writes, pass_limit(body.num_locals as nat));
}

// ---------------------------------------------------------------------------
// Locals that are not copied into
// ---------------------------------------------------------------------------

/// Whether no write to `local` copies another local.
pub open spec fn no_copied_writes(writes: Seq<Write>, local: Local) -> bool {
    forall|i: int|
        0 <= i < writes.len() && (#[trigger] writes[i]).dest == local ==> !(writes[i].source
            is Copy)
}

/// Whether one of the first `k` writes puts a pointer into this address space
/// into `local`.
pub open spec fn space_written(writes: Seq<Write>, local: Local, space: u32, k: nat) -> bool {
    exists|i: int|
        0 <= i < k && (#[trigger] writes[i]).dest == local && writes[i].source == Source::Space(
            space,
        )
}

/// The spaces among the first `k` writes to `local`, merged.
spec fn written_class(writes: Seq<Write>, local: Local, k: nat) -> SlotAddrSpace
    decreases k,
{
    if k == 0 {
        SlotAddrSpace::Uninit
    } else {
        let rest = written_class(writes, local, (k - 1) as nat);
        let write = writes[k - 1];
        match write.source {
            Source::Space(n) => if write.dest == local {
                joined_space(rest, SlotAddrSpace::Known(n))
            } else {
                rest
            },
            _ => rest,
        }
    }
}

proof fn lemma_written_class(writes: Seq<Write>, local: Local, k: nat)
    requires
        k <= writes.len(),
    ensures
        match written_class(writes, local, k) {
            SlotAddrSpace::Uninit => forall|m: u32| !space_written(writes, local, m, k),
            SlotAddrSpace::Known(n) => space_written(writes, local, n, k) && forall|m: u32|
                space_written(writes, local, m, k) ==> m == n,
            SlotAddrSpace::Generic => exists|m: u32, n: u32|
                m != n && space_written(writes, local, m, k) && space_written(
                    writes,
                    local,
                    n,
                    k,
                ),
        },
    decreases k,
{
    if k > 0 {
        let j = (k - 1) as nat;
        lemma_written_class(writes, local, j);
        let write = writes[k - 1];
        assert forall|m: u32| space_written(writes, local, m, k) <==> space_written(
            writes,
            local,
            m,
            j,
        ) || (write.dest == local && write.source == Source::Space(m)) by {
            if write.dest == local && write.source == Source::Space(m) {
                assert(writes[k - 1].dest == local);
            }
        }
        if write.dest == local {
            if let Source::Space(n) = write.source {
                assert(space_written(writes, local, n, k));
                match written_class(writes, local, j) {
                    SlotAddrSpace::Known(m) => {
                        assert(space_written(writes, local, m, k));
                    },
                    _ => {},
                }
            }
        }
    }
}

proof fn lemma_writes_merge(s: Seq<SlotAddrSpace>, writes: Seq<Write>, local: Local, k: nat)
    requires
        no_copied_writes(writes, local),
        local < s.len(),
        k <= writes.len(),
    ensures
        after_writes(s, writes, k).len() == s.len(),
        after_writes(s, writes, k)[local as int] == joined_space(
            s[local as int],
            written_class(writes, local, k),
        ),
    decreases k,
{
    if k > 0 {
        lemma_writes_merge(s, writes, local, (k - 1) as nat);
        let write = writes[k - 1];
        assert(write.dest == local ==> !(write.source is Copy));
        if let Source::Space(n) = write.source {
            law_merge_is_a_join(
                s[local as int],
                written_class(writes, local, (k - 1) as nat),
                SlotAddrSpace::Known(n),
            );
        }
    }
}

proof fn lemma_passes_merge(s: Seq<SlotAddrSpace>, writes: Seq<Write>, local: Local, n: nat)
    requires
        no_copied_writes(writes, local),
        local < s.len(),
        ({
            let all = written_class(writes, local, writes.len());
            s[local as int] == all || (n >= 1 && s[local as int] == SlotAddrSpace::Uninit)
        }),
    ensures
        after_passes(s, writes, n)[local as int] == written_class(writes, local, writes.len()),
    decreases n,
{
    if n > 0 {
        lemma_writes_merge(s, writes, local, writes.len());
        if after_pass(s, writes) != s {
            lemma_passes_merge(after_pass(s, writes), writes, local, (n - 1) as nat);
        }
    }
}

/// A local into which no other local is copied has the address space that Rust
/// declares where no write to it is classified, the one address space of its
/// classified writes where they agree, and the generic one where they disagree.
pub proof fn law_direct_writes_decide(body: Body, local: Local, rust_declared: u32)
    requires
        local < body.num_locals,
        no_copied_writes(writes_of(body.blocks@, body.blocks@.len()), local),
    ensures
        ({
            let writes = writes_of(body.blocks@, body.blocks@.len());
            let all = writes.len();
            let state = class_at(inferred(body), local);
            &&& (forall|m: u32| !space_written(writes, local, m, all)) ==> state
                == SlotAddrSpace::Uninit && effective_space(state, rust_declared) == rust_declared
            &&& forall|n: u32|
                #[trigger] space_written(writes, local, n, all) && (forall|m: u32| #[trigger]
                    space_written(writes, local, m, all) ==> m == n) ==> state
                    == SlotAddrSpace::Known(n) && effective_space(state, rust_declared) == n
            &&& forall|m: u32, n: u32|
                m != n && #[trigger] space_written(writes, local, m, all)
                    && #[trigger] space_written(writes, local, n, all) ==> state
                    == SlotAddrSpace::Generic && effective_space(state, rust_declared) == GENERIC
        }),
{
    let writes = writes_of(body.blocks@, body.blocks@.len());
    let start = no_classes(body.num_locals as nat);
    lemma_passes_merge(start, writes, local, pass_limit(body.num_locals as nat));
    lemma_passes_len(start, writes, pass_limit(body.num_locals as nat));
    lemma_written_class(writes, local, writes.len());
}

} // verus!
