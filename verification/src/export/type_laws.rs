//! What holds of facts about types, of how types are written, and of their
//! alignment.

use vstd::prelude::*;

use crate::export::function::{addrspace_of_type, LlvmFunction};
use crate::export::pointer_facts::{
    all_merged, from_llvm, from_llvms, gep_ty, indexed_ty, legacy_list_text, legacy_text,
    merged, set_value_type_fact, value_type_facts, with_indexed_ty, AuxData, LegacyTy,
    LegacyType, ScalarTy, Value, ValueFacts,
};
use crate::export::state::{ModuleExportState, PointerMode};
use crate::export::types::{
    abi_alignment, llvm_list_text, llvm_text, type_text, types_text, value_types_text,
    widest_alignment,
};
use crate::ir::llvm::{llvm_ty, llvm_tys, LlvmTy, LlvmType};
use crate::text::decimal;

verus! {

// ---------------------------------------------------------------------------
// Facts
// ---------------------------------------------------------------------------

/// What a type says of a value has the shape of the type: as many fields, the
/// same sizes and address spaces, and each part says what the part of the type
/// says. Only of pointees it says nothing.
pub proof fn law_type_says_its_shape(ty: LlvmTy)
    ensures
        ty matches LlvmTy::Struct { fields } ==> {
            &&& from_llvm(ty) is Struct
            &&& from_llvm(ty)->Struct_0.len() == fields.len()
            &&& forall|i: int|
                0 <= i < fields.len() ==> (#[trigger] from_llvm(ty)->Struct_0[i]) == from_llvm(
                    fields[i],
                )
        },
        ty matches LlvmTy::Array { elem, size } ==> from_llvm(ty) == (LegacyTy::Array {
            elem: Box::new(from_llvm(*elem)),
            size,
        }),
        ty matches LlvmTy::Vector { elem, num_elements, scalable } ==> from_llvm(ty) == (
        LegacyTy::Vector { elem: Box::new(from_llvm(*elem)), num_elements, scalable }),
        ty matches LlvmTy::Pointer { addrspace } ==> from_llvm(ty) == (LegacyTy::Pointer {
            pointee: None,
            addrspace,
        }),
        ty matches LlvmTy::Integer { width } ==> from_llvm(ty) == LegacyTy::Scalar(
            ScalarTy::Integer { width },
        ),
        ty matches LlvmTy::Other { display } ==> from_llvm(ty) == LegacyTy::Scalar(
            ScalarTy::Other { display },
        ),
{
    if let LlvmTy::Struct { fields } = ty {
        assert(from_llvm(ty) == LegacyTy::Struct(from_llvms(fields)));
    }
}

/// Types of different kinds say different things: from what a type says, the
/// type can be told.
pub proof fn law_types_say_different_things(a: LlvmTy, b: LlvmTy)
    requires
        from_llvm(a) == from_llvm(b),
    ensures
        a == b,
    decreases a,
{
    match (a, b) {
        (LlvmTy::Struct { fields: fa }, LlvmTy::Struct { fields: fb }) => {
            law_type_says_its_shape(a);
            law_type_says_its_shape(b);
            assert forall|i: int| 0 <= i < fa.len() implies fa[i] == fb[i] by {
                assert(from_llvm(a)->Struct_0[i] == from_llvm(b)->Struct_0[i]);
                law_types_say_different_things(fa[i], fb[i]);
            }
            assert(fa =~= fb);
        },
        (LlvmTy::Array { elem: ea, .. }, LlvmTy::Array { elem: eb, .. }) => {
            law_types_say_different_things(*ea, *eb);
        },
        (LlvmTy::Vector { elem: ea, .. }, LlvmTy::Vector { elem: eb, .. }) => {
            law_types_say_different_things(*ea, *eb);
        },
        _ => {},
    }
}

/// Facts are merged part by part: pointees behind pointers into one address
/// space, fields of structs with as many fields, elements of arrays and vectors
/// of one size.
pub proof fn law_merge_goes_part_by_part(a: LegacyType, b: LegacyType, m: LegacyType)
    requires
        call_ensures(LegacyType::merge, (&a, &b), m),
    ensures
        a@ is Struct && b@ is Struct && a@->Struct_0.len() == b@->Struct_0.len() ==> {
            &&& m@ is Struct
            &&& m@->Struct_0.len() == a@->Struct_0.len()
            &&& forall|i: int|
                0 <= i < a@->Struct_0.len() ==> (#[trigger] m@->Struct_0[i]) == merged(
                    a@->Struct_0[i],
                    b@->Struct_0[i],
                )
        },
        a@ is Array && b@ is Array && a@->Array_size == b@->Array_size ==> m@ == (LegacyTy::Array {
            elem: Box::new(merged(*a@->Array_elem, *b@->Array_elem)),
            size: a@->Array_size,
        }),
        a@ is Vector && b@ is Vector && a@->num_elements == b@->num_elements && a@->scalable
            == b@->scalable ==> m@ == (LegacyTy::Vector {
            elem: Box::new(merged(*a@->Vector_elem, *b@->Vector_elem)),
            num_elements: a@->num_elements,
            scalable: a@->scalable,
        }),
        a@ is Pointer && b@ is Pointer && a@->addrspace == b@->addrspace ==> {
            &&& m@ is Pointer
            &&& m@->addrspace == a@->addrspace
            &&& m@->pointee is Some <==> a@->pointee is Some || b@->pointee is Some
            &&& a@->pointee is None ==> m@->pointee == b@->pointee
            &&& b@->pointee is None ==> m@->pointee == a@->pointee
            &&& a@->pointee is Some && b@->pointee is Some ==> *m@->pointee->0 == merged(
                *a@->pointee->0,
                *b@->pointee->0,
            )
        },
        a@ is Scalar ==> m@ == a@,
        a@ is Pointer ==> m@ is Pointer && m@->addrspace == a@->addrspace,
{
    if a@ is Struct && b@ is Struct && a@->Struct_0.len() == b@->Struct_0.len() {
        assert(m@ == LegacyTy::Struct(all_merged(a@->Struct_0, b@->Struct_0)));
    }
}

/// A pointer computation whose indices, from the second on, are all constants
/// in range ends where these indices lead.
pub proof fn law_gep_follows_constant_indices(
    t: LegacyTy,
    pos: nat,
    indices: nat,
    const_indices: Seq<Option<u32>>,
    path: Seq<u32>,
)
    requires
        pos <= indices,
        indices <= const_indices.len(),
        path.len() == indices - pos,
        forall|k: int|
            pos <= k < indices ==> (#[trigger] const_indices[k]) == Some(path[k - pos]),
        indexed_ty(t, path) is Some,
    ensures
        gep_ty(t, pos, indices, const_indices) == indexed_ty(t, path)->0,
    decreases indices - pos,
{
    if pos < indices {
        assert(const_indices[pos as int] == Some(path[0]));
        let rest = path.drop_first();
        assert forall|k: int| pos + 1 <= k < indices implies (#[trigger] const_indices[k]) == Some(
            rest[k - (pos + 1)],
        ) by {
            assert(rest[k - (pos + 1)] == path[k - pos]);
        }
        match t {
            LegacyTy::Struct(fields) => law_gep_follows_constant_indices(
                fields[path[0] as int],
                pos + 1,
                indices,
                const_indices,
                rest,
            ),
            LegacyTy::Array { elem, .. } => law_gep_follows_constant_indices(
                *elem,
                pos + 1,
                indices,
                const_indices,
                rest,
            ),
            _ => {},
        }
    }
}

/// With at most one index a pointer computation stays at its source element.
/// It goes into the elements of an array or a vector by any index, stays at a
/// struct unless a constant selects one of its fields, and at anything else.
pub proof fn law_gep_into_one_level(
    t: LegacyType,
    indices: usize,
    const_indices: Vec<Option<u32>>,
    end: LegacyType,
)
    requires
        call_ensures(LegacyType::gep_indexed_pointee, (&t, indices, &const_indices), end),
    ensures
        indices <= 1 ==> end@ == t@,
        indices == 2 && t@ is Array ==> end@ == *t@->Array_elem,
        indices == 2 && t@ is Vector ==> end@ == *t@->Vector_elem,
        indices >= 2 && t@ is Struct && (const_indices@.len() < 2 || const_indices@[1] is None
            || const_indices@[1]->0 >= t@->Struct_0.len()) ==> end@ == t@,
        indices == 2 && t@ is Struct && const_indices@.len() >= 2 && const_indices@[1] is Some
            && const_indices@[1]->0 < t@->Struct_0.len() ==> end@
            == t@->Struct_0[const_indices@[1]->0 as int],
        t@ is Scalar || t@ is Pointer ==> end@ == t@,
{
    reveal_with_fuel(gep_ty, 3);
}

/// Indices lead one level at a time: the first selects a field of a struct or
/// an element of an array, if it is in range, and the others go on from there.
pub proof fn law_indices_lead_level_by_level(t: LegacyTy, first: u32, rest: Seq<u32>)
    ensures
        ({
            let part = indexed_ty(t, seq![first] + rest);
            &&& indexed_ty(t, Seq::empty()) == Some(t)
            &&& t is Struct && first < t->Struct_0.len() ==> part == indexed_ty(
                t->Struct_0[first as int],
                rest,
            )
            &&& t is Array && first < t->Array_size ==> part == indexed_ty(*t->Array_elem, rest)
            &&& t is Struct && first >= t->Struct_0.len() ==> part is None
            &&& t is Array && first >= t->Array_size ==> part is None
            &&& t is Scalar || t is Pointer || t is Vector ==> part is None
        }),
{
    assert((seq![first] + rest).drop_first() =~= rest);
}

/// Moving a type into an address space moves a pointer and nothing else: the
/// pointee stays, and moving back restores the type.
pub proof fn law_moving_keeps_pointee(t: LegacyType, space: u32, moved: LegacyType, back: LegacyType)
    requires
        call_ensures(LegacyType::with_addrspace, (&t, space), moved),
        t@ is Pointer ==> call_ensures(
            LegacyType::with_addrspace,
            (&moved, t@->addrspace),
            back,
        ),
    ensures
        t@ is Pointer ==> moved@ is Pointer && moved@->pointee == t@->pointee && moved@->addrspace
            == space && back@ == t@,
        t@ !is Pointer ==> moved@ == t@,
{
}

/// What a pointer was made from can be read off it.
pub proof fn law_pointer_reads_back(
    pointee: LegacyType,
    llvm_pointee: LlvmType,
    space: u32,
    known: LegacyType,
    from_type: LegacyType,
    unknown: LegacyType,
)
    requires
        call_ensures(LegacyType::pointer_to, (pointee, space), known),
        call_ensures(LegacyType::pointer_to_llvm, (&llvm_pointee, space), from_type),
        call_ensures(LegacyType::unknown_pointer, (space,), unknown),
    ensures
        known@ is Pointer && known@->addrspace == space,
        known@->pointee == Some(Box::new(pointee@)),
        from_type@ is Pointer && from_type@->addrspace == space,
        from_type@->pointee == Some(Box::new(from_llvm(llvm_pointee@))),
        unknown@ is Pointer && unknown@->addrspace == space,
        unknown@->pointee is None,
{
}

/// The address space of a pointer type is its own; of any other type it is 0.
pub proof fn law_address_space_of_type(ty: LlvmType, space: u32)
    requires
        call_ensures(addrspace_of_type, (&ty,), space),
    ensures
        ty@ is Pointer ==> space == ty@->addrspace,
        ty@ !is Pointer ==> space == 0,
{
}

/// A stored fact is read back: as it is where nothing was stored of the value,
/// merged behind what was; nothing else changes.
pub proof fn law_stored_fact_reads_back(
    aux: &mut AuxData,
    value: Value,
    fact: LegacyType,
    facts: ValueFacts,
    other: Value,
)
    requires
        call_ensures(set_value_type_fact, (aux, value, fact), ()),
        call_ensures(value_type_facts, (final(aux),), facts),
        other != value,
    ensures
        facts@.contains_key(value),
        !old(aux).facts().contains_key(value) ==> facts@[value] == fact@,
        old(aux).facts().contains_key(value) ==> facts@[value] == merged(
            old(aux).facts()[value],
            fact@,
        ),
        facts@.contains_key(other) == old(aux).facts().contains_key(other),
        facts@.contains_key(other) ==> facts@[other] == old(aux).facts()[other],
{
}

// ---------------------------------------------------------------------------
// Text
// ---------------------------------------------------------------------------

/// Whether no pointer and no scalable vector occurs in the type.
pub open spec fn same_in_both_syntaxes(t: LlvmTy) -> bool
    decreases t,
{
    match t {
        LlvmTy::Pointer { .. } => false,
        LlvmTy::Struct { fields } => forall|i: int|
            0 <= i < fields.len() ==> same_in_both_syntaxes(#[trigger] fields[i]),
        LlvmTy::Array { elem, .. } => same_in_both_syntaxes(*elem),
        LlvmTy::Vector { elem, scalable, .. } => !scalable && same_in_both_syntaxes(*elem),
        _ => true,
    }
}

proof fn lemma_lists_agree(fields: Seq<LlvmTy>, n: nat)
    requires
        n <= fields.len(),
        forall|i: int| 0 <= i < fields.len() ==> same_in_both_syntaxes(#[trigger] fields[i]),
    ensures
        legacy_list_text(from_llvm(LlvmTy::Struct { fields })->Struct_0, n) == llvm_list_text(
            fields,
            n,
        ),
    decreases fields, n,
{
    let facts = from_llvm(LlvmTy::Struct { fields })->Struct_0;
    law_type_says_its_shape(LlvmTy::Struct { fields });
    if n > 0 {
        assert(same_in_both_syntaxes(fields[n - 1]));
        law_syntaxes_agree(fields[n - 1]);
        assert(facts[n - 1] == from_llvm(fields[n - 1]));
        if n > 1 {
            lemma_lists_agree(fields, (n - 1) as nat);
        }
    }
}

/// The two pointer syntaxes differ in pointers only: a type without pointers
/// is written alike in both.
pub proof fn law_syntaxes_agree(t: LlvmTy)
    requires
        same_in_both_syntaxes(t),
    ensures
        legacy_text(from_llvm(t)) == llvm_text(t),
    decreases t, 0nat,
{
    match t {
        LlvmTy::Struct { fields } => {
            law_type_says_its_shape(t);
            lemma_lists_agree(fields, fields.len());
        },
        LlvmTy::Array { elem, .. } => law_syntaxes_agree(*elem),
        LlvmTy::Vector { elem, .. } => law_syntaxes_agree(*elem),
        _ => {},
    }
}

/// In typed syntax a pointer is written as its pointee, then its address space
/// where that is not the generic one, then a star; without a pointee it is
/// written as a pointer to bytes.
pub proof fn law_typed_pointer_text(t: LegacyType, text: String)
    requires
        call_ensures(LegacyType::to_llvm_string, (&t,), text),
        t@ is Pointer,
    ensures
        ({
            let base = match t@->pointee {
                Some(p) => legacy_text(*p),
                None => legacy_text(LegacyTy::Scalar(ScalarTy::Integer { width: 8 })),
            };
            &&& text@.last() == '*'
            &&& base.is_prefix_of(text@)
            &&& t@->addrspace == 0 ==> text@ == base + seq!['*']
            &&& t@->addrspace != 0 ==> text@ == base + " addrspace("@ + decimal(
                t@->addrspace as nat,
            ) + seq![')', '*']
        }),
{
    reveal_strlit("*");
    reveal_strlit(")");
    reveal_strlit("i8");
    reveal_strlit("i");
    reveal_with_fuel(decimal, 2);
    assert(decimal(8) =~= seq!['8']);
    assert("i8"@ =~= "i"@ + decimal(8));
    let base = match t@->pointee {
        Some(p) => legacy_text(*p),
        None => legacy_text(LegacyTy::Scalar(ScalarTy::Integer { width: 8 })),
    };
    if t@->addrspace == 0 {
        assert(text@ =~= base + seq!['*']);
    } else {
        assert(text@ =~= base + " addrspace("@ + decimal(t@->addrspace as nat) + seq![')', '*']);
    }
}

proof fn lemma_longer_legacy_list(fields: Seq<LegacyTy>, more: LegacyTy, n: nat)
    requires
        n <= fields.len(),
    ensures
        legacy_list_text(fields.push(more), n) == legacy_list_text(fields, n),
    decreases n,
{
    if n > 1 {
        lemma_longer_legacy_list(fields, more, (n - 1) as nat);
    }
}

/// In typed syntax the parts of a struct are written in order, with commas
/// between them: one more field goes behind the others.
pub proof fn law_typed_struct_text_grows(fields: Seq<LegacyTy>, more: LegacyTy)
    ensures
        legacy_text(LegacyTy::Struct(fields.push(more))) == if fields.len() == 0 {
            "{ "@ + legacy_text(more) + " }"@
        } else {
            legacy_text(LegacyTy::Struct(fields)).drop_last().drop_last() + ", "@ + legacy_text(
                more,
            ) + " }"@
        },
{
    reveal_strlit(" }");
    lemma_longer_legacy_list(fields, more, fields.len());
    let before = legacy_text(LegacyTy::Struct(fields));
    let list = fields.push(more);
    let n = list.len();
    assert(legacy_list_text(list, n) == if n == 1 {
        legacy_text(list[0])
    } else {
        legacy_list_text(list, (n - 1) as nat) + ", "@ + legacy_text(list[n - 1])
    });
    assert(before.drop_last().drop_last() =~= "{ "@ + legacy_list_text(fields, fields.len()));
    if fields.len() > 0 {
        assert(legacy_text(LegacyTy::Struct(fields.push(more))) =~= before.drop_last().drop_last()
            + ", "@ + legacy_text(more) + " }"@);
    }
}

proof fn lemma_longer_llvm_list(fields: Seq<LlvmTy>, more: LlvmTy, n: nat)
    requires
        n <= fields.len(),
    ensures
        llvm_list_text(fields.push(more), n) == llvm_list_text(fields, n),
    decreases n,
{
    if n > 1 {
        lemma_longer_llvm_list(fields, more, (n - 1) as nat);
    }
}

/// With opaque pointers the parts of a struct are written in order, with
/// commas between them: one more field goes behind the others.
pub proof fn law_opaque_struct_text_grows(fields: Seq<LlvmTy>, more: LlvmTy)
    ensures
        llvm_text(LlvmTy::Struct { fields: fields.push(more) }) == if fields.len() == 0 {
            "{ "@ + llvm_text(more) + " }"@
        } else {
            llvm_text(LlvmTy::Struct { fields }).drop_last().drop_last() + ", "@ + llvm_text(more)
                + " }"@
        },
{
    reveal_strlit(" }");
    lemma_longer_llvm_list(fields, more, fields.len());
    let before = llvm_text(LlvmTy::Struct { fields });
    let list = fields.push(more);
    let n = list.len();
    assert(llvm_list_text(list, n) == if n == 1 {
        llvm_text(list[0])
    } else {
        llvm_list_text(list, (n - 1) as nat) + ", "@ + llvm_text(list[n - 1])
    });
    assert(before.drop_last().drop_last() =~= "{ "@ + llvm_list_text(fields, fields.len()));
    if fields.len() > 0 {
        assert(llvm_text(LlvmTy::Struct { fields: fields.push(more) })
            =~= before.drop_last().drop_last() + ", "@ + llvm_text(more) + " }"@);
    }
}

/// An opaque pointer is written by its address space alone, an array by its
/// size and its element, a vector likewise in angle brackets.
pub proof fn law_opaque_text_of_parts(
    state: ModuleExportState,
    ty: LlvmType,
    output: &mut String,
    r: Result<(), String>,
)
    requires
        call_ensures(ModuleExportState::export_type, (&state, &ty, output), r),
    ensures
        r is Ok,
        old(output)@.is_prefix_of(final(output)@),
        ({
            let text = final(output)@.skip(old(output)@.len() as int);
            &&& ty@ matches LlvmTy::Array { elem, size } ==> text == seq!['['] + decimal(
                size as nat,
            ) + " x "@ + llvm_text(*elem) + seq![']']
            &&& ty@ matches LlvmTy::Vector { elem, num_elements, .. } ==> text == seq!['<']
                + decimal(num_elements as nat) + " x "@ + llvm_text(*elem) + seq!['>']
            &&& ty@ matches LlvmTy::Integer { width } ==> text == seq!['i'] + decimal(width as nat)
            &&& ty@ matches LlvmTy::Pointer { addrspace } ==> text == if addrspace == 0 {
                "ptr"@
            } else {
                "ptr"@ + " addrspace("@ + decimal(addrspace as nat) + seq![')']
            }
        }),
{
    reveal_strlit("[");
    reveal_strlit("]");
    reveal_strlit("<");
    reveal_strlit(">");
    reveal_strlit("i");
    reveal_strlit(")");
    reveal_strlit("ptr");
    reveal_strlit(" addrspace(");
    reveal_strlit("ptr addrspace(");
    assert("["@ =~= seq!['[']);
    assert("]"@ =~= seq![']']);
    assert("<"@ =~= seq!['<']);
    assert(">"@ =~= seq!['>']);
    assert("i"@ =~= seq!['i']);
    assert(")"@ =~= seq![')']);
    assert("ptr addrspace("@ =~= "ptr"@ + " addrspace("@);
    assert(final(output)@.skip(old(output)@.len() as int) =~= llvm_text(ty@));
    assert(old(output)@.is_prefix_of(final(output)@));
}

/// The type of a value is written as what is known of the value, in typed
/// syntax where anything is; otherwise the value does not matter.
pub proof fn law_value_type_text(
    state: ModuleExportState,
    func: LlvmFunction,
    value: Value,
    by_value: &mut String,
    by_type: &mut String,
    r: Result<(), String>,
    s: Result<(), String>,
)
    requires
        call_ensures(ModuleExportState::export_value_type, (&state, &func, value, by_value), r),
        call_ensures(
            ModuleExportState::export_type_without_value,
            (&state, &func.value_types@[value as int], by_type),
            s,
        ),
        old(by_value)@ == old(by_type)@,
    ensures
        r is Ok && s is Ok,
        state.pointer_mode == PointerMode::Opaque || !state.legacy_type_facts@.contains_key(value)
            ==> final(by_value)@ == final(by_type)@,
        state.pointer_mode == PointerMode::Opaque ==> final(by_type)@ == old(by_type)@ + llvm_text(
            func.type_of(value),
        ),
        state.pointer_mode == PointerMode::LegacyTyped ==> final(by_type)@ == old(by_type)@
            + legacy_text(from_llvm(func.type_of(value))),
        state.pointer_mode == PointerMode::LegacyTyped && state.legacy_type_facts@.contains_key(
            value,
        ) ==> final(by_value)@ == old(by_value)@ + legacy_text(state.legacy_type_facts@[value]),
{
}

proof fn lemma_arguments_by_type(
    state: ModuleExportState,
    func: LlvmFunction,
    args: Seq<Value>,
    arg_tys: Seq<LlvmTy>,
    n: nat,
)
    requires
        n <= args.len(),
        args.len() == arg_tys.len(),
        forall|i: int|
            0 <= i < args.len() ==> func.type_of(#[trigger] args[i]) == arg_tys[i]
                && !state.legacy_type_facts@.contains_key(args[i]),
    ensures
        value_types_text(state, func, args, n) == types_text(state.pointer_mode, arg_tys, n),
    decreases n,
{
    if n > 0 {
        lemma_arguments_by_type(state, func, args, arg_tys, (n - 1) as nat);
        assert(func.type_of(args[n - 1]) == arg_tys[n - 1]);
        assert(func.type_of(args[0]) == arg_tys[0]);
    }
}

/// A call of which nothing is known but the types of its arguments refers to
/// the function as its declaration does.
pub proof fn law_calls_refer_like_declarations(
    state: ModuleExportState,
    func: LlvmFunction,
    name: &str,
    ret_ty: LlvmType,
    args: Vec<Value>,
    arg_tys: Vec<LlvmType>,
    called: String,
    declared: String,
)
    requires
        call_ensures(
            ModuleExportState::legacy_function_ref,
            (&state, &func, name, &ret_ty, &args),
            called,
        ),
        call_ensures(
            ModuleExportState::legacy_decl_function_ref,
            (&state, name, &ret_ty, &arg_tys),
            declared,
        ),
        args@.len() == arg_tys@.len(),
        forall|i: int|
            0 <= i < args@.len() ==> func.type_of(#[trigger] args@[i]) == llvm_ty(arg_tys@[i])
                && !state.legacy_type_facts@.contains_key(args@[i]),
    ensures
        called@ == declared@,
{
    let tys = llvm_tys(arg_tys@);
    assert forall|i: int| 0 <= i < args@.len() implies func.type_of(#[trigger] args@[i]) == tys[i]
        && !state.legacy_type_facts@.contains_key(args@[i]) by {}
    lemma_arguments_by_type(state, func, args@, tys, args@.len());
}

proof fn lemma_longer_types_text(mode: PointerMode, types: Seq<LlvmTy>, more: LlvmTy, n: nat)
    requires
        n <= types.len(),
    ensures
        types_text(mode, types.push(more), n) == types_text(mode, types, n),
    decreases n,
{
    if n > 0 {
        lemma_longer_types_text(mode, types, more, (n - 1) as nat);
    }
}

/// A declaration refers to a function by its result type, its argument types
/// in order with commas between them, and its name.
pub proof fn law_declaration_lists_arguments(
    state: ModuleExportState,
    name: &str,
    ret_ty: LlvmType,
    none: Vec<LlvmType>,
    arg_tys: Vec<LlvmType>,
    longer: Vec<LlvmType>,
    bare: String,
    short: String,
    long: String,
)
    requires
        call_ensures(
            ModuleExportState::legacy_decl_function_ref,
            (&state, name, &ret_ty, &none),
            bare,
        ),
        call_ensures(
            ModuleExportState::legacy_decl_function_ref,
            (&state, name, &ret_ty, &arg_tys),
            short,
        ),
        call_ensures(
            ModuleExportState::legacy_decl_function_ref,
            (&state, name, &ret_ty, &longer),
            long,
        ),
        none@.len() == 0,
        arg_tys@.len() > 0,
        longer@.len() == arg_tys@.len() + 1,
        longer@.drop_last() == arg_tys@,
    ensures
        bare@ == type_text(state.pointer_mode, ret_ty@) + " ()* @"@ + name@,
        ({
            let head = short@.take(short@.len() - name@.len() - 4);
            &&& short@ == head + ")* @"@ + name@
            &&& long@ == head + ", "@ + type_text(state.pointer_mode, llvm_ty(longer@.last()))
                + ")* @"@ + name@
        }),
{
    reveal_strlit(" ()* @");
    reveal_strlit(" (");
    reveal_strlit(")* @");
    assert(" ()* @"@ =~= " ("@ + ")* @"@);
    assert(bare@ =~= type_text(state.pointer_mode, ret_ty@) + " ()* @"@ + name@);
    let mode = state.pointer_mode;
    let tys = llvm_tys(arg_tys@);
    let more = llvm_ty(longer@.last());
    let n = arg_tys@.len();
    assert(llvm_tys(longer@) =~= tys.push(more)) by {
        assert forall|i: int| 0 <= i < n implies llvm_tys(longer@)[i] == tys[i] by {
            assert(longer@.drop_last()[i] == longer@[i]);
        }
    }
    lemma_longer_types_text(mode, tys, more, n);
    let head = short@.take(short@.len() - name@.len() - 4);
    assert(head =~= type_text(mode, ret_ty@) + " ("@ + types_text(mode, tys, n));
    assert(short@ =~= head + ")* @"@ + name@);
    assert(long@ =~= head + ", "@ + type_text(mode, more) + ")* @"@ + name@);
}

// ---------------------------------------------------------------------------
// Alignment
// ---------------------------------------------------------------------------

/// Whether `n` is a power of two.
pub open spec fn is_power_of_two(n: nat) -> bool
    decreases n,
{
    n == 1 || (n > 1 && n % 2 == 0 && is_power_of_two(n / 2))
}

/// The alignment of a vector is a power of two no larger than 128 and no larger
/// than the vector; twice as much would be too large.
pub proof fn law_vector_alignment(
    state: ModuleExportState,
    ty: LlvmType,
    elem: LlvmType,
    align: u32,
    elem_align: u32,
)
    requires
        call_ensures(ModuleExportState::natural_alignment, (&state, &ty), align),
        call_ensures(ModuleExportState::natural_alignment, (&state, &elem), elem_align),
        ty@ is Vector,
        *ty@->Vector_elem == elem@,
    ensures
        is_power_of_two(align as nat),
        align <= 128,
        align == 1 || align <= elem_align * ty@->num_elements,
        align == 128 || 2 * align > elem_align * ty@->num_elements,
{
    reveal_with_fuel(is_power_of_two, 9);
}

/// An integer is aligned to its whole bytes: as many as hold its bits, and no
/// more, but at least one.
pub proof fn law_integer_alignment(
    state: ModuleExportState,
    ty: LlvmType,
    align: u32,
)
    requires
        call_ensures(ModuleExportState::natural_alignment, (&state, &ty), align),
        ty@ is Integer,
    ensures
        8 * align >= ty@->width,
        align >= 1,
        align == 1 || 8 * (align - 1) < ty@->width,
{
}

/// A pointer, and any type that is not known, is aligned to 8; a float of n
/// bytes to n; an array like its elements.
pub proof fn law_alignment_of_others(
    state: ModuleExportState,
    ty: LlvmType,
    elem: LlvmType,
    align: u32,
    elem_align: u32,
)
    requires
        call_ensures(ModuleExportState::natural_alignment, (&state, &ty), align),
        call_ensures(ModuleExportState::natural_alignment, (&state, &elem), elem_align),
    ensures
        ty@ is Pointer || ty@ is Other || ty@ is Void || ty@ is Double ==> align == 8,
        ty@ is Float ==> align == 4,
        ty@ is Half ==> align == 2,
        ty@ is Array && *ty@->Array_elem == elem@ ==> align == elem_align,
{
}

proof fn lemma_widest(types: Seq<LlvmTy>, n: nat)
    requires
        n <= types.len(),
    ensures
        forall|i: int| 0 <= i < n ==> abi_alignment(#[trigger] types[i]) <= widest_alignment(types, n),
        widest_alignment(types, n) >= 1,
        widest_alignment(types, n) == 1 || exists|i: int|
            0 <= i < n && abi_alignment(#[trigger] types[i]) == widest_alignment(types, n),
    decreases n,
{
    if n > 0 {
        lemma_widest(types, (n - 1) as nat);
        assert(abi_alignment(types[n - 1]) <= widest_alignment(types, n));
        if widest_alignment(types, n) != 1 && abi_alignment(types[n - 1]) != widest_alignment(
            types,
            n,
        ) {
            let i = choose|i: int|
                0 <= i < n - 1 && abi_alignment(#[trigger] types[i]) == widest_alignment(
                    types,
                    (n - 1) as nat,
                );
            assert(abi_alignment(types[i]) == widest_alignment(types, n));
        }
    }
}

/// A struct is aligned like its widest field: at least as widely as each, and
/// as widely as one of them, or to 1.
pub proof fn law_struct_alignment(state: ModuleExportState, ty: LlvmType, align: u32)
    requires
        call_ensures(ModuleExportState::natural_alignment, (&state, &ty), align),
        ty@ is Struct,
    ensures
        align >= 1,
        forall|i: int|
            0 <= i < ty@->fields.len() ==> abi_alignment(#[trigger] ty@->fields[i]) <= align,
        align == 1 || exists|i: int|
            0 <= i < ty@->fields.len() && abi_alignment(#[trigger] ty@->fields[i]) == align,
{
    lemma_widest(ty@->fields, ty@->fields.len());
}

// ---------------------------------------------------------------------------
// Names
// ---------------------------------------------------------------------------

/// Barriers, barriers in memory, shuffles, votes and bulk copies are
/// convergent, each in every form, and no other function is.
pub proof fn law_convergent_families(name: &str, suffix: Seq<char>, yes: bool)
    requires
        call_ensures(ModuleExportState::is_convergent_intrinsic, (name,), yes),
    ensures
        name@ == "llvm.nvvm.barrier"@ + suffix ==> yes,
        name@ == "llvm.nvvm.mbarrier"@ + suffix ==> yes,
        name@ == "llvm.nvvm.shfl"@ + suffix ==> yes,
        name@ == "llvm.nvvm.vote"@ + suffix ==> yes,
        name@ == "llvm.nvvm.cp.async.bulk"@ + suffix ==> yes,
        yes ==> name@.len() >= 14 && name@.take(10) == "llvm.nvvm."@,
        yes && name@[10] == 'b' ==> name@.take(17) == "llvm.nvvm.barrier"@,
        yes && name@[10] == 'm' ==> name@.take(18) == "llvm.nvvm.mbarrier"@,
        yes && name@[10] == 's' ==> name@.take(14) == "llvm.nvvm.shfl"@,
        yes && name@[10] == 'v' ==> name@.take(14) == "llvm.nvvm.vote"@,
        yes && name@[10] == 'c' ==> name@.take(23) == "llvm.nvvm.cp.async.bulk"@,
        yes ==> name@[10] == 'b' || name@[10] == 'm' || name@[10] == 's' || name@[10] == 'v'
            || name@[10] == 'c',
{
    reveal_strlit("llvm.nvvm.");
    reveal_strlit("llvm.nvvm.barrier0");
    reveal_strlit("llvm.nvvm.barrier");
    reveal_strlit("llvm.nvvm.mbarrier");
    reveal_strlit("llvm.nvvm.shfl");
    reveal_strlit("llvm.nvvm.vote");
    reveal_strlit("llvm.nvvm.cp.async.bulk");
    let all = name@;
    if yes {
        if "llvm.nvvm.mbarrier"@.is_prefix_of(all) {
            assert(all.take(18) =~= "llvm.nvvm.mbarrier"@);
            assert(all.take(10) =~= "llvm.nvvm."@);
            assert(all[10] == "llvm.nvvm.mbarrier"@[10]);
        } else if "llvm.nvvm.shfl"@.is_prefix_of(all) {
            assert(all.take(14) =~= "llvm.nvvm.shfl"@);
            assert(all.take(10) =~= "llvm.nvvm."@);
            assert(all[10] == "llvm.nvvm.shfl"@[10]);
        } else if "llvm.nvvm.vote"@.is_prefix_of(all) {
            assert(all.take(14) =~= "llvm.nvvm.vote"@);
            assert(all.take(10) =~= "llvm.nvvm."@);
            assert(all[10] == "llvm.nvvm.vote"@[10]);
        } else if "llvm.nvvm.cp.async.bulk"@.is_prefix_of(all) {
            assert(all.take(23) =~= "llvm.nvvm.cp.async.bulk"@);
            assert(all.take(10) =~= "llvm.nvvm."@);
            assert(all[10] == "llvm.nvvm.cp.async.bulk"@[10]);
        } else {
            assert(all.take(17) =~= "llvm.nvvm.barrier"@);
            assert(all.take(10) =~= "llvm.nvvm."@);
            assert(all[10] == "llvm.nvvm.barrier"@[10]);
        }
    }
}

/// A function that has been registered is referred to by its registered
/// reference, any other by one without arguments; the entry in the list of
/// used symbols casts that reference. With opaque pointers both are the name.
pub proof fn law_function_references(
    state: ModuleExportState,
    name: &str,
    reference: String,
    entry: String,
    entry_type: &'static str,
)
    requires
        call_ensures(ModuleExportState::metadata_function_ref, (&state, name), reference),
        call_ensures(ModuleExportState::llvm_used_entry, (&state, name), entry),
        call_ensures(ModuleExportState::llvm_used_entry_type, (&state,), entry_type),
    ensures
        state.pointer_mode == PointerMode::Opaque ==> reference@ == entry@ && reference@
            == entry_type@ + " @"@ + name@ && entry_type@ == "ptr"@,
        state.pointer_mode == PointerMode::LegacyTyped ==> entry@ == entry_type@ + " bitcast ("@
            + reference@ + " to "@ + entry_type@ + ")"@ && entry_type@ == "i8*"@,
        state.pointer_mode == PointerMode::LegacyTyped && state.function_refs@.contains_key(name@)
            ==> reference@ == state.function_refs@[name@]@,
        state.pointer_mode == PointerMode::LegacyTyped && !state.function_refs@.contains_key(name@)
            ==> reference@ == "void ()* @"@ + name@,
{
    reveal_strlit("ptr");
    reveal_strlit(" @");
    reveal_strlit("ptr @");
    reveal_strlit("i8*");
    reveal_strlit(" bitcast (");
    reveal_strlit("i8* bitcast (");
    reveal_strlit(" to ");
    reveal_strlit(")");
    reveal_strlit(" to i8*)");
    assert("ptr @"@ =~= "ptr"@ + " @"@);
    assert("i8* bitcast ("@ =~= "i8*"@ + " bitcast ("@);
    assert(" to i8*)"@ =~= " to "@ + "i8*"@ + ")"@);
    if state.pointer_mode == PointerMode::LegacyTyped {
        assert(entry@ =~= entry_type@ + " bitcast ("@ + reference@ + " to "@ + entry_type@ + ")"@);
    }
}

/// Replacing a part leaves everything beside the way to it as it was: the
/// number of fields and the other fields of a struct, the size of an array.
pub proof fn law_replacing_keeps_the_rest(
    t: LegacyTy,
    first: u32,
    rest: Seq<u32>,
    value: LegacyTy,
    j: int,
)
    requires
        with_indexed_ty(t, seq![first] + rest, value) is Some,
    ensures
        ({
            let whole = with_indexed_ty(t, seq![first] + rest, value)->0;
            &&& t is Struct ==> whole is Struct && whole->Struct_0.len() == t->Struct_0.len()
            &&& t is Struct && 0 <= j < t->Struct_0.len() && j != first ==> whole->Struct_0[j]
                == t->Struct_0[j]
            &&& t is Struct ==> with_indexed_ty(t->Struct_0[first as int], rest, value) == Some(
                whole->Struct_0[first as int],
            )
            &&& t is Array ==> whole is Array && whole->Array_size == t->Array_size
            &&& t is Array ==> with_indexed_ty(*t->Array_elem, rest, value) == Some(
                *whole->Array_elem,
            )
        }),
{
    assert((seq![first] + rest).drop_first() =~= rest);
}

/// In typed syntax an array is written by its size and its element, a vector
/// likewise in angle brackets, with a word more where its length scales.
pub proof fn law_typed_text_of_parts(t: LegacyType, text: String)
    requires
        call_ensures(LegacyType::to_llvm_string, (&t,), text),
    ensures
        t@ matches LegacyTy::Array { elem, size } ==> text@ == seq!['['] + decimal(size as nat)
            + " x "@ + legacy_text(*elem) + seq![']'],
        t@ matches LegacyTy::Vector { elem, num_elements, scalable } ==> text@ == (if scalable {
            seq!['<'] + "vscale x "@
        } else {
            seq!['<']
        }) + decimal(num_elements as nat) + " x "@ + legacy_text(*elem) + seq!['>'],
{
    reveal_strlit("[");
    reveal_strlit("]");
    reveal_strlit("<");
    reveal_strlit(">");
    reveal_strlit("vscale x ");
    reveal_strlit("<vscale x ");
    assert("["@ =~= seq!['[']);
    assert("]"@ =~= seq![']']);
    assert("<"@ =~= seq!['<']);
    assert(">"@ =~= seq!['>']);
    assert("<vscale x "@ =~= seq!['<'] + "vscale x "@);
}

} // verus!
