//! What holds of every converted type and every lowered function signature.

use vstd::prelude::*;

use crate::ir::llvm::{llvm_tys, LlvmTy, LlvmType};
use crate::ir::mir::{mir_tys, payloads, EnumVariant, MirStructType, MirTy, MirType};
use crate::lowering::layout::{
    get_type_size, mir_stored_size, natural_end, natural_size, zero_sized,
};
use crate::lowering::slot_laws::law_slots_hold_their_fields;
use crate::lowering::types::{
    build_struct_slot_map, convert_enum_to_llvm, convert_function_type, convert_ty,
    convert_type, convert_tys, enum_memory_divergence, explicit_layout, field_size, flat_fields,
    flat_input, flat_inputs, is_kernel_func, is_permutation, layout_error,
    lemma_convert_tys_len, lemma_flat_inputs_error, lemma_identity_permutation,
    make_slice_struct, memory_order, number_list, place, placed, struct_facts, tuple_facts,
    ConvertErr, ConvertError, LayoutFacts, LlvmFuncType, MirFuncType, StructLayoutInfo,
    StructSlotMap,
};
use crate::text::decimal;

verus! {

/// An integer keeps its width and loses its signedness, a float keeps its
/// precision, a pointer its address space whatever it points to; a slice is a
/// generic pointer and a 64-bit length; a type of which nothing is known is an
/// error that names it.
pub proof fn law_scalars_convert_one_to_one(ty: MirType, r: Result<LlvmType, ConvertError>)
    requires
        call_ensures(convert_type, (&ty,), r),
    ensures
        ty@ is Integer ==> r is Ok && r->Ok_0@ == (LlvmTy::Integer { width: ty@->width }),
        ty@ is Fp16 ==> r is Ok && r->Ok_0@ is Half,
        ty@ is Fp32 ==> r is Ok && r->Ok_0@ is Float,
        ty@ is Fp64 ==> r is Ok && r->Ok_0@ is Double,
        ty@ is Ptr ==> r is Ok && r->Ok_0@ == (LlvmTy::Pointer { addrspace: ty@->address_space }),
        ty@ is Slice || ty@ is DisjointSlice ==> {
            &&& r is Ok
            &&& r->Ok_0@ is Struct
            &&& r->Ok_0@->fields.len() == 2
            &&& r->Ok_0@->fields[0] == (LlvmTy::Pointer { addrspace: 0 })
            &&& r->Ok_0@->fields[1] == (LlvmTy::Integer { width: 64 })
        },
        ty@ is Other ==> r is Err && r->Err_0@ == (ConvertErr::Unsupported {
            display: ty@->display,
        }),
{
}

/// The struct of a slice is what a slice converts to.
pub proof fn law_slice_struct_is_the_slice(
    ty: MirType,
    r: Result<LlvmType, ConvertError>,
    s: LlvmType,
)
    requires
        call_ensures(convert_type, (&ty,), r),
        call_ensures(make_slice_struct, (), s),
        ty@ is Slice || ty@ is DisjointSlice,
    ensures
        r is Ok && r->Ok_0@ == s@,
{
}

/// An array or a vector converts where its element does, to as many of the
/// converted element; where the element does not, its error is theirs.
pub proof fn law_sequences_convert_their_elements(
    ty: MirType,
    elem: MirType,
    r: Result<LlvmType, ConvertError>,
    s: Result<LlvmType, ConvertError>,
)
    requires
        call_ensures(convert_type, (&ty,), r),
        call_ensures(convert_type, (&elem,), s),
        (ty@ is Array && *ty@->Array_elem == elem@) || (ty@ is Vector && *ty@->Vector_elem
            == elem@),
    ensures
        r is Ok <==> s is Ok,
        r is Ok && ty@ is Array ==> r->Ok_0@ == (LlvmTy::Array {
            elem: Box::new(s->Ok_0@),
            size: ty@->Array_size,
        }),
        r is Ok && ty@ is Vector ==> r->Ok_0@ == (LlvmTy::Vector {
            elem: Box::new(s->Ok_0@),
            num_elements: ty@->num_elements,
            scalable: false,
        }),
        r is Err ==> r->Err_0@ == s->Err_0@,
{
}

proof fn lemma_first_error(types: Seq<MirTy>, n: nat)
    requires
        n <= types.len(),
    ensures
        convert_tys(types, n) is Ok <==> forall|i: int|
            0 <= i < n ==> convert_ty(#[trigger] types[i]) is Ok,
        convert_tys(types, n) is Err ==> exists|i: int|
            0 <= i < n && convert_ty(#[trigger] types[i]) == Err::<LlvmTy, ConvertErr>(
                convert_tys(types, n)->Err_0,
            ) && forall|j: int| 0 <= j < i ==> convert_ty(#[trigger] types[j]) is Ok,
    decreases n,
{
    if n > 0 {
        let m = (n - 1) as nat;
        lemma_first_error(types, m);
        if convert_tys(types, m) is Ok {
            if convert_ty(types[m as int]) is Err {
                assert(convert_tys(types, n) is Err);
            }
        } else {
            let i = choose|i: int|
                0 <= i < m && convert_ty(#[trigger] types[i]) == Err::<LlvmTy, ConvertErr>(
                    convert_tys(types, m)->Err_0,
                ) && forall|j: int| 0 <= j < i ==> convert_ty(#[trigger] types[j]) is Ok;
            assert(convert_ty(types[i]) is Err);
        }
    }
}

/// A tuple converts if and only if all its parts do; otherwise the error is
/// that of the first part that does not.
pub proof fn law_tuple_errors_come_from_parts(ty: MirType, r: Result<LlvmType, ConvertError>)
    requires
        call_ensures(convert_type, (&ty,), r),
        ty@ is Tuple,
    ensures
        r is Ok <==> forall|i: int|
            0 <= i < ty@->types.len() ==> convert_ty(#[trigger] ty@->types[i]) is Ok,
        r is Err ==> exists|i: int|
            0 <= i < ty@->types.len() && convert_ty(#[trigger] ty@->types[i]) == Err::<
                LlvmTy,
                ConvertErr,
            >(r->Err_0@) && forall|j: int|
                0 <= j < i ==> convert_ty(#[trigger] ty@->types[j]) is Ok,
{
    lemma_first_error(ty@->types, ty@->types.len());
}

/// A struct converts if and only if its memory order lists every field once,
/// rustc's offsets, where they count, are one per field, and all fields
/// convert.
pub proof fn law_struct_converts_iff_well_formed(ty: MirType, r: Result<LlvmType, ConvertError>)
    requires
        call_ensures(convert_type, (&ty,), r),
        ty@ is Struct,
    ensures
        ({
            let n = ty@->Struct_field_types.len();
            let order = ty@->mem_to_decl;
            let offsets = ty@->field_offsets;
            r is Ok <==> {
                &&& order.len() == 0 || (order.len() == n && (forall|i: int|
                    0 <= i < n ==> #[trigger] order[i] < n) && (forall|i: int, j: int|
                    0 <= i < j < n ==> #[trigger] order[i] != #[trigger] order[j]))
                &&& offsets.len() == 0 || ty@->Struct_total_size == 0 || offsets.len() == n
                &&& forall|i: int|
                    0 <= i < n ==> convert_ty(#[trigger] ty@->Struct_field_types[i]) is Ok
            }
        }),
{
    let field_types = ty@->Struct_field_types;
    lemma_first_error(field_types, field_types.len());
    lemma_len_fits(ty);
    lemma_identity_permutation(field_types.len());
}

proof fn lemma_len_fits(ty: MirType)
    requires
        ty@ is Struct,
    ensures
        ty@->Struct_field_types.len() <= usize::MAX,
{
    match ty {
        MirType::Struct(s) => {
            assert(mir_tys(s.field_types@).len() == s.field_types@.len());
            assert(s.field_types@.len() == s.field_types.len());
        },
        _ => {},
    }
}

proof fn lemma_tuple_prefix(
    types: Seq<MirTy>,
    more: MirTy,
    tys: Seq<LlvmTy>,
    t: LlvmTy,
    n: nat,
)
    requires
        n <= types.len(),
        types.len() == tys.len(),
        types.len() < usize::MAX,
    ensures
        place(tuple_facts(types.push(more)), tys.push(t), n).fields == place(
            tuple_facts(types),
            tys,
            n,
        ).fields,
    decreases n,
{
    if n > 0 {
        lemma_tuple_prefix(types, more, tys, t, (n - 1) as nat);
    }
}

proof fn lemma_convert_prefix(types: Seq<MirTy>, more: MirTy, n: nat)
    requires
        n <= types.len(),
    ensures
        convert_tys(types.push(more), n) == convert_tys(types, n),
    decreases n,
{
    if n > 0 {
        lemma_convert_prefix(types, more, (n - 1) as nat);
    }
}

/// One more part of a tuple goes behind the others, unless it takes no
/// storage; the unit is the empty struct.
pub proof fn law_tuple_parts_in_order(types: Seq<MirTy>, more: MirTy)
    requires
        types.len() < usize::MAX,
        convert_ty(MirTy::Tuple { types }) is Ok,
        convert_ty(more) is Ok,
    ensures
        convert_ty(MirTy::Tuple { types: Seq::empty() }) == Ok::<LlvmTy, ConvertErr>(
            LlvmTy::Struct { fields: Seq::empty() },
        ),
        ({
            let fields = convert_ty(MirTy::Tuple { types })->Ok_0->fields;
            let part = convert_ty(more)->Ok_0;
            convert_ty(MirTy::Tuple { types: types.push(more) }) == Ok::<LlvmTy, ConvertErr>(
                LlvmTy::Struct {
                    fields: if zero_sized(part) {
                        fields
                    } else {
                        fields.push(part)
                    },
                },
            )
        }),
{
    let n = types.len();
    let t = convert_ty(more)->Ok_0;
    let none = Seq::<MirTy>::empty();
    assert(convert_tys(none, none.len()) == Ok::<Seq<LlvmTy>, ConvertErr>(Seq::empty()));
    assert(placed(tuple_facts(none), Seq::empty()).fields =~= Seq::<LlvmTy>::empty());
    let tys = convert_tys(types, n)->Ok_0;
    lemma_convert_tys_len(types, n);
    lemma_convert_prefix(types, more, n);
    let longer = types.push(more);
    assert(longer[n as int] == more);
    assert(convert_tys(longer, n + 1) == Ok::<Seq<LlvmTy>, ConvertErr>(tys.push(t)));
    lemma_tuple_prefix(types, more, tys, t, n);
    let l = tuple_facts(longer);
    assert(l.mem_to_decl[n as int] == n);
    assert(tys.push(t)[n as int] == t);
    let p = place(l, tys.push(t), n);
    let fields = convert_ty(MirTy::Tuple { types })->Ok_0->fields;
    assert(p.fields == fields);
    assert(placed(l, tys.push(t)).fields == if zero_sized(t) {
        p.fields
    } else {
        p.fields.push(t)
    });
}

/// A struct of which rustc reports nothing is laid out like a tuple.
pub proof fn law_bare_struct_is_a_tuple(name: Seq<char>, types: Seq<MirTy>)
    requires
        types.len() <= usize::MAX,
    ensures
        convert_ty(
            MirTy::Struct {
                name,
                field_types: types,
                mem_to_decl: Seq::empty(),
                field_offsets: Seq::empty(),
                total_size: 0,
            },
        ) == convert_ty(MirTy::Tuple { types }),
{
    lemma_identity_permutation(types.len());
    assert(struct_facts(types, Seq::empty(), Seq::empty(), 0) =~= tuple_facts(types));
}

/// An enum is a struct of its discriminant, then the payload fields in order,
/// each converted; padding, where there is any, comes behind them as an array
/// of bytes, and there is some exactly where the fields alone would be smaller
/// than rustc's size.
pub proof fn law_enum_is_tag_then_payload(ty: MirType, r: Result<LlvmType, ConvertError>)
    requires
        call_ensures(convert_enum_to_llvm, (&ty,), r),
        ty@ is Enum,
        r is Ok,
    ensures
        ({
            let payload = ty@->all_field_types;
            let fields = r->Ok_0@->fields;
            let bare = fields.take(1 + payload.len() as int);
            let size = natural_size(LlvmTy::Struct { fields: bare });
            &&& r->Ok_0@ is Struct
            &&& fields.len() >= 1 + payload.len()
            &&& convert_ty(*ty@->discriminant_ty) == Ok::<LlvmTy, ConvertErr>(fields[0])
            &&& forall|i: int|
                0 <= i < payload.len() ==> convert_ty(#[trigger] payload[i]) == Ok::<
                    LlvmTy,
                    ConvertErr,
                >(fields[1 + i])
            &&& fields.len() == 1 + payload.len() || fields.len() == 2 + payload.len()
            &&& fields.len() == 2 + payload.len() <==> size < ty@->Enum_total_size
            &&& fields.len() == 2 + payload.len() ==> fields.last() == (LlvmTy::Array {
                elem: Box::new(LlvmTy::Integer { width: 8 }),
                size: (ty@->Enum_total_size - natural_end(bare, bare.len())) as u64,
            })
        }),
{
    let payload = ty@->all_field_types;
    let n = payload.len();
    lemma_convert_tys_len(payload, n);
    let tag = convert_ty(*ty@->discriminant_ty)->Ok_0;
    let tys = convert_tys(payload, n)->Ok_0;
    let fields = r->Ok_0@->fields;
    let members = seq![tag] + tys;
    assert(fields.take(1 + n as int) =~= members);
    assert forall|i: int| 0 <= i < n implies convert_ty(#[trigger] payload[i]) == Ok::<
        LlvmTy,
        ConvertErr,
    >(fields[1 + i]) by {
        assert(tys[i] == members[1 + i]);
    }
}

/// An enum converts if and only if its discriminant and all its payload fields
/// do; what is no enum is refused.
pub proof fn law_enum_converts_iff_parts_do(ty: MirType, r: Result<LlvmType, ConvertError>)
    requires
        call_ensures(convert_enum_to_llvm, (&ty,), r),
    ensures
        ty@ !is Enum ==> r is Err && r->Err_0@ is ExpectedEnum,
        ty@ is Enum ==> (r is Ok <==> convert_ty(*ty@->discriminant_ty) is Ok && forall|i: int|
            0 <= i < ty@->all_field_types.len() ==> convert_ty(
                #[trigger] ty@->all_field_types[i],
            ) is Ok),
{
    if ty@ is Enum {
        lemma_first_error(ty@->all_field_types, ty@->all_field_types.len());
    }
}

/// An enum is reported to diverge exactly where the struct that stands for it
/// is larger than rustc's size, and it is reported by its name.
pub proof fn law_divergence_is_a_larger_struct(
    ty: MirType,
    r: Result<LlvmType, ConvertError>,
    d: Result<Option<String>, ConvertError>,
)
    requires
        call_ensures(convert_enum_to_llvm, (&ty,), r),
        call_ensures(enum_memory_divergence, (&ty,), d),
        ty@ is Enum,
        ty@->Enum_total_size > 0,
        r is Ok,
    ensures
        d is Ok,
        d->Ok_0 is Some ==> d->Ok_0->0@ == ty@->Enum_name,
        d->Ok_0 is Some ==> natural_size(r->Ok_0@) > ty@->Enum_total_size,
        d->Ok_0 is None ==> natural_size(
            LlvmTy::Struct { fields: r->Ok_0@->fields.take(1 + ty@->all_field_types.len() as int) },
        ) <= ty@->Enum_total_size,
{
    law_enum_is_tag_then_payload(ty, r);
    let payload = ty@->all_field_types;
    lemma_convert_tys_len(payload, payload.len());
    let tag = convert_ty(*ty@->discriminant_ty)->Ok_0;
    let members = seq![tag] + convert_tys(payload, payload.len())->Ok_0;
    let fields = r->Ok_0@->fields;
    assert(fields.take(1 + payload.len() as int) =~= members);
    if fields.len() == 1 + payload.len() {
        assert(fields =~= members);
    }
}

/// A function is a kernel entry if and only if the kernel attribute is among
/// its attributes, wherever it stands.
pub proof fn law_kernels_carry_the_attribute(
    attributes: Vec<String>,
    others: Vec<String>,
    yes: bool,
    yes_others: bool,
    k: int,
)
    requires
        call_ensures(is_kernel_func, (&attributes,), yes),
        call_ensures(is_kernel_func, (&others,), yes_others),
        0 <= k < attributes@.len(),
        others@ == attributes@.remove(k),
    ensures
        attributes@[k]@ == "gpu_kernel"@ ==> yes,
        attributes@[k]@ != "gpu_kernel"@ ==> yes == yes_others,
        others@.len() == 0 ==> !yes_others,
{
    if yes && attributes@[k]@ != "gpu_kernel"@ {
        let i = choose|i: int| 0 <= i < attributes@.len() && #[trigger] attributes@[i]@
            == "gpu_kernel"@;
        if i < k {
            assert(others@[i]@ == "gpu_kernel"@);
        } else {
            assert(others@[i - 1]@ == "gpu_kernel"@);
        }
    }
    if yes_others {
        let i = choose|i: int| 0 <= i < others@.len() && #[trigger] others@[i]@ == "gpu_kernel"@;
        if i < k {
            assert(attributes@[i]@ == "gpu_kernel"@);
        } else {
            assert(attributes@[i + 1]@ == "gpu_kernel"@);
        }
    }
}

// ---------------------------------------------------------------------------
// Signatures
// ---------------------------------------------------------------------------

proof fn lemma_inputs_prefix(a: Seq<MirTy>, b: Seq<MirTy>, is_kernel_entry: bool, n: nat)
    requires
        n <= a.len(),
        n <= b.len(),
        forall|i: int| 0 <= i < n ==> a[i] == b[i],
    ensures
        flat_inputs(a, is_kernel_entry, n) == flat_inputs(b, is_kernel_entry, n),
    decreases n,
{
    if n > 0 {
        lemma_inputs_prefix(a, b, is_kernel_entry, (n - 1) as nat);
    }
}

proof fn lemma_inputs_concatenate(a: Seq<MirTy>, b: Seq<MirTy>, is_kernel_entry: bool, n: nat)
    requires
        n <= b.len(),
        flat_inputs(a, is_kernel_entry, a.len()) is Ok,
        flat_inputs(b, is_kernel_entry, b.len()) is Ok,
    ensures
        flat_inputs(b, is_kernel_entry, n) is Ok,
        flat_inputs(a + b, is_kernel_entry, a.len() + n) == Ok::<Seq<LlvmTy>, ConvertErr>(
            flat_inputs(a, is_kernel_entry, a.len())->Ok_0 + flat_inputs(
                b,
                is_kernel_entry,
                n,
            )->Ok_0,
        ),
    decreases n,
{
    if flat_inputs(b, is_kernel_entry, n) is Err {
        lemma_flat_inputs_error(b, is_kernel_entry, n, b.len());
    }
    if n == 0 {
        lemma_inputs_prefix(a + b, a, is_kernel_entry, a.len());
        let first = flat_inputs(a, is_kernel_entry, a.len())->Ok_0;
        assert(first + Seq::<LlvmTy>::empty() =~= first);
    } else {
        let m = (n - 1) as nat;
        lemma_inputs_concatenate(a, b, is_kernel_entry, m);
        assert((a + b)[a.len() + n - 1] == b[n - 1]);
        let first = flat_inputs(a, is_kernel_entry, a.len())->Ok_0;
        let mid = flat_inputs(b, is_kernel_entry, m)->Ok_0;
        let last = flat_input(b[n - 1], is_kernel_entry)->Ok_0;
        assert((first + mid) + last =~= first + (mid + last));
        assert((a.len() + n - 1) as nat == a.len() + m);
    }
}

/// The parameters of a longer argument list are those of its beginning,
/// followed by those of the rest, at a kernel entry and at a device function
/// alike: what stands for an argument does not depend on the others, and the
/// arguments keep their order.
pub proof fn law_parameters_concatenate(
    first: MirFuncType,
    rest: MirFuncType,
    all: MirFuncType,
    is_kernel_entry: bool,
    r: Result<LlvmFuncType, ConvertError>,
    s: Result<LlvmFuncType, ConvertError>,
    t: Result<LlvmFuncType, ConvertError>,
)
    requires
        call_ensures(convert_function_type, (&first, is_kernel_entry), r),
        call_ensures(convert_function_type, (&rest, is_kernel_entry), s),
        call_ensures(convert_function_type, (&all, is_kernel_entry), t),
        mir_tys(all.inputs@) == mir_tys(first.inputs@) + mir_tys(rest.inputs@),
        r is Ok && s is Ok && t is Ok,
    ensures
        llvm_tys(t->Ok_0.inputs@) == llvm_tys(r->Ok_0.inputs@) + llvm_tys(s->Ok_0.inputs@),
        llvm_tys(r->Ok_0.inputs@).is_prefix_of(llvm_tys(t->Ok_0.inputs@)),
{
    let a = mir_tys(first.inputs@);
    let b = mir_tys(rest.inputs@);
    assert(a.len() == first.inputs@.len());
    assert(b.len() == rest.inputs@.len());
    assert(mir_tys(all.inputs@).len() == all.inputs@.len());
    lemma_inputs_concatenate(a, b, is_kernel_entry, b.len());
}

/// The parameters that stand for the first `i + 1` arguments are those that
/// stand for the first `i`, followed by what stands for argument `i`.
pub proof fn law_parameters_of_prefix(inputs: Seq<MirTy>, is_kernel_entry: bool, i: nat, n: nat)
    requires
        i < n,
        n <= inputs.len(),
        flat_inputs(inputs, is_kernel_entry, n) is Ok,
    ensures
        ({
            let before = flat_inputs(inputs, is_kernel_entry, i);
            let after = flat_inputs(inputs, is_kernel_entry, i + 1);
            let one = flat_input(inputs[i as int], is_kernel_entry);
            &&& before is Ok && after is Ok && one is Ok
            &&& after->Ok_0 == before->Ok_0 + one->Ok_0
            &&& before->Ok_0.is_prefix_of(flat_inputs(inputs, is_kernel_entry, n)->Ok_0)
        }),
    decreases n,
{
    if flat_inputs(inputs, is_kernel_entry, i + 1) is Err {
        lemma_flat_inputs_error(inputs, is_kernel_entry, i + 1, n);
    }
    if i + 1 < n {
        if flat_inputs(inputs, is_kernel_entry, (n - 1) as nat) is Err {
            lemma_flat_inputs_error(inputs, is_kernel_entry, (n - 1) as nat, n);
        }
        law_parameters_of_prefix(inputs, is_kernel_entry, i, (n - 1) as nat);
    }
}

/// A signature with one argument: a slice is passed as a generic pointer and a
/// length; what takes no storage is not passed; a struct is passed whole at a
/// kernel entry; any other argument is passed as what it converts to.
pub proof fn law_one_argument(
    func: MirFuncType,
    is_kernel_entry: bool,
    r: Result<LlvmFuncType, ConvertError>,
)
    requires
        call_ensures(convert_function_type, (&func, is_kernel_entry), r),
        func.inputs@.len() == 1,
        r is Ok,
    ensures
        ({
            let ty = func.inputs@[0]@;
            let params = llvm_tys(r->Ok_0.inputs@);
            &&& ty is Slice || ty is DisjointSlice ==> params == seq![
                LlvmTy::Pointer { addrspace: 0 },
                LlvmTy::Integer { width: 64 },
            ]
            &&& !(ty is Slice || ty is DisjointSlice) && (ty !is Struct || is_kernel_entry) ==> {
                &&& convert_ty(ty) is Ok
                &&& zero_sized(convert_ty(ty)->Ok_0) ==> params.len() == 0
                &&& !zero_sized(convert_ty(ty)->Ok_0) ==> params == seq![convert_ty(ty)->Ok_0]
            }
        }),
{
    let inputs = mir_tys(func.inputs@);
    assert(inputs[0] == func.inputs@[0]@);
    reveal_with_fuel(flat_inputs, 2);
    let one = flat_input(inputs[0], is_kernel_entry)->Ok_0;
    assert(Seq::<LlvmTy>::empty() + one =~= one);
    let ty = inputs[0];
    if ty is Slice || ty is DisjointSlice {
        assert(one =~= seq![LlvmTy::Pointer { addrspace: 0 }, LlvmTy::Integer { width: 64 }]);
    }
}

/// A signature returns what its result converts to, and nothing where there is
/// no result or the result takes no storage. It never takes a variable number
/// of arguments.
pub proof fn law_results_convert(
    func: MirFuncType,
    is_kernel_entry: bool,
    r: Result<LlvmFuncType, ConvertError>,
)
    requires
        call_ensures(convert_function_type, (&func, is_kernel_entry), r),
        r is Ok,
    ensures
        !r->Ok_0.is_var_arg,
        func.results@.len() == 0 ==> r->Ok_0.result@ is Void,
        func.results@.len() > 0 ==> {
            &&& convert_ty(func.results@[0]@) is Ok
            &&& zero_sized(convert_ty(func.results@[0]@)->Ok_0) ==> r->Ok_0.result@ is Void
            &&& !zero_sized(convert_ty(func.results@[0]@)->Ok_0) ==> r->Ok_0.result@ == convert_ty(
                func.results@[0]@,
            )->Ok_0
        },
{
    if func.results@.len() > 0 {
        assert(mir_tys(func.results@)[0] == func.results@[0]@);
    }
}

proof fn lemma_flat_fields_are_slots(l: LayoutFacts, tys: Seq<LlvmTy>, n: nat)
    requires
        !explicit_layout(l),
        is_permutation(l.mem_to_decl, l.field_types.len()),
        convert_tys(l.field_types, l.field_types.len()) == Ok::<Seq<LlvmTy>, ConvertErr>(tys),
        n <= l.mem_to_decl.len(),
    ensures
        flat_fields(l.field_types, l.mem_to_decl, n) == Ok::<Seq<LlvmTy>, ConvertErr>(
            place(l, tys, n).fields,
        ),
    decreases n,
{
    lemma_convert_tys_len(l.field_types, l.field_types.len());
    if n > 0 {
        lemma_flat_fields_are_slots(l, tys, (n - 1) as nat);
        let decl = l.mem_to_decl[n - 1] as int;
        assert(convert_ty(l.field_types[decl]) == Ok::<LlvmTy, ConvertErr>(tys[decl]));
        let before = place(l, tys, (n - 1) as nat).fields;
        assert(before + seq![tys[decl]] =~= before.push(tys[decl]));
        assert(before + Seq::<LlvmTy>::empty() =~= before);
    }
}

/// A device function takes a struct that rustc's offsets do not pad as the
/// slots of the lowered struct, one by one.
pub proof fn law_flattened_struct_is_its_slots(ty: MirTy)
    requires
        ty is Struct,
        ty->field_offsets.len() == 0 || ty->Struct_total_size == 0,
        convert_ty(ty) is Ok,
    ensures
        convert_ty(ty)->Ok_0 is Struct,
        flat_input(ty, false) == Ok::<Seq<LlvmTy>, ConvertErr>(convert_ty(ty)->Ok_0->fields),
{
    let l = struct_facts(
        ty->Struct_field_types,
        ty->mem_to_decl,
        ty->field_offsets,
        ty->Struct_total_size,
    );
    let tys = convert_tys(l.field_types, l.field_types.len())->Ok_0;
    assert(layout_error(l) is None);
    lemma_flat_fields_are_slots(l, tys, l.mem_to_decl.len());
}

/// How a device function takes a struct depends on its fields and their order
/// alone, not on rustc's offsets.
pub proof fn law_flattening_ignores_offsets(
    name: Seq<char>,
    other_name: Seq<char>,
    field_types: Seq<MirTy>,
    mem_to_decl: Seq<usize>,
    field_offsets: Seq<u64>,
    total_size: u64,
)
    ensures
        flat_input(
            MirTy::Struct { name, field_types, mem_to_decl, field_offsets, total_size },
            false,
        ) == flat_input(
            MirTy::Struct {
                name: other_name,
                field_types,
                mem_to_decl,
                field_offsets: Seq::empty(),
                total_size: 0,
            },
            false,
        ),
{
}

/// An enum built of variants has the payload fields of each, in order: one
/// more variant puts its fields behind the others. Its size is unknown.
pub proof fn law_variants_put_payloads_in_order(
    name: String,
    discriminant_ty: MirType,
    variants: Vec<EnumVariant>,
    more: Vec<EnumVariant>,
    short: MirType,
    long: MirType,
)
    requires
        call_ensures(MirType::enum_of, (name, discriminant_ty, variants), short),
        call_ensures(MirType::enum_of, (name, discriminant_ty, more), long),
        more@.len() == variants@.len() + 1,
        more@.drop_last() == variants@,
    ensures
        short@ is Enum && long@ is Enum,
        short@->Enum_name == name@ && long@->Enum_name == name@,
        *short@->discriminant_ty == discriminant_ty@,
        short@->Enum_total_size == 0,
        variants@.len() == 0 ==> short@->all_field_types.len() == 0,
        long@->all_field_types == short@->all_field_types + mir_tys(more@.last().field_types@),
{
    lemma_payloads_prefix(variants@, more@, variants@.len());
}

proof fn lemma_payloads_prefix(a: Seq<EnumVariant>, b: Seq<EnumVariant>, n: nat)
    requires
        n <= a.len(),
        a.len() < b.len(),
        b.take(a.len() as int) == a,
    ensures
        payloads(a, n) == payloads(b, n),
    decreases n,
{
    if n > 0 {
        lemma_payloads_prefix(a, b, (n - 1) as nat);
        assert(b.take(a.len() as int)[n - 1] == b[n - 1]);
    }
}

// ---------------------------------------------------------------------------
// Layout facts and errors
// ---------------------------------------------------------------------------

/// Fields that rustc did not reorder are in memory as they are declared;
/// otherwise the stored order counts.
pub proof fn law_memory_order(s: MirStructType, order: Vec<usize>, i: int)
    requires
        call_ensures(MirStructType::memory_order, (&s,), order),
    ensures
        s.mem_to_decl@.len() > 0 ==> order@ == s.mem_to_decl@,
        s.mem_to_decl@.len() == 0 ==> order@.len() == s.field_types@.len(),
        s.mem_to_decl@.len() == 0 && 0 <= i < order@.len() ==> order@[i] == i,
{
    assert(mir_tys(s.field_types@).len() == s.field_types@.len());
    assert(s.field_types@.len() == s.field_types.len());
}

/// The layout facts of a struct are what rustc reports of it, and those of a
/// tuple its types in order with nothing reported.
pub proof fn law_layout_facts(
    s: MirStructType,
    order: Vec<usize>,
    types: Vec<MirType>,
    of_struct: StructLayoutInfo,
    of_tuple: StructLayoutInfo,
    i: int,
)
    requires
        call_ensures(StructLayoutInfo::of_struct, (&s,), of_struct),
        call_ensures(MirStructType::memory_order, (&s,), order),
        call_ensures(StructLayoutInfo::of_tuple, (&types,), of_tuple),
    ensures
        mir_tys(of_struct.field_types@) == mir_tys(s.field_types@),
        of_struct.mem_to_decl@ == order@,
        of_struct.field_offsets@ == s.field_offsets@,
        of_struct.total_size == s.total_size,
        mir_tys(of_tuple.field_types@) == mir_tys(types@),
        of_tuple.mem_to_decl@.len() == types@.len(),
        0 <= i < types@.len() ==> of_tuple.mem_to_decl@[i] == i,
        of_tuple.field_offsets@.len() == 0,
        of_tuple.total_size == 0,
{
    assert(mir_tys(s.field_types@).len() == s.field_types@.len());
    assert(mir_tys(types@).len() == types@.len());
    assert(types@.len() == types.len());
    assert(of_struct@.mem_to_decl == of_struct.mem_to_decl@);
    assert(of_struct@.field_types == mir_tys(of_struct.field_types@));
    assert(of_struct@.field_offsets == of_struct.field_offsets@);
    assert(of_tuple@.mem_to_decl == of_tuple.mem_to_decl@);
    assert(of_tuple@.field_types == mir_tys(of_tuple.field_types@));
    assert(of_tuple@.field_offsets == of_tuple.field_offsets@);
}

/// The message of an error tells the numbers that do not fit together.
pub proof fn law_conversion_errors_tell_numbers(error: ConvertError, text: String)
    requires
        call_ensures(ConvertError::message, (&error,), text),
    ensures
        error matches ConvertError::MemoryOrderLength { entries, fields } ==> text@
            == "struct slot map: memory order has "@ + decimal(entries as nat)
            + " entries but the struct has "@ + decimal(fields as nat) + " fields"@,
        error matches ConvertError::OffsetCount { offsets, fields } ==> text@
            == "struct slot map: "@ + decimal(offsets as nat) + " field offsets for "@ + decimal(
            fields as nat,
        ) + " fields"@,
        error matches ConvertError::NotPermutation { order, fields } ==> text@
            == "struct slot map: memory order ["@ + number_list(order@, order@.len())
            + "] is not a permutation of 0.."@ + decimal(fields as nat),
        error matches ConvertError::Unsupported { display } ==> (
        "Unsupported type conversion: "@ + display@).is_prefix_of(text@),
{
    if let ConvertError::Unsupported { display } = error {
        let head = "Unsupported type conversion: "@ + display@;
        assert(text@.subrange(0, head.len() as int) =~= head);
    }
}

proof fn lemma_number_list_prefix(numbers: Seq<usize>, more: usize, n: nat)
    requires
        n <= numbers.len(),
    ensures
        number_list(numbers.push(more), n) == number_list(numbers, n),
    decreases n,
{
    if n > 0 {
        lemma_number_list_prefix(numbers, more, (n - 1) as nat);
    }
}

/// Numbers are listed in order, with commas between them.
pub proof fn law_number_list_grows(numbers: Seq<usize>, more: usize)
    ensures
        number_list(Seq::empty(), 0) == Seq::<char>::empty(),
        numbers.len() == 0 ==> number_list(numbers.push(more), 1) == decimal(more as nat),
        numbers.len() > 0 ==> number_list(numbers.push(more), numbers.len() + 1) == number_list(
            numbers,
            numbers.len(),
        ) + ", "@ + decimal(more as nat),
{
    lemma_number_list_prefix(numbers, more, numbers.len());
    assert(numbers.push(more)[numbers.len() as int] == more);
}

/// Whether every field index occurs in the order exactly once.
pub open spec fn lists_each_once(order: Seq<usize>, n: nat) -> bool {
    &&& order.len() == n
    &&& forall|i: int| 0 <= i < n ==> #[trigger] order[i] < n
    &&& forall|i: int, j: int| 0 <= i < j < n ==> #[trigger] order[i] != #[trigger] order[j]
}

/// A layout is refused for a memory order of the wrong length, then for one
/// that does not list every field once, then for offsets of the wrong number
/// where they count; the error tells the order and the numbers.
pub proof fn law_malformed_layouts_are_refused(
    layout: StructLayoutInfo,
    r: Result<StructSlotMap, ConvertError>,
)
    requires
        call_ensures(build_struct_slot_map, (&layout,), r),
    ensures
        ({
            let n = layout.field_types@.len();
            let order = layout.mem_to_decl@;
            let offsets = layout.field_offsets@;
            let counts = offsets.len() > 0 && layout.total_size > 0;
            &&& order.len() != n ==> r is Err && r->Err_0@ == (ConvertErr::MemoryOrderLength {
                entries: order.len(),
                fields: n,
            })
            &&& order.len() == n && !lists_each_once(order, n) ==> r is Err && r->Err_0@ == (
            ConvertErr::NotPermutation { order, fields: n })
            &&& lists_each_once(order, n) && counts && offsets.len() != n ==> r is Err
                && r->Err_0@ == (ConvertErr::OffsetCount { offsets: offsets.len(), fields: n })
            &&& r is Ok ==> lists_each_once(order, n) && (counts ==> offsets.len() == n)
        }),
{
    let l = layout@;
    let n = layout.field_types@.len();
    assert(l.field_types.len() == n);
    assert(l.mem_to_decl == layout.mem_to_decl@);
    assert(l.field_offsets == layout.field_offsets@);
    assert(is_permutation(l.mem_to_decl, n) == lists_each_once(layout.mem_to_decl@, n)) by {
        let order = layout.mem_to_decl@;
        if is_permutation(order, n) {
            assert forall|i: int| 0 <= i < n implies #[trigger] order[i] < n by {}
            assert forall|i: int, j: int| 0 <= i < j < n implies #[trigger] order[i]
                != #[trigger] order[j] by {}
        }
    }
}

/// A slot map has one entry per declared field: none for a field that takes no
/// storage, and for any other its own slot of the struct, which holds what the
/// field converts to.
pub proof fn law_slot_map_finds_fields(
    layout: StructLayoutInfo,
    map: StructSlotMap,
    c: int,
    d: int,
)
    requires
        call_ensures(
            build_struct_slot_map,
            (&layout,),
            Ok::<StructSlotMap, ConvertError>(map),
        ),
        map.llvm_struct_ty@->fields.len() <= u32::MAX,
        0 <= c < layout.field_types@.len(),
        0 <= d < layout.field_types@.len(),
        c != d,
    ensures
        map.llvm_struct_ty@ is Struct,
        map.decl_to_llvm@.len() == layout.field_types@.len(),
        map.field_llvm_types@.len() == layout.field_types@.len(),
        convert_ty(layout.field_types@[d]@) == Ok::<LlvmTy, ConvertErr>(
            map.field_llvm_types@[d]@,
        ),
        map.decl_to_llvm@[d] is None <==> zero_sized(map.field_llvm_types@[d]@),
        map.decl_to_llvm@[d] is Some ==> {
            &&& map.decl_to_llvm@[d]->0 < map.llvm_struct_ty@->fields.len()
            &&& map.llvm_struct_ty@->fields[map.decl_to_llvm@[d]->0 as int]
                == map.field_llvm_types@[d]@
            &&& map.decl_to_llvm@[c] != map.decl_to_llvm@[d]
        },
{
    let l = layout@;
    let tys = llvm_tys(map.field_llvm_types@);
    assert(l.field_types.len() == layout.field_types@.len());
    assert(tys.len() == map.field_llvm_types@.len());
    lemma_convert_tys_len(l.field_types, l.field_types.len());
    law_slots_hold_their_fields(l, tys);
    assert(l.field_types[d] == layout.field_types@[d]@);
    assert(tys[d] == map.field_llvm_types@[d]@);
    assert(tys[c] == map.field_llvm_types@[c]@);
    let slots = placed(l, tys).slots;
    assert(slots[d] is None <==> zero_sized(tys[d]));
    assert(slots[c] is None <==> zero_sized(tys[c]));
    assert(map.decl_to_llvm@ == slots);
    if !zero_sized(tys[d]) && !zero_sized(tys[c]) {
        assert(slots[c] != slots[d]);
    }
}

/// A field takes the bytes that rustc reports of its type, and where rustc
/// reports none the bytes of what it converts to.
pub proof fn law_field_bytes(
    mir: MirType,
    llvm: LlvmType,
    reported: Option<u64>,
    packed: u64,
)
    requires
        call_ensures(mir_stored_size, (&mir,), reported),
        call_ensures(get_type_size, (&llvm,), packed),
    ensures
        reported is Some ==> field_size(mir@, llvm@) == reported->0,
        reported is None ==> field_size(mir@, llvm@) == packed,
{
}

} // verus!
