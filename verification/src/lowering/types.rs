//! Type conversion from the MIR dialect to the LLVM dialect.
//!
//! | MIR                       | LLVM                      |
//! |---------------------------|---------------------------|
//! | integer, any signedness   | signless integer          |
//! | `f16`, `f32`, `f64`       | `half`, `float`, `double` |
//! | pointer                   | pointer, same addrspace   |
//! | slice, `DisjointSlice`    | `{ ptr, i64 }`            |
//! | tuple, struct             | struct, see [`build_struct_slot_map`] |
//! | enum                      | struct, see [`convert_enum_to_llvm`]  |
//! | array, vector             | array, vector             |

use vstd::prelude::*;

use crate::ir::identifier::identifier;
use crate::ir::llvm::{llvm_tys, LlvmTy, LlvmType};
use crate::ir::mir::{clone_types, mir_tys, MirStructType, MirTy, MirType};
use crate::lowering::layout::{
    get_type_size, is_zero_sized_type, lemma_natural_end_in_size, make_padding_type,
    mir_stored_size, natural_end, natural_fits, natural_size, natural_struct_layout, packed_fits,
    packed_size, padding_ty, stored_fits, stored_size, zero_sized,
};
use crate::text::{decimal, push_decimal};

verus! {

/// Why a type has no LLVM counterpart.
#[derive(Debug, PartialEq, Eq)]
pub enum ConvertError {
    /// No conversion is known for the type with this display.
    Unsupported { display: String },
    /// The memory order has another number of entries than the struct fields.
    MemoryOrderLength { entries: usize, fields: usize },
    /// The memory order is not a permutation of the field indices.
    NotPermutation { order: Vec<usize>, fields: usize },
    /// There is another number of field offsets than fields.
    OffsetCount { offsets: usize, fields: usize },
    /// The type handed to the enum conversion is not an enum.
    ExpectedEnum,
}

/// What a [`ConvertError`] says.
#[verifier::ext_equal]
pub enum ConvertErr {
    Unsupported { display: Seq<char> },
    MemoryOrderLength { entries: nat, fields: nat },
    NotPermutation { order: Seq<usize>, fields: nat },
    OffsetCount { offsets: nat, fields: nat },
    ExpectedEnum,
}

impl View for ConvertError {
    type V = ConvertErr;

    open spec fn view(&self) -> ConvertErr {
        match self {
            ConvertError::Unsupported { display } => ConvertErr::Unsupported { display: display@ },
            ConvertError::MemoryOrderLength { entries, fields } => ConvertErr::MemoryOrderLength {
                entries: *entries as nat,
                fields: *fields as nat,
            },
            ConvertError::NotPermutation { order, fields } => ConvertErr::NotPermutation {
                order: order@,
                fields: *fields as nat,
            },
            ConvertError::OffsetCount { offsets, fields } => ConvertErr::OffsetCount {
                offsets: *offsets as nat,
                fields: *fields as nat,
            },
            ConvertError::ExpectedEnum => ConvertErr::ExpectedEnum,
        }
    }
}

/// The text of a list of numbers between its brackets.
pub open spec fn number_list(numbers: Seq<usize>, n: nat) -> Seq<char>
    decreases n,
{
    if n == 0 {
        Seq::empty()
    } else if n == 1 {
        decimal(numbers[0] as nat)
    } else {
        number_list(numbers, (n - 1) as nat) + ", "@ + decimal(numbers[n - 1] as nat)
    }
}

/// The message of a conversion error.
pub open spec fn convert_error_message(e: ConvertErr) -> Seq<char> {
    match e {
        ConvertErr::Unsupported { display } => "Unsupported type conversion: "@ + display
            + "\nSupported: integers, fp32, fp64, pointers, slices, tuples, structs, enums, arrays, vectors."@,
        ConvertErr::MemoryOrderLength { entries, fields } => "struct slot map: memory order has "@
            + decimal(entries) + " entries but the struct has "@ + decimal(fields) + " fields"@,
        ConvertErr::NotPermutation { order, fields } => "struct slot map: memory order ["@
            + number_list(order, order.len()) + "] is not a permutation of 0.."@ + decimal(fields),
        ConvertErr::OffsetCount { offsets, fields } => "struct slot map: "@ + decimal(offsets)
            + " field offsets for "@ + decimal(fields) + " fields"@,
        ConvertErr::ExpectedEnum => "convert_enum_to_llvm: expected MirEnumType"@,
    }
}

impl ConvertError {
    /// The message for the user.
    pub fn message(&self) -> (text: String)
        ensures
            text@ == convert_error_message(self@),
    {
        let mut out = String::new();
        match self {
            ConvertError::Unsupported { display } => {
                out.append("Unsupported type conversion: ");
                out.append(display);
                out.append("\nSupported: integers, fp32, fp64, pointers, slices, tuples, structs, enums, arrays, vectors.");
            },
            ConvertError::MemoryOrderLength { entries, fields } => {
                out.append("struct slot map: memory order has ");
                push_decimal(&mut out, *entries as u64);
                out.append(" entries but the struct has ");
                push_decimal(&mut out, *fields as u64);
                out.append(" fields");
            },
            ConvertError::NotPermutation { order, fields } => {
                out.append("struct slot map: memory order [");
                let ghost start = out@;
                assert(start + Seq::<char>::empty() =~= start);
                let mut i: usize = 0;
                while i < order.len()
                    invariant
                        i <= order@.len(),
                        out@ == start + number_list(order@, i as nat),
                    decreases order@.len() - i,
                {
                    if i > 0 {
                        out.append(", ");
                    }
                    push_decimal(&mut out, order[i] as u64);
                    i = i + 1;
                    assert(out@ =~= start + number_list(order@, i as nat));
                }
                out.append("] is not a permutation of 0..");
                push_decimal(&mut out, *fields as u64);
            },
            ConvertError::OffsetCount { offsets, fields } => {
                out.append("struct slot map: ");
                push_decimal(&mut out, *offsets as u64);
                out.append(" field offsets for ");
                push_decimal(&mut out, *fields as u64);
                out.append(" fields");
            },
            ConvertError::ExpectedEnum => {
                out.append("convert_enum_to_llvm: expected MirEnumType");
            },
        }
        assert(out@ =~= convert_error_message(self@));
        out
    }
}

// ---------------------------------------------------------------------------
// Kernel entries
// ---------------------------------------------------------------------------

/// The attribute that marks a function as a kernel entry.
fn gpu_kernel_attr() -> (name: String)
    ensures
        name@ == "gpu_kernel"@,
{
    proof {
        reveal_strlit("gpu_kernel");
    }
    identifier("gpu_kernel")
}

/// Whether the attribute of kernel entries is among these.
pub open spec fn marks_kernel(attributes: Seq<String>) -> bool {
    exists|i: int| 0 <= i < attributes.len() && #[trigger] attributes[i]@ == "gpu_kernel"@
}

/// Whether an operation with these attribute names is a kernel entry.
pub fn is_kernel_func(attributes: &Vec<String>) -> (yes: bool)
    ensures
        yes == marks_kernel(attributes@),
{
    let kernel = gpu_kernel_attr();
    let mut i: usize = 0;
    while i < attributes.len()
        invariant
            i <= attributes@.len(),
            kernel@ == "gpu_kernel"@,
            forall|k: int| 0 <= k < i ==> #[trigger] attributes@[k]@ != "gpu_kernel"@,
        decreases attributes@.len() - i,
    {
        if attributes[i] == kernel {
            assert(attributes@[i as int]@ == "gpu_kernel"@);
            return true;
        }
        i = i + 1;
    }
    false
}

// ---------------------------------------------------------------------------
// Struct layouts
// ---------------------------------------------------------------------------

/// Layout facts of one aggregate, in declaration order.
pub struct StructLayoutInfo {
    /// Field types in declaration order.
    pub field_types: Vec<MirType>,
    /// Memory order: `mem_to_decl[mem_idx] = decl_idx`, one entry per field.
    pub mem_to_decl: Vec<usize>,
    /// Byte offset of each field in declaration order; empty when unknown.
    pub field_offsets: Vec<u64>,
    /// Total size in bytes including trailing padding; 0 when unknown.
    pub total_size: u64,
}

/// What a [`StructLayoutInfo`] says.
#[verifier::ext_equal]
pub struct LayoutFacts {
    pub field_types: Seq<MirTy>,
    pub mem_to_decl: Seq<usize>,
    pub field_offsets: Seq<u64>,
    pub total_size: u64,
}

impl View for StructLayoutInfo {
    type V = LayoutFacts;

    open spec fn view(&self) -> LayoutFacts {
        LayoutFacts {
            field_types: mir_tys(self.field_types@),
            mem_to_decl: self.mem_to_decl@,
            field_offsets: self.field_offsets@,
            total_size: self.total_size,
        }
    }
}

/// The order of `n` fields that were not reordered.
pub open spec fn identity_order(n: nat) -> Seq<usize> {
    Seq::new(n, |i: int| i as usize)
}

/// The memory order of a struct of `n` fields: as stored, or the declaration
/// order when none is stored.
pub open spec fn memory_order(stored: Seq<usize>, n: nat) -> Seq<usize> {
    if stored.len() == 0 {
        identity_order(n)
    } else {
        stored
    }
}

/// The declaration order of `n` fields.
fn identity(n: usize) -> (order: Vec<usize>)
    ensures
        order@ == identity_order(n as nat),
{
    let mut order: Vec<usize> = Vec::new();
    let mut i: usize = 0;
    while i < n
        invariant
            i <= n,
            order@ == identity_order(i as nat),
        decreases n - i,
    {
        order.push(i);
        i = i + 1;
        assert(order@ =~= identity_order(i as nat));
    }
    order
}

impl MirStructType {
    /// The fields in memory order, always one entry per field.
    pub fn memory_order(&self) -> (order: Vec<usize>)
        ensures
            order@ == memory_order(self.mem_to_decl@, self.field_types@.len()),
    {
        if self.mem_to_decl.len() == 0 {
            identity(self.field_types.len())
        } else {
            self.mem_to_decl.clone()
        }
    }
}

/// The layout facts of a tuple of these types.
pub open spec fn tuple_facts(types: Seq<MirTy>) -> LayoutFacts {
    LayoutFacts {
        field_types: types,
        mem_to_decl: identity_order(types.len()),
        field_offsets: Seq::empty(),
        total_size: 0,
    }
}

/// The layout facts of a struct.
pub open spec fn struct_facts(
    field_types: Seq<MirTy>,
    mem_to_decl: Seq<usize>,
    field_offsets: Seq<u64>,
    total_size: u64,
) -> LayoutFacts {
    LayoutFacts {
        field_types,
        mem_to_decl: memory_order(mem_to_decl, field_types.len()),
        field_offsets,
        total_size,
    }
}

impl StructLayoutInfo {
    /// Layout facts of a struct.
    pub fn of_struct(s: &MirStructType) -> (info: Self)
        ensures
            info@ == struct_facts(
                mir_tys(s.field_types@),
                s.mem_to_decl@,
                s.field_offsets@,
                s.total_size,
            ),
    {
        StructLayoutInfo {
            field_types: clone_types(&s.field_types),
            mem_to_decl: s.memory_order(),
            field_offsets: s.field_offsets.clone(),
            total_size: s.total_size,
        }
    }

    /// Layout facts of a tuple: declaration order, no rustc layout.
    pub fn of_tuple(types: &Vec<MirType>) -> (info: Self)
        ensures
            info@ == tuple_facts(mir_tys(types@)),
    {
        StructLayoutInfo {
            field_types: clone_types(types),
            mem_to_decl: identity(types.len()),
            field_offsets: Vec::new(),
            total_size: 0,
        }
    }
}

/// Whether rustc's offsets decide where the fields go.
pub open spec fn explicit_layout(l: LayoutFacts) -> bool {
    l.field_offsets.len() > 0 && l.total_size > 0
}

/// Whether `order` lists each of `0..n` exactly once.
pub open spec fn is_permutation(order: Seq<usize>, n: nat) -> bool {
    &&& order.len() == n
    &&& forall|i: int| 0 <= i < order.len() ==> #[trigger] order[i] < n
    &&& forall|i: int, j: int|
        0 <= i < j < order.len() ==> #[trigger] order[i] != #[trigger] order[j]
}

/// What is wrong with the layout facts themselves.
pub open spec fn layout_error(l: LayoutFacts) -> Option<ConvertErr> {
    let n = l.field_types.len();
    if l.mem_to_decl.len() != n {
        Some(ConvertErr::MemoryOrderLength { entries: l.mem_to_decl.len(), fields: n })
    } else if !is_permutation(l.mem_to_decl, n) {
        Some(ConvertErr::NotPermutation { order: l.mem_to_decl, fields: n })
    } else if explicit_layout(l) && l.field_offsets.len() != n {
        Some(ConvertErr::OffsetCount { offsets: l.field_offsets.len(), fields: n })
    } else {
        None
    }
}

/// The part of a struct that has been laid out.
#[verifier::ext_equal]
pub struct Placement {
    /// The slots so far.
    pub fields: Seq<LlvmTy>,
    /// Where each declared field went.
    pub slots: Seq<Option<u32>>,
    /// Bytes so far.
    pub offset: nat,
}

/// The bytes a field takes: as rustc reported, or else its packed size.
pub open spec fn field_size(mir: MirTy, llvm: LlvmTy) -> nat {
    match stored_size(mir) {
        Some(size) => size,
        None => packed_size(llvm),
    }
}

/// `p` padded up to `target` bytes.
pub open spec fn pad_to(p: Placement, target: u64) -> Placement {
    if p.offset < target {
        Placement {
            fields: p.fields.push(padding_ty((target - p.offset) as u64)),
            slots: p.slots,
            offset: target as nat,
        }
    } else {
        p
    }
}

/// `p` padded up to where field `decl` goes.
pub open spec fn before_field(l: LayoutFacts, p: Placement, decl: int) -> Placement {
    if explicit_layout(l) {
        pad_to(p, l.field_offsets[decl])
    } else {
        p
    }
}

/// `p` with field `decl`, of type `llvm`, laid out next. A zero-sized field
/// takes no slot.
pub open spec fn place_field(l: LayoutFacts, llvm: LlvmTy, p: Placement, decl: int) -> Placement {
    if zero_sized(llvm) {
        p
    } else {
        let q = before_field(l, p, decl);
        Placement {
            fields: q.fields.push(llvm),
            slots: q.slots.update(decl, Some(q.fields.len() as u32)),
            offset: if explicit_layout(l) {
                q.offset + field_size(l.field_types[decl], llvm)
            } else {
                q.offset
            },
        }
    }
}

/// The first `n` fields in memory order, laid out. `tys` are the converted
/// field types in declaration order.
pub open spec fn place(l: LayoutFacts, tys: Seq<LlvmTy>, n: nat) -> Placement
    decreases n,
{
    if n == 0 {
        Placement {
            fields: Seq::empty(),
            slots: Seq::new(l.field_types.len(), |i: int| None),
            offset: 0,
        }
    } else {
        let decl = l.mem_to_decl[n - 1] as int;
        place_field(l, tys[decl], place(l, tys, (n - 1) as nat), decl)
    }
}

/// All fields laid out, with the padding after them.
pub open spec fn placed(l: LayoutFacts, tys: Seq<LlvmTy>) -> Placement {
    let p = place(l, tys, l.mem_to_decl.len());
    if explicit_layout(l) {
        pad_to(p, l.total_size)
    } else {
        p
    }
}

// ---------------------------------------------------------------------------
// Conversion
// ---------------------------------------------------------------------------

/// The fat pointer of a slice: `{ ptr, i64 }`.
pub open spec fn slice_struct() -> LlvmTy {
    LlvmTy::Struct {
        fields: seq![LlvmTy::Pointer { addrspace: 0 }, LlvmTy::Integer { width: 64 }],
    }
}

/// The fields of an enum's struct, with the padding that brings it up to
/// rustc's size.
pub open spec fn enum_fields(fields: Seq<LlvmTy>, total_size: u64) -> Seq<LlvmTy> {
    if 0 < total_size && natural_size(LlvmTy::Struct { fields }) < total_size {
        fields.push(padding_ty((total_size - natural_end(fields, fields.len())) as u64))
    } else {
        fields
    }
}

/// The LLVM type that stands for a Rust-level type.
pub open spec fn convert_ty(ty: MirTy) -> Result<LlvmTy, ConvertErr>
    decreases ty, 0nat,
{
    match ty {
        MirTy::Integer { width, .. } => Ok(LlvmTy::Integer { width }),
        MirTy::Fp16 => Ok(LlvmTy::Half),
        MirTy::Fp32 => Ok(LlvmTy::Float),
        MirTy::Fp64 => Ok(LlvmTy::Double),
        MirTy::Ptr { address_space, .. } => Ok(LlvmTy::Pointer { addrspace: address_space }),
        MirTy::Slice { .. } => Ok(slice_struct()),
        MirTy::DisjointSlice { .. } => Ok(slice_struct()),
        MirTy::Tuple { types } => match convert_tys(types, types.len()) {
            Ok(tys) => Ok(LlvmTy::Struct { fields: placed(tuple_facts(types), tys).fields }),
            Err(e) => Err(e),
        },
        MirTy::Struct { field_types, mem_to_decl, field_offsets, total_size, .. } => {
            let l = struct_facts(field_types, mem_to_decl, field_offsets, total_size);
            match layout_error(l) {
                Some(e) => Err(e),
                None => match convert_tys(field_types, field_types.len()) {
                    Ok(tys) => Ok(LlvmTy::Struct { fields: placed(l, tys).fields }),
                    Err(e) => Err(e),
                },
            }
        },
        MirTy::Enum { discriminant_ty, all_field_types, total_size, .. } => match convert_ty(
            *discriminant_ty,
        ) {
            Ok(tag) => match convert_tys(all_field_types, all_field_types.len()) {
                Ok(tys) => Ok(LlvmTy::Struct { fields: enum_fields(seq![tag] + tys, total_size) }),
                Err(e) => Err(e),
            },
            Err(e) => Err(e),
        },
        MirTy::Array { elem, size } => match convert_ty(*elem) {
            Ok(t) => Ok(LlvmTy::Array { elem: Box::new(t), size }),
            Err(e) => Err(e),
        },
        MirTy::Vector { elem, num_elements } => match convert_ty(*elem) {
            Ok(t) => Ok(LlvmTy::Vector { elem: Box::new(t), num_elements, scalable: false }),
            Err(e) => Err(e),
        },
        MirTy::Other { display } => Err(ConvertErr::Unsupported { display }),
    }
}

/// The LLVM types that stand for the first `n` types; the first that has none
/// decides the error.
pub open spec fn convert_tys(types: Seq<MirTy>, n: nat) -> Result<Seq<LlvmTy>, ConvertErr>
    decreases types, n,
{
    if n == 0 || n > types.len() {
        Ok(Seq::empty())
    } else {
        match convert_tys(types, (n - 1) as nat) {
            Ok(tys) => match convert_ty(types[n - 1]) {
                Ok(t) => Ok(tys.push(t)),
                Err(e) => Err(e),
            },
            Err(e) => Err(e),
        }
    }
}

/// Whether the bytes of a struct, and of each of its fields, are `u64`s.
pub open spec fn placement_fits(l: LayoutFacts, tys: Seq<LlvmTy>) -> bool {
    &&& forall|d: int|
        #![trigger tys[d]]
        0 <= d < tys.len() && !zero_sized(tys[d]) ==> stored_fits(l.field_types[d]) && (
        stored_size(l.field_types[d]) is None ==> packed_fits(tys[d]))
    &&& place(l, tys, l.mem_to_decl.len()).offset <= u64::MAX
}

/// Whether the sizes that the conversion of a struct computes are `u64`s.
pub open spec fn struct_fits(l: LayoutFacts) -> bool {
    explicit_layout(l) && layout_error(l) is None ==> match convert_tys(
        l.field_types,
        l.field_types.len(),
    ) {
        Ok(tys) => placement_fits(l, tys),
        Err(_) => true,
    }
}

/// Whether the sizes that the conversion of an enum computes are `u64`s.
pub open spec fn enum_fits(
    discriminant_ty: MirTy,
    all_field_types: Seq<MirTy>,
    total_size: u64,
) -> bool {
    total_size > 0 ==> match enum_members_of(discriminant_ty, all_field_types) {
        Ok(fields) => natural_fits(LlvmTy::Struct { fields }),
        Err(_) => true,
    }
}

/// Whether every size that the conversion of the type computes is a `u64`.
pub open spec fn conversion_fits(ty: MirTy) -> bool
    decreases ty, 0nat,
{
    match ty {
        MirTy::Tuple { types } => conversions_fit(types),
        MirTy::Struct { field_types, mem_to_decl, field_offsets, total_size, .. } => {
            &&& conversions_fit(field_types)
            &&& struct_fits(struct_facts(field_types, mem_to_decl, field_offsets, total_size))
        },
        MirTy::Enum { discriminant_ty, all_field_types, total_size, .. } => {
            &&& conversion_fits(*discriminant_ty)
            &&& conversions_fit(all_field_types)
            &&& enum_fits(*discriminant_ty, all_field_types, total_size)
        },
        MirTy::Array { elem, .. } => conversion_fits(*elem),
        MirTy::Vector { elem, .. } => conversion_fits(*elem),
        _ => true,
    }
}

/// [`conversion_fits`] of every type of the list.
pub open spec fn conversions_fit(types: Seq<MirTy>) -> bool
    decreases types, 1nat,
{
    forall|i: int| 0 <= i < types.len() ==> conversion_fits(#[trigger] types[i])
}

/// Whether the result `r` is what `expected` says.
pub open spec fn converts_as(
    r: Result<LlvmType, ConvertError>,
    expected: Result<LlvmTy, ConvertErr>,
) -> bool {
    match r {
        Ok(t) => expected == Ok::<LlvmTy, ConvertErr>(t@),
        Err(e) => expected == Err::<LlvmTy, ConvertErr>(e@),
    }
}

/// Creates the struct that stands for a slice: `{ ptr, i64 }`, with a generic
/// pointer and the number of elements.
pub fn make_slice_struct() -> (ty: LlvmType)
    ensures
        ty@ == slice_struct(),
{
    let fields: Vec<LlvmType> = vec![
        LlvmType::Pointer { addrspace: 0 },
        LlvmType::Integer { width: 64 },
    ];
    assert(llvm_tys(fields@) =~= slice_struct()->fields);
    LlvmType::Struct { fields }
}

proof fn lemma_convert_tys_error(types: Seq<MirTy>, m: nat, n: nat)
    requires
        m <= n <= types.len(),
        convert_tys(types, m) is Err,
    ensures
        convert_tys(types, n) == convert_tys(types, m),
    decreases n,
{
    if m < n {
        lemma_convert_tys_error(types, m, (n - 1) as nat);
    }
}

pub(crate) proof fn lemma_convert_tys_len(types: Seq<MirTy>, n: nat)
    requires
        n <= types.len(),
        convert_tys(types, n) is Ok,
    ensures
        convert_tys(types, n)->Ok_0.len() == n,
        forall|i: int|
            0 <= i < n ==> convert_ty(types[i]) == Ok::<LlvmTy, ConvertErr>(
                #[trigger] convert_tys(types, n)->Ok_0[i],
            ),
    decreases n,
{
    if n > 0 {
        lemma_convert_tys_len(types, (n - 1) as nat);
    }
}

/// Converts a Rust-level type to its LLVM counterpart.
pub fn convert_type(ty: &MirType) -> (r: Result<LlvmType, ConvertError>)
    requires
        conversion_fits(ty@),
    ensures
        converts_as(r, convert_ty(ty@)),
    decreases ty@, 2nat,
{
    match ty {
        MirType::Integer { width, .. } => Ok(LlvmType::Integer { width: *width }),
        MirType::Fp16 => Ok(LlvmType::Half),
        MirType::Fp32 => Ok(LlvmType::Float),
        MirType::Fp64 => Ok(LlvmType::Double),
        MirType::Ptr { address_space, .. } => Ok(LlvmType::Pointer { addrspace: *address_space }),
        MirType::Slice { .. } => Ok(make_slice_struct()),
        MirType::DisjointSlice { .. } => Ok(make_slice_struct()),
        MirType::Tuple { types } => {
            let layout = StructLayoutInfo::of_tuple(types);
            assert(ty@ == (MirTy::Tuple { types: mir_tys(types@) }));
            assert(layout@ == tuple_facts(mir_tys(types@)));
            proof {
                assert(types@.len() == types.len());
                lemma_identity_permutation(types@.len());
            }
            match build_struct_slot_map(&layout) {
                Ok(map) => Ok(map.llvm_struct_ty),
                Err(e) => Err(e),
            }
        },
        MirType::Struct(s) => {
            let layout = StructLayoutInfo::of_struct(s);
            match build_struct_slot_map(&layout) {
                Ok(map) => Ok(map.llvm_struct_ty),
                Err(e) => Err(e),
            }
        },
        MirType::Enum(_) => convert_enum_to_llvm(ty),
        MirType::Array { elem, size } => match convert_type(elem) {
            Ok(t) => Ok(LlvmType::Array { elem: Box::new(t), size: *size }),
            Err(e) => Err(e),
        },
        MirType::Vector { elem, num_elements } => match convert_type(elem) {
            Ok(t) => Ok(
                LlvmType::Vector { elem: Box::new(t), num_elements: *num_elements, scalable: false },
            ),
            Err(e) => Err(e),
        },
        MirType::Other { display } => Err(ConvertError::Unsupported { display: display.clone() }),
    }
}

/// Converts a list of types, in order.
fn convert_types(types: &Vec<MirType>) -> (r: Result<Vec<LlvmType>, ConvertError>)
    requires
        conversions_fit(mir_tys(types@)),
    ensures
        match r {
            Ok(tys) => convert_tys(mir_tys(types@), types@.len()) == Ok::<
                Seq<LlvmTy>,
                ConvertErr,
            >(llvm_tys(tys@)),
            Err(e) => convert_tys(mir_tys(types@), types@.len()) == Err::<
                Seq<LlvmTy>,
                ConvertErr,
            >(e@),
        },
    decreases mir_tys(types@), 1nat,
{
    let ghost mirs = mir_tys(types@);
    let mut tys: Vec<LlvmType> = Vec::new();
    assert(llvm_tys(tys@) =~= Seq::<LlvmTy>::empty());
    let mut i: usize = 0;
    while i < types.len()
        invariant
            i <= types@.len(),
            mirs == mir_tys(types@),
            conversions_fit(mirs),
            convert_tys(mirs, i as nat) == Ok::<Seq<LlvmTy>, ConvertErr>(llvm_tys(tys@)),
        decreases types@.len() - i,
    {
        assert(mirs[i as int] == types@[i as int]@);
        assert(conversion_fits(mirs[i as int]));
        match convert_type(&types[i]) {
            Ok(t) => {
                let ghost before = tys@;
                tys.push(t);
                assert(llvm_tys(tys@) =~= llvm_tys(before).push(t@));
            },
            Err(e) => {
                proof {
                    lemma_convert_tys_error(mirs, (i + 1) as nat, mirs.len());
                }
                return Err(e);
            },
        }
        i = i + 1;
    }
    Ok(tys)
}

/// One lowered LLVM struct with the slot of each declared field.
pub struct StructSlotMap {
    /// The LLVM struct type, with its `[N x i8]` padding slots.
    pub llvm_struct_ty: LlvmType,
    /// The slot of each field in declaration order; `None` when the field is
    /// zero-sized.
    pub decl_to_llvm: Vec<Option<u32>>,
    /// The LLVM type of each field in declaration order.
    pub field_llvm_types: Vec<LlvmType>,
}

pub(crate) proof fn lemma_identity_permutation(n: nat)
    requires
        n <= usize::MAX,
    ensures
        is_permutation(identity_order(n), n),
{
}

proof fn lemma_place_monotone(l: LayoutFacts, tys: Seq<LlvmTy>, m: nat, n: nat)
    requires
        m <= n,
    ensures
        place(l, tys, m).offset <= place(l, tys, n).offset,
    decreases n,
{
    if m < n {
        lemma_place_monotone(l, tys, m, (n - 1) as nat);
    }
}

/// Whether `order`, of `n` entries, lists each of `0..n` exactly once.
fn check_permutation(order: &Vec<usize>, n: usize) -> (yes: bool)
    requires
        order@.len() == n,
    ensures
        yes == is_permutation(order@, n as nat),
{
    let mut seen: Vec<bool> = vec![false; n];
    let mut i: usize = 0;
    while i < order.len()
        invariant
            i <= order@.len(),
            order@.len() == n,
            seen@.len() == n,
            forall|k: int| 0 <= k < i ==> #[trigger] order@[k] < n && seen@[order@[k] as int],
            forall|a: int, b: int|
                0 <= a < b < i ==> #[trigger] order@[a] != #[trigger] order@[b],
            forall|d: int|
                0 <= d < n && #[trigger] seen@[d] ==> exists|k: int|
                    0 <= k < i && #[trigger] order@[k] == d,
        decreases order@.len() - i,
    {
        let decl_idx: usize = order[i];
        if decl_idx >= n || seen[decl_idx] {
            return false;
        }
        let ghost before = seen@;
        seen.set(decl_idx, true);
        assert forall|d: int| 0 <= d < n && #[trigger] seen@[d] implies exists|k: int|
            0 <= k < i + 1 && #[trigger] order@[k] == d by {
            if d == decl_idx {
                assert(order@[i as int] == d);
            } else {
                assert(before[d]);
            }
        }
        i = i + 1;
    }
    true
}

/// Lowers a struct or tuple layout to its LLVM struct type and slot map.
///
/// With rustc's layout at hand, each field goes to its exact byte offset, with
/// `[N x i8]` padding slots before it where needed and one at the end up to
/// the total size. Without, the fields follow each other in memory order. In
/// both cases a zero-sized field gets no slot.
///
/// A memory order that is no permutation, or a wrong number of offsets, is an
/// error.
pub fn build_struct_slot_map(layout: &StructLayoutInfo) -> (r: Result<
    StructSlotMap,
    ConvertError,
>)
    requires
        conversions_fit(layout@.field_types),
        struct_fits(layout@),
    ensures
        match r {
            Ok(map) => {
                let tys = llvm_tys(map.field_llvm_types@);
                &&& layout_error(layout@) is None
                &&& convert_tys(layout@.field_types, layout@.field_types.len()) == Ok::<
                    Seq<LlvmTy>,
                    ConvertErr,
                >(tys)
                &&& map.llvm_struct_ty@ == (LlvmTy::Struct { fields: placed(layout@, tys).fields })
                &&& map.decl_to_llvm@ == placed(layout@, tys).slots
            },
            Err(e) => match layout_error(layout@) {
                Some(malformed) => e@ == malformed,
                None => convert_tys(layout@.field_types, layout@.field_types.len()) == Err::<
                    Seq<LlvmTy>,
                    ConvertErr,
                >(e@),
            },
        },
    decreases layout@.field_types, 2nat,
{
    let ghost l = layout@;
    let num_fields: usize = layout.field_types.len();
    assert(l.field_types.len() == num_fields);

    if layout.mem_to_decl.len() != num_fields {
        return Err(
            ConvertError::MemoryOrderLength {
                entries: layout.mem_to_decl.len(),
                fields: num_fields,
            },
        );
    }
    if !check_permutation(&layout.mem_to_decl, num_fields) {
        return Err(
            ConvertError::NotPermutation { order: layout.mem_to_decl.clone(), fields: num_fields },
        );
    }
    let explicit = layout.field_offsets.len() > 0 && layout.total_size > 0;
    if explicit && layout.field_offsets.len() != num_fields {
        return Err(
            ConvertError::OffsetCount {
                offsets: layout.field_offsets.len(),
                fields: num_fields,
            },
        );
    }
    let field_llvm_types = match convert_types(&layout.field_types) {
        Ok(tys) => tys,
        Err(e) => {
            return Err(e);
        },
    };
    let ghost tys = llvm_tys(field_llvm_types@);
    proof {
        lemma_convert_tys_len(l.field_types, l.field_types.len());
    }

    let mut llvm_fields: Vec<LlvmType> = Vec::new();
    let mut decl_to_llvm: Vec<Option<u32>> = vec![None; num_fields];
    let mut current_offset: u64 = 0;
    assert(llvm_tys(llvm_fields@) =~= place(l, tys, 0).fields);
    assert(decl_to_llvm@ =~= place(l, tys, 0).slots);

    let mut i: usize = 0;
    while i < layout.mem_to_decl.len()
        invariant
            i <= layout.mem_to_decl@.len(),
            l == layout@,
            num_fields == l.field_types.len(),
            tys == llvm_tys(field_llvm_types@),
            tys.len() == num_fields,
            layout_error(l) is None,
            explicit == explicit_layout(l),
            explicit ==> placement_fits(l, tys),
            decl_to_llvm@.len() == num_fields,
            llvm_tys(llvm_fields@) == place(l, tys, i as nat).fields,
            decl_to_llvm@ == place(l, tys, i as nat).slots,
            current_offset == place(l, tys, i as nat).offset,
        decreases layout.mem_to_decl@.len() - i,
    {
        let decl_idx: usize = layout.mem_to_decl[i];
        let ghost decl = decl_idx as int;
        let ghost p = place(l, tys, i as nat);
        assert(l.mem_to_decl[i as int] == decl);
        assert(tys[decl] == field_llvm_types@[decl]@);
        assert(place(l, tys, (i + 1) as nat) == place_field(l, tys[decl], p, decl));
        proof {
            lemma_place_monotone(l, tys, (i + 1) as nat, l.mem_to_decl.len());
        }
        if !is_zero_sized_type(&field_llvm_types[decl_idx]) {
            if explicit {
                let target_offset: u64 = layout.field_offsets[decl_idx];
                if current_offset < target_offset {
                    let ghost before = llvm_fields@;
                    let padding = make_padding_type(target_offset - current_offset);
                    llvm_fields.push(padding);
                    assert(llvm_tys(llvm_fields@) =~= llvm_tys(before).push(padding@));
                    current_offset = target_offset;
                }
            }
            let ghost q = before_field(l, p, decl);
            assert(llvm_tys(llvm_fields@) == q.fields);
            let ghost before = llvm_fields@;
            decl_to_llvm.set(decl_idx, Some(llvm_fields.len() as u32));
            llvm_fields.push(field_llvm_types[decl_idx].clone());
            assert(llvm_tys(llvm_fields@) =~= llvm_tys(before).push(tys[decl]));
            if explicit {
                assert(mir_tys(layout.field_types@)[decl] == layout.field_types@[decl]@);
                let advance: u64 = match mir_stored_size(&layout.field_types[decl_idx]) {
                    Some(size) => size,
                    None => get_type_size(&field_llvm_types[decl_idx]),
                };
                current_offset = current_offset + advance;
            }
        }
        i = i + 1;
    }

    if explicit && current_offset < layout.total_size {
        let ghost before = llvm_fields@;
        let padding = make_padding_type(layout.total_size - current_offset);
        llvm_fields.push(padding);
        assert(llvm_tys(llvm_fields@) =~= llvm_tys(before).push(padding@));
    }
    Ok(
        StructSlotMap {
            llvm_struct_ty: LlvmType::Struct { fields: llvm_fields },
            decl_to_llvm,
            field_llvm_types,
        },
    )
}

/// The struct fields that stand for an enum before padding: the discriminant,
/// then every payload field.
pub open spec fn enum_members_of(
    discriminant_ty: MirTy,
    all_field_types: Seq<MirTy>,
) -> Result<Seq<LlvmTy>, ConvertErr> {
    match convert_ty(discriminant_ty) {
        Ok(tag) => match convert_tys(all_field_types, all_field_types.len()) {
            Ok(tys) => Ok(seq![tag] + tys),
            Err(e) => Err(e),
        },
        Err(e) => Err(e),
    }
}

/// The struct fields that stand for the enum `ty` before padding.
fn enum_members(ty: &MirType) -> (r: Result<Vec<LlvmType>, ConvertError>)
    requires
        conversion_fits(ty@),
    ensures
        match ty@ {
            MirTy::Enum { discriminant_ty, all_field_types, .. } => match r {
                Ok(members) => enum_members_of(*discriminant_ty, all_field_types) == Ok::<
                    Seq<LlvmTy>,
                    ConvertErr,
                >(llvm_tys(members@)),
                Err(e) => enum_members_of(*discriminant_ty, all_field_types) == Err::<
                    Seq<LlvmTy>,
                    ConvertErr,
                >(e@),
            },
            _ => r == Err::<Vec<LlvmType>, ConvertError>(ConvertError::ExpectedEnum),
        },
    decreases ty@, 0nat,
{
    match ty {
        MirType::Enum(e) => {
            let tag = match convert_type(&e.discriminant_ty) {
                Ok(t) => t,
                Err(e) => {
                    return Err(e);
                },
            };
            let mut tys = match convert_types(&e.all_field_types) {
                Ok(tys) => tys,
                Err(e) => {
                    return Err(e);
                },
            };
            let ghost rest = tys@;
            let mut members: Vec<LlvmType> = vec![tag];
            members.append(&mut tys);
            assert(llvm_tys(members@) =~= seq![tag@] + llvm_tys(rest));
            Ok(members)
        },
        _ => Err(ConvertError::ExpectedEnum),
    }
}

/// Converts an enum to its LLVM struct: the discriminant, then every variant's
/// payload fields, then padding up to rustc's size where the struct is
/// smaller. A struct that is larger stays as it is.
pub fn convert_enum_to_llvm(ty: &MirType) -> (r: Result<LlvmType, ConvertError>)
    requires
        conversion_fits(ty@),
    ensures
        ty@ is Enum ==> converts_as(r, convert_ty(ty@)),
        ty@ !is Enum ==> r == Err::<LlvmType, ConvertError>(ConvertError::ExpectedEnum),
    decreases ty@, 1nat,
{
    let mut fields = match enum_members(ty) {
        Ok(members) => members,
        Err(e) => {
            return Err(e);
        },
    };
    let total_size: u64 = match ty {
        MirType::Enum(e) => e.total_size,
        _ => 0,
    };
    if total_size > 0 {
        let (end, size, _align) = natural_struct_layout(&fields);
        if size < total_size {
            proof {
                lemma_natural_end_in_size(llvm_tys(fields@));
            }
            let ghost before = fields@;
            let padding = make_padding_type(total_size - end);
            fields.push(padding);
            assert(llvm_tys(fields@) =~= llvm_tys(before).push(padding@));
        }
    }
    Ok(LlvmType::Struct { fields })
}

/// The name of an enum whose struct is larger than the enum is in memory:
/// several of its variants carry payloads that overlap in Rust, and the struct
/// holds them side by side. `None` for every other type.
pub fn enum_memory_divergence(ty: &MirType) -> (r: Result<Option<String>, ConvertError>)
    requires
        conversion_fits(ty@),
    ensures
        match ty@ {
            MirTy::Enum { name, discriminant_ty, all_field_types, total_size } => if total_size
                == 0 {
                r == Ok::<Option<String>, ConvertError>(None)
            } else {
                match enum_members_of(*discriminant_ty, all_field_types) {
                    Ok(fields) => {
                        &&& r is Ok
                        &&& r->Ok_0 is Some <==> natural_size(LlvmTy::Struct { fields })
                            > total_size
                        &&& r->Ok_0 is Some ==> r->Ok_0->0@ == name
                    },
                    Err(e) => r is Err && r->Err_0@ == e,
                }
            },
            _ => r == Ok::<Option<String>, ConvertError>(None),
        },
{
    match ty {
        MirType::Enum(e) => {
            if e.total_size == 0 {
                return Ok(None);
            }
            let fields = match enum_members(ty) {
                Ok(members) => members,
                Err(e) => {
                    return Err(e);
                },
            };
            let (_end, size, _align) = natural_struct_layout(&fields);
            if size > e.total_size {
                Ok(Some(e.name.clone()))
            } else {
                Ok(None)
            }
        },
        _ => Ok(None),
    }
}

// ---------------------------------------------------------------------------
// Function types
// ---------------------------------------------------------------------------

/// The type of a MIR function.
pub struct MirFuncType {
    pub inputs: Vec<MirType>,
    pub results: Vec<MirType>,
}

/// The type of an LLVM function.
#[derive(Debug, PartialEq, Eq)]
pub struct LlvmFuncType {
    pub result: LlvmType,
    pub inputs: Vec<LlvmType>,
    pub is_var_arg: bool,
}

/// `t` as a list of arguments: a zero-sized type is no argument.
pub open spec fn unless_zero_sized(t: LlvmTy) -> Seq<LlvmTy> {
    if zero_sized(t) {
        Seq::empty()
    } else {
        seq![t]
    }
}

/// The arguments that stand for the first `n` fields of a struct in memory
/// order.
pub open spec fn flat_fields(
    field_types: Seq<MirTy>,
    order: Seq<usize>,
    n: nat,
) -> Result<Seq<LlvmTy>, ConvertErr>
    decreases n,
{
    if n == 0 {
        Ok(Seq::empty())
    } else {
        match flat_fields(field_types, order, (n - 1) as nat) {
            Ok(args) => match convert_ty(field_types[order[n - 1] as int]) {
                Ok(t) => Ok(args + unless_zero_sized(t)),
                Err(e) => Err(e),
            },
            Err(e) => Err(e),
        }
    }
}

/// The arguments that stand for one argument: `(ptr, len)` for a slice, the
/// fields for a struct except at a kernel entry, the converted type for any
/// other.
pub open spec fn flat_input(ty: MirTy, is_kernel_entry: bool) -> Result<Seq<LlvmTy>, ConvertErr> {
    if ty is Slice || ty is DisjointSlice {
        Ok(slice_struct()->fields)
    } else if ty is Struct && !is_kernel_entry {
        let field_types = ty->Struct_field_types;
        flat_fields(
            field_types,
            memory_order(ty->mem_to_decl, field_types.len()),
            field_types.len(),
        )
    } else {
        match convert_ty(ty) {
            Ok(t) => Ok(unless_zero_sized(t)),
            Err(e) => Err(e),
        }
    }
}

/// The arguments that stand for the first `n` arguments.
pub open spec fn flat_inputs(
    inputs: Seq<MirTy>,
    is_kernel_entry: bool,
    n: nat,
) -> Result<Seq<LlvmTy>, ConvertErr>
    decreases n,
{
    if n == 0 {
        Ok(Seq::empty())
    } else {
        match flat_inputs(inputs, is_kernel_entry, (n - 1) as nat) {
            Ok(args) => match flat_input(inputs[n - 1], is_kernel_entry) {
                Ok(more) => Ok(args + more),
                Err(e) => Err(e),
            },
            Err(e) => Err(e),
        }
    }
}

/// The LLVM result type: `void` for no result and for a zero-sized one.
pub open spec fn flat_result(results: Seq<MirTy>) -> Result<LlvmTy, ConvertErr> {
    if results.len() == 0 {
        Ok(LlvmTy::Void)
    } else {
        match convert_ty(results[0]) {
            Ok(t) => if zero_sized(t) {
                Ok(LlvmTy::Void)
            } else {
                Ok(t)
            },
            Err(e) => Err(e),
        }
    }
}

/// Whether an argument can be flattened: what its conversion computes fits,
/// and where its fields are taken apart, the memory order names one of them
/// for each.
pub open spec fn input_fits(ty: MirTy, is_kernel_entry: bool) -> bool {
    if ty is Struct && !is_kernel_entry {
        let field_types = ty->Struct_field_types;
        let order = memory_order(ty->mem_to_decl, field_types.len());
        &&& conversions_fit(field_types)
        &&& order.len() >= field_types.len()
        &&& forall|i: int|
            0 <= i < field_types.len() ==> #[trigger] order[i] < field_types.len()
    } else {
        conversion_fits(ty)
    }
}

/// Appends `ty` unless it is zero-sized.
fn push_unless_zero_sized(args: &mut Vec<LlvmType>, ty: LlvmType)
    ensures
        llvm_tys(final(args)@) == llvm_tys(old(args)@) + unless_zero_sized(ty@),
{
    let ghost before = args@;
    if !is_zero_sized_type(&ty) {
        args.push(ty);
        assert(llvm_tys(args@) =~= llvm_tys(before) + seq![ty@]);
    } else {
        assert(llvm_tys(args@) =~= llvm_tys(before) + Seq::<LlvmTy>::empty());
    }
}

proof fn lemma_flat_fields_error(field_types: Seq<MirTy>, order: Seq<usize>, m: nat, n: nat)
    requires
        m <= n,
        flat_fields(field_types, order, m) is Err,
    ensures
        flat_fields(field_types, order, n) == flat_fields(field_types, order, m),
    decreases n,
{
    if m < n {
        lemma_flat_fields_error(field_types, order, m, (n - 1) as nat);
    }
}

pub(crate) proof fn lemma_flat_inputs_error(inputs: Seq<MirTy>, is_kernel_entry: bool, m: nat, n: nat)
    requires
        m <= n,
        flat_inputs(inputs, is_kernel_entry, m) is Err,
    ensures
        flat_inputs(inputs, is_kernel_entry, n) == flat_inputs(inputs, is_kernel_entry, m),
    decreases n,
{
    if m < n {
        lemma_flat_inputs_error(inputs, is_kernel_entry, m, (n - 1) as nat);
    }
}

/// Appends the fields of a struct in memory order, without the zero-sized
/// ones.
fn flatten_struct(s: &MirStructType, args: &mut Vec<LlvmType>) -> (r: Result<(), ConvertError>)
    requires
        input_fits(MirType::Struct(*s)@, false),
    ensures
        match r {
            Ok(()) => {
                &&& flat_input(MirType::Struct(*s)@, false) is Ok
                &&& llvm_tys(final(args)@) == llvm_tys(old(args)@) + flat_input(
                    MirType::Struct(*s)@,
                    false,
                )->Ok_0
            },
            Err(e) => flat_input(MirType::Struct(*s)@, false) == Err::<Seq<LlvmTy>, ConvertErr>(e@),
        },
{
    let order = s.memory_order();
    let ghost fields = mir_tys(s.field_types@);
    let ghost start = llvm_tys(args@);
    assert(start + Seq::<LlvmTy>::empty() =~= start);
    let mut i: usize = 0;
    while i < s.field_types.len()
        invariant
            i <= s.field_types@.len(),
            fields == mir_tys(s.field_types@),
            conversions_fit(fields),
            order@ == memory_order(s.mem_to_decl@, fields.len()),
            order@.len() >= fields.len(),
            forall|k: int| 0 <= k < fields.len() ==> #[trigger] order@[k] < fields.len(),
            flat_fields(fields, order@, i as nat) is Ok,
            llvm_tys(args@) == start + flat_fields(fields, order@, i as nat)->Ok_0,
        decreases s.field_types@.len() - i,
    {
        let decl_idx: usize = order[i];
        assert(conversion_fits(fields[decl_idx as int]));
        assert(fields[decl_idx as int] == s.field_types@[decl_idx as int]@);
        match convert_type(&s.field_types[decl_idx]) {
            Ok(t) => {
                let ghost sofar = flat_fields(fields, order@, i as nat)->Ok_0;
                push_unless_zero_sized(args, t);
                assert(start + (sofar + unless_zero_sized(t@)) =~= (start + sofar)
                    + unless_zero_sized(t@));
            },
            Err(e) => {
                proof {
                    lemma_flat_fields_error(fields, order@, (i + 1) as nat, fields.len());
                }
                return Err(e);
            },
        }
        i = i + 1;
    }
    Ok(())
}

/// Appends what stands for one argument.
fn flatten_input(ty: &MirType, is_kernel_entry: bool, args: &mut Vec<LlvmType>) -> (r: Result<
    (),
    ConvertError,
>)
    requires
        input_fits(ty@, is_kernel_entry),
    ensures
        match r {
            Ok(()) => {
                &&& flat_input(ty@, is_kernel_entry) is Ok
                &&& llvm_tys(final(args)@) == llvm_tys(old(args)@) + flat_input(
                    ty@,
                    is_kernel_entry,
                )->Ok_0
            },
            Err(e) => flat_input(ty@, is_kernel_entry) == Err::<Seq<LlvmTy>, ConvertErr>(e@),
        },
{
    let ghost before = args@;
    match ty {
        MirType::Slice { .. } | MirType::DisjointSlice { .. } => {
            args.push(LlvmType::Pointer { addrspace: 0 });
            args.push(LlvmType::Integer { width: 64 });
            assert(llvm_tys(args@) =~= llvm_tys(before) + slice_struct()->fields);
            return Ok(());
        },
        MirType::Struct(s) => {
            if !is_kernel_entry {
                return flatten_struct(s, args);
            }
        },
        _ => {},
    }
    match convert_type(ty) {
        Ok(t) => {
            push_unless_zero_sized(args, t);
            Ok(())
        },
        Err(e) => Err(e),
    }
}

/// Converts a MIR function type to an LLVM function type.
///
/// Slices become `(ptr, len)` pairs. Structs become their fields in memory
/// order, except at a kernel entry, where the host passes them as one value.
/// Zero-sized arguments disappear, and a zero-sized result becomes `void`.
pub fn convert_function_type(func_type: &MirFuncType, is_kernel_entry: bool) -> (r: Result<
    LlvmFuncType,
    ConvertError,
>)
    requires
        forall|i: int|
            0 <= i < func_type.inputs@.len() ==> input_fits(
                #[trigger] mir_tys(func_type.inputs@)[i],
                is_kernel_entry,
            ),
        func_type.results@.len() > 0 ==> conversion_fits(func_type.results@[0]@),
    ensures
        match flat_inputs(mir_tys(func_type.inputs@), is_kernel_entry, func_type.inputs@.len()) {
            Ok(args) => match flat_result(mir_tys(func_type.results@)) {
                Ok(result) => {
                    &&& r is Ok
                    &&& llvm_tys(r->Ok_0.inputs@) == args
                    &&& r->Ok_0.result@ == result
                    &&& !r->Ok_0.is_var_arg
                },
                Err(e) => r is Err && r->Err_0@ == e,
            },
            Err(e) => r is Err && r->Err_0@ == e,
        },
{
    let ghost mirs = mir_tys(func_type.inputs@);
    let mut inputs: Vec<LlvmType> = Vec::new();
    assert(llvm_tys(inputs@) =~= Seq::<LlvmTy>::empty());
    let mut i: usize = 0;
    while i < func_type.inputs.len()
        invariant
            i <= func_type.inputs@.len(),
            mirs == mir_tys(func_type.inputs@),
            forall|k: int|
                0 <= k < func_type.inputs@.len() ==> input_fits(
                    #[trigger] mirs[k],
                    is_kernel_entry,
                ),
            flat_inputs(mirs, is_kernel_entry, i as nat) == Ok::<Seq<LlvmTy>, ConvertErr>(
                llvm_tys(inputs@),
            ),
        decreases func_type.inputs@.len() - i,
    {
        assert(mirs[i as int] == func_type.inputs@[i as int]@);
        match flatten_input(&func_type.inputs[i], is_kernel_entry, &mut inputs) {
            Ok(()) => {},
            Err(e) => {
                proof {
                    lemma_flat_inputs_error(mirs, is_kernel_entry, (i + 1) as nat, mirs.len());
                }
                return Err(e);
            },
        }
        i = i + 1;
    }
    let result = if func_type.results.len() == 0 {
        LlvmType::Void
    } else {
        assert(mir_tys(func_type.results@)[0] == func_type.results@[0]@);
        match convert_type(&func_type.results[0]) {
            Ok(t) => if is_zero_sized_type(&t) {
                LlvmType::Void
            } else {
                t
            },
            Err(e) => {
                return Err(e);
            },
        }
    };
    Ok(LlvmFuncType { result, inputs, is_var_arg: false })
}

} // verus!
