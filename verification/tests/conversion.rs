use cuda_oxide::ir::llvm::LlvmType;
use cuda_oxide::ir::mir::{EnumVariant, MirEnumType, MirStructType, MirType, Signedness};
use cuda_oxide::lowering::layout::{
    get_type_size, is_zero_sized_type, llvm_type_size_align, make_padding_type, mir_stored_size,
    natural_struct_layout,
};
use cuda_oxide::lowering::types::{
    convert_enum_to_llvm, convert_function_type, convert_type, enum_memory_divergence,
    is_kernel_func, make_slice_struct, ConvertError, MirFuncType, StructLayoutInfo,
};

fn u(width: u32) -> MirType {
    MirType::Integer { width, signedness: Signedness::Unsigned }
}

fn i(width: u32) -> LlvmType {
    LlvmType::Integer { width }
}

fn ptr(addrspace: u32) -> LlvmType {
    LlvmType::Pointer { addrspace }
}

fn fields(fields: Vec<LlvmType>) -> LlvmType {
    LlvmType::Struct { fields }
}

fn pointer_to(pointee: MirType, address_space: u32) -> MirType {
    MirType::Ptr { pointee: Box::new(pointee), is_mutable: false, address_space }
}

fn slice_of(elem: MirType) -> MirType {
    MirType::Slice { elem: Box::new(elem) }
}

#[test]
fn simple_types_convert_one_to_one() {
    assert_eq!(convert_type(&u(16)), Ok(i(16)));
    assert_eq!(convert_type(&MirType::Fp16), Ok(LlvmType::Half));
    assert_eq!(convert_type(&MirType::Fp32), Ok(LlvmType::Float));
    assert_eq!(convert_type(&MirType::Fp64), Ok(LlvmType::Double));
    assert_eq!(convert_type(&pointer_to(u(8), 3)), Ok(ptr(3)));
    assert_eq!(
        convert_type(&MirType::Array { elem: Box::new(u(8)), size: 5 }),
        Ok(LlvmType::Array { elem: Box::new(i(8)), size: 5 })
    );
    assert_eq!(
        convert_type(&MirType::Vector { elem: Box::new(u(32)), num_elements: 4 }),
        Ok(LlvmType::Vector { elem: Box::new(i(32)), num_elements: 4, scalable: false })
    );
}

#[test]
fn slices_are_a_pointer_and_a_length() {
    assert_eq!(make_slice_struct(), fields(vec![ptr(0), i(64)]));
    assert_eq!(convert_type(&slice_of(u(8))), Ok(make_slice_struct()));
    assert_eq!(
        convert_type(&MirType::DisjointSlice { elem: Box::new(MirType::Fp32) }),
        Ok(make_slice_struct())
    );
}

#[test]
fn tuples_lose_their_zero_sized_parts() {
    let unit = MirType::Tuple { types: vec![] };
    assert_eq!(
        convert_type(&MirType::Tuple { types: vec![u(8), unit, u(32)] }),
        Ok(fields(vec![i(8), i(32)]))
    );
}

#[test]
fn unknown_types_are_refused() {
    let error = convert_type(&MirType::Other { display: "mir.str".to_string() }).err().unwrap();
    assert_eq!(error, ConvertError::Unsupported { display: "mir.str".to_string() });
    assert_eq!(
        error.message(),
        "Unsupported type conversion: mir.str\nSupported: integers, fp32, fp64, pointers, \
         slices, tuples, structs, enums, arrays, vectors."
    );
    let nested = MirType::Tuple { types: vec![MirType::Other { display: "x".to_string() }] };
    assert!(convert_type(&nested).is_err());
}

fn color(total_size: u64) -> MirType {
    MirType::Enum(MirEnumType {
        name: "Color".to_string(),
        discriminant_ty: Box::new(u(8)),
        all_field_types: vec![u(32)],
        total_size,
    })
}

#[test]
fn enums_are_padded_to_their_size() {
    assert_eq!(convert_enum_to_llvm(&color(0)), Ok(fields(vec![i(8), i(32)])));
    assert_eq!(convert_enum_to_llvm(&color(8)), Ok(fields(vec![i(8), i(32)])));
    assert_eq!(
        convert_enum_to_llvm(&color(12)),
        Ok(fields(vec![i(8), i(32), make_padding_type(4)]))
    );
    assert_eq!(
        convert_enum_to_llvm(&u(8)).err().unwrap().message(),
        "convert_enum_to_llvm: expected MirEnumType"
    );
    let built = MirType::enum_of(
        "Color".to_string(),
        u(8),
        vec![
            EnumVariant { name: "A".to_string(), field_types: vec![u(32)] },
            EnumVariant { name: "B".to_string(), field_types: vec![] },
        ],
    );
    assert_eq!(convert_enum_to_llvm(&built), Ok(fields(vec![i(8), i(32)])));
}

#[test]
fn enums_that_overlay_payloads_are_reported() {
    assert_eq!(enum_memory_divergence(&color(8)), Ok(None));
    assert!(matches!(enum_memory_divergence(&color(4)), Ok(Some(_))));
    assert_eq!(enum_memory_divergence(&color(0)), Ok(None));
}

#[test]
fn kernels_are_known_by_their_attribute() {
    assert!(is_kernel_func(&vec!["inline".to_string(), "gpu_kernel".to_string()]));
    assert!(!is_kernel_func(&vec!["kernel".to_string()]));
    assert!(!is_kernel_func(&vec![]));
}

#[test]
fn kernel_parameters_are_flattened() {
    let ty = MirFuncType {
        inputs: vec![u(32), slice_of(u(8)), pointer_to(u(8), 1)],
        results: vec![MirType::Tuple { types: vec![] }],
    };
    let kernel = convert_function_type(&ty, true).unwrap();
    assert_eq!(kernel.result, LlvmType::Void);
    assert_eq!(kernel.inputs, vec![i(32), ptr(0), i(64), ptr(1)]);
    assert!(!kernel.is_var_arg);

    let value = MirFuncType { inputs: vec![], results: vec![MirType::Fp32] };
    assert_eq!(convert_function_type(&value, false).unwrap().result, LlvmType::Float);
}

#[test]
fn layouts_come_from_structs_and_tuples() {
    let s = MirStructType {
        name: "S".to_string(),
        field_types: vec![u(8), u(16)],
        mem_to_decl: vec![],
        field_offsets: vec![2, 0],
        total_size: 4,
    };
    let info = StructLayoutInfo::of_struct(&s);
    assert_eq!(info.field_types, vec![u(8), u(16)]);
    assert_eq!(s.memory_order(), vec![0, 1]);
    assert_eq!(info.mem_to_decl, vec![0, 1]);
    assert_eq!((info.field_offsets, info.total_size), (vec![2, 0], 4));
    let tuple = StructLayoutInfo::of_tuple(&vec![u(8)]);
    assert_eq!(tuple.mem_to_decl, vec![0]);
    assert_eq!(tuple.total_size, 0);
}

#[test]
fn sizes_are_packed_or_natural() {
    let mixed = fields(vec![i(8), i(64), i(16)]);
    assert_eq!(get_type_size(&mixed), 11);
    assert_eq!(llvm_type_size_align(&mixed), (24, 8));
    // End of the last field, size and alignment.
    assert_eq!(natural_struct_layout(&vec![i(8), i(64), i(16)]), (18, 24, 8));
    assert_eq!(get_type_size(&i(1)), 1);
    assert_eq!(get_type_size(&ptr(0)), 8);
    assert_eq!(llvm_type_size_align(&LlvmType::Half), (2, 2));
    assert_eq!(
        get_type_size(&LlvmType::Array { elem: Box::new(i(32)), size: 3 }),
        12
    );
    assert_eq!(make_padding_type(7), LlvmType::Array { elem: Box::new(i(8)), size: 7 });
}

#[test]
fn zero_sized_types_hold_nothing() {
    assert!(is_zero_sized_type(&fields(vec![])));
    assert!(is_zero_sized_type(&fields(vec![fields(vec![]), fields(vec![])])));
    assert!(!is_zero_sized_type(&make_padding_type(0)));
    assert!(!is_zero_sized_type(&fields(vec![i(8)])));
    assert!(!is_zero_sized_type(&i(32)));
}

#[test]
fn stored_sizes_come_from_rustc() {
    let s = MirType::Struct(MirStructType {
        name: "S".to_string(),
        field_types: vec![u(8)],
        mem_to_decl: vec![],
        field_offsets: vec![],
        total_size: 16,
    });
    assert_eq!(mir_stored_size(&s), Some(16));
    assert_eq!(mir_stored_size(&color(12)), Some(12));
    assert_eq!(
        mir_stored_size(&MirType::Array { elem: Box::new(s), size: 3 }),
        Some(48)
    );
    assert_eq!(mir_stored_size(&u(8)), None);
}

#[test]
fn kernel_entry_takes_structs_whole() {
    // Fields y, x in memory order; the unit takes no parameter.
    let point = || {
        MirType::Struct(MirStructType {
            name: "Point".to_string(),
            field_types: vec![u(8), MirType::Tuple { types: vec![] }, u(32)],
            mem_to_decl: vec![2, 1, 0],
            field_offsets: vec![],
            total_size: 0,
        })
    };
    let ty = MirFuncType { inputs: vec![point()], results: vec![] };
    assert_eq!(
        convert_function_type(&ty, true).unwrap().inputs,
        vec![fields(vec![i(32), i(8)])]
    );
    assert_eq!(convert_function_type(&ty, false).unwrap().inputs, vec![i(32), i(8)]);

    let slices = || MirFuncType { inputs: vec![slice_of(u(8))], results: vec![] };
    assert_eq!(
        convert_function_type(&slices(), true).unwrap().inputs,
        convert_function_type(&slices(), false).unwrap().inputs
    );
}

#[test]
fn empty_parameters_and_results_disappear() {
    let unit = || MirType::Tuple { types: vec![] };
    let ty = MirFuncType { inputs: vec![unit(), u(64)], results: vec![unit()] };
    let converted = convert_function_type(&ty, false).unwrap();
    assert_eq!(converted.inputs, vec![i(64)]);
    assert_eq!(converted.result, LlvmType::Void);
}
