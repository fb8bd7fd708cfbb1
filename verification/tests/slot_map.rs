use cuda_oxide::ir::llvm::LlvmType;
use cuda_oxide::ir::mir::{EnumVariant, MirStructType, MirType, Signedness};
use cuda_oxide::lowering::layout::make_padding_type;
use cuda_oxide::lowering::types::{build_struct_slot_map, ConvertError, StructLayoutInfo};

/// A MIR-level unsigned integer type (what the importer produces).
fn mir_uint(width: u32) -> MirType {
    MirType::Integer { width, signedness: Signedness::Unsigned }
}

/// A converted (signless) LLVM integer type.
fn llvm_int(width: u32) -> LlvmType {
    LlvmType::Integer { width }
}

/// `[n x i8]` padding type, as `make_padding_type` builds it.
fn pad(n: u64) -> LlvmType {
    make_padding_type(n)
}

/// A zero-sized MIR struct (PhantomData shape).
fn mir_zst() -> MirType {
    MirType::Struct(MirStructType {
        name: "Phantom".to_string(),
        field_types: vec![],
        mem_to_decl: vec![],
        field_offsets: vec![],
        total_size: 0,
    })
}

fn struct_fields(ty: LlvmType) -> Vec<LlvmType> {
    match ty {
        LlvmType::Struct { fields } => fields,
        _ => panic!("expected an LLVM struct type"),
    }
}

#[test]
fn slot_map_reorder_only() {
    // struct { a: u8, b: u64 }, memory order [b, a], no rustc offsets.
    let layout = StructLayoutInfo {
        field_types: vec![mir_uint(8), mir_uint(64)],
        mem_to_decl: vec![1, 0],
        field_offsets: vec![],
        total_size: 0,
    };
    let map = build_struct_slot_map(&layout).unwrap();

    assert_eq!(map.decl_to_llvm, vec![Some(1), Some(0)]);
    assert_eq!(struct_fields(map.llvm_struct_ty), vec![llvm_int(64), llvm_int(8)]);
}

#[test]
fn slot_map_padding_only() {
    // struct { a: u8 @ 0, b: u64 @ 8 }, declaration order == memory order,
    // size 16: lowers to { i8, [7 x i8], i64 }. The pad consumes slot 1, so b
    // lands at slot 2.
    let layout = StructLayoutInfo {
        field_types: vec![mir_uint(8), mir_uint(64)],
        mem_to_decl: vec![0, 1],
        field_offsets: vec![0, 8],
        total_size: 16,
    };
    let map = build_struct_slot_map(&layout).unwrap();

    assert_eq!(map.decl_to_llvm, vec![Some(0), Some(2)]);
    assert_eq!(
        struct_fields(map.llvm_struct_ty),
        vec![llvm_int(8), pad(7), llvm_int(64)]
    );
}

#[test]
fn slot_map_reorder_plus_padding() {
    // struct { a: u8 @ 8, b: u64 @ 0 }, memory order [b, a], size 16: lowers
    // to { i64, i8, [7 x i8] } with a trailing pad.
    let layout = StructLayoutInfo {
        field_types: vec![mir_uint(8), mir_uint(64)],
        mem_to_decl: vec![1, 0],
        field_offsets: vec![8, 0],
        total_size: 16,
    };
    let map = build_struct_slot_map(&layout).unwrap();

    assert_eq!(map.decl_to_llvm, vec![Some(1), Some(0)]);
    assert_eq!(
        struct_fields(map.llvm_struct_ty),
        vec![llvm_int(64), llvm_int(8), pad(7)]
    );
}

#[test]
fn slot_map_zst_interleaving() {
    // struct { a: u32 @ 0, z: PhantomData @ 4, b: u32 @ 4 }, size 8. The ZST
    // is stripped (no slot, no pad split): { i32, i32 }.
    let layout = StructLayoutInfo {
        field_types: vec![mir_uint(32), mir_zst(), mir_uint(32)],
        mem_to_decl: vec![0, 1, 2],
        field_offsets: vec![0, 4, 4],
        total_size: 8,
    };
    let map = build_struct_slot_map(&layout).unwrap();

    assert_eq!(map.decl_to_llvm, vec![Some(0), None, Some(1)]);
    assert_eq!(struct_fields(map.llvm_struct_ty), vec![llvm_int(32), llvm_int(32)]);
}

#[test]
fn slot_map_issue128_arena_shape() {
    //   enum Layout { Aos, Soa, AoSoA(u32) }          // -> { i8, i32 }
    //   struct Arena { layout: Layout, cap: u32, stride: u32, big: u64 }
    //
    // rustc layout: layout @ 0 (8 bytes), big @ 8, cap @ 16, stride @ 20,
    // size 24. The enum's lowered form { i8, i32 } only covers 5 of its 8
    // bytes, so a [3 x i8] pad takes slot 1:
    //
    //   { { i8, i32 }, [3 x i8], i64, i32, i32 }
    //     layout=0     pad=1     big=2 cap=3 stride=4
    let layout_enum = MirType::enum_of(
        "Layout".to_string(),
        mir_uint(8),
        vec![
            EnumVariant { name: "Aos".to_string(), field_types: vec![] },
            EnumVariant { name: "Soa".to_string(), field_types: vec![] },
            EnumVariant { name: "AoSoA".to_string(), field_types: vec![mir_uint(32)] },
        ],
    );

    let layout = StructLayoutInfo {
        field_types: vec![layout_enum, mir_uint(32), mir_uint(32), mir_uint(64)],
        mem_to_decl: vec![0, 3, 1, 2],
        field_offsets: vec![0, 16, 20, 8],
        total_size: 24,
    };
    let map = build_struct_slot_map(&layout).unwrap();

    assert_eq!(
        map.decl_to_llvm,
        vec![Some(0), Some(3), Some(4), Some(2)],
        "cap/stride/big must skip the [3 x i8] pad at slot 1"
    );

    let enum_llvm = LlvmType::Struct { fields: vec![llvm_int(8), llvm_int(32)] };
    assert_eq!(
        struct_fields(map.llvm_struct_ty),
        vec![enum_llvm, pad(3), llvm_int(64), llvm_int(32), llvm_int(32)]
    );
}

#[test]
fn slot_map_nested_struct_uses_stored_size() {
    // Inner struct whose stored rustc size (16) exceeds the sum of its
    // converted LLVM field sizes (i8 + i64 = 9, no offsets stored). The outer
    // walk must advance by the stored 16, reaching the next field's offset
    // exactly: NO interior pad before it.
    let inner = MirType::Struct(MirStructType {
        name: "Inner".to_string(),
        field_types: vec![mir_uint(8), mir_uint(64)],
        mem_to_decl: vec![],
        field_offsets: vec![],
        total_size: 16,
    });

    let layout = StructLayoutInfo {
        field_types: vec![inner, mir_uint(8)],
        mem_to_decl: vec![0, 1],
        field_offsets: vec![0, 16],
        total_size: 24,
    };
    let map = build_struct_slot_map(&layout).unwrap();

    // inner = slot 0, c = slot 1 (adjacent), trailing [7 x i8] pad.
    assert_eq!(map.decl_to_llvm, vec![Some(0), Some(1)]);
    let fields = struct_fields(map.llvm_struct_ty);
    assert_eq!(fields.len(), 3, "exactly one (trailing) pad slot");
    assert_eq!(fields[2], pad(7));
}

#[test]
fn slot_map_rejects_malformed_memory_order() {
    // Not a permutation: decl index 0 appears twice.
    let dup = StructLayoutInfo {
        field_types: vec![mir_uint(8), mir_uint(64)],
        mem_to_decl: vec![0, 0],
        field_offsets: vec![],
        total_size: 0,
    };
    assert!(build_struct_slot_map(&dup).is_err());

    // Wrong length.
    let short = StructLayoutInfo {
        field_types: vec![mir_uint(8), mir_uint(64)],
        mem_to_decl: vec![0],
        field_offsets: vec![],
        total_size: 0,
    };
    assert!(build_struct_slot_map(&short).is_err());

    // Offsets vector length mismatch (with explicit layout engaged).
    let bad_offsets = StructLayoutInfo {
        field_types: vec![mir_uint(8), mir_uint(64)],
        mem_to_decl: vec![0, 1],
        field_offsets: vec![0],
        total_size: 16,
    };
    assert!(build_struct_slot_map(&bad_offsets).is_err());
}

#[test]
fn slot_map_errors_say_what_is_wrong() {
    let dup = StructLayoutInfo {
        field_types: vec![mir_uint(8), mir_uint(64)],
        mem_to_decl: vec![0, 0],
        field_offsets: vec![],
        total_size: 0,
    };
    assert_eq!(
        build_struct_slot_map(&dup).err().unwrap().message(),
        "struct slot map: memory order [0, 0] is not a permutation of 0..2"
    );

    let short = StructLayoutInfo {
        field_types: vec![mir_uint(8), mir_uint(64)],
        mem_to_decl: vec![0],
        field_offsets: vec![],
        total_size: 0,
    };
    assert_eq!(
        build_struct_slot_map(&short).err(),
        Some(ConvertError::MemoryOrderLength { entries: 1, fields: 2 })
    );

    let bad_offsets = StructLayoutInfo {
        field_types: vec![mir_uint(8), mir_uint(64)],
        mem_to_decl: vec![0, 1],
        field_offsets: vec![0],
        total_size: 16,
    };
    assert_eq!(
        build_struct_slot_map(&bad_offsets).err().unwrap().message(),
        "struct slot map: 1 field offsets for 2 fields"
    );

    let unknown = StructLayoutInfo {
        field_types: vec![MirType::Other { display: "mir.never".to_string() }],
        mem_to_decl: vec![0],
        field_offsets: vec![],
        total_size: 0,
    };
    assert_eq!(
        build_struct_slot_map(&unknown).err(),
        Some(ConvertError::Unsupported { display: "mir.never".to_string() })
    );
}
