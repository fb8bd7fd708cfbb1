use cuda_oxide::importer::body::{
    BasicBlock, Body, ConstOperand, ConstantKind, GlobalAlloc, Operand, Place, RustTy, Rvalue,
    Statement, Terminator,
};
use cuda_oxide::importer::slot_spaces::{
    classify_call, classify_constant, classify_rvalue, is_constant_wrapper_type, resolve,
    SlotAddrSpace, SlotAddrSpaceMap, WriteClass,
};
use cuda_oxide::importer::values::{
    align_pointer_addr_space, pointer_addr_space, MirBuilder, MirOp, ValueMap,
};
use cuda_oxide::ir::mir::{MirType, Signedness};

fn adt(krate: &str, name: &str) -> RustTy {
    RustTy::Adt { krate: krate.to_string(), trimmed_name: name.to_string() }
}

fn local(n: usize) -> Place {
    Place { local: n, is_projected: false }
}

fn static_ptr(ty: RustTy) -> ConstOperand {
    ConstOperand {
        ty: RustTy::Ref(Box::new(RustTy::Other)),
        kind: ConstantKind::Allocated {
            is_null: Some(false),
            first_provenance: Some(GlobalAlloc::Static(ty)),
        },
    }
}

fn shared_ptr() -> ConstOperand {
    ConstOperand {
        ty: RustTy::RawPtr(Box::new(adt("cuda_device", "SharedArray"))),
        kind: ConstantKind::Other,
    }
}

fn function(name: &str, substs: &str) -> Operand {
    Operand::Constant(ConstOperand {
        ty: RustTy::FnDef { name: name.to_string(), substs: substs.to_string() },
        kind: ConstantKind::ZeroSized,
    })
}

#[test]
fn observations_join() {
    let known = SlotAddrSpace::Known;
    assert_eq!(SlotAddrSpace::Uninit.merge(known(3)), known(3));
    assert_eq!(known(3).merge(SlotAddrSpace::Uninit), known(3));
    assert_eq!(known(3).merge(known(3)), known(3));
    assert_eq!(known(3).merge(known(1)), SlotAddrSpace::Generic);
    assert_eq!(SlotAddrSpace::Generic.merge(known(3)), SlotAddrSpace::Generic);
    assert_eq!(known(3).merge(SlotAddrSpace::Generic), SlotAddrSpace::Generic);
}

#[test]
fn constants_point_into_their_space() {
    assert_eq!(classify_constant(&shared_ptr()), WriteClass::Classified(3));
    let barrier = ConstOperand {
        ty: RustTy::Ref(Box::new(adt("other", "Barrier"))),
        kind: ConstantKind::Other,
    };
    assert_eq!(classify_constant(&barrier), WriteClass::Classified(3));
    assert_eq!(classify_constant(&static_ptr(RustTy::Other)), WriteClass::Classified(1));
    assert_eq!(
        classify_constant(&static_ptr(adt("cuda_device", "ConstantMemory"))),
        WriteClass::Classified(4)
    );
    assert!(is_constant_wrapper_type(&adt("cuda_device", "ConstantMemory")));
    assert!(!is_constant_wrapper_type(&adt("my_crate", "ConstantMemory")));
    assert!(!is_constant_wrapper_type(&RustTy::Other));

    let null = ConstOperand {
        ty: RustTy::RawPtr(Box::new(RustTy::Other)),
        kind: ConstantKind::Allocated {
            is_null: Some(true),
            first_provenance: Some(GlobalAlloc::Static(RustTy::Other)),
        },
    };
    assert_eq!(classify_constant(&null), WriteClass::Unclassified);
    let number = ConstOperand { ty: RustTy::Other, kind: ConstantKind::Other };
    assert_eq!(classify_constant(&number), WriteClass::Unclassified);
    let plain = ConstOperand {
        ty: RustTy::RawPtr(Box::new(RustTy::Other)),
        kind: ConstantKind::Allocated { is_null: None, first_provenance: Some(GlobalAlloc::Other) },
    };
    assert_eq!(classify_constant(&plain), WriteClass::Unclassified);
}

#[test]
fn calls_return_into_their_space() {
    let shared = WriteClass::Classified(3);
    assert_eq!(classify_call(&function("core::ops::Index::index", "[SharedArray<f32>]")), shared);
    assert_eq!(
        classify_call(&function("std::ops::IndexMut::index_mut", "[SharedArray<f32>]")),
        shared
    );
    assert_eq!(
        classify_call(&function("core::ops::Index::index", "[Vec<f32>]")),
        WriteClass::Unclassified
    );
    assert_eq!(classify_call(&function("cuda_device::DynamicSharedArray::<T>::get", "")), shared);
    assert_eq!(
        classify_call(&function("cuda_device::DynamicSharedArray::<T>::offset", "")),
        shared
    );
    assert_eq!(
        classify_call(&function("cuda_device::SharedArray::<T>::as_mut_ptr", "")),
        WriteClass::Classified(0)
    );
    assert_eq!(classify_call(&function("my::function", "")), WriteClass::Unclassified);
    assert_eq!(classify_call(&Operand::Copy(local(1))), WriteClass::Unclassified);
}

#[test]
fn copies_carry_their_source() {
    let classes =
        vec![SlotAddrSpace::Uninit, SlotAddrSpace::Known(3), SlotAddrSpace::Generic];
    let copy = |n| Rvalue::Use(Operand::Copy(local(n)));
    assert_eq!(classify_rvalue(&copy(0), &classes), WriteClass::Pending);
    assert_eq!(classify_rvalue(&copy(1), &classes), WriteClass::Classified(3));
    assert_eq!(classify_rvalue(&copy(2), &classes), WriteClass::Unclassified);
    assert_eq!(
        classify_rvalue(&Rvalue::CopyForDeref(local(1)), &classes),
        WriteClass::Classified(3)
    );
    assert_eq!(
        classify_rvalue(&Rvalue::Use(Operand::Move(local(1))), &classes),
        WriteClass::Classified(3)
    );
    let projected = Rvalue::Use(Operand::Copy(Place { local: 1, is_projected: true }));
    assert_eq!(classify_rvalue(&projected, &classes), WriteClass::Unclassified);
    assert_eq!(
        classify_rvalue(&Rvalue::Use(Operand::Constant(shared_ptr())), &classes),
        WriteClass::Classified(3)
    );
    assert_eq!(classify_rvalue(&Rvalue::Other, &classes), WriteClass::Unclassified);
}

#[test]
fn only_classified_writes_are_observed() {
    assert_eq!(resolve(WriteClass::Classified(3)), Some(SlotAddrSpace::Known(3)));
    assert_eq!(resolve(WriteClass::Unclassified), None);
    assert_eq!(resolve(WriteClass::Pending), None);
}

fn assign(dest: usize, rvalue: Rvalue) -> Statement {
    Statement::Assign(local(dest), rvalue)
}

#[test]
fn analysis_follows_copies_backwards() {
    // _2 = _1 stands before _1 = &SHARED; _3 gets both spaces; _4 nothing.
    let body = Body {
        num_locals: 6,
        blocks: vec![
            BasicBlock {
                statements: vec![
                    assign(2, Rvalue::Use(Operand::Copy(local(1)))),
                    assign(1, Rvalue::Use(Operand::Constant(shared_ptr()))),
                    assign(3, Rvalue::Use(Operand::Constant(shared_ptr()))),
                    Statement::Other,
                ],
                terminator: Terminator::Call {
                    func: function("cuda_device::DynamicSharedArray::<T>::get", ""),
                    destination: local(5),
                },
            },
            BasicBlock {
                statements: vec![
                    assign(3, Rvalue::Use(Operand::Constant(static_ptr(RustTy::Other)))),
                    assign(4, Rvalue::Other),
                ],
                terminator: Terminator::Other,
            },
        ],
    };
    let map = SlotAddrSpaceMap::analyze(&body);
    assert_eq!(map.effective(1, 0), 3);
    assert_eq!(map.effective(2, 0), 3);
    assert_eq!(map.effective(3, 3), 0);
    assert_eq!(map.effective(5, 0), 3);
    // A local without a classified write keeps what Rust declared.
    assert_eq!(map.effective(4, 3), 3);
    assert_eq!(map.effective(0, 1), 1);
    assert_eq!(map.effective(99, 4), 4);
}

fn u8_ty() -> MirType {
    MirType::Integer { width: 8, signedness: Signedness::Unsigned }
}

fn pointer(address_space: u32) -> MirType {
    MirType::Ptr { pointee: Box::new(u8_ty()), is_mutable: true, address_space }
}

#[test]
fn slots_are_loaded_and_stored() {
    let mut builder = MirBuilder { value_types: vec![], ops: vec![] };
    let mut block = vec![];
    let mut map = ValueMap::new(2);
    assert_eq!(map.get_slot(0), None);

    let (alloca, slot) = ValueMap::emit_alloca(&mut builder, &u8_ty(), &mut block, None);
    assert_eq!((alloca, slot), (0, 0));
    assert_eq!(builder.value_types[0], pointer(0));
    map.set_slot(1, slot);
    map.set_slot(7, slot);
    assert_eq!((map.get_slot(1), map.get_slot(7)), (Some(0), None));

    let (load, value) = map.load_local(&mut builder, 1, &mut block, Some(alloca)).unwrap();
    assert_eq!(builder.value_types[value], u8_ty());
    let store = map.store_local(&mut builder, 1, value, &mut block, Some(alloca)).unwrap();
    assert_eq!(block, vec![alloca, store, load]);
    assert_eq!(
        builder.ops,
        vec![
            MirOp::Alloca { res: 0 },
            MirOp::Load { ptr: 0, res: 1 },
            MirOp::Store { ptr: 0, value: 1 },
        ]
    );
    assert_eq!(map.load_local(&mut builder, 0, &mut block, None), None);
    assert_eq!(map.store_local(&mut builder, 0, value, &mut block, None), None);
    assert_eq!(builder.ops.len(), 3);
}

#[test]
fn pointers_are_cast_before_they_are_stored() {
    let mut builder = MirBuilder { value_types: vec![pointer(3)], ops: vec![] };
    let mut block = vec![];
    let mut map = ValueMap::new(1);
    let (alloca, slot) = ValueMap::emit_alloca(&mut builder, &pointer(0), &mut block, None);
    map.set_slot(0, slot);
    let store = map.store_local(&mut builder, 0, 0, &mut block, Some(alloca)).unwrap();
    assert_eq!(
        builder.ops[1..],
        [
            MirOp::CastPtrToPtr { value: 0, res: 2 },
            MirOp::Store { ptr: slot, value: 2 },
        ]
    );
    assert_eq!(builder.value_types[2], pointer(0));
    assert_eq!(block, vec![alloca, 1, store]);
}

#[test]
fn pointer_types_move_between_spaces() {
    assert_eq!(align_pointer_addr_space(&pointer(0), 3), pointer(3));
    assert_eq!(align_pointer_addr_space(&u8_ty(), 3), u8_ty());
    assert_eq!(pointer_addr_space(&pointer(4)), Some(4));
    assert_eq!(pointer_addr_space(&u8_ty()), None);
}
