use cuda_oxide::export::function::{addrspace_of_type, Block, GepIndex, LlvmFunction, LlvmOp};
use cuda_oxide::export::pointer_facts::{
    set_value_type_fact, value_type_facts, AuxData, LegacyType, ScalarType, ValueFacts,
};
use cuda_oxide::export::state::{ModuleExportState, PointerMode};
use cuda_oxide::export::typed::{
    build_block_labels, build_predecessor_map, propagate_op_facts, propagate_phi_facts,
    seed_function_values,
};
use cuda_oxide::ir::llvm::LlvmType;

fn i(width: u32) -> LlvmType {
    LlvmType::Integer { width }
}

fn ptr(addrspace: u32) -> LlvmType {
    LlvmType::Pointer { addrspace }
}

fn scalar(width: u32) -> LegacyType {
    LegacyType::Scalar(ScalarType::Integer { width })
}

fn pair(a: LegacyType, b: LegacyType) -> LegacyType {
    LegacyType::Struct(vec![a, b])
}

fn array(elem: LegacyType, size: u64) -> LegacyType {
    LegacyType::Array { elem: Box::new(elem), size }
}

#[test]
fn types_forget_their_pointees() {
    let ty = LlvmType::Struct {
        fields: vec![ptr(3), LlvmType::Array { elem: Box::new(i(8)), size: 4 }, LlvmType::Float],
    };
    let legacy = LegacyType::from_llvm_type(&ty);
    assert_eq!(
        legacy,
        LegacyType::Struct(vec![
            LegacyType::unknown_pointer(3),
            array(scalar(8), 4),
            LegacyType::Scalar(ScalarType::Float),
        ])
    );
    assert_eq!(legacy.to_llvm_string(), "{ i8 addrspace(3)*, [4 x i8], float }");
}

#[test]
fn legacy_types_are_written_with_their_pointees() {
    assert_eq!(LegacyType::pointer_to_llvm(&i(32), 1).to_llvm_string(), "i32 addrspace(1)*");
    assert_eq!(
        LegacyType::pointer_to(LegacyType::unknown_pointer(0), 0).to_llvm_string(),
        "i8**"
    );
    let scalable = LegacyType::Vector { elem: Box::new(scalar(16)), num_elements: 4, scalable: true };
    assert_eq!(scalable.to_llvm_string(), "<vscale x 4 x i16>");
    let fixed = LegacyType::Vector { elem: Box::new(scalar(16)), num_elements: 4, scalable: false };
    assert_eq!(fixed.to_llvm_string(), "<4 x i16>");
    assert_eq!(LegacyType::Struct(vec![]).to_llvm_string(), "{  }");
    let mut out = String::from("x ");
    LegacyType::Scalar(ScalarType::Other { display: "llvm.func".to_string() }).write_llvm(&mut out);
    assert_eq!(out, "x void /* unknown: llvm.func */");
    assert_eq!(LegacyType::Scalar(ScalarType::Void).to_llvm_string(), "void");
    assert_eq!(LegacyType::Scalar(ScalarType::Half).to_llvm_string(), "half");
    assert_eq!(LegacyType::Scalar(ScalarType::Double).to_llvm_string(), "double");
}

#[test]
fn pointers_show_their_space_and_pointee() {
    let known = LegacyType::pointer_to(scalar(8), 5);
    assert_eq!(known.as_pointer(), Some((5, Some(&scalar(8)))));
    assert_eq!(LegacyType::unknown_pointer(2).as_pointer(), Some((2, None)));
    assert_eq!(scalar(8).as_pointer(), None);
    assert_eq!(known.with_addrspace(1), LegacyType::pointer_to(scalar(8), 1));
    assert_eq!(scalar(8).with_addrspace(1), scalar(8));
    assert_eq!(addrspace_of_type(&ptr(4)), 4);
    assert_eq!(addrspace_of_type(&i(4)), 0);
}

#[test]
fn merging_fills_in_what_is_unknown() {
    let unknown = LegacyType::unknown_pointer(1);
    let known = LegacyType::pointer_to(scalar(32), 1);
    assert_eq!(unknown.merge(&known), known);
    assert_eq!(known.merge(&unknown), known);
    // Aggregates merge part by part.
    let a = pair(unknown.clone(), array(known.clone(), 2));
    let b = pair(known.clone(), array(unknown.clone(), 2));
    assert_eq!(a.merge(&b), pair(known.clone(), array(known.clone(), 2)));
    // Merging is idempotent, and absorbs what it has seen.
    assert_eq!(a.merge(&a), a);
    let merged = a.merge(&b);
    assert_eq!(merged.merge(&b), merged);
}

#[test]
fn conflicts_keep_the_older_fact() {
    let older = LegacyType::pointer_to(scalar(32), 1);
    assert_eq!(older.merge(&LegacyType::pointer_to(scalar(64), 1)), older);
    assert_eq!(older.merge(&LegacyType::pointer_to(scalar(32), 2)), older);
    assert_eq!(older.merge(&scalar(32)), older);
    assert_eq!(array(scalar(8), 2).merge(&array(scalar(8), 3)), array(scalar(8), 2));
    assert_eq!(pair(scalar(8), scalar(8)).merge(&LegacyType::Struct(vec![])), pair(scalar(8), scalar(8)));
}

#[test]
fn parts_are_read_and_replaced() {
    let t = pair(scalar(8), array(LegacyType::unknown_pointer(0), 2));
    assert_eq!(t.indexed(&vec![]), Some(t.clone()));
    assert_eq!(t.indexed(&vec![1, 1]), Some(LegacyType::unknown_pointer(0)));
    assert_eq!(t.indexed(&vec![1, 2]), None);
    assert_eq!(t.indexed(&vec![2]), None);
    assert_eq!(t.indexed(&vec![0, 0]), None);

    let known = LegacyType::pointer_to(scalar(64), 0);
    let replaced = t.with_indexed(&vec![1, 0], known.clone()).unwrap();
    assert_eq!(replaced, pair(scalar(8), array(known.clone(), 2)));
    // What was replaced reads back.
    assert_eq!(replaced.indexed(&vec![1, 0]), Some(known.clone()));
    assert_eq!(t.with_indexed(&vec![], known.clone()), Some(known.clone()));
    assert_eq!(t.with_indexed(&vec![1, 2], known.clone()), None);
    assert_eq!(t.with_indexed(&vec![5], known), None);
}

#[test]
fn element_pointers_step_through_the_pointer_first() {
    let t = pair(scalar(8), array(scalar(16), 4));
    assert_eq!(t.gep_indexed_pointee(1, &vec![Some(3)]), t);
    assert_eq!(t.gep_indexed_pointee(2, &vec![None, Some(1)]), array(scalar(16), 4));
    assert_eq!(t.gep_indexed_pointee(3, &vec![None, Some(1), None]), scalar(16));
    // Without a constant the field is not known, and past the last there is none.
    assert_eq!(t.gep_indexed_pointee(2, &vec![None, None]), t);
    assert_eq!(t.gep_indexed_pointee(2, &vec![None, Some(2)]), t);
    assert_eq!(scalar(8).gep_indexed_pointee(2, &vec![None, Some(0)]), scalar(8));
}

#[test]
fn seeded_facts_are_merged() {
    let mut aux = AuxData::new();
    assert_eq!(value_type_facts(&aux).len(), 0);
    set_value_type_fact(&mut aux, 4, LegacyType::unknown_pointer(1));
    set_value_type_fact(&mut aux, 4, LegacyType::pointer_to(scalar(8), 1));
    set_value_type_fact(&mut aux, 5, scalar(1));
    let facts = value_type_facts(&aux);
    assert_eq!(facts.len(), 2);
    assert_eq!(facts.get(4), Some(&LegacyType::pointer_to(scalar(8), 1)));
    assert_eq!(facts.get(5), Some(&scalar(1)));
    assert_eq!(facts.get(6), None);
}

/// `v0: ptr; v1 = gep v0, 0, 1 of { i8, i32 }; v2 = load v1; store v2, v3`,
/// with a jump that passes `v3` on as `v4`.
fn sample() -> LlvmFunction {
    LlvmFunction {
        value_types: vec![ptr(0), ptr(0), i(32), ptr(1), ptr(1)],
        blocks: vec![
            Block {
                args: vec![0, 3],
                ops: vec![
                    LlvmOp::GetElementPtr {
                        ptr: 0,
                        res: 1,
                        src_elem_ty: LlvmType::Struct { fields: vec![i(8), i(32)] },
                        gep_indices: vec![GepIndex::Constant(0), GepIndex::Constant(1)],
                    },
                    LlvmOp::Load { ptr: 1, res: 2 },
                    LlvmOp::Store { val: 2, ptr: 3 },
                    LlvmOp::Br { dest: 1, args: vec![3] },
                ],
            },
            Block { args: vec![4], ops: vec![] },
        ],
    }
}

#[test]
fn facts_spread_through_operations_and_jumps() {
    let f = sample();
    let preds = build_predecessor_map(&f);
    assert_eq!(preds.len(), 2);
    assert_eq!(preds[0].len(), 0);
    assert_eq!(preds[1].len(), 1);
    assert_eq!((preds[1][0].block, &preds[1][0].args), (0, &vec![3]));

    let mut facts = ValueFacts::new();
    seed_function_values(&f, &mut facts);
    assert_eq!(facts.len(), 5);
    assert_eq!(facts.get(0), Some(&LegacyType::unknown_pointer(0)));

    assert!(!propagate_phi_facts(&f, &preds, &mut facts));
    assert!(propagate_op_facts(&f, &mut facts));
    assert_eq!(
        facts.get(0),
        Some(&LegacyType::pointer_to(pair(scalar(8), scalar(32)), 0))
    );
    assert_eq!(facts.get(1), Some(&LegacyType::pointer_to(scalar(32), 0)));
    assert_eq!(facts.get(3), Some(&LegacyType::pointer_to(scalar(32), 1)));

    assert!(propagate_phi_facts(&f, &preds, &mut facts));
    assert_eq!(facts.get(4), Some(&LegacyType::pointer_to(scalar(32), 1)));

    // Nothing more is to be learnt.
    let count = facts.len();
    assert!(!propagate_phi_facts(&f, &preds, &mut facts));
    assert!(!propagate_op_facts(&f, &mut facts));
    assert_eq!(facts.len(), count);
}

#[test]
fn analysis_runs_only_for_typed_pointers() {
    let f = sample();
    let preds = build_predecessor_map(&f);
    let aux = AuxData::new();
    let typed = ModuleExportState::new(false, false, PointerMode::LegacyTyped);
    let facts = typed.analyze_legacy_type_facts(&aux, &f, &preds);
    assert_eq!(facts.get(4), Some(&LegacyType::pointer_to(scalar(32), 1)));
    let opaque = ModuleExportState::new(false, false, PointerMode::Opaque);
    assert_eq!(opaque.analyze_legacy_type_facts(&aux, &f, &preds).len(), 0);
}

#[test]
fn other_operations_teach_their_facts() {
    // v0 cond, v1/v2 pointers, v3 select, v4 cast to space 3, v5 aggregate,
    // v6 inserted, v7 extracted, v8 alloca, v9 call, v10 from an integer.
    let f = LlvmFunction {
        value_types: vec![
            i(1),
            ptr(0),
            ptr(0),
            ptr(0),
            ptr(3),
            LlvmType::Struct { fields: vec![ptr(0)] },
            LlvmType::Struct { fields: vec![ptr(0)] },
            ptr(0),
            ptr(0),
            ptr(0),
            ptr(2),
        ],
        blocks: vec![Block {
            args: vec![0, 1, 2, 5],
            ops: vec![
                LlvmOp::AtomicStore { val: 0, ptr: 1 },
                LlvmOp::Select { cond: 0, true_val: 1, false_val: 2, res: 3 },
                LlvmOp::AddrSpaceCast { val: 3, res: 4 },
                LlvmOp::InsertValue { agg: 5, val: 1, res: 6, indices: vec![0] },
                LlvmOp::ExtractValue { agg: 6, res: 7, indices: vec![0] },
                LlvmOp::Alloca { res: 8, elem_ty: i(64) },
                LlvmOp::Call { ret_ty: ptr(0), args: vec![], res: 9 },
                LlvmOp::IntToPtr { val: 0, res: 10 },
            ],
        }],
    };
    let mut facts = ValueFacts::new();
    seed_function_values(&f, &mut facts);
    assert!(propagate_op_facts(&f, &mut facts));
    let bit = LegacyType::pointer_to(scalar(1), 0);
    assert_eq!(facts.get(3), Some(&bit));
    assert_eq!(facts.get(4), Some(&LegacyType::pointer_to(scalar(1), 3)));
    assert_eq!(facts.get(6), Some(&LegacyType::Struct(vec![bit.clone()])));
    assert_eq!(facts.get(7), Some(&bit));
    assert_eq!(facts.get(8), Some(&LegacyType::pointer_to(scalar(64), 0)));
    assert_eq!(facts.get(9), Some(&LegacyType::unknown_pointer(0)));
    assert_eq!(facts.get(10), Some(&LegacyType::unknown_pointer(2)));
    // The other arm of the selection learns of it in the next round at the
    // latest.
    propagate_op_facts(&f, &mut facts);
    assert_eq!(facts.get(2), Some(&bit));
}

#[test]
fn conditional_jumps_split_their_arguments() {
    let f = LlvmFunction {
        value_types: vec![i(1), i(8), i(16), i(8), i(16)],
        blocks: vec![
            Block {
                args: vec![0],
                ops: vec![LlvmOp::CondBr {
                    true_dest: 1,
                    false_dest: 2,
                    operands: vec![0, 1, 2],
                }],
            },
            Block { args: vec![3], ops: vec![] },
            Block { args: vec![4], ops: vec![LlvmOp::Br { dest: 1, args: vec![1] }] },
        ],
    };
    let preds = build_predecessor_map(&f);
    let ones: Vec<(usize, Vec<usize>)> =
        preds[1].iter().map(|p| (p.block, p.args.clone())).collect();
    assert_eq!(ones, vec![(0, vec![1]), (2, vec![1])]);
    let twos: Vec<(usize, Vec<usize>)> =
        preds[2].iter().map(|p| (p.block, p.args.clone())).collect();
    assert_eq!(twos, vec![(0, vec![2])]);
    assert_eq!(build_block_labels(&f), vec!["entry", "bb0", "bb1"]);
}

#[test]
fn convergent_intrinsics_are_known_by_their_prefix() {
    for name in [
        "llvm.nvvm.barrier0",
        "llvm.nvvm.barrier.sync",
        "llvm.nvvm.mbarrier.arrive",
        "llvm.nvvm.shfl.sync.i32",
        "llvm.nvvm.vote.ballot",
        "llvm.nvvm.cp.async.bulk.commit.group",
    ] {
        assert!(ModuleExportState::is_convergent_intrinsic(name));
    }
    assert!(!ModuleExportState::is_convergent_intrinsic("llvm.nvvm.read.ptx.sreg.tid.x"));
    assert!(!ModuleExportState::is_convergent_intrinsic("barrier"));
}

#[test]
fn function_references_follow_the_pointer_mode() {
    let mut typed = ModuleExportState::new(false, false, PointerMode::LegacyTyped);
    assert!(typed.uses_legacy_typed_pointers());
    assert_eq!(typed.metadata_function_ref("k"), "void ()* @k");
    assert_eq!(typed.llvm_used_entry_type(), "i8*");
    assert_eq!(typed.llvm_used_entry("k"), "i8* bitcast (void ()* @k to i8*)");
    let decl = typed.legacy_decl_function_ref("k", &LlvmType::Void, &vec![i(32), ptr(1)]);
    assert_eq!(decl, "void (i32, i8 addrspace(1)*)* @k");
    typed.function_refs.insert("k".to_string(), decl);
    assert_eq!(typed.metadata_function_ref("k"), "void (i32, i8 addrspace(1)*)* @k");

    let opaque = ModuleExportState::new(true, true, PointerMode::Opaque);
    assert!(opaque.track_all_kernels && opaque.emit_ptx_kernel_keyword);
    assert_eq!(opaque.metadata_function_ref("k"), "ptr @k");
    assert_eq!(opaque.llvm_used_entry_type(), "ptr");
    assert_eq!(opaque.llvm_used_entry("k"), "ptr @k");
}

fn written(state: &ModuleExportState, ty: &LlvmType) -> String {
    let mut out = String::new();
    assert_eq!(state.export_type_without_value(ty, &mut out), Ok(()));
    out
}

#[test]
fn types_are_written_in_either_syntax() {
    let opaque = ModuleExportState::new(false, false, PointerMode::Opaque);
    let typed = ModuleExportState::new(false, false, PointerMode::LegacyTyped);
    let ty = LlvmType::Struct {
        fields: vec![
            ptr(0),
            ptr(3),
            LlvmType::Array { elem: Box::new(LlvmType::Half), size: 2 },
            LlvmType::Vector { elem: Box::new(LlvmType::Double), num_elements: 2, scalable: false },
        ],
    };
    assert_eq!(written(&opaque, &ty), "{ ptr, ptr addrspace(3), [2 x half], <2 x double> }");
    assert_eq!(written(&typed, &ty), "{ i8*, i8 addrspace(3)*, [2 x half], <2 x double> }");
    let mut out = String::new();
    assert_eq!(typed.export_type(&ty, &mut out), Ok(()));
    assert_eq!(out, "{ ptr, ptr addrspace(3), [2 x half], <2 x double> }");
    assert_eq!(
        written(&opaque, &LlvmType::Other { display: "t".to_string() }),
        "void /* unknown: t */"
    );
}

#[test]
fn values_are_written_with_what_is_known_of_them() {
    let f = sample();
    let preds = build_predecessor_map(&f);
    let mut typed = ModuleExportState::new(false, false, PointerMode::LegacyTyped);
    typed.legacy_type_facts = typed.analyze_legacy_type_facts(&AuxData::new(), &f, &preds);
    let mut out = String::new();
    assert_eq!(typed.export_value_type(&f, 4, &mut out), Ok(()));
    assert_eq!(out, "i32 addrspace(1)*");
    assert_eq!(
        typed.legacy_function_ref(&f, "g", &LlvmType::Void, &vec![0, 2, 3]),
        "void ({ i8, i32 }*, i32, i32 addrspace(1)*)* @g"
    );
    let opaque = ModuleExportState::new(false, false, PointerMode::Opaque);
    let mut out = String::new();
    assert_eq!(opaque.export_value_type(&f, 4, &mut out), Ok(()));
    assert_eq!(out, "ptr addrspace(1)");
}

#[test]
fn alignments_follow_the_type() {
    let state = ModuleExportState::new(false, false, PointerMode::Opaque);
    assert_eq!(state.natural_alignment(&i(1)), 1);
    assert_eq!(state.natural_alignment(&i(8)), 1);
    assert_eq!(state.natural_alignment(&i(9)), 2);
    assert_eq!(state.natural_alignment(&i(12)), 2);
    assert_eq!(state.natural_alignment(&i(16)), 2);
    assert_eq!(state.natural_alignment(&i(17)), 3);
    assert_eq!(state.natural_alignment(&i(64)), 8);
    assert_eq!(state.natural_alignment(&i(u32::MAX)), 536_870_912);
    assert_eq!(state.natural_alignment(&LlvmType::Half), 2);
    assert_eq!(state.natural_alignment(&LlvmType::Float), 4);
    assert_eq!(state.natural_alignment(&LlvmType::Double), 8);
    assert_eq!(state.natural_alignment(&ptr(3)), 8);
    assert_eq!(state.natural_alignment(&LlvmType::Void), 8);
    let array = LlvmType::Array { elem: Box::new(i(16)), size: 100 };
    assert_eq!(state.natural_alignment(&array), 2);
    let vector = |n| LlvmType::Vector { elem: Box::new(i(32)), num_elements: n, scalable: false };
    assert_eq!(state.natural_alignment(&vector(3)), 8);
    assert_eq!(state.natural_alignment(&vector(4)), 16);
    assert_eq!(state.natural_alignment(&vector(u32::MAX)), 128);
    assert_eq!(state.natural_alignment(&LlvmType::Struct { fields: vec![i(8), i(32), i(16)] }), 4);
    assert_eq!(state.natural_alignment(&LlvmType::Struct { fields: vec![] }), 1);
}
