use cuda_oxide::ir::mir::{MirType, Signedness};
use cuda_oxide::lowering::intrinsics::debug::convert_pm_event;
use cuda_oxide::lowering::intrinsics::rewrite::LoweredOp;
use cuda_oxide::nvvm::debug::{
    BreakpointOp, Operation, PmEventOp, ReadPtxSregClock64Op, ReadPtxSregClockOp,
    ReadPtxSregGlobaltimerOp, TrapOp, VerifyError, VprintfOp,
};

fn operation(operands: Vec<usize>, result_types: Vec<MirType>) -> Operation {
    let empty = PmEventOp::new_with_event_id(0);
    Operation { operands, result_types, attributes: empty.attributes }
}

fn uint(width: u32) -> MirType {
    MirType::Integer { width, signedness: Signedness::Unsigned }
}

#[test]
fn reads_have_one_integer_result() {
    let good = ReadPtxSregClockOp::new(operation(vec![], vec![uint(32)]));
    assert_eq!(good.verify_interfaces(), Ok(()));
    assert_eq!(good.verify(), Ok(()));
    let good = ReadPtxSregClock64Op::new(operation(vec![], vec![uint(64)]));
    assert_eq!(good.verify_interfaces(), Ok(()));
    assert_eq!(good.verify(), Ok(()));

    let narrow = ReadPtxSregGlobaltimerOp::new(operation(vec![], vec![uint(32)]));
    assert_eq!(narrow.verify_interfaces(), Ok(()));
    let error = narrow.verify().err().unwrap();
    assert_eq!(error.message(), "nvvm.read_ptx_sreg_globaltimer result must be 64-bit integer");

    let float = ReadPtxSregClockOp::new(operation(vec![], vec![MirType::Fp32]));
    let error = float.verify().err().unwrap();
    assert_eq!(error.message(), "nvvm.read_ptx_sreg_clock result must be integer");
}

#[test]
fn operand_and_result_counts_are_checked() {
    let none = ReadPtxSregClockOp::new(operation(vec![], vec![]));
    assert_eq!(
        none.verify_interfaces(),
        Err(VerifyError::ResultCount { expected: 1, found: 0 })
    );
    let fed = TrapOp::new(operation(vec![3], vec![]));
    assert_eq!(
        fed.verify_interfaces(),
        Err(VerifyError::OperandCount { expected: 0, found: 1 })
    );
    assert_eq!(TrapOp::new(operation(vec![], vec![])).verify_interfaces(), Ok(()));
    assert_eq!(BreakpointOp::new(operation(vec![], vec![])).verify_interfaces(), Ok(()));
    assert_eq!(
        BreakpointOp::new(operation(vec![], vec![uint(32)])).verify_interfaces(),
        Err(VerifyError::ResultCount { expected: 0, found: 1 })
    );
}

#[test]
fn event_numbers_read_back() {
    for id in [0, 1, 15, u32::MAX] {
        let event = PmEventOp::new(PmEventOp::new_with_event_id(id));
        assert_eq!(event.verify_interfaces(), Ok(()));
        assert_eq!(event.get_event_id(), Some(id));
    }
}

#[test]
fn event_number_stands_in_the_instruction() {
    let event = PmEventOp::new(PmEventOp::new_with_event_id(12));
    let lowering = convert_pm_event(&event);
    match &lowering.ops[0] {
        LoweredOp::InlineAsm { template, .. } => assert_eq!(template, "pmevent 12;"),
        _ => panic!("an event is inline PTX"),
    }
}

#[test]
fn printf_is_built_as_it_is_verified() {
    let built = VprintfOp::new(VprintfOp::build(4, 9));
    assert_eq!(built.op.operands, vec![4, 9]);
    assert_eq!(
        built.op.result_types,
        vec![MirType::Integer { width: 32, signedness: Signedness::Signed }]
    );
    assert_eq!(built.verify_interfaces(), Ok(()));
    assert_eq!(built.verify(), Ok(()));

    let short = VprintfOp::new(operation(vec![4], vec![uint(32)]));
    assert_eq!(
        short.verify_interfaces(),
        Err(VerifyError::OperandCount { expected: 2, found: 1 })
    );
}
