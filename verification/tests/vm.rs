use vyantra::Inst;
use vyantra::Machine;
use vyantra::Path;
use vyantra::Reg;
use vyantra::StepStatus;
use vyantra::VmError;

const FUEL: usize = 10_000;

#[test]
fn it_works() {
    let program = vec![Inst::PSH(5), Inst::PSH(6), Inst::ADD, Inst::POP, Inst::HLT];
    let mut machine = Machine::new(program);
    assert_eq!(machine.run(FUEL), StepStatus::Halted);
}

#[test]
fn new_machine_initial_state() {
    let program = vec![Inst::PSH(1), Inst::HLT];
    let m = Machine::new(program);
    assert_eq!(m.ip(), 0);
    assert_eq!(m.stack_len(), 0);
    assert_eq!(m.program_len(), 2);
    assert_eq!(m.inst_at(0), Inst::PSH(1));
    assert_eq!(m.inst_at(1), Inst::HLT);
    for r in [Reg::A, Reg::B, Reg::C, Reg::D, Reg::E, Reg::F] {
        assert_eq!(m.get_reg_value(&r), Ok(0));
    }
}

#[test]
fn try_new_rejects_empty_program() {
    assert!(matches!(Machine::try_new(vec![]), Err(VmError::MalformedProgram)));
    let m = Machine::try_new(vec![Inst::HLT]).unwrap();
    assert_eq!(m.program_len(), 1);
}

#[test]
fn add_end_to_end() {
    let program = vec![Inst::PSH(5), Inst::PSH(6), Inst::ADD, Inst::POP, Inst::HLT];
    let mut m = Machine::new(program);
    assert_eq!(m.step(), StepStatus::Running);
    assert_eq!(m.step(), StepStatus::Running);
    assert_eq!(m.stack_len(), 2);
    assert_eq!(m.step(), StepStatus::Running);
    assert_eq!(m.stack_len(), 1);
    assert_eq!(m.stack_at(0), 11);
    assert_eq!(m.step(), StepStatus::Running);
    assert_eq!(m.stack_len(), 0);
    assert_eq!(m.step(), StepStatus::Halted);
    assert_eq!(m.ip(), 5);
}

#[test]
fn pop_then_add_uses_remaining_operand() {
    let program = vec![
        Inst::PSH(5),
        Inst::PSH(6),
        Inst::POP,
        Inst::PSH(21),
        Inst::ADD,
        Inst::POP,
        Inst::HLT,
    ];
    let mut m = Machine::new(program);
    for _ in 0..3 {
        assert_eq!(m.step(), StepStatus::Running);
    }
    assert_eq!(m.stack_len(), 1);
    assert_eq!(m.stack_at(0), 5);
    assert_eq!(m.step(), StepStatus::Running);
    assert_eq!(m.step(), StepStatus::Running);
    assert_eq!(m.stack_len(), 1);
    assert_eq!(m.stack_at(0), 26);
    assert_eq!(m.step(), StepStatus::Running);
    assert_eq!(m.step(), StepStatus::Halted);
    assert_eq!(m.stack_len(), 0);
}

#[test]
fn division_through_registers() {
    let program = vec![
        Inst::SET(Reg::A, 12),
        Inst::SET(Reg::B, 144),
        Inst::PSH(0),
        Inst::CPY(Path::STK(0), Path::REG(Reg::B)),
        Inst::PSH(0),
        Inst::CPY(Path::STK(0), Path::REG(Reg::A)),
        Inst::DIV,
        Inst::HLT,
    ];
    let mut m = Machine::new(program);
    assert_eq!(m.run(FUEL), StepStatus::Halted);
    assert_eq!(m.stack_len(), 1);
    assert_eq!(m.stack_at(0), 12);
    assert_eq!(m.get_reg_value(&Reg::A), Ok(12));
    assert_eq!(m.get_reg_value(&Reg::B), Ok(144));
}

#[test]
fn zero_register_divisor_is_divide_by_zero() {
    let program = vec![
        Inst::SET(Reg::B, 144),
        Inst::PSH(0),
        Inst::CPY(Path::STK(0), Path::REG(Reg::B)),
        Inst::PSH(0),
        Inst::CPY(Path::STK(0), Path::REG(Reg::A)),
        Inst::DIV,
        Inst::HLT,
    ];
    let mut m = Machine::new(program);
    assert_eq!(m.run(FUEL), StepStatus::Fault(VmError::DivideByZero));
}

#[test]
fn division_truncates_toward_zero() {
    let cases = [(-7, 2, -3), (7, -2, -3), (-7, -2, 3), (7, 2, 3), (144, 12, 12)];
    for (a, b, q) in cases {
        let program = vec![Inst::PSH(a), Inst::PSH(b), Inst::DIV, Inst::HLT];
        let mut m = Machine::new(program);
        assert_eq!(m.run(FUEL), StepStatus::Halted);
        assert_eq!(m.stack_len(), 1);
        assert_eq!(m.stack_at(0), q);
    }
}

#[test]
fn divide_by_zero_never_completes_a_push() {
    let program = vec![Inst::PSH(5), Inst::PSH(0), Inst::DIV, Inst::HLT];
    let mut m = Machine::new(program);
    assert_eq!(m.run(FUEL), StepStatus::Fault(VmError::DivideByZero));
    assert_eq!(m.stack_len(), 1);
    assert_eq!(m.stack_at(0), 5);
    assert_eq!(m.ip(), 3);
}

#[test]
fn missing_halt_is_illegal_instruction() {
    let program = vec![Inst::PSH(1), Inst::PSH(2), Inst::ADD];
    let mut m = Machine::new(program);
    assert_eq!(m.run(FUEL), StepStatus::Fault(VmError::IllegalInstruction));
    assert_eq!(m.ip(), 3);
}

#[test]
fn push_past_capacity_is_stack_overflow() {
    let mut program = Vec::new();
    for i in 0..1025 {
        program.push(Inst::PSH(i));
    }
    program.push(Inst::HLT);
    let mut m = Machine::new(program);
    assert_eq!(m.run(FUEL), StepStatus::Fault(VmError::StackOverflow));
    assert_eq!(m.stack_len(), 1024);
}

#[test]
fn pop_on_empty_is_stack_underflow() {
    let program = vec![Inst::POP, Inst::HLT];
    let mut m = Machine::new(program);
    assert_eq!(m.run(FUEL), StepStatus::Fault(VmError::StackUnderflow));
}

#[test]
fn missing_operand_is_stack_underflow() {
    let program = vec![Inst::PSH(1), Inst::ADD, Inst::HLT];
    let mut m = Machine::new(program);
    assert_eq!(m.run(FUEL), StepStatus::Fault(VmError::StackUnderflow));
    assert_eq!(m.stack_len(), 0);
}

#[test]
fn jump_round_trip_restores_pointer() {
    let program = vec![Inst::JMP(2), Inst::HLT, Inst::JMP(-2)];
    let mut m = Machine::new(program);
    assert_eq!(m.step(), StepStatus::Running);
    assert_eq!(m.ip(), 2);
    assert_eq!(m.step(), StepStatus::Running);
    assert_eq!(m.ip(), 0);
    let mut fresh = Machine::new(vec![Inst::JMP(2), Inst::HLT, Inst::JMP(-2)]);
    assert_eq!(fresh.run(100), StepStatus::Running);
}

#[test]
fn jump_zero_and_one_proceed() {
    let mut m = Machine::new(vec![Inst::JMP(0), Inst::HLT]);
    assert_eq!(m.step(), StepStatus::Running);
    assert_eq!(m.ip(), 1);
    assert_eq!(m.step(), StepStatus::Halted);

    let mut m1 = Machine::new(vec![Inst::JMP(1), Inst::HLT]);
    assert_eq!(m1.step(), StepStatus::Running);
    assert_eq!(m1.ip(), 1);
    assert_eq!(m1.step(), StepStatus::Halted);
}

#[test]
fn jump_skips_forward() {
    let program = vec![Inst::JMP(2), Inst::PSH(9), Inst::HLT];
    let mut m = Machine::new(program);
    assert_eq!(m.run(FUEL), StepStatus::Halted);
    assert_eq!(m.stack_len(), 0);
}

#[test]
fn jump_outside_program_is_illegal_instruction() {
    let mut fwd = Machine::new(vec![Inst::JMP(5), Inst::HLT]);
    assert_eq!(fwd.run(FUEL), StepStatus::Fault(VmError::IllegalInstruction));

    let mut back = Machine::new(vec![Inst::JMP(-3), Inst::HLT]);
    assert_eq!(back.run(FUEL), StepStatus::Fault(VmError::IllegalInstruction));
}

#[test]
fn copy_register_to_register_preserves_source() {
    let program = vec![Inst::SET(Reg::A, 7), Inst::CPY(Path::REG(Reg::B), Path::REG(Reg::A)), Inst::HLT];
    let mut m = Machine::new(program);
    assert_eq!(m.run(FUEL), StepStatus::Halted);
    assert_eq!(m.get_reg_value(&Reg::A), Ok(7));
    assert_eq!(m.get_reg_value(&Reg::B), Ok(7));
    for r in [Reg::C, Reg::D, Reg::E, Reg::F] {
        assert_eq!(m.get_reg_value(&r), Ok(0));
    }
}

#[test]
fn copy_stack_to_stack_leaves_others_alone() {
    let program = vec![
        Inst::PSH(1),
        Inst::PSH(2),
        Inst::PSH(3),
        Inst::CPY(Path::STK(2), Path::STK(0)),
        Inst::HLT,
    ];
    let mut m = Machine::new(program);
    assert_eq!(m.run(FUEL), StepStatus::Halted);
    assert_eq!(m.stack_len(), 3);
    assert_eq!(m.stack_at(0), 3);
    assert_eq!(m.stack_at(1), 2);
    assert_eq!(m.stack_at(2), 3);
}

#[test]
fn copy_with_bad_offset_is_address_error() {
    let program = vec![Inst::PSH(1), Inst::CPY(Path::STK(5), Path::REG(Reg::A)), Inst::HLT];
    let mut m = Machine::new(program);
    assert_eq!(m.run(FUEL), StepStatus::Fault(VmError::AddressError));

    let negative = vec![Inst::PSH(1), Inst::CPY(Path::REG(Reg::A), Path::STK(-1)), Inst::HLT];
    let mut m2 = Machine::new(negative);
    assert_eq!(m2.run(FUEL), StepStatus::Fault(VmError::AddressError));
}

#[test]
fn copy_on_empty_stack_is_stack_underflow() {
    let program = vec![Inst::CPY(Path::REG(Reg::A), Path::STK(0)), Inst::HLT];
    let mut m = Machine::new(program);
    assert_eq!(m.run(FUEL), StepStatus::Fault(VmError::StackUnderflow));
}

#[test]
fn set_and_get_registers_directly() {
    let mut m = Machine::new(vec![Inst::HLT]);
    assert_eq!(m.set_reg_value(Reg::C, 9), Ok(()));
    assert_eq!(m.get_reg_value(&Reg::C), Ok(9));
    assert_eq!(m.get_reg_value(&Reg::D), Ok(0));
}

#[test]
fn subtraction_and_multiplication_operand_order() {
    let mut sub = Machine::new(vec![Inst::PSH(10), Inst::PSH(4), Inst::SUB, Inst::HLT]);
    assert_eq!(sub.run(FUEL), StepStatus::Halted);
    assert_eq!(sub.stack_at(0), 6);

    let mut mul = Machine::new(vec![Inst::PSH(3), Inst::PSH(4), Inst::MUL, Inst::HLT]);
    assert_eq!(mul.run(FUEL), StepStatus::Halted);
    assert_eq!(mul.stack_at(0), 12);
}

#[test]
fn arithmetic_wraps_around() {
    let mut add = Machine::new(vec![Inst::PSH(i32::MAX), Inst::PSH(1), Inst::ADD, Inst::HLT]);
    assert_eq!(add.run(FUEL), StepStatus::Halted);
    assert_eq!(add.stack_at(0), i32::MIN);

    let mut div = Machine::new(vec![Inst::PSH(i32::MIN), Inst::PSH(-1), Inst::DIV, Inst::HLT]);
    assert_eq!(div.run(FUEL), StepStatus::Halted);
    assert_eq!(div.stack_at(0), i32::MIN);
}

#[test]
fn path_reads_and_writes_directly() {
    let mut m = Machine::new(vec![Inst::PSH(1), Inst::PSH(2), Inst::HLT]);
    assert_eq!(m.step(), StepStatus::Running);
    assert_eq!(m.step(), StepStatus::Running);
    assert_eq!(m.get_from_path(Path::STK(0)), Ok(2));
    assert_eq!(m.get_from_path(Path::STK(1)), Ok(1));
    assert_eq!(m.get_from_path(Path::REG(Reg::A)), Ok(0));
    assert_eq!(m.set_at_path(Path::REG(Reg::B), 5), Ok(()));
    assert_eq!(m.get_reg_value(&Reg::B), Ok(5));
    assert_eq!(m.set_at_path(Path::STK(1), 9), Ok(()));
    assert_eq!(m.stack_at(0), 9);
    assert_eq!(m.stack_at(1), 2);
}

#[test]
fn fetch_advances_the_pointer() {
    let mut m = Machine::new(vec![Inst::PSH(7), Inst::HLT]);
    assert_eq!(m.get_next_inst(), Some(Inst::PSH(7)));
    assert_eq!(m.ip(), 1);
    assert_eq!(m.get_next_inst(), Some(Inst::HLT));
    assert_eq!(m.ip(), 2);
    assert_eq!(m.get_next_inst(), None);
    assert_eq!(m.ip(), 2);
}

#[test]
fn looping_program_stays_running_at_the_ceiling() {
    let program = vec![
        Inst::PSH(5),
        Inst::PSH(6),
        Inst::POP,
        Inst::PSH(21),
        Inst::ADD,
        Inst::POP,
        Inst::SET(Reg::A, 12),
        Inst::SET(Reg::B, 144),
        Inst::PSH(0),
        Inst::CPY(Path::STK(0), Path::REG(Reg::B)),
        Inst::PSH(0),
        Inst::CPY(Path::STK(0), Path::REG(Reg::A)),
        Inst::DIV,
        Inst::POP,
        Inst::JMP(-6),
        Inst::HLT,
    ];
    let mut m = Machine::new(program);
    assert_eq!(m.run(FUEL), StepStatus::Running);
    assert_eq!(m.get_reg_value(&Reg::A), Ok(12));
    assert_eq!(m.get_reg_value(&Reg::B), Ok(144));
}
