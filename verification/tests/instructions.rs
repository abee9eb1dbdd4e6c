use m6502::addressing_modes::OperandData;
use m6502::bus::{Bus, Ram};
use m6502::instructions::Instruction;
use m6502::{CPUError, CPU};

fn fresh() -> CPU<Ram> {
    CPU::new(Ram::new())
}

#[test]
fn compare_sets_carry_when_register_is_not_smaller() {
    let mut cpu = fresh();
    cpu.x = 0x40;
    assert_eq!(cpu.perform(Instruction::CPX, OperandData::Literal(0x30)), Ok(()));
    assert!(cpu.status.carry());
    assert!(!cpu.status.zero());
    assert!(!cpu.status.negative());
    cpu.y = 0x10;
    assert_eq!(cpu.perform(Instruction::CPY, OperandData::Literal(0x20)), Ok(()));
    assert!(!cpu.status.carry());
    assert!(!cpu.status.zero());
    assert!(cpu.status.negative());
    cpu.ac = 0x77;
    assert_eq!(cpu.perform(Instruction::CMP, OperandData::Literal(0x77)), Ok(()));
    assert!(cpu.status.carry());
    assert!(cpu.status.zero());
    assert!(!cpu.status.negative());
}

#[test]
fn shift_right_leaves_overflow_alone() {
    let mut cpu = fresh();
    cpu.ac = 0x03;
    assert_eq!(cpu.perform(Instruction::LSR, OperandData::Implied), Ok(()));
    assert_eq!(cpu.ac, 0x01);
    assert!(cpu.status.carry());
    assert!(!cpu.status.overflow());
    assert!(!cpu.status.negative());
    cpu.status.set_overflow(true);
    assert_eq!(cpu.perform(Instruction::LSR, OperandData::Implied), Ok(()));
    assert_eq!(cpu.ac, 0x00);
    assert!(cpu.status.carry());
    assert!(cpu.status.zero());
    assert!(cpu.status.overflow());
}

#[test]
fn shift_left_moves_bit_seven_into_carry() {
    let mut cpu = fresh();
    cpu.ac = 0xC1;
    assert_eq!(cpu.perform(Instruction::ASL, OperandData::Implied), Ok(()));
    assert_eq!(cpu.ac, 0x82);
    assert!(cpu.status.carry());
    assert!(cpu.status.negative());
}

#[test]
fn rotates_go_through_the_carry() {
    let mut cpu = fresh();
    cpu.ac = 0x80;
    assert_eq!(cpu.perform(Instruction::ROL, OperandData::Implied), Ok(()));
    assert_eq!(cpu.ac, 0x00);
    assert!(cpu.status.carry());
    assert!(cpu.status.zero());
    assert_eq!(cpu.perform(Instruction::ROL, OperandData::Implied), Ok(()));
    assert_eq!(cpu.ac, 0x01);
    assert!(!cpu.status.carry());
    assert_eq!(cpu.perform(Instruction::ROR, OperandData::Implied), Ok(()));
    assert_eq!(cpu.ac, 0x00);
    assert!(cpu.status.carry());
    assert_eq!(cpu.perform(Instruction::ROR, OperandData::Implied), Ok(()));
    assert_eq!(cpu.ac, 0x80);
    assert!(!cpu.status.carry());
    assert!(cpu.status.negative());
}

#[test]
fn rotate_in_memory_writes_the_cell() {
    let mut cpu = fresh();
    cpu.bus.write(0x0200, 0x41);
    cpu.status.set_carry(true);
    assert_eq!(cpu.perform(Instruction::ROR, OperandData::Address(0x0200)), Ok(()));
    assert_eq!(cpu.bus.read(0x0200), 0xA0);
    assert!(cpu.status.carry());
    assert_eq!(cpu.ac, 0);
}

#[test]
fn transfer_to_stack_pointer_leaves_flags_alone() {
    let mut cpu = fresh();
    cpu.x = 0x00;
    cpu.stack_pointer = 0x55;
    assert_eq!(cpu.perform(Instruction::TXS, OperandData::Implied), Ok(()));
    assert_eq!(cpu.stack_pointer, 0x00);
    assert_eq!(cpu.status.byte, 0x20);
    cpu.x = 0x90;
    assert_eq!(cpu.perform(Instruction::TXS, OperandData::Implied), Ok(()));
    assert_eq!(cpu.stack_pointer, 0x90);
    assert_eq!(cpu.status.byte, 0x20);
}

#[test]
fn transfers_update_zero_and_negative() {
    let mut cpu = fresh();
    cpu.ac = 0x85;
    assert_eq!(cpu.perform(Instruction::TAX, OperandData::Implied), Ok(()));
    assert_eq!(cpu.x, 0x85);
    assert!(cpu.status.negative());
    cpu.stack_pointer = 0;
    assert_eq!(cpu.perform(Instruction::TSX, OperandData::Implied), Ok(()));
    assert_eq!(cpu.x, 0);
    assert!(cpu.status.zero());
    assert!(!cpu.status.negative());
}

#[test]
fn pull_accumulator_updates_flags() {
    let mut cpu = fresh();
    cpu.push_byte(0x00);
    cpu.ac = 0x12;
    assert_eq!(cpu.perform(Instruction::PLA, OperandData::Implied), Ok(()));
    assert_eq!(cpu.ac, 0x00);
    assert!(cpu.status.zero());
    cpu.push_byte(0xF0);
    assert_eq!(cpu.perform(Instruction::PLA, OperandData::Implied), Ok(()));
    assert_eq!(cpu.ac, 0xF0);
    assert!(cpu.status.negative());
    assert!(!cpu.status.zero());
}

#[test]
fn bit_test_copies_bits_seven_and_six() {
    let mut cpu = fresh();
    cpu.ac = 0x0F;
    cpu.status.byte = 0xE0;
    assert_eq!(cpu.perform(Instruction::BIT, OperandData::Literal(0x30)), Ok(()));
    assert!(cpu.status.zero());
    assert!(!cpu.status.negative());
    assert!(!cpu.status.overflow());
    assert_eq!(cpu.perform(Instruction::BIT, OperandData::Literal(0xC1)), Ok(()));
    assert!(!cpu.status.zero());
    assert!(cpu.status.negative());
    assert!(cpu.status.overflow());
    assert_eq!(cpu.ac, 0x0F);
}

#[test]
fn logic_works_on_the_accumulator() {
    let mut cpu = fresh();
    cpu.ac = 0b1100_1010;
    assert_eq!(cpu.perform(Instruction::AND, OperandData::Literal(0b1010_0110)), Ok(()));
    assert_eq!(cpu.ac, 0b1000_0010);
    assert_eq!(cpu.perform(Instruction::ORA, OperandData::Literal(0b0000_0101)), Ok(()));
    assert_eq!(cpu.ac, 0b1000_0111);
    assert_eq!(cpu.perform(Instruction::EOR, OperandData::Literal(0b1000_0111)), Ok(()));
    assert_eq!(cpu.ac, 0);
    assert!(cpu.status.zero());
}

#[test]
fn add_sets_carry_and_zero_on_wraparound() {
    let mut cpu = fresh();
    cpu.ac = 0xFF;
    assert_eq!(cpu.perform(Instruction::ADC, OperandData::Literal(0x01)), Ok(()));
    assert_eq!(cpu.ac, 0x00);
    assert!(cpu.status.carry());
    assert!(cpu.status.zero());
    assert!(!cpu.status.overflow());
}

#[test]
fn subtract_with_borrow_clears_carry() {
    let mut cpu = fresh();
    cpu.ac = 0x10;
    cpu.status.set_carry(false);
    assert_eq!(cpu.perform(Instruction::SBC, OperandData::Literal(0x10)), Ok(()));
    assert_eq!(cpu.ac, 0xFF);
    assert!(!cpu.status.carry());
    assert!(cpu.status.negative());
    assert!(!cpu.status.overflow());
    cpu.ac = 0x80;
    cpu.status.set_carry(true);
    assert_eq!(cpu.perform(Instruction::SBC, OperandData::Literal(0x01)), Ok(()));
    assert_eq!(cpu.ac, 0x7F);
    assert!(cpu.status.carry());
    assert!(cpu.status.overflow());
}

#[test]
fn register_steps_wrap() {
    let mut cpu = fresh();
    assert_eq!(cpu.perform(Instruction::DEX, OperandData::Implied), Ok(()));
    assert_eq!(cpu.x, 0xFF);
    assert!(cpu.status.negative());
    assert_eq!(cpu.perform(Instruction::INX, OperandData::Implied), Ok(()));
    assert_eq!(cpu.x, 0x00);
    assert!(cpu.status.zero());
    assert_eq!(cpu.perform(Instruction::DEY, OperandData::Implied), Ok(()));
    assert_eq!(cpu.y, 0xFF);
    assert_eq!(cpu.perform(Instruction::INY, OperandData::Implied), Ok(()));
    assert_eq!(cpu.y, 0x00);
}

#[test]
fn flag_instructions_touch_one_flag() {
    let mut cpu = fresh();
    assert_eq!(cpu.perform(Instruction::SEC, OperandData::Implied), Ok(()));
    assert_eq!(cpu.status.byte, 0x21);
    assert_eq!(cpu.perform(Instruction::SED, OperandData::Implied), Ok(()));
    assert_eq!(cpu.status.byte, 0x29);
    assert_eq!(cpu.perform(Instruction::SEI, OperandData::Implied), Ok(()));
    assert_eq!(cpu.status.byte, 0x2D);
    assert_eq!(cpu.perform(Instruction::CLC, OperandData::Implied), Ok(()));
    assert_eq!(cpu.status.byte, 0x2C);
    assert_eq!(cpu.perform(Instruction::CLD, OperandData::Implied), Ok(()));
    assert_eq!(cpu.status.byte, 0x24);
    assert_eq!(cpu.perform(Instruction::CLI, OperandData::Implied), Ok(()));
    assert_eq!(cpu.status.byte, 0x20);
    cpu.status.set_overflow(true);
    assert_eq!(cpu.status.byte, 0x60);
    assert_eq!(cpu.perform(Instruction::CLV, OperandData::Implied), Ok(()));
    assert_eq!(cpu.status.byte, 0x20);
}

#[test]
fn clear_overflow_is_decoded() {
    let mut ram = Ram::new();
    ram.load(&[0xB8], 0x0600);
    let mut cpu = CPU::new(ram);
    cpu.pc = 0x0600;
    cpu.status.byte = 0xE0;
    assert_eq!(cpu.execute(), Ok(()));
    assert_eq!(cpu.status.byte, 0xA0);
    assert_eq!(cpu.pc, 0x0601);
}

#[test]
fn pull_status_then_push_status_writes_the_same_byte() {
    let mut cpu = fresh();
    cpu.stack_pointer = 0x10;
    cpu.bus.write(0x010F, 0xDB);
    assert_eq!(cpu.perform(Instruction::PLP, OperandData::Implied), Ok(()));
    assert_eq!(cpu.status.byte, 0xDB);
    cpu.bus.write(0x010F, 0x00);
    assert_eq!(cpu.perform(Instruction::PHP, OperandData::Implied), Ok(()));
    assert_eq!(cpu.bus.read(0x010F), 0xDB);
    assert_eq!(cpu.stack_pointer, 0x10);
}

#[test]
fn return_from_interrupt_keeps_break_and_unused() {
    let mut cpu = fresh();
    cpu.push_word(0x1234);
    cpu.push_byte(0xFF);
    cpu.status.byte = 0x20;
    assert_eq!(cpu.perform(Instruction::RTI, OperandData::Implied), Ok(()));
    assert_eq!(cpu.status.byte, 0xEF);
    assert_eq!(cpu.pc, 0x1234);
    assert_eq!(cpu.stack_pointer, 0);
}

#[test]
fn break_is_unimplemented() {
    let mut cpu = fresh();
    cpu.pc = 0x0600;
    assert_eq!(
        cpu.execute(),
        Err(CPUError::UnimplementedInstruction(Instruction::BRK))
    );
    assert_eq!(cpu.pc, 0x0601);
    assert_eq!(cpu.cycles_left, 0);
}

#[test]
fn undefined_opcode_is_reported() {
    let mut cpu = fresh();
    cpu.pc = 0x0600;
    cpu.bus.write(0x0600, 0x02);
    assert_eq!(cpu.execute(), Err(CPUError::UnknownOpcode(0x02)));
    assert_eq!(cpu.pc, 0x0601);
}

#[test]
fn store_needs_an_address() {
    let mut cpu = fresh();
    let operand = OperandData::Literal(0x10);
    assert_eq!(
        cpu.perform(Instruction::STA, operand),
        Err(CPUError::OperandNotAddress(operand))
    );
    assert_eq!(
        cpu.perform(Instruction::JMP, OperandData::Implied),
        Err(CPUError::OperandNotAddress(OperandData::Implied))
    );
}

#[test]
fn literal_cannot_be_written() {
    let mut cpu = fresh();
    let operand = OperandData::Literal(0x10);
    assert_eq!(
        cpu.perform(Instruction::INC, operand),
        Err(CPUError::OperandNotWriteable(operand))
    );
    assert_eq!(cpu.status.byte, 0x20);
    assert_eq!(
        operand.write(&mut cpu, 1),
        Err(CPUError::OperandNotWriteable(operand))
    );
}

#[test]
fn operand_handle_reads_and_writes() {
    let mut cpu = fresh();
    cpu.ac = 0x21;
    cpu.bus.write(0x4000, 0x9C);
    assert_eq!(OperandData::Implied.value(&cpu), Ok(0x21));
    assert_eq!(OperandData::Literal(0x05).value(&cpu), Ok(0x05));
    assert_eq!(OperandData::Address(0x4000).value(&cpu), Ok(0x9C));
    assert_eq!(OperandData::Implied.write(&mut cpu, 0x66), Ok(()));
    assert_eq!(cpu.ac, 0x66);
    assert_eq!(OperandData::Address(0x4000).write(&mut cpu, 0x67), Ok(()));
    assert_eq!(cpu.bus.read(0x4000), 0x67);
    assert_eq!(OperandData::Address(0x4000).address(), Ok(0x4000));
    assert_eq!(
        OperandData::Implied.address(),
        Err(CPUError::OperandNotAddress(OperandData::Implied))
    );
}

#[test]
fn description_names_the_mnemonic() {
    assert_eq!(Instruction::ADC.description(), "Add with carry");
    assert_eq!(Instruction::TYA.description(), "Transfer y to accumulator");
    assert_eq!(Instruction::BRK.description(), "Break / interrupt");
}
