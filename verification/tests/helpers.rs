use m6502::addressing_modes::OperandData;
use m6502::bus::{following, make_word, Bus, Ram};
use m6502::status::bit;
use m6502::{CPUError, CPU};

#[test]
fn addresses_follow_each_other_around_the_space() {
    assert_eq!(following(0x0000), 0x0001);
    assert_eq!(following(0x00FF), 0x0100);
    assert_eq!(following(0xFFFF), 0x0000);
}

#[test]
fn words_are_made_low_byte_first() {
    assert_eq!(make_word(0x34, 0x12), 0x1234);
    assert_eq!(make_word(0xFF, 0xFF), 0xFFFF);
    assert_eq!(make_word(0x00, 0x80), 0x8000);
}

#[test]
fn bits_are_counted_from_the_low_end() {
    assert!(bit(0x01, 0));
    assert!(!bit(0x01, 1));
    assert!(bit(0x80, 7));
    assert!(!bit(0x7F, 7));
    assert!(bit(0x40, 6));
}

#[test]
fn zero_and_negative_follow_the_result() {
    let mut cpu = CPU::new(Ram::new());
    cpu.status.byte = 0x7D;
    cpu.update_zn(0x00);
    assert_eq!(cpu.status.byte, 0x7F);
    cpu.update_zn(0x80);
    assert_eq!(cpu.status.byte, 0xFD);
    cpu.update_zn(0x01);
    assert_eq!(cpu.status.byte, 0x7D);
}

#[test]
fn addition_and_subtraction_go_through_the_carry() {
    let mut cpu = CPU::new(Ram::new());
    cpu.ac = 0x7F;
    cpu.add_with_carry(0x01);
    assert_eq!(cpu.ac, 0x80);
    assert_eq!(cpu.status.byte, 0xE0);
    cpu.status.set_carry(true);
    cpu.add_with_carry(0x80);
    assert_eq!(cpu.ac, 0x01);
    assert_eq!(cpu.status.byte, 0x61);
    cpu.subtract_with_borrow(0x01);
    assert_eq!(cpu.ac, 0x00);
    assert_eq!(cpu.status.byte, 0x23);
    cpu.subtract_with_borrow(0x01);
    assert_eq!(cpu.ac, 0xFF);
    assert_eq!(cpu.status.byte, 0xA0);
}

#[test]
fn comparison_keeps_the_registers() {
    let mut cpu = CPU::new(Ram::new());
    cpu.compare(0x10, 0x20);
    assert_eq!(cpu.status.byte, 0xA0);
    cpu.compare(0x20, 0x10);
    assert_eq!(cpu.status.byte, 0x21);
    cpu.compare(0x20, 0x20);
    assert_eq!(cpu.status.byte, 0x23);
    assert_eq!(cpu.ac, 0);
}

#[test]
fn modify_writes_before_it_sets_flags() {
    let mut cpu = CPU::new(Ram::new());
    assert_eq!(cpu.modify(OperandData::Address(0x0300), 0x80, Some(true)), Ok(()));
    assert_eq!(cpu.bus.read(0x0300), 0x80);
    assert_eq!(cpu.status.byte, 0xA1);
    assert_eq!(cpu.modify(OperandData::Implied, 0x00, None), Ok(()));
    assert_eq!(cpu.ac, 0x00);
    assert_eq!(cpu.status.byte, 0x23);
    let literal = OperandData::Literal(1);
    assert_eq!(
        cpu.modify(literal, 0x55, Some(false)),
        Err(CPUError::OperandNotWriteable(literal))
    );
    assert_eq!(cpu.status.byte, 0x23);
}

#[test]
fn store_and_jump_need_an_address() {
    let mut cpu = CPU::new(Ram::new());
    assert_eq!(cpu.store(OperandData::Address(0x0400), 0x42), Ok(()));
    assert_eq!(cpu.read_operand(OperandData::Address(0x0400)), 0x42);
    assert_eq!(
        cpu.store(OperandData::Implied, 0x42),
        Err(CPUError::OperandNotAddress(OperandData::Implied))
    );
    assert_eq!(cpu.jump(OperandData::Address(0x1234), false), Ok(()));
    assert_eq!(cpu.pc, 0);
    assert_eq!(cpu.jump(OperandData::Address(0x1234), true), Ok(()));
    assert_eq!(cpu.pc, 0x1234);
    let literal = OperandData::Literal(9);
    assert_eq!(
        cpu.jump(literal, true),
        Err(CPUError::OperandNotAddress(literal))
    );
    assert_eq!(cpu.pc, 0x1234);
    assert_eq!(cpu.read_operand(literal), 9);
}
