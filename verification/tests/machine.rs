use m6502::addressing_modes::{AddressingMode, OperandData};
use m6502::bus::{Bus, Ram};
use m6502::harness::{Harness, HarnessCommand, HarnessState};
use m6502::instructions::Instruction;
use m6502::opcode_table::{lookup, opcode_table, CycleRule, OpcodeEntry};
use m6502::status::Status;
use m6502::{CPUError, CPU};

fn operand_bytes(mode: AddressingMode) -> u8 {
    match mode {
        AddressingMode::Implied => 0,
        AddressingMode::Absolute
        | AddressingMode::AbsoluteX
        | AddressingMode::AbsoluteY
        | AddressingMode::Indirect => 2,
        _ => 1,
    }
}

#[test]
fn new_processor_is_reset() {
    let cpu = CPU::new(Ram::new());
    assert_eq!(cpu.pc, 0);
    assert_eq!(cpu.ac, 0);
    assert_eq!(cpu.x, 0);
    assert_eq!(cpu.y, 0);
    assert_eq!(cpu.stack_pointer, 0);
    assert_eq!(cpu.status.byte, 0b0010_0000);
    assert_eq!(cpu.cycles_left, 0);
}

#[test]
fn reset_restores_registers_and_keeps_memory() {
    let mut cpu = CPU::new(Ram::new());
    cpu.bus.write(0x1000, 0x42);
    cpu.pc = 0x0600;
    cpu.ac = 1;
    cpu.x = 2;
    cpu.y = 3;
    cpu.stack_pointer = 4;
    cpu.status.byte = 0xFF;
    cpu.cycles_left = 5;
    cpu.reset();
    assert_eq!(cpu.pc, 0);
    assert_eq!(cpu.ac, 0);
    assert_eq!(cpu.x, 0);
    assert_eq!(cpu.y, 0);
    assert_eq!(cpu.stack_pointer, 0);
    assert_eq!(cpu.status.byte, 0x20);
    assert_eq!(cpu.cycles_left, 0);
    assert_eq!(cpu.bus.read(0x1000), 0x42);
}

#[test]
fn status_flags_sit_at_their_bits() {
    let mut status = Status::default();
    assert_eq!(status.byte, 0x20);
    assert!(status._ignored_flag());
    status.set_carry(true);
    assert_eq!(status.byte, 0x21);
    status.set_zero(true);
    assert_eq!(status.byte, 0x23);
    status.set_interrupt_disabled(true);
    assert_eq!(status.byte, 0x27);
    status.set_decimal(true);
    assert_eq!(status.byte, 0x2F);
    status.set_break(true);
    assert_eq!(status.byte, 0x3F);
    status.set_overflow(true);
    assert_eq!(status.byte, 0x7F);
    status.set_negative(true);
    assert_eq!(status.byte, 0xFF);
    status._set_ignored_flag(false);
    assert_eq!(status.byte, 0xDF);
    assert!(status.carry() && status.zero() && status.interrupt_disabled());
    assert!(status.decimal() && status.break_flag() && status.overflow());
    assert!(status.negative() && !status._ignored_flag());
    status.set_zero(false);
    status.set_zero(false);
    assert_eq!(status.byte, 0xDD);
    status.set_mask(false, 0xF0);
    assert_eq!(status.byte, 0x0D);
}

#[test]
fn memory_words_are_little_endian_and_wrap() {
    let mut ram = Ram::new();
    ram.write_word(0x0010, 0xBEEF);
    assert_eq!(ram.read(0x0010), 0xEF);
    assert_eq!(ram.read(0x0011), 0xBE);
    assert_eq!(ram.read_word(0x0010), 0xBEEF);
    ram.write_word(0xFFFF, 0x1234);
    assert_eq!(ram.read(0xFFFF), 0x34);
    assert_eq!(ram.read(0x0000), 0x12);
    assert_eq!(ram.read_word(0xFFFF), 0x1234);
}

#[test]
fn memory_is_loaded_in_place() {
    let mut ram = Ram::of_size(0x20);
    ram.write(0x03, 0xAA);
    ram.write(0x08, 0xBB);
    ram.load(&[1, 2, 3, 4], 0x04);
    assert_eq!(ram.read(0x03), 0xAA);
    assert_eq!(ram.read(0x04), 1);
    assert_eq!(ram.read(0x07), 4);
    assert_eq!(ram.read(0x08), 0xBB);
    assert_eq!(ram.read(0x1F), 0);
    let whole = Ram::default();
    assert_eq!(whole.read(0xFFFF), 0);
}

#[test]
fn push_and_pull_are_inverses() {
    let mut cpu = CPU::new(Ram::new());
    cpu.stack_pointer = 0x7E;
    cpu.push_byte(0xAB);
    assert_eq!(cpu.pull_byte(), 0xAB);
    assert_eq!(cpu.stack_pointer, 0x7E);
    cpu.push_word(0xCAFE);
    assert_eq!(cpu.pull_word(), 0xCAFE);
    assert_eq!(cpu.stack_pointer, 0x7E);
    cpu.push_byte(1);
    cpu.push_byte(2);
    assert_eq!(cpu.pull_byte(), 2);
    assert_eq!(cpu.pull_byte(), 1);
}

#[test]
fn stack_stays_in_its_page() {
    let mut cpu = CPU::new(Ram::new());
    cpu.stack_pointer = 0xFF;
    cpu.push_word(0x1234);
    assert_eq!(cpu.stack_pointer, 0x01);
    assert_eq!(cpu.bus.read(0x01FF), 0x34);
    assert_eq!(cpu.bus.read(0x0100), 0x12);
    assert_eq!(cpu.bus.read(0x0200), 0x00);
    assert_eq!(cpu.bus.read(0x00FF), 0x00);
    assert_eq!(cpu.pull_word(), 0x1234);
    assert_eq!(cpu.stack_pointer, 0xFF);
    cpu.push_byte(0x77);
    assert_eq!(cpu.stack_pointer, 0x00);
    assert_eq!(cpu.bus.read(0x01FF), 0x77);
    assert_eq!(cpu.pull_byte(), 0x77);
    assert_eq!(cpu.stack_pointer, 0xFF);
}

#[test]
fn fetching_moves_the_program_counter() {
    let mut ram = Ram::new();
    ram.load(&[0x11, 0x22, 0x33], 0x0600);
    let mut cpu = CPU::new(ram);
    cpu.pc = 0x0600;
    assert_eq!(cpu.fetch_byte(), 0x11);
    assert_eq!(cpu.pc, 0x0601);
    assert_eq!(cpu.fetch_word(), 0x3322);
    assert_eq!(cpu.pc, 0x0603);
}

#[test]
fn operand_fetch_follows_the_mode() {
    let mut ram = Ram::new();
    ram.load(&[0x34, 0x12], 0x0600);
    let mut cpu = CPU::new(ram);
    cpu.x = 1;
    cpu.y = 2;
    cpu.pc = 0x0600;
    assert_eq!(cpu.fetch_op_data(AddressingMode::Implied), OperandData::Implied);
    assert_eq!(cpu.pc, 0x0600);
    assert_eq!(cpu.fetch_op_data(AddressingMode::Immediate), OperandData::Literal(0x34));
    assert_eq!(cpu.pc, 0x0601);
    cpu.pc = 0x0600;
    assert_eq!(cpu.fetch_op_data(AddressingMode::ZeroPage), OperandData::Address(0x0034));
    cpu.pc = 0x0600;
    assert_eq!(cpu.fetch_op_data(AddressingMode::ZeroPageY), OperandData::Address(0x0036));
    cpu.pc = 0x0600;
    assert_eq!(cpu.fetch_op_data(AddressingMode::Absolute), OperandData::Address(0x1234));
    assert_eq!(cpu.pc, 0x0602);
    cpu.pc = 0x0600;
    assert_eq!(cpu.fetch_op_data(AddressingMode::AbsoluteX), OperandData::Address(0x1235));
    cpu.pc = 0x0600;
    assert_eq!(cpu.fetch_op_data(AddressingMode::AbsoluteY), OperandData::Address(0x1236));
    cpu.pc = 0x0600;
    assert_eq!(cpu.fetch_op_data(AddressingMode::Relative), OperandData::Address(0x0635));
    cpu.bus.write(0x0600, 0x80);
    cpu.pc = 0x0600;
    assert_eq!(cpu.fetch_op_data(AddressingMode::Relative), OperandData::Address(0x0581));
}

#[test]
fn every_entry_sits_at_its_own_opcode() {
    let mut occupied = 0;
    let mut names: Vec<&'static str> = Vec::new();
    for code in 0..=255u8 {
        if let Some(entry) = lookup(code) {
            occupied += 1;
            assert_eq!(entry.code, code);
            assert_eq!(entry.bytes, 1 + operand_bytes(entry.addressing_mode));
            assert!(entry.cycles >= 2 && entry.cycles <= 7);
            let name = entry.instruction.description();
            if !names.contains(&name) {
                names.push(name);
            }
        }
    }
    assert_eq!(occupied, 151);
    assert_eq!(names.len(), 56);
}

#[test]
fn entries_hold_the_reference_values() {
    assert_eq!(
        lookup(0xA9),
        Some(OpcodeEntry::new(0xA9, Instruction::LDA, AddressingMode::Immediate, 2, 2, CycleRule::Fixed))
    );
    assert_eq!(
        lookup(0x7D),
        Some(OpcodeEntry::new(0x7D, Instruction::ADC, AddressingMode::AbsoluteX, 3, 4, CycleRule::AddOnCross))
    );
    assert_eq!(
        lookup(0xF0),
        Some(OpcodeEntry::new(0xF0, Instruction::BEQ, AddressingMode::Relative, 2, 2, CycleRule::AddOneTwoIfBranch))
    );
    assert_eq!(
        lookup(0xB8),
        Some(OpcodeEntry::new(0xB8, Instruction::CLV, AddressingMode::Implied, 1, 2, CycleRule::Fixed))
    );
    assert_eq!(lookup(0xFF), None);
    assert_eq!(lookup(0x80), None);
}

#[test]
fn tick_pays_the_cycles_of_an_instruction() {
    let mut ram = Ram::new();
    ram.load(&[0xA9, 0x01, 0xA9, 0x02], 0x0600);
    let mut cpu = CPU::new(ram);
    cpu.pc = 0x0600;
    assert_eq!(cpu.tick(), Ok(()));
    assert_eq!(cpu.ac, 1);
    assert_eq!(cpu.cycles_left, 1);
    assert_eq!(cpu.tick(), Ok(()));
    assert_eq!(cpu.ac, 1);
    assert_eq!(cpu.pc, 0x0602);
    assert_eq!(cpu.cycles_left, 0);
    assert_eq!(cpu.tick(), Ok(()));
    assert_eq!(cpu.ac, 2);
    assert_eq!(cpu.cycles_left, 1);
}

#[test]
fn tick_hands_on_the_error() {
    let mut cpu = CPU::new(Ram::new());
    cpu.bus.write(0, 0xFF);
    assert_eq!(cpu.tick(), Err(CPUError::UnknownOpcode(0xFF)));
    assert_eq!(cpu.cycles_left, 0);
    assert_eq!(cpu.pc, 1);
}

#[test]
fn harness_runs_only_while_running() {
    let mut ram = Ram::new();
    ram.load(&[0xE8, 0xE8, 0xE8, 0x02], 0x0600);
    let mut cpu = CPU::new(ram);
    cpu.pc = 0x0600;
    let mut harness = Harness::new(cpu);
    assert_eq!(harness.frequency, 60);
    assert!(harness.state.is_paused());
    assert!(!harness.state.is_running());
    assert_eq!(harness.old_cpu.pc, 0x0600);
    harness.frame(10);
    assert_eq!(harness.cpu.x, 0);
    harness.state = HarnessState::Running;
    harness.frame(4);
    assert_eq!(harness.cpu.x, 2);
    assert_eq!(harness.cpu.cycles_left, 0);
    assert!(harness.state.is_running());
    harness.frame(10);
    assert_eq!(harness.cpu.x, 3);
    assert!(harness.state.is_error());
    assert_eq!(harness.state.error(), Some(&CPUError::UnknownOpcode(0x02)));
    assert_eq!(harness.cpu.pc, 0x0604);
    harness.frame(10);
    assert_eq!(harness.cpu.pc, 0x0604);
}

#[test]
fn harness_single_step_executes_one_instruction() {
    let mut ram = Ram::new();
    ram.load(&[0xC8, 0x00], 0x0600);
    let mut cpu = CPU::new(ram);
    cpu.pc = 0x0600;
    let mut harness = Harness::new(cpu);
    harness.single_step();
    assert_eq!(harness.cpu.y, 1);
    assert_eq!(harness.state, HarnessState::Paused);
    assert_eq!(harness.state.error(), None);
    harness.single_step();
    assert_eq!(
        harness.state,
        HarnessState::Error(CPUError::UnimplementedInstruction(Instruction::BRK))
    );
}

#[test]
fn page_crossing_costs_a_cycle() {
    let mut ram = Ram::new();
    ram.load(&[0xBD, 0xFF, 0x12, 0xBD, 0x00, 0x12, 0x9D, 0xFF, 0x12], 0x0600);
    let mut cpu = CPU::new(ram);
    cpu.pc = 0x0600;
    cpu.x = 1;
    assert_eq!(cpu.execute(), Ok(()));
    assert_eq!(cpu.cycles_left, 5);
    assert_eq!(cpu.execute(), Ok(()));
    assert_eq!(cpu.cycles_left, 4);
    assert_eq!(cpu.execute(), Ok(()));
    assert_eq!(cpu.cycles_left, 5);
    cpu.pc = 0x0601;
    assert_eq!(
        cpu.resolve_operand(AddressingMode::AbsoluteX),
        (OperandData::Address(0x1300), true)
    );
    cpu.bus.write_word(0x0040, 0x20F0);
    cpu.bus.write(0x0700, 0x40);
    cpu.pc = 0x0700;
    cpu.y = 0x10;
    assert_eq!(
        cpu.resolve_operand(AddressingMode::IndirectY),
        (OperandData::Address(0x2100), true)
    );
    cpu.pc = 0x0700;
    cpu.y = 0x0F;
    assert_eq!(
        cpu.resolve_operand(AddressingMode::IndirectY),
        (OperandData::Address(0x20FF), false)
    );
}

#[test]
fn taken_branch_costs_one_or_two_cycles() {
    let mut ram = Ram::new();
    ram.load(&[0xD0, 0x10], 0x0600);
    ram.load(&[0xD0, 0x10], 0x06F0);
    let mut cpu = CPU::new(ram);
    cpu.pc = 0x0600;
    assert_eq!(cpu.execute(), Ok(()));
    assert_eq!(cpu.pc, 0x0612);
    assert_eq!(cpu.cycles_left, 3);
    cpu.pc = 0x06F0;
    assert_eq!(cpu.execute(), Ok(()));
    assert_eq!(cpu.pc, 0x0702);
    assert_eq!(cpu.cycles_left, 4);
    cpu.pc = 0x0600;
    cpu.status.set_zero(true);
    assert_eq!(cpu.execute(), Ok(()));
    assert_eq!(cpu.pc, 0x0602);
    assert_eq!(cpu.cycles_left, 2);
    assert!(!cpu.takes_branch(Instruction::BNE));
    assert!(cpu.takes_branch(Instruction::BEQ));
    assert!(cpu.takes_branch(Instruction::BCC));
    assert!(!cpu.takes_branch(Instruction::BCS));
    assert!(cpu.takes_branch(Instruction::BPL));
    assert!(!cpu.takes_branch(Instruction::BMI));
    assert!(cpu.takes_branch(Instruction::BVC));
    assert!(!cpu.takes_branch(Instruction::BVS));
    assert!(!cpu.takes_branch(Instruction::JMP));
}

#[test]
fn stack_is_listed_newest_word_first() {
    let mut cpu = CPU::new(Ram::new());
    assert_eq!(cpu.stack_words(), Vec::<u16>::new());
    cpu.push_word(0x1111);
    cpu.push_word(0x2222);
    cpu.push_word(0x3333);
    assert_eq!(cpu.stack_words(), vec![0x3333, 0x2222, 0x1111]);
    cpu.push_byte(0x44);
    assert_eq!(cpu.stack_words(), vec![0x4433, 0x3322, 0x2211]);
}

#[test]
fn clone_copies_registers_and_memory() {
    let mut cpu = CPU::new(Ram::new());
    cpu.pc = 0x1234;
    cpu.ac = 5;
    cpu.x = 6;
    cpu.y = 7;
    cpu.stack_pointer = 8;
    cpu.status.byte = 0xA1;
    cpu.cycles_left = 3;
    cpu.bus.write(0x4242, 0x99);
    let mut copy = cpu.clone();
    assert_eq!(copy.pc, 0x1234);
    assert_eq!(copy.ac, 5);
    assert_eq!(copy.x, 6);
    assert_eq!(copy.y, 7);
    assert_eq!(copy.stack_pointer, 8);
    assert_eq!(copy.status.byte, 0xA1);
    assert_eq!(copy.cycles_left, 3);
    assert_eq!(copy.bus.read(0x4242), 0x99);
    copy.bus.write(0x4242, 0x11);
    assert_eq!(cpu.bus.read(0x4242), 0x99);
}

#[test]
fn harness_commands_apply_where_they_are_offered() {
    let mut ram = Ram::new();
    ram.load(&[0xE8, 0x02], 0x0600);
    let mut cpu = CPU::new(ram);
    cpu.pc = 0x0600;
    let mut harness = Harness::new(cpu);
    assert!(!harness.command(HarnessCommand::Pause));
    assert!(!harness.command(HarnessCommand::Reset));
    assert_eq!(harness.state, HarnessState::Paused);
    assert!(harness.command(HarnessCommand::SingleStep));
    assert_eq!(harness.cpu.x, 1);
    assert_eq!(harness.state, HarnessState::Paused);
    assert!(harness.command(HarnessCommand::Resume));
    assert_eq!(harness.state, HarnessState::Running);
    assert!(!harness.command(HarnessCommand::Resume));
    assert!(!harness.command(HarnessCommand::SingleStep));
    assert_eq!(harness.cpu.x, 1);
    assert!(harness.command(HarnessCommand::Pause));
    assert_eq!(harness.state, HarnessState::Paused);
    assert!(harness.command(HarnessCommand::SingleStep));
    assert_eq!(harness.state, HarnessState::Error(CPUError::UnknownOpcode(0x02)));
    assert!(!harness.command(HarnessCommand::Resume));
    assert!(harness.command(HarnessCommand::Reset));
    assert_eq!(harness.state, HarnessState::Paused);
    assert_eq!(harness.cpu.pc, 0x0600);
    assert_eq!(harness.cpu.x, 0);
    assert_eq!(harness.cpu.bus.read(0x0600), 0xE8);
}

#[test]
fn harness_frequency_is_clamped() {
    let mut harness = Harness::new(CPU::new(Ram::new()));
    harness.set_frequency(10);
    assert_eq!(harness.frequency, 60);
    harness.set_frequency(10000);
    assert_eq!(harness.frequency, 10000);
    assert_eq!(harness.cycles_per_frame(60), 167);
    assert_eq!(harness.cycles_per_frame(10001), 1);
    harness.set_frequency(2000000);
    assert_eq!(harness.frequency, 1000000);
    assert_eq!(harness.cycles_per_frame(1), 1000001);
}

#[test]
fn cells_are_read_and_written_through_the_processor() {
    let mut cpu = CPU::new(Ram::new());
    cpu.ac = 9;
    cpu.write_cell(0x00FF, 0x77);
    assert_eq!(cpu.read_cell(0x00FF), 0x77);
    assert_eq!(cpu.bus.read(0x00FF), 0x77);
    assert_eq!(cpu.read_cell(0x0100), 0);
    assert_eq!(cpu.ac, 9);
    assert_eq!(cpu.pc, 0);
}

#[test]
fn step_executes_one_instruction() {
    let mut ram = Ram::new();
    ram.load(&[0xA2, 0x05, 0xCA], 0x0600);
    let mut cpu = CPU::new(ram);
    cpu.pc = 0x0600;
    assert_eq!(cpu.step(), Ok(()));
    assert_eq!(cpu.x, 5);
    assert_eq!(cpu.pc, 0x0602);
    assert_eq!(cpu.step(), Ok(()));
    assert_eq!(cpu.x, 4);
    assert_eq!(cpu.pc, 0x0603);
    assert_eq!(cpu.step(), Err(CPUError::UnimplementedInstruction(Instruction::BRK)));
}

#[test]
fn small_memory_serves_the_addresses_it_has() {
    let mut cpu = CPU::new(Ram::of_size(0x0200));
    cpu.push_word(0xABCD);
    assert_eq!(cpu.pull_word(), 0xABCD);
    cpu.write_cell(0x0010, 0xA9);
    cpu.write_cell(0x0011, 0x07);
    cpu.pc = 0x0010;
    assert_eq!(cpu.fetch_byte(), 0xA9);
    assert_eq!(OperandData::Address(0x0011).value(&cpu), Ok(0x07));
}

#[test]
fn dense_table_holds_every_entry_at_its_index() {
    let table = opcode_table();
    assert_eq!(table.len(), 256);
    for (index, place) in table.iter().enumerate() {
        assert_eq!(*place, lookup(index as u8));
        if let Some(entry) = place {
            assert_eq!(entry.code as usize, index);
        }
    }
}

#[test]
fn straight_line_instructions_advance_by_their_length() {
    let jumps = [
        Instruction::BCC,
        Instruction::BCS,
        Instruction::BEQ,
        Instruction::BMI,
        Instruction::BNE,
        Instruction::BPL,
        Instruction::BVC,
        Instruction::BVS,
        Instruction::JMP,
        Instruction::JSR,
        Instruction::RTI,
        Instruction::RTS,
    ];
    let mut tried = 0;
    for code in 0..=255u8 {
        let entry = match lookup(code) {
            Some(entry) => entry,
            None => continue,
        };
        if jumps.contains(&entry.instruction) {
            continue;
        }
        let mut ram = Ram::new();
        ram.load(&[code, 0x34, 0x12], 0x0600);
        let mut cpu = CPU::new(ram);
        cpu.pc = 0x0600;
        cpu.x = 3;
        cpu.y = 5;
        let result = cpu.execute();
        assert_eq!(result.is_err(), entry.instruction == Instruction::BRK);
        assert_eq!(cpu.pc, 0x0600 + entry.bytes as u16);
        tried += 1;
    }
    assert_eq!(tried, 151 - 8 - 2 - 1 - 2);
}
