use crate::addressing_modes::{advanced, crosses_page, operand_of, OperandData};
use crate::bus::{high_byte, next_addr, Bus, ADDRESS_SPACE};
use crate::cpu::{wrapped_byte, CPUError, Machine, CPU};
use crate::instructions::Instruction;
use crate::opcode_table::{lemma_entry_shape, lookup, opcode_entry, CycleRule};
use crate::stack::{
    after_pull_byte, after_pull_word, pushed_byte, pushed_word, stack_addr, top_byte, top_word,
};
use crate::status::{
    bit, bit_is_set, lemma_flag_write_keeps_others, lemma_flag_written_reads_back, with_flag,
    BREAK_BIT, CARRY_BIT, DECIMAL_BIT, INTERRUPT_BIT, NEGATIVE_BIT, OVERFLOW_BIT, UNUSED_BIT,
    ZERO_BIT,
};
use vstd::prelude::*;

verus! {

/// What an instruction leaves behind: whether it was carried out, and the
/// state after it. After a failure the state is the one reached when the
/// failure was found.
pub struct Outcome {
    pub result: Result<(), CPUError>,
    pub machine: Machine,
}

/// The instruction was carried out and left `m`.
pub open spec fn done(m: Machine) -> Outcome {
    Outcome { result: Ok(()), machine: m }
}

/// The instruction failed with `error` and left `m`.
pub open spec fn failed(error: CPUError, m: Machine) -> Outcome {
    Outcome { result: Err(error), machine: m }
}

/// `status` with Z and N taken from the result byte `value`: Z is set when
/// the byte is zero, N is a copy of its bit 7.
pub open spec fn with_zn(status: u8, value: u8) -> u8 {
    with_flag(with_flag(status, ZERO_BIT, value == 0), NEGATIVE_BIT, bit_is_set(value, 7))
}

/// The carry flag of `status` as a number.
pub open spec fn carry_in(status: u8) -> int {
    if bit_is_set(status, CARRY_BIT) {
        1
    } else {
        0
    }
}

/// `m` with `value` in the accumulator, and Z and N taken from it.
pub open spec fn loaded_a(m: Machine, value: u8) -> Machine {
    Machine { ac: value, status: with_zn(m.status, value), ..m }
}

/// `m` with `value` in X, and Z and N taken from it.
pub open spec fn loaded_x(m: Machine, value: u8) -> Machine {
    Machine { x: value, status: with_zn(m.status, value), ..m }
}

/// `m` with `value` in Y, and Z and N taken from it.
pub open spec fn loaded_y(m: Machine, value: u8) -> Machine {
    Machine { y: value, status: with_zn(m.status, value), ..m }
}

/// `m` with the flag at `bit` forced to `value`.
pub open spec fn flagged(m: Machine, bit: u8, value: bool) -> Machine {
    Machine { status: with_flag(m.status, bit, value), ..m }
}

/// The signed-overflow rule of an addition: both operands differ in sign
/// from the result.
pub open spec fn add_overflows(a: u8, operand: u8, result: u8) -> bool {
    ((a ^ result) & (operand ^ result) & 0x80) != 0
}

/// The signed-overflow rule of a subtraction: the operands differ in sign,
/// and the result differs in sign from the accumulator.
pub open spec fn sub_overflows(a: u8, operand: u8, result: u8) -> bool {
    ((a ^ operand) & 0x80) != 0 && ((a ^ result) & 0x80) != 0
}

/// `m` after `operand` and the carry were added to the accumulator. C is the
/// carry out of the sum, V its signed overflow; Z and N come from the result.
pub open spec fn added(m: Machine, operand: u8) -> Machine {
    let sum = m.ac + operand + carry_in(m.status);
    let result = wrapped_byte(sum);
    let status = with_flag(
        with_flag(m.status, OVERFLOW_BIT, add_overflows(m.ac, operand, result)),
        CARRY_BIT,
        sum >= 256,
    );
    Machine { ac: result, status: with_zn(status, result), ..m }
}

/// `m` after `operand` and the borrow, which is the inverted carry, were
/// subtracted from the accumulator. C is set when no borrow was needed, V is
/// the signed overflow; Z and N come from the result.
pub open spec fn subtracted(m: Machine, operand: u8) -> Machine {
    let difference = m.ac - operand - (1 - carry_in(m.status));
    let result = wrapped_byte(difference);
    let status = with_flag(
        with_flag(m.status, OVERFLOW_BIT, sub_overflows(m.ac, operand, result)),
        CARRY_BIT,
        difference >= 0,
    );
    Machine { ac: result, status: with_zn(status, result), ..m }
}

/// `m` after `register` was compared with `operand`: C is set when the
/// register is at least the operand, Z when they are equal, and N is bit 7 of
/// the low byte of their difference.
pub open spec fn compared(m: Machine, register: u8, operand: u8) -> Machine {
    Machine {
        status: with_zn(
            with_flag(m.status, CARRY_BIT, register >= operand),
            wrapped_byte(register - operand),
        ),
        ..m
    }
}

/// `m` after a bit test of `operand`: Z is set when the accumulator and the
/// operand share no bit, N and V are copies of the operand's bits 7 and 6.
pub open spec fn bit_tested(m: Machine, operand: u8) -> Machine {
    Machine {
        status: with_flag(
            with_flag(
                with_flag(m.status, ZERO_BIT, (operand & m.ac) == 0),
                NEGATIVE_BIT,
                bit_is_set(operand, 7),
            ),
            OVERFLOW_BIT,
            bit_is_set(operand, 6),
        ),
        ..m
    }
}

/// `value` shifted left by one bit; bit 0 of the result is 0.
pub open spec fn shifted_left(value: u8) -> u8 {
    value << 1u8
}

/// `value` shifted right by one bit; bit 7 of the result is 0.
pub open spec fn shifted_right(value: u8) -> u8 {
    value >> 1u8
}

/// `value` rotated left through the carry: bit 0 of the result is the old
/// carry.
pub open spec fn rotated_left(value: u8, carry: bool) -> u8 {
    (value << 1u8) | (if carry { 1u8 } else { 0u8 })
}

/// `value` rotated right through the carry: bit 7 of the result is the old
/// carry.
pub open spec fn rotated_right(value: u8, carry: bool) -> u8 {
    (value >> 1u8) | (if carry { 0x80u8 } else { 0u8 })
}

/// The outcome of an instruction that writes `result` back through its
/// operand: the operand is written first, then C is set to `carry` where the
/// instruction has one, then Z and N are taken from `result`. A literal
/// operand fails before anything changes.
pub open spec fn modified(m: Machine, operand: OperandData, result: u8, carry: Option<bool>)
    -> Outcome {
    if operand.writeable() {
        let written = operand.written_on(m, result);
        let status = match carry {
            Some(c) => with_flag(written.status, CARRY_BIT, c),
            None => written.status,
        };
        done(Machine { status: with_zn(status, result), ..written })
    } else {
        failed(CPUError::OperandNotWriteable(operand), m)
    }
}

/// The outcome of a store of `value`: the cell at the operand's address
/// holds it afterwards. An operand that is no address fails before anything
/// changes.
pub open spec fn stored(m: Machine, operand: OperandData, value: u8) -> Outcome {
    match operand {
        OperandData::Address(addr) => done(
            Machine { memory: m.memory.update(addr as int, value), ..m },
        ),
        _ => failed(CPUError::OperandNotAddress(operand), m),
    }
}

/// The outcome of a jump that happens when `taken` holds: the program counter
/// becomes the operand's address, or stays past the operand. An operand that
/// is no address fails before anything changes.
pub open spec fn jumped(m: Machine, operand: OperandData, taken: bool) -> Outcome {
    match operand {
        OperandData::Address(target) => done(
            if taken {
                Machine { pc: target, ..m }
            } else {
                m
            },
        ),
        _ => failed(CPUError::OperandNotAddress(operand), m),
    }
}

/// The outcome of a call: the program counter, which points past the
/// instruction, is pushed as a word, and the operand's address replaces it.
pub open spec fn called(m: Machine, operand: OperandData) -> Outcome {
    match operand {
        OperandData::Address(target) => done(Machine { pc: target, ..pushed_word(m, m.pc) }),
        _ => failed(CPUError::OperandNotAddress(operand), m),
    }
}

/// `m` after a return from a subroutine: the program counter is the word
/// pulled.
pub open spec fn returned(m: Machine) -> Machine {
    Machine { pc: top_word(m), ..after_pull_word(m) }
}

/// The status that a return from an interrupt restores: the byte pulled,
/// with B and the unused bit kept as they are in `current`.
pub open spec fn restored_status(current: u8, pulled: u8) -> u8 {
    (pulled & 0xCF) | (current & 0x30)
}

/// `m` after a return from an interrupt: the status is pulled, B and the
/// unused bit excepted, then the program counter.
pub open spec fn returned_from_interrupt(m: Machine) -> Machine {
    let unstacked = Machine {
        status: restored_status(m.status, top_byte(m)),
        ..after_pull_byte(m)
    };
    returned(unstacked)
}

/// Whether the branch `instruction` is taken under `status`. Each branch
/// tests one flag; anything that is no branch is never taken.
pub open spec fn branch_taken(status: u8, instruction: Instruction) -> bool {
    match instruction {
        Instruction::BCC => !bit_is_set(status, CARRY_BIT),
        Instruction::BCS => bit_is_set(status, CARRY_BIT),
        Instruction::BNE => !bit_is_set(status, ZERO_BIT),
        Instruction::BEQ => bit_is_set(status, ZERO_BIT),
        Instruction::BPL => !bit_is_set(status, NEGATIVE_BIT),
        Instruction::BMI => bit_is_set(status, NEGATIVE_BIT),
        Instruction::BVC => !bit_is_set(status, OVERFLOW_BIT),
        Instruction::BVS => bit_is_set(status, OVERFLOW_BIT),
        _ => false,
    }
}

/// The cycles that an instruction takes beyond its baseline. `crossed` says
/// whether indexing crossed a page boundary, `taken` whether a branch was
/// taken, `from` is the address past the instruction and `to` the address
/// that the program goes on at.
pub open spec fn cycle_bonus(rule: CycleRule, crossed: bool, taken: bool, from: u16, to: u16)
    -> int {
    match rule {
        CycleRule::Fixed => 0,
        CycleRule::AddOnCross => if crossed {
            1
        } else {
            0
        },
        CycleRule::AddOneTwoIfBranch => if !taken {
            0
        } else if high_byte(from) == high_byte(to) {
            1
        } else {
            2
        },
    }
}

/// What `instruction` does on `m` with the operand handle `operand`.
pub open spec fn perform_spec(m: Machine, instruction: Instruction, operand: OperandData)
    -> Outcome {
    let value = operand.value_on(m);
    let carry = bit_is_set(m.status, CARRY_BIT);
    match instruction {
        Instruction::ADC => done(added(m, value)),
        Instruction::AND => done(loaded_a(m, m.ac & value)),
        Instruction::ASL => modified(m, operand, shifted_left(value), Some(bit_is_set(value, 7))),
        Instruction::BCC => jumped(m, operand, branch_taken(m.status, instruction)),
        Instruction::BCS => jumped(m, operand, branch_taken(m.status, instruction)),
        Instruction::BEQ => jumped(m, operand, branch_taken(m.status, instruction)),
        Instruction::BIT => done(bit_tested(m, value)),
        Instruction::BMI => jumped(m, operand, branch_taken(m.status, instruction)),
        Instruction::BNE => jumped(m, operand, branch_taken(m.status, instruction)),
        Instruction::BPL => jumped(m, operand, branch_taken(m.status, instruction)),
        Instruction::BRK => failed(CPUError::UnimplementedInstruction(instruction), m),
        Instruction::BVC => jumped(m, operand, branch_taken(m.status, instruction)),
        Instruction::BVS => jumped(m, operand, branch_taken(m.status, instruction)),
        Instruction::CLC => done(flagged(m, CARRY_BIT, false)),
        Instruction::CLD => done(flagged(m, DECIMAL_BIT, false)),
        Instruction::CLI => done(flagged(m, INTERRUPT_BIT, false)),
        Instruction::CLV => done(flagged(m, OVERFLOW_BIT, false)),
        Instruction::CMP => done(compared(m, m.ac, value)),
        Instruction::CPX => done(compared(m, m.x, value)),
        Instruction::CPY => done(compared(m, m.y, value)),
        Instruction::DEC => modified(m, operand, wrapped_byte(value - 1), None),
        Instruction::DEX => done(loaded_x(m, wrapped_byte(m.x - 1))),
        Instruction::DEY => done(loaded_y(m, wrapped_byte(m.y - 1))),
        Instruction::EOR => done(loaded_a(m, m.ac ^ value)),
        Instruction::INC => modified(m, operand, wrapped_byte(value + 1), None),
        Instruction::INX => done(loaded_x(m, wrapped_byte(m.x + 1))),
        Instruction::INY => done(loaded_y(m, wrapped_byte(m.y + 1))),
        Instruction::JMP => jumped(m, operand, true),
        Instruction::JSR => called(m, operand),
        Instruction::LDA => done(loaded_a(m, value)),
        Instruction::LDX => done(loaded_x(m, value)),
        Instruction::LDY => done(loaded_y(m, value)),
        Instruction::LSR => modified(m, operand, shifted_right(value), Some(bit_is_set(value, 0))),
        Instruction::NOP => done(m),
        Instruction::ORA => done(loaded_a(m, m.ac | value)),
        Instruction::PHA => done(pushed_byte(m, m.ac)),
        Instruction::PHP => done(pushed_byte(m, m.status)),
        Instruction::PLA => done(loaded_a(after_pull_byte(m), top_byte(m))),
        Instruction::PLP => done(Machine { status: top_byte(m), ..after_pull_byte(m) }),
        Instruction::ROL => modified(
            m,
            operand,
            rotated_left(value, carry),
            Some(bit_is_set(value, 7)),
        ),
        Instruction::ROR => modified(
            m,
            operand,
            rotated_right(value, carry),
            Some(bit_is_set(value, 0)),
        ),
        Instruction::RTI => done(returned_from_interrupt(m)),
        Instruction::RTS => done(returned(m)),
        Instruction::SBC => done(subtracted(m, value)),
        Instruction::SEC => done(flagged(m, CARRY_BIT, true)),
        Instruction::SED => done(flagged(m, DECIMAL_BIT, true)),
        Instruction::SEI => done(flagged(m, INTERRUPT_BIT, true)),
        Instruction::STA => stored(m, operand, m.ac),
        Instruction::STX => stored(m, operand, m.x),
        Instruction::STY => stored(m, operand, m.y),
        Instruction::TAX => done(loaded_x(m, m.ac)),
        Instruction::TAY => done(loaded_y(m, m.ac)),
        Instruction::TSX => done(loaded_x(m, m.stack_pointer)),
        Instruction::TXA => done(loaded_a(m, m.x)),
        Instruction::TXS => done(Machine { stack_pointer: m.x, ..m }),
        Instruction::TYA => done(loaded_a(m, m.y)),
    }
}

/// `m` with the program counter moved past the byte that it points at.
pub open spec fn past_byte(m: Machine) -> Machine {
    Machine { pc: next_addr(m.pc), ..m }
}

/// What one instruction does on `m`: the opcode at the program counter is
/// fetched and decoded, the operand bytes are consumed, the instruction is
/// carried out, and its cycle count is recorded: the baseline of the entry
/// and what its cycle rule adds. An undefined opcode fails with the program
/// counter past it; an instruction that fails leaves the state that it had
/// reached.
#[verifier::opaque]
pub open spec fn execute_spec(m: Machine) -> Outcome {
    let opcode = m.memory[m.pc as int];
    let fetched = past_byte(m);
    match opcode_entry(opcode) {
        None => failed(CPUError::UnknownOpcode(opcode), fetched),
        Some(entry) => {
            let operand = operand_of(fetched, entry.addressing_mode);
            let resolved = Machine {
                pc: advanced(fetched.pc, entry.addressing_mode.operand_len()),
                ..fetched
            };
            let outcome = perform_spec(resolved, entry.instruction, operand);
            let bonus = cycle_bonus(
                entry.cycle_rule,
                crosses_page(fetched, entry.addressing_mode),
                branch_taken(resolved.status, entry.instruction),
                resolved.pc,
                outcome.machine.pc,
            );
            if outcome.result is Ok {
                done(Machine { cycles_left: (entry.cycles + bonus) as u8, ..outcome.machine })
            } else {
                outcome
            }
        },
    }
}

/// What one clock tick does on `m`: when no cycle is owed, the next
/// instruction is executed; then one owed cycle is paid. A failing
/// instruction pays none.
pub open spec fn tick_spec(m: Machine) -> Outcome {
    let outcome = if m.cycles_left == 0 {
        execute_spec(m)
    } else {
        done(m)
    };
    if outcome.result is Ok {
        done(Machine { cycles_left: (outcome.machine.cycles_left - 1) as u8, ..outcome.machine })
    } else {
        outcome
    }
}

impl<T: Bus> CPU<T> {
    /// Takes Z and N from the result byte `value`.
    pub fn update_zn(&mut self, value: u8)
        ensures
            final(self)@ == (Machine { status: with_zn(old(self)@.status, value), ..old(self)@ }),
            final(self).bus == old(self).bus,
    {
        self.status.set_zero(value == 0);
        self.status.set_negative(bit(value, 7));
    }

    /// Adds `operand` and the carry to the accumulator.
    pub fn add_with_carry(&mut self, operand: u8)
        ensures
            final(self)@ == added(old(self)@, operand),
            final(self).bus == old(self).bus,
    {
        let carry: u16 = if self.status.carry() { 1 } else { 0 };
        let sum: u16 = (self.ac as u16) + (operand as u16) + carry;
        let carry_out: bool = sum >= 256;
        let result: u8 = if carry_out { (sum - 256) as u8 } else { sum as u8 };
        self.status.set_overflow(((self.ac ^ result) & (operand ^ result) & 0x80) != 0);
        self.status.set_carry(carry_out);
        self.ac = result;
        self.update_zn(result);
    }

    /// Subtracts `operand` and the borrow from the accumulator.
    pub fn subtract_with_borrow(&mut self, operand: u8)
        ensures
            final(self)@ == subtracted(old(self)@, operand),
            final(self).bus == old(self).bus,
    {
        let borrow: u16 = if self.status.carry() { 0 } else { 1 };
        let taken: u16 = (operand as u16) + borrow;
        let no_borrow: bool = (self.ac as u16) >= taken;
        let result: u8 = if no_borrow {
            ((self.ac as u16) - taken) as u8
        } else {
            ((self.ac as u16) + 256 - taken) as u8
        };
        self.status.set_overflow(
            ((self.ac ^ operand) & 0x80) != 0 && ((self.ac ^ result) & 0x80) != 0,
        );
        self.status.set_carry(no_borrow);
        self.ac = result;
        self.update_zn(result);
    }

    /// Compares `register` with `operand` and sets C, Z and N.
    pub fn compare(&mut self, register: u8, operand: u8)
        ensures
            final(self)@ == compared(old(self)@, register, operand),
            final(self).bus == old(self).bus,
    {
        self.status.set_carry(register >= operand);
        self.update_zn(register.wrapping_sub(operand));
    }

    /// Writes `result` back through `operand`, then sets C to `carry` where
    /// there is one, then takes Z and N from `result`.
    pub fn modify(&mut self, operand: OperandData, result: u8, carry: Option<bool>) -> (r: Result<
        (),
        CPUError,
    >)
        requires
            old(self).wf(),
        ensures
            final(self).wf(),
            r == modified(old(self)@, operand, result, carry).result,
            final(self)@ == modified(old(self)@, operand, result, carry).machine,
    {
        match operand.write(self, result) {
            Ok(()) => {},
            Err(error) => {
                return Err(error);
            },
        }
        match carry {
            Some(c) => self.status.set_carry(c),
            None => {},
        }
        self.update_zn(result);
        Ok(())
    }

    /// Stores `value` at the operand's address.
    pub fn store(&mut self, operand: OperandData, value: u8) -> (r: Result<(), CPUError>)
        requires
            old(self).wf(),
        ensures
            final(self).wf(),
            r == stored(old(self)@, operand, value).result,
            final(self)@ == stored(old(self)@, operand, value).machine,
    {
        match operand.address() {
            Ok(addr) => {
                self.bus.write(addr, value);
                Ok(())
            },
            Err(error) => Err(error),
        }
    }

    /// Moves the program counter to the operand's address when `taken` holds.
    pub fn jump(&mut self, operand: OperandData, taken: bool) -> (r: Result<(), CPUError>)
        ensures
            r == jumped(old(self)@, operand, taken).result,
            final(self)@ == jumped(old(self)@, operand, taken).machine,
            final(self).bus == old(self).bus,
    {
        match operand.address() {
            Ok(target) => {
                if taken {
                    self.pc = target;
                }
                Ok(())
            },
            Err(error) => Err(error),
        }
    }

    /// Whether the branch `instruction` is taken under the current flags.
    pub fn takes_branch(&self, instruction: Instruction) -> (taken: bool)
        ensures
            taken == branch_taken(self.status.byte, instruction),
    {
        match instruction {
            Instruction::BCC => !self.status.carry(),
            Instruction::BCS => self.status.carry(),
            Instruction::BNE => !self.status.zero(),
            Instruction::BEQ => self.status.zero(),
            Instruction::BPL => !self.status.negative(),
            Instruction::BMI => self.status.negative(),
            Instruction::BVC => !self.status.overflow(),
            Instruction::BVS => self.status.overflow(),
            _ => false,
        }
    }

    /// Carries out `instruction` on the operand handle `operand`.
    pub fn perform(&mut self, instruction: Instruction, operand: OperandData) -> (r: Result<
        (),
        CPUError,
    >)
        requires
            old(self).wf(),
        ensures
            final(self).wf(),
            r == perform_spec(old(self)@, instruction, operand).result,
            final(self)@ == perform_spec(old(self)@, instruction, operand).machine,
    {
        match instruction {
            Instruction::ADC => {
                let value: u8 = self.read_operand(operand);
                self.add_with_carry(value);
                Ok(())
            },
            Instruction::AND => {
                let value: u8 = self.read_operand(operand);
                self.ac = self.ac & value;
                self.update_zn(self.ac);
                Ok(())
            },
            Instruction::ASL => {
                let value: u8 = self.read_operand(operand);
                self.modify(operand, value << 1u8, Some(bit(value, 7)))
            },
            Instruction::BCC
            | Instruction::BCS
            | Instruction::BEQ
            | Instruction::BMI
            | Instruction::BNE
            | Instruction::BPL
            | Instruction::BVC
            | Instruction::BVS => self.jump(operand, self.takes_branch(instruction)),
            Instruction::BIT => {
                let value: u8 = self.read_operand(operand);
                self.status.set_zero((value & self.ac) == 0);
                self.status.set_negative(bit(value, 7));
                self.status.set_overflow(bit(value, 6));
                Ok(())
            },
            Instruction::BRK => Err(CPUError::UnimplementedInstruction(instruction)),
            Instruction::CLC => {
                self.status.set_carry(false);
                Ok(())
            },
            Instruction::CLD => {
                self.status.set_decimal(false);
                Ok(())
            },
            Instruction::CLI => {
                self.status.set_interrupt_disabled(false);
                Ok(())
            },
            Instruction::CLV => {
                self.status.set_overflow(false);
                Ok(())
            },
            Instruction::CMP => {
                let value: u8 = self.read_operand(operand);
                self.compare(self.ac, value);
                Ok(())
            },
            Instruction::CPX => {
                let value: u8 = self.read_operand(operand);
                self.compare(self.x, value);
                Ok(())
            },
            Instruction::CPY => {
                let value: u8 = self.read_operand(operand);
                self.compare(self.y, value);
                Ok(())
            },
            Instruction::DEC => {
                let value: u8 = self.read_operand(operand);
                self.modify(operand, value.wrapping_sub(1), None)
            },
            Instruction::DEX => {
                self.x = self.x.wrapping_sub(1);
                self.update_zn(self.x);
                Ok(())
            },
            Instruction::DEY => {
                self.y = self.y.wrapping_sub(1);
                self.update_zn(self.y);
                Ok(())
            },
            Instruction::EOR => {
                let value: u8 = self.read_operand(operand);
                self.ac = self.ac ^ value;
                self.update_zn(self.ac);
                Ok(())
            },
            Instruction::INC => {
                let value: u8 = self.read_operand(operand);
                self.modify(operand, value.wrapping_add(1), None)
            },
            Instruction::INX => {
                self.x = self.x.wrapping_add(1);
                self.update_zn(self.x);
                Ok(())
            },
            Instruction::INY => {
                self.y = self.y.wrapping_add(1);
                self.update_zn(self.y);
                Ok(())
            },
            Instruction::JMP => self.jump(operand, true),
            Instruction::JSR => {
                match operand.address() {
                    Ok(target) => {
                        self.push_word(self.pc);
                        self.pc = target;
                        Ok(())
                    },
                    Err(error) => Err(error),
                }
            },
            Instruction::LDA => {
                self.ac = self.read_operand(operand);
                self.update_zn(self.ac);
                Ok(())
            },
            Instruction::LDX => {
                self.x = self.read_operand(operand);
                self.update_zn(self.x);
                Ok(())
            },
            Instruction::LDY => {
                self.y = self.read_operand(operand);
                self.update_zn(self.y);
                Ok(())
            },
            Instruction::LSR => {
                let value: u8 = self.read_operand(operand);
                self.modify(operand, value >> 1u8, Some(bit(value, 0)))
            },
            Instruction::NOP => Ok(()),
            Instruction::ORA => {
                let value: u8 = self.read_operand(operand);
                self.ac = self.ac | value;
                self.update_zn(self.ac);
                Ok(())
            },
            Instruction::PHA => {
                self.push_byte(self.ac);
                Ok(())
            },
            Instruction::PHP => {
                self.push_byte(self.status.byte);
                Ok(())
            },
            Instruction::PLA => {
                self.ac = self.pull_byte();
                self.update_zn(self.ac);
                Ok(())
            },
            Instruction::PLP => {
                self.status.byte = self.pull_byte();
                Ok(())
            },
            Instruction::ROL => {
                let value: u8 = self.read_operand(operand);
                let low: u8 = if self.status.carry() { 1 } else { 0 };
                self.modify(operand, (value << 1u8) | low, Some(bit(value, 7)))
            },
            Instruction::ROR => {
                let value: u8 = self.read_operand(operand);
                let high: u8 = if self.status.carry() { 0x80 } else { 0 };
                self.modify(operand, (value >> 1u8) | high, Some(bit(value, 0)))
            },
            Instruction::RTI => {
                let pulled: u8 = self.pull_byte();
                self.status.byte = (pulled & 0xCF) | (self.status.byte & 0x30);
                self.pc = self.pull_word();
                Ok(())
            },
            Instruction::RTS => {
                self.pc = self.pull_word();
                Ok(())
            },
            Instruction::SBC => {
                let value: u8 = self.read_operand(operand);
                self.subtract_with_borrow(value);
                Ok(())
            },
            Instruction::SEC => {
                self.status.set_carry(true);
                Ok(())
            },
            Instruction::SED => {
                self.status.set_decimal(true);
                Ok(())
            },
            Instruction::SEI => {
                self.status.set_interrupt_disabled(true);
                Ok(())
            },
            Instruction::STA => self.store(operand, self.ac),
            Instruction::STX => self.store(operand, self.x),
            Instruction::STY => self.store(operand, self.y),
            Instruction::TAX => {
                self.x = self.ac;
                self.update_zn(self.x);
                Ok(())
            },
            Instruction::TAY => {
                self.y = self.ac;
                self.update_zn(self.y);
                Ok(())
            },
            Instruction::TSX => {
                self.x = self.stack_pointer;
                self.update_zn(self.x);
                Ok(())
            },
            Instruction::TXA => {
                self.ac = self.x;
                self.update_zn(self.ac);
                Ok(())
            },
            Instruction::TXS => {
                self.stack_pointer = self.x;
                Ok(())
            },
            Instruction::TYA => {
                self.ac = self.y;
                self.update_zn(self.ac);
                Ok(())
            },
        }
    }

    /// Executes one instruction: another name for [`CPU::execute`].
    pub fn step(&mut self) -> (r: Result<(), CPUError>)
        requires
            old(self).wf(),
        ensures
            final(self).wf(),
            r == execute_spec(old(self)@).result,
            final(self)@ == execute_spec(old(self)@).machine,
    {
        self.execute()
    }

    /// Executes the instruction at the program counter.
    ///
    /// The opcode is fetched and decoded, the operand bytes are consumed, the
    /// instruction is carried out, and its cycle count is recorded: the
    /// baseline of the table, one more where its cycle rule says so and
    /// indexing crossed a page boundary, and for a branch one more when it is
    /// taken and two when it is taken into another page.
    /// An opcode that is not in the table fails with `UnknownOpcode`, the
    /// program counter past it. An instruction that fails leaves the state
    /// that it had reached, and the cycle count as it was.
    pub fn execute(&mut self) -> (r: Result<(), CPUError>)
        requires
            old(self).wf(),
        ensures
            final(self).wf(),
            r == execute_spec(old(self)@).result,
            final(self)@ == execute_spec(old(self)@).machine,
    {
        reveal(execute_spec);
        let opcode: u8 = self.fetch_byte();
        match lookup(opcode) {
            None => Err(CPUError::UnknownOpcode(opcode)),
            Some(entry) => {
                proof {
                    lemma_entry_shape(opcode);
                }
                let (operand, crossed) = self.resolve_operand(entry.addressing_mode);
                let taken: bool = self.takes_branch(entry.instruction);
                let from: u16 = self.pc;
                match self.perform(entry.instruction, operand) {
                    Ok(()) => {
                        let bonus: u8 = match entry.cycle_rule {
                            CycleRule::Fixed => 0,
                            CycleRule::AddOnCross => if crossed {
                                1
                            } else {
                                0
                            },
                            CycleRule::AddOneTwoIfBranch => if !taken {
                                0
                            } else if from / 256 == self.pc / 256 {
                                1
                            } else {
                                2
                            },
                        };
                        self.cycles_left = entry.cycles + bonus;
                        Ok(())
                    },
                    Err(error) => Err(error),
                }
            },
        }
    }

    /// Advances the processor by one clock cycle: when no cycle is owed, the
    /// next instruction is executed; then one owed cycle is paid. When the
    /// instruction fails, its error is returned and no cycle is paid.
    pub fn tick(&mut self) -> (r: Result<(), CPUError>)
        requires
            old(self).wf(),
        ensures
            final(self).wf(),
            r == tick_spec(old(self)@).result,
            final(self)@ == tick_spec(old(self)@).machine,
    {
        if self.cycles_left == 0 {
            match self.execute() {
                Ok(()) => {
                    proof {
                        lemma_executed_owes_cycles(old(self)@);
                    }
                },
                Err(error) => {
                    return Err(error);
                },
            }
        }
        self.cycles_left = self.cycles_left - 1;
        Ok(())
    }
}

/// An instruction that was executed owes at least two cycles.
pub proof fn lemma_executed_owes_cycles(m: Machine)
    ensures
        execute_spec(m).result is Ok ==> execute_spec(m).machine.cycles_left >= 2,
{
    reveal(execute_spec);
    lemma_entry_shape(m.memory[m.pc as int]);
}

/// After Z and N were taken from a result byte, Z is set exactly when the
/// byte is zero, and N exactly when its bit 7 is set.
pub proof fn lemma_zn_follow_result(status: u8, value: u8)
    ensures
        bit_is_set(with_zn(status, value), ZERO_BIT) == (value == 0),
        bit_is_set(with_zn(status, value), NEGATIVE_BIT) == bit_is_set(value, 7),
{
    let zeroed = with_flag(status, ZERO_BIT, value == 0);
    lemma_flag_written_reads_back(status, ZERO_BIT, value == 0);
    lemma_flag_write_keeps_others(zeroed, NEGATIVE_BIT, bit_is_set(value, 7), ZERO_BIT);
    lemma_flag_written_reads_back(zeroed, NEGATIVE_BIT, bit_is_set(value, 7));
}

/// The result byte from which `instruction` takes Z and N, for the
/// instructions that take both from a result.
pub open spec fn result_byte(m: Machine, instruction: Instruction, operand: OperandData)
    -> Option<u8> {
    let value = operand.value_on(m);
    let carry = bit_is_set(m.status, CARRY_BIT);
    match instruction {
        Instruction::ADC => Some(wrapped_byte(m.ac + value + carry_in(m.status))),
        Instruction::SBC => Some(wrapped_byte(m.ac - value - (1 - carry_in(m.status)))),
        Instruction::AND => Some(m.ac & value),
        Instruction::ORA => Some(m.ac | value),
        Instruction::EOR => Some(m.ac ^ value),
        Instruction::ASL => Some(shifted_left(value)),
        Instruction::LSR => Some(shifted_right(value)),
        Instruction::ROL => Some(rotated_left(value, carry)),
        Instruction::ROR => Some(rotated_right(value, carry)),
        Instruction::CMP => Some(wrapped_byte(m.ac - value)),
        Instruction::CPX => Some(wrapped_byte(m.x - value)),
        Instruction::CPY => Some(wrapped_byte(m.y - value)),
        Instruction::DEC => Some(wrapped_byte(value - 1)),
        Instruction::INC => Some(wrapped_byte(value + 1)),
        Instruction::DEX => Some(wrapped_byte(m.x - 1)),
        Instruction::INX => Some(wrapped_byte(m.x + 1)),
        Instruction::DEY => Some(wrapped_byte(m.y - 1)),
        Instruction::INY => Some(wrapped_byte(m.y + 1)),
        Instruction::LDA | Instruction::LDX | Instruction::LDY => Some(value),
        Instruction::PLA => Some(top_byte(m)),
        Instruction::TAX | Instruction::TAY => Some(m.ac),
        Instruction::TXA => Some(m.x),
        Instruction::TYA => Some(m.y),
        Instruction::TSX => Some(m.stack_pointer),
        _ => None,
    }
}

/// After an instruction that takes Z and N from a result, Z is set exactly
/// when the result byte is zero, and N exactly when its bit 7 is set.
pub proof fn lemma_flags_follow_result(m: Machine, instruction: Instruction, operand: OperandData)
    requires
        result_byte(m, instruction, operand) is Some,
        perform_spec(m, instruction, operand).result is Ok,
    ensures
        bit_is_set(perform_spec(m, instruction, operand).machine.status, ZERO_BIT) == (result_byte(
            m,
            instruction,
            operand,
        ).unwrap() == 0),
        bit_is_set(perform_spec(m, instruction, operand).machine.status, NEGATIVE_BIT)
            == bit_is_set(result_byte(m, instruction, operand).unwrap(), 7),
{
    assert forall|status: u8, value: u8|
        bit_is_set(#[trigger] with_zn(status, value), ZERO_BIT) == (value == 0) && bit_is_set(
            with_zn(status, value),
            NEGATIVE_BIT,
        ) == bit_is_set(value, 7) by {
        lemma_zn_follow_result(status, value);
    }
    match instruction {
        Instruction::ADC => {},
        Instruction::SBC => {},
        Instruction::AND => {},
        Instruction::ORA => {},
        Instruction::EOR => {},
        Instruction::ASL => {},
        Instruction::LSR => {},
        Instruction::ROL => {},
        Instruction::ROR => {},
        Instruction::CMP => {},
        Instruction::CPX => {},
        Instruction::CPY => {},
        Instruction::DEC => {},
        Instruction::INC => {},
        Instruction::DEX => {},
        Instruction::INX => {},
        Instruction::DEY => {},
        Instruction::INY => {},
        Instruction::LDA => {},
        Instruction::LDX => {},
        Instruction::LDY => {},
        Instruction::PLA => {},
        Instruction::TAX => {},
        Instruction::TAY => {},
        Instruction::TXA => {},
        Instruction::TYA => {},
        Instruction::TSX => {},
        _ => {},
    }
}

/// The byte that `instruction` writes through its operand, for the
/// instructions that write through it.
pub open spec fn written_byte(m: Machine, instruction: Instruction, operand: OperandData)
    -> Option<u8> {
    let value = operand.value_on(m);
    let carry = bit_is_set(m.status, CARRY_BIT);
    match instruction {
        Instruction::STA => Some(m.ac),
        Instruction::STX => Some(m.x),
        Instruction::STY => Some(m.y),
        Instruction::ASL => Some(shifted_left(value)),
        Instruction::LSR => Some(shifted_right(value)),
        Instruction::ROL => Some(rotated_left(value, carry)),
        Instruction::ROR => Some(rotated_right(value, carry)),
        Instruction::DEC => Some(wrapped_byte(value - 1)),
        Instruction::INC => Some(wrapped_byte(value + 1)),
        _ => None,
    }
}

/// A byte written through a handle that names an address is the byte that a
/// read of that address gives afterwards.
pub proof fn lemma_written_byte_reads_back(m: Machine, addr: u16, value: u8)
    requires
        m.memory.len() == ADDRESS_SPACE,
    ensures
        OperandData::Address(addr).value_on(OperandData::Address(addr).written_on(m, value))
            == value,
{
}

/// An instruction that writes through an operand that names an address
/// succeeds, and the cell at that address holds the byte written when the
/// instruction is over; every other cell is as before.
pub proof fn lemma_instruction_write_is_visible(
    m: Machine,
    instruction: Instruction,
    addr: u16,
    other: u16,
)
    requires
        m.memory.len() == ADDRESS_SPACE,
        written_byte(m, instruction, OperandData::Address(addr)) is Some,
        other != addr,
    ensures
        perform_spec(m, instruction, OperandData::Address(addr)).result is Ok,
        perform_spec(m, instruction, OperandData::Address(addr)).machine.memory[addr as int]
            == written_byte(m, instruction, OperandData::Address(addr)).unwrap(),
        perform_spec(m, instruction, OperandData::Address(addr)).machine.memory[other as int]
            == m.memory[other as int],
{
}

/// Whether `instruction` leaves the program counter where the operand fetch
/// put it: it is no branch, jump, call or return.
pub open spec fn is_straight_line(instruction: Instruction) -> bool {
    match instruction {
        Instruction::BCC
        | Instruction::BCS
        | Instruction::BEQ
        | Instruction::BMI
        | Instruction::BNE
        | Instruction::BPL
        | Instruction::BVC
        | Instruction::BVS
        | Instruction::JMP
        | Instruction::JSR
        | Instruction::RTI
        | Instruction::RTS => false,
        _ => true,
    }
}

/// A straight-line instruction leaves the program counter where it found it.
pub proof fn lemma_straight_line_keeps_pc(m: Machine, instruction: Instruction, operand: OperandData)
    requires
        is_straight_line(instruction),
    ensures
        perform_spec(m, instruction, operand).machine.pc == m.pc,
{
}

/// Executing a straight-line instruction moves the program counter forward
/// by the length of the instruction, whether or not it succeeds. A branch
/// that is not taken does the same.
pub proof fn lemma_execute_advances_pc(m: Machine)
    requires
        m.memory.len() == ADDRESS_SPACE,
        opcode_entry(m.memory[m.pc as int]) is Some,
    ensures
        ({
            let entry = opcode_entry(m.memory[m.pc as int]).unwrap();
            &&& entry.bytes == 1 + entry.addressing_mode.operand_len()
            &&& is_straight_line(entry.instruction) ==> execute_spec(m).machine.pc == advanced(
                m.pc,
                entry.bytes as int,
            )
        }),
{
    reveal(execute_spec);
    let entry = opcode_entry(m.memory[m.pc as int]).unwrap();
    lemma_entry_shape(m.memory[m.pc as int]);
    let fetched = past_byte(m);
    let resolved = Machine {
        pc: advanced(fetched.pc, entry.addressing_mode.operand_len()),
        ..fetched
    };
    if is_straight_line(entry.instruction) {
        lemma_straight_line_keeps_pc(
            resolved,
            entry.instruction,
            operand_of(fetched, entry.addressing_mode),
        );
    }
}

/// Pulling the status and pushing it again writes back the byte that the
/// pull read, to the cell that it was read from, and leaves the memory and
/// the stack pointer as they were.
pub proof fn lemma_pull_then_push_status(m: Machine)
    requires
        m.memory.len() == ADDRESS_SPACE,
    ensures
        ({
            let pulled = perform_spec(m, Instruction::PLP, OperandData::Implied).machine;
            let pushed = perform_spec(pulled, Instruction::PHP, OperandData::Implied).machine;
            &&& pulled.status == top_byte(m)
            &&& pushed.memory[stack_addr(pulled.stack_pointer) as int] == top_byte(m)
            &&& pushed.memory == m.memory
            &&& pushed.stack_pointer == m.stack_pointer
        }),
{
    let pulled = perform_spec(m, Instruction::PLP, OperandData::Implied).machine;
    let pushed = perform_spec(pulled, Instruction::PHP, OperandData::Implied).machine;
    assert(pushed.memory =~= m.memory);
}

/// The status that a return from an interrupt restores has B and the unused
/// bit of the current status, and every other bit of the byte pulled.
pub proof fn lemma_restored_status_keeps_break_and_unused(current: u8, pulled: u8, bit: u8)
    requires
        bit < 8,
    ensures
        bit_is_set(restored_status(current, pulled), bit) == if bit == BREAK_BIT || bit
            == UNUSED_BIT {
            bit_is_set(current, bit)
        } else {
            bit_is_set(pulled, bit)
        },
{
    assert((((pulled & 0xCF) | (current & 0x30)) & (1u8 << bit) != 0) == (if bit == 4 || bit == 5 {
        current & (1u8 << bit) != 0
    } else {
        pulled & (1u8 << bit) != 0
    })) by (bit_vector)
        requires
            bit < 8,
    ;
}

/// A byte read as a signed number in two's complement.
pub open spec fn signed(value: u8) -> int {
    if value < 128 {
        value as int
    } else {
        value - 256
    }
}

/// The overflow rule of an addition is signed overflow: V is set exactly when
/// the sum of the operands, read as signed numbers, and the carry does not
/// fit a signed byte.
pub proof fn lemma_add_overflow_is_signed(a: u8, operand: u8, carry: bool)
    ensures
        ({
            let c: int = if carry { 1 } else { 0 };
            let sum = signed(a) + signed(operand) + c;
            add_overflows(a, operand, wrapped_byte(a + operand + c)) == (sum < -128 || sum > 127)
        }),
{
    let c: int = if carry { 1 } else { 0 };
    let result = wrapped_byte(a + operand + c);
    assert((((a ^ result) & (operand ^ result) & 0x80) != 0) == ((a < 128 && operand < 128
        && result >= 128) || (a >= 128 && operand >= 128 && result < 128))) by (bit_vector);
}

/// The overflow rule of a subtraction is signed overflow: V is set exactly
/// when the difference of the operands, read as signed numbers, less the
/// borrow does not fit a signed byte.
pub proof fn lemma_sub_overflow_is_signed(a: u8, operand: u8, carry: bool)
    ensures
        ({
            let borrow: int = if carry { 0 } else { 1 };
            let difference = signed(a) - signed(operand) - borrow;
            sub_overflows(a, operand, wrapped_byte(a - operand - borrow)) == (difference < -128
                || difference > 127)
        }),
{
    let borrow: int = if carry { 0 } else { 1 };
    let result = wrapped_byte(a - operand - borrow);
    assert((((a ^ operand) & 0x80) != 0 && ((a ^ result) & 0x80) != 0) == ((a < 128 && operand
        >= 128 && result >= 128) || (a >= 128 && operand < 128 && result < 128)))
        by (bit_vector);
}

/// Shifts and rotates as arithmetic: a shift left doubles the byte and drops
/// what does not fit, a shift right halves it, and a rotate puts the old
/// carry into the bit that the shift left empty.
pub proof fn lemma_shifts_are_arithmetic(value: u8, carry: bool)
    ensures
        shifted_left(value) == (2 * value) % 256,
        shifted_right(value) == value / 2,
        rotated_left(value, carry) == shifted_left(value) + (if carry { 1int } else { 0int }),
        rotated_right(value, carry) == shifted_right(value) + (if carry { 128int } else { 0int }),
        !bit_is_set(shifted_left(value), 0),
        !bit_is_set(shifted_right(value), 7),
        bit_is_set(rotated_left(value, carry), 0) == carry,
        bit_is_set(rotated_right(value, carry), 7) == carry,
        bit_is_set(value, 7) == (value >= 128),
        bit_is_set(value, 0) == (value % 2 == 1),
{
    assert((value << 1u8) == (2 * value) % 256) by (bit_vector);
    assert((value >> 1u8) == value / 2) by (bit_vector);
    assert(((value << 1u8) | 1u8) == (value << 1u8) + 1) by (bit_vector);
    assert(((value << 1u8) | 0u8) == (value << 1u8)) by (bit_vector);
    assert(((value >> 1u8) | 0x80u8) == (value >> 1u8) + 128) by (bit_vector);
    assert(((value >> 1u8) | 0u8) == (value >> 1u8)) by (bit_vector);
    assert(((value << 1u8) & (1u8 << 0u8)) == 0) by (bit_vector);
    assert(((value >> 1u8) & (1u8 << 7u8)) == 0) by (bit_vector);
    assert((((value << 1u8) | 1u8) & (1u8 << 0u8)) != 0) by (bit_vector);
    assert((((value >> 1u8) | 0x80u8) & (1u8 << 7u8)) != 0) by (bit_vector);
    assert(((value & (1u8 << 7u8)) != 0) == (value >= 128)) by (bit_vector);
    assert(((value & (1u8 << 0u8)) != 0) == (value % 2 == 1)) by (bit_vector);
}

} // verus!
