use crate::bus::{high_byte, next_addr, word_at, Bus};
use crate::cpu::{CPUError, Machine, CPU};
use vstd::prelude::*;

verus! {

/// How an instruction finds its operand.
#[derive(Copy, Clone, Debug, PartialEq, Eq, Structural)]
pub enum AddressingMode {
    /// No operand bytes: the instruction works on a register, as in `CLC`,
    /// `TXA` or `ROL A`.
    Implied,
    /// One literal byte follows the opcode, as in `LDA #$07`.
    Immediate,
    /// A 16-bit address follows the opcode, as in `LDA $3010`.
    Absolute,
    /// A zero-page address follows the opcode, as in `LDA $80`.
    ZeroPage,
    /// A 16-bit address follows; X is added to it, as in `LDA $3120,X`.
    AbsoluteX,
    /// A 16-bit address follows; Y is added to it, as in `LDX $8240,Y`.
    AbsoluteY,
    /// A zero-page address follows; X is added to it within the zero page,
    /// as in `LDA $80,X`.
    ZeroPageX,
    /// A zero-page address follows; Y is added to it within the zero page,
    /// as in `LDX $60,Y`.
    ZeroPageY,
    /// A 16-bit address follows; the word stored there is the operand's
    /// address, as in `JMP ($FF82)`.
    Indirect,
    /// A zero-page address follows; X is added to it within the zero page, and
    /// the word stored there is the operand's address, as in `LDA ($70,X)`.
    IndirectX,
    /// A zero-page address follows; Y is added to the word stored there, as
    /// in `LDA ($70),Y`.
    IndirectY,
    /// A signed byte follows; it is added to the program counter that points
    /// past it, as in `BEQ $1005`.
    Relative,
}

impl AddressingMode {
    /// Number of operand bytes that follow the opcode.
    pub open spec fn operand_len(self) -> int {
        match self {
            AddressingMode::Implied => 0,
            AddressingMode::Absolute
            | AddressingMode::AbsoluteX
            | AddressingMode::AbsoluteY
            | AddressingMode::Indirect => 2,
            _ => 1,
        }
    }
}

/// Where an instruction reads and writes.
#[derive(Debug, Copy, Clone, PartialEq, Eq, Structural)]
pub enum OperandData {
    /// The accumulator, or no operand at all.
    Implied,
    /// A literal byte: it can be read, not written.
    Literal(u8),
    /// The memory cell at this address.
    Address(u16),
}

/// `addr` moved by `n` cells, forward or backward, wrapping at either end of
/// the address space. `n` is less than one address space in size.
pub open spec fn advanced(addr: u16, n: int) -> u16
    recommends
        -0x10000 <= n <= 0x10000,
{
    let sum = addr + n;
    if sum >= 0x10000 {
        (sum - 0x10000) as u16
    } else if sum < 0 {
        (sum + 0x10000) as u16
    } else {
        sum as u16
    }
}

/// The zero-page address `base + index`, wrapped within the zero page.
pub open spec fn zero_page_indexed(base: u8, index: u8) -> u16 {
    if base + index >= 256 {
        (base + index - 256) as u16
    } else {
        (base + index) as u16
    }
}

/// Moving an address wraps modulo the size of the address space, and
/// indexing within the zero page wraps modulo the size of a page.
pub proof fn lemma_address_arithmetic_is_modular(addr: u16, n: int, base: u8, index: u8)
    requires
        -0x10000 <= n <= 0x10000,
    ensures
        advanced(addr, n) == (addr + n) % 0x10000,
        zero_page_indexed(base, index) == (base + index) % 256,
{
}

/// The value of a branch operand as a signed offset.
pub open spec fn sign_extended(offset: u8) -> int {
    if offset < 128 {
        offset as int
    } else {
        offset - 256
    }
}

impl OperandData {
    /// The byte that a read through the handle gives on `m`.
    pub open spec fn value_on(self, m: Machine) -> u8 {
        match self {
            OperandData::Implied => m.ac,
            OperandData::Literal(lit) => lit,
            OperandData::Address(addr) => m.memory[addr as int],
        }
    }

    /// Whether a read or a write through the handle stays within the cells
    /// of `m`: it does unless the handle names an address beyond them.
    pub open spec fn mapped_on(self, m: Machine) -> bool {
        match self {
            OperandData::Address(addr) => (addr as int) < m.memory.len(),
            _ => true,
        }
    }

    /// Whether the handle can be written through.
    pub open spec fn writeable(self) -> bool {
        !(self is Literal)
    }

    /// `m` after `value` was written through the handle. A literal cannot be
    /// written: it leaves `m` as it is.
    pub open spec fn written_on(self, m: Machine, value: u8) -> Machine {
        match self {
            OperandData::Implied => Machine { ac: value, ..m },
            OperandData::Literal(_) => m,
            OperandData::Address(addr) => Machine {
                memory: m.memory.update(addr as int, value),
                ..m
            },
        }
    }

    /// Reads through the handle: the accumulator, the literal, or the memory
    /// cell. A read never fails.
    pub fn value<T: Bus>(self, cpu: &CPU<T>) -> (r: Result<u8, CPUError>)
        requires
            self.mapped_on(cpu@),
        ensures
            r == Ok::<u8, CPUError>(self.value_on(cpu@)),
    {
        Ok(cpu.read_operand(self))
    }

    /// Writes through the handle: to the accumulator or to the memory cell.
    /// A literal is refused, and nothing changes.
    pub fn write<T: Bus>(self, cpu: &mut CPU<T>, value: u8) -> (r: Result<(), CPUError>)
        requires
            self.mapped_on(old(cpu)@),
        ensures
            final(cpu)@ == self.written_on(old(cpu)@, value),
            self.writeable() ==> r is Ok,
            !self.writeable() ==> r == Err::<(), CPUError>(CPUError::OperandNotWriteable(self)),
    {
        match self {
            OperandData::Implied => {
                cpu.ac = value;
                Ok(())
            },
            OperandData::Literal(_) => Err(CPUError::OperandNotWriteable(self)),
            OperandData::Address(addr) => {
                cpu.bus.write(addr, value);
                Ok(())
            },
        }
    }

    /// The address that the handle stands for, if it stands for one.
    pub fn address(self) -> (r: Result<u16, CPUError>)
        ensures
            match self {
                OperandData::Address(addr) => r == Ok::<u16, CPUError>(addr),
                _ => r == Err::<u16, CPUError>(CPUError::OperandNotAddress(self)),
            },
    {
        match self {
            OperandData::Address(addr) => Ok(addr),
            _ => Err(CPUError::OperandNotAddress(self)),
        }
    }
}

/// The operand handle that `mode` gives on `m`, whose program counter points
/// at the first operand byte.
pub open spec fn operand_of(m: Machine, mode: AddressingMode) -> OperandData {
    let b = m.memory[m.pc as int];
    let w = word_at(m.memory, m.pc);
    match mode {
        AddressingMode::Implied => OperandData::Implied,
        AddressingMode::Immediate => OperandData::Literal(b),
        AddressingMode::Absolute => OperandData::Address(w),
        AddressingMode::ZeroPage => OperandData::Address(b as u16),
        AddressingMode::AbsoluteX => OperandData::Address(advanced(w, m.x as int)),
        AddressingMode::AbsoluteY => OperandData::Address(advanced(w, m.y as int)),
        AddressingMode::ZeroPageX => OperandData::Address(zero_page_indexed(b, m.x)),
        AddressingMode::ZeroPageY => OperandData::Address(zero_page_indexed(b, m.y)),
        AddressingMode::Indirect => OperandData::Address(word_at(m.memory, w)),
        AddressingMode::IndirectX => OperandData::Address(
            word_at(m.memory, zero_page_indexed(b, m.x)),
        ),
        AddressingMode::IndirectY => OperandData::Address(
            advanced(word_at(m.memory, b as u16), m.y as int),
        ),
        AddressingMode::Relative => OperandData::Address(
            advanced(next_addr(m.pc), sign_extended(b)),
        ),
    }
}

/// Whether the indexing of `mode` crosses a page boundary on `m`, whose
/// program counter points at the first operand byte: the operand's address
/// lies in another page than the address that the index was added to.
pub open spec fn crosses_page(m: Machine, mode: AddressingMode) -> bool {
    let w = word_at(m.memory, m.pc);
    let pointed = word_at(m.memory, m.memory[m.pc as int] as u16);
    match mode {
        AddressingMode::AbsoluteX => high_byte(w) != high_byte(advanced(w, m.x as int)),
        AddressingMode::AbsoluteY => high_byte(w) != high_byte(advanced(w, m.y as int)),
        AddressingMode::IndirectY => high_byte(pointed) != high_byte(
            advanced(pointed, m.y as int),
        ),
        _ => false,
    }
}

impl<T: Bus> CPU<T> {
    /// The byte that a read through `operand` gives.
    pub fn read_operand(&self, operand: OperandData) -> (value: u8)
        requires
            operand.mapped_on(self@),
        ensures
            value == operand.value_on(self@),
    {
        match operand {
            OperandData::Implied => self.ac,
            OperandData::Literal(lit) => lit,
            OperandData::Address(addr) => self.bus.read(addr),
        }
    }

    /// Consumes the operand bytes of `mode` at the program counter and gives
    /// the operand handle. The program counter moves past the bytes consumed;
    /// nothing else changes.
    ///
    /// Indexing a zero-page address wraps within the zero page, as the
    /// hardware does; indexing a 16-bit address wraps at the end of the
    /// address space. An indirect jump reads its target as one little-endian
    /// word, without the page-wrap fault of the hardware.
    pub fn fetch_op_data(&mut self, mode: AddressingMode) -> (operand: OperandData)
        requires
            old(self).wf(),
        ensures
            final(self).wf(),
            operand == operand_of(old(self)@, mode),
            final(self)@ == (Machine {
                pc: advanced(old(self).pc, mode.operand_len()),
                ..old(self)@
            }),
    {
        self.resolve_operand(mode).0
    }

    /// Does what [`CPU::fetch_op_data`] does, and says besides whether
    /// indexing crossed a page boundary.
    pub fn resolve_operand(&mut self, mode: AddressingMode) -> (resolved: (OperandData, bool))
        requires
            old(self).wf(),
        ensures
            final(self).wf(),
            resolved.0 == operand_of(old(self)@, mode),
            resolved.1 == crosses_page(old(self)@, mode),
            final(self)@ == (Machine {
                pc: advanced(old(self).pc, mode.operand_len()),
                ..old(self)@
            }),
    {
        match mode {
            AddressingMode::Implied => (OperandData::Implied, false),
            AddressingMode::Immediate => (OperandData::Literal(self.fetch_byte()), false),
            AddressingMode::Absolute => (OperandData::Address(self.fetch_word()), false),
            AddressingMode::ZeroPage => (OperandData::Address(self.fetch_byte() as u16), false),
            AddressingMode::AbsoluteX => {
                let base: u16 = self.fetch_word();
                let addr: u16 = base.wrapping_add(self.x as u16);
                (OperandData::Address(addr), base / 256 != addr / 256)
            },
            AddressingMode::AbsoluteY => {
                let base: u16 = self.fetch_word();
                let addr: u16 = base.wrapping_add(self.y as u16);
                (OperandData::Address(addr), base / 256 != addr / 256)
            },
            AddressingMode::ZeroPageX => {
                let base: u8 = self.fetch_byte();
                (OperandData::Address(base.wrapping_add(self.x) as u16), false)
            },
            AddressingMode::ZeroPageY => {
                let base: u8 = self.fetch_byte();
                (OperandData::Address(base.wrapping_add(self.y) as u16), false)
            },
            AddressingMode::Indirect => {
                let pointer: u16 = self.fetch_word();
                (OperandData::Address(self.bus.read_word(pointer)), false)
            },
            AddressingMode::IndirectX => {
                let base: u8 = self.fetch_byte();
                let pointer: u16 = base.wrapping_add(self.x) as u16;
                (OperandData::Address(self.bus.read_word(pointer)), false)
            },
            AddressingMode::IndirectY => {
                let pointer: u16 = self.fetch_byte() as u16;
                let base: u16 = self.bus.read_word(pointer);
                let addr: u16 = base.wrapping_add(self.y as u16);
                (OperandData::Address(addr), base / 256 != addr / 256)
            },
            AddressingMode::Relative => {
                let offset: u8 = self.fetch_byte();
                if offset < 128 {
                    (OperandData::Address(self.pc.wrapping_add(offset as u16)), false)
                } else {
                    (OperandData::Address(self.pc.wrapping_sub(256 - (offset as u16))), false)
                }
            },
        }
    }
}

} // verus!
