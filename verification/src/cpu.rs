use crate::addressing_modes::{advanced, OperandData};
use crate::bus::{following, next_addr, word_at, Bus, ADDRESS_SPACE};
use crate::instructions::Instruction;
use crate::status::{Status, RESET_STATUS};
use vstd::prelude::*;

verus! {

/// Why an instruction could not be carried out.
#[derive(Debug, Copy, Clone, PartialEq, Eq, Structural)]
pub enum CPUError {
    /// The opcode byte is not one of the documented opcodes.
    UnknownOpcode(u8),
    /// The mnemonic is decoded, but the processor does not carry it out.
    UnimplementedInstruction(Instruction),
    /// The instruction needs an address, and the operand is none.
    OperandNotAddress(OperandData),
    /// The instruction writes its operand, and the operand cannot be written.
    OperandNotWriteable(OperandData),
}

/// The state of a processor and its memory as plain values.
pub struct Machine {
    /// Program counter.
    pub pc: u16,
    /// Accumulator.
    pub ac: u8,
    /// Index register X.
    pub x: u8,
    /// Index register Y.
    pub y: u8,
    /// Status byte.
    pub status: u8,
    /// Stack pointer.
    pub stack_pointer: u8,
    /// Cycles still owed by the instruction decoded last.
    pub cycles_left: u8,
    /// The memory behind the bus, cell by cell.
    pub memory: Seq<u8>,
}

/// A 6502 processor together with the bus that it owns.
pub struct CPU<T: Bus> {
    /// Program counter.
    pub pc: u16,
    /// Accumulator.
    pub ac: u8,
    /// Index register X.
    pub x: u8,
    /// Index register Y.
    pub y: u8,
    /// Status register.
    pub status: Status,
    /// Stack pointer: the stack lives in page `0x0100` to `0x01FF`.
    pub stack_pointer: u8,
    /// The memory bus.
    pub bus: T,
    /// Cycles still owed by the instruction decoded last.
    pub cycles_left: u8,
}

impl<T: Bus> View for CPU<T> {
    type V = Machine;

    open spec fn view(&self) -> Machine {
        Machine {
            pc: self.pc,
            ac: self.ac,
            x: self.x,
            y: self.y,
            status: self.status.byte,
            stack_pointer: self.stack_pointer,
            cycles_left: self.cycles_left,
            memory: self.bus.cells(),
        }
    }
}

/// `v` brought back into the range of a byte by one wrap at either end.
/// `v` is less than one byte's range away from that range.
pub open spec fn wrapped_byte(v: int) -> u8
    recommends
        -256 <= v < 512,
{
    if v >= 256 {
        (v - 256) as u8
    } else if v < 0 {
        (v + 256) as u8
    } else {
        v as u8
    }
}

/// One wrap brings a value that is less than a byte's range away back into
/// the range modulo 256.
pub proof fn lemma_wrapped_byte_is_modular(v: int)
    requires
        -256 <= v < 512,
    ensures
        wrapped_byte(v) == v % 256,
{
}

impl<T: Bus + Clone> Clone for CPU<T> {
    fn clone(&self) -> (copy: Self)
        ensures
            copy.is_copy_of(self),
    {
        Self {
            pc: self.pc,
            ac: self.ac,
            x: self.x,
            y: self.y,
            status: self.status,
            stack_pointer: self.stack_pointer,
            bus: self.bus.clone(),
            cycles_left: self.cycles_left,
        }
    }
}

/// The state after a reset, over the memory `memory`.
pub open spec fn reset_machine(memory: Seq<u8>) -> Machine {
    Machine {
        pc: 0,
        ac: 0,
        x: 0,
        y: 0,
        status: RESET_STATUS,
        stack_pointer: 0,
        cycles_left: 0,
        memory,
    }
}

impl<T: Bus> CPU<T> {
    /// The bus spans the whole 16-bit address space, so that every address the
    /// processor can form is mapped.
    pub open spec fn wf(&self) -> bool {
        self.bus.cells().len() == ADDRESS_SPACE
    }

    /// The registers are those of `source`, and the bus is a clone of its
    /// bus. What that says of the memory is up to the bus: a clone of a `Ram`
    /// has the same cells.
    pub open spec fn is_copy_of(&self, source: &Self) -> bool where T: Clone {
        &&& self.pc == source.pc
        &&& self.ac == source.ac
        &&& self.x == source.x
        &&& self.y == source.y
        &&& self.status == source.status
        &&& self.stack_pointer == source.stack_pointer
        &&& self.cycles_left == source.cycles_left
        &&& cloned(source.bus, self.bus)
    }

    /// A processor that owns `bus`, in the state after a reset.
    pub fn new(bus: T) -> (cpu: Self)
        ensures
            cpu@ == reset_machine(bus.cells()),
            cpu.bus == bus,
    {
        Self {
            pc: 0,
            ac: 0,
            x: 0,
            y: 0,
            status: Status::default(),
            stack_pointer: 0,
            bus,
            cycles_left: 0,
        }
    }

    /// Puts the registers back to their state after a reset. The memory is
    /// kept, and the program counter is zero: the caller sets the entry point.
    pub fn reset(&mut self)
        ensures
            final(self)@ == reset_machine(old(self)@.memory),
            final(self).bus == old(self).bus,
    {
        self.pc = 0;
        self.ac = 0;
        self.x = 0;
        self.y = 0;
        self.status = Status::default();
        self.stack_pointer = 0;
        self.cycles_left = 0;
    }

    /// Reads the memory cell at `addr`, for a look at the memory between
    /// instructions.
    pub fn read_cell(&self, addr: u16) -> (data: u8)
        requires
            (addr as int) < self@.memory.len(),
        ensures
            data == self@.memory[addr as int],
    {
        self.bus.read(addr)
    }

    /// Writes the memory cell at `addr`, to hand the program an input between
    /// instructions. No register changes.
    pub fn write_cell(&mut self, addr: u16, data: u8)
        requires
            (addr as int) < old(self)@.memory.len(),
        ensures
            final(self)@ == (Machine {
                memory: old(self)@.memory.update(addr as int, data),
                ..old(self)@
            }),
    {
        self.bus.write(addr, data);
    }

    /// Reads the byte at the program counter and moves the counter past it.
    pub fn fetch_byte(&mut self) -> (data: u8)
        requires
            (old(self).pc as int) < old(self)@.memory.len(),
        ensures
            data == old(self)@.memory[old(self).pc as int],
            final(self)@ == (Machine { pc: next_addr(old(self).pc), ..old(self)@ }),
    {
        let data: u8 = self.bus.read(self.pc);
        self.pc = following(self.pc);
        data
    }

    /// Reads the little-endian word at the program counter and moves the
    /// counter past it.
    pub fn fetch_word(&mut self) -> (word: u16)
        requires
            (old(self).pc as int) < old(self)@.memory.len(),
            (next_addr(old(self).pc) as int) < old(self)@.memory.len(),
        ensures
            word == word_at(old(self)@.memory, old(self).pc),
            final(self)@ == (Machine { pc: advanced(old(self).pc, 2), ..old(self)@ }),
    {
        let word: u16 = self.bus.read_word(self.pc);
        self.pc = self.pc.wrapping_add(2);
        word
    }
}

} // verus!
