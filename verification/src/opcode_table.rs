use crate::addressing_modes::AddressingMode;
use crate::instructions::Instruction;
use vstd::prelude::*;

verus! {

/// How the cycle count of an instruction departs from its baseline.
#[derive(Copy, Clone, Debug, PartialEq, Eq, Structural)]
pub enum CycleRule {
    /// The instruction always takes its baseline.
    Fixed,
    /// One cycle more when indexing crosses a page boundary.
    AddOnCross,
    /// One cycle more when a branch is taken within the page, two when it
    /// leaves the page.
    AddOneTwoIfBranch,
}

/// What one opcode byte decodes to.
#[derive(Copy, Clone, Debug, PartialEq, Eq, Structural)]
pub struct OpcodeEntry {
    /// The opcode byte.
    pub code: u8,
    /// The mnemonic.
    pub instruction: Instruction,
    /// How the operand is found.
    pub addressing_mode: AddressingMode,
    /// Length of the instruction in bytes, opcode included.
    pub bytes: u8,
    /// Baseline cycle count.
    pub cycles: u8,
    /// How the final cycle count departs from the baseline.
    pub cycle_rule: CycleRule,
}

impl OpcodeEntry {
    pub fn new(
        code: u8,
        instruction: Instruction,
        addressing_mode: AddressingMode,
        bytes: u8,
        cycles: u8,
        cycle_rule: CycleRule,
    ) -> (entry: Self)
        ensures
            entry == (OpcodeEntry { code, instruction, addressing_mode, bytes, cycles, cycle_rule }),
    {
        Self { code, instruction, addressing_mode, bytes, cycles, cycle_rule }
    }
}

/// The entry with the given fields, wrapped for the table.
pub open spec fn occupied(
    code: u8,
    instruction: Instruction,
    addressing_mode: AddressingMode,
    bytes: u8,
    cycles: u8,
    cycle_rule: CycleRule,
) -> Option<OpcodeEntry> {
    Some(OpcodeEntry { code, instruction, addressing_mode, bytes, cycles, cycle_rule })
}

/// The opcode table: what each of the 256 opcode bytes decodes to. The 151
/// documented opcodes are occupied; every other byte is undefined.
pub open spec fn opcode_entry(code: u8) -> Option<OpcodeEntry> {
    match code {
        0x00 => occupied(0x00, Instruction::BRK, AddressingMode::Implied, 1, 7, CycleRule::Fixed),
        0x01 => occupied(0x01, Instruction::ORA, AddressingMode::IndirectX, 2, 6, CycleRule::Fixed),
        0x05 => occupied(0x05, Instruction::ORA, AddressingMode::ZeroPage, 2, 3, CycleRule::Fixed),
        0x06 => occupied(0x06, Instruction::ASL, AddressingMode::ZeroPage, 2, 5, CycleRule::Fixed),
        0x08 => occupied(0x08, Instruction::PHP, AddressingMode::Implied, 1, 3, CycleRule::Fixed),
        0x09 => occupied(0x09, Instruction::ORA, AddressingMode::Immediate, 2, 2, CycleRule::Fixed),
        0x0A => occupied(0x0A, Instruction::ASL, AddressingMode::Implied, 1, 2, CycleRule::Fixed),
        0x0D => occupied(0x0D, Instruction::ORA, AddressingMode::Absolute, 3, 4, CycleRule::Fixed),
        0x0E => occupied(0x0E, Instruction::ASL, AddressingMode::Absolute, 3, 6, CycleRule::Fixed),
        0x10 => occupied(0x10, Instruction::BPL, AddressingMode::Relative, 2, 2, CycleRule::AddOneTwoIfBranch),
        0x11 => occupied(0x11, Instruction::ORA, AddressingMode::IndirectY, 2, 5, CycleRule::AddOnCross),
        0x15 => occupied(0x15, Instruction::ORA, AddressingMode::ZeroPageX, 2, 4, CycleRule::Fixed),
        0x16 => occupied(0x16, Instruction::ASL, AddressingMode::ZeroPageX, 2, 6, CycleRule::Fixed),
        0x18 => occupied(0x18, Instruction::CLC, AddressingMode::Implied, 1, 2, CycleRule::Fixed),
        0x19 => occupied(0x19, Instruction::ORA, AddressingMode::AbsoluteY, 3, 4, CycleRule::AddOnCross),
        0x1D => occupied(0x1D, Instruction::ORA, AddressingMode::AbsoluteX, 3, 4, CycleRule::AddOnCross),
        0x1E => occupied(0x1E, Instruction::ASL, AddressingMode::AbsoluteX, 3, 7, CycleRule::Fixed),
        0x20 => occupied(0x20, Instruction::JSR, AddressingMode::Absolute, 3, 6, CycleRule::Fixed),
        0x21 => occupied(0x21, Instruction::AND, AddressingMode::IndirectX, 2, 6, CycleRule::Fixed),
        0x24 => occupied(0x24, Instruction::BIT, AddressingMode::ZeroPage, 2, 3, CycleRule::Fixed),
        0x25 => occupied(0x25, Instruction::AND, AddressingMode::ZeroPage, 2, 3, CycleRule::Fixed),
        0x26 => occupied(0x26, Instruction::ROL, AddressingMode::ZeroPage, 2, 5, CycleRule::Fixed),
        0x28 => occupied(0x28, Instruction::PLP, AddressingMode::Implied, 1, 4, CycleRule::Fixed),
        0x29 => occupied(0x29, Instruction::AND, AddressingMode::Immediate, 2, 2, CycleRule::Fixed),
        0x2A => occupied(0x2A, Instruction::ROL, AddressingMode::Implied, 1, 2, CycleRule::Fixed),
        0x2C => occupied(0x2C, Instruction::BIT, AddressingMode::Absolute, 3, 4, CycleRule::Fixed),
        0x2D => occupied(0x2D, Instruction::AND, AddressingMode::Absolute, 3, 4, CycleRule::Fixed),
        0x2E => occupied(0x2E, Instruction::ROL, AddressingMode::Absolute, 3, 6, CycleRule::Fixed),
        0x30 => occupied(0x30, Instruction::BMI, AddressingMode::Relative, 2, 2, CycleRule::AddOneTwoIfBranch),
        0x31 => occupied(0x31, Instruction::AND, AddressingMode::IndirectY, 2, 5, CycleRule::AddOnCross),
        0x35 => occupied(0x35, Instruction::AND, AddressingMode::ZeroPageX, 2, 4, CycleRule::Fixed),
        0x36 => occupied(0x36, Instruction::ROL, AddressingMode::ZeroPageX, 2, 6, CycleRule::Fixed),
        0x38 => occupied(0x38, Instruction::SEC, AddressingMode::Implied, 1, 2, CycleRule::Fixed),
        0x39 => occupied(0x39, Instruction::AND, AddressingMode::AbsoluteY, 3, 4, CycleRule::AddOnCross),
        0x3D => occupied(0x3D, Instruction::AND, AddressingMode::AbsoluteX, 3, 4, CycleRule::AddOnCross),
        0x3E => occupied(0x3E, Instruction::ROL, AddressingMode::AbsoluteX, 3, 7, CycleRule::Fixed),
        0x40 => occupied(0x40, Instruction::RTI, AddressingMode::Implied, 1, 6, CycleRule::Fixed),
        0x41 => occupied(0x41, Instruction::EOR, AddressingMode::IndirectX, 2, 6, CycleRule::Fixed),
        0x45 => occupied(0x45, Instruction::EOR, AddressingMode::ZeroPage, 2, 3, CycleRule::Fixed),
        0x46 => occupied(0x46, Instruction::LSR, AddressingMode::ZeroPage, 2, 5, CycleRule::Fixed),
        0x48 => occupied(0x48, Instruction::PHA, AddressingMode::Implied, 1, 3, CycleRule::Fixed),
        0x49 => occupied(0x49, Instruction::EOR, AddressingMode::Immediate, 2, 2, CycleRule::Fixed),
        0x4A => occupied(0x4A, Instruction::LSR, AddressingMode::Implied, 1, 2, CycleRule::Fixed),
        0x4C => occupied(0x4C, Instruction::JMP, AddressingMode::Absolute, 3, 3, CycleRule::Fixed),
        0x4D => occupied(0x4D, Instruction::EOR, AddressingMode::Absolute, 3, 4, CycleRule::Fixed),
        0x4E => occupied(0x4E, Instruction::LSR, AddressingMode::Absolute, 3, 6, CycleRule::Fixed),
        0x50 => occupied(0x50, Instruction::BVC, AddressingMode::Relative, 2, 2, CycleRule::AddOneTwoIfBranch),
        0x51 => occupied(0x51, Instruction::EOR, AddressingMode::IndirectY, 2, 5, CycleRule::AddOnCross),
        0x55 => occupied(0x55, Instruction::EOR, AddressingMode::ZeroPageX, 2, 4, CycleRule::Fixed),
        0x56 => occupied(0x56, Instruction::LSR, AddressingMode::ZeroPageX, 2, 6, CycleRule::Fixed),
        0x58 => occupied(0x58, Instruction::CLI, AddressingMode::Implied, 1, 2, CycleRule::Fixed),
        0x59 => occupied(0x59, Instruction::EOR, AddressingMode::AbsoluteY, 3, 4, CycleRule::AddOnCross),
        0x5D => occupied(0x5D, Instruction::EOR, AddressingMode::AbsoluteX, 3, 4, CycleRule::AddOnCross),
        0x5E => occupied(0x5E, Instruction::LSR, AddressingMode::AbsoluteX, 3, 7, CycleRule::Fixed),
        0x60 => occupied(0x60, Instruction::RTS, AddressingMode::Implied, 1, 6, CycleRule::Fixed),
        0x61 => occupied(0x61, Instruction::ADC, AddressingMode::IndirectX, 2, 6, CycleRule::Fixed),
        0x65 => occupied(0x65, Instruction::ADC, AddressingMode::ZeroPage, 2, 3, CycleRule::Fixed),
        0x66 => occupied(0x66, Instruction::ROR, AddressingMode::ZeroPage, 2, 5, CycleRule::Fixed),
        0x68 => occupied(0x68, Instruction::PLA, AddressingMode::Implied, 1, 4, CycleRule::Fixed),
        0x69 => occupied(0x69, Instruction::ADC, AddressingMode::Immediate, 2, 2, CycleRule::Fixed),
        0x6A => occupied(0x6A, Instruction::ROR, AddressingMode::Implied, 1, 2, CycleRule::Fixed),
        0x6C => occupied(0x6C, Instruction::JMP, AddressingMode::Indirect, 3, 5, CycleRule::Fixed),
        0x6D => occupied(0x6D, Instruction::ADC, AddressingMode::Absolute, 3, 4, CycleRule::Fixed),
        0x6E => occupied(0x6E, Instruction::ROR, AddressingMode::Absolute, 3, 6, CycleRule::Fixed),
        0x70 => occupied(0x70, Instruction::BVS, AddressingMode::Relative, 2, 2, CycleRule::AddOneTwoIfBranch),
        0x71 => occupied(0x71, Instruction::ADC, AddressingMode::IndirectY, 2, 5, CycleRule::AddOnCross),
        0x75 => occupied(0x75, Instruction::ADC, AddressingMode::ZeroPageX, 2, 4, CycleRule::Fixed),
        0x76 => occupied(0x76, Instruction::ROR, AddressingMode::ZeroPageX, 2, 6, CycleRule::Fixed),
        0x78 => occupied(0x78, Instruction::SEI, AddressingMode::Implied, 1, 2, CycleRule::Fixed),
        0x79 => occupied(0x79, Instruction::ADC, AddressingMode::AbsoluteY, 3, 4, CycleRule::AddOnCross),
        0x7D => occupied(0x7D, Instruction::ADC, AddressingMode::AbsoluteX, 3, 4, CycleRule::AddOnCross),
        0x7E => occupied(0x7E, Instruction::ROR, AddressingMode::AbsoluteX, 3, 7, CycleRule::Fixed),
        0x81 => occupied(0x81, Instruction::STA, AddressingMode::IndirectX, 2, 6, CycleRule::Fixed),
        0x84 => occupied(0x84, Instruction::STY, AddressingMode::ZeroPage, 2, 3, CycleRule::Fixed),
        0x85 => occupied(0x85, Instruction::STA, AddressingMode::ZeroPage, 2, 3, CycleRule::Fixed),
        0x86 => occupied(0x86, Instruction::STX, AddressingMode::ZeroPage, 2, 3, CycleRule::Fixed),
        0x88 => occupied(0x88, Instruction::DEY, AddressingMode::Implied, 1, 2, CycleRule::Fixed),
        0x8A => occupied(0x8A, Instruction::TXA, AddressingMode::Implied, 1, 2, CycleRule::Fixed),
        0x8C => occupied(0x8C, Instruction::STY, AddressingMode::Absolute, 3, 4, CycleRule::Fixed),
        0x8D => occupied(0x8D, Instruction::STA, AddressingMode::Absolute, 3, 4, CycleRule::Fixed),
        0x8E => occupied(0x8E, Instruction::STX, AddressingMode::Absolute, 3, 4, CycleRule::Fixed),
        0x90 => occupied(0x90, Instruction::BCC, AddressingMode::Relative, 2, 2, CycleRule::AddOneTwoIfBranch),
        0x91 => occupied(0x91, Instruction::STA, AddressingMode::IndirectY, 2, 6, CycleRule::Fixed),
        0x94 => occupied(0x94, Instruction::STY, AddressingMode::ZeroPageX, 2, 4, CycleRule::Fixed),
        0x95 => occupied(0x95, Instruction::STA, AddressingMode::ZeroPageX, 2, 4, CycleRule::Fixed),
        0x96 => occupied(0x96, Instruction::STX, AddressingMode::ZeroPageY, 2, 4, CycleRule::Fixed),
        0x98 => occupied(0x98, Instruction::TYA, AddressingMode::Implied, 1, 2, CycleRule::Fixed),
        0x99 => occupied(0x99, Instruction::STA, AddressingMode::AbsoluteY, 3, 5, CycleRule::Fixed),
        0x9A => occupied(0x9A, Instruction::TXS, AddressingMode::Implied, 1, 2, CycleRule::Fixed),
        0x9D => occupied(0x9D, Instruction::STA, AddressingMode::AbsoluteX, 3, 5, CycleRule::Fixed),
        0xA0 => occupied(0xA0, Instruction::LDY, AddressingMode::Immediate, 2, 2, CycleRule::Fixed),
        0xA1 => occupied(0xA1, Instruction::LDA, AddressingMode::IndirectX, 2, 6, CycleRule::Fixed),
        0xA2 => occupied(0xA2, Instruction::LDX, AddressingMode::Immediate, 2, 2, CycleRule::Fixed),
        0xA4 => occupied(0xA4, Instruction::LDY, AddressingMode::ZeroPage, 2, 3, CycleRule::Fixed),
        0xA5 => occupied(0xA5, Instruction::LDA, AddressingMode::ZeroPage, 2, 3, CycleRule::Fixed),
        0xA6 => occupied(0xA6, Instruction::LDX, AddressingMode::ZeroPage, 2, 3, CycleRule::Fixed),
        0xA8 => occupied(0xA8, Instruction::TAY, AddressingMode::Implied, 1, 2, CycleRule::Fixed),
        0xA9 => occupied(0xA9, Instruction::LDA, AddressingMode::Immediate, 2, 2, CycleRule::Fixed),
        0xAA => occupied(0xAA, Instruction::TAX, AddressingMode::Implied, 1, 2, CycleRule::Fixed),
        0xAC => occupied(0xAC, Instruction::LDY, AddressingMode::Absolute, 3, 4, CycleRule::Fixed),
        0xAD => occupied(0xAD, Instruction::LDA, AddressingMode::Absolute, 3, 4, CycleRule::Fixed),
        0xAE => occupied(0xAE, Instruction::LDX, AddressingMode::Absolute, 3, 4, CycleRule::Fixed),
        0xB0 => occupied(0xB0, Instruction::BCS, AddressingMode::Relative, 2, 2, CycleRule::AddOneTwoIfBranch),
        0xB1 => occupied(0xB1, Instruction::LDA, AddressingMode::IndirectY, 2, 5, CycleRule::AddOnCross),
        0xB4 => occupied(0xB4, Instruction::LDY, AddressingMode::ZeroPageX, 2, 4, CycleRule::Fixed),
        0xB5 => occupied(0xB5, Instruction::LDA, AddressingMode::ZeroPageX, 2, 4, CycleRule::Fixed),
        0xB6 => occupied(0xB6, Instruction::LDX, AddressingMode::ZeroPageY, 2, 4, CycleRule::Fixed),
        0xB8 => occupied(0xB8, Instruction::CLV, AddressingMode::Implied, 1, 2, CycleRule::Fixed),
        0xB9 => occupied(0xB9, Instruction::LDA, AddressingMode::AbsoluteY, 3, 4, CycleRule::AddOnCross),
        0xBA => occupied(0xBA, Instruction::TSX, AddressingMode::Implied, 1, 2, CycleRule::Fixed),
        0xBC => occupied(0xBC, Instruction::LDY, AddressingMode::AbsoluteX, 3, 4, CycleRule::AddOnCross),
        0xBD => occupied(0xBD, Instruction::LDA, AddressingMode::AbsoluteX, 3, 4, CycleRule::AddOnCross),
        0xBE => occupied(0xBE, Instruction::LDX, AddressingMode::AbsoluteY, 3, 4, CycleRule::AddOnCross),
        0xC0 => occupied(0xC0, Instruction::CPY, AddressingMode::Immediate, 2, 2, CycleRule::Fixed),
        0xC1 => occupied(0xC1, Instruction::CMP, AddressingMode::IndirectX, 2, 6, CycleRule::Fixed),
        0xC4 => occupied(0xC4, Instruction::CPY, AddressingMode::ZeroPage, 2, 3, CycleRule::Fixed),
        0xC5 => occupied(0xC5, Instruction::CMP, AddressingMode::ZeroPage, 2, 3, CycleRule::Fixed),
        0xC6 => occupied(0xC6, Instruction::DEC, AddressingMode::ZeroPage, 2, 5, CycleRule::Fixed),
        0xC8 => occupied(0xC8, Instruction::INY, AddressingMode::Implied, 1, 2, CycleRule::Fixed),
        0xC9 => occupied(0xC9, Instruction::CMP, AddressingMode::Immediate, 2, 2, CycleRule::Fixed),
        0xCA => occupied(0xCA, Instruction::DEX, AddressingMode::Implied, 1, 2, CycleRule::Fixed),
        0xCC => occupied(0xCC, Instruction::CPY, AddressingMode::Absolute, 3, 4, CycleRule::Fixed),
        0xCD => occupied(0xCD, Instruction::CMP, AddressingMode::Absolute, 3, 4, CycleRule::Fixed),
        0xCE => occupied(0xCE, Instruction::DEC, AddressingMode::Absolute, 3, 6, CycleRule::Fixed),
        0xD0 => occupied(0xD0, Instruction::BNE, AddressingMode::Relative, 2, 2, CycleRule::AddOneTwoIfBranch),
        0xD1 => occupied(0xD1, Instruction::CMP, AddressingMode::IndirectY, 2, 5, CycleRule::AddOnCross),
        0xD5 => occupied(0xD5, Instruction::CMP, AddressingMode::ZeroPageX, 2, 4, CycleRule::Fixed),
        0xD6 => occupied(0xD6, Instruction::DEC, AddressingMode::ZeroPageX, 2, 6, CycleRule::Fixed),
        0xD8 => occupied(0xD8, Instruction::CLD, AddressingMode::Implied, 1, 2, CycleRule::Fixed),
        0xD9 => occupied(0xD9, Instruction::CMP, AddressingMode::AbsoluteY, 3, 4, CycleRule::AddOnCross),
        0xDD => occupied(0xDD, Instruction::CMP, AddressingMode::AbsoluteX, 3, 4, CycleRule::AddOnCross),
        0xDE => occupied(0xDE, Instruction::DEC, AddressingMode::AbsoluteX, 3, 7, CycleRule::Fixed),
        0xE0 => occupied(0xE0, Instruction::CPX, AddressingMode::Immediate, 2, 2, CycleRule::Fixed),
        0xE1 => occupied(0xE1, Instruction::SBC, AddressingMode::IndirectX, 2, 6, CycleRule::Fixed),
        0xE4 => occupied(0xE4, Instruction::CPX, AddressingMode::ZeroPage, 2, 3, CycleRule::Fixed),
        0xE5 => occupied(0xE5, Instruction::SBC, AddressingMode::ZeroPage, 2, 3, CycleRule::Fixed),
        0xE6 => occupied(0xE6, Instruction::INC, AddressingMode::ZeroPage, 2, 5, CycleRule::Fixed),
        0xE8 => occupied(0xE8, Instruction::INX, AddressingMode::Implied, 1, 2, CycleRule::Fixed),
        0xE9 => occupied(0xE9, Instruction::SBC, AddressingMode::Immediate, 2, 2, CycleRule::Fixed),
        0xEA => occupied(0xEA, Instruction::NOP, AddressingMode::Implied, 1, 2, CycleRule::Fixed),
        0xEC => occupied(0xEC, Instruction::CPX, AddressingMode::Absolute, 3, 4, CycleRule::Fixed),
        0xED => occupied(0xED, Instruction::SBC, AddressingMode::Absolute, 3, 4, CycleRule::Fixed),
        0xEE => occupied(0xEE, Instruction::INC, AddressingMode::Absolute, 3, 6, CycleRule::Fixed),
        0xF0 => occupied(0xF0, Instruction::BEQ, AddressingMode::Relative, 2, 2, CycleRule::AddOneTwoIfBranch),
        0xF1 => occupied(0xF1, Instruction::SBC, AddressingMode::IndirectY, 2, 5, CycleRule::AddOnCross),
        0xF5 => occupied(0xF5, Instruction::SBC, AddressingMode::ZeroPageX, 2, 4, CycleRule::Fixed),
        0xF6 => occupied(0xF6, Instruction::INC, AddressingMode::ZeroPageX, 2, 6, CycleRule::Fixed),
        0xF8 => occupied(0xF8, Instruction::SED, AddressingMode::Implied, 1, 2, CycleRule::Fixed),
        0xF9 => occupied(0xF9, Instruction::SBC, AddressingMode::AbsoluteY, 3, 4, CycleRule::AddOnCross),
        0xFD => occupied(0xFD, Instruction::SBC, AddressingMode::AbsoluteX, 3, 4, CycleRule::AddOnCross),
        0xFE => occupied(0xFE, Instruction::INC, AddressingMode::AbsoluteX, 3, 7, CycleRule::Fixed),
        _ => None,
    }
}

/// Decodes an opcode byte.
pub fn lookup(code: u8) -> (entry: Option<OpcodeEntry>)
    ensures
        entry == opcode_entry(code),
{
    match code {
        0x00 => Some(OpcodeEntry::new(0x00, Instruction::BRK, AddressingMode::Implied, 1, 7, CycleRule::Fixed)),
        0x01 => Some(OpcodeEntry::new(0x01, Instruction::ORA, AddressingMode::IndirectX, 2, 6, CycleRule::Fixed)),
        0x05 => Some(OpcodeEntry::new(0x05, Instruction::ORA, AddressingMode::ZeroPage, 2, 3, CycleRule::Fixed)),
        0x06 => Some(OpcodeEntry::new(0x06, Instruction::ASL, AddressingMode::ZeroPage, 2, 5, CycleRule::Fixed)),
        0x08 => Some(OpcodeEntry::new(0x08, Instruction::PHP, AddressingMode::Implied, 1, 3, CycleRule::Fixed)),
        0x09 => Some(OpcodeEntry::new(0x09, Instruction::ORA, AddressingMode::Immediate, 2, 2, CycleRule::Fixed)),
        0x0A => Some(OpcodeEntry::new(0x0A, Instruction::ASL, AddressingMode::Implied, 1, 2, CycleRule::Fixed)),
        0x0D => Some(OpcodeEntry::new(0x0D, Instruction::ORA, AddressingMode::Absolute, 3, 4, CycleRule::Fixed)),
        0x0E => Some(OpcodeEntry::new(0x0E, Instruction::ASL, AddressingMode::Absolute, 3, 6, CycleRule::Fixed)),
        0x10 => Some(OpcodeEntry::new(0x10, Instruction::BPL, AddressingMode::Relative, 2, 2, CycleRule::AddOneTwoIfBranch)),
        0x11 => Some(OpcodeEntry::new(0x11, Instruction::ORA, AddressingMode::IndirectY, 2, 5, CycleRule::AddOnCross)),
        0x15 => Some(OpcodeEntry::new(0x15, Instruction::ORA, AddressingMode::ZeroPageX, 2, 4, CycleRule::Fixed)),
        0x16 => Some(OpcodeEntry::new(0x16, Instruction::ASL, AddressingMode::ZeroPageX, 2, 6, CycleRule::Fixed)),
        0x18 => Some(OpcodeEntry::new(0x18, Instruction::CLC, AddressingMode::Implied, 1, 2, CycleRule::Fixed)),
        0x19 => Some(OpcodeEntry::new(0x19, Instruction::ORA, AddressingMode::AbsoluteY, 3, 4, CycleRule::AddOnCross)),
        0x1D => Some(OpcodeEntry::new(0x1D, Instruction::ORA, AddressingMode::AbsoluteX, 3, 4, CycleRule::AddOnCross)),
        0x1E => Some(OpcodeEntry::new(0x1E, Instruction::ASL, AddressingMode::AbsoluteX, 3, 7, CycleRule::Fixed)),
        0x20 => Some(OpcodeEntry::new(0x20, Instruction::JSR, AddressingMode::Absolute, 3, 6, CycleRule::Fixed)),
        0x21 => Some(OpcodeEntry::new(0x21, Instruction::AND, AddressingMode::IndirectX, 2, 6, CycleRule::Fixed)),
        0x24 => Some(OpcodeEntry::new(0x24, Instruction::BIT, AddressingMode::ZeroPage, 2, 3, CycleRule::Fixed)),
        0x25 => Some(OpcodeEntry::new(0x25, Instruction::AND, AddressingMode::ZeroPage, 2, 3, CycleRule::Fixed)),
        0x26 => Some(OpcodeEntry::new(0x26, Instruction::ROL, AddressingMode::ZeroPage, 2, 5, CycleRule::Fixed)),
        0x28 => Some(OpcodeEntry::new(0x28, Instruction::PLP, AddressingMode::Implied, 1, 4, CycleRule::Fixed)),
        0x29 => Some(OpcodeEntry::new(0x29, Instruction::AND, AddressingMode::Immediate, 2, 2, CycleRule::Fixed)),
        0x2A => Some(OpcodeEntry::new(0x2A, Instruction::ROL, AddressingMode::Implied, 1, 2, CycleRule::Fixed)),
        0x2C => Some(OpcodeEntry::new(0x2C, Instruction::BIT, AddressingMode::Absolute, 3, 4, CycleRule::Fixed)),
        0x2D => Some(OpcodeEntry::new(0x2D, Instruction::AND, AddressingMode::Absolute, 3, 4, CycleRule::Fixed)),
        0x2E => Some(OpcodeEntry::new(0x2E, Instruction::ROL, AddressingMode::Absolute, 3, 6, CycleRule::Fixed)),
        0x30 => Some(OpcodeEntry::new(0x30, Instruction::BMI, AddressingMode::Relative, 2, 2, CycleRule::AddOneTwoIfBranch)),
        0x31 => Some(OpcodeEntry::new(0x31, Instruction::AND, AddressingMode::IndirectY, 2, 5, CycleRule::AddOnCross)),
        0x35 => Some(OpcodeEntry::new(0x35, Instruction::AND, AddressingMode::ZeroPageX, 2, 4, CycleRule::Fixed)),
        0x36 => Some(OpcodeEntry::new(0x36, Instruction::ROL, AddressingMode::ZeroPageX, 2, 6, CycleRule::Fixed)),
        0x38 => Some(OpcodeEntry::new(0x38, Instruction::SEC, AddressingMode::Implied, 1, 2, CycleRule::Fixed)),
        0x39 => Some(OpcodeEntry::new(0x39, Instruction::AND, AddressingMode::AbsoluteY, 3, 4, CycleRule::AddOnCross)),
        0x3D => Some(OpcodeEntry::new(0x3D, Instruction::AND, AddressingMode::AbsoluteX, 3, 4, CycleRule::AddOnCross)),
        0x3E => Some(OpcodeEntry::new(0x3E, Instruction::ROL, AddressingMode::AbsoluteX, 3, 7, CycleRule::Fixed)),
        0x40 => Some(OpcodeEntry::new(0x40, Instruction::RTI, AddressingMode::Implied, 1, 6, CycleRule::Fixed)),
        0x41 => Some(OpcodeEntry::new(0x41, Instruction::EOR, AddressingMode::IndirectX, 2, 6, CycleRule::Fixed)),
        0x45 => Some(OpcodeEntry::new(0x45, Instruction::EOR, AddressingMode::ZeroPage, 2, 3, CycleRule::Fixed)),
        0x46 => Some(OpcodeEntry::new(0x46, Instruction::LSR, AddressingMode::ZeroPage, 2, 5, CycleRule::Fixed)),
        0x48 => Some(OpcodeEntry::new(0x48, Instruction::PHA, AddressingMode::Implied, 1, 3, CycleRule::Fixed)),
        0x49 => Some(OpcodeEntry::new(0x49, Instruction::EOR, AddressingMode::Immediate, 2, 2, CycleRule::Fixed)),
        0x4A => Some(OpcodeEntry::new(0x4A, Instruction::LSR, AddressingMode::Implied, 1, 2, CycleRule::Fixed)),
        0x4C => Some(OpcodeEntry::new(0x4C, Instruction::JMP, AddressingMode::Absolute, 3, 3, CycleRule::Fixed)),
        0x4D => Some(OpcodeEntry::new(0x4D, Instruction::EOR, AddressingMode::Absolute, 3, 4, CycleRule::Fixed)),
        0x4E => Some(OpcodeEntry::new(0x4E, Instruction::LSR, AddressingMode::Absolute, 3, 6, CycleRule::Fixed)),
        0x50 => Some(OpcodeEntry::new(0x50, Instruction::BVC, AddressingMode::Relative, 2, 2, CycleRule::AddOneTwoIfBranch)),
        0x51 => Some(OpcodeEntry::new(0x51, Instruction::EOR, AddressingMode::IndirectY, 2, 5, CycleRule::AddOnCross)),
        0x55 => Some(OpcodeEntry::new(0x55, Instruction::EOR, AddressingMode::ZeroPageX, 2, 4, CycleRule::Fixed)),
        0x56 => Some(OpcodeEntry::new(0x56, Instruction::LSR, AddressingMode::ZeroPageX, 2, 6, CycleRule::Fixed)),
        0x58 => Some(OpcodeEntry::new(0x58, Instruction::CLI, AddressingMode::Implied, 1, 2, CycleRule::Fixed)),
        0x59 => Some(OpcodeEntry::new(0x59, Instruction::EOR, AddressingMode::AbsoluteY, 3, 4, CycleRule::AddOnCross)),
        0x5D => Some(OpcodeEntry::new(0x5D, Instruction::EOR, AddressingMode::AbsoluteX, 3, 4, CycleRule::AddOnCross)),
        0x5E => Some(OpcodeEntry::new(0x5E, Instruction::LSR, AddressingMode::AbsoluteX, 3, 7, CycleRule::Fixed)),
        0x60 => Some(OpcodeEntry::new(0x60, Instruction::RTS, AddressingMode::Implied, 1, 6, CycleRule::Fixed)),
        0x61 => Some(OpcodeEntry::new(0x61, Instruction::ADC, AddressingMode::IndirectX, 2, 6, CycleRule::Fixed)),
        0x65 => Some(OpcodeEntry::new(0x65, Instruction::ADC, AddressingMode::ZeroPage, 2, 3, CycleRule::Fixed)),
        0x66 => Some(OpcodeEntry::new(0x66, Instruction::ROR, AddressingMode::ZeroPage, 2, 5, CycleRule::Fixed)),
        0x68 => Some(OpcodeEntry::new(0x68, Instruction::PLA, AddressingMode::Implied, 1, 4, CycleRule::Fixed)),
        0x69 => Some(OpcodeEntry::new(0x69, Instruction::ADC, AddressingMode::Immediate, 2, 2, CycleRule::Fixed)),
        0x6A => Some(OpcodeEntry::new(0x6A, Instruction::ROR, AddressingMode::Implied, 1, 2, CycleRule::Fixed)),
        0x6C => Some(OpcodeEntry::new(0x6C, Instruction::JMP, AddressingMode::Indirect, 3, 5, CycleRule::Fixed)),
        0x6D => Some(OpcodeEntry::new(0x6D, Instruction::ADC, AddressingMode::Absolute, 3, 4, CycleRule::Fixed)),
        0x6E => Some(OpcodeEntry::new(0x6E, Instruction::ROR, AddressingMode::Absolute, 3, 6, CycleRule::Fixed)),
        0x70 => Some(OpcodeEntry::new(0x70, Instruction::BVS, AddressingMode::Relative, 2, 2, CycleRule::AddOneTwoIfBranch)),
        0x71 => Some(OpcodeEntry::new(0x71, Instruction::ADC, AddressingMode::IndirectY, 2, 5, CycleRule::AddOnCross)),
        0x75 => Some(OpcodeEntry::new(0x75, Instruction::ADC, AddressingMode::ZeroPageX, 2, 4, CycleRule::Fixed)),
        0x76 => Some(OpcodeEntry::new(0x76, Instruction::ROR, AddressingMode::ZeroPageX, 2, 6, CycleRule::Fixed)),
        0x78 => Some(OpcodeEntry::new(0x78, Instruction::SEI, AddressingMode::Implied, 1, 2, CycleRule::Fixed)),
        0x79 => Some(OpcodeEntry::new(0x79, Instruction::ADC, AddressingMode::AbsoluteY, 3, 4, CycleRule::AddOnCross)),
        0x7D => Some(OpcodeEntry::new(0x7D, Instruction::ADC, AddressingMode::AbsoluteX, 3, 4, CycleRule::AddOnCross)),
        0x7E => Some(OpcodeEntry::new(0x7E, Instruction::ROR, AddressingMode::AbsoluteX, 3, 7, CycleRule::Fixed)),
        0x81 => Some(OpcodeEntry::new(0x81, Instruction::STA, AddressingMode::IndirectX, 2, 6, CycleRule::Fixed)),
        0x84 => Some(OpcodeEntry::new(0x84, Instruction::STY, AddressingMode::ZeroPage, 2, 3, CycleRule::Fixed)),
        0x85 => Some(OpcodeEntry::new(0x85, Instruction::STA, AddressingMode::ZeroPage, 2, 3, CycleRule::Fixed)),
        0x86 => Some(OpcodeEntry::new(0x86, Instruction::STX, AddressingMode::ZeroPage, 2, 3, CycleRule::Fixed)),
        0x88 => Some(OpcodeEntry::new(0x88, Instruction::DEY, AddressingMode::Implied, 1, 2, CycleRule::Fixed)),
        0x8A => Some(OpcodeEntry::new(0x8A, Instruction::TXA, AddressingMode::Implied, 1, 2, CycleRule::Fixed)),
        0x8C => Some(OpcodeEntry::new(0x8C, Instruction::STY, AddressingMode::Absolute, 3, 4, CycleRule::Fixed)),
        0x8D => Some(OpcodeEntry::new(0x8D, Instruction::STA, AddressingMode::Absolute, 3, 4, CycleRule::Fixed)),
        0x8E => Some(OpcodeEntry::new(0x8E, Instruction::STX, AddressingMode::Absolute, 3, 4, CycleRule::Fixed)),
        0x90 => Some(OpcodeEntry::new(0x90, Instruction::BCC, AddressingMode::Relative, 2, 2, CycleRule::AddOneTwoIfBranch)),
        0x91 => Some(OpcodeEntry::new(0x91, Instruction::STA, AddressingMode::IndirectY, 2, 6, CycleRule::Fixed)),
        0x94 => Some(OpcodeEntry::new(0x94, Instruction::STY, AddressingMode::ZeroPageX, 2, 4, CycleRule::Fixed)),
        0x95 => Some(OpcodeEntry::new(0x95, Instruction::STA, AddressingMode::ZeroPageX, 2, 4, CycleRule::Fixed)),
        0x96 => Some(OpcodeEntry::new(0x96, Instruction::STX, AddressingMode::ZeroPageY, 2, 4, CycleRule::Fixed)),
        0x98 => Some(OpcodeEntry::new(0x98, Instruction::TYA, AddressingMode::Implied, 1, 2, CycleRule::Fixed)),
        0x99 => Some(OpcodeEntry::new(0x99, Instruction::STA, AddressingMode::AbsoluteY, 3, 5, CycleRule::Fixed)),
        0x9A => Some(OpcodeEntry::new(0x9A, Instruction::TXS, AddressingMode::Implied, 1, 2, CycleRule::Fixed)),
        0x9D => Some(OpcodeEntry::new(0x9D, Instruction::STA, AddressingMode::AbsoluteX, 3, 5, CycleRule::Fixed)),
        0xA0 => Some(OpcodeEntry::new(0xA0, Instruction::LDY, AddressingMode::Immediate, 2, 2, CycleRule::Fixed)),
        0xA1 => Some(OpcodeEntry::new(0xA1, Instruction::LDA, AddressingMode::IndirectX, 2, 6, CycleRule::Fixed)),
        0xA2 => Some(OpcodeEntry::new(0xA2, Instruction::LDX, AddressingMode::Immediate, 2, 2, CycleRule::Fixed)),
        0xA4 => Some(OpcodeEntry::new(0xA4, Instruction::LDY, AddressingMode::ZeroPage, 2, 3, CycleRule::Fixed)),
        0xA5 => Some(OpcodeEntry::new(0xA5, Instruction::LDA, AddressingMode::ZeroPage, 2, 3, CycleRule::Fixed)),
        0xA6 => Some(OpcodeEntry::new(0xA6, Instruction::LDX, AddressingMode::ZeroPage, 2, 3, CycleRule::Fixed)),
        0xA8 => Some(OpcodeEntry::new(0xA8, Instruction::TAY, AddressingMode::Implied, 1, 2, CycleRule::Fixed)),
        0xA9 => Some(OpcodeEntry::new(0xA9, Instruction::LDA, AddressingMode::Immediate, 2, 2, CycleRule::Fixed)),
        0xAA => Some(OpcodeEntry::new(0xAA, Instruction::TAX, AddressingMode::Implied, 1, 2, CycleRule::Fixed)),
        0xAC => Some(OpcodeEntry::new(0xAC, Instruction::LDY, AddressingMode::Absolute, 3, 4, CycleRule::Fixed)),
        0xAD => Some(OpcodeEntry::new(0xAD, Instruction::LDA, AddressingMode::Absolute, 3, 4, CycleRule::Fixed)),
        0xAE => Some(OpcodeEntry::new(0xAE, Instruction::LDX, AddressingMode::Absolute, 3, 4, CycleRule::Fixed)),
        0xB0 => Some(OpcodeEntry::new(0xB0, Instruction::BCS, AddressingMode::Relative, 2, 2, CycleRule::AddOneTwoIfBranch)),
        0xB1 => Some(OpcodeEntry::new(0xB1, Instruction::LDA, AddressingMode::IndirectY, 2, 5, CycleRule::AddOnCross)),
        0xB4 => Some(OpcodeEntry::new(0xB4, Instruction::LDY, AddressingMode::ZeroPageX, 2, 4, CycleRule::Fixed)),
        0xB5 => Some(OpcodeEntry::new(0xB5, Instruction::LDA, AddressingMode::ZeroPageX, 2, 4, CycleRule::Fixed)),
        0xB6 => Some(OpcodeEntry::new(0xB6, Instruction::LDX, AddressingMode::ZeroPageY, 2, 4, CycleRule::Fixed)),
        0xB8 => Some(OpcodeEntry::new(0xB8, Instruction::CLV, AddressingMode::Implied, 1, 2, CycleRule::Fixed)),
        0xB9 => Some(OpcodeEntry::new(0xB9, Instruction::LDA, AddressingMode::AbsoluteY, 3, 4, CycleRule::AddOnCross)),
        0xBA => Some(OpcodeEntry::new(0xBA, Instruction::TSX, AddressingMode::Implied, 1, 2, CycleRule::Fixed)),
        0xBC => Some(OpcodeEntry::new(0xBC, Instruction::LDY, AddressingMode::AbsoluteX, 3, 4, CycleRule::AddOnCross)),
        0xBD => Some(OpcodeEntry::new(0xBD, Instruction::LDA, AddressingMode::AbsoluteX, 3, 4, CycleRule::AddOnCross)),
        0xBE => Some(OpcodeEntry::new(0xBE, Instruction::LDX, AddressingMode::AbsoluteY, 3, 4, CycleRule::AddOnCross)),
        0xC0 => Some(OpcodeEntry::new(0xC0, Instruction::CPY, AddressingMode::Immediate, 2, 2, CycleRule::Fixed)),
        0xC1 => Some(OpcodeEntry::new(0xC1, Instruction::CMP, AddressingMode::IndirectX, 2, 6, CycleRule::Fixed)),
        0xC4 => Some(OpcodeEntry::new(0xC4, Instruction::CPY, AddressingMode::ZeroPage, 2, 3, CycleRule::Fixed)),
        0xC5 => Some(OpcodeEntry::new(0xC5, Instruction::CMP, AddressingMode::ZeroPage, 2, 3, CycleRule::Fixed)),
        0xC6 => Some(OpcodeEntry::new(0xC6, Instruction::DEC, AddressingMode::ZeroPage, 2, 5, CycleRule::Fixed)),
        0xC8 => Some(OpcodeEntry::new(0xC8, Instruction::INY, AddressingMode::Implied, 1, 2, CycleRule::Fixed)),
        0xC9 => Some(OpcodeEntry::new(0xC9, Instruction::CMP, AddressingMode::Immediate, 2, 2, CycleRule::Fixed)),
        0xCA => Some(OpcodeEntry::new(0xCA, Instruction::DEX, AddressingMode::Implied, 1, 2, CycleRule::Fixed)),
        0xCC => Some(OpcodeEntry::new(0xCC, Instruction::CPY, AddressingMode::Absolute, 3, 4, CycleRule::Fixed)),
        0xCD => Some(OpcodeEntry::new(0xCD, Instruction::CMP, AddressingMode::Absolute, 3, 4, CycleRule::Fixed)),
        0xCE => Some(OpcodeEntry::new(0xCE, Instruction::DEC, AddressingMode::Absolute, 3, 6, CycleRule::Fixed)),
        0xD0 => Some(OpcodeEntry::new(0xD0, Instruction::BNE, AddressingMode::Relative, 2, 2, CycleRule::AddOneTwoIfBranch)),
        0xD1 => Some(OpcodeEntry::new(0xD1, Instruction::CMP, AddressingMode::IndirectY, 2, 5, CycleRule::AddOnCross)),
        0xD5 => Some(OpcodeEntry::new(0xD5, Instruction::CMP, AddressingMode::ZeroPageX, 2, 4, CycleRule::Fixed)),
        0xD6 => Some(OpcodeEntry::new(0xD6, Instruction::DEC, AddressingMode::ZeroPageX, 2, 6, CycleRule::Fixed)),
        0xD8 => Some(OpcodeEntry::new(0xD8, Instruction::CLD, AddressingMode::Implied, 1, 2, CycleRule::Fixed)),
        0xD9 => Some(OpcodeEntry::new(0xD9, Instruction::CMP, AddressingMode::AbsoluteY, 3, 4, CycleRule::AddOnCross)),
        0xDD => Some(OpcodeEntry::new(0xDD, Instruction::CMP, AddressingMode::AbsoluteX, 3, 4, CycleRule::AddOnCross)),
        0xDE => Some(OpcodeEntry::new(0xDE, Instruction::DEC, AddressingMode::AbsoluteX, 3, 7, CycleRule::Fixed)),
        0xE0 => Some(OpcodeEntry::new(0xE0, Instruction::CPX, AddressingMode::Immediate, 2, 2, CycleRule::Fixed)),
        0xE1 => Some(OpcodeEntry::new(0xE1, Instruction::SBC, AddressingMode::IndirectX, 2, 6, CycleRule::Fixed)),
        0xE4 => Some(OpcodeEntry::new(0xE4, Instruction::CPX, AddressingMode::ZeroPage, 2, 3, CycleRule::Fixed)),
        0xE5 => Some(OpcodeEntry::new(0xE5, Instruction::SBC, AddressingMode::ZeroPage, 2, 3, CycleRule::Fixed)),
        0xE6 => Some(OpcodeEntry::new(0xE6, Instruction::INC, AddressingMode::ZeroPage, 2, 5, CycleRule::Fixed)),
        0xE8 => Some(OpcodeEntry::new(0xE8, Instruction::INX, AddressingMode::Implied, 1, 2, CycleRule::Fixed)),
        0xE9 => Some(OpcodeEntry::new(0xE9, Instruction::SBC, AddressingMode::Immediate, 2, 2, CycleRule::Fixed)),
        0xEA => Some(OpcodeEntry::new(0xEA, Instruction::NOP, AddressingMode::Implied, 1, 2, CycleRule::Fixed)),
        0xEC => Some(OpcodeEntry::new(0xEC, Instruction::CPX, AddressingMode::Absolute, 3, 4, CycleRule::Fixed)),
        0xED => Some(OpcodeEntry::new(0xED, Instruction::SBC, AddressingMode::Absolute, 3, 4, CycleRule::Fixed)),
        0xEE => Some(OpcodeEntry::new(0xEE, Instruction::INC, AddressingMode::Absolute, 3, 6, CycleRule::Fixed)),
        0xF0 => Some(OpcodeEntry::new(0xF0, Instruction::BEQ, AddressingMode::Relative, 2, 2, CycleRule::AddOneTwoIfBranch)),
        0xF1 => Some(OpcodeEntry::new(0xF1, Instruction::SBC, AddressingMode::IndirectY, 2, 5, CycleRule::AddOnCross)),
        0xF5 => Some(OpcodeEntry::new(0xF5, Instruction::SBC, AddressingMode::ZeroPageX, 2, 4, CycleRule::Fixed)),
        0xF6 => Some(OpcodeEntry::new(0xF6, Instruction::INC, AddressingMode::ZeroPageX, 2, 6, CycleRule::Fixed)),
        0xF8 => Some(OpcodeEntry::new(0xF8, Instruction::SED, AddressingMode::Implied, 1, 2, CycleRule::Fixed)),
        0xF9 => Some(OpcodeEntry::new(0xF9, Instruction::SBC, AddressingMode::AbsoluteY, 3, 4, CycleRule::AddOnCross)),
        0xFD => Some(OpcodeEntry::new(0xFD, Instruction::SBC, AddressingMode::AbsoluteX, 3, 4, CycleRule::AddOnCross)),
        0xFE => Some(OpcodeEntry::new(0xFE, Instruction::INC, AddressingMode::AbsoluteX, 3, 7, CycleRule::Fixed)),
        _ => None,
    }
}

/// Builds the opcode table as a dense array of 256 places, one for each
/// opcode byte in order; the place of an undefined opcode is empty.
pub fn opcode_table() -> (table: Vec<Option<OpcodeEntry>>)
    ensures
        table@.len() == 256,
        forall|code: u8| #[trigger] table@[code as int] == opcode_entry(code),
{
    let mut table: Vec<Option<OpcodeEntry>> = Vec::new();
    let mut code: u8 = 0;
    while code < 255
        invariant
            table@.len() == code,
            forall|c: u8| c < code ==> #[trigger] table@[c as int] == opcode_entry(c),
        decreases 255 - code,
    {
        table.push(lookup(code));
        code += 1;
    }
    table.push(lookup(255));
    table
}

/// An occupied entry records its own opcode, is as long as the opcode and the
/// operand bytes of its addressing mode together, and takes between two and
/// seven cycles.
pub proof fn lemma_entry_shape(code: u8)
    ensures
        match opcode_entry(code) {
            Some(entry) => {
                &&& entry.code == code
                &&& entry.bytes == 1 + entry.addressing_mode.operand_len()
                &&& 2 <= entry.cycles <= 7
            },
            None => true,
        },
{
    if code < 0x20 {
    } else if code < 0x40 {
    } else if code < 0x60 {
    } else if code < 0x80 {
    } else if code < 0xA0 {
    } else if code < 0xC0 {
    } else if code < 0xE0 {
    } else {
    }
}

/// No two occupied entries of the table share an opcode.
pub proof fn lemma_entries_distinct(first: u8, second: u8)
    requires
        opcode_entry(first) is Some,
        opcode_entry(second) is Some,
        first != second,
    ensures
        opcode_entry(first).unwrap().code != opcode_entry(second).unwrap().code,
{
    lemma_entry_shape(first);
    lemma_entry_shape(second);
}

/// The lowest opcode that decodes to `instruction`.
pub open spec fn lowest_opcode(instruction: Instruction) -> u8 {
    match instruction {
        Instruction::ADC => 0x61,
        Instruction::AND => 0x21,
        Instruction::ASL => 0x06,
        Instruction::BCC => 0x90,
        Instruction::BCS => 0xB0,
        Instruction::BEQ => 0xF0,
        Instruction::BIT => 0x24,
        Instruction::BMI => 0x30,
        Instruction::BNE => 0xD0,
        Instruction::BPL => 0x10,
        Instruction::BRK => 0x00,
        Instruction::BVC => 0x50,
        Instruction::BVS => 0x70,
        Instruction::CLC => 0x18,
        Instruction::CLD => 0xD8,
        Instruction::CLI => 0x58,
        Instruction::CLV => 0xB8,
        Instruction::CMP => 0xC1,
        Instruction::CPX => 0xE0,
        Instruction::CPY => 0xC0,
        Instruction::DEC => 0xC6,
        Instruction::DEX => 0xCA,
        Instruction::DEY => 0x88,
        Instruction::EOR => 0x41,
        Instruction::INC => 0xE6,
        Instruction::INX => 0xE8,
        Instruction::INY => 0xC8,
        Instruction::JMP => 0x4C,
        Instruction::JSR => 0x20,
        Instruction::LDA => 0xA1,
        Instruction::LDX => 0xA2,
        Instruction::LDY => 0xA0,
        Instruction::LSR => 0x46,
        Instruction::NOP => 0xEA,
        Instruction::ORA => 0x01,
        Instruction::PHA => 0x48,
        Instruction::PHP => 0x08,
        Instruction::PLA => 0x68,
        Instruction::PLP => 0x28,
        Instruction::ROL => 0x26,
        Instruction::ROR => 0x66,
        Instruction::RTI => 0x40,
        Instruction::RTS => 0x60,
        Instruction::SBC => 0xE1,
        Instruction::SEC => 0x38,
        Instruction::SED => 0xF8,
        Instruction::SEI => 0x78,
        Instruction::STA => 0x81,
        Instruction::STX => 0x86,
        Instruction::STY => 0x84,
        Instruction::TAX => 0xAA,
        Instruction::TAY => 0xA8,
        Instruction::TSX => 0xBA,
        Instruction::TXA => 0x8A,
        Instruction::TXS => 0x9A,
        Instruction::TYA => 0x98,
    }
}

/// Every mnemonic is reachable: at least one opcode decodes to it.
pub proof fn lemma_mnemonic_reachable(instruction: Instruction)
    ensures
        opcode_entry(lowest_opcode(instruction)) is Some,
        opcode_entry(lowest_opcode(instruction)).unwrap().instruction == instruction,
        exists|code: u8|
            opcode_entry(code) is Some && (#[trigger] opcode_entry(code)).unwrap().instruction
                == instruction,
{
}

} // verus!
