use vstd::prelude::*;

verus! {

/// The 56 mnemonics of the processor.
#[derive(Copy, Clone, Debug, PartialEq, Eq, Structural)]
pub enum Instruction {
    /// Add with carry
    ADC,
    /// And (with accumulator)
    AND,
    /// Arithmetic shift left
    ASL,
    /// Branch on carry clear
    BCC,
    /// Branch on carry set
    BCS,
    /// Branch on equal (zero set)
    BEQ,
    /// Bit test
    BIT,
    /// Branch on minus (negative set)
    BMI,
    /// Branch on not equal (zero clear)
    BNE,
    /// Branch on plus (negative clear)
    BPL,
    /// Break / interrupt
    BRK,
    /// Branch on overflow clear
    BVC,
    /// Branch on overflow set
    BVS,
    /// Clear carry
    CLC,
    /// Clear decimal
    CLD,
    /// Clear interrupt disable
    CLI,
    /// Clear overflow
    CLV,
    /// Compare (with accumulator)
    CMP,
    /// Compare with x
    CPX,
    /// Compare with y
    CPY,
    /// Decrement
    DEC,
    /// Decrement x
    DEX,
    /// Decrement y
    DEY,
    /// Exclusive or (with accumulator)
    EOR,
    /// Increment
    INC,
    /// Increment x
    INX,
    /// Increment y
    INY,
    /// Jump
    JMP,
    /// Jump subroutine
    JSR,
    /// Load accumulator
    LDA,
    /// Load x
    LDX,
    /// Load y
    LDY,
    /// Logical shift right
    LSR,
    /// No operation
    NOP,
    /// Or with accumulator
    ORA,
    /// Push accumulator
    PHA,
    /// Push processor status (sr)
    PHP,
    /// Pull accumulator
    PLA,
    /// Pull processor status (sr)
    PLP,
    /// Rotate left
    ROL,
    /// Rotate right
    ROR,
    /// Return from interrupt
    RTI,
    /// Return from subroutine
    RTS,
    /// Subtract with carry
    SBC,
    /// Set carry
    SEC,
    /// Set decimal
    SED,
    /// Set interrupt disable
    SEI,
    /// Store accumulator
    STA,
    /// Store x
    STX,
    /// Store y
    STY,
    /// Transfer accumulator to x
    TAX,
    /// Transfer accumulator to y
    TAY,
    /// Transfer stack pointer to x
    TSX,
    /// Transfer x to accumulator
    TXA,
    /// Transfer x to stack pointer
    TXS,
    /// Transfer y to accumulator
    TYA,
}

impl Instruction {
    /// The words that describe the mnemonic.
    pub open spec fn description_text(self) -> Seq<char> {
        match self {
            Instruction::ADC => "Add with carry"@,
            Instruction::AND => "And (with accumulator)"@,
            Instruction::ASL => "Arithmetic shift left"@,
            Instruction::BCC => "Branch on carry clear"@,
            Instruction::BCS => "Branch on carry set"@,
            Instruction::BEQ => "Branch on equal (zero set)"@,
            Instruction::BIT => "Bit test"@,
            Instruction::BMI => "Branch on minus (negative set)"@,
            Instruction::BNE => "Branch on not equal (zero clear)"@,
            Instruction::BPL => "Branch on plus (negative clear)"@,
            Instruction::BRK => "Break / interrupt"@,
            Instruction::BVC => "Branch on overflow clear"@,
            Instruction::BVS => "Branch on overflow set"@,
            Instruction::CLC => "Clear carry"@,
            Instruction::CLD => "Clear decimal"@,
            Instruction::CLI => "Clear interrupt disable"@,
            Instruction::CLV => "Clear overflow"@,
            Instruction::CMP => "Compare (with accumulator)"@,
            Instruction::CPX => "Compare with x"@,
            Instruction::CPY => "Compare with y"@,
            Instruction::DEC => "Decrement"@,
            Instruction::DEX => "Decrement x"@,
            Instruction::DEY => "Decrement y"@,
            Instruction::EOR => "Exclusive or (with accumulator)"@,
            Instruction::INC => "Increment"@,
            Instruction::INX => "Increment x"@,
            Instruction::INY => "Increment y"@,
            Instruction::JMP => "Jump"@,
            Instruction::JSR => "Jump subroutine"@,
            Instruction::LDA => "Load accumulator"@,
            Instruction::LDX => "Load x"@,
            Instruction::LDY => "Load y"@,
            Instruction::LSR => "Logical shift right"@,
            Instruction::NOP => "No operation"@,
            Instruction::ORA => "Or with accumulator"@,
            Instruction::PHA => "Push accumulator"@,
            Instruction::PHP => "Push processor status (sr)"@,
            Instruction::PLA => "Pull accumulator"@,
            Instruction::PLP => "Pull processor status (sr)"@,
            Instruction::ROL => "Rotate left"@,
            Instruction::ROR => "Rotate right"@,
            Instruction::RTI => "Return from interrupt"@,
            Instruction::RTS => "Return from subroutine"@,
            Instruction::SBC => "Subtract with carry"@,
            Instruction::SEC => "Set carry"@,
            Instruction::SED => "Set decimal"@,
            Instruction::SEI => "Set interrupt disable"@,
            Instruction::STA => "Store accumulator"@,
            Instruction::STX => "Store x"@,
            Instruction::STY => "Store y"@,
            Instruction::TAX => "Transfer accumulator to x"@,
            Instruction::TAY => "Transfer accumulator to y"@,
            Instruction::TSX => "Transfer stack pointer to x"@,
            Instruction::TXA => "Transfer x to accumulator"@,
            Instruction::TXS => "Transfer x to stack pointer"@,
            Instruction::TYA => "Transfer y to accumulator"@,
        }
    }

    /// The mnemonic in words, as a reference card gives it.
    pub fn description(&self) -> (text: &'static str)
        ensures
            text@ == self.description_text(),
    {
        match self {
            Instruction::ADC => "Add with carry",
            Instruction::AND => "And (with accumulator)",
            Instruction::ASL => "Arithmetic shift left",
            Instruction::BCC => "Branch on carry clear",
            Instruction::BCS => "Branch on carry set",
            Instruction::BEQ => "Branch on equal (zero set)",
            Instruction::BIT => "Bit test",
            Instruction::BMI => "Branch on minus (negative set)",
            Instruction::BNE => "Branch on not equal (zero clear)",
            Instruction::BPL => "Branch on plus (negative clear)",
            Instruction::BRK => "Break / interrupt",
            Instruction::BVC => "Branch on overflow clear",
            Instruction::BVS => "Branch on overflow set",
            Instruction::CLC => "Clear carry",
            Instruction::CLD => "Clear decimal",
            Instruction::CLI => "Clear interrupt disable",
            Instruction::CLV => "Clear overflow",
            Instruction::CMP => "Compare (with accumulator)",
            Instruction::CPX => "Compare with x",
            Instruction::CPY => "Compare with y",
            Instruction::DEC => "Decrement",
            Instruction::DEX => "Decrement x",
            Instruction::DEY => "Decrement y",
            Instruction::EOR => "Exclusive or (with accumulator)",
            Instruction::INC => "Increment",
            Instruction::INX => "Increment x",
            Instruction::INY => "Increment y",
            Instruction::JMP => "Jump",
            Instruction::JSR => "Jump subroutine",
            Instruction::LDA => "Load accumulator",
            Instruction::LDX => "Load x",
            Instruction::LDY => "Load y",
            Instruction::LSR => "Logical shift right",
            Instruction::NOP => "No operation",
            Instruction::ORA => "Or with accumulator",
            Instruction::PHA => "Push accumulator",
            Instruction::PHP => "Push processor status (sr)",
            Instruction::PLA => "Pull accumulator",
            Instruction::PLP => "Pull processor status (sr)",
            Instruction::ROL => "Rotate left",
            Instruction::ROR => "Rotate right",
            Instruction::RTI => "Return from interrupt",
            Instruction::RTS => "Return from subroutine",
            Instruction::SBC => "Subtract with carry",
            Instruction::SEC => "Set carry",
            Instruction::SED => "Set decimal",
            Instruction::SEI => "Set interrupt disable",
            Instruction::STA => "Store accumulator",
            Instruction::STX => "Store x",
            Instruction::STY => "Store y",
            Instruction::TAX => "Transfer accumulator to x",
            Instruction::TAY => "Transfer accumulator to y",
            Instruction::TSX => "Transfer stack pointer to x",
            Instruction::TXA => "Transfer x to accumulator",
            Instruction::TXS => "Transfer x to stack pointer",
            Instruction::TYA => "Transfer y to accumulator",
        }
    }
}

} // verus!
