//! The instruction set as data: mnemonics, addressing modes, and the table
//! that maps each official opcode byte to its instruction.

use vstd::prelude::*;

verus! {

/// How an instruction finds its operand.
#[allow(non_camel_case_types)]
#[derive(Clone, Copy, Debug, PartialEq, Eq, Structural)]
pub enum AddressingMode {
    /// The operand is the byte after the opcode.
    Immediate,
    /// The byte after the opcode is an address in page zero.
    ZeroPage,
    /// Page zero, indexed by X and wrapping inside the page.
    ZeroPage_X,
    /// Page zero, indexed by Y and wrapping inside the page.
    ZeroPage_Y,
    /// The two bytes after the opcode are the address.
    Absolute,
    /// Absolute, indexed by X.
    Absolute_X,
    /// Absolute, indexed by Y.
    Absolute_Y,
    /// The two bytes after the opcode point at the address (`JMP` only).
    Indirect,
    /// The page-zero byte indexed by X points at the address.
    Indirect_X,
    /// The page-zero byte points at a base address, which Y indexes.
    Indirect_Y,
    /// No operand, or the accumulator.
    NoneAddressing,
    /// The byte after the opcode is a signed displacement (branches).
    Relative,
}

/// The 56 official instructions.
#[derive(Clone, Copy, Debug, PartialEq, Eq, Structural)]
pub enum Mnemonic {
    /// Add memory and carry to the accumulator.
    ADC,
    /// Bitwise AND of memory into the accumulator.
    AND,
    /// Shift left by one bit.
    ASL,
    /// Branch if carry is clear.
    BCC,
    /// Branch if carry is set.
    BCS,
    /// Branch if zero is set.
    BEQ,
    /// Test memory bits against the accumulator.
    BIT,
    /// Branch if negative is set.
    BMI,
    /// Branch if zero is clear.
    BNE,
    /// Branch if negative is clear.
    BPL,
    /// Software interrupt.
    BRK,
    /// Branch if overflow is clear.
    BVC,
    /// Branch if overflow is set.
    BVS,
    /// Clear carry.
    CLC,
    /// Clear decimal mode.
    CLD,
    /// Clear interrupt disable.
    CLI,
    /// Clear overflow.
    CLV,
    /// Compare memory with the accumulator.
    CMP,
    /// Compare memory with X.
    CPX,
    /// Compare memory with Y.
    CPY,
    /// Decrement memory.
    DEC,
    /// Decrement X.
    DEX,
    /// Decrement Y.
    DEY,
    /// Bitwise exclusive OR of memory into the accumulator.
    EOR,
    /// Increment memory.
    INC,
    /// Increment X.
    INX,
    /// Increment Y.
    INY,
    /// Jump.
    JMP,
    /// Jump to subroutine.
    JSR,
    /// Load the accumulator.
    LDA,
    /// Load X.
    LDX,
    /// Load Y.
    LDY,
    /// Shift right by one bit.
    LSR,
    /// Do nothing.
    NOP,
    /// Bitwise OR of memory into the accumulator.
    ORA,
    /// Push the accumulator.
    PHA,
    /// Push the status register.
    PHP,
    /// Pull the accumulator.
    PLA,
    /// Pull the status register.
    PLP,
    /// Rotate left through carry.
    ROL,
    /// Rotate right through carry.
    ROR,
    /// Return from interrupt.
    RTI,
    /// Return from subroutine.
    RTS,
    /// Subtract memory and borrow from the accumulator.
    SBC,
    /// Set carry.
    SEC,
    /// Set decimal mode.
    SED,
    /// Set interrupt disable.
    SEI,
    /// Store the accumulator.
    STA,
    /// Store X.
    STX,
    /// Store Y.
    STY,
    /// Transfer the accumulator to X.
    TAX,
    /// Transfer the accumulator to Y.
    TAY,
    /// Transfer the stack pointer to X.
    TSX,
    /// Transfer X to the accumulator.
    TXA,
    /// Transfer X to the stack pointer.
    TXS,
    /// Transfer Y to the accumulator.
    TYA,
}

/// One row of the opcode table.
#[derive(Clone, Copy, Debug, PartialEq, Eq, Structural)]
pub struct OpCode {
    pub mnemonic: Mnemonic,
    /// Length of the whole instruction in bytes.
    pub op_length: u8,
    /// Cycles the instruction takes before penalties.
    pub cycles: u8,
    pub mode: AddressingMode,
}

/// Number of bytes an operand takes in each addressing mode.
pub open spec fn operand_size(mode: AddressingMode) -> int {
    match mode {
        AddressingMode::NoneAddressing => 0,
        AddressingMode::Absolute
        | AddressingMode::Absolute_X
        | AddressingMode::Absolute_Y
        | AddressingMode::Indirect => 2,
        _ => 1,
    }
}

/// A table row.
pub open spec fn row(mnemonic: Mnemonic, op_length: u8, cycles: u8, mode: AddressingMode) -> Option<
    OpCode,
> {
    Some(OpCode { mnemonic, op_length, cycles, mode })
}

/// The opcode table: the instruction behind each official opcode byte, and
/// nothing for every other byte.
pub open spec fn opcode_entry(code: u8) -> Option<OpCode> {
    match code {
        0x00 => row(Mnemonic::BRK, 1, 7, AddressingMode::NoneAddressing),
        0x01 => row(Mnemonic::ORA, 2, 6, AddressingMode::Indirect_X),
        0x05 => row(Mnemonic::ORA, 2, 3, AddressingMode::ZeroPage),
        0x06 => row(Mnemonic::ASL, 2, 5, AddressingMode::ZeroPage),
        0x08 => row(Mnemonic::PHP, 1, 3, AddressingMode::NoneAddressing),
        0x09 => row(Mnemonic::ORA, 2, 2, AddressingMode::Immediate),
        0x0a => row(Mnemonic::ASL, 1, 2, AddressingMode::NoneAddressing),
        0x0d => row(Mnemonic::ORA, 3, 4, AddressingMode::Absolute),
        0x0e => row(Mnemonic::ASL, 3, 6, AddressingMode::Absolute),
        0x10 => row(Mnemonic::BPL, 2, 2, AddressingMode::Relative),
        0x11 => row(Mnemonic::ORA, 2, 5, AddressingMode::Indirect_Y),
        0x15 => row(Mnemonic::ORA, 2, 4, AddressingMode::ZeroPage_X),
        0x16 => row(Mnemonic::ASL, 2, 6, AddressingMode::ZeroPage_X),
        0x18 => row(Mnemonic::CLC, 1, 2, AddressingMode::NoneAddressing),
        0x19 => row(Mnemonic::ORA, 3, 4, AddressingMode::Absolute_Y),
        0x1d => row(Mnemonic::ORA, 3, 4, AddressingMode::Absolute_X),
        0x1e => row(Mnemonic::ASL, 3, 7, AddressingMode::Absolute_X),
        0x20 => row(Mnemonic::JSR, 3, 6, AddressingMode::Absolute),
        0x21 => row(Mnemonic::AND, 2, 6, AddressingMode::Indirect_X),
        0x24 => row(Mnemonic::BIT, 2, 3, AddressingMode::ZeroPage),
        0x25 => row(Mnemonic::AND, 2, 3, AddressingMode::ZeroPage),
        0x26 => row(Mnemonic::ROL, 2, 5, AddressingMode::ZeroPage),
        0x28 => row(Mnemonic::PLP, 1, 4, AddressingMode::NoneAddressing),
        0x29 => row(Mnemonic::AND, 2, 2, AddressingMode::Immediate),
        0x2a => row(Mnemonic::ROL, 1, 2, AddressingMode::NoneAddressing),
        0x2c => row(Mnemonic::BIT, 3, 4, AddressingMode::Absolute),
        0x2d => row(Mnemonic::AND, 3, 4, AddressingMode::Absolute),
        0x2e => row(Mnemonic::ROL, 3, 6, AddressingMode::Absolute),
        0x30 => row(Mnemonic::BMI, 2, 2, AddressingMode::Relative),
        0x31 => row(Mnemonic::AND, 2, 5, AddressingMode::Indirect_Y),
        0x35 => row(Mnemonic::AND, 2, 4, AddressingMode::ZeroPage_X),
        0x36 => row(Mnemonic::ROL, 2, 6, AddressingMode::ZeroPage_X),
        0x38 => row(Mnemonic::SEC, 1, 2, AddressingMode::NoneAddressing),
        0x39 => row(Mnemonic::AND, 3, 4, AddressingMode::Absolute_Y),
        0x3d => row(Mnemonic::AND, 3, 4, AddressingMode::Absolute_X),
        0x3e => row(Mnemonic::ROL, 3, 7, AddressingMode::Absolute_X),
        0x40 => row(Mnemonic::RTI, 1, 6, AddressingMode::NoneAddressing),
        0x41 => row(Mnemonic::EOR, 2, 6, AddressingMode::Indirect_X),
        0x45 => row(Mnemonic::EOR, 2, 3, AddressingMode::ZeroPage),
        0x46 => row(Mnemonic::LSR, 2, 5, AddressingMode::ZeroPage),
        0x48 => row(Mnemonic::PHA, 1, 3, AddressingMode::NoneAddressing),
        0x49 => row(Mnemonic::EOR, 2, 2, AddressingMode::Immediate),
        0x4a => row(Mnemonic::LSR, 1, 2, AddressingMode::NoneAddressing),
        0x4c => row(Mnemonic::JMP, 3, 3, AddressingMode::Absolute),
        0x4d => row(Mnemonic::EOR, 3, 4, AddressingMode::Absolute),
        0x4e => row(Mnemonic::LSR, 3, 6, AddressingMode::Absolute),
        0x50 => row(Mnemonic::BVC, 2, 2, AddressingMode::Relative),
        0x51 => row(Mnemonic::EOR, 2, 5, AddressingMode::Indirect_Y),
        0x55 => row(Mnemonic::EOR, 2, 4, AddressingMode::ZeroPage_X),
        0x56 => row(Mnemonic::LSR, 2, 6, AddressingMode::ZeroPage_X),
        0x58 => row(Mnemonic::CLI, 1, 2, AddressingMode::NoneAddressing),
        0x59 => row(Mnemonic::EOR, 3, 4, AddressingMode::Absolute_Y),
        0x5d => row(Mnemonic::EOR, 3, 4, AddressingMode::Absolute_X),
        0x5e => row(Mnemonic::LSR, 3, 7, AddressingMode::Absolute_X),
        0x60 => row(Mnemonic::RTS, 1, 6, AddressingMode::NoneAddressing),
        0x61 => row(Mnemonic::ADC, 2, 6, AddressingMode::Indirect_X),
        0x65 => row(Mnemonic::ADC, 2, 3, AddressingMode::ZeroPage),
        0x66 => row(Mnemonic::ROR, 2, 5, AddressingMode::ZeroPage),
        0x68 => row(Mnemonic::PLA, 1, 4, AddressingMode::NoneAddressing),
        0x69 => row(Mnemonic::ADC, 2, 2, AddressingMode::Immediate),
        0x6a => row(Mnemonic::ROR, 1, 2, AddressingMode::NoneAddressing),
        0x6c => row(Mnemonic::JMP, 3, 5, AddressingMode::Indirect),
        0x6d => row(Mnemonic::ADC, 3, 4, AddressingMode::Absolute),
        0x6e => row(Mnemonic::ROR, 3, 6, AddressingMode::Absolute),
        0x70 => row(Mnemonic::BVS, 2, 2, AddressingMode::Relative),
        0x71 => row(Mnemonic::ADC, 2, 5, AddressingMode::Indirect_Y),
        0x75 => row(Mnemonic::ADC, 2, 4, AddressingMode::ZeroPage_X),
        0x76 => row(Mnemonic::ROR, 2, 6, AddressingMode::ZeroPage_X),
        0x78 => row(Mnemonic::SEI, 1, 2, AddressingMode::NoneAddressing),
        0x79 => row(Mnemonic::ADC, 3, 4, AddressingMode::Absolute_Y),
        0x7d => row(Mnemonic::ADC, 3, 4, AddressingMode::Absolute_X),
        0x7e => row(Mnemonic::ROR, 3, 7, AddressingMode::Absolute_X),
        0x81 => row(Mnemonic::STA, 2, 6, AddressingMode::Indirect_X),
        0x84 => row(Mnemonic::STY, 2, 3, AddressingMode::ZeroPage),
        0x85 => row(Mnemonic::STA, 2, 3, AddressingMode::ZeroPage),
        0x86 => row(Mnemonic::STX, 2, 3, AddressingMode::ZeroPage),
        0x88 => row(Mnemonic::DEY, 1, 2, AddressingMode::NoneAddressing),
        0x8a => row(Mnemonic::TXA, 1, 2, AddressingMode::NoneAddressing),
        0x8c => row(Mnemonic::STY, 3, 4, AddressingMode::Absolute),
        0x8d => row(Mnemonic::STA, 3, 4, AddressingMode::Absolute),
        0x8e => row(Mnemonic::STX, 3, 4, AddressingMode::Absolute),
        0x90 => row(Mnemonic::BCC, 2, 2, AddressingMode::Relative),
        0x91 => row(Mnemonic::STA, 2, 5, AddressingMode::Indirect_Y),
        0x94 => row(Mnemonic::STY, 2, 4, AddressingMode::ZeroPage_X),
        0x95 => row(Mnemonic::STA, 2, 4, AddressingMode::ZeroPage_X),
        0x96 => row(Mnemonic::STX, 2, 4, AddressingMode::ZeroPage_Y),
        0x98 => row(Mnemonic::TYA, 1, 2, AddressingMode::NoneAddressing),
        0x99 => row(Mnemonic::STA, 3, 4, AddressingMode::Absolute_Y),
        0x9a => row(Mnemonic::TXS, 1, 2, AddressingMode::NoneAddressing),
        0x9d => row(Mnemonic::STA, 3, 4, AddressingMode::Absolute_X),
        0xa0 => row(Mnemonic::LDY, 2, 2, AddressingMode::Immediate),
        0xa1 => row(Mnemonic::LDA, 2, 6, AddressingMode::Indirect_X),
        0xa2 => row(Mnemonic::LDX, 2, 2, AddressingMode::Immediate),
        0xa4 => row(Mnemonic::LDY, 2, 3, AddressingMode::ZeroPage),
        0xa5 => row(Mnemonic::LDA, 2, 3, AddressingMode::ZeroPage),
        0xa6 => row(Mnemonic::LDX, 2, 3, AddressingMode::ZeroPage),
        0xa8 => row(Mnemonic::TAY, 1, 2, AddressingMode::NoneAddressing),
        0xa9 => row(Mnemonic::LDA, 2, 2, AddressingMode::Immediate),
        0xaa => row(Mnemonic::TAX, 1, 2, AddressingMode::NoneAddressing),
        0xac => row(Mnemonic::LDY, 3, 4, AddressingMode::Absolute),
        0xad => row(Mnemonic::LDA, 3, 4, AddressingMode::Absolute),
        0xae => row(Mnemonic::LDX, 3, 4, AddressingMode::Absolute),
        0xb0 => row(Mnemonic::BCS, 2, 2, AddressingMode::Relative),
        0xb1 => row(Mnemonic::LDA, 2, 5, AddressingMode::Indirect_Y),
        0xb4 => row(Mnemonic::LDY, 2, 4, AddressingMode::ZeroPage_X),
        0xb5 => row(Mnemonic::LDA, 2, 4, AddressingMode::ZeroPage_X),
        0xb6 => row(Mnemonic::LDX, 2, 4, AddressingMode::ZeroPage_Y),
        0xb8 => row(Mnemonic::CLV, 1, 2, AddressingMode::NoneAddressing),
        0xb9 => row(Mnemonic::LDA, 3, 4, AddressingMode::Absolute_Y),
        0xba => row(Mnemonic::TSX, 1, 2, AddressingMode::NoneAddressing),
        0xbc => row(Mnemonic::LDY, 3, 4, AddressingMode::Absolute_X),
        0xbd => row(Mnemonic::LDA, 3, 4, AddressingMode::Absolute_X),
        0xbe => row(Mnemonic::LDX, 3, 4, AddressingMode::Absolute_Y),
        0xc0 => row(Mnemonic::CPY, 2, 2, AddressingMode::Immediate),
        0xc1 => row(Mnemonic::CMP, 2, 6, AddressingMode::Indirect_X),
        0xc4 => row(Mnemonic::CPY, 2, 3, AddressingMode::ZeroPage),
        0xc5 => row(Mnemonic::CMP, 2, 3, AddressingMode::ZeroPage),
        0xc6 => row(Mnemonic::DEC, 2, 5, AddressingMode::ZeroPage),
        0xc8 => row(Mnemonic::INY, 1, 2, AddressingMode::NoneAddressing),
        0xc9 => row(Mnemonic::CMP, 2, 2, AddressingMode::Immediate),
        0xca => row(Mnemonic::DEX, 1, 2, AddressingMode::NoneAddressing),
        0xcc => row(Mnemonic::CPY, 3, 4, AddressingMode::Absolute),
        0xcd => row(Mnemonic::CMP, 3, 4, AddressingMode::Absolute),
        0xce => row(Mnemonic::DEC, 3, 6, AddressingMode::Absolute),
        0xd0 => row(Mnemonic::BNE, 2, 2, AddressingMode::Relative),
        0xd1 => row(Mnemonic::CMP, 2, 5, AddressingMode::Indirect_Y),
        0xd5 => row(Mnemonic::CMP, 2, 4, AddressingMode::ZeroPage_X),
        0xd6 => row(Mnemonic::DEC, 2, 6, AddressingMode::ZeroPage_X),
        0xd8 => row(Mnemonic::CLD, 1, 2, AddressingMode::NoneAddressing),
        0xd9 => row(Mnemonic::CMP, 3, 4, AddressingMode::Absolute_Y),
        0xdd => row(Mnemonic::CMP, 3, 4, AddressingMode::Absolute_X),
        0xde => row(Mnemonic::DEC, 3, 7, AddressingMode::Absolute_X),
        0xe0 => row(Mnemonic::CPX, 2, 2, AddressingMode::Immediate),
        0xe1 => row(Mnemonic::SBC, 2, 6, AddressingMode::Indirect_X),
        0xe4 => row(Mnemonic::CPX, 2, 3, AddressingMode::ZeroPage),
        0xe5 => row(Mnemonic::SBC, 2, 3, AddressingMode::ZeroPage),
        0xe6 => row(Mnemonic::INC, 2, 5, AddressingMode::ZeroPage),
        0xe8 => row(Mnemonic::INX, 1, 2, AddressingMode::NoneAddressing),
        0xe9 => row(Mnemonic::SBC, 2, 2, AddressingMode::Immediate),
        0xea => row(Mnemonic::NOP, 1, 2, AddressingMode::NoneAddressing),
        0xec => row(Mnemonic::CPX, 3, 4, AddressingMode::Absolute),
        0xed => row(Mnemonic::SBC, 3, 4, AddressingMode::Absolute),
        0xee => row(Mnemonic::INC, 3, 6, AddressingMode::Absolute),
        0xf0 => row(Mnemonic::BEQ, 2, 2, AddressingMode::Relative),
        0xf1 => row(Mnemonic::SBC, 2, 5, AddressingMode::Indirect_Y),
        0xf5 => row(Mnemonic::SBC, 2, 4, AddressingMode::ZeroPage_X),
        0xf6 => row(Mnemonic::INC, 2, 6, AddressingMode::ZeroPage_X),
        0xf8 => row(Mnemonic::SED, 1, 2, AddressingMode::NoneAddressing),
        0xf9 => row(Mnemonic::SBC, 3, 4, AddressingMode::Absolute_Y),
        0xfd => row(Mnemonic::SBC, 3, 4, AddressingMode::Absolute_X),
        0xfe => row(Mnemonic::INC, 3, 7, AddressingMode::Absolute_X),
        _ => None,
    }
}

impl Mnemonic {
    /// The three letters of the mnemonic.
    pub open spec fn text(self) -> Seq<char> {
        match self {
            Mnemonic::ADC => "ADC"@,
            Mnemonic::AND => "AND"@,
            Mnemonic::ASL => "ASL"@,
            Mnemonic::BCC => "BCC"@,
            Mnemonic::BCS => "BCS"@,
            Mnemonic::BEQ => "BEQ"@,
            Mnemonic::BIT => "BIT"@,
            Mnemonic::BMI => "BMI"@,
            Mnemonic::BNE => "BNE"@,
            Mnemonic::BPL => "BPL"@,
            Mnemonic::BRK => "BRK"@,
            Mnemonic::BVC => "BVC"@,
            Mnemonic::BVS => "BVS"@,
            Mnemonic::CLC => "CLC"@,
            Mnemonic::CLD => "CLD"@,
            Mnemonic::CLI => "CLI"@,
            Mnemonic::CLV => "CLV"@,
            Mnemonic::CMP => "CMP"@,
            Mnemonic::CPX => "CPX"@,
            Mnemonic::CPY => "CPY"@,
            Mnemonic::DEC => "DEC"@,
            Mnemonic::DEX => "DEX"@,
            Mnemonic::DEY => "DEY"@,
            Mnemonic::EOR => "EOR"@,
            Mnemonic::INC => "INC"@,
            Mnemonic::INX => "INX"@,
            Mnemonic::INY => "INY"@,
            Mnemonic::JMP => "JMP"@,
            Mnemonic::JSR => "JSR"@,
            Mnemonic::LDA => "LDA"@,
            Mnemonic::LDX => "LDX"@,
            Mnemonic::LDY => "LDY"@,
            Mnemonic::LSR => "LSR"@,
            Mnemonic::NOP => "NOP"@,
            Mnemonic::ORA => "ORA"@,
            Mnemonic::PHA => "PHA"@,
            Mnemonic::PHP => "PHP"@,
            Mnemonic::PLA => "PLA"@,
            Mnemonic::PLP => "PLP"@,
            Mnemonic::ROL => "ROL"@,
            Mnemonic::ROR => "ROR"@,
            Mnemonic::RTI => "RTI"@,
            Mnemonic::RTS => "RTS"@,
            Mnemonic::SBC => "SBC"@,
            Mnemonic::SEC => "SEC"@,
            Mnemonic::SED => "SED"@,
            Mnemonic::SEI => "SEI"@,
            Mnemonic::STA => "STA"@,
            Mnemonic::STX => "STX"@,
            Mnemonic::STY => "STY"@,
            Mnemonic::TAX => "TAX"@,
            Mnemonic::TAY => "TAY"@,
            Mnemonic::TSX => "TSX"@,
            Mnemonic::TXA => "TXA"@,
            Mnemonic::TXS => "TXS"@,
            Mnemonic::TYA => "TYA"@,
        }
    }

    /// The three letters of the mnemonic.
    pub fn name(&self) -> (s: &'static str)
        ensures
            s@ == self.text(),
    {
        match self {
            Mnemonic::ADC => "ADC",
            Mnemonic::AND => "AND",
            Mnemonic::ASL => "ASL",
            Mnemonic::BCC => "BCC",
            Mnemonic::BCS => "BCS",
            Mnemonic::BEQ => "BEQ",
            Mnemonic::BIT => "BIT",
            Mnemonic::BMI => "BMI",
            Mnemonic::BNE => "BNE",
            Mnemonic::BPL => "BPL",
            Mnemonic::BRK => "BRK",
            Mnemonic::BVC => "BVC",
            Mnemonic::BVS => "BVS",
            Mnemonic::CLC => "CLC",
            Mnemonic::CLD => "CLD",
            Mnemonic::CLI => "CLI",
            Mnemonic::CLV => "CLV",
            Mnemonic::CMP => "CMP",
            Mnemonic::CPX => "CPX",
            Mnemonic::CPY => "CPY",
            Mnemonic::DEC => "DEC",
            Mnemonic::DEX => "DEX",
            Mnemonic::DEY => "DEY",
            Mnemonic::EOR => "EOR",
            Mnemonic::INC => "INC",
            Mnemonic::INX => "INX",
            Mnemonic::INY => "INY",
            Mnemonic::JMP => "JMP",
            Mnemonic::JSR => "JSR",
            Mnemonic::LDA => "LDA",
            Mnemonic::LDX => "LDX",
            Mnemonic::LDY => "LDY",
            Mnemonic::LSR => "LSR",
            Mnemonic::NOP => "NOP",
            Mnemonic::ORA => "ORA",
            Mnemonic::PHA => "PHA",
            Mnemonic::PHP => "PHP",
            Mnemonic::PLA => "PLA",
            Mnemonic::PLP => "PLP",
            Mnemonic::ROL => "ROL",
            Mnemonic::ROR => "ROR",
            Mnemonic::RTI => "RTI",
            Mnemonic::RTS => "RTS",
            Mnemonic::SBC => "SBC",
            Mnemonic::SEC => "SEC",
            Mnemonic::SED => "SED",
            Mnemonic::SEI => "SEI",
            Mnemonic::STA => "STA",
            Mnemonic::STX => "STX",
            Mnemonic::STY => "STY",
            Mnemonic::TAX => "TAX",
            Mnemonic::TAY => "TAY",
            Mnemonic::TSX => "TSX",
            Mnemonic::TXA => "TXA",
            Mnemonic::TXS => "TXS",
            Mnemonic::TYA => "TYA",
        }
    }

    /// Whether this is one of the eight conditional branches.
    pub open spec fn is_branch(self) -> bool {
        matches!(
            self,
            Mnemonic::BCC
                | Mnemonic::BCS
                | Mnemonic::BEQ
                | Mnemonic::BMI
                | Mnemonic::BNE
                | Mnemonic::BPL
                | Mnemonic::BVC
                | Mnemonic::BVS
        )
    }

    /// Whether the instruction always loads the program counter itself.
    pub open spec fn is_jump(self) -> bool {
        matches!(self, Mnemonic::JMP | Mnemonic::JSR | Mnemonic::RTS | Mnemonic::RTI)
    }

    /// Whether the instruction always loads the program counter itself.
    pub fn jumps(&self) -> (r: bool)
        ensures
            r == self.is_jump(),
    {
        matches!(self, Mnemonic::JMP | Mnemonic::JSR | Mnemonic::RTS | Mnemonic::RTI)
    }
}

impl OpCode {
    pub fn new(mnemonic: Mnemonic, op_length: u8, cycles: u8, mode: AddressingMode) -> (op: Self)
        ensures
            Some(op) == row(mnemonic, op_length, cycles, mode),
    {
        OpCode { mnemonic, op_length, cycles, mode }
    }

    /// The mnemonic's three letters.
    pub fn name(&self) -> (s: &'static str)
        ensures
            s@ == self.mnemonic.text(),
    {
        self.mnemonic.name()
    }
}

/// Looks `code` up in the opcode table.
pub fn decode(code: u8) -> (entry: Option<OpCode>)
    ensures
        entry == opcode_entry(code),
{
    match code {
        0x00 => Some(OpCode::new(Mnemonic::BRK, 1, 7, AddressingMode::NoneAddressing)),
        0x01 => Some(OpCode::new(Mnemonic::ORA, 2, 6, AddressingMode::Indirect_X)),
        0x05 => Some(OpCode::new(Mnemonic::ORA, 2, 3, AddressingMode::ZeroPage)),
        0x06 => Some(OpCode::new(Mnemonic::ASL, 2, 5, AddressingMode::ZeroPage)),
        0x08 => Some(OpCode::new(Mnemonic::PHP, 1, 3, AddressingMode::NoneAddressing)),
        0x09 => Some(OpCode::new(Mnemonic::ORA, 2, 2, AddressingMode::Immediate)),
        0x0a => Some(OpCode::new(Mnemonic::ASL, 1, 2, AddressingMode::NoneAddressing)),
        0x0d => Some(OpCode::new(Mnemonic::ORA, 3, 4, AddressingMode::Absolute)),
        0x0e => Some(OpCode::new(Mnemonic::ASL, 3, 6, AddressingMode::Absolute)),
        0x10 => Some(OpCode::new(Mnemonic::BPL, 2, 2, AddressingMode::Relative)),
        0x11 => Some(OpCode::new(Mnemonic::ORA, 2, 5, AddressingMode::Indirect_Y)),
        0x15 => Some(OpCode::new(Mnemonic::ORA, 2, 4, AddressingMode::ZeroPage_X)),
        0x16 => Some(OpCode::new(Mnemonic::ASL, 2, 6, AddressingMode::ZeroPage_X)),
        0x18 => Some(OpCode::new(Mnemonic::CLC, 1, 2, AddressingMode::NoneAddressing)),
        0x19 => Some(OpCode::new(Mnemonic::ORA, 3, 4, AddressingMode::Absolute_Y)),
        0x1d => Some(OpCode::new(Mnemonic::ORA, 3, 4, AddressingMode::Absolute_X)),
        0x1e => Some(OpCode::new(Mnemonic::ASL, 3, 7, AddressingMode::Absolute_X)),
        0x20 => Some(OpCode::new(Mnemonic::JSR, 3, 6, AddressingMode::Absolute)),
        0x21 => Some(OpCode::new(Mnemonic::AND, 2, 6, AddressingMode::Indirect_X)),
        0x24 => Some(OpCode::new(Mnemonic::BIT, 2, 3, AddressingMode::ZeroPage)),
        0x25 => Some(OpCode::new(Mnemonic::AND, 2, 3, AddressingMode::ZeroPage)),
        0x26 => Some(OpCode::new(Mnemonic::ROL, 2, 5, AddressingMode::ZeroPage)),
        0x28 => Some(OpCode::new(Mnemonic::PLP, 1, 4, AddressingMode::NoneAddressing)),
        0x29 => Some(OpCode::new(Mnemonic::AND, 2, 2, AddressingMode::Immediate)),
        0x2a => Some(OpCode::new(Mnemonic::ROL, 1, 2, AddressingMode::NoneAddressing)),
        0x2c => Some(OpCode::new(Mnemonic::BIT, 3, 4, AddressingMode::Absolute)),
        0x2d => Some(OpCode::new(Mnemonic::AND, 3, 4, AddressingMode::Absolute)),
        0x2e => Some(OpCode::new(Mnemonic::ROL, 3, 6, AddressingMode::Absolute)),
        0x30 => Some(OpCode::new(Mnemonic::BMI, 2, 2, AddressingMode::Relative)),
        0x31 => Some(OpCode::new(Mnemonic::AND, 2, 5, AddressingMode::Indirect_Y)),
        0x35 => Some(OpCode::new(Mnemonic::AND, 2, 4, AddressingMode::ZeroPage_X)),
        0x36 => Some(OpCode::new(Mnemonic::ROL, 2, 6, AddressingMode::ZeroPage_X)),
        0x38 => Some(OpCode::new(Mnemonic::SEC, 1, 2, AddressingMode::NoneAddressing)),
        0x39 => Some(OpCode::new(Mnemonic::AND, 3, 4, AddressingMode::Absolute_Y)),
        0x3d => Some(OpCode::new(Mnemonic::AND, 3, 4, AddressingMode::Absolute_X)),
        0x3e => Some(OpCode::new(Mnemonic::ROL, 3, 7, AddressingMode::Absolute_X)),
        0x40 => Some(OpCode::new(Mnemonic::RTI, 1, 6, AddressingMode::NoneAddressing)),
        0x41 => Some(OpCode::new(Mnemonic::EOR, 2, 6, AddressingMode::Indirect_X)),
        0x45 => Some(OpCode::new(Mnemonic::EOR, 2, 3, AddressingMode::ZeroPage)),
        0x46 => Some(OpCode::new(Mnemonic::LSR, 2, 5, AddressingMode::ZeroPage)),
        0x48 => Some(OpCode::new(Mnemonic::PHA, 1, 3, AddressingMode::NoneAddressing)),
        0x49 => Some(OpCode::new(Mnemonic::EOR, 2, 2, AddressingMode::Immediate)),
        0x4a => Some(OpCode::new(Mnemonic::LSR, 1, 2, AddressingMode::NoneAddressing)),
        0x4c => Some(OpCode::new(Mnemonic::JMP, 3, 3, AddressingMode::Absolute)),
        0x4d => Some(OpCode::new(Mnemonic::EOR, 3, 4, AddressingMode::Absolute)),
        0x4e => Some(OpCode::new(Mnemonic::LSR, 3, 6, AddressingMode::Absolute)),
        0x50 => Some(OpCode::new(Mnemonic::BVC, 2, 2, AddressingMode::Relative)),
        0x51 => Some(OpCode::new(Mnemonic::EOR, 2, 5, AddressingMode::Indirect_Y)),
        0x55 => Some(OpCode::new(Mnemonic::EOR, 2, 4, AddressingMode::ZeroPage_X)),
        0x56 => Some(OpCode::new(Mnemonic::LSR, 2, 6, AddressingMode::ZeroPage_X)),
        0x58 => Some(OpCode::new(Mnemonic::CLI, 1, 2, AddressingMode::NoneAddressing)),
        0x59 => Some(OpCode::new(Mnemonic::EOR, 3, 4, AddressingMode::Absolute_Y)),
        0x5d => Some(OpCode::new(Mnemonic::EOR, 3, 4, AddressingMode::Absolute_X)),
        0x5e => Some(OpCode::new(Mnemonic::LSR, 3, 7, AddressingMode::Absolute_X)),
        0x60 => Some(OpCode::new(Mnemonic::RTS, 1, 6, AddressingMode::NoneAddressing)),
        0x61 => Some(OpCode::new(Mnemonic::ADC, 2, 6, AddressingMode::Indirect_X)),
        0x65 => Some(OpCode::new(Mnemonic::ADC, 2, 3, AddressingMode::ZeroPage)),
        0x66 => Some(OpCode::new(Mnemonic::ROR, 2, 5, AddressingMode::ZeroPage)),
        0x68 => Some(OpCode::new(Mnemonic::PLA, 1, 4, AddressingMode::NoneAddressing)),
        0x69 => Some(OpCode::new(Mnemonic::ADC, 2, 2, AddressingMode::Immediate)),
        0x6a => Some(OpCode::new(Mnemonic::ROR, 1, 2, AddressingMode::NoneAddressing)),
        0x6c => Some(OpCode::new(Mnemonic::JMP, 3, 5, AddressingMode::Indirect)),
        0x6d => Some(OpCode::new(Mnemonic::ADC, 3, 4, AddressingMode::Absolute)),
        0x6e => Some(OpCode::new(Mnemonic::ROR, 3, 6, AddressingMode::Absolute)),
        0x70 => Some(OpCode::new(Mnemonic::BVS, 2, 2, AddressingMode::Relative)),
        0x71 => Some(OpCode::new(Mnemonic::ADC, 2, 5, AddressingMode::Indirect_Y)),
        0x75 => Some(OpCode::new(Mnemonic::ADC, 2, 4, AddressingMode::ZeroPage_X)),
        0x76 => Some(OpCode::new(Mnemonic::ROR, 2, 6, AddressingMode::ZeroPage_X)),
        0x78 => Some(OpCode::new(Mnemonic::SEI, 1, 2, AddressingMode::NoneAddressing)),
        0x79 => Some(OpCode::new(Mnemonic::ADC, 3, 4, AddressingMode::Absolute_Y)),
        0x7d => Some(OpCode::new(Mnemonic::ADC, 3, 4, AddressingMode::Absolute_X)),
        0x7e => Some(OpCode::new(Mnemonic::ROR, 3, 7, AddressingMode::Absolute_X)),
        0x81 => Some(OpCode::new(Mnemonic::STA, 2, 6, AddressingMode::Indirect_X)),
        0x84 => Some(OpCode::new(Mnemonic::STY, 2, 3, AddressingMode::ZeroPage)),
        0x85 => Some(OpCode::new(Mnemonic::STA, 2, 3, AddressingMode::ZeroPage)),
        0x86 => Some(OpCode::new(Mnemonic::STX, 2, 3, AddressingMode::ZeroPage)),
        0x88 => Some(OpCode::new(Mnemonic::DEY, 1, 2, AddressingMode::NoneAddressing)),
        0x8a => Some(OpCode::new(Mnemonic::TXA, 1, 2, AddressingMode::NoneAddressing)),
        0x8c => Some(OpCode::new(Mnemonic::STY, 3, 4, AddressingMode::Absolute)),
        0x8d => Some(OpCode::new(Mnemonic::STA, 3, 4, AddressingMode::Absolute)),
        0x8e => Some(OpCode::new(Mnemonic::STX, 3, 4, AddressingMode::Absolute)),
        0x90 => Some(OpCode::new(Mnemonic::BCC, 2, 2, AddressingMode::Relative)),
        0x91 => Some(OpCode::new(Mnemonic::STA, 2, 5, AddressingMode::Indirect_Y)),
        0x94 => Some(OpCode::new(Mnemonic::STY, 2, 4, AddressingMode::ZeroPage_X)),
        0x95 => Some(OpCode::new(Mnemonic::STA, 2, 4, AddressingMode::ZeroPage_X)),
        0x96 => Some(OpCode::new(Mnemonic::STX, 2, 4, AddressingMode::ZeroPage_Y)),
        0x98 => Some(OpCode::new(Mnemonic::TYA, 1, 2, AddressingMode::NoneAddressing)),
        0x99 => Some(OpCode::new(Mnemonic::STA, 3, 4, AddressingMode::Absolute_Y)),
        0x9a => Some(OpCode::new(Mnemonic::TXS, 1, 2, AddressingMode::NoneAddressing)),
        0x9d => Some(OpCode::new(Mnemonic::STA, 3, 4, AddressingMode::Absolute_X)),
        0xa0 => Some(OpCode::new(Mnemonic::LDY, 2, 2, AddressingMode::Immediate)),
        0xa1 => Some(OpCode::new(Mnemonic::LDA, 2, 6, AddressingMode::Indirect_X)),
        0xa2 => Some(OpCode::new(Mnemonic::LDX, 2, 2, AddressingMode::Immediate)),
        0xa4 => Some(OpCode::new(Mnemonic::LDY, 2, 3, AddressingMode::ZeroPage)),
        0xa5 => Some(OpCode::new(Mnemonic::LDA, 2, 3, AddressingMode::ZeroPage)),
        0xa6 => Some(OpCode::new(Mnemonic::LDX, 2, 3, AddressingMode::ZeroPage)),
        0xa8 => Some(OpCode::new(Mnemonic::TAY, 1, 2, AddressingMode::NoneAddressing)),
        0xa9 => Some(OpCode::new(Mnemonic::LDA, 2, 2, AddressingMode::Immediate)),
        0xaa => Some(OpCode::new(Mnemonic::TAX, 1, 2, AddressingMode::NoneAddressing)),
        0xac => Some(OpCode::new(Mnemonic::LDY, 3, 4, AddressingMode::Absolute)),
        0xad => Some(OpCode::new(Mnemonic::LDA, 3, 4, AddressingMode::Absolute)),
        0xae => Some(OpCode::new(Mnemonic::LDX, 3, 4, AddressingMode::Absolute)),
        0xb0 => Some(OpCode::new(Mnemonic::BCS, 2, 2, AddressingMode::Relative)),
        0xb1 => Some(OpCode::new(Mnemonic::LDA, 2, 5, AddressingMode::Indirect_Y)),
        0xb4 => Some(OpCode::new(Mnemonic::LDY, 2, 4, AddressingMode::ZeroPage_X)),
        0xb5 => Some(OpCode::new(Mnemonic::LDA, 2, 4, AddressingMode::ZeroPage_X)),
        0xb6 => Some(OpCode::new(Mnemonic::LDX, 2, 4, AddressingMode::ZeroPage_Y)),
        0xb8 => Some(OpCode::new(Mnemonic::CLV, 1, 2, AddressingMode::NoneAddressing)),
        0xb9 => Some(OpCode::new(Mnemonic::LDA, 3, 4, AddressingMode::Absolute_Y)),
        0xba => Some(OpCode::new(Mnemonic::TSX, 1, 2, AddressingMode::NoneAddressing)),
        0xbc => Some(OpCode::new(Mnemonic::LDY, 3, 4, AddressingMode::Absolute_X)),
        0xbd => Some(OpCode::new(Mnemonic::LDA, 3, 4, AddressingMode::Absolute_X)),
        0xbe => Some(OpCode::new(Mnemonic::LDX, 3, 4, AddressingMode::Absolute_Y)),
        0xc0 => Some(OpCode::new(Mnemonic::CPY, 2, 2, AddressingMode::Immediate)),
        0xc1 => Some(OpCode::new(Mnemonic::CMP, 2, 6, AddressingMode::Indirect_X)),
        0xc4 => Some(OpCode::new(Mnemonic::CPY, 2, 3, AddressingMode::ZeroPage)),
        0xc5 => Some(OpCode::new(Mnemonic::CMP, 2, 3, AddressingMode::ZeroPage)),
        0xc6 => Some(OpCode::new(Mnemonic::DEC, 2, 5, AddressingMode::ZeroPage)),
        0xc8 => Some(OpCode::new(Mnemonic::INY, 1, 2, AddressingMode::NoneAddressing)),
        0xc9 => Some(OpCode::new(Mnemonic::CMP, 2, 2, AddressingMode::Immediate)),
        0xca => Some(OpCode::new(Mnemonic::DEX, 1, 2, AddressingMode::NoneAddressing)),
        0xcc => Some(OpCode::new(Mnemonic::CPY, 3, 4, AddressingMode::Absolute)),
        0xcd => Some(OpCode::new(Mnemonic::CMP, 3, 4, AddressingMode::Absolute)),
        0xce => Some(OpCode::new(Mnemonic::DEC, 3, 6, AddressingMode::Absolute)),
        0xd0 => Some(OpCode::new(Mnemonic::BNE, 2, 2, AddressingMode::Relative)),
        0xd1 => Some(OpCode::new(Mnemonic::CMP, 2, 5, AddressingMode::Indirect_Y)),
        0xd5 => Some(OpCode::new(Mnemonic::CMP, 2, 4, AddressingMode::ZeroPage_X)),
        0xd6 => Some(OpCode::new(Mnemonic::DEC, 2, 6, AddressingMode::ZeroPage_X)),
        0xd8 => Some(OpCode::new(Mnemonic::CLD, 1, 2, AddressingMode::NoneAddressing)),
        0xd9 => Some(OpCode::new(Mnemonic::CMP, 3, 4, AddressingMode::Absolute_Y)),
        0xdd => Some(OpCode::new(Mnemonic::CMP, 3, 4, AddressingMode::Absolute_X)),
        0xde => Some(OpCode::new(Mnemonic::DEC, 3, 7, AddressingMode::Absolute_X)),
        0xe0 => Some(OpCode::new(Mnemonic::CPX, 2, 2, AddressingMode::Immediate)),
        0xe1 => Some(OpCode::new(Mnemonic::SBC, 2, 6, AddressingMode::Indirect_X)),
        0xe4 => Some(OpCode::new(Mnemonic::CPX, 2, 3, AddressingMode::ZeroPage)),
        0xe5 => Some(OpCode::new(Mnemonic::SBC, 2, 3, AddressingMode::ZeroPage)),
        0xe6 => Some(OpCode::new(Mnemonic::INC, 2, 5, AddressingMode::ZeroPage)),
        0xe8 => Some(OpCode::new(Mnemonic::INX, 1, 2, AddressingMode::NoneAddressing)),
        0xe9 => Some(OpCode::new(Mnemonic::SBC, 2, 2, AddressingMode::Immediate)),
        0xea => Some(OpCode::new(Mnemonic::NOP, 1, 2, AddressingMode::NoneAddressing)),
        0xec => Some(OpCode::new(Mnemonic::CPX, 3, 4, AddressingMode::Absolute)),
        0xed => Some(OpCode::new(Mnemonic::SBC, 3, 4, AddressingMode::Absolute)),
        0xee => Some(OpCode::new(Mnemonic::INC, 3, 6, AddressingMode::Absolute)),
        0xf0 => Some(OpCode::new(Mnemonic::BEQ, 2, 2, AddressingMode::Relative)),
        0xf1 => Some(OpCode::new(Mnemonic::SBC, 2, 5, AddressingMode::Indirect_Y)),
        0xf5 => Some(OpCode::new(Mnemonic::SBC, 2, 4, AddressingMode::ZeroPage_X)),
        0xf6 => Some(OpCode::new(Mnemonic::INC, 2, 6, AddressingMode::ZeroPage_X)),
        0xf8 => Some(OpCode::new(Mnemonic::SED, 1, 2, AddressingMode::NoneAddressing)),
        0xf9 => Some(OpCode::new(Mnemonic::SBC, 3, 4, AddressingMode::Absolute_Y)),
        0xfd => Some(OpCode::new(Mnemonic::SBC, 3, 4, AddressingMode::Absolute_X)),
        0xfe => Some(OpCode::new(Mnemonic::INC, 3, 7, AddressingMode::Absolute_X)),
        _ => None,
    }
}

/// What holds of every row of the table: the instruction is as long as its
/// opcode and operand together, its base cost lies between two and seven
/// cycles, the branches are the relative instructions, and only `JMP` is
/// indirect.
pub open spec fn row_sound(op: OpCode) -> bool {
    &&& op.op_length == 1 + operand_size(op.mode)
    &&& 2 <= op.cycles <= 7
    &&& op.mnemonic.is_branch() <==> op.mode == AddressingMode::Relative
    &&& op.mode == AddressingMode::Indirect ==> op.mnemonic == Mnemonic::JMP
}

/// Every row of the opcode table is sound.
pub proof fn lemma_table_rows(code: u8)
    ensures
        opcode_entry(code) matches Some(op) ==> row_sound(op),
{
    match code {
        0x00 => {},
        0x01 => {},
        0x05 => {},
        0x06 => {},
        0x08 => {},
        0x09 => {},
        0x0a => {},
        0x0d => {},
        0x0e => {},
        0x10 => {},
        0x11 => {},
        0x15 => {},
        0x16 => {},
        0x18 => {},
        0x19 => {},
        0x1d => {},
        0x1e => {},
        0x20 => {},
        0x21 => {},
        0x24 => {},
        0x25 => {},
        0x26 => {},
        0x28 => {},
        0x29 => {},
        0x2a => {},
        0x2c => {},
        0x2d => {},
        0x2e => {},
        0x30 => {},
        0x31 => {},
        0x35 => {},
        0x36 => {},
        0x38 => {},
        0x39 => {},
        0x3d => {},
        0x3e => {},
        0x40 => {},
        0x41 => {},
        0x45 => {},
        0x46 => {},
        0x48 => {},
        0x49 => {},
        0x4a => {},
        0x4c => {},
        0x4d => {},
        0x4e => {},
        0x50 => {},
        0x51 => {},
        0x55 => {},
        0x56 => {},
        0x58 => {},
        0x59 => {},
        0x5d => {},
        0x5e => {},
        0x60 => {},
        0x61 => {},
        0x65 => {},
        0x66 => {},
        0x68 => {},
        0x69 => {},
        0x6a => {},
        0x6c => {},
        0x6d => {},
        0x6e => {},
        0x70 => {},
        0x71 => {},
        0x75 => {},
        0x76 => {},
        0x78 => {},
        0x79 => {},
        0x7d => {},
        0x7e => {},
        0x81 => {},
        0x84 => {},
        0x85 => {},
        0x86 => {},
        0x88 => {},
        0x8a => {},
        0x8c => {},
        0x8d => {},
        0x8e => {},
        0x90 => {},
        0x91 => {},
        0x94 => {},
        0x95 => {},
        0x96 => {},
        0x98 => {},
        0x99 => {},
        0x9a => {},
        0x9d => {},
        0xa0 => {},
        0xa1 => {},
        0xa2 => {},
        0xa4 => {},
        0xa5 => {},
        0xa6 => {},
        0xa8 => {},
        0xa9 => {},
        0xaa => {},
        0xac => {},
        0xad => {},
        0xae => {},
        0xb0 => {},
        0xb1 => {},
        0xb4 => {},
        0xb5 => {},
        0xb6 => {},
        0xb8 => {},
        0xb9 => {},
        0xba => {},
        0xbc => {},
        0xbd => {},
        0xbe => {},
        0xc0 => {},
        0xc1 => {},
        0xc4 => {},
        0xc5 => {},
        0xc6 => {},
        0xc8 => {},
        0xc9 => {},
        0xca => {},
        0xcc => {},
        0xcd => {},
        0xce => {},
        0xd0 => {},
        0xd1 => {},
        0xd5 => {},
        0xd6 => {},
        0xd8 => {},
        0xd9 => {},
        0xdd => {},
        0xde => {},
        0xe0 => {},
        0xe1 => {},
        0xe4 => {},
        0xe5 => {},
        0xe6 => {},
        0xe8 => {},
        0xe9 => {},
        0xea => {},
        0xec => {},
        0xed => {},
        0xee => {},
        0xf0 => {},
        0xf1 => {},
        0xf5 => {},
        0xf6 => {},
        0xf8 => {},
        0xf9 => {},
        0xfd => {},
        0xfe => {},
        _ => {},
    }
}

} // verus!
