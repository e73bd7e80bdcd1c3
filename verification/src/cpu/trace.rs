//! One line of execution log per instruction, in the format of the
//! reference logs emulators are compared against.

use vstd::prelude::*;
use vstd::string::StringExecFns;
use crate::cpu::CPU;
use crate::cpu::arith::addr_add;
use crate::cpu::arith::addr_offset;
use crate::cpu::arith::byte_add;
use crate::cpu::arith::high;
use crate::cpu::arith::high_byte;
use crate::cpu::arith::low;
use crate::cpu::arith::low_byte;
use crate::cpu::arith::make_word;
use crate::cpu::arith::next_in_page;
use crate::cpu::arith::page_wrapped_next;
use crate::cpu::arith::signed;
use crate::cpu::arith::word;
use crate::cpu::arith::wrap16;
use crate::cpu::arith::wrap8;
use crate::cpu::model::CpuState;
use crate::cpu::opcodes::decode;
use crate::cpu::opcodes::opcode_entry;
use crate::cpu::opcodes::AddressingMode;
use crate::cpu::opcodes::Mnemonic;
use crate::cpu::opcodes::OpCode;

verus! {

/// The upper-case hexadecimal digit for `n`, taken modulo 16.
pub open spec fn hex_digit(n: u8) -> Seq<char> {
    match n % 16 {
        0 => "0"@,
        1 => "1"@,
        2 => "2"@,
        3 => "3"@,
        4 => "4"@,
        5 => "5"@,
        6 => "6"@,
        7 => "7"@,
        8 => "8"@,
        9 => "9"@,
        10 => "A"@,
        11 => "B"@,
        12 => "C"@,
        13 => "D"@,
        14 => "E"@,
        _ => "F"@,
    }
}

/// A byte as two hexadecimal digits.
pub open spec fn hex8(value: u8) -> Seq<char> {
    hex_digit(value / 16) + hex_digit(value % 16)
}

/// A word as four hexadecimal digits.
pub open spec fn hex16(value: u16) -> Seq<char> {
    hex8(high(value)) + hex8(low(value))
}

/// What stands in the mnemonic column for a byte that is no opcode.
pub open spec fn unknown_text() -> Seq<char> {
    "???"@
}

fn hex_digit_str(n: u8) -> (s: &'static str)
    ensures
        s@ == hex_digit(n),
{
    match n % 16 {
        0 => "0",
        1 => "1",
        2 => "2",
        3 => "3",
        4 => "4",
        5 => "5",
        6 => "6",
        7 => "7",
        8 => "8",
        9 => "9",
        10 => "A",
        11 => "B",
        12 => "C",
        13 => "D",
        14 => "E",
        _ => "F",
    }
}

/// Formats a byte as two hexadecimal digits.
pub fn format_hex8(value: u8) -> (s: String)
    ensures
        s@ == hex8(value),
{
    let mut s = String::from_str(hex_digit_str(value / 16));
    s.append(hex_digit_str(value % 16));
    s
}

/// Formats a word as four hexadecimal digits.
pub fn format_hex16(value: u16) -> (s: String)
    ensures
        s@ == hex16(value),
{
    let mut s = format_hex8(high_byte(value));
    s.append(format_hex8(low_byte(value)).as_str());
    s
}

impl Mnemonic {
    /// Whether the instruction, when it has no operand, works on the
    /// accumulator.
    pub open spec fn is_shift(self) -> bool {
        matches!(self, Mnemonic::ASL | Mnemonic::LSR | Mnemonic::ROL | Mnemonic::ROR)
    }

    /// Whether the instruction uses its absolute operand as a target, not
    /// as the address of a value.
    pub open spec fn is_call_or_jump(self) -> bool {
        matches!(self, Mnemonic::JMP | Mnemonic::JSR)
    }
}

impl CpuState {
    /// The byte `offset` bytes after the program counter, as a read would
    /// return it now.
    pub open spec fn code_byte(self, offset: u8) -> u8 {
        self.peek(wrap16(self.pc + offset))
    }

    /// The word a two-byte operand holds.
    pub open spec fn code_word(self) -> u16 {
        word(self.code_byte(2), self.code_byte(1))
    }

    /// The instruction's raw bytes in hexadecimal, separated by blanks and
    /// padded to ten columns.
    pub open spec fn trace_bytes(self, length: u8) -> Seq<char> {
        if length == 2 {
            hex8(self.code_byte(0)) + " "@ + hex8(self.code_byte(1)) + "     "@
        } else if length == 3 {
            hex8(self.code_byte(0)) + " "@ + hex8(self.code_byte(1)) + " "@ + hex8(
                self.code_byte(2),
            ) + "  "@
        } else {
            hex8(self.code_byte(0)) + "        "@
        }
    }

    /// The operand as the reference logs print it, padded to 28 columns:
    /// the operand as written, then the effective address and the byte
    /// found there where the mode has them.
    pub open spec fn trace_operand(self, op: OpCode) -> Seq<char> {
        match op.mode {
            AddressingMode::NoneAddressing => {
                if op.mnemonic.is_shift() {
                    "A                           "@
                } else {
                    "                            "@
                }
            },
            AddressingMode::Immediate => "#$"@ + hex8(self.code_byte(1))
                + "                        "@,
            AddressingMode::ZeroPage => {
                let addr = self.code_byte(1);
                "$"@ + hex8(addr) + " = "@ + hex8(self.peek(addr as u16)) + "                    "@
            },
            AddressingMode::ZeroPage_X => {
                let addr = wrap8(self.code_byte(1) + self.x);
                "$"@ + hex8(self.code_byte(1)) + ",X @ "@ + hex8(addr) + " = "@ + hex8(
                    self.peek(addr as u16),
                ) + "             "@
            },
            AddressingMode::ZeroPage_Y => {
                let addr = wrap8(self.code_byte(1) + self.y);
                "$"@ + hex8(self.code_byte(1)) + ",Y @ "@ + hex8(addr) + " = "@ + hex8(
                    self.peek(addr as u16),
                ) + "             "@
            },
            AddressingMode::Absolute => {
                if op.mnemonic.is_call_or_jump() {
                    "$"@ + hex16(self.code_word()) + "                       "@
                } else {
                    "$"@ + hex16(self.code_word()) + " = "@ + hex8(self.peek(self.code_word()))
                        + "                  "@
                }
            },
            AddressingMode::Absolute_X => {
                let addr = wrap16(self.code_word() + self.x);
                "$"@ + hex16(self.code_word()) + ",X @ "@ + hex16(addr) + " = "@ + hex8(
                    self.peek(addr),
                ) + "         "@
            },
            AddressingMode::Absolute_Y => {
                let addr = wrap16(self.code_word() + self.y);
                "$"@ + hex16(self.code_word()) + ",Y @ "@ + hex16(addr) + " = "@ + hex8(
                    self.peek(addr),
                ) + "         "@
            },
            AddressingMode::Indirect => {
                let ptr = self.code_word();
                let target = word(self.peek(next_in_page(ptr)), self.peek(ptr));
                "($"@ + hex16(ptr) + ") = "@ + hex16(target) + "              "@
            },
            AddressingMode::Indirect_X => {
                let ptr = wrap8(self.code_byte(1) + self.x);
                let addr = word(self.peek(wrap8(ptr + 1) as u16), self.peek(ptr as u16));
                "($"@ + hex8(self.code_byte(1)) + ",X) @ "@ + hex8(ptr) + " = "@ + hex16(addr)
                    + " = "@ + hex8(self.peek(addr)) + "    "@
            },
            AddressingMode::Indirect_Y => {
                let ptr = self.code_byte(1);
                let base = word(self.peek(wrap8(ptr + 1) as u16), self.peek(ptr as u16));
                let addr = wrap16(base + self.y);
                "($"@ + hex8(ptr) + "),Y = "@ + hex16(base) + " @ "@ + hex16(addr) + " = "@ + hex8(
                    self.peek(addr),
                ) + "  "@
            },
            AddressingMode::Relative => {
                let target = wrap16(wrap16(self.pc + 2) + signed(self.code_byte(1)));
                "$"@ + hex16(target) + "                       "@
            },
        }
    }

    /// The registers as the reference logs print them.
    pub open spec fn trace_registers(self) -> Seq<char> {
        "A:"@ + hex8(self.a) + " X:"@ + hex8(self.x) + " Y:"@ + hex8(self.y) + " P:"@ + hex8(self.p)
            + " SP:"@ + hex8(self.s)
    }

    /// The log line for the instruction at the program counter: the
    /// address, the raw bytes, the mnemonic, the operand, the registers.
    /// A byte that is no opcode is logged as `???` without operand.
    #[verifier::opaque]
    pub open spec fn trace_line(self) -> Seq<char> {
        match opcode_entry(self.code_byte(0)) {
            Some(op) => hex16(self.pc) + "  "@ + self.trace_bytes(op.op_length) + op.mnemonic.text()
                + " "@ + self.trace_operand(op) + self.trace_registers(),
            None => hex16(self.pc) + "  "@ + self.trace_bytes(1) + unknown_text() + " "@
                + "                            "@ + self.trace_registers(),
        }
    }
}

impl CPU {
    /// The byte `offset` bytes after the program counter.
    fn peek_code(&self, offset: u8) -> (value: u8)
        ensures
            value == self@.code_byte(offset),
    {
        self.bus.peek(addr_add(self.program_counter, offset))
    }

    fn peek_code_word(&self) -> (value: u16)
        ensures
            value == self@.code_word(),
    {
        make_word(self.peek_code(2), self.peek_code(1))
    }

    fn trace_bytes(&self, length: u8) -> (s: String)
        ensures
            s@ == self@.trace_bytes(length),
    {
        let mut s = format_hex8(self.peek_code(0));
        if length == 2 {
            s.append(" ");
            s.append(format_hex8(self.peek_code(1)).as_str());
            s.append("     ");
        } else if length == 3 {
            s.append(" ");
            s.append(format_hex8(self.peek_code(1)).as_str());
            s.append(" ");
            s.append(format_hex8(self.peek_code(2)).as_str());
            s.append("  ");
        } else {
            s.append("        ");
        }
        s
    }

    fn trace_operand(&self, op: &OpCode) -> (s: String)
        ensures
            s@ == self@.trace_operand(*op),
    {
        match op.mode {
            AddressingMode::NoneAddressing => {
                if matches!(
                    op.mnemonic,
                    Mnemonic::ASL | Mnemonic::LSR | Mnemonic::ROL | Mnemonic::ROR
                ) {
                    String::from_str("A                           ")
                } else {
                    String::from_str("                            ")
                }
            },
            AddressingMode::Immediate => {
                let mut s = String::from_str("#$");
                s.append(format_hex8(self.peek_code(1)).as_str());
                s.append("                        ");
                s
            },
            AddressingMode::ZeroPage => {
                let addr = self.peek_code(1);
                let mut s = String::from_str("$");
                s.append(format_hex8(addr).as_str());
                s.append(" = ");
                s.append(format_hex8(self.bus.peek(addr as u16)).as_str());
                s.append("                    ");
                s
            },
            AddressingMode::ZeroPage_X => {
                let addr = byte_add(self.peek_code(1), self.register_x);
                let mut s = String::from_str("$");
                s.append(format_hex8(self.peek_code(1)).as_str());
                s.append(",X @ ");
                s.append(format_hex8(addr).as_str());
                s.append(" = ");
                s.append(format_hex8(self.bus.peek(addr as u16)).as_str());
                s.append("             ");
                s
            },
            AddressingMode::ZeroPage_Y => {
                let addr = byte_add(self.peek_code(1), self.register_y);
                let mut s = String::from_str("$");
                s.append(format_hex8(self.peek_code(1)).as_str());
                s.append(",Y @ ");
                s.append(format_hex8(addr).as_str());
                s.append(" = ");
                s.append(format_hex8(self.bus.peek(addr as u16)).as_str());
                s.append("             ");
                s
            },
            AddressingMode::Absolute => {
                let addr = self.peek_code_word();
                let mut s = String::from_str("$");
                s.append(format_hex16(addr).as_str());
                if matches!(op.mnemonic, Mnemonic::JMP | Mnemonic::JSR) {
                    s.append("                       ");
                } else {
                    s.append(" = ");
                    s.append(format_hex8(self.bus.peek(addr)).as_str());
                    s.append("                  ");
                }
                s
            },
            AddressingMode::Absolute_X => {
                let base = self.peek_code_word();
                let addr = addr_add(base, self.register_x);
                let mut s = String::from_str("$");
                s.append(format_hex16(base).as_str());
                s.append(",X @ ");
                s.append(format_hex16(addr).as_str());
                s.append(" = ");
                s.append(format_hex8(self.bus.peek(addr)).as_str());
                s.append("         ");
                s
            },
            AddressingMode::Absolute_Y => {
                let base = self.peek_code_word();
                let addr = addr_add(base, self.register_y);
                let mut s = String::from_str("$");
                s.append(format_hex16(base).as_str());
                s.append(",Y @ ");
                s.append(format_hex16(addr).as_str());
                s.append(" = ");
                s.append(format_hex8(self.bus.peek(addr)).as_str());
                s.append("         ");
                s
            },
            AddressingMode::Indirect => {
                let ptr = self.peek_code_word();
                let target = make_word(self.bus.peek(page_wrapped_next(ptr)), self.bus.peek(ptr));
                let mut s = String::from_str("($");
                s.append(format_hex16(ptr).as_str());
                s.append(") = ");
                s.append(format_hex16(target).as_str());
                s.append("              ");
                s
            },
            AddressingMode::Indirect_X => {
                let ptr = byte_add(self.peek_code(1), self.register_x);
                let addr = make_word(
                    self.bus.peek(byte_add(ptr, 1) as u16),
                    self.bus.peek(ptr as u16),
                );
                let mut s = String::from_str("($");
                s.append(format_hex8(self.peek_code(1)).as_str());
                s.append(",X) @ ");
                s.append(format_hex8(ptr).as_str());
                s.append(" = ");
                s.append(format_hex16(addr).as_str());
                s.append(" = ");
                s.append(format_hex8(self.bus.peek(addr)).as_str());
                s.append("    ");
                s
            },
            AddressingMode::Indirect_Y => {
                let ptr = self.peek_code(1);
                let base = make_word(
                    self.bus.peek(byte_add(ptr, 1) as u16),
                    self.bus.peek(ptr as u16),
                );
                let addr = addr_add(base, self.register_y);
                let mut s = String::from_str("($");
                s.append(format_hex8(ptr).as_str());
                s.append("),Y = ");
                s.append(format_hex16(base).as_str());
                s.append(" @ ");
                s.append(format_hex16(addr).as_str());
                s.append(" = ");
                s.append(format_hex8(self.bus.peek(addr)).as_str());
                s.append("  ");
                s
            },
            AddressingMode::Relative => {
                let target = addr_offset(addr_add(self.program_counter, 2), self.peek_code(1));
                let mut s = String::from_str("$");
                s.append(format_hex16(target).as_str());
                s.append("                       ");
                s
            },
        }
    }

    fn trace_registers(&self) -> (s: String)
        ensures
            s@ == self@.trace_registers(),
    {
        let mut s = String::from_str("A:");
        s.append(format_hex8(self.register_a).as_str());
        s.append(" X:");
        s.append(format_hex8(self.register_x).as_str());
        s.append(" Y:");
        s.append(format_hex8(self.register_y).as_str());
        s.append(" P:");
        s.append(format_hex8(self.status).as_str());
        s.append(" SP:");
        s.append(format_hex8(self.stack_counter).as_str());
        s
    }

    /// The log line for the instruction the program counter points at.
    /// Nothing is changed by producing it: memory is inspected, not read.
    pub fn trace(&self) -> (line: String)
        ensures
            line@ == self@.trace_line(),
    {
        reveal(CpuState::trace_line);
        let mut line = format_hex16(self.program_counter);
        line.append("  ");
        match decode(self.peek_code(0)) {
            Some(op) => {
                line.append(self.trace_bytes(op.op_length).as_str());
                line.append(op.name());
                line.append(" ");
                line.append(self.trace_operand(&op).as_str());
            },
            None => {
                line.append(self.trace_bytes(1).as_str());
                line.append("???");
                line.append(" ");
                line.append("                            ");
            },
        }
        line.append(self.trace_registers().as_str());
        line
    }
}

/// A hexadecimal digit is one character, a byte two, a word four.
pub proof fn lemma_hex_widths(byte: u8, value: u16)
    ensures
        hex_digit(byte).len() == 1,
        hex8(byte).len() == 2,
        hex16(value).len() == 4,
{
    reveal_strlit("0");
    reveal_strlit("1");
    reveal_strlit("2");
    reveal_strlit("3");
    reveal_strlit("4");
    reveal_strlit("5");
    reveal_strlit("6");
    reveal_strlit("7");
    reveal_strlit("8");
    reveal_strlit("9");
    reveal_strlit("A");
    reveal_strlit("B");
    reveal_strlit("C");
    reveal_strlit("D");
    reveal_strlit("E");
    reveal_strlit("F");
}

/// Every mnemonic has three letters.
pub proof fn lemma_mnemonic_width(mnemonic: Mnemonic)
    ensures
        mnemonic.text().len() == 3,
        unknown_text().len() == 3,
{
    reveal_strlit("ADC");
    reveal_strlit("AND");
    reveal_strlit("ASL");
    reveal_strlit("BCC");
    reveal_strlit("BCS");
    reveal_strlit("BEQ");
    reveal_strlit("BIT");
    reveal_strlit("BMI");
    reveal_strlit("BNE");
    reveal_strlit("BPL");
    reveal_strlit("BRK");
    reveal_strlit("BVC");
    reveal_strlit("BVS");
    reveal_strlit("CLC");
    reveal_strlit("CLD");
    reveal_strlit("CLI");
    reveal_strlit("CLV");
    reveal_strlit("CMP");
    reveal_strlit("CPX");
    reveal_strlit("CPY");
    reveal_strlit("DEC");
    reveal_strlit("DEX");
    reveal_strlit("DEY");
    reveal_strlit("EOR");
    reveal_strlit("INC");
    reveal_strlit("INX");
    reveal_strlit("INY");
    reveal_strlit("JMP");
    reveal_strlit("JSR");
    reveal_strlit("LDA");
    reveal_strlit("LDX");
    reveal_strlit("LDY");
    reveal_strlit("LSR");
    reveal_strlit("NOP");
    reveal_strlit("ORA");
    reveal_strlit("PHA");
    reveal_strlit("PHP");
    reveal_strlit("PLA");
    reveal_strlit("PLP");
    reveal_strlit("ROL");
    reveal_strlit("ROR");
    reveal_strlit("RTI");
    reveal_strlit("RTS");
    reveal_strlit("SBC");
    reveal_strlit("SEC");
    reveal_strlit("SED");
    reveal_strlit("SEI");
    reveal_strlit("STA");
    reveal_strlit("STX");
    reveal_strlit("STY");
    reveal_strlit("TAX");
    reveal_strlit("TAY");
    reveal_strlit("TSX");
    reveal_strlit("TXA");
    reveal_strlit("TXS");
    reveal_strlit("TYA");
    reveal_strlit("???");
}

/// The columns of a trace line have fixed widths: ten for the raw bytes,
/// 28 for the operand, 25 for the registers.
pub proof fn lemma_trace_columns(s: CpuState, length: u8, op: OpCode)
    ensures
        s.trace_bytes(length).len() == 10,
        s.trace_operand(op).len() == 28,
        s.trace_registers().len() == 25,
{
    reveal_strlit("                            ");
    reveal_strlit("                        ");
    reveal_strlit("                       ");
    reveal_strlit("                    ");
    reveal_strlit("                  ");
    reveal_strlit("              ");
    reveal_strlit("             ");
    reveal_strlit("         ");
    reveal_strlit("        ");
    reveal_strlit("     ");
    reveal_strlit("    ");
    reveal_strlit("  ");
    reveal_strlit(" ");
    reveal_strlit(" = ");
    reveal_strlit(" @ ");
    reveal_strlit(" P:");
    reveal_strlit(" SP:");
    reveal_strlit(" X:");
    reveal_strlit(" Y:");
    reveal_strlit("#$");
    reveal_strlit("$");
    reveal_strlit("($");
    reveal_strlit(") = ");
    reveal_strlit("),Y = ");
    reveal_strlit(",X @ ");
    reveal_strlit(",X) @ ");
    reveal_strlit(",Y @ ");
    reveal_strlit("A                           ");
    reveal_strlit("A:");
    assert forall|byte: u8| #[trigger] hex8(byte).len() == 2 by {
        lemma_hex_widths(byte, 0);
    }
    assert forall|value: u16| #[trigger] hex16(value).len() == 4 by {
        lemma_hex_widths(0, value);
    }
}

/// Every trace line is 73 characters wide, whatever the instruction.
pub proof fn lemma_trace_width(s: CpuState)
    ensures
        s.trace_line().len() == 73,
{
    reveal(CpuState::trace_line);
    reveal_strlit("  ");
    reveal_strlit(" ");
    reveal_strlit("                            ");
    lemma_hex_widths(0, s.pc);
    match opcode_entry(s.code_byte(0)) {
        Some(op) => {
            lemma_trace_columns(s, op.op_length, op);
            lemma_mnemonic_width(op.mnemonic);
        },
        None => {
            lemma_trace_columns(s, 1, OpCode {
                mnemonic: Mnemonic::NOP,
                op_length: 1,
                cycles: 2,
                mode: AddressingMode::NoneAddressing,
            });
            lemma_mnemonic_width(Mnemonic::NOP);
        },
    }
}

} // verus!
