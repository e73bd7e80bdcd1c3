//! Opcode bytes by name.

use vstd::prelude::*;

verus! {

pub const DEX: u8 = 0xca;

pub const DEY: u8 = 0x88;

pub const CLD: u8 = 0xd8;

pub const CLI: u8 = 0x58;

pub const CLV: u8 = 0xb8;

pub const BRK: u8 = 0x00;

pub const INX: u8 = 0xe8;

pub const INY: u8 = 0xc8;

pub const LDX: u8 = 0xa2;

pub const LDX_A: u8 = 0xae;

pub const LDY: u8 = 0xa0;

pub const LDY_A: u8 = 0xa0;

pub const SEC: u8 = 0x38;

pub const CLC: u8 = 0x18;

pub const JSR: u8 = 0x20;

pub const RTI: u8 = 0x40;

pub const RTS: u8 = 0x60;

pub const JMP: u8 = 0x4c;

pub const NOP: u8 = 0xea;

pub const PHA: u8 = 0x48;

pub const PHP: u8 = 0x08;

pub const PLA: u8 = 0x68;

pub const PLP: u8 = 0x28;

pub const SED: u8 = 0xf8;

pub const SEI: u8 = 0x78;

pub const TAX: u8 = 0xaa;

pub const TAY: u8 = 0xa8;

pub const TSX: u8 = 0xba;

pub const TXA: u8 = 0x8a;

pub const TXS: u8 = 0x9a;

pub const TYA: u8 = 0x98;

pub const BMI: u8 = 0x30;

pub const BPL: u8 = 0x10;

pub const BVC: u8 = 0x50;

pub const BVS: u8 = 0x70;

pub const BCC: u8 = 0x90;

pub const BCS: u8 = 0xb0;

pub const BNE: u8 = 0xd0;

pub const BEQ: u8 = 0xf0;

pub const ASL: u8 = 0x0a;

pub const LSR: u8 = 0x4a;

pub const ROL: u8 = 0x2a;

pub const ROR: u8 = 0x6a;

pub const STY: u8 = 0x84;

pub const STA: u8 = 0x85;

pub const STX: u8 = 0x86;

pub const ADC_I: u8 = 0x69;

pub const SBC_I: u8 = 0xe9;

pub const LDA_I: u8 = 0xa9;

} // verus!
