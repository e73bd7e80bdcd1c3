//! What follows from the CPU's model: the invariants every instruction
//! keeps, and the laws the instruction set obeys.

use vstd::prelude::*;
use crate::bus::BusState;
use crate::bus::laws::lemma_pure_read;
use crate::bus::laws::lemma_ram_round_trip;
use crate::bus::laws::lemma_read_continues;
use crate::bus::laws::lemma_write_continues;
use crate::cpu::arith::high;
use crate::cpu::arith::low;
use crate::cpu::arith::next_in_page;
use crate::cpu::arith::pages_differ;
use crate::cpu::arith::signed;
use crate::cpu::arith::word;
use crate::cpu::arith::wrap16;
use crate::cpu::arith::wrap8;
use crate::cpu::flags::flag_set;
use crate::cpu::flags::lemma_flag_kept;
use crate::cpu::flags::lemma_flag_written;
use crate::cpu::flags::lemma_with_zn;
use crate::cpu::flags::pulled_status;
use crate::cpu::flags::with_flag;
use crate::cpu::flags::with_zn;
use crate::cpu::flags::StatusFlag;
use crate::cpu::flags::RESET_STATUS;
use crate::cpu::model::stack_addr;
use crate::cpu::model::CpuState;
use crate::cpu::model::NMI_CYCLES;
use crate::cpu::opcodes::lemma_table_rows;
use crate::cpu::opcodes::opcode_entry;
use crate::cpu::opcodes::AddressingMode;
use crate::cpu::opcodes::Mnemonic;
use crate::cpu::opcodes::OpCode;

verus! {

/// The status byte as it stands in the register between instructions: bit
/// 5 set, the break flag clear.
pub open spec fn status_is_clean(p: u8) -> bool {
    p & 0x30 == 0x20
}

impl CpuState {
    /// What no instruction changes, and what none breaks: the bus keeps
    /// what no access changes, a clean status byte stays clean, and a
    /// penalty is either left alone or set to its one cycle.
    pub open spec fn continues(self, before: CpuState) -> bool {
        &&& self.bus.continues(before.bus)
        &&& status_is_clean(before.p) ==> status_is_clean(self.p)
        &&& self.extra_addr == before.extra_addr || self.extra_addr == 1
        &&& self.extra_br == before.extra_br || self.extra_br == 1
    }
}

/// The status byte after reset is clean.
pub proof fn lemma_reset_status_clean()
    ensures
        status_is_clean(RESET_STATUS),
{
    assert(0x24u8 & 0x30 == 0x20) by (bit_vector);
}

/// Writing any flag but break and bit 5 leaves those two as they were.
pub proof fn lemma_flag_keeps_status_clean(p: u8, flag: StatusFlag, on: bool)
    requires
        flag != StatusFlag::BreakCommand,
        flag != StatusFlag::Undefined,
    ensures
        with_flag(p, flag, on) & 0x30 == p & 0x30,
{
    let b = flag.bit();
    assert((b == 1 || b == 2 || b == 4 || b == 8 || b == 64 || b == 128) ==> ((p | b) & 0x30 == p
        & 0x30 && (p & !b) & 0x30 == p & 0x30)) by (bit_vector);
}

/// Taking zero and negative from a value leaves break and bit 5 alone.
pub proof fn lemma_zn_keeps_status_clean(p: u8, value: u8)
    ensures
        with_zn(p, value) & 0x30 == p & 0x30,
{
    lemma_flag_keeps_status_clean(p, StatusFlag::Zero, value == 0);
    lemma_flag_keeps_status_clean(
        with_flag(p, StatusFlag::Zero, value == 0),
        StatusFlag::Negative,
        value >= 128,
    );
}

/// Whatever byte comes off the stack, the status register takes it clean.
pub proof fn lemma_pulled_status_clean(value: u8)
    ensures
        status_is_clean(pulled_status(value)),
{
    assert(((value & !0x10u8) | 0x20u8) & 0x30 == 0x20) by (bit_vector);
}

/// The copy of the status that `PHP` and `BRK` push has the break flag set.
pub proof fn lemma_pushed_status_has_break(p: u8)
    ensures
        flag_set(with_flag(p, StatusFlag::BreakCommand, true), StatusFlag::BreakCommand),
        flag_set(
            with_flag(with_flag(p, StatusFlag::BreakCommand, true), StatusFlag::Undefined, true),
            StatusFlag::BreakCommand,
        ),
        flag_set(
            with_flag(with_flag(p, StatusFlag::BreakCommand, true), StatusFlag::Undefined, true),
            StatusFlag::Undefined,
        ),
{
    lemma_flag_written(p, StatusFlag::BreakCommand, true);
    let q = with_flag(p, StatusFlag::BreakCommand, true);
    lemma_flag_written(q, StatusFlag::Undefined, true);
    lemma_flag_kept(q, StatusFlag::Undefined, true, StatusFlag::BreakCommand);
}

/// Finding an operand changes no register.
pub proof fn lemma_operand_continues(s: CpuState, mode: AddressingMode)
    ensures
        s.operand(mode).1.continues(s),
        s.operand(mode).1.keeps_registers(s),
        s.operand(mode).1.extra_br == s.extra_br,
{
    reveal(CpuState::operand);
    lemma_read_continues(s.bus, s.pc);
    let s1 = s.after_read(s.pc);
    lemma_read_continues(s1.bus, wrap16(s.pc + 1));
    match mode {
        AddressingMode::Indirect_X => {
            let ptr = wrap8(s.peek(s.pc) + s.x);
            lemma_read_continues(s1.bus, ptr as u16);
            lemma_read_continues(s1.after_read(ptr as u16).bus, wrap8(ptr + 1) as u16);
        },
        AddressingMode::Indirect_Y => {
            let ptr = s.peek(s.pc);
            lemma_read_continues(s1.bus, ptr as u16);
            lemma_read_continues(s1.after_read(ptr as u16).bus, wrap8(ptr + 1) as u16);
        },
        _ => {},
    }
}

/// Reading an operand changes no register.
pub proof fn lemma_load_continues(s: CpuState, mode: AddressingMode)
    ensures
        s.load(mode).1.continues(s),
        s.load(mode).1.keeps_registers(s),
        s.load(mode).1.extra_br == s.extra_br,
{
    lemma_operand_continues(s, mode);
    let (addr, s1) = s.operand(mode);
    lemma_read_continues(s1.bus, addr);
}

/// A push changes only the stack pointer and what the write changes.
pub proof fn lemma_push_continues(s: CpuState, value: u8)
    ensures
        s.pushed(value).continues(s),
        s.pushed(value).p == s.p,
        s.pushed(value).extra_addr == s.extra_addr,
        s.pushed(value).extra_br == s.extra_br,
{
    lemma_write_continues(s.bus, stack_addr(s.s), value);
}

/// A pop changes only the stack pointer and what the read changes.
pub proof fn lemma_pop_continues(s: CpuState)
    ensures
        s.popped().continues(s),
        s.popped().p == s.p,
        s.popped().extra_addr == s.extra_addr,
        s.popped().extra_br == s.extra_br,
{
    lemma_read_continues(s.bus, stack_addr(wrap8(s.s + 1)));
}

proof fn lemma_lda_continues(s: CpuState, mode: AddressingMode)
    ensures
        s.lda(mode).continues(s),
{
    reveal(CpuState::lda);
    lemma_load_continues(s, mode);
    let (value, s1) = s.load(mode);
    lemma_zn_keeps_status_clean(s1.p, value);
}

proof fn lemma_ldx_continues(s: CpuState, mode: AddressingMode)
    ensures
        s.ldx(mode).continues(s),
{
    reveal(CpuState::ldx);
    lemma_load_continues(s, mode);
    let (value, s1) = s.load(mode);
    lemma_zn_keeps_status_clean(s1.p, value);
}

proof fn lemma_ldy_continues(s: CpuState, mode: AddressingMode)
    ensures
        s.ldy(mode).continues(s),
{
    reveal(CpuState::ldy);
    lemma_load_continues(s, mode);
    let (value, s1) = s.load(mode);
    lemma_zn_keeps_status_clean(s1.p, value);
}

proof fn lemma_sta_continues(s: CpuState, mode: AddressingMode)
    ensures
        s.sta(mode).continues(s),
{
    reveal(CpuState::sta);
    lemma_operand_continues(s, mode);
    let (addr, s1) = s.operand(mode);
    lemma_write_continues(s1.bus, addr, s.a);
}

proof fn lemma_stx_continues(s: CpuState, mode: AddressingMode)
    ensures
        s.stx(mode).continues(s),
{
    reveal(CpuState::stx);
    lemma_operand_continues(s, mode);
    let (addr, s1) = s.operand(mode);
    lemma_write_continues(s1.bus, addr, s.x);
}

proof fn lemma_sty_continues(s: CpuState, mode: AddressingMode)
    ensures
        s.sty(mode).continues(s),
{
    reveal(CpuState::sty);
    lemma_operand_continues(s, mode);
    let (addr, s1) = s.operand(mode);
    lemma_write_continues(s1.bus, addr, s.y);
}

proof fn lemma_tax_continues(s: CpuState)
    ensures
        s.tax().continues(s),
{
    reveal(CpuState::tax);
    lemma_zn_keeps_status_clean(s.p, s.a);
}

proof fn lemma_tay_continues(s: CpuState)
    ensures
        s.tay().continues(s),
{
    reveal(CpuState::tay);
    lemma_zn_keeps_status_clean(s.p, s.a);
}

proof fn lemma_tsx_continues(s: CpuState)
    ensures
        s.tsx().continues(s),
{
    reveal(CpuState::tsx);
    lemma_zn_keeps_status_clean(s.p, s.s);
}

proof fn lemma_txa_continues(s: CpuState)
    ensures
        s.txa().continues(s),
{
    reveal(CpuState::txa);
    lemma_zn_keeps_status_clean(s.p, s.x);
}

proof fn lemma_tya_continues(s: CpuState)
    ensures
        s.tya().continues(s),
{
    reveal(CpuState::tya);
    lemma_zn_keeps_status_clean(s.p, s.y);
}

proof fn lemma_txs_continues(s: CpuState)
    ensures
        s.txs().continues(s),
{
    reveal(CpuState::txs);
}

/// Adding to the accumulator touches carry, overflow, zero and negative.
proof fn lemma_add_continues(s: CpuState, value: u8)
    ensures
        s.add_to_a(value).continues(s),
{
    let carry_in: int = if s.flag(StatusFlag::Carry) {
        1
    } else {
        0
    };
    let sum = s.a + value + carry_in;
    let total = signed(s.a) + signed(value) + carry_in;
    let q = with_flag(s.p, StatusFlag::Carry, sum > 0xFF);
    let r = with_flag(q, StatusFlag::Overflow, total < -128 || total > 127);
    lemma_flag_keeps_status_clean(s.p, StatusFlag::Carry, sum > 0xFF);
    lemma_flag_keeps_status_clean(q, StatusFlag::Overflow, total < -128 || total > 127);
    lemma_zn_keeps_status_clean(r, wrap8(sum));
}

proof fn lemma_adc_continues(s: CpuState, mode: AddressingMode)
    ensures
        s.adc(mode).continues(s),
{
    reveal(CpuState::adc);
    lemma_load_continues(s, mode);
    let (value, s1) = s.load(mode);
    lemma_add_continues(s1, value);
}

proof fn lemma_sbc_continues(s: CpuState, mode: AddressingMode)
    ensures
        s.sbc(mode).continues(s),
{
    reveal(CpuState::sbc);
    lemma_load_continues(s, mode);
    let (value, s1) = s.load(mode);
    lemma_add_continues(s1, (0xFF - value) as u8);
}

proof fn lemma_and_continues(s: CpuState, mode: AddressingMode)
    ensures
        s.and(mode).continues(s),
{
    reveal(CpuState::and);
    lemma_load_continues(s, mode);
    let (value, s1) = s.load(mode);
    lemma_zn_keeps_status_clean(s1.p, s1.a & value);
}

proof fn lemma_ora_continues(s: CpuState, mode: AddressingMode)
    ensures
        s.ora(mode).continues(s),
{
    reveal(CpuState::ora);
    lemma_load_continues(s, mode);
    let (value, s1) = s.load(mode);
    lemma_zn_keeps_status_clean(s1.p, s1.a | value);
}

proof fn lemma_eor_continues(s: CpuState, mode: AddressingMode)
    ensures
        s.eor(mode).continues(s),
{
    reveal(CpuState::eor);
    lemma_load_continues(s, mode);
    let (value, s1) = s.load(mode);
    lemma_zn_keeps_status_clean(s1.p, s1.a ^ value);
}

proof fn lemma_bit_continues(s: CpuState, mode: AddressingMode)
    ensures
        s.bit(mode).continues(s),
{
    reveal(CpuState::bit);
    lemma_load_continues(s, mode);
    let (value, s1) = s.load(mode);
    let q = with_flag(s1.p, StatusFlag::Negative, value >= 128);
    let r = with_flag(q, StatusFlag::Overflow, value & 0x40 != 0);
    lemma_flag_keeps_status_clean(s1.p, StatusFlag::Negative, value >= 128);
    lemma_flag_keeps_status_clean(q, StatusFlag::Overflow, value & 0x40 != 0);
    lemma_flag_keeps_status_clean(r, StatusFlag::Zero, value & s1.a == 0);
}

proof fn lemma_compared_continues(s: CpuState, register: u8, value: u8)
    ensures
        s.compared(register, value).continues(s),
{
    let q = with_flag(s.p, StatusFlag::Carry, register >= value);
    let r = with_flag(q, StatusFlag::Zero, register == value);
    lemma_flag_keeps_status_clean(s.p, StatusFlag::Carry, register >= value);
    lemma_flag_keeps_status_clean(q, StatusFlag::Zero, register == value);
    lemma_flag_keeps_status_clean(r, StatusFlag::Negative, wrap8(register - value) >= 128);
}

proof fn lemma_cmp_continues(s: CpuState, mode: AddressingMode)
    ensures
        s.cmp(mode).continues(s),
{
    reveal(CpuState::cmp);
    lemma_load_continues(s, mode);
    let (value, s1) = s.load(mode);
    lemma_compared_continues(s1, s1.a, value);
}

proof fn lemma_cpx_continues(s: CpuState, mode: AddressingMode)
    ensures
        s.cpx(mode).continues(s),
{
    reveal(CpuState::cpx);
    lemma_load_continues(s, mode);
    let (value, s1) = s.load(mode);
    lemma_compared_continues(s1, s1.x, value);
}

proof fn lemma_cpy_continues(s: CpuState, mode: AddressingMode)
    ensures
        s.cpy(mode).continues(s),
{
    reveal(CpuState::cpy);
    lemma_load_continues(s, mode);
    let (value, s1) = s.load(mode);
    lemma_compared_continues(s1, s1.y, value);
}

proof fn lemma_shift_continues(s: CpuState, mode: AddressingMode, result: u8, carry: bool)
    ensures
        s.shift_output(mode, result, carry).continues(s),
{
    if mode == AddressingMode::NoneAddressing {
        let q = with_flag(s.p, StatusFlag::Carry, carry);
        lemma_flag_keeps_status_clean(s.p, StatusFlag::Carry, carry);
        lemma_zn_keeps_status_clean(q, result);
    } else {
        lemma_operand_continues(s, mode);
        let (addr, s1) = s.operand(mode);
        lemma_read_continues(s1.bus, addr);
        lemma_write_continues(s1.after_read(addr).bus, addr, result);
        let q = with_flag(s1.p, StatusFlag::Carry, carry);
        lemma_flag_keeps_status_clean(s1.p, StatusFlag::Carry, carry);
        lemma_zn_keeps_status_clean(q, result);
    }
}

proof fn lemma_asl_continues(s: CpuState, mode: AddressingMode)
    ensures
        s.asl(mode).continues(s),
{
    reveal(CpuState::asl);
    let value = s.shift_input(mode);
    lemma_shift_continues(s, mode, CpuState::shifted_left(value, false), value >= 128);
}

proof fn lemma_lsr_continues(s: CpuState, mode: AddressingMode)
    ensures
        s.lsr(mode).continues(s),
{
    reveal(CpuState::lsr);
    let value = s.shift_input(mode);
    lemma_shift_continues(s, mode, CpuState::shifted_right(value, false), value % 2 == 1);
}

proof fn lemma_rol_continues(s: CpuState, mode: AddressingMode)
    ensures
        s.rol(mode).continues(s),
{
    reveal(CpuState::rol);
    let value = s.shift_input(mode);
    let result = CpuState::shifted_left(value, s.flag(StatusFlag::Carry));
    lemma_shift_continues(s, mode, result, value >= 128);
}

proof fn lemma_ror_continues(s: CpuState, mode: AddressingMode)
    ensures
        s.ror(mode).continues(s),
{
    reveal(CpuState::ror);
    let value = s.shift_input(mode);
    let result = CpuState::shifted_right(value, s.flag(StatusFlag::Carry));
    lemma_shift_continues(s, mode, result, value % 2 == 1);
}

proof fn lemma_inc_continues(s: CpuState, mode: AddressingMode)
    ensures
        s.inc(mode).continues(s),
{
    reveal(CpuState::inc);
    lemma_operand_continues(s, mode);
    let (addr, s1) = s.operand(mode);
    let r = wrap8(s1.peek(addr) + 1);
    lemma_read_continues(s1.bus, addr);
    lemma_write_continues(s1.after_read(addr).bus, addr, r);
    lemma_zn_keeps_status_clean(s1.p, r);
}

proof fn lemma_dec_continues(s: CpuState, mode: AddressingMode)
    ensures
        s.dec(mode).continues(s),
{
    reveal(CpuState::dec);
    lemma_operand_continues(s, mode);
    let (addr, s1) = s.operand(mode);
    let r = wrap8(s1.peek(addr) - 1);
    lemma_read_continues(s1.bus, addr);
    lemma_write_continues(s1.after_read(addr).bus, addr, r);
    lemma_zn_keeps_status_clean(s1.p, r);
}

proof fn lemma_inx_continues(s: CpuState)
    ensures
        s.inx().continues(s),
{
    reveal(CpuState::inx);
    lemma_zn_keeps_status_clean(s.p, wrap8(s.x + 1));
}

proof fn lemma_iny_continues(s: CpuState)
    ensures
        s.iny().continues(s),
{
    reveal(CpuState::iny);
    lemma_zn_keeps_status_clean(s.p, wrap8(s.y + 1));
}

proof fn lemma_dex_continues(s: CpuState)
    ensures
        s.dex().continues(s),
{
    reveal(CpuState::dex);
    lemma_zn_keeps_status_clean(s.p, wrap8(s.x - 1));
}

proof fn lemma_dey_continues(s: CpuState)
    ensures
        s.dey().continues(s),
{
    reveal(CpuState::dey);
    lemma_zn_keeps_status_clean(s.p, wrap8(s.y - 1));
}

proof fn lemma_pha_continues(s: CpuState)
    ensures
        s.pha().continues(s),
{
    reveal(CpuState::pha);
    lemma_push_continues(s, s.a);
}

proof fn lemma_php_continues(s: CpuState)
    ensures
        s.php().continues(s),
{
    reveal(CpuState::php);
    lemma_push_continues(s, with_flag(s.p, StatusFlag::BreakCommand, true));
}

proof fn lemma_pla_continues(s: CpuState)
    ensures
        s.pla().continues(s),
{
    reveal(CpuState::pla);
    lemma_pop_continues(s);
    lemma_zn_keeps_status_clean(s.popped().p, s.pop_value());
}

proof fn lemma_plp_continues(s: CpuState)
    ensures
        s.plp().continues(s),
{
    reveal(CpuState::plp);
    lemma_pop_continues(s);
    lemma_pulled_status_clean(s.pop_value());
}

proof fn lemma_branch_if_continues(s: CpuState, mode: AddressingMode)
    ensures
        forall|flag: StatusFlag, wanted: bool| #[trigger]
            s.branch_if(mode, flag, wanted).continues(s),
{
    reveal(CpuState::branch_if);
    lemma_operand_continues(s, mode);
    let (addr, s1) = s.operand(mode);
    lemma_read_continues(s1.bus, addr);
}

proof fn lemma_jmp_continues(s: CpuState, mode: AddressingMode)
    ensures
        s.jmp(mode).continues(s),
{
    reveal(CpuState::jmp);
    lemma_operand_continues(s, mode);
    let (addr, s1) = s.operand(mode);
    lemma_read_continues(s1.bus, addr);
    lemma_read_continues(s1.after_read(addr).bus, next_in_page(addr));
}

proof fn lemma_push_u16_continues(s: CpuState, value: u16)
    ensures
        s.pushed_u16(value).continues(s),
        s.pushed_u16(value).p == s.p,
        s.pushed_u16(value).extra_addr == s.extra_addr,
        s.pushed_u16(value).extra_br == s.extra_br,
{
    lemma_push_continues(s, high(value));
    lemma_push_continues(s.pushed(high(value)), low(value));
}

proof fn lemma_pop_u16_continues(s: CpuState)
    ensures
        s.popped_u16().continues(s),
        s.popped_u16().p == s.p,
        s.popped_u16().extra_addr == s.extra_addr,
        s.popped_u16().extra_br == s.extra_br,
{
    lemma_pop_continues(s);
    lemma_pop_continues(s.popped());
}

proof fn lemma_read_u16_continues(s: CpuState, pos: u16)
    ensures
        s.after_read_u16(pos).continues(s),
        s.after_read_u16(pos).p == s.p,
        s.after_read_u16(pos).extra_addr == s.extra_addr,
        s.after_read_u16(pos).extra_br == s.extra_br,
{
    lemma_read_continues(s.bus, pos);
    lemma_read_continues(s.after_read(pos).bus, wrap16(pos + 1));
}

proof fn lemma_jsr_continues(s: CpuState)
    ensures
        s.jsr().continues(s),
{
    reveal(CpuState::jsr);
    lemma_operand_continues(s, AddressingMode::Absolute);
    let (addr, s1) = s.operand(AddressingMode::Absolute);
    lemma_push_u16_continues(s1, wrap16(s.pc + 1));
}

proof fn lemma_rts_continues(s: CpuState)
    ensures
        s.rts().continues(s),
{
    reveal(CpuState::rts);
    lemma_pop_u16_continues(s);
}

proof fn lemma_rti_continues(s: CpuState)
    ensures
        s.rti().continues(s),
{
    reveal(CpuState::rti);
    lemma_pop_continues(s);
    lemma_pulled_status_clean(s.pop_value());
    let s1 = CpuState { p: pulled_status(s.pop_value()), ..s.popped() };
    lemma_pop_u16_continues(s1);
}

proof fn lemma_brk_continues(s: CpuState)
    ensures
        s.brk().continues(s),
{
    reveal(CpuState::brk);
    lemma_push_u16_continues(s, wrap16(s.pc + 1));
    let s1 = s.pushed_u16(wrap16(s.pc + 1));
    let pushed = with_flag(
        with_flag(s.p, StatusFlag::BreakCommand, true),
        StatusFlag::Undefined,
        true,
    );
    lemma_push_continues(s1, pushed);
    lemma_flag_keeps_status_clean(s.p, StatusFlag::InterruptDisable, true);
    let s2 = s1.pushed(pushed).flagged(StatusFlag::InterruptDisable, true);
    lemma_read_u16_continues(s2, crate::cpu::model::BREAK_VECTOR);
}

proof fn lemma_move_data_continues(s: CpuState, mnemonic: Mnemonic, mode: AddressingMode)
    requires
        matches!(
            mnemonic,
            Mnemonic::LDA
                | Mnemonic::LDX
                | Mnemonic::LDY
                | Mnemonic::STA
                | Mnemonic::STX
                | Mnemonic::STY
                | Mnemonic::TAX
                | Mnemonic::TAY
                | Mnemonic::TSX
                | Mnemonic::TXA
                | Mnemonic::TXS
                | Mnemonic::TYA
        ),
    ensures
        s.perform(mnemonic, mode).continues(s),
{
    reveal(CpuState::perform);
    match mnemonic {
        Mnemonic::LDA => {
            lemma_lda_continues(s, mode);
        },
        Mnemonic::LDX => {
            lemma_ldx_continues(s, mode);
        },
        Mnemonic::LDY => {
            lemma_ldy_continues(s, mode);
        },
        Mnemonic::STA => {
            lemma_sta_continues(s, mode);
        },
        Mnemonic::STX => {
            lemma_stx_continues(s, mode);
        },
        Mnemonic::STY => {
            lemma_sty_continues(s, mode);
        },
        Mnemonic::TAX => {
            lemma_tax_continues(s);
        },
        Mnemonic::TAY => {
            lemma_tay_continues(s);
        },
        Mnemonic::TSX => {
            lemma_tsx_continues(s);
        },
        Mnemonic::TXA => {
            lemma_txa_continues(s);
        },
        Mnemonic::TXS => {
            lemma_txs_continues(s);
        },
        Mnemonic::TYA => {
            lemma_tya_continues(s);
        },
        _ => {},
    }
}

proof fn lemma_compute_continues(s: CpuState, mnemonic: Mnemonic, mode: AddressingMode)
    requires
        matches!(
            mnemonic,
            Mnemonic::ADC
                | Mnemonic::SBC
                | Mnemonic::AND
                | Mnemonic::ORA
                | Mnemonic::EOR
                | Mnemonic::BIT
                | Mnemonic::CMP
                | Mnemonic::CPX
                | Mnemonic::CPY
        ),
    ensures
        s.perform(mnemonic, mode).continues(s),
{
    reveal(CpuState::perform);
    match mnemonic {
        Mnemonic::ADC => {
            lemma_adc_continues(s, mode);
        },
        Mnemonic::SBC => {
            lemma_sbc_continues(s, mode);
        },
        Mnemonic::AND => {
            lemma_and_continues(s, mode);
        },
        Mnemonic::ORA => {
            lemma_ora_continues(s, mode);
        },
        Mnemonic::EOR => {
            lemma_eor_continues(s, mode);
        },
        Mnemonic::BIT => {
            lemma_bit_continues(s, mode);
        },
        Mnemonic::CMP => {
            lemma_cmp_continues(s, mode);
        },
        Mnemonic::CPX => {
            lemma_cpx_continues(s, mode);
        },
        Mnemonic::CPY => {
            lemma_cpy_continues(s, mode);
        },
        _ => {},
    }
}

proof fn lemma_modify_continues(s: CpuState, mnemonic: Mnemonic, mode: AddressingMode)
    requires
        matches!(
            mnemonic,
            Mnemonic::ASL
                | Mnemonic::LSR
                | Mnemonic::ROL
                | Mnemonic::ROR
                | Mnemonic::INC
                | Mnemonic::DEC
                | Mnemonic::INX
                | Mnemonic::INY
                | Mnemonic::DEX
                | Mnemonic::DEY
        ),
    ensures
        s.perform(mnemonic, mode).continues(s),
{
    reveal(CpuState::perform);
    match mnemonic {
        Mnemonic::ASL => {
            lemma_asl_continues(s, mode);
        },
        Mnemonic::LSR => {
            lemma_lsr_continues(s, mode);
        },
        Mnemonic::ROL => {
            lemma_rol_continues(s, mode);
        },
        Mnemonic::ROR => {
            lemma_ror_continues(s, mode);
        },
        Mnemonic::INC => {
            lemma_inc_continues(s, mode);
        },
        Mnemonic::DEC => {
            lemma_dec_continues(s, mode);
        },
        Mnemonic::INX => {
            lemma_inx_continues(s);
        },
        Mnemonic::INY => {
            lemma_iny_continues(s);
        },
        Mnemonic::DEX => {
            lemma_dex_continues(s);
        },
        Mnemonic::DEY => {
            lemma_dey_continues(s);
        },
        _ => {},
    }
}

proof fn lemma_branch_continues(s: CpuState, mnemonic: Mnemonic, mode: AddressingMode)
    requires
        matches!(
            mnemonic,
            Mnemonic::BCC
                | Mnemonic::BCS
                | Mnemonic::BEQ
                | Mnemonic::BMI
                | Mnemonic::BNE
                | Mnemonic::BPL
                | Mnemonic::BVC
                | Mnemonic::BVS
        ),
    ensures
        s.perform(mnemonic, mode).continues(s),
{
    reveal(CpuState::perform);
    match mnemonic {
        Mnemonic::BCC => {
            lemma_branch_if_continues(s, mode);
        },
        Mnemonic::BCS => {
            lemma_branch_if_continues(s, mode);
        },
        Mnemonic::BEQ => {
            lemma_branch_if_continues(s, mode);
        },
        Mnemonic::BMI => {
            lemma_branch_if_continues(s, mode);
        },
        Mnemonic::BNE => {
            lemma_branch_if_continues(s, mode);
        },
        Mnemonic::BPL => {
            lemma_branch_if_continues(s, mode);
        },
        Mnemonic::BVC => {
            lemma_branch_if_continues(s, mode);
        },
        Mnemonic::BVS => {
            lemma_branch_if_continues(s, mode);
        },
        _ => {},
    }
}

proof fn lemma_transfer_control_continues(s: CpuState, mnemonic: Mnemonic, mode: AddressingMode)
    requires
        matches!(
            mnemonic,
            Mnemonic::JMP
                | Mnemonic::JSR
                | Mnemonic::RTS
                | Mnemonic::RTI
                | Mnemonic::BRK
        ),
    ensures
        s.perform(mnemonic, mode).continues(s),
{
    reveal(CpuState::perform);
    match mnemonic {
        Mnemonic::JMP => {
            lemma_jmp_continues(s, mode);
        },
        Mnemonic::JSR => {
            lemma_jsr_continues(s);
        },
        Mnemonic::RTS => {
            lemma_rts_continues(s);
        },
        Mnemonic::RTI => {
            lemma_rti_continues(s);
        },
        Mnemonic::BRK => {
            lemma_brk_continues(s);
        },
        _ => {},
    }
}

proof fn lemma_stack_and_flags_continues(s: CpuState, mnemonic: Mnemonic, mode: AddressingMode)
    requires
        matches!(
            mnemonic,
            Mnemonic::PHA
                | Mnemonic::PHP
                | Mnemonic::PLA
                | Mnemonic::PLP
                | Mnemonic::CLC
                | Mnemonic::CLD
                | Mnemonic::CLI
                | Mnemonic::CLV
                | Mnemonic::SEC
                | Mnemonic::SED
                | Mnemonic::SEI
                | Mnemonic::NOP
        ),
    ensures
        s.perform(mnemonic, mode).continues(s),
{
    reveal(CpuState::perform);
    match mnemonic {
        Mnemonic::PHA => {
            lemma_pha_continues(s);
        },
        Mnemonic::PHP => {
            lemma_php_continues(s);
        },
        Mnemonic::PLA => {
            lemma_pla_continues(s);
        },
        Mnemonic::PLP => {
            lemma_plp_continues(s);
        },
        Mnemonic::CLC => {
            lemma_flag_keeps_status_clean(s.p, StatusFlag::Carry, false);
        },
        Mnemonic::CLD => {
            lemma_flag_keeps_status_clean(s.p, StatusFlag::DecimalMode, false);
        },
        Mnemonic::CLI => {
            lemma_flag_keeps_status_clean(s.p, StatusFlag::InterruptDisable, false);
        },
        Mnemonic::CLV => {
            lemma_flag_keeps_status_clean(s.p, StatusFlag::Overflow, false);
        },
        Mnemonic::SEC => {
            lemma_flag_keeps_status_clean(s.p, StatusFlag::Carry, true);
        },
        Mnemonic::SED => {
            lemma_flag_keeps_status_clean(s.p, StatusFlag::DecimalMode, true);
        },
        Mnemonic::SEI => {
            lemma_flag_keeps_status_clean(s.p, StatusFlag::InterruptDisable, true);
        },
        Mnemonic::NOP => {},
        _ => {},
    }
}

/// No instruction changes what no instruction may change: the program
/// ROM, the cycle count and the PPU's clock stay, a clean status byte stays
/// clean, and each penalty is left alone or set to one.
pub proof fn lemma_perform_continues(s: CpuState, mnemonic: Mnemonic, mode: AddressingMode)
    ensures
        s.perform(mnemonic, mode).continues(s),
{
    match mnemonic {
        Mnemonic::LDA
        | Mnemonic::LDX
        | Mnemonic::LDY
        | Mnemonic::STA
        | Mnemonic::STX
        | Mnemonic::STY
        | Mnemonic::TAX
        | Mnemonic::TAY
        | Mnemonic::TSX
        | Mnemonic::TXA
        | Mnemonic::TXS
        | Mnemonic::TYA => {
            lemma_move_data_continues(s, mnemonic, mode);
        },
        Mnemonic::ADC
        | Mnemonic::SBC
        | Mnemonic::AND
        | Mnemonic::ORA
        | Mnemonic::EOR
        | Mnemonic::BIT
        | Mnemonic::CMP
        | Mnemonic::CPX
        | Mnemonic::CPY => {
            lemma_compute_continues(s, mnemonic, mode);
        },
        Mnemonic::ASL
        | Mnemonic::LSR
        | Mnemonic::ROL
        | Mnemonic::ROR
        | Mnemonic::INC
        | Mnemonic::DEC
        | Mnemonic::INX
        | Mnemonic::INY
        | Mnemonic::DEX
        | Mnemonic::DEY => {
            lemma_modify_continues(s, mnemonic, mode);
        },
        Mnemonic::BCC
        | Mnemonic::BCS
        | Mnemonic::BEQ
        | Mnemonic::BMI
        | Mnemonic::BNE
        | Mnemonic::BPL
        | Mnemonic::BVC
        | Mnemonic::BVS => {
            lemma_branch_continues(s, mnemonic, mode);
        },
        Mnemonic::JMP
        | Mnemonic::JSR
        | Mnemonic::RTS
        | Mnemonic::RTI
        | Mnemonic::BRK => {
            lemma_transfer_control_continues(s, mnemonic, mode);
        },
        Mnemonic::PHA
        | Mnemonic::PHP
        | Mnemonic::PLA
        | Mnemonic::PLP
        | Mnemonic::CLC
        | Mnemonic::CLD
        | Mnemonic::CLI
        | Mnemonic::CLV
        | Mnemonic::SEC
        | Mnemonic::SED
        | Mnemonic::SEI
        | Mnemonic::NOP => {
            lemma_stack_and_flags_continues(s, mnemonic, mode);
        },
    }
}

/// The cycles an instruction costs are its base cost, one more for a
/// taken branch, and one more for a page crossed: between two and nine.
pub proof fn lemma_cost_bounds(s: CpuState, op: OpCode)
    requires
        s.extra_addr <= 1,
        s.extra_br <= 1,
        2 <= op.cycles <= 7,
    ensures
        s.cost(op) == op.cycles + s.extra_br + s.extra_addr,
        2 <= s.cost(op) <= 9,
{
}

/// Ticking the bus for the cost of an instruction keeps it well formed.
proof fn lemma_tick_keeps_wf(bus: BusState, cycles: u8)
    requires
        bus.wf(),
        cycles <= 9,
    ensures
        bus.ticked(cycles).wf(),
        bus.ticked(cycles).fault == bus.fault,
{
    reveal(BusState::wf);
}

/// An instruction leaves the machine between instructions again, and a
/// clean status byte clean: bit 5 stays set and the break flag stays clear.
pub proof fn lemma_execute_invariant(s: CpuState)
    requires
        s.wf(),
    ensures
        s.execute().0.wf(),
        status_is_clean(s.p) ==> status_is_clean(s.execute().0.p),
{
    if s.bus.fault is None {
        lemma_read_continues(s.bus, s.pc);
        let fetched = s.fetched();
        match opcode_entry(s.peek(s.pc)) {
            None => {},
            Some(op) => {
                lemma_table_rows(s.peek(s.pc));
                if op.mnemonic != Mnemonic::BRK {
                    lemma_perform_continues(fetched, op.mnemonic, op.mode);
                    let done = fetched.perform(op.mnemonic, op.mode);
                    lemma_cost_bounds(done, op);
                    lemma_tick_keeps_wf(done.bus, done.cost(op));
                }
            },
        }
    }
}

/// Exactly one tick per instruction: an instruction that runs to its end
/// advances the cycle count once, by its cost, which is at least two; the
/// accesses of the instruction itself leave the count and the PPU's clock
/// alone, and the PPU then runs three dots for each cycle.
pub proof fn lemma_instruction_ticks_once(s: CpuState, op: OpCode)
    requires
        s.wf(),
        s.bus.fault is None,
        opcode_entry(s.peek(s.pc)) == Some(op),
        op.mnemonic != Mnemonic::BRK,
    ensures
        ({
            let done = s.fetched().perform(op.mnemonic, op.mode);
            let cycles = done.cost(op);
            &&& 2 <= op.cycles <= cycles <= op.cycles + 2
            &&& done.bus.cycles == s.bus.cycles
            &&& done.bus.ppu.dot == s.bus.ppu.dot
            &&& done.bus.ppu.scanline == s.bus.ppu.scanline
            &&& s.execute().0.bus == done.bus.ticked(cycles)
            &&& s.execute().0.bus.cycles == s.bus.cycles.wrapping_add(cycles as usize)
            &&& s.execute().0.bus.ppu == done.bus.ppu.ticked((3 * cycles) as u8)
        }),
{
    lemma_read_continues(s.bus, s.pc);
    lemma_table_rows(s.peek(s.pc));
    lemma_perform_continues(s.fetched(), op.mnemonic, op.mode);
    lemma_cost_bounds(s.fetched().perform(op.mnemonic, op.mode), op);
}

/// Servicing an NMI leaves the machine between instructions and a clean
/// status byte clean.
pub proof fn lemma_nmi_invariant(s: CpuState)
    requires
        s.wf(),
    ensures
        s.nmi_serviced().wf(),
        status_is_clean(s.p) ==> status_is_clean(s.nmi_serviced().p),
{
    lemma_push_u16_continues(s, s.pc);
    let s1 = s.pushed_u16(s.pc);
    lemma_push_continues(s1, pulled_status(s.p));
    lemma_flag_keeps_status_clean(s.p, StatusFlag::InterruptDisable, true);
    let s2 = s.nmi_entered();
    lemma_tick_keeps_wf(s2.bus, NMI_CYCLES);
    let s3 = CpuState { bus: s2.bus.ticked(NMI_CYCLES), ..s2 };
    lemma_read_u16_continues(s3, crate::cpu::model::NMI_VECTOR);
}

/// Sampling the NMI line and servicing a pending NMI leaves the machine
/// between instructions and a clean status byte clean.
pub proof fn lemma_prepare_invariant(s: CpuState)
    requires
        s.wf(),
    ensures
        s.prepared().wf(),
        status_is_clean(s.p) ==> status_is_clean(s.prepared().p),
{
    reveal(BusState::wf);
    if s.bus.fault is None && s.bus.ppu.nmi {
        lemma_nmi_invariant(s.polled());
    }
}

/// One pass through the loop leaves the machine between instructions and
/// a clean status byte clean.
pub proof fn lemma_step_invariant(s: CpuState)
    requires
        s.wf(),
    ensures
        s.step().0.wf(),
        status_is_clean(s.p) ==> status_is_clean(s.step().0.p),
{
    lemma_prepare_invariant(s);
    lemma_execute_invariant(s.prepared());
}

/// However long the machine runs, bit 5 of the status stays set and the
/// break flag stays clear, and the machine stays between instructions.
pub proof fn lemma_run_invariant(s: CpuState, budget: nat)
    requires
        s.wf(),
    ensures
        s.run(budget).0.wf(),
        status_is_clean(s.p) ==> status_is_clean(s.run(budget).0.p),
    decreases budget,
{
    if budget > 0 {
        lemma_step_invariant(s);
        if s.step().1 is Continue {
            lemma_run_invariant(s.step().0, (budget - 1) as nat);
        }
    }
}

/// Reset leaves the machine between instructions with a clean status.
pub proof fn lemma_reset_invariant(s: CpuState)
    requires
        s.bus.wf(),
    ensures
        s.reset_state().wf(),
        s.reset_state().a == 0,
        s.reset_state().x == 0,
        s.reset_state().y == 0,
        s.reset_state().s == 0xFD,
        s.reset_state().p == 0x24,
        s.reset_state().pc == s.peek_u16(0xFFFC),
        status_is_clean(s.reset_state().p),
{
    lemma_reset_status_clean();
    lemma_read_u16_continues(s, crate::cpu::model::RESET_VECTOR);
}

/// A transfer copies the source register to the destination and takes
/// zero and negative from the value, touching no other flag; `TXS` alone
/// leaves the flags as they are.
pub proof fn lemma_transfers(s: CpuState)
    ensures
        s.tax().x == s.a && s.tax().flag(StatusFlag::Zero) == (s.a == 0) && s.tax().flag(
            StatusFlag::Negative,
        ) == (s.a >= 128),
        s.tay().y == s.a && s.tay().flag(StatusFlag::Zero) == (s.a == 0) && s.tay().flag(
            StatusFlag::Negative,
        ) == (s.a >= 128),
        s.txa().a == s.x && s.txa().flag(StatusFlag::Zero) == (s.x == 0) && s.txa().flag(
            StatusFlag::Negative,
        ) == (s.x >= 128),
        s.tya().a == s.y && s.tya().flag(StatusFlag::Zero) == (s.y == 0) && s.tya().flag(
            StatusFlag::Negative,
        ) == (s.y >= 128),
        s.tsx().x == s.s && s.tsx().flag(StatusFlag::Zero) == (s.s == 0) && s.tsx().flag(
            StatusFlag::Negative,
        ) == (s.s >= 128),
        s.txs().s == s.x && s.txs().p == s.p,
        forall|other: StatusFlag|
            other != StatusFlag::Zero && other != StatusFlag::Negative ==> {
                &&& #[trigger] s.tax().flag(other) == s.flag(other)
                &&& #[trigger] s.tay().flag(other) == s.flag(other)
                &&& #[trigger] s.txa().flag(other) == s.flag(other)
                &&& #[trigger] s.tya().flag(other) == s.flag(other)
                &&& #[trigger] s.tsx().flag(other) == s.flag(other)
            },
{
    reveal(CpuState::tax);
    reveal(CpuState::tay);
    reveal(CpuState::txa);
    reveal(CpuState::tya);
    reveal(CpuState::tsx);
    reveal(CpuState::txs);
    lemma_with_zn(s.p, s.a);
    lemma_with_zn(s.p, s.x);
    lemma_with_zn(s.p, s.y);
    lemma_with_zn(s.p, s.s);
}

/// What is pushed is what is popped: `PHA` followed by `PLA` gives the
/// accumulator back, with zero and negative taken from it, and leaves the
/// stack pointer where it was.
pub proof fn lemma_pha_pla(s: CpuState)
    requires
        s.bus.wf(),
    ensures
        s.pha().pla().a == s.a,
        s.pha().pla().s == s.s,
        s.pha().pla().x == s.x,
        s.pha().pla().y == s.y,
        s.pha().pla().pc == s.pc,
        s.pha().pla().flag(StatusFlag::Zero) == (s.a == 0),
        s.pha().pla().flag(StatusFlag::Negative) == (s.a >= 128),
        s.pha().pla().p == with_zn(s.p, s.a),
{
    reveal(CpuState::pha);
    reveal(CpuState::pla);
    reveal(wrap8);
    let pushed = s.pha();
    assert(stack_addr(wrap8(pushed.s + 1)) == stack_addr(s.s));
    lemma_ram_round_trip(s.bus, stack_addr(s.s), s.a);
    lemma_with_zn(s.p, s.a);
}

/// Adding an operand with the carry clear and then subtracting the same
/// operand gives the accumulator back exactly when the addition carried:
/// the carry it leaves is the "no borrow" the subtraction needs. When the
/// addition did not carry, the subtraction borrows and comes out one short.
pub proof fn lemma_adc_then_sbc(s: CpuState, value: u8)
    requires
        !s.flag(StatusFlag::Carry),
    ensures
        s.add_to_a(value).a == wrap8(s.a + value),
        s.add_to_a(value).flag(StatusFlag::Carry) == (s.a + value > 0xFF),
        s.a + value > 0xFF ==> s.add_to_a(value).add_to_a((0xFF - value) as u8).a == s.a,
        s.a + value <= 0xFF ==> s.add_to_a(value).add_to_a((0xFF - value) as u8).a == wrap8(
            s.a - 1,
        ),
        (s.add_to_a(value).add_to_a((0xFF - value) as u8).a == s.a) <==> s.a + value > 0xFF,
{
    reveal(wrap8);
    let sum = s.a + value;
    let total = signed(s.a) + signed(value);
    let q = with_flag(s.p, StatusFlag::Carry, sum > 0xFF);
    let r = with_flag(q, StatusFlag::Overflow, total < -128 || total > 127);
    lemma_flag_written(s.p, StatusFlag::Carry, sum > 0xFF);
    lemma_flag_kept(q, StatusFlag::Overflow, total < -128 || total > 127, StatusFlag::Carry);
    lemma_with_zn(r, wrap8(sum));
}

/// Page-zero indexing never leaves page zero: the index is added to the
/// operand byte modulo 256. The pointer of an indexed-indirect operand
/// wraps the same way.
pub proof fn lemma_zero_page_wraps(s: CpuState)
    ensures
        s.operand(AddressingMode::ZeroPage_X).0 == (s.peek(s.pc) + s.x) % 0x100,
        s.operand(AddressingMode::ZeroPage_Y).0 == (s.peek(s.pc) + s.y) % 0x100,
        s.operand(AddressingMode::ZeroPage).0 == s.peek(s.pc),
        s.operand(AddressingMode::ZeroPage_X).0 < 0x100,
        s.operand(AddressingMode::ZeroPage_Y).0 < 0x100,
        s.peek(s.pc) == 0xFF && s.x == 1 ==> s.operand(AddressingMode::ZeroPage_X).0 == 0,
{
    reveal(CpuState::operand);
    reveal(wrap8);
}

/// The second byte of an indirect jump's target comes from the pointer's
/// own page: after `$xxFF` comes `$xx00`, not the first byte of the next
/// page.
pub proof fn lemma_next_in_page(ptr: u16)
    ensures
        ptr % 0x100 == 0xFF ==> next_in_page(ptr) == ptr - 0xFF,
        ptr % 0x100 != 0xFF ==> next_in_page(ptr) == ptr + 1,
        !pages_differ(ptr, next_in_page(ptr)),
{
    reveal(next_in_page);
    reveal(pages_differ);
}

/// An indirect jump through a pointer outside the PPU's register window
/// loads the program counter with the low byte at the pointer and the high
/// byte at the next address inside the pointer's page. The operand itself
/// has to lie outside the window too.
pub proof fn lemma_indirect_jump(s: CpuState)
    requires
        BusState::reads_purely(s.pc),
        BusState::reads_purely(wrap16(s.pc + 1)),
        BusState::reads_purely(s.peek_u16(s.pc)),
    ensures
        ({
            let ptr = word(s.peek(wrap16(s.pc + 1)), s.peek(s.pc));
            &&& s.jmp(AddressingMode::Indirect).pc == word(s.peek(next_in_page(ptr)), s.peek(ptr))
            &&& s.jmp(AddressingMode::Absolute).pc == ptr
        }),
{
    reveal(CpuState::jmp);
    reveal(CpuState::operand);
    lemma_pure_read(s.bus, s.pc);
    lemma_pure_read(s.bus, wrap16(s.pc + 1));
    lemma_pure_read(s.bus, s.peek_u16(s.pc));
}

/// A branch that is not taken changes nothing and costs nothing extra. A
/// branch that is taken goes to the address after the displacement byte
/// plus the signed displacement, costs one cycle more, and yet one more
/// when that target lies in another page than the next instruction.
pub proof fn lemma_branch_cost(s: CpuState, flag: StatusFlag, wanted: bool, op: OpCode)
    requires
        s.wf(),
        BusState::reads_purely(s.pc),
        op.mode == AddressingMode::Relative,
        2 <= op.cycles <= 7,
    ensures
        ({
            let after = s.branch_if(op.mode, flag, wanted);
            let next = wrap16(s.pc + 1);
            let target = wrap16(next + signed(s.peek(s.pc)));
            let crossed: int = if pages_differ(next, target) {
                1
            } else {
                0
            };
            &&& s.flag(flag) != wanted ==> after == s && after.cost(op) == op.cycles
            &&& s.flag(flag) == wanted ==> after.pc == target && after.cost(op) == op.cycles + 1
                + crossed
        }),
{
    reveal(CpuState::branch_if);
    reveal(CpuState::operand);
    lemma_pure_read(s.bus, s.pc);
}

/// Pushing and popping move the stack pointer to a neighbouring cell of
/// page one and back.
proof fn lemma_stack_neighbours(sp: u8)
    ensures
        wrap8(wrap8(sp - 1) + 1) == sp,
        wrap8(wrap8(sp + 1) - 1) == sp,
        wrap8(sp - 1) != sp,
        stack_addr(sp) <= 0x1FF,
        stack_addr(sp) % 0x800 == 0x100 + sp,
{
    reveal(wrap8);
}

/// Stepping an address twice is stepping it by two.
proof fn lemma_step_twice(addr: u16)
    ensures
        wrap16(wrap16(addr + 1) + 1) == wrap16(addr + 2),
{
    reveal(wrap16);
}

/// An absolute operand outside the PPU's register window is the word after
/// the opcode, and finding it changes nothing.
proof fn lemma_absolute_operand(s: CpuState)
    requires
        BusState::reads_purely(s.pc),
        BusState::reads_purely(wrap16(s.pc + 1)),
    ensures
        s.operand(AddressingMode::Absolute) == (s.peek_u16(s.pc), s),
{
    reveal(CpuState::operand);
    lemma_pure_read(s.bus, s.pc);
    lemma_pure_read(s.bus, wrap16(s.pc + 1));
}

/// A word pushed is the word popped, and the stack pointer is back where
/// it was.
pub proof fn lemma_push_pop_u16(s: CpuState, value: u16)
    requires
        s.bus.wf(),
    ensures
        s.pushed_u16(value).pop_u16_value() == value,
        s.pushed_u16(value).popped_u16().s == s.s,
{
    let first = stack_addr(s.s);
    let second = stack_addr(wrap8(s.s - 1));
    lemma_stack_neighbours(s.s);
    lemma_stack_neighbours(wrap8(s.s - 1));
    let b1 = s.bus.after_write(first, high(value));
    lemma_write_continues(s.bus, first, high(value));
    let b2 = b1.after_write(second, low(value));
    lemma_ram_round_trip(b1, second, low(value));
    lemma_ram_round_trip(s.bus, first, high(value));
    crate::bus::laws::lemma_ram_write_is_local(b1, second, low(value), first);
    lemma_pure_read(b2, second);
    crate::cpu::arith::lemma_word_halves(value);
    let pushed = s.pushed_u16(value);
    assert(pushed.bus == b2);
    assert(pushed.s == wrap8(wrap8(s.s - 1) - 1));
    assert(stack_addr(wrap8(pushed.s + 1)) == second);
    assert(pushed.pop_value() == low(value));
    assert(pushed.popped().bus == b2);
    assert(pushed.popped().s == wrap8(s.s - 1));
    assert(pushed.popped().pop_value() == high(value));
}

/// A call followed by a return comes back to the instruction after the
/// call, with the stack pointer where it was. The call's operand has to lie
/// outside the PPU's register window.
pub proof fn lemma_jsr_rts(s: CpuState)
    requires
        s.bus.wf(),
        BusState::reads_purely(s.pc),
        BusState::reads_purely(wrap16(s.pc + 1)),
    ensures
        s.jsr().pc == s.peek_u16(s.pc),
        s.jsr().rts().pc == wrap16(s.pc + 2),
        s.jsr().rts().s == s.s,
{
    reveal(CpuState::jsr);
    reveal(CpuState::rts);
    lemma_absolute_operand(s);
    lemma_push_pop_u16(s, wrap16(s.pc + 1));
    lemma_step_twice(s.pc);
    let called = s.jsr();
    let pushed = s.pushed_u16(wrap16(s.pc + 1));
    assert(called.bus == pushed.bus && called.s == pushed.s);
    assert(called.pop_u16_value() == pushed.pop_u16_value());
    assert(called.popped_u16().s == pushed.popped_u16().s);
}

} // verus!
