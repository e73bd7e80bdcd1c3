//! The interpreter's instructions, each proved against its model.

use vstd::prelude::*;
use crate::bus::Mem;
use crate::cpu::CPU;
use crate::cpu::arith::addr_add;
use crate::cpu::arith::addr_offset;
use crate::cpu::arith::byte_add;
use crate::cpu::arith::byte_sub;
use crate::cpu::arith::crosses_page;
use crate::cpu::arith::high_byte;
use crate::cpu::arith::low_byte;
use crate::cpu::arith::make_word;
use crate::cpu::arith::page_wrapped_next;
use crate::cpu::arith::pages_differ;
use crate::cpu::arith::signed;
use crate::cpu::arith::wrap16;
use crate::cpu::arith::wrap8;
use crate::cpu::bits::lemma_complement;
use crate::cpu::bits::lemma_shift;
use crate::cpu::bits::lemma_signed_overflow;
use crate::cpu::flags::StatusFlag;
use crate::cpu::flags::pulled_status;
use crate::cpu::model::CpuState;
use crate::cpu::model::BREAK_VECTOR;
use crate::cpu::model::NMI_CYCLES;
use crate::cpu::model::NMI_VECTOR;
use crate::cpu::model::STACK_PAGE;
use crate::cpu::opcodes::AddressingMode;

verus! {

impl CPU {
    /// Resolves the operand of the running instruction, with the program
    /// counter on the first operand byte.
    pub fn get_operand_address(&mut self, mode: &AddressingMode) -> (addr: u16)
        ensures
            addr == old(self)@.operand(*mode).0,
            final(self)@ == old(self)@.operand(*mode).1,
            final(self)@.keeps_registers(old(self)@),
            old(self)@.sound() ==> final(self)@.sound(),
    {
        reveal(CpuState::sound);
        reveal(CpuState::operand);
        match mode {
            AddressingMode::Immediate | AddressingMode::Relative | AddressingMode::NoneAddressing => {
                self.program_counter
            },
            AddressingMode::ZeroPage => {
                let pos = self.mem_read(self.program_counter);
                pos as u16
            },
            AddressingMode::ZeroPage_X => {
                let pos = self.mem_read(self.program_counter);
                byte_add(pos, self.register_x) as u16
            },
            AddressingMode::ZeroPage_Y => {
                let pos = self.mem_read(self.program_counter);
                byte_add(pos, self.register_y) as u16
            },
            AddressingMode::Absolute | AddressingMode::Indirect => {
                self.mem_read_u16(self.program_counter)
            },
            AddressingMode::Absolute_X => {
                let base = self.mem_read_u16(self.program_counter);
                let addr = addr_add(base, self.register_x);
                self.note_page_cross(base, addr);
                addr
            },
            AddressingMode::Absolute_Y => {
                let base = self.mem_read_u16(self.program_counter);
                let addr = addr_add(base, self.register_y);
                self.note_page_cross(base, addr);
                addr
            },
            AddressingMode::Indirect_X => {
                let base = self.mem_read(self.program_counter);
                let ptr: u8 = byte_add(base, self.register_x);
                let lo = self.mem_read(ptr as u16);
                let hi = self.mem_read(byte_add(ptr, 1) as u16);
                make_word(hi, lo)
            },
            AddressingMode::Indirect_Y => {
                let base = self.mem_read(self.program_counter);
                let lo = self.mem_read(base as u16);
                let hi = self.mem_read(byte_add(base, 1) as u16);
                let deref_base: u16 = make_word(hi, lo);
                let deref = addr_add(deref_base, self.register_y);
                self.note_page_cross(deref_base, deref);
                deref
            },
        }
    }

    /// Records the page-cross penalty when `from` and `to` lie in
    /// different pages.
    pub(crate) fn note_page_cross(&mut self, from: u16, to: u16)
        ensures
            final(self)@ == old(self)@.penalized(pages_differ(from, to)),
            old(self)@.sound() ==> final(self)@.sound(),
    {
        reveal(CpuState::sound);
        if crosses_page(from, to) {
            self.added_cycles_of_addr = 1;
        }
    }

    /// Reads the operand of the running instruction.
    fn load_operand(&mut self, mode: &AddressingMode) -> (value: u8)
        ensures
            value == old(self)@.load(*mode).0,
            final(self)@ == old(self)@.load(*mode).1,
            old(self)@.sound() ==> final(self)@.sound(),
    {
        reveal(CpuState::sound);
        let addr = self.get_operand_address(mode);
        self.mem_read(addr)
    }

    /// Takes zero and negative from `result`.
    fn update_zero_and_negative_flags(&mut self, result: u8)
        ensures
            final(self)@ == old(self)@.zn(result),
    {
        StatusFlag::Zero.assign(&mut self.status, result == 0);
        proof {
            lemma_shift(result);
        }
        StatusFlag::Negative.assign(&mut self.status, result & 0b1000_0000 != 0);
    }

    /// Sets or clears one flag of the status register.
    fn set_flag(&mut self, flag: StatusFlag, on: bool)
        ensures
            final(self)@ == old(self)@.flagged(flag, on),
    {
        flag.assign(&mut self.status, on);
    }

    /// Pushes a byte: the stack grows downwards in page one.
    fn push(&mut self, value: u8)
        ensures
            final(self)@ == old(self)@.pushed(value),
            old(self)@.sound() ==> final(self)@.sound(),
    {
        reveal(CpuState::sound);
        self.mem_write(STACK_PAGE + self.stack_counter as u16, value);
        self.stack_counter = byte_sub(self.stack_counter, 1);
    }

    /// Pushes a word, high byte first.
    fn push_u16(&mut self, value: u16)
        ensures
            final(self)@ == old(self)@.pushed_u16(value),
            old(self)@.sound() ==> final(self)@.sound(),
    {
        reveal(CpuState::sound);
        self.push(high_byte(value));
        self.push(low_byte(value));
    }

    /// Pops a byte.
    fn pop(&mut self) -> (value: u8)
        ensures
            value == old(self)@.pop_value(),
            final(self)@ == old(self)@.popped(),
            old(self)@.sound() ==> final(self)@.sound(),
    {
        reveal(CpuState::sound);
        self.stack_counter = byte_add(self.stack_counter, 1);
        self.mem_read(STACK_PAGE + self.stack_counter as u16)
    }

    /// Pops a word, low byte first.
    fn pop_u16(&mut self) -> (value: u16)
        ensures
            value == old(self)@.pop_u16_value(),
            final(self)@ == old(self)@.popped_u16(),
            old(self)@.sound() ==> final(self)@.sound(),
    {
        reveal(CpuState::sound);
        let lo = self.pop();
        let hi = self.pop();
        make_word(hi, lo)
    }

    /// `LDA` loads the accumulator.
    pub(crate) fn lda(&mut self, mode: &AddressingMode)
        ensures
            final(self)@ == old(self)@.lda(*mode),
            old(self)@.sound() ==> final(self)@.sound(),
    {
        reveal(CpuState::sound);
        reveal(CpuState::lda);
        let value = self.load_operand(mode);
        self.register_a = value;
        self.update_zero_and_negative_flags(value);
    }

    /// `LDX` loads X.
    pub(crate) fn ldx(&mut self, mode: &AddressingMode)
        ensures
            final(self)@ == old(self)@.ldx(*mode),
            old(self)@.sound() ==> final(self)@.sound(),
    {
        reveal(CpuState::sound);
        reveal(CpuState::ldx);
        let value = self.load_operand(mode);
        self.register_x = value;
        self.update_zero_and_negative_flags(value);
    }

    /// `LDY` loads Y.
    pub(crate) fn ldy(&mut self, mode: &AddressingMode)
        ensures
            final(self)@ == old(self)@.ldy(*mode),
            old(self)@.sound() ==> final(self)@.sound(),
    {
        reveal(CpuState::sound);
        reveal(CpuState::ldy);
        let value = self.load_operand(mode);
        self.register_y = value;
        self.update_zero_and_negative_flags(value);
    }

    /// `STA` stores the accumulator.
    pub(crate) fn sta(&mut self, mode: &AddressingMode)
        ensures
            final(self)@ == old(self)@.sta(*mode),
            old(self)@.sound() ==> final(self)@.sound(),
    {
        reveal(CpuState::sound);
        reveal(CpuState::sta);
        let addr = self.get_operand_address(mode);
        self.mem_write(addr, self.register_a);
    }

    /// `STX` stores X.
    pub(crate) fn stx(&mut self, mode: &AddressingMode)
        ensures
            final(self)@ == old(self)@.stx(*mode),
            old(self)@.sound() ==> final(self)@.sound(),
    {
        reveal(CpuState::sound);
        reveal(CpuState::stx);
        let addr = self.get_operand_address(mode);
        self.mem_write(addr, self.register_x);
    }

    /// `STY` stores Y.
    pub(crate) fn sty(&mut self, mode: &AddressingMode)
        ensures
            final(self)@ == old(self)@.sty(*mode),
            old(self)@.sound() ==> final(self)@.sound(),
    {
        reveal(CpuState::sound);
        reveal(CpuState::sty);
        let addr = self.get_operand_address(mode);
        self.mem_write(addr, self.register_y);
    }

    /// Adds `value` and the carry flag to the accumulator.
    pub(crate) fn add_rega_and_value(&mut self, value: u8)
        ensures
            final(self)@ == old(self)@.add_to_a(value),
            old(self)@.sound() ==> final(self)@.sound(),
    {
        reveal(CpuState::sound);
        let a: u8 = self.register_a;
        let carry_in: u8 = if StatusFlag::Carry.among(self.status) {
            1
        } else {
            0
        };
        let sum: u16 = a as u16 + value as u16 + carry_in as u16;
        let result: u8 = (sum % 0x100) as u8;
        let overflow = (a ^ result) & (value ^ result) & 0x80 != 0;
        proof {
            lemma_signed_overflow(a, value, carry_in);
            reveal(wrap8);
        }
        self.register_a = result;
        self.set_flag(StatusFlag::Carry, sum > 0xFF);
        self.set_flag(StatusFlag::Overflow, overflow);
        self.update_zero_and_negative_flags(result);
    }

    /// `ADC` adds memory and the carry to the accumulator.
    pub(crate) fn adc(&mut self, mode: &AddressingMode)
        ensures
            final(self)@ == old(self)@.adc(*mode),
            old(self)@.sound() ==> final(self)@.sound(),
    {
        reveal(CpuState::sound);
        reveal(CpuState::adc);
        let value = self.load_operand(mode);
        self.add_rega_and_value(value);
    }

    /// `SBC` subtracts memory and the borrow from the accumulator.
    pub(crate) fn sbc(&mut self, mode: &AddressingMode)
        ensures
            final(self)@ == old(self)@.sbc(*mode),
            old(self)@.sound() ==> final(self)@.sound(),
    {
        reveal(CpuState::sound);
        reveal(CpuState::sbc);
        let value = self.load_operand(mode);
        proof {
            lemma_complement(value);
        }
        self.add_rega_and_value(!value);
    }

    /// `AND` ANDs memory into the accumulator.
    pub(crate) fn and(&mut self, mode: &AddressingMode)
        ensures
            final(self)@ == old(self)@.and(*mode),
            old(self)@.sound() ==> final(self)@.sound(),
    {
        reveal(CpuState::sound);
        reveal(CpuState::and);
        let value = self.load_operand(mode);
        let result = self.register_a & value;
        self.register_a = result;
        self.update_zero_and_negative_flags(result);
    }

    /// `ORA` ORs memory into the accumulator.
    pub(crate) fn ora(&mut self, mode: &AddressingMode)
        ensures
            final(self)@ == old(self)@.ora(*mode),
            old(self)@.sound() ==> final(self)@.sound(),
    {
        reveal(CpuState::sound);
        reveal(CpuState::ora);
        let value = self.load_operand(mode);
        let result = self.register_a | value;
        self.register_a = result;
        self.update_zero_and_negative_flags(result);
    }

    /// `EOR` exclusive-ORs memory into the accumulator.
    pub(crate) fn eor(&mut self, mode: &AddressingMode)
        ensures
            final(self)@ == old(self)@.eor(*mode),
            old(self)@.sound() ==> final(self)@.sound(),
    {
        reveal(CpuState::sound);
        reveal(CpuState::eor);
        let value = self.load_operand(mode);
        let result = self.register_a ^ value;
        self.register_a = result;
        self.update_zero_and_negative_flags(result);
    }

    /// `ASL` shifts the operand left by one bit.
    pub(crate) fn asl(&mut self, mode: &AddressingMode)
        ensures
            final(self)@ == old(self)@.asl(*mode),
            old(self)@.sound() ==> final(self)@.sound(),
    {
        reveal(CpuState::sound);
        reveal(CpuState::asl);
        if *mode == AddressingMode::NoneAddressing {
            self.asl_accumulate();
            return;
        }
        let addr = self.get_operand_address(mode);
        let value = self.mem_read(addr);
        let result = shift_left(value, false);
        self.set_flag(StatusFlag::Carry, top_bit(value));
        self.mem_write(addr, result);
        self.update_zero_and_negative_flags(result);
    }

    /// `ASL` on the accumulator.
    pub(crate) fn asl_accumulate(&mut self)
        ensures
            final(self)@ == old(self)@.asl(AddressingMode::NoneAddressing),
            old(self)@.sound() ==> final(self)@.sound(),
    {
        reveal(CpuState::sound);
        reveal(CpuState::asl);
        let value = self.register_a;
        let result = shift_left(value, false);
        self.set_flag(StatusFlag::Carry, top_bit(value));
        self.register_a = result;
        self.update_zero_and_negative_flags(result);
    }

    /// `LSR` shifts the operand right by one bit.
    pub(crate) fn lsr(&mut self, mode: &AddressingMode)
        ensures
            final(self)@ == old(self)@.lsr(*mode),
            old(self)@.sound() ==> final(self)@.sound(),
    {
        reveal(CpuState::sound);
        reveal(CpuState::lsr);
        if *mode == AddressingMode::NoneAddressing {
            self.lsr_accumulate();
            return;
        }
        let addr = self.get_operand_address(mode);
        let value = self.mem_read(addr);
        let result = shift_right(value, false);
        self.set_flag(StatusFlag::Carry, low_bit(value));
        self.mem_write(addr, result);
        self.update_zero_and_negative_flags(result);
    }

    /// `LSR` on the accumulator.
    pub(crate) fn lsr_accumulate(&mut self)
        ensures
            final(self)@ == old(self)@.lsr(AddressingMode::NoneAddressing),
            old(self)@.sound() ==> final(self)@.sound(),
    {
        reveal(CpuState::sound);
        reveal(CpuState::lsr);
        let value = self.register_a;
        let result = shift_right(value, false);
        self.set_flag(StatusFlag::Carry, low_bit(value));
        self.register_a = result;
        self.update_zero_and_negative_flags(result);
    }

    /// `ROL` rotates the operand left through carry.
    pub(crate) fn rol(&mut self, mode: &AddressingMode)
        ensures
            final(self)@ == old(self)@.rol(*mode),
            old(self)@.sound() ==> final(self)@.sound(),
    {
        reveal(CpuState::sound);
        reveal(CpuState::rol);
        if *mode == AddressingMode::NoneAddressing {
            self.rol_accumulate();
            return;
        }
        let addr = self.get_operand_address(mode);
        let value = self.mem_read(addr);
        let carry_in = StatusFlag::Carry.test(self.status);
        let result = shift_left(value, carry_in);
        self.set_flag(StatusFlag::Carry, top_bit(value));
        self.mem_write(addr, result);
        self.update_zero_and_negative_flags(result);
    }

    /// `ROL` on the accumulator.
    pub(crate) fn rol_accumulate(&mut self)
        ensures
            final(self)@ == old(self)@.rol(AddressingMode::NoneAddressing),
            old(self)@.sound() ==> final(self)@.sound(),
    {
        reveal(CpuState::sound);
        reveal(CpuState::rol);
        let value = self.register_a;
        let carry_in = StatusFlag::Carry.test(self.status);
        let result = shift_left(value, carry_in);
        self.set_flag(StatusFlag::Carry, top_bit(value));
        self.register_a = result;
        self.update_zero_and_negative_flags(result);
    }

    /// `ROR` rotates the operand right through carry.
    pub(crate) fn ror(&mut self, mode: &AddressingMode)
        ensures
            final(self)@ == old(self)@.ror(*mode),
            old(self)@.sound() ==> final(self)@.sound(),
    {
        reveal(CpuState::sound);
        reveal(CpuState::ror);
        if *mode == AddressingMode::NoneAddressing {
            self.ror_accumulate();
            return;
        }
        let addr = self.get_operand_address(mode);
        let value = self.mem_read(addr);
        let carry_in = StatusFlag::Carry.test(self.status);
        let result = shift_right(value, carry_in);
        self.set_flag(StatusFlag::Carry, low_bit(value));
        self.mem_write(addr, result);
        self.update_zero_and_negative_flags(result);
    }

    /// `ROR` on the accumulator.
    pub(crate) fn ror_accumulate(&mut self)
        ensures
            final(self)@ == old(self)@.ror(AddressingMode::NoneAddressing),
            old(self)@.sound() ==> final(self)@.sound(),
    {
        reveal(CpuState::sound);
        reveal(CpuState::ror);
        let value = self.register_a;
        let carry_in = StatusFlag::Carry.test(self.status);
        let result = shift_right(value, carry_in);
        self.set_flag(StatusFlag::Carry, low_bit(value));
        self.register_a = result;
        self.update_zero_and_negative_flags(result);
    }

    /// `BIT` tests memory bits against the accumulator.
    pub(crate) fn bit(&mut self, mode: &AddressingMode)
        ensures
            final(self)@ == old(self)@.bit(*mode),
            old(self)@.sound() ==> final(self)@.sound(),
    {
        reveal(CpuState::sound);
        reveal(CpuState::bit);
        let value = self.load_operand(mode);
        self.set_flag(StatusFlag::Negative, top_bit(value));
        self.set_flag(StatusFlag::Overflow, value & 0x40 != 0);
        self.set_flag(StatusFlag::Zero, value & self.register_a == 0);
    }

    /// Sets carry, zero and negative as `register - value` leaves them.
    fn compare(&mut self, register: u8, value: u8)
        ensures
            final(self)@ == old(self)@.compared(register, value),
            old(self)@.sound() ==> final(self)@.sound(),
    {
        reveal(CpuState::sound);
        self.set_flag(StatusFlag::Carry, register >= value);
        self.set_flag(StatusFlag::Zero, register == value);
        self.set_flag(StatusFlag::Negative, top_bit(byte_sub(register, value)));
    }

    /// `CMP` compares memory with the accumulator.
    pub(crate) fn cmp(&mut self, mode: &AddressingMode)
        ensures
            final(self)@ == old(self)@.cmp(*mode),
            old(self)@.sound() ==> final(self)@.sound(),
    {
        reveal(CpuState::sound);
        reveal(CpuState::cmp);
        let value = self.load_operand(mode);
        self.compare(self.register_a, value);
    }

    /// `CPX` compares memory with X.
    pub(crate) fn cpx(&mut self, mode: &AddressingMode)
        ensures
            final(self)@ == old(self)@.cpx(*mode),
            old(self)@.sound() ==> final(self)@.sound(),
    {
        reveal(CpuState::sound);
        reveal(CpuState::cpx);
        let value = self.load_operand(mode);
        self.compare(self.register_x, value);
    }

    /// `CPY` compares memory with Y.
    pub(crate) fn cpy(&mut self, mode: &AddressingMode)
        ensures
            final(self)@ == old(self)@.cpy(*mode),
            old(self)@.sound() ==> final(self)@.sound(),
    {
        reveal(CpuState::sound);
        reveal(CpuState::cpy);
        let value = self.load_operand(mode);
        self.compare(self.register_y, value);
    }

    /// `DEC` decrements memory.
    pub(crate) fn dec(&mut self, mode: &AddressingMode)
        ensures
            final(self)@ == old(self)@.dec(*mode),
            old(self)@.sound() ==> final(self)@.sound(),
    {
        reveal(CpuState::sound);
        reveal(CpuState::dec);
        let addr = self.get_operand_address(mode);
        let value = self.mem_read(addr);
        let result = byte_sub(value, 1);
        self.mem_write(addr, result);
        self.update_zero_and_negative_flags(result);
    }

    /// `INC` increments memory.
    pub(crate) fn inc(&mut self, mode: &AddressingMode)
        ensures
            final(self)@ == old(self)@.inc(*mode),
            old(self)@.sound() ==> final(self)@.sound(),
    {
        reveal(CpuState::sound);
        reveal(CpuState::inc);
        let addr = self.get_operand_address(mode);
        let value = self.mem_read(addr);
        let result = byte_add(value, 1);
        self.mem_write(addr, result);
        self.update_zero_and_negative_flags(result);
    }

    /// `INX` increments X.
    pub(crate) fn inx(&mut self)
        ensures
            final(self)@ == old(self)@.inx(),
            old(self)@.sound() ==> final(self)@.sound(),
    {
        reveal(CpuState::sound);
        reveal(CpuState::inx);
        let result = byte_add(self.register_x, 1);
        self.register_x = result;
        self.update_zero_and_negative_flags(result);
    }

    /// `INY` increments Y.
    pub(crate) fn iny(&mut self)
        ensures
            final(self)@ == old(self)@.iny(),
            old(self)@.sound() ==> final(self)@.sound(),
    {
        reveal(CpuState::sound);
        reveal(CpuState::iny);
        let result = byte_add(self.register_y, 1);
        self.register_y = result;
        self.update_zero_and_negative_flags(result);
    }

    /// `DEX` decrements X.
    pub(crate) fn dex(&mut self)
        ensures
            final(self)@ == old(self)@.dex(),
            old(self)@.sound() ==> final(self)@.sound(),
    {
        reveal(CpuState::sound);
        reveal(CpuState::dex);
        let result = byte_sub(self.register_x, 1);
        self.register_x = result;
        self.update_zero_and_negative_flags(result);
    }

    /// `DEY` decrements Y.
    pub(crate) fn dey(&mut self)
        ensures
            final(self)@ == old(self)@.dey(),
            old(self)@.sound() ==> final(self)@.sound(),
    {
        reveal(CpuState::sound);
        reveal(CpuState::dey);
        let result = byte_sub(self.register_y, 1);
        self.register_y = result;
        self.update_zero_and_negative_flags(result);
    }

    /// `TAX` copies the accumulator to X.
    pub(crate) fn tax(&mut self)
        ensures
            final(self)@ == old(self)@.tax(),
            old(self)@.sound() ==> final(self)@.sound(),
    {
        reveal(CpuState::sound);
        reveal(CpuState::tax);
        self.register_x = self.register_a;
        self.update_zero_and_negative_flags(self.register_x);
    }

    /// `TAY` copies the accumulator to Y.
    pub(crate) fn tay(&mut self)
        ensures
            final(self)@ == old(self)@.tay(),
            old(self)@.sound() ==> final(self)@.sound(),
    {
        reveal(CpuState::sound);
        reveal(CpuState::tay);
        self.register_y = self.register_a;
        self.update_zero_and_negative_flags(self.register_y);
    }

    /// `TSX` copies the stack pointer to X.
    pub(crate) fn tsx(&mut self)
        ensures
            final(self)@ == old(self)@.tsx(),
            old(self)@.sound() ==> final(self)@.sound(),
    {
        reveal(CpuState::sound);
        reveal(CpuState::tsx);
        self.register_x = self.stack_counter;
        self.update_zero_and_negative_flags(self.register_x);
    }

    /// `TXA` copies X to the accumulator.
    pub(crate) fn txa(&mut self)
        ensures
            final(self)@ == old(self)@.txa(),
            old(self)@.sound() ==> final(self)@.sound(),
    {
        reveal(CpuState::sound);
        reveal(CpuState::txa);
        self.register_a = self.register_x;
        self.update_zero_and_negative_flags(self.register_a);
    }

    /// `TYA` copies Y to the accumulator.
    pub(crate) fn tya(&mut self)
        ensures
            final(self)@ == old(self)@.tya(),
            old(self)@.sound() ==> final(self)@.sound(),
    {
        reveal(CpuState::sound);
        reveal(CpuState::tya);
        self.register_a = self.register_y;
        self.update_zero_and_negative_flags(self.register_a);
    }

    /// `TXS` copies X to the stack pointer.
    pub(crate) fn txs(&mut self)
        ensures
            final(self)@ == old(self)@.txs(),
            old(self)@.sound() ==> final(self)@.sound(),
    {
        reveal(CpuState::sound);
        reveal(CpuState::txs);
        self.stack_counter = self.register_x;
    }

    /// `CLC` clears carry.
    pub(crate) fn clc(&mut self)
        ensures
            final(self)@ == old(self)@.flagged(StatusFlag::Carry, false),
            old(self)@.sound() ==> final(self)@.sound(),
    {
        reveal(CpuState::sound);
        self.set_flag(StatusFlag::Carry, false);
    }

    /// `CLD` clears decimal mode.
    pub(crate) fn cld(&mut self)
        ensures
            final(self)@ == old(self)@.flagged(StatusFlag::DecimalMode, false),
            old(self)@.sound() ==> final(self)@.sound(),
    {
        reveal(CpuState::sound);
        self.set_flag(StatusFlag::DecimalMode, false);
    }

    /// `CLI` clears interrupt disable.
    pub(crate) fn cli(&mut self)
        ensures
            final(self)@ == old(self)@.flagged(StatusFlag::InterruptDisable, false),
            old(self)@.sound() ==> final(self)@.sound(),
    {
        reveal(CpuState::sound);
        self.set_flag(StatusFlag::InterruptDisable, false);
    }

    /// `CLV` clears overflow.
    pub(crate) fn clv(&mut self)
        ensures
            final(self)@ == old(self)@.flagged(StatusFlag::Overflow, false),
            old(self)@.sound() ==> final(self)@.sound(),
    {
        reveal(CpuState::sound);
        self.set_flag(StatusFlag::Overflow, false);
    }

    /// `SEC` sets carry.
    pub(crate) fn sec(&mut self)
        ensures
            final(self)@ == old(self)@.flagged(StatusFlag::Carry, true),
            old(self)@.sound() ==> final(self)@.sound(),
    {
        reveal(CpuState::sound);
        self.set_flag(StatusFlag::Carry, true);
    }

    /// `SED` sets decimal mode.
    pub(crate) fn sed(&mut self)
        ensures
            final(self)@ == old(self)@.flagged(StatusFlag::DecimalMode, true),
            old(self)@.sound() ==> final(self)@.sound(),
    {
        reveal(CpuState::sound);
        self.set_flag(StatusFlag::DecimalMode, true);
    }

    /// `SEI` sets interrupt disable.
    pub(crate) fn sei(&mut self)
        ensures
            final(self)@ == old(self)@.flagged(StatusFlag::InterruptDisable, true),
            old(self)@.sound() ==> final(self)@.sound(),
    {
        reveal(CpuState::sound);
        self.set_flag(StatusFlag::InterruptDisable, true);
    }

    /// `NOP` does nothing.
    pub(crate) fn nop(&mut self)
        ensures
            final(self)@ == old(self)@,
    {
    }

    /// `PHA` pushes the accumulator.
    pub(crate) fn pha(&mut self)
        ensures
            final(self)@ == old(self)@.pha(),
            old(self)@.sound() ==> final(self)@.sound(),
    {
        reveal(CpuState::sound);
        reveal(CpuState::pha);
        self.push(self.register_a);
    }

    /// `PHP` pushes the status with the break flag set.
    pub(crate) fn php(&mut self)
        ensures
            final(self)@ == old(self)@.php(),
            old(self)@.sound() ==> final(self)@.sound(),
    {
        reveal(CpuState::sound);
        reveal(CpuState::php);
        let pushed = StatusFlag::BreakCommand.or_get(self.status);
        self.push(pushed);
    }

    /// `PLA` pulls the accumulator.
    pub(crate) fn pla(&mut self)
        ensures
            final(self)@ == old(self)@.pla(),
            old(self)@.sound() ==> final(self)@.sound(),
    {
        reveal(CpuState::sound);
        reveal(CpuState::pla);
        let value = self.pop();
        self.register_a = value;
        self.update_zero_and_negative_flags(value);
    }

    /// Loads the status register from a byte that came off the stack.
    fn take_status(&mut self, value: u8)
        ensures
            final(self)@ == (CpuState { p: pulled_status(value), ..old(self)@ }),
            old(self)@.sound() ==> final(self)@.sound(),
    {
        reveal(CpuState::sound);
        self.status = value;
        StatusFlag::BreakCommand.remove(&mut self.status);
        StatusFlag::Undefined.add(&mut self.status);
    }

    /// `PLP` pulls the status.
    pub(crate) fn plp(&mut self)
        ensures
            final(self)@ == old(self)@.plp(),
            old(self)@.sound() ==> final(self)@.sound(),
    {
        reveal(CpuState::sound);
        reveal(CpuState::plp);
        let value = self.pop();
        self.take_status(value);
    }

    /// `RTI` returns from an interrupt.
    pub(crate) fn rti(&mut self)
        ensures
            final(self)@ == old(self)@.rti(),
            old(self)@.sound() ==> final(self)@.sound(),
    {
        reveal(CpuState::sound);
        reveal(CpuState::rti);
        let value = self.pop();
        self.take_status(value);
        self.program_counter = self.pop_u16();
    }

    /// `RTS` returns from a subroutine.
    pub(crate) fn rts(&mut self)
        ensures
            final(self)@ == old(self)@.rts(),
            old(self)@.sound() ==> final(self)@.sound(),
    {
        reveal(CpuState::sound);
        reveal(CpuState::rts);
        let addr = self.pop_u16();
        self.program_counter = addr_add(addr, 1);
    }

    /// `JSR` calls a subroutine.
    pub(crate) fn jsr(&mut self)
        ensures
            final(self)@ == old(self)@.jsr(),
            old(self)@.sound() ==> final(self)@.sound(),
    {
        reveal(CpuState::sound);
        reveal(CpuState::jsr);
        let back = addr_add(self.program_counter, 1);
        let addr = self.get_operand_address(&AddressingMode::Absolute);
        self.push_u16(back);
        self.program_counter = addr;
    }

    /// `JMP` jumps.
    pub(crate) fn jmp(&mut self, mode: &AddressingMode)
        ensures
            final(self)@ == old(self)@.jmp(*mode),
            old(self)@.sound() ==> final(self)@.sound(),
    {
        reveal(CpuState::sound);
        reveal(CpuState::jmp);
        let addr = self.get_operand_address(mode);
        if *mode == AddressingMode::Indirect {
            let lo = self.mem_read(addr);
            let hi = self.mem_read(page_wrapped_next(addr));
            self.program_counter = make_word(hi, lo);
        } else {
            self.program_counter = addr;
        }
    }

    /// Reads the displacement of a branch. The answer is the page-cross
    /// penalty and the branch's target.
    fn cal_displacement_and_add_cycles(&mut self, mode: &AddressingMode) -> (r: (u8, u16))
        ensures
            ({
                let (addr, s) = old(self)@.operand(*mode);
                let next = wrap16(old(self)@.pc + 1);
                let target = wrap16(next + signed(s.peek(addr)));
                &&& r.1 == target
                &&& r.0 == (if pages_differ(next, target) {
                    1u8
                } else {
                    0u8
                })
                &&& final(self)@ == s.after_read(addr)
            }),
            old(self)@.sound() ==> final(self)@.sound(),
    {
        reveal(CpuState::sound);
        let next = addr_add(self.program_counter, 1);
        let addr = self.get_operand_address(mode);
        let value = self.mem_read(addr);
        let dest = addr_offset(next, value);
        let addr_cycles: u8 = if crosses_page(next, dest) {
            1
        } else {
            0
        };
        (addr_cycles, dest)
    }

    /// Takes a branch.
    fn branch_jump(&mut self, mode: &AddressingMode)
        ensures
            final(self)@ == old(self)@.branched(*mode),
            old(self)@.sound() ==> final(self)@.sound(),
    {
        reveal(CpuState::sound);
        let (addr_cycles, dest) = self.cal_displacement_and_add_cycles(mode);
        if addr_cycles > 0 {
            self.added_cycles_of_addr = 1;
        }
        self.added_cycles_of_br = 1;
        self.program_counter = dest;
    }

    /// `BCC` branches if carry is clear.
    pub(crate) fn bcc(&mut self, mode: &AddressingMode)
        ensures
            final(self)@ == old(self)@.branch_if(*mode, StatusFlag::Carry, false),
            old(self)@.sound() ==> final(self)@.sound(),
    {
        reveal(CpuState::sound);
        reveal(CpuState::branch_if);
        if !StatusFlag::Carry.among(self.status) {
            self.branch_jump(mode);
        }
    }

    /// `BCS` branches if carry is set.
    pub(crate) fn bcs(&mut self, mode: &AddressingMode)
        ensures
            final(self)@ == old(self)@.branch_if(*mode, StatusFlag::Carry, true),
            old(self)@.sound() ==> final(self)@.sound(),
    {
        reveal(CpuState::sound);
        reveal(CpuState::branch_if);
        if StatusFlag::Carry.among(self.status) {
            self.branch_jump(mode);
        }
    }

    /// `BEQ` branches if zero is set.
    pub(crate) fn beq(&mut self, mode: &AddressingMode)
        ensures
            final(self)@ == old(self)@.branch_if(*mode, StatusFlag::Zero, true),
            old(self)@.sound() ==> final(self)@.sound(),
    {
        reveal(CpuState::sound);
        reveal(CpuState::branch_if);
        if StatusFlag::Zero.among(self.status) {
            self.branch_jump(mode);
        }
    }

    /// `BNE` branches if zero is clear.
    pub(crate) fn bne(&mut self, mode: &AddressingMode)
        ensures
            final(self)@ == old(self)@.branch_if(*mode, StatusFlag::Zero, false),
            old(self)@.sound() ==> final(self)@.sound(),
    {
        reveal(CpuState::sound);
        reveal(CpuState::branch_if);
        if !StatusFlag::Zero.among(self.status) {
            self.branch_jump(mode);
        }
    }

    /// `BMI` branches if negative is set.
    pub(crate) fn bmi(&mut self, mode: &AddressingMode)
        ensures
            final(self)@ == old(self)@.branch_if(*mode, StatusFlag::Negative, true),
            old(self)@.sound() ==> final(self)@.sound(),
    {
        reveal(CpuState::sound);
        reveal(CpuState::branch_if);
        if StatusFlag::Negative.among(self.status) {
            self.branch_jump(mode);
        }
    }

    /// `BPL` branches if negative is clear.
    pub(crate) fn bpl(&mut self, mode: &AddressingMode)
        ensures
            final(self)@ == old(self)@.branch_if(*mode, StatusFlag::Negative, false),
            old(self)@.sound() ==> final(self)@.sound(),
    {
        reveal(CpuState::sound);
        reveal(CpuState::branch_if);
        if !StatusFlag::Negative.among(self.status) {
            self.branch_jump(mode);
        }
    }

    /// `BVC` branches if overflow is clear.
    pub(crate) fn bvc(&mut self, mode: &AddressingMode)
        ensures
            final(self)@ == old(self)@.branch_if(*mode, StatusFlag::Overflow, false),
            old(self)@.sound() ==> final(self)@.sound(),
    {
        reveal(CpuState::sound);
        reveal(CpuState::branch_if);
        if !StatusFlag::Overflow.among(self.status) {
            self.branch_jump(mode);
        }
    }

    /// `BVS` branches if overflow is set.
    pub(crate) fn bvs(&mut self, mode: &AddressingMode)
        ensures
            final(self)@ == old(self)@.branch_if(*mode, StatusFlag::Overflow, true),
            old(self)@.sound() ==> final(self)@.sound(),
    {
        reveal(CpuState::sound);
        reveal(CpuState::branch_if);
        if StatusFlag::Overflow.among(self.status) {
            self.branch_jump(mode);
        }
    }

    /// Performs the software interrupt, with the program counter just past
    /// the `BRK` opcode.
    pub fn brk(&mut self)
        ensures
            final(self)@ == old(self)@.brk(),
            old(self)@.sound() ==> final(self)@.sound(),
    {
        reveal(CpuState::sound);
        reveal(CpuState::brk);
        let back = addr_add(self.program_counter, 1);
        self.push_u16(back);
        let pushed = StatusFlag::Undefined.or_get(StatusFlag::BreakCommand.or_get(self.status));
        self.push(pushed);
        self.set_flag(StatusFlag::InterruptDisable, true);
        self.program_counter = self.mem_read_u16(BREAK_VECTOR);
    }

    /// Services an NMI and says whether the two cycles it takes completed a
    /// frame.
    pub fn interrupt_nmi(&mut self) -> (frame: bool)
        requires
            old(self).wf(),
        ensures
            final(self)@ == old(self)@.nmi_serviced(),
            frame == old(self)@.nmi_frame(),
            final(self).wf(),
    {
        reveal(CpuState::sound);
        self.push_u16(self.program_counter);
        let mut pushed: u8 = self.status;
        StatusFlag::BreakCommand.remove(&mut pushed);
        StatusFlag::Undefined.add(&mut pushed);
        self.push(pushed);
        self.set_flag(StatusFlag::InterruptDisable, true);
        let frame = self.bus.tick(NMI_CYCLES);
        self.program_counter = self.mem_read_u16(NMI_VECTOR);
        frame
    }
}

/// `value` moved one bit to the left, `carry_in` filling bit 0.
fn shift_left(value: u8, carry_in: bool) -> (r: u8)
    ensures
        r == CpuState::shifted_left(value, carry_in),
{
    proof {
        lemma_shift(value);
        reveal(wrap8);
    }
    if carry_in {
        (value << 1) | 1
    } else {
        value << 1
    }
}

/// `value` moved one bit to the right, `carry_in` filling bit 7.
fn shift_right(value: u8, carry_in: bool) -> (r: u8)
    ensures
        r == CpuState::shifted_right(value, carry_in),
{
    proof {
        lemma_shift(value);
    }
    if carry_in {
        (value >> 1) | 0x80
    } else {
        value >> 1
    }
}

/// Whether bit 7 of `value` is set.
fn top_bit(value: u8) -> (on: bool)
    ensures
        on == (value >= 128),
{
    proof {
        lemma_shift(value);
    }
    value & 0x80 != 0
}

/// Whether bit 0 of `value` is set.
fn low_bit(value: u8) -> (on: bool)
    ensures
        on == (value % 2 == 1),
{
    proof {
        lemma_shift(value);
    }
    value & 0x01 != 0
}

} // verus!
