//! The CPU as a mathematical value, and what each instruction does to it.
//!
//! Nothing here is executed: every function says which state follows from
//! which. The interpreter in the sibling modules is proved to compute
//! exactly these states.

use vstd::prelude::*;
use crate::bus::BusState;
use crate::cpu::arith::high;
use crate::cpu::arith::low;
use crate::cpu::arith::next_in_page;
use crate::cpu::arith::pages_differ;
use crate::cpu::arith::signed;
use crate::cpu::arith::word;
use crate::cpu::arith::wrap16;
use crate::cpu::arith::wrap8;
use crate::error::NesError;
use crate::cpu::flags::StatusFlag;
use crate::cpu::flags::flag_set;
use crate::cpu::flags::pulled_status;
use crate::cpu::flags::with_flag;
use crate::cpu::flags::with_zn;
use crate::cpu::flags::RESET_STATUS;
use crate::cpu::opcodes::AddressingMode;
use crate::cpu::opcodes::Mnemonic;
use crate::cpu::opcodes::OpCode;
use crate::cpu::opcodes::opcode_entry;

verus! {

/// The stack pointer right after reset.
pub const RESET_STACK: u8 = 0xFD;

/// Where the NMI handler's address is stored.
pub const NMI_VECTOR: u16 = 0xFFFA;

/// Where the reset handler's address is stored.
pub const RESET_VECTOR: u16 = 0xFFFC;

/// Where the BRK handler's address is stored.
pub const BREAK_VECTOR: u16 = 0xFFFE;

/// First address of the stack page.
pub const STACK_PAGE: u16 = 0x0100;

/// CPU cycles that servicing an NMI takes.
pub const NMI_CYCLES: u8 = 2;

/// The address of stack cell `s`.
pub open spec fn stack_addr(s: u8) -> u16 {
    (STACK_PAGE + s) as u16
}

/// How one pass through the fetch-decode-execute loop ended.
#[derive(Clone, Copy, Debug, PartialEq, Eq, Structural)]
pub enum StepOutcome {
    /// An instruction ran to its end. `frame` tells whether the PPU
    /// completed a frame while it ran.
    Continue { frame: bool },
    /// A `BRK` was fetched. It is not executed: the interpreter stops on it.
    Break,
    /// The machine halted on `error`; `pc` is where the instruction at
    /// fault starts.
    Fault { error: NesError, pc: u16 },
}

impl StepOutcome {
    /// The outcome with a frame completion that happened before the
    /// instruction folded in.
    pub open spec fn or_frame(self, earlier: bool) -> StepOutcome {
        match self {
            StepOutcome::Continue { frame } => StepOutcome::Continue { frame: frame || earlier },
            other => other,
        }
    }
}

/// The register file and the bus behind it.
pub struct CpuState {
    pub a: u8,
    pub x: u8,
    pub y: u8,
    pub p: u8,
    pub pc: u16,
    pub s: u8,
    pub bus: BusState,
    /// 1 once the running instruction's operand crossed a page.
    pub extra_addr: u8,
    /// 1 once the running instruction is a taken branch.
    pub extra_br: u8,
}

impl CpuState {
    /// The bus is well formed and no penalty is left over from an earlier
    /// instruction.
    pub open spec fn wf(self) -> bool {
        &&& self.bus.wf()
        &&& self.extra_addr == 0
        &&& self.extra_br == 0
    }

    /// What holds while an instruction runs: the bus is well formed and
    /// neither penalty exceeds the one cycle it stands for.
    #[verifier::opaque]
    pub open spec fn sound(self) -> bool {
        &&& self.bus.wf()
        &&& self.extra_addr <= 1
        &&& self.extra_br <= 1
    }

    // Memory.

    pub open spec fn peek(self, addr: u16) -> u8 {
        self.bus.read_value(addr)
    }

    pub open spec fn after_read(self, addr: u16) -> CpuState {
        CpuState { bus: self.bus.after_read(addr), ..self }
    }

    pub open spec fn after_write(self, addr: u16, data: u8) -> CpuState {
        CpuState { bus: self.bus.after_write(addr, data), ..self }
    }

    /// The little-endian word at `pos`; the address after `$FFFF` is `$0000`.
    pub open spec fn peek_u16(self, pos: u16) -> u16 {
        word(self.after_read(pos).peek(wrap16(pos + 1)), self.peek(pos))
    }

    pub open spec fn after_read_u16(self, pos: u16) -> CpuState {
        self.after_read(pos).after_read(wrap16(pos + 1))
    }

    pub open spec fn after_write_u16(self, pos: u16, data: u16) -> CpuState {
        self.after_write(pos, low(data)).after_write(wrap16(pos + 1), high(data))
    }

    // The stack: page one, growing downwards, the pointer wrapping.

    pub open spec fn pushed(self, value: u8) -> CpuState {
        CpuState { s: wrap8(self.s - 1), ..self.after_write(stack_addr(self.s), value) }
    }

    /// High byte first, so that the low byte comes off first.
    pub open spec fn pushed_u16(self, value: u16) -> CpuState {
        self.pushed(high(value)).pushed(low(value))
    }

    pub open spec fn pop_value(self) -> u8 {
        self.peek(stack_addr(wrap8(self.s + 1)))
    }

    pub open spec fn popped(self) -> CpuState {
        let s = wrap8(self.s + 1);
        CpuState { s, ..self.after_read(stack_addr(s)) }
    }

    pub open spec fn pop_u16_value(self) -> u16 {
        word(self.popped().pop_value(), self.pop_value())
    }

    pub open spec fn popped_u16(self) -> CpuState {
        self.popped().popped()
    }

    // Flags.

    pub open spec fn flag(self, flag: StatusFlag) -> bool {
        flag_set(self.p, flag)
    }

    pub open spec fn flagged(self, flag: StatusFlag, on: bool) -> CpuState {
        CpuState { p: with_flag(self.p, flag, on), ..self }
    }

    pub open spec fn zn(self, value: u8) -> CpuState {
        CpuState { p: with_zn(self.p, value), ..self }
    }

    // Operands.

    /// The six registers are what they were in `before`.
    pub open spec fn keeps_registers(self, before: CpuState) -> bool {
        &&& self.a == before.a
        &&& self.x == before.x
        &&& self.y == before.y
        &&& self.p == before.p
        &&& self.pc == before.pc
        &&& self.s == before.s
    }

    /// The state with the page-cross penalty recorded when `crossed`.
    pub open spec fn penalized(self, crossed: bool) -> CpuState {
        if crossed {
            CpuState { extra_addr: 1, ..self }
        } else {
            self
        }
    }

    /// The operand's address and the state after finding it, with the
    /// program counter on the first operand byte.
    ///
    /// Page-zero indexing wraps inside page zero, and so does the fetch of
    /// an indirect pointer's second byte. Indexing an absolute or
    /// indirect-indexed address across a page costs a cycle. An implied
    /// operand has no address: the answer is the program counter and
    /// nothing is read.
    #[verifier::opaque]
    pub open spec fn operand(self, mode: AddressingMode) -> (u16, CpuState) {
        match mode {
            AddressingMode::Immediate | AddressingMode::Relative | AddressingMode::NoneAddressing => (
                self.pc,
                self,
            ),
            AddressingMode::ZeroPage => (self.peek(self.pc) as u16, self.after_read(self.pc)),
            AddressingMode::ZeroPage_X => (
                wrap8(self.peek(self.pc) + self.x) as u16,
                self.after_read(self.pc),
            ),
            AddressingMode::ZeroPage_Y => (
                wrap8(self.peek(self.pc) + self.y) as u16,
                self.after_read(self.pc),
            ),
            AddressingMode::Absolute | AddressingMode::Indirect => (
                self.peek_u16(self.pc),
                self.after_read_u16(self.pc),
            ),
            AddressingMode::Absolute_X => {
                let base = self.peek_u16(self.pc);
                let addr = wrap16(base + self.x);
                (addr, self.after_read_u16(self.pc).penalized(pages_differ(base, addr)))
            },
            AddressingMode::Absolute_Y => {
                let base = self.peek_u16(self.pc);
                let addr = wrap16(base + self.y);
                (addr, self.after_read_u16(self.pc).penalized(pages_differ(base, addr)))
            },
            AddressingMode::Indirect_X => {
                let ptr = wrap8(self.peek(self.pc) + self.x);
                let s1 = self.after_read(self.pc);
                let lo = s1.peek(ptr as u16);
                let s2 = s1.after_read(ptr as u16);
                let hi = s2.peek(wrap8(ptr + 1) as u16);
                (word(hi, lo), s2.after_read(wrap8(ptr + 1) as u16))
            },
            AddressingMode::Indirect_Y => {
                let ptr = self.peek(self.pc);
                let s1 = self.after_read(self.pc);
                let lo = s1.peek(ptr as u16);
                let s2 = s1.after_read(ptr as u16);
                let hi = s2.peek(wrap8(ptr + 1) as u16);
                let base = word(hi, lo);
                let addr = wrap16(base + self.y);
                (addr, s2.after_read(wrap8(ptr + 1) as u16).penalized(pages_differ(base, addr)))
            },
        }
    }

    /// The operand's value and the state after reading it.
    pub open spec fn load(self, mode: AddressingMode) -> (u8, CpuState) {
        let (addr, s) = self.operand(mode);
        (s.peek(addr), s.after_read(addr))
    }

    // Loads, stores, transfers.

    #[verifier::opaque]
    pub open spec fn lda(self, mode: AddressingMode) -> CpuState {
        let (value, s) = self.load(mode);
        CpuState { a: value, ..s }.zn(value)
    }

    #[verifier::opaque]
    pub open spec fn ldx(self, mode: AddressingMode) -> CpuState {
        let (value, s) = self.load(mode);
        CpuState { x: value, ..s }.zn(value)
    }

    #[verifier::opaque]
    pub open spec fn ldy(self, mode: AddressingMode) -> CpuState {
        let (value, s) = self.load(mode);
        CpuState { y: value, ..s }.zn(value)
    }

    #[verifier::opaque]
    pub open spec fn sta(self, mode: AddressingMode) -> CpuState {
        let (addr, s) = self.operand(mode);
        s.after_write(addr, self.a)
    }

    #[verifier::opaque]
    pub open spec fn stx(self, mode: AddressingMode) -> CpuState {
        let (addr, s) = self.operand(mode);
        s.after_write(addr, self.x)
    }

    #[verifier::opaque]
    pub open spec fn sty(self, mode: AddressingMode) -> CpuState {
        let (addr, s) = self.operand(mode);
        s.after_write(addr, self.y)
    }

    #[verifier::opaque]
    pub open spec fn tax(self) -> CpuState {
        CpuState { x: self.a, ..self }.zn(self.a)
    }

    #[verifier::opaque]
    pub open spec fn tay(self) -> CpuState {
        CpuState { y: self.a, ..self }.zn(self.a)
    }

    #[verifier::opaque]
    pub open spec fn tsx(self) -> CpuState {
        CpuState { x: self.s, ..self }.zn(self.s)
    }

    #[verifier::opaque]
    pub open spec fn txa(self) -> CpuState {
        CpuState { a: self.x, ..self }.zn(self.x)
    }

    #[verifier::opaque]
    pub open spec fn tya(self) -> CpuState {
        CpuState { a: self.y, ..self }.zn(self.y)
    }

    /// The one transfer that leaves the flags alone.
    #[verifier::opaque]
    pub open spec fn txs(self) -> CpuState {
        CpuState { s: self.x, ..self }
    }

    // Arithmetic and logic.

    /// The accumulator plus `value` plus the carry flag. Carry comes out of
    /// bit 8 of the sum; overflow says that the sum of the operands, read
    /// as signed bytes, does not fit a signed byte.
    pub open spec fn add_to_a(self, value: u8) -> CpuState {
        let carry_in: int = if self.flag(StatusFlag::Carry) {
            1
        } else {
            0
        };
        let sum = self.a + value + carry_in;
        let signed_sum = signed(self.a) + signed(value) + carry_in;
        CpuState { a: wrap8(sum), ..self }.flagged(StatusFlag::Carry, sum > 0xFF).flagged(
            StatusFlag::Overflow,
            signed_sum < -128 || signed_sum > 127,
        ).zn(wrap8(sum))
    }

    #[verifier::opaque]
    pub open spec fn adc(self, mode: AddressingMode) -> CpuState {
        let (value, s) = self.load(mode);
        s.add_to_a(value)
    }

    /// Subtraction is addition of the operand's one's complement.
    #[verifier::opaque]
    pub open spec fn sbc(self, mode: AddressingMode) -> CpuState {
        let (value, s) = self.load(mode);
        s.add_to_a((0xFF - value) as u8)
    }

    #[verifier::opaque]
    pub open spec fn and(self, mode: AddressingMode) -> CpuState {
        let (value, s) = self.load(mode);
        CpuState { a: s.a & value, ..s }.zn(s.a & value)
    }

    #[verifier::opaque]
    pub open spec fn ora(self, mode: AddressingMode) -> CpuState {
        let (value, s) = self.load(mode);
        CpuState { a: s.a | value, ..s }.zn(s.a | value)
    }

    #[verifier::opaque]
    pub open spec fn eor(self, mode: AddressingMode) -> CpuState {
        let (value, s) = self.load(mode);
        CpuState { a: s.a ^ value, ..s }.zn(s.a ^ value)
    }

    /// Zero says that the accumulator and the operand share no bit;
    /// negative and overflow are the operand's bits 7 and 6.
    #[verifier::opaque]
    pub open spec fn bit(self, mode: AddressingMode) -> CpuState {
        let (value, s) = self.load(mode);
        s.flagged(StatusFlag::Negative, value >= 128).flagged(
            StatusFlag::Overflow,
            value & 0x40 != 0,
        ).flagged(StatusFlag::Zero, value & s.a == 0)
    }

    /// The flags of `register - value`: carry when there is no borrow, zero
    /// on equality, negative from bit 7 of the difference.
    pub open spec fn compared(self, register: u8, value: u8) -> CpuState {
        self.flagged(StatusFlag::Carry, register >= value).flagged(
            StatusFlag::Zero,
            register == value,
        ).flagged(StatusFlag::Negative, wrap8(register - value) >= 128)
    }

    #[verifier::opaque]
    pub open spec fn cmp(self, mode: AddressingMode) -> CpuState {
        let (value, s) = self.load(mode);
        s.compared(s.a, value)
    }

    #[verifier::opaque]
    pub open spec fn cpx(self, mode: AddressingMode) -> CpuState {
        let (value, s) = self.load(mode);
        s.compared(s.x, value)
    }

    #[verifier::opaque]
    pub open spec fn cpy(self, mode: AddressingMode) -> CpuState {
        let (value, s) = self.load(mode);
        s.compared(s.y, value)
    }

    // Shifts and rotates. The bit that leaves goes to carry.

    pub open spec fn shifted_left(value: u8, carry_in: bool) -> u8 {
        wrap8(
            value * 2 + if carry_in {
                1int
            } else {
                0int
            },
        )
    }

    pub open spec fn shifted_right(value: u8, carry_in: bool) -> u8 {
        (value / 2 + if carry_in {
            128int
        } else {
            0int
        }) as u8
    }

    /// What a shift or rotate works on: the accumulator when the
    /// instruction has no operand, the operand otherwise.
    pub open spec fn shift_input(self, mode: AddressingMode) -> u8 {
        if mode == AddressingMode::NoneAddressing {
            self.a
        } else {
            self.operand(mode).1.peek(self.operand(mode).0)
        }
    }

    /// The state after a shift or rotate put `result` back where its input
    /// came from: carry becomes `carry`, zero and negative follow the result.
    pub open spec fn shift_output(self, mode: AddressingMode, result: u8, carry: bool) -> CpuState {
        if mode == AddressingMode::NoneAddressing {
            CpuState { a: result, ..self }.flagged(StatusFlag::Carry, carry).zn(result)
        } else {
            let (addr, s) = self.operand(mode);
            s.after_read(addr).after_write(addr, result).flagged(StatusFlag::Carry, carry).zn(
                result,
            )
        }
    }

    #[verifier::opaque]
    pub open spec fn asl(self, mode: AddressingMode) -> CpuState {
        let value = self.shift_input(mode);
        self.shift_output(mode, Self::shifted_left(value, false), value >= 128)
    }

    #[verifier::opaque]
    pub open spec fn lsr(self, mode: AddressingMode) -> CpuState {
        let value = self.shift_input(mode);
        self.shift_output(mode, Self::shifted_right(value, false), value % 2 == 1)
    }

    #[verifier::opaque]
    pub open spec fn rol(self, mode: AddressingMode) -> CpuState {
        let value = self.shift_input(mode);
        self.shift_output(
            mode,
            Self::shifted_left(value, self.flag(StatusFlag::Carry)),
            value >= 128,
        )
    }

    #[verifier::opaque]
    pub open spec fn ror(self, mode: AddressingMode) -> CpuState {
        let value = self.shift_input(mode);
        self.shift_output(
            mode,
            Self::shifted_right(value, self.flag(StatusFlag::Carry)),
            value % 2 == 1,
        )
    }

    // Increments and decrements, wrapping at eight bits.

    #[verifier::opaque]
    pub open spec fn inc(self, mode: AddressingMode) -> CpuState {
        let (addr, s) = self.operand(mode);
        let r = wrap8(s.peek(addr) + 1);
        s.after_read(addr).after_write(addr, r).zn(r)
    }

    #[verifier::opaque]
    pub open spec fn dec(self, mode: AddressingMode) -> CpuState {
        let (addr, s) = self.operand(mode);
        let r = wrap8(s.peek(addr) - 1);
        s.after_read(addr).after_write(addr, r).zn(r)
    }

    #[verifier::opaque]
    pub open spec fn inx(self) -> CpuState {
        CpuState { x: wrap8(self.x + 1), ..self }.zn(wrap8(self.x + 1))
    }

    #[verifier::opaque]
    pub open spec fn iny(self) -> CpuState {
        CpuState { y: wrap8(self.y + 1), ..self }.zn(wrap8(self.y + 1))
    }

    #[verifier::opaque]
    pub open spec fn dex(self) -> CpuState {
        CpuState { x: wrap8(self.x - 1), ..self }.zn(wrap8(self.x - 1))
    }

    #[verifier::opaque]
    pub open spec fn dey(self) -> CpuState {
        CpuState { y: wrap8(self.y - 1), ..self }.zn(wrap8(self.y - 1))
    }

    // Stack instructions.

    #[verifier::opaque]
    pub open spec fn pha(self) -> CpuState {
        self.pushed(self.a)
    }

    /// The pushed copy has the break flag set.
    #[verifier::opaque]
    pub open spec fn php(self) -> CpuState {
        self.pushed(with_flag(self.p, StatusFlag::BreakCommand, true))
    }

    #[verifier::opaque]
    pub open spec fn pla(self) -> CpuState {
        let value = self.pop_value();
        CpuState { a: value, ..self.popped() }.zn(value)
    }

    #[verifier::opaque]
    pub open spec fn plp(self) -> CpuState {
        CpuState { p: pulled_status(self.pop_value()), ..self.popped() }
    }

    // Jumps, calls, branches.

    /// A taken branch. The target is the address after the displacement
    /// byte, moved by the displacement read as a signed byte. Taking the
    /// branch costs a cycle, and one more when the target lies in another
    /// page than the next instruction.
    pub open spec fn branched(self, mode: AddressingMode) -> CpuState {
        let (addr, s) = self.operand(mode);
        let next = wrap16(self.pc + 1);
        let target = wrap16(next + signed(s.peek(addr)));
        CpuState { pc: target, extra_br: 1, ..s.after_read(addr) }.penalized(
            pages_differ(next, target),
        )
    }

    /// A branch on `flag` being `wanted`.
    #[verifier::opaque]
    pub open spec fn branch_if(
        self,
        mode: AddressingMode,
        flag: StatusFlag,
        wanted: bool,
    ) -> CpuState {
        if self.flag(flag) == wanted {
            self.branched(mode)
        } else {
            self
        }
    }

    /// An indirect jump fetches its target's high byte without carrying
    /// into the pointer's page.
    #[verifier::opaque]
    pub open spec fn jmp(self, mode: AddressingMode) -> CpuState {
        let (addr, s) = self.operand(mode);
        if mode == AddressingMode::Indirect {
            let lo = s.peek(addr);
            let s1 = s.after_read(addr);
            let hi = s1.peek(next_in_page(addr));
            CpuState { pc: word(hi, lo), ..s1.after_read(next_in_page(addr)) }
        } else {
            CpuState { pc: addr, ..s }
        }
    }

    /// The return address pushed is that of the call's last byte.
    #[verifier::opaque]
    pub open spec fn jsr(self) -> CpuState {
        let (addr, s) = self.operand(AddressingMode::Absolute);
        CpuState { pc: addr, ..s.pushed_u16(wrap16(self.pc + 1)) }
    }

    #[verifier::opaque]
    pub open spec fn rts(self) -> CpuState {
        CpuState { pc: wrap16(self.pop_u16_value() + 1), ..self.popped_u16() }
    }

    #[verifier::opaque]
    pub open spec fn rti(self) -> CpuState {
        let s = CpuState { p: pulled_status(self.pop_value()), ..self.popped() };
        CpuState { pc: s.pop_u16_value(), ..s.popped_u16() }
    }

    /// The software interrupt, with the program counter just past the
    /// opcode: the address after the padding byte and the status with break
    /// and bit 5 set go on the stack, interrupts are disabled, and
    /// execution continues at the break vector.
    #[verifier::opaque]
    pub open spec fn brk(self) -> CpuState {
        let s = self.pushed_u16(wrap16(self.pc + 1)).pushed(
            with_flag(
                with_flag(self.p, StatusFlag::BreakCommand, true),
                StatusFlag::Undefined,
                true,
            ),
        ).flagged(StatusFlag::InterruptDisable, true);
        CpuState { pc: s.peek_u16(BREAK_VECTOR), ..s.after_read_u16(BREAK_VECTOR) }
    }

    /// The first half of servicing an NMI: the program counter and the
    /// status (break cleared, bit 5 set) go on the stack and interrupts are
    /// disabled.
    pub open spec fn nmi_entered(self) -> CpuState {
        self.pushed_u16(self.pc).pushed(pulled_status(self.p)).flagged(
            StatusFlag::InterruptDisable,
            true,
        )
    }

    /// Whether the two cycles of servicing an NMI complete a frame.
    pub open spec fn nmi_frame(self) -> bool {
        self.nmi_entered().bus.completes_frame(NMI_CYCLES)
    }

    /// Servicing an NMI: after the pushes two cycles pass, and execution
    /// continues at the NMI vector.
    pub open spec fn nmi_serviced(self) -> CpuState {
        let s1 = self.nmi_entered();
        let s2 = CpuState { bus: s1.bus.ticked(NMI_CYCLES), ..s1 };
        CpuState { pc: s2.peek_u16(NMI_VECTOR), ..s2.after_read_u16(NMI_VECTOR) }
    }

    /// The state after reset.
    pub open spec fn reset_state(self) -> CpuState {
        CpuState {
            a: 0,
            x: 0,
            y: 0,
            s: RESET_STACK,
            p: RESET_STATUS,
            pc: self.peek_u16(RESET_VECTOR),
            extra_addr: 0,
            extra_br: 0,
            ..self.after_read_u16(RESET_VECTOR)
        }
    }

    // The loop.

    /// What the instruction `mnemonic` does in addressing mode `mode`, with
    /// the program counter on the first operand byte.
    #[verifier::opaque]
    pub open spec fn perform(self, mnemonic: Mnemonic, mode: AddressingMode) -> CpuState {
        match mnemonic {
            Mnemonic::ADC => self.adc(mode),
            Mnemonic::AND => self.and(mode),
            Mnemonic::ASL => self.asl(mode),
            Mnemonic::BCC => self.branch_if(mode, StatusFlag::Carry, false),
            Mnemonic::BCS => self.branch_if(mode, StatusFlag::Carry, true),
            Mnemonic::BEQ => self.branch_if(mode, StatusFlag::Zero, true),
            Mnemonic::BIT => self.bit(mode),
            Mnemonic::BMI => self.branch_if(mode, StatusFlag::Negative, true),
            Mnemonic::BNE => self.branch_if(mode, StatusFlag::Zero, false),
            Mnemonic::BPL => self.branch_if(mode, StatusFlag::Negative, false),
            Mnemonic::BRK => self.brk(),
            Mnemonic::BVC => self.branch_if(mode, StatusFlag::Overflow, false),
            Mnemonic::BVS => self.branch_if(mode, StatusFlag::Overflow, true),
            Mnemonic::CLC => self.flagged(StatusFlag::Carry, false),
            Mnemonic::CLD => self.flagged(StatusFlag::DecimalMode, false),
            Mnemonic::CLI => self.flagged(StatusFlag::InterruptDisable, false),
            Mnemonic::CLV => self.flagged(StatusFlag::Overflow, false),
            Mnemonic::CMP => self.cmp(mode),
            Mnemonic::CPX => self.cpx(mode),
            Mnemonic::CPY => self.cpy(mode),
            Mnemonic::DEC => self.dec(mode),
            Mnemonic::DEX => self.dex(),
            Mnemonic::DEY => self.dey(),
            Mnemonic::EOR => self.eor(mode),
            Mnemonic::INC => self.inc(mode),
            Mnemonic::INX => self.inx(),
            Mnemonic::INY => self.iny(),
            Mnemonic::JMP => self.jmp(mode),
            Mnemonic::JSR => self.jsr(),
            Mnemonic::LDA => self.lda(mode),
            Mnemonic::LDX => self.ldx(mode),
            Mnemonic::LDY => self.ldy(mode),
            Mnemonic::LSR => self.lsr(mode),
            Mnemonic::NOP => self,
            Mnemonic::ORA => self.ora(mode),
            Mnemonic::PHA => self.pha(),
            Mnemonic::PHP => self.php(),
            Mnemonic::PLA => self.pla(),
            Mnemonic::PLP => self.plp(),
            Mnemonic::ROL => self.rol(mode),
            Mnemonic::ROR => self.ror(mode),
            Mnemonic::RTI => self.rti(),
            Mnemonic::RTS => self.rts(),
            Mnemonic::SBC => self.sbc(mode),
            Mnemonic::SEC => self.flagged(StatusFlag::Carry, true),
            Mnemonic::SED => self.flagged(StatusFlag::DecimalMode, true),
            Mnemonic::SEI => self.flagged(StatusFlag::InterruptDisable, true),
            Mnemonic::STA => self.sta(mode),
            Mnemonic::STX => self.stx(mode),
            Mnemonic::STY => self.sty(mode),
            Mnemonic::TAX => self.tax(),
            Mnemonic::TAY => self.tay(),
            Mnemonic::TSX => self.tsx(),
            Mnemonic::TXA => self.txa(),
            Mnemonic::TXS => self.txs(),
            Mnemonic::TYA => self.tya(),
        }
    }

    /// The state after the opcode fetch.
    pub open spec fn fetched(self) -> CpuState {
        CpuState { pc: wrap16(self.pc + 1), ..self.after_read(self.pc) }
    }

    /// Whether the instruction `op`, having led to this state, loaded the
    /// program counter itself: it is a jump, a call, a return, or a branch
    /// that was taken.
    pub open spec fn took_control(self, op: OpCode) -> bool {
        op.mnemonic.is_jump() || self.extra_br > 0
    }

    /// The state with the program counter moved past the operand of `op`,
    /// unless the instruction loaded it.
    pub open spec fn advanced(self, op: OpCode) -> CpuState {
        if self.took_control(op) {
            self
        } else {
            CpuState { pc: wrap16(self.pc + op.op_length - 1), ..self }
        }
    }

    /// The cycles `op` cost, having led to this state: its base cost and
    /// the penalties it ran into.
    pub open spec fn cost(self, op: OpCode) -> u8 {
        (op.cycles + self.extra_br + self.extra_addr) as u8
    }

    /// The state after the bus ran `cycles` cycles and the penalties were
    /// cleared for the next instruction.
    pub open spec fn settled(self, cycles: u8) -> CpuState {
        CpuState { bus: self.bus.ticked(cycles), extra_addr: 0, extra_br: 0, ..self }
    }

    /// How an instruction that ran to its end is reported.
    pub open spec fn report(self, start: u16, frame: bool) -> StepOutcome {
        match self.bus.fault {
            Some(error) => StepOutcome::Fault { error, pc: start },
            None => StepOutcome::Continue { frame },
        }
    }

    /// One instruction: fetch, decode, execute, advance, tick.
    ///
    /// Nothing runs while a fault is recorded on the bus. A byte that is no
    /// official opcode halts the machine, and so does `BRK`, both with the
    /// program counter past the opcode and no cycle spent. Every other
    /// instruction is performed, the program counter moves past its operand
    /// unless the instruction loaded it, and the bus is ticked once with the
    /// base cost plus penalties.
    pub open spec fn execute(self) -> (CpuState, StepOutcome) {
        match self.bus.fault {
            Some(error) => (self, StepOutcome::Fault { error, pc: self.pc }),
            None => {
                let fetched = self.fetched();
                match opcode_entry(self.peek(self.pc)) {
                    None => (
                        fetched,
                        StepOutcome::Fault { error: NesError::IllegalOpcode, pc: self.pc },
                    ),
                    Some(op) => {
                        if op.mnemonic == Mnemonic::BRK {
                            (fetched, StepOutcome::Break)
                        } else {
                            let done = fetched.perform(op.mnemonic, op.mode);
                            let cycles = done.cost(op);
                            let next = done.advanced(op).settled(cycles);
                            (next, next.report(self.pc, done.bus.completes_frame(cycles)))
                        }
                    },
                }
            },
        }
    }

    /// The state after the NMI line was sampled.
    pub open spec fn polled(self) -> CpuState {
        CpuState { bus: self.bus.after_poll_nmi(), ..self }
    }

    /// The state after the NMI line was sampled and a pending NMI was
    /// serviced. Nothing happens while a fault is recorded.
    pub open spec fn prepared(self) -> CpuState {
        if self.bus.fault is Some {
            self
        } else if self.bus.ppu.nmi {
            self.polled().nmi_serviced()
        } else {
            self.polled()
        }
    }

    /// Whether servicing a pending NMI completes a frame.
    pub open spec fn prepared_frame(self) -> bool {
        self.bus.fault is None && self.bus.ppu.nmi && self.polled().nmi_frame()
    }

    /// One pass through the loop: a pending NMI is serviced, then one
    /// instruction is executed.
    pub open spec fn step(self) -> (CpuState, StepOutcome) {
        (
            self.prepared().execute().0,
            self.prepared().execute().1.or_frame(self.prepared_frame()),
        )
    }

    /// Up to `budget` passes through the loop, stopping early on `BRK` or
    /// on a fault. The outcome is `Continue` exactly when the budget ran
    /// out first.
    pub open spec fn run(self, budget: nat) -> (CpuState, StepOutcome)
        decreases budget,
    {
        if budget == 0 {
            (self, StepOutcome::Continue { frame: false })
        } else {
            let (next, outcome) = self.step();
            if outcome is Continue {
                next.run((budget - 1) as nat)
            } else {
                (next, outcome)
            }
        }
    }

    /// The log of a run of up to `budget` passes: before each instruction
    /// is fetched, and after a pending NMI was serviced, the state's trace
    /// line is taken. The instruction that stops the run is logged too.
    pub open spec fn run_log(self, budget: nat) -> Seq<Seq<char>>
        decreases budget,
    {
        if budget == 0 {
            Seq::empty()
        } else {
            let line = self.prepared().trace_line();
            if self.step().1 is Continue {
                seq![line] + self.step().0.run_log((budget - 1) as nat)
            } else {
                seq![line]
            }
        }
    }
}

} // verus!
