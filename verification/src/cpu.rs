//! The 6502 interpreter.

pub mod arith;
pub mod bits;
pub mod flags;
pub mod instructions;
pub mod laws;
pub mod model;
pub mod op;
pub mod opcodes;
pub mod trace;

use vstd::prelude::*;
use crate::bus::Bus;
use crate::bus::Mem;
use crate::cpu::flags::StatusFlag;
use crate::cpu::flags::RESET_STATUS;
use crate::cpu::model::CpuState;
use crate::cpu::model::RESET_STACK;
use crate::cpu::model::RESET_VECTOR;
use crate::cpu::model::StepOutcome;
use crate::cpu::arith::addr_add;
use crate::cpu::arith::high_byte;
use crate::cpu::arith::low_byte;
use crate::cpu::arith::make_word;
use crate::cpu::opcodes::decode;
use crate::cpu::opcodes::lemma_table_rows;
use crate::cpu::opcodes::Mnemonic;
use crate::cpu::opcodes::OpCode;
use crate::error::NesError;

verus! {

pub const LDA_IMMEDIATE: u8 = 0xa9;

pub const LDA_ZEROPAGE: u8 = 0xa5;

pub const LDA_ABSOLUTE: u8 = 0xad;

pub const LDX_IMMEDIATE: u8 = 0xa2;

pub const LDY_IMMEDIATE: u8 = 0xa0;

pub const STA_ZEROPAGE: u8 = 0x85;

pub const STA_ABSOLUTE: u8 = 0x8d;

pub const ADC_IMMEDIATE: u8 = 0x69;

pub const SEC: u8 = 0x38;

pub const CLC: u8 = 0x18;

/// The processor: its registers and the bus it drives.
#[allow(non_camel_case_types)]
pub struct CPU {
    pub register_a: u8,
    pub register_x: u8,
    pub register_y: u8,
    pub status: u8,
    pub program_counter: u16,
    pub stack_counter: u8,
    pub bus: Bus,
    /// The page-cross penalty of the instruction that is running.
    pub added_cycles_of_addr: u8,
    /// The taken-branch penalty of the instruction that is running.
    pub added_cycles_of_br: u8,
}

impl View for CPU {
    type V = CpuState;

    open spec fn view(&self) -> CpuState {
        CpuState {
            a: self.register_a,
            x: self.register_x,
            y: self.register_y,
            p: self.status,
            pc: self.program_counter,
            s: self.stack_counter,
            bus: self.bus@,
            extra_addr: self.added_cycles_of_addr,
            extra_br: self.added_cycles_of_br,
        }
    }
}

impl Mem for CPU {
    fn mem_read(&mut self, addr: u16) -> (value: u8)
        ensures
            value == old(self)@.peek(addr),
            final(self)@ == old(self)@.after_read(addr),
            old(self)@.sound() ==> final(self)@.sound(),
    {
        reveal(CpuState::sound);
        self.bus.mem_read(addr)
    }

    fn mem_write(&mut self, addr: u16, data: u8)
        ensures
            final(self)@ == old(self)@.after_write(addr, data),
            old(self)@.sound() ==> final(self)@.sound(),
    {
        reveal(CpuState::sound);
        self.bus.mem_write(addr, data);
    }
}

impl CPU {
    /// Between instructions: the bus is well formed and no penalty is left
    /// over.
    pub open spec fn wf(&self) -> bool {
        self@.wf()
    }

    /// A processor on `bus` with every register zero. `reset` brings it to
    /// its documented start state.
    pub fn new(bus: Bus) -> (cpu: Self)
        ensures
            cpu@ == (CpuState {
                a: 0,
                x: 0,
                y: 0,
                p: 0,
                pc: 0,
                s: 0,
                bus: bus@,
                extra_addr: 0,
                extra_br: 0,
            }),
            bus.wf() ==> cpu.wf(),
    {
        CPU {
            register_a: 0,
            register_x: 0,
            register_y: 0,
            status: 0,
            program_counter: 0,
            stack_counter: 0,
            bus,
            added_cycles_of_addr: 0,
            added_cycles_of_br: 0,
        }
    }

    /// Reads the little-endian word at `pos`.
    pub fn mem_read_u16(&mut self, pos: u16) -> (value: u16)
        ensures
            value == old(self)@.peek_u16(pos),
            final(self)@ == old(self)@.after_read_u16(pos),
            old(self)@.sound() ==> final(self)@.sound(),
    {
        reveal(CpuState::sound);
        let lo = self.mem_read(pos);
        let hi = self.mem_read(addr_add(pos, 1));
        make_word(hi, lo)
    }

    /// Writes `data` as a little-endian word at `pos`.
    pub fn mem_write_u16(&mut self, pos: u16, data: u16)
        ensures
            final(self)@ == old(self)@.after_write_u16(pos, data),
            old(self)@.sound() ==> final(self)@.sound(),
    {
        reveal(CpuState::sound);
        self.mem_write(pos, low_byte(data));
        self.mem_write(addr_add(pos, 1), high_byte(data));
    }

    /// Brings the processor to its start state: registers cleared, the
    /// stack pointer at `$FD`, the status at `$24`, and the program counter
    /// loaded from the reset vector.
    pub fn reset(&mut self)
        ensures
            final(self)@ == old(self)@.reset_state(),
            final(self).register_a == 0,
            final(self).register_x == 0,
            final(self).register_y == 0,
            final(self).stack_counter == 0xFD,
            final(self).status == 0x24,
            final(self).program_counter == old(self)@.peek_u16(0xFFFC),
            old(self).bus.wf() ==> final(self).wf(),
    {
        reveal(CpuState::sound);
        self.register_a = 0;
        self.register_x = 0;
        self.register_y = 0;
        self.status = RESET_STATUS;
        self.stack_counter = RESET_STACK;
        self.added_cycles_of_addr = 0;
        self.added_cycles_of_br = 0;
        self.program_counter = self.mem_read_u16(RESET_VECTOR);
    }

    /// Whether the negative flag is set.
    pub fn negative(&self) -> (on: bool)
        ensures
            on == self@.flag(StatusFlag::Negative),
    {
        StatusFlag::Negative.among(self.status)
    }

    /// Whether the zero flag is set.
    pub fn zero(&self) -> (on: bool)
        ensures
            on == self@.flag(StatusFlag::Zero),
    {
        StatusFlag::Zero.among(self.status)
    }

    /// Whether the overflow flag is set.
    pub fn overflow(&self) -> (on: bool)
        ensures
            on == self@.flag(StatusFlag::Overflow),
    {
        StatusFlag::Overflow.among(self.status)
    }

    /// Performs `op`, one of the loads, stores and register transfers.
    fn perform_move_data(&mut self, op: &OpCode)
        requires
            old(self)@.sound(),
            matches!(
                op.mnemonic,
                Mnemonic::LDA
                    | Mnemonic::LDX
                    | Mnemonic::LDY
                    | Mnemonic::STA
                    | Mnemonic::STX
                    | Mnemonic::STY
                    | Mnemonic::TAX
                    | Mnemonic::TAY
                    | Mnemonic::TSX
                    | Mnemonic::TXA
                    | Mnemonic::TXS
                    | Mnemonic::TYA
            ),
        ensures
            final(self)@ == old(self)@.perform(op.mnemonic, op.mode),
            final(self)@.sound(),
    {
        reveal(CpuState::perform);
        match op.mnemonic {
            Mnemonic::LDA => self.lda(&op.mode),
            Mnemonic::LDX => self.ldx(&op.mode),
            Mnemonic::LDY => self.ldy(&op.mode),
            Mnemonic::STA => self.sta(&op.mode),
            Mnemonic::STX => self.stx(&op.mode),
            Mnemonic::STY => self.sty(&op.mode),
            Mnemonic::TAX => self.tax(),
            Mnemonic::TAY => self.tay(),
            Mnemonic::TSX => self.tsx(),
            Mnemonic::TXA => self.txa(),
            Mnemonic::TXS => self.txs(),
            Mnemonic::TYA => self.tya(),
            _ => {},
        }
    }

    /// Performs `op`, one of the arithmetic, logic and comparisons.
    fn perform_compute(&mut self, op: &OpCode)
        requires
            old(self)@.sound(),
            matches!(
                op.mnemonic,
                Mnemonic::ADC
                    | Mnemonic::SBC
                    | Mnemonic::AND
                    | Mnemonic::ORA
                    | Mnemonic::EOR
                    | Mnemonic::BIT
                    | Mnemonic::CMP
                    | Mnemonic::CPX
                    | Mnemonic::CPY
            ),
        ensures
            final(self)@ == old(self)@.perform(op.mnemonic, op.mode),
            final(self)@.sound(),
    {
        reveal(CpuState::perform);
        match op.mnemonic {
            Mnemonic::ADC => self.adc(&op.mode),
            Mnemonic::SBC => self.sbc(&op.mode),
            Mnemonic::AND => self.and(&op.mode),
            Mnemonic::ORA => self.ora(&op.mode),
            Mnemonic::EOR => self.eor(&op.mode),
            Mnemonic::BIT => self.bit(&op.mode),
            Mnemonic::CMP => self.cmp(&op.mode),
            Mnemonic::CPX => self.cpx(&op.mode),
            Mnemonic::CPY => self.cpy(&op.mode),
            _ => {},
        }
    }

    /// Performs `op`, one of the shifts, rotates, increments and decrements.
    fn perform_modify(&mut self, op: &OpCode)
        requires
            old(self)@.sound(),
            matches!(
                op.mnemonic,
                Mnemonic::ASL
                    | Mnemonic::LSR
                    | Mnemonic::ROL
                    | Mnemonic::ROR
                    | Mnemonic::INC
                    | Mnemonic::DEC
                    | Mnemonic::INX
                    | Mnemonic::INY
                    | Mnemonic::DEX
                    | Mnemonic::DEY
            ),
        ensures
            final(self)@ == old(self)@.perform(op.mnemonic, op.mode),
            final(self)@.sound(),
    {
        reveal(CpuState::perform);
        match op.mnemonic {
            Mnemonic::ASL => self.asl(&op.mode),
            Mnemonic::LSR => self.lsr(&op.mode),
            Mnemonic::ROL => self.rol(&op.mode),
            Mnemonic::ROR => self.ror(&op.mode),
            Mnemonic::INC => self.inc(&op.mode),
            Mnemonic::DEC => self.dec(&op.mode),
            Mnemonic::INX => self.inx(),
            Mnemonic::INY => self.iny(),
            Mnemonic::DEX => self.dex(),
            Mnemonic::DEY => self.dey(),
            _ => {},
        }
    }

    /// Performs `op`, one of the conditional branches.
    fn perform_branch(&mut self, op: &OpCode)
        requires
            old(self)@.sound(),
            matches!(
                op.mnemonic,
                Mnemonic::BCC
                    | Mnemonic::BCS
                    | Mnemonic::BEQ
                    | Mnemonic::BMI
                    | Mnemonic::BNE
                    | Mnemonic::BPL
                    | Mnemonic::BVC
                    | Mnemonic::BVS
            ),
        ensures
            final(self)@ == old(self)@.perform(op.mnemonic, op.mode),
            final(self)@.sound(),
    {
        reveal(CpuState::perform);
        match op.mnemonic {
            Mnemonic::BCC => self.bcc(&op.mode),
            Mnemonic::BCS => self.bcs(&op.mode),
            Mnemonic::BEQ => self.beq(&op.mode),
            Mnemonic::BMI => self.bmi(&op.mode),
            Mnemonic::BNE => self.bne(&op.mode),
            Mnemonic::BPL => self.bpl(&op.mode),
            Mnemonic::BVC => self.bvc(&op.mode),
            Mnemonic::BVS => self.bvs(&op.mode),
            _ => {},
        }
    }

    /// Performs `op`, one of the jumps, calls, returns and the software interrupt.
    fn perform_transfer_control(&mut self, op: &OpCode)
        requires
            old(self)@.sound(),
            matches!(
                op.mnemonic,
                Mnemonic::JMP
                    | Mnemonic::JSR
                    | Mnemonic::RTS
                    | Mnemonic::RTI
                    | Mnemonic::BRK
            ),
        ensures
            final(self)@ == old(self)@.perform(op.mnemonic, op.mode),
            final(self)@.sound(),
    {
        reveal(CpuState::perform);
        match op.mnemonic {
            Mnemonic::JMP => self.jmp(&op.mode),
            Mnemonic::JSR => self.jsr(),
            Mnemonic::RTS => self.rts(),
            Mnemonic::RTI => self.rti(),
            Mnemonic::BRK => self.brk(),
            _ => {},
        }
    }

    /// Performs `op`, one of the stack instructions, flag instructions and `NOP`.
    fn perform_stack_and_flags(&mut self, op: &OpCode)
        requires
            old(self)@.sound(),
            matches!(
                op.mnemonic,
                Mnemonic::PHA
                    | Mnemonic::PHP
                    | Mnemonic::PLA
                    | Mnemonic::PLP
                    | Mnemonic::CLC
                    | Mnemonic::CLD
                    | Mnemonic::CLI
                    | Mnemonic::CLV
                    | Mnemonic::SEC
                    | Mnemonic::SED
                    | Mnemonic::SEI
                    | Mnemonic::NOP
            ),
        ensures
            final(self)@ == old(self)@.perform(op.mnemonic, op.mode),
            final(self)@.sound(),
    {
        reveal(CpuState::perform);
        match op.mnemonic {
            Mnemonic::PHA => self.pha(),
            Mnemonic::PHP => self.php(),
            Mnemonic::PLA => self.pla(),
            Mnemonic::PLP => self.plp(),
            Mnemonic::CLC => self.clc(),
            Mnemonic::CLD => self.cld(),
            Mnemonic::CLI => self.cli(),
            Mnemonic::CLV => self.clv(),
            Mnemonic::SEC => self.sec(),
            Mnemonic::SED => self.sed(),
            Mnemonic::SEI => self.sei(),
            Mnemonic::NOP => self.nop(),
            _ => {},
        }
    }

    /// Performs the instruction `op`, with the program counter on its
    /// first operand byte. At most one cycle of each penalty is recorded.
    pub fn perform(&mut self, op: &OpCode)
        requires
            old(self).wf(),
        ensures
            final(self)@ == old(self)@.perform(op.mnemonic, op.mode),
            final(self).bus.wf(),
            final(self).added_cycles_of_addr <= 1,
            final(self).added_cycles_of_br <= 1,
    {
        reveal(CpuState::sound);
        match op.mnemonic {
            Mnemonic::LDA
            | Mnemonic::LDX
            | Mnemonic::LDY
            | Mnemonic::STA
            | Mnemonic::STX
            | Mnemonic::STY
            | Mnemonic::TAX
            | Mnemonic::TAY
            | Mnemonic::TSX
            | Mnemonic::TXA
            | Mnemonic::TXS
            | Mnemonic::TYA => self.perform_move_data(op),
            Mnemonic::ADC
            | Mnemonic::SBC
            | Mnemonic::AND
            | Mnemonic::ORA
            | Mnemonic::EOR
            | Mnemonic::BIT
            | Mnemonic::CMP
            | Mnemonic::CPX
            | Mnemonic::CPY => self.perform_compute(op),
            Mnemonic::ASL
            | Mnemonic::LSR
            | Mnemonic::ROL
            | Mnemonic::ROR
            | Mnemonic::INC
            | Mnemonic::DEC
            | Mnemonic::INX
            | Mnemonic::INY
            | Mnemonic::DEX
            | Mnemonic::DEY => self.perform_modify(op),
            Mnemonic::BCC
            | Mnemonic::BCS
            | Mnemonic::BEQ
            | Mnemonic::BMI
            | Mnemonic::BNE
            | Mnemonic::BPL
            | Mnemonic::BVC
            | Mnemonic::BVS => self.perform_branch(op),
            Mnemonic::JMP
            | Mnemonic::JSR
            | Mnemonic::RTS
            | Mnemonic::RTI
            | Mnemonic::BRK => self.perform_transfer_control(op),
            Mnemonic::PHA
            | Mnemonic::PHP
            | Mnemonic::PLA
            | Mnemonic::PLP
            | Mnemonic::CLC
            | Mnemonic::CLD
            | Mnemonic::CLI
            | Mnemonic::CLV
            | Mnemonic::SEC
            | Mnemonic::SED
            | Mnemonic::SEI
            | Mnemonic::NOP => self.perform_stack_and_flags(op),
        }
    }

    /// Fetches, decodes and executes one instruction, then ticks the bus
    /// once with what the instruction cost.
    pub fn execute(&mut self) -> (outcome: StepOutcome)
        requires
            old(self).wf(),
        ensures
            final(self)@ == old(self)@.execute().0,
            outcome == old(self)@.execute().1,
            final(self).wf(),
    {
        reveal(CpuState::sound);
        let start: u16 = self.program_counter;
        if let Some(error) = self.bus.fault {
            return StepOutcome::Fault { error, pc: start };
        }
        let code = self.mem_read(start);
        self.program_counter = addr_add(start, 1);
        proof {
            lemma_table_rows(code);
        }
        match decode(code) {
            None => StepOutcome::Fault { error: NesError::IllegalOpcode, pc: start },
            Some(op) => {
                if op.mnemonic == Mnemonic::BRK {
                    return StepOutcome::Break;
                }
                self.perform(&op);
                let cycles: u8 = op.cycles + self.added_cycles_of_br + self.added_cycles_of_addr;
                if !(op.mnemonic.jumps() || self.added_cycles_of_br > 0) {
                    self.program_counter = addr_add(self.program_counter, op.op_length - 1);
                }
                let frame = self.bus.tick(cycles);
                self.added_cycles_of_addr = 0;
                self.added_cycles_of_br = 0;
                match self.bus.fault {
                    Some(error) => StepOutcome::Fault { error, pc: start },
                    None => StepOutcome::Continue { frame },
                }
            },
        }
    }

    /// Samples the NMI line and services a pending NMI. The answer tells
    /// whether the cycles of the service completed a frame.
    pub fn prepare(&mut self) -> (frame: bool)
        requires
            old(self).wf(),
        ensures
            final(self)@ == old(self)@.prepared(),
            frame == old(self)@.prepared_frame(),
            final(self).wf(),
    {
        reveal(CpuState::sound);
        if self.bus.fault.is_some() {
            return false;
        }
        if self.bus.poll_nmi_status() {
            self.interrupt_nmi()
        } else {
            false
        }
    }

    /// One pass through the loop: services a pending NMI, then executes
    /// one instruction.
    pub fn step(&mut self) -> (outcome: StepOutcome)
        requires
            old(self).wf(),
        ensures
            final(self)@ == old(self)@.step().0,
            outcome == old(self)@.step().1,
            final(self).wf(),
    {
        let earlier = self.prepare();
        let outcome = self.execute();
        match outcome {
            StepOutcome::Continue { frame } => StepOutcome::Continue { frame: frame || earlier },
            other => other,
        }
    }

    /// Runs up to `budget` passes through the loop and stops early on `BRK`
    /// or on a fault. The answer is `Continue` exactly when the budget ran
    /// out first.
    pub fn run_for(&mut self, budget: u64) -> (outcome: StepOutcome)
        requires
            old(self).wf(),
        ensures
            final(self)@ == old(self)@.run(budget as nat).0,
            outcome == old(self)@.run(budget as nat).1,
            final(self).wf(),
    {
        let mut left: u64 = budget;
        while left > 0
            invariant
                self.wf(),
                self@.run(left as nat) == old(self)@.run(budget as nat),
            decreases left,
        {
            let outcome = self.step();
            match outcome {
                StepOutcome::Continue { .. } => {
                    left = left - 1;
                },
                other => {
                    return other;
                },
            }
        }
        StepOutcome::Continue { frame: false }
    }

    /// Runs like `run_for` and logs the trace line of every instruction
    /// before it is fetched.
    pub fn run_with_trace(&mut self, budget: u64) -> (r: (Vec<String>, StepOutcome))
        requires
            old(self).wf(),
        ensures
            final(self)@ == old(self)@.run(budget as nat).0,
            r.1 == old(self)@.run(budget as nat).1,
            r.0@.len() == old(self)@.run_log(budget as nat).len(),
            forall|i: int|
                0 <= i < r.0@.len() ==> (#[trigger] r.0@[i])@ == old(self)@.run_log(
                    budget as nat,
                )[i],
            final(self).wf(),
    {
        let mut log: Vec<String> = Vec::new();
        let mut left: u64 = budget;
        let ghost start = self@;
        let ghost mut lines: Seq<Seq<char>> = Seq::empty();
        assert(lines + start.run_log(budget as nat) == start.run_log(budget as nat));
        while left > 0
            invariant
                self.wf(),
                start == old(self)@,
                self@.run(left as nat) == start.run(budget as nat),
                lines + self@.run_log(left as nat) == start.run_log(budget as nat),
                log@.len() == lines.len(),
                forall|i: int| 0 <= i < log@.len() ==> (#[trigger] log@[i])@ == lines[i],
            decreases left,
        {
            let ghost before = self@;
            let earlier = self.prepare();
            let line = self.trace();
            proof {
                let tail = if before.step().1 is Continue {
                    before.step().0.run_log((left - 1) as nat)
                } else {
                    Seq::empty()
                };
                assert(before.run_log(left as nat) == seq![line@] + tail);
                assert(lines + (seq![line@] + tail) == lines.push(line@) + tail);
                lines = lines.push(line@);
            }
            log.push(line);
            let outcome = self.execute();
            match outcome {
                StepOutcome::Continue { .. } => {
                    left = left - 1;
                },
                other => {
                    proof {
                        assert(lines + Seq::<Seq<char>>::empty() == lines);
                    }
                    return (log, other);
                },
            }
        }
        proof {
            assert(lines + Seq::<Seq<char>>::empty() == lines);
        }
        (log, StepOutcome::Continue { frame: false })
    }

    /// Runs until `BRK` or a fault stops the machine.
    pub fn run(&mut self) -> (outcome: StepOutcome)
        requires
            old(self).wf(),
        ensures
            final(self)@ == old(self)@.run(u64::MAX as nat).0,
            outcome == old(self)@.run(u64::MAX as nat).1,
            final(self).wf(),
    {
        self.run_for(u64::MAX)
    }

    /// Resets the processor and runs the program the reset vector points at.
    pub fn load_and_run(&mut self) -> (outcome: StepOutcome)
        requires
            old(self).bus.wf(),
        ensures
            final(self)@ == old(self)@.reset_state().run(u64::MAX as nat).0,
            outcome == old(self)@.reset_state().run(u64::MAX as nat).1,
            final(self).wf(),
    {
        self.reset();
        self.run()
    }
}

} // verus!
