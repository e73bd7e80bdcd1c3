use nes_core::bus::Bus;
use nes_core::bus::Mem;
use nes_core::cartridge::prepare_rom;
use nes_core::cpu::flags::StatusFlag;
use nes_core::cpu::model::StepOutcome;
use nes_core::cpu::opcodes::decode;
use nes_core::cpu::opcodes::AddressingMode;
use nes_core::cpu::opcodes::Mnemonic;
use nes_core::cpu::opcodes::OpCode;
use nes_core::cpu::CPU;
use nes_core::error::NesError;

fn cpu_for(program: Vec<u8>) -> CPU {
    let mut cpu = CPU::new(Bus::new(prepare_rom(program)));
    cpu.reset();
    cpu
}

fn run(program: Vec<u8>) -> CPU {
    let mut cpu = cpu_for(program);
    assert_eq!(cpu.run(), StepOutcome::Break);
    cpu
}

fn flag(cpu: &CPU, flag: StatusFlag) -> bool {
    flag.among(cpu.status)
}

#[test]
fn reset_state() {
    let mut cpu = CPU::new(Bus::new(prepare_rom(vec![0xea])));
    cpu.register_a = 1;
    cpu.register_x = 2;
    cpu.register_y = 3;
    cpu.status = 0xff;
    cpu.stack_counter = 0x10;
    cpu.reset();
    assert_eq!(cpu.register_a, 0);
    assert_eq!(cpu.register_x, 0);
    assert_eq!(cpu.register_y, 0);
    assert_eq!(cpu.stack_counter, 0xfd);
    assert_eq!(cpu.status, 0x24);
    assert_eq!(cpu.program_counter, 0x8000);
}

#[test]
fn reset_reads_the_vector_at_fffc() {
    let mut rom = prepare_rom(vec![]);
    rom.prg_rom[0x7ffc] = 0x34;
    rom.prg_rom[0x7ffd] = 0x92;
    let mut cpu = CPU::new(Bus::new(rom));
    cpu.reset();
    assert_eq!(cpu.program_counter, 0x9234);
}

#[test]
fn inx_wraps_past_ff() {
    let cpu = run(vec![0xa2, 0xff, 0xe8, 0xe8, 0x00]);
    assert_eq!(cpu.register_x, 1);
    assert!(!cpu.zero());
    assert!(!cpu.negative());
}

#[test]
fn chained_register_use_sets_negative() {
    let cpu = run(vec![0xa9, 0xc0, 0xaa, 0xe8, 0x00]);
    assert_eq!(cpu.register_x, 0xc1);
    assert!(cpu.negative());
}

#[test]
fn adc_adds_the_carry_in() {
    // SEC; ADC #$01
    let cpu = run(vec![0x38, 0x69, 0x01, 0x00]);
    assert_eq!(cpu.register_a, 2);
    assert!(!flag(&cpu, StatusFlag::Carry));
    // LDA #$FF; SEC; ADC #$00
    let cpu = run(vec![0xa9, 0xff, 0x38, 0x69, 0x00, 0x00]);
    assert_eq!(cpu.register_a, 0);
    assert!(flag(&cpu, StatusFlag::Carry));
    assert!(cpu.zero());
    assert!(!cpu.overflow());
}

#[test]
fn adc_overflow_is_signed_overflow() {
    // 0x50 + 0x50 = 0xA0: two positives give a negative.
    let cpu = run(vec![0xa9, 0x50, 0x69, 0x50, 0x00]);
    assert_eq!(cpu.register_a, 0xa0);
    assert!(cpu.overflow());
    assert!(!flag(&cpu, StatusFlag::Carry));
    // 0xD0 + 0x90 = 0x160: two negatives give a positive.
    let cpu = run(vec![0xa9, 0xd0, 0x69, 0x90, 0x00]);
    assert_eq!(cpu.register_a, 0x60);
    assert!(cpu.overflow());
    assert!(flag(&cpu, StatusFlag::Carry));
    // 0x50 + 0xD0 = 0x120: mixed signs never overflow.
    let cpu = run(vec![0xa9, 0x50, 0x69, 0xd0, 0x00]);
    assert_eq!(cpu.register_a, 0x20);
    assert!(!cpu.overflow());
    assert!(flag(&cpu, StatusFlag::Carry));
}

#[test]
fn sbc_borrows_when_carry_is_clear() {
    // LDA #$05; SBC #$01 with carry clear: 5 - 1 - 1.
    let cpu = run(vec![0xa9, 0x05, 0xe9, 0x01, 0x00]);
    assert_eq!(cpu.register_a, 3);
    assert!(flag(&cpu, StatusFlag::Carry));
    // LDA #$05; SEC; SBC #$01: 5 - 1.
    let cpu = run(vec![0xa9, 0x05, 0x38, 0xe9, 0x01, 0x00]);
    assert_eq!(cpu.register_a, 4);
    assert!(flag(&cpu, StatusFlag::Carry));
    // LDA #$50; SEC; SBC #$B0 = 0xA0 with overflow and borrow.
    let cpu = run(vec![0xa9, 0x50, 0x38, 0xe9, 0xb0, 0x00]);
    assert_eq!(cpu.register_a, 0xa0);
    assert!(cpu.overflow());
    assert!(!flag(&cpu, StatusFlag::Carry));
    // SEC; SBC #$00 leaves the accumulator and sets carry.
    let cpu = run(vec![0xa9, 0x42, 0x38, 0xe9, 0x00, 0x00]);
    assert_eq!(cpu.register_a, 0x42);
    assert!(flag(&cpu, StatusFlag::Carry));
}

#[test]
fn adc_then_sbc_restores_the_accumulator_when_the_addition_carried() {
    for a in [0x00u8, 0x01, 0x7f, 0x80, 0xc0, 0xff] {
        for m in [0x00u8, 0x01, 0x40, 0x80, 0xff] {
            // LDA #a; CLC; ADC #m; SBC #m
            let cpu = run(vec![0xa9, a, 0x18, 0x69, m, 0xe9, m, 0x00]);
            let carried = a as u16 + m as u16 > 0xff;
            let expected = if carried { a } else { a.wrapping_sub(1) };
            assert_eq!(cpu.register_a, expected, "a={:02X} m={:02X}", a, m);
        }
    }
}

#[test]
fn cmp_negative_is_bit_7_of_the_difference() {
    // 0x01 - 0x02 = 0xFF
    let cpu = run(vec![0xa9, 0x01, 0xc9, 0x02, 0x00]);
    assert!(cpu.negative());
    assert!(!flag(&cpu, StatusFlag::Carry));
    // 0x80 - 0x01 = 0x7F: the signs differ, the difference is positive.
    let cpu = run(vec![0xa9, 0x80, 0xc9, 0x01, 0x00]);
    assert!(!cpu.negative());
    assert!(flag(&cpu, StatusFlag::Carry));
    // 0x90 - 0x80 = 0x10 and 0x90 - 0x10 = 0x80.
    let cpu = run(vec![0xa2, 0x90, 0xe0, 0x80, 0x00]);
    assert!(!cpu.negative());
    let cpu = run(vec![0xa0, 0x90, 0xc0, 0x10, 0x00]);
    assert!(cpu.negative());
    assert_eq!(cpu.register_y, 0x90);
}

#[test]
fn bit_copies_bits_7_and_6() {
    // LDA #$40; STA $10; LDA #$FF; BIT $10
    let cpu = run(vec![0xa9, 0x40, 0x85, 0x10, 0xa9, 0xff, 0x24, 0x10, 0x00]);
    assert!(!cpu.negative());
    assert!(cpu.overflow());
    assert!(!cpu.zero());
    assert_eq!(cpu.register_a, 0xff);
    // LDA #$80; STA $10; LDA #$01; BIT $10
    let cpu = run(vec![0xa9, 0x80, 0x85, 0x10, 0xa9, 0x01, 0x24, 0x10, 0x00]);
    assert!(cpu.negative());
    assert!(!cpu.overflow());
    assert!(cpu.zero());
}

#[test]
fn shifts_work_on_memory() {
    // LDA #$81; STA $10; ASL $10; LDX $10
    let cpu = run(vec![0xa9, 0x81, 0x85, 0x10, 0x06, 0x10, 0xa6, 0x10, 0x00]);
    assert_eq!(cpu.register_x, 0x02);
    assert!(flag(&cpu, StatusFlag::Carry));
    assert_eq!(cpu.register_a, 0x81);
    // LDA #$81; STA $10; SEC; ROR $10; LDX $10
    let cpu = run(vec![0xa9, 0x81, 0x85, 0x10, 0x38, 0x66, 0x10, 0xa6, 0x10, 0x00]);
    assert_eq!(cpu.register_x, 0xc0);
    assert!(flag(&cpu, StatusFlag::Carry));
    // LDA #$81; STA $10; SEC; ROL $10; LDX $10
    let cpu = run(vec![0xa9, 0x81, 0x85, 0x10, 0x38, 0x26, 0x10, 0xa6, 0x10, 0x00]);
    assert_eq!(cpu.register_x, 0x03);
    // LDA #$81; STA $10; LSR $10; LDX $10
    let cpu = run(vec![0xa9, 0x81, 0x85, 0x10, 0x46, 0x10, 0xa6, 0x10, 0x00]);
    assert_eq!(cpu.register_x, 0x40);
}

#[test]
fn zero_page_indexing_wraps() {
    // LDA #$77; STA $00; LDX #$01; LDA #$00; LDA $FF,X
    let cpu = run(vec![0xa9, 0x77, 0x85, 0x00, 0xa2, 0x01, 0xa9, 0x00, 0xb5, 0xff, 0x00]);
    assert_eq!(cpu.register_a, 0x77);
    // LDA #$55; STA $05; LDY #$06; LDX $FF,Y
    let cpu = run(vec![0xa9, 0x55, 0x85, 0x05, 0xa0, 0x06, 0xb6, 0xff, 0x00]);
    assert_eq!(cpu.register_x, 0x55);
}

#[test]
fn operand_addresses() {
    let mut cpu = cpu_for(vec![]);
    for (addr, byte) in [
        (0x0010u16, 0x80u8),
        (0x0011, 0x02),
        (0x0084, 0x34),
        (0x0085, 0x12),
        (0x00ff, 0xcd),
        (0x0000, 0xab),
    ] {
        cpu.mem_write(addr, byte);
    }
    cpu.program_counter = 0x0010;
    cpu.register_x = 0x04;
    cpu.register_y = 0x90;
    assert_eq!(cpu.get_operand_address(&AddressingMode::Immediate), 0x0010);
    assert_eq!(cpu.get_operand_address(&AddressingMode::Relative), 0x0010);
    assert_eq!(cpu.get_operand_address(&AddressingMode::NoneAddressing), 0x0010);
    assert_eq!(cpu.get_operand_address(&AddressingMode::ZeroPage), 0x0080);
    assert_eq!(cpu.get_operand_address(&AddressingMode::ZeroPage_X), 0x0084);
    assert_eq!(cpu.get_operand_address(&AddressingMode::ZeroPage_Y), 0x0010);
    assert_eq!(cpu.get_operand_address(&AddressingMode::Absolute), 0x0280);
    assert_eq!(cpu.get_operand_address(&AddressingMode::Indirect), 0x0280);
    assert_eq!(cpu.added_cycles_of_addr, 0);
    assert_eq!(cpu.get_operand_address(&AddressingMode::Absolute_X), 0x0284);
    assert_eq!(cpu.added_cycles_of_addr, 0);
    assert_eq!(cpu.get_operand_address(&AddressingMode::Absolute_Y), 0x0310);
    assert_eq!(cpu.added_cycles_of_addr, 1);
    cpu.added_cycles_of_addr = 0;
    assert_eq!(cpu.get_operand_address(&AddressingMode::Indirect_X), 0x1234);
    assert_eq!(cpu.added_cycles_of_addr, 0);
    // The pointer's second byte wraps inside page zero.
    cpu.program_counter = 0x0011;
    cpu.mem_write(0x0011, 0xff);
    cpu.register_y = 0x01;
    assert_eq!(cpu.get_operand_address(&AddressingMode::Indirect_Y), 0xabce);
    assert_eq!(cpu.added_cycles_of_addr, 0);
    cpu.register_y = 0x40;
    assert_eq!(cpu.get_operand_address(&AddressingMode::Indirect_Y), 0xac0d);
    assert_eq!(cpu.added_cycles_of_addr, 1);
    cpu.register_x = 0;
    assert_eq!(cpu.get_operand_address(&AddressingMode::Indirect_X), 0xabcd);
    assert_eq!(cpu.program_counter, 0x0011);
}

#[test]
fn jmp_indirect_does_not_cross_the_page() {
    let mut cpu = cpu_for(vec![0x6c, 0xff, 0x02]);
    cpu.mem_write(0x02ff, 0x00);
    cpu.mem_write(0x0200, 0x03);
    cpu.mem_write(0x0300, 0x04);
    assert_eq!(cpu.step(), StepOutcome::Continue { frame: false });
    assert_eq!(cpu.program_counter, 0x0300);
    // Away from the end of a page the two bytes are neighbours.
    let mut cpu = cpu_for(vec![0x6c, 0x10, 0x02]);
    cpu.mem_write(0x0210, 0x78);
    cpu.mem_write(0x0211, 0x56);
    cpu.step();
    assert_eq!(cpu.program_counter, 0x5678);
}

#[test]
fn branch_cycles() {
    // BNE not taken: LDA #$00 sets zero.
    let mut cpu = cpu_for(vec![0xa9, 0x00, 0xd0, 0x10]);
    cpu.step();
    let before = cpu.bus.cycles;
    cpu.step();
    assert_eq!(cpu.bus.cycles - before, 2);
    assert_eq!(cpu.program_counter, 0x8004);
    // BNE taken inside the page.
    let mut cpu = cpu_for(vec![0xa9, 0x01, 0xd0, 0x10]);
    cpu.step();
    let before = cpu.bus.cycles;
    cpu.step();
    assert_eq!(cpu.bus.cycles - before, 3);
    assert_eq!(cpu.program_counter, 0x8014);
    // BNE taken backwards across a page.
    let mut cpu = cpu_for(vec![0xa9, 0x01, 0xd0, 0xf0]);
    cpu.step();
    let before = cpu.bus.cycles;
    cpu.step();
    assert_eq!(cpu.bus.cycles - before, 4);
    assert_eq!(cpu.program_counter, 0x7ff4);
    assert_eq!(cpu.added_cycles_of_addr, 0);
    assert_eq!(cpu.added_cycles_of_br, 0);
}

#[test]
fn a_branch_to_its_own_operand_is_still_a_branch() {
    // BPL -1 lands on the displacement byte, which decodes as an opcode.
    let mut cpu = cpu_for(vec![0x10, 0xff]);
    cpu.step();
    assert_eq!(cpu.program_counter, 0x8001);
}

#[test]
fn page_cross_costs_a_cycle() {
    // LDX #$01; LDA $02FF,X
    let mut cpu = cpu_for(vec![0xa2, 0x01, 0xbd, 0xff, 0x02]);
    cpu.step();
    let before = cpu.bus.cycles;
    cpu.step();
    assert_eq!(cpu.bus.cycles - before, 5);
    // LDX #$01; LDA $0200,X
    let mut cpu = cpu_for(vec![0xa2, 0x01, 0xbd, 0x00, 0x02]);
    cpu.step();
    let before = cpu.bus.cycles;
    cpu.step();
    assert_eq!(cpu.bus.cycles - before, 4);
}

#[test]
fn every_instruction_ticks_the_bus_once() {
    let mut cpu = cpu_for(vec![0xa9, 0x05, 0x85, 0x10, 0xe6, 0x10, 0x48, 0x68, 0xea, 0x00]);
    let costs = [2usize, 3, 5, 3, 4, 2];
    for cost in costs {
        let cycles = cpu.bus.cycles;
        let dots = cpu.bus.ppu.scanline * 341 + cpu.bus.ppu.cycles;
        assert_eq!(cpu.step(), StepOutcome::Continue { frame: false });
        assert_eq!(cpu.bus.cycles - cycles, cost);
        assert_eq!(cpu.bus.ppu.scanline * 341 + cpu.bus.ppu.cycles - dots, 3 * cost);
    }
    let cycles = cpu.bus.cycles;
    assert_eq!(cpu.step(), StepOutcome::Break);
    assert_eq!(cpu.bus.cycles, cycles);
}

#[test]
fn pha_then_pla_is_the_identity() {
    for value in [0x00u8, 0x01, 0x7f, 0x80, 0xff] {
        // LDA #value; PHA; LDA #$55; PLA
        let cpu = run(vec![0xa9, value, 0x48, 0xa9, 0x55, 0x68, 0x00]);
        assert_eq!(cpu.register_a, value);
        assert_eq!(cpu.stack_counter, 0xfd);
        assert_eq!(cpu.zero(), value == 0);
        assert_eq!(cpu.negative(), value >= 0x80);
    }
}

#[test]
fn the_stack_lives_in_page_one_and_grows_down() {
    let mut cpu = run(vec![0xa9, 0x42, 0x48, 0x00]);
    assert_eq!(cpu.stack_counter, 0xfc);
    assert_eq!(cpu.mem_read(0x01fd), 0x42);
}

#[test]
fn the_stack_pointer_wraps() {
    // LDX #$00; TXS; PHA; PHA
    let cpu = run(vec![0xa2, 0x00, 0x9a, 0x48, 0x48, 0x00]);
    assert_eq!(cpu.stack_counter, 0xfe);
    // LDX #$FF; TXS; PLA; PLA
    let cpu = run(vec![0xa2, 0xff, 0x9a, 0x68, 0x68, 0x00]);
    assert_eq!(cpu.stack_counter, 0x01);
}

#[test]
fn php_pushes_break_and_plp_clears_it() {
    // PHP; PLA
    let cpu = run(vec![0x08, 0x68, 0x00]);
    assert_eq!(cpu.register_a, 0x34);
    assert_eq!(StatusFlag::BreakCommand.and_get(cpu.status), 0);
    // LDA #$FF; PHA; PLP
    let cpu = run(vec![0xa9, 0xff, 0x48, 0x28, 0x00]);
    assert_eq!(cpu.status, 0xef);
    // LDA #$00; PHA; PLP
    let cpu = run(vec![0xa9, 0x00, 0x48, 0x28, 0x00]);
    assert_eq!(cpu.status, 0x20);
}

#[test]
fn jsr_pushes_the_address_of_its_last_byte() {
    // JSR $8004; BRK; BRK
    let mut cpu = cpu_for(vec![0x20, 0x04, 0x80, 0x00, 0x00]);
    cpu.step();
    assert_eq!(cpu.program_counter, 0x8004);
    assert_eq!(cpu.stack_counter, 0xfb);
    assert_eq!(cpu.mem_read(0x01fd), 0x80);
    assert_eq!(cpu.mem_read(0x01fc), 0x02);
}

#[test]
fn rti_pulls_status_then_the_program_counter() {
    // LDA #$80; PHA; LDA #$10; PHA; LDA #$FF; PHA; RTI
    let mut cpu = cpu_for(vec![0xa9, 0x80, 0x48, 0xa9, 0x10, 0x48, 0xa9, 0xff, 0x48, 0x40]);
    for _ in 0..7 {
        assert_eq!(cpu.step(), StepOutcome::Continue { frame: false });
    }
    assert_eq!(cpu.program_counter, 0x8010);
    assert_eq!(cpu.status, 0xef);
    assert_eq!(cpu.stack_counter, 0xfd);
}

#[test]
fn brk_as_the_processor_performs_it() {
    let mut rom = prepare_rom(vec![0x00, 0xea]);
    rom.prg_rom[0x7ffe] = 0x00;
    rom.prg_rom[0x7fff] = 0x90;
    let mut cpu = CPU::new(Bus::new(rom));
    cpu.reset();
    cpu.status = 0x21;
    assert_eq!(cpu.step(), StepOutcome::Break);
    assert_eq!(cpu.program_counter, 0x8001);
    cpu.brk();
    assert_eq!(cpu.program_counter, 0x9000);
    assert_eq!(cpu.status, 0x25);
    assert_eq!(cpu.stack_counter, 0xfa);
    assert_eq!(cpu.mem_read(0x01fd), 0x80);
    assert_eq!(cpu.mem_read(0x01fc), 0x02);
    assert_eq!(cpu.mem_read(0x01fb), 0x31);
}

#[test]
fn run_stops_on_brk_without_executing_it() {
    let mut cpu = cpu_for(vec![0x58, 0x00]);
    let cycles = cpu.bus.cycles;
    assert_eq!(cpu.run(), StepOutcome::Break);
    assert_eq!(cpu.status, 0x20);
    assert_eq!(cpu.stack_counter, 0xfd);
    assert_eq!(cpu.program_counter, 0x8002);
    assert_eq!(cpu.bus.cycles, cycles + 2);
}

#[test]
fn nmi_is_serviced_before_the_next_instruction() {
    let mut rom = prepare_rom(vec![0xe8, 0xe8]);
    rom.prg_rom[0x7ffa] = 0x00;
    rom.prg_rom[0x7ffb] = 0x90;
    rom.prg_rom[0x1000] = 0xc8;
    let mut cpu = CPU::new(Bus::new(rom));
    cpu.reset();
    cpu.status = 0x31;
    cpu.step();
    cpu.bus.ppu.nmi_interrupt = true;
    let cycles = cpu.bus.cycles;
    assert_eq!(cpu.step(), StepOutcome::Continue { frame: false });
    assert!(!cpu.bus.ppu.nmi_interrupt);
    assert_eq!(cpu.register_x, 1);
    assert_eq!(cpu.register_y, 1);
    assert_eq!(cpu.program_counter, 0x9001);
    assert_eq!(cpu.bus.cycles, cycles + 2 + 2);
    assert_eq!(cpu.stack_counter, 0xfa);
    assert_eq!(cpu.mem_read(0x01fd), 0x80);
    assert_eq!(cpu.mem_read(0x01fc), 0x01);
    // The pushed status has break cleared and bit 5 set.
    assert_eq!(cpu.mem_read(0x01fb), 0x21);
    assert_eq!(cpu.status, 0x35);
}

#[test]
fn an_illegal_opcode_halts_the_machine() {
    let mut cpu = cpu_for(vec![0xea, 0x02, 0xea]);
    assert_eq!(
        cpu.run(),
        StepOutcome::Fault { error: NesError::IllegalOpcode, pc: 0x8001 }
    );
    assert_eq!(cpu.program_counter, 0x8002);
    for code in [0x02u8, 0x03, 0x1a, 0x80, 0xa7, 0xeb, 0xff] {
        assert!(decode(code).is_none());
    }
}

#[test]
fn a_store_to_rom_halts_the_machine() {
    // LDA #$01; STA $8000; LDX #$05
    let mut cpu = cpu_for(vec![0xa9, 0x01, 0x8d, 0x00, 0x80, 0xa2, 0x05, 0x00]);
    assert_eq!(cpu.run(), StepOutcome::Fault { error: NesError::WriteToRom, pc: 0x8002 });
    assert_eq!(cpu.register_x, 0);
    assert_eq!(cpu.mem_read(0x8000), 0xa9);
    // Nothing runs while the fault stands.
    assert_eq!(cpu.step(), StepOutcome::Fault { error: NesError::WriteToRom, pc: 0x8005 });
    assert_eq!(cpu.program_counter, 0x8005);
    // Clearing it lets the machine go on.
    cpu.bus.fault = None;
    assert_eq!(cpu.run(), StepOutcome::Break);
    assert_eq!(cpu.register_x, 5);
}

#[test]
fn strict_mode_halts_on_a_read_of_a_write_only_register() {
    // LDA $2000
    let mut cpu = cpu_for(vec![0xad, 0x00, 0x20, 0x00]);
    cpu.bus.strict = true;
    assert_eq!(
        cpu.run(),
        StepOutcome::Fault { error: NesError::InvalidPpuAccess, pc: 0x8000 }
    );
    let mut cpu = cpu_for(vec![0xad, 0x00, 0x20, 0x00]);
    assert_eq!(cpu.run(), StepOutcome::Break);
    assert_eq!(cpu.register_a, 0);
}

#[test]
fn run_for_stops_when_the_budget_runs_out() {
    // JMP $8000
    let mut cpu = cpu_for(vec![0x4c, 0x00, 0x80]);
    let cycles = cpu.bus.cycles;
    assert_eq!(cpu.run_for(1000), StepOutcome::Continue { frame: false });
    assert_eq!(cpu.bus.cycles, cycles + 3000);
    assert_eq!(cpu.run_for(0), StepOutcome::Continue { frame: false });
    assert_eq!(cpu.bus.cycles, cycles + 3000);
}

#[test]
fn step_reports_a_completed_frame() {
    let mut cpu = cpu_for(vec![0x4c, 0x00, 0x80]);
    let mut frames = 0;
    let mut steps = 0;
    while frames < 2 {
        match cpu.step() {
            StepOutcome::Continue { frame } => {
                if frame {
                    frames += 1;
                    assert_eq!(cpu.bus.ppu.scanline, 0);
                }
            }
            other => panic!("{:?}", other),
        }
        steps += 1;
    }
    // 341 * 262 dots a frame, nine dots a jump.
    assert_eq!(steps, (2 * 341 * 262 + 8) / 9);
}

#[test]
fn status_keeps_bit_5_and_never_shows_break() {
    let program = vec![
        0xa9, 0xff, 0x48, 0x28, 0x08, 0x68, 0x69, 0x7f, 0xe9, 0x01, 0x24, 0x00, 0xc9, 0x10, 0x38,
        0xf8, 0x78, 0xb8, 0x18, 0xd8, 0x58, 0x0a, 0x6a, 0xaa, 0xe8, 0x00,
    ];
    let mut cpu = cpu_for(program);
    loop {
        assert_eq!(cpu.status & 0x30, 0x20);
        if cpu.step() != (StepOutcome::Continue { frame: false }) {
            break;
        }
    }
    assert_eq!(cpu.status & 0x30, 0x20);
}

#[test]
fn transfers_copy_and_set_zero_and_negative() {
    // LDX #$80; TXS; LDX #$00; TSX
    let cpu = run(vec![0xa2, 0x80, 0x9a, 0xa2, 0x00, 0xba, 0x00]);
    assert_eq!(cpu.register_x, 0x80);
    assert!(cpu.negative());
    // LDX #$00; LDA #$01; TXS leaves the flags of the load.
    let cpu = run(vec![0xa2, 0x00, 0xa9, 0x01, 0x9a, 0x00]);
    assert_eq!(cpu.stack_counter, 0);
    assert!(!cpu.zero());
}

#[test]
fn flag_instructions() {
    let cpu = run(vec![0x38, 0xf8, 0x00]);
    assert_eq!(cpu.status, 0x2d);
    let cpu = run(vec![0x38, 0xf8, 0x18, 0xd8, 0x58, 0x00]);
    assert_eq!(cpu.status, 0x20);
    // LDA #$7F; ADC #$01 sets overflow; CLV clears it.
    let cpu = run(vec![0xa9, 0x7f, 0x69, 0x01, 0xb8, 0x00]);
    assert!(!cpu.overflow());
    assert!(cpu.negative());
}

#[test]
fn words_are_little_endian() {
    let mut cpu = cpu_for(vec![]);
    cpu.mem_write_u16(0x0010, 0x1234);
    assert_eq!(cpu.mem_read(0x0010), 0x34);
    assert_eq!(cpu.mem_read(0x0011), 0x12);
    assert_eq!(cpu.mem_read_u16(0x0010), 0x1234);
    assert_eq!(cpu.mem_read_u16(0xfffc), 0x8000);
    // The word at $FFFF continues at $0000.
    cpu.mem_write(0x0000, 0x7a);
    assert_eq!(cpu.mem_read_u16(0xffff), 0x7a00);
}

#[test]
fn status_flag_helpers() {
    assert_eq!(StatusFlag::Carry.mask(), 0x01);
    assert_eq!(StatusFlag::Zero.mask(), 0x02);
    assert_eq!(StatusFlag::InterruptDisable.mask(), 0x04);
    assert_eq!(StatusFlag::DecimalMode.mask(), 0x08);
    assert_eq!(StatusFlag::BreakCommand.mask(), 0x10);
    assert_eq!(StatusFlag::Undefined.mask(), 0x20);
    assert_eq!(StatusFlag::Overflow.mask(), 0x40);
    assert_eq!(StatusFlag::Negative.mask(), 0x80);
    assert_eq!(StatusFlag::Zero.reverse(), 0xfd);
    assert!(StatusFlag::Zero.among(0x02));
    assert!(!StatusFlag::Zero.test(0xfd));
    assert_eq!(StatusFlag::Zero.or_get(0x80), 0x82);
    assert_eq!(StatusFlag::Zero.and_get(0xff), 0x02);
    let mut status = 0x24;
    StatusFlag::Carry.add(&mut status);
    assert_eq!(status, 0x25);
    StatusFlag::InterruptDisable.remove(&mut status);
    assert_eq!(status, 0x21);
    StatusFlag::Negative.assign(&mut status, true);
    StatusFlag::Carry.assign(&mut status, false);
    assert_eq!(status, 0xa0);
}

#[test]
fn opcode_table_rows() {
    assert_eq!(
        decode(0xa9),
        Some(OpCode::new(Mnemonic::LDA, 2, 2, AddressingMode::Immediate))
    );
    assert_eq!(
        decode(0x6c),
        Some(OpCode::new(Mnemonic::JMP, 3, 5, AddressingMode::Indirect))
    );
    assert_eq!(
        decode(0xd0),
        Some(OpCode::new(Mnemonic::BNE, 2, 2, AddressingMode::Relative))
    );
    assert_eq!(
        decode(0x00),
        Some(OpCode::new(Mnemonic::BRK, 1, 7, AddressingMode::NoneAddressing))
    );
    assert_eq!(decode(0x1e).map(|op| op.name()), Some("ASL"));
    assert_eq!((0..=255u8).filter(|code| decode(*code).is_some()).count(), 151);
    for code in 0..=255u8 {
        if let Some(op) = decode(code) {
            let operand = match op.mode {
                AddressingMode::NoneAddressing => 0,
                AddressingMode::Absolute
                | AddressingMode::Absolute_X
                | AddressingMode::Absolute_Y
                | AddressingMode::Indirect => 2,
                _ => 1,
            };
            assert_eq!(op.op_length, 1 + operand);
            assert!(op.cycles >= 2 && op.cycles <= 7);
            assert_eq!(op.name().len(), 3);
        }
    }
}
