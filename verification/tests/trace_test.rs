use nes_core::bus::Bus;
use nes_core::bus::Mem;
use nes_core::cartridge::prepare_rom;
use nes_core::cpu::model::StepOutcome;
use nes_core::cpu::trace::format_hex16;
use nes_core::cpu::trace::format_hex8;
use nes_core::cpu::CPU;

fn cpu_with_ram(bytes: &[(u16, u8)]) -> CPU {
    let mut bus = Bus::new(prepare_rom(vec![]));
    for (addr, byte) in bytes {
        bus.mem_write(*addr, *byte);
    }
    let mut cpu = CPU::new(bus);
    cpu.reset();
    cpu.program_counter = 0x64;
    cpu
}

#[test]
fn test_format_trace() {
    let mut bus = Bus::new(prepare_rom([].to_vec()));
    bus.mem_write(100, 0xa2);
    bus.mem_write(101, 0x01);
    bus.mem_write(102, 0xca);
    bus.mem_write(103, 0x88);
    bus.mem_write(104, 0x00);

    let mut cpu = CPU::new(bus);
    cpu.reset();
    cpu.program_counter = 0x64;
    cpu.register_a = 1;
    cpu.register_x = 2;
    cpu.register_y = 3;
    let (result, outcome) = cpu.run_with_trace(u64::MAX);
    assert_eq!(outcome, StepOutcome::Break);
    assert_eq!(
        "0064  A2 01     LDX #$01                        A:01 X:02 Y:03 P:24 SP:FD",
        result[0]
    );
    assert_eq!(
        "0066  CA        DEX                             A:01 X:01 Y:03 P:24 SP:FD",
        result[1]
    );
    assert_eq!(
        "0067  88        DEY                             A:01 X:00 Y:03 P:26 SP:FD",
        result[2]
    );
}

#[test]
fn test_format_mem_access() {
    let mut bus = Bus::new(prepare_rom([].to_vec()));
    // ORA ($33), Y
    bus.mem_write(100, 0x11);
    bus.mem_write(101, 0x33);

    //data
    bus.mem_write(0x33, 00);
    bus.mem_write(0x34, 04);

    //target cell
    bus.mem_write(0x400, 0xAA);

    let mut cpu = CPU::new(bus);
    cpu.reset();
    cpu.program_counter = 0x64;
    cpu.register_y = 0;
    let (result, _) = cpu.run_with_trace(u64::MAX);
    assert_eq!(
        "0064  11 33     ORA ($33),Y = 0400 @ 0400 = AA  A:00 X:00 Y:00 P:24 SP:FD",
        result[0]
    );
}

#[test]
fn trace_logs_the_stopping_instruction_too() {
    let mut cpu = cpu_with_ram(&[(0x64, 0xe8), (0x65, 0x00)]);
    let (log, outcome) = cpu.run_with_trace(10);
    assert_eq!(outcome, StepOutcome::Break);
    assert_eq!(log.len(), 2);
    assert_eq!(
        log[1],
        "0065  00        BRK                             A:00 X:01 Y:00 P:24 SP:FD"
    );
}

#[test]
fn trace_stops_when_the_budget_runs_out() {
    let mut cpu = cpu_with_ram(&[(0x64, 0xe8), (0x65, 0xe8), (0x66, 0xe8)]);
    let (log, outcome) = cpu.run_with_trace(2);
    assert_eq!(outcome, StepOutcome::Continue { frame: false });
    assert_eq!(log.len(), 2);
    assert_eq!(cpu.register_x, 2);
}

#[test]
fn trace_has_no_side_effects() {
    // LDA $2002: reading the status port for real would clear vertical blank.
    let mut cpu = cpu_with_ram(&[(0x64, 0xad), (0x65, 0x02), (0x66, 0x20)]);
    cpu.bus.ppu.status.bits = 0x80;
    cpu.bus.ppu.addr.hi_ptr = false;
    let cycles = cpu.bus.cycles;
    let line = cpu.trace();
    assert_eq!(
        line,
        "0064  AD 02 20  LDA $2002 = 80                  A:00 X:00 Y:00 P:24 SP:FD"
    );
    assert_eq!(cpu.bus.ppu.status.bits, 0x80);
    assert!(!cpu.bus.ppu.addr.hi_ptr);
    assert_eq!(cpu.bus.cycles, cycles);
    assert_eq!(cpu.program_counter, 0x64);
    assert_eq!(cpu.trace(), line);
}

#[test]
fn trace_zero_page() {
    let cpu = cpu_with_ram(&[(0x64, 0xa5), (0x65, 0x10), (0x10, 0x7f)]);
    assert_eq!(
        cpu.trace(),
        "0064  A5 10     LDA $10 = 7F                    A:00 X:00 Y:00 P:24 SP:FD"
    );
}

#[test]
fn trace_zero_page_indexed() {
    let mut cpu = cpu_with_ram(&[(0x64, 0xb5), (0x65, 0xff), (0x01, 0x42)]);
    cpu.register_x = 2;
    assert_eq!(
        cpu.trace(),
        "0064  B5 FF     LDA $FF,X @ 01 = 42             A:00 X:02 Y:00 P:24 SP:FD"
    );
    let mut cpu = cpu_with_ram(&[(0x64, 0xb6), (0x65, 0x20), (0x23, 0x99)]);
    cpu.register_y = 3;
    assert_eq!(
        cpu.trace(),
        "0064  B6 20     LDX $20,Y @ 23 = 99             A:00 X:00 Y:03 P:24 SP:FD"
    );
}

#[test]
fn trace_absolute() {
    let cpu = cpu_with_ram(&[(0x64, 0xad), (0x65, 0x34), (0x66, 0x02), (0x0234, 0x5a)]);
    assert_eq!(
        cpu.trace(),
        "0064  AD 34 02  LDA $0234 = 5A                  A:00 X:00 Y:00 P:24 SP:FD"
    );
    let cpu = cpu_with_ram(&[(0x64, 0x4c), (0x65, 0xf5), (0x66, 0xc5)]);
    assert_eq!(
        cpu.trace(),
        "0064  4C F5 C5  JMP $C5F5                       A:00 X:00 Y:00 P:24 SP:FD"
    );
    let cpu = cpu_with_ram(&[(0x64, 0x20), (0x65, 0x2d), (0x66, 0xc7)]);
    assert_eq!(
        cpu.trace(),
        "0064  20 2D C7  JSR $C72D                       A:00 X:00 Y:00 P:24 SP:FD"
    );
}

#[test]
fn trace_absolute_indexed() {
    let mut cpu = cpu_with_ram(&[(0x64, 0xbd), (0x65, 0xff), (0x66, 0x02), (0x0300, 0x11)]);
    cpu.register_x = 1;
    assert_eq!(
        cpu.trace(),
        "0064  BD FF 02  LDA $02FF,X @ 0300 = 11         A:00 X:01 Y:00 P:24 SP:FD"
    );
    let mut cpu = cpu_with_ram(&[(0x64, 0xb9), (0x65, 0x00), (0x66, 0x03), (0x0304, 0x22)]);
    cpu.register_y = 4;
    assert_eq!(
        cpu.trace(),
        "0064  B9 00 03  LDA $0300,Y @ 0304 = 22         A:00 X:00 Y:04 P:24 SP:FD"
    );
}

#[test]
fn trace_indirect() {
    let cpu = cpu_with_ram(&[
        (0x64, 0x6c),
        (0x65, 0xff),
        (0x66, 0x02),
        (0x02ff, 0x34),
        (0x0200, 0x12),
        (0x0300, 0x56),
    ]);
    assert_eq!(
        cpu.trace(),
        "0064  6C FF 02  JMP ($02FF) = 1234              A:00 X:00 Y:00 P:24 SP:FD"
    );
}

#[test]
fn trace_indexed_indirect() {
    let mut cpu = cpu_with_ram(&[
        (0x64, 0xa1),
        (0x65, 0x80),
        (0x84, 0x00),
        (0x85, 0x02),
        (0x0200, 0x5a),
    ]);
    cpu.register_x = 4;
    assert_eq!(
        cpu.trace(),
        "0064  A1 80     LDA ($80,X) @ 84 = 0200 = 5A    A:00 X:04 Y:00 P:24 SP:FD"
    );
}

#[test]
fn trace_indirect_indexed() {
    let mut cpu = cpu_with_ram(&[
        (0x64, 0xb1),
        (0x65, 0x89),
        (0x89, 0xff),
        (0x8a, 0x02),
        (0x0301, 0x77),
    ]);
    cpu.register_y = 2;
    assert_eq!(
        cpu.trace(),
        "0064  B1 89     LDA ($89),Y = 02FF @ 0301 = 77  A:00 X:00 Y:02 P:24 SP:FD"
    );
}

#[test]
fn trace_relative_and_accumulator() {
    let cpu = cpu_with_ram(&[(0x64, 0xd0), (0x65, 0xfc)]);
    assert_eq!(
        cpu.trace(),
        "0064  D0 FC     BNE $0062                       A:00 X:00 Y:00 P:24 SP:FD"
    );
    let cpu = cpu_with_ram(&[(0x64, 0x4a)]);
    assert_eq!(
        cpu.trace(),
        "0064  4A        LSR A                           A:00 X:00 Y:00 P:24 SP:FD"
    );
}

#[test]
fn trace_of_a_byte_that_is_no_opcode() {
    let cpu = cpu_with_ram(&[(0x64, 0x02)]);
    assert_eq!(
        cpu.trace(),
        "0064  02        ???                             A:00 X:00 Y:00 P:24 SP:FD"
    );
}

#[test]
fn every_trace_line_is_73_columns_wide() {
    for code in 0..=255u8 {
        let mut cpu = cpu_with_ram(&[(0x64, code), (0x65, 0x12), (0x66, 0x03)]);
        cpu.register_x = 0xfe;
        cpu.register_y = 0x81;
        assert_eq!(cpu.trace().len(), 73, "opcode {:02X}", code);
    }
}

#[test]
fn hex_formatting() {
    assert_eq!(format_hex8(0x00), "00");
    assert_eq!(format_hex8(0x0a), "0A");
    assert_eq!(format_hex8(0xf9), "F9");
    assert_eq!(format_hex16(0x0000), "0000");
    assert_eq!(format_hex16(0xc5f5), "C5F5");
    assert_eq!(format_hex16(0x00ff), "00FF");
}

#[test]
fn trace_of_a_conformance_program_opening() {
    // The opening of the well-known CPU conformance cartridge, run from
    // $C000 on a single mirrored bank.
    let mut prg = vec![0u8; 0x4000];
    prg[0x0000..0x0003].copy_from_slice(&[0x4c, 0xf5, 0xc5]);
    prg[0x05f5..0x0600].copy_from_slice(&[
        0xa2, 0x00, 0x86, 0x00, 0x86, 0x10, 0x86, 0x11, 0x20, 0x2d, 0xc7,
    ]);
    prg[0x072d..0x0736].copy_from_slice(&[0xea, 0x38, 0xb0, 0x04, 0x00, 0x00, 0x00, 0x00, 0xea]);
    let rom = nes_core::cartridge::Rom {
        prg_rom: prg,
        chr_rom: vec![0; 0x2000],
        mapper: 0,
        screen_mirroring: nes_core::cartridge::Mirroring::HORIZONTAL,
    };
    let mut cpu = CPU::new(Bus::new(rom));
    cpu.reset();
    cpu.program_counter = 0xc000;
    let (log, outcome) = cpu.run_with_trace(100);
    assert_eq!(outcome, StepOutcome::Break);
    let expected = [
        "C000  4C F5 C5  JMP $C5F5                       A:00 X:00 Y:00 P:24 SP:FD",
        "C5F5  A2 00     LDX #$00                        A:00 X:00 Y:00 P:24 SP:FD",
        "C5F7  86 00     STX $00 = 00                    A:00 X:00 Y:00 P:26 SP:FD",
        "C5F9  86 10     STX $10 = 00                    A:00 X:00 Y:00 P:26 SP:FD",
        "C5FB  86 11     STX $11 = 00                    A:00 X:00 Y:00 P:26 SP:FD",
        "C5FD  20 2D C7  JSR $C72D                       A:00 X:00 Y:00 P:26 SP:FD",
        "C72D  EA        NOP                             A:00 X:00 Y:00 P:26 SP:FB",
        "C72E  38        SEC                             A:00 X:00 Y:00 P:26 SP:FB",
        "C72F  B0 04     BCS $C735                       A:00 X:00 Y:00 P:27 SP:FB",
        "C735  EA        NOP                             A:00 X:00 Y:00 P:27 SP:FB",
    ];
    assert_eq!(log[..expected.len()], expected);
    // JMP 3, LDX 2, three STX 3, JSR 6, NOP 2, SEC 2, BCS taken 3, NOP 2.
    assert_eq!(cpu.bus.cycles, 7 + 3 + 2 + 9 + 6 + 2 + 2 + 3 + 2);
}

#[test]
fn trace_columns_keep_their_places() {
    let cpu = cpu_with_ram(&[(0x64, 0xb1), (0x65, 0x89)]);
    let line = cpu.trace();
    assert_eq!(&line[0..4], "0064");
    assert_eq!(&line[6..16], "B1 89     ");
    assert_eq!(&line[16..19], "LDA");
    assert_eq!(&line[48..], "A:00 X:00 Y:00 P:24 SP:FD");
}
