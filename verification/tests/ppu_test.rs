use nes_core::cartridge::Mirroring;
use nes_core::ppu::AddrRegister;
use nes_core::ppu::ControlRegister;
use nes_core::ppu::NesPPU;
use nes_core::ppu::Status;

fn ppu(mirroring: Mirroring) -> NesPPU {
    let chr: Vec<u8> = (0..0x2000).map(|i| (i % 253) as u8).collect();
    NesPPU::new(chr, mirroring)
}

fn point_at(ppu: &mut NesPPU, addr: u16) {
    ppu.read_status();
    ppu.write_to_ppu_addr((addr >> 8) as u8);
    ppu.write_to_ppu_addr((addr & 0xff) as u8);
}

#[test]
fn ppu_power_on_state() {
    let ppu = ppu(Mirroring::HORIZONTAL);
    assert!(ppu.vram.iter().all(|b| *b == 0));
    assert!(ppu.oam_data.iter().all(|b| *b == 0));
    assert!(ppu.palette_table.iter().all(|b| *b == 0));
    assert_eq!(ppu.ctrl.bits(), 0);
    assert_eq!(ppu.status.bits(), 0);
    assert_eq!(ppu.addr.get(), 0);
    assert!(ppu.addr.hi_ptr);
    assert_eq!(ppu.cycles, 0);
    assert_eq!(ppu.scanline, 0);
    assert!(!ppu.nmi_interrupt);
}

#[test]
fn addr_register_takes_high_then_low() {
    let mut addr = AddrRegister::new();
    addr.update(0x21);
    addr.update(0x05);
    assert_eq!(addr.get(), 0x2105);
    addr.update(0x3f);
    assert_eq!(addr.get(), 0x3f05);
    addr.update(0x10);
    assert_eq!(addr.get(), 0x3f10);
}

#[test]
fn addr_register_keeps_fourteen_bits() {
    let mut addr = AddrRegister::new();
    addr.update(0xff);
    addr.update(0xff);
    assert_eq!(addr.get(), 0x3fff);
    addr.increment(1);
    assert_eq!(addr.get(), 0x0000);
    let mut addr = AddrRegister::new();
    addr.update(0x61);
    addr.update(0x23);
    assert_eq!(addr.get(), 0x2123);
}

#[test]
fn addr_register_increment_carries_into_the_high_byte() {
    let mut addr = AddrRegister::new();
    addr.update(0x20);
    addr.update(0xff);
    addr.increment(1);
    assert_eq!(addr.get(), 0x2100);
    addr.increment(32);
    assert_eq!(addr.get(), 0x2120);
    let mut addr = AddrRegister::new();
    addr.update(0x3f);
    addr.update(0xf0);
    addr.increment(32);
    assert_eq!(addr.get(), 0x0010);
}

#[test]
fn addr_register_reset_latch() {
    let mut addr = AddrRegister::new();
    addr.update(0x21);
    addr.reset_latch();
    addr.update(0x3e);
    addr.update(0x07);
    assert_eq!(addr.get(), 0x3e07);
}

#[test]
fn control_register_fields() {
    let mut ctrl = ControlRegister::new();
    assert_eq!(ctrl.vram_addr_increment(), 1);
    assert_eq!(ctrl.bknd_pattern_addr(), 0);
    ctrl.update(0b0001_0100);
    assert_eq!(ctrl.vram_addr_increment(), 32);
    assert_eq!(ctrl.bknd_pattern_addr(), 0x1000);
    assert!(ctrl.contains(ControlRegister::VRAM_ADD_INCREMENT));
    assert!(!ctrl.contains(ControlRegister::GENERATE_NMI));
    assert!(ctrl.contains(
        ControlRegister::VRAM_ADD_INCREMENT | ControlRegister::BACKROUND_PATTERN_ADDR
    ));
    assert!(!ctrl.contains(ControlRegister::VRAM_ADD_INCREMENT | ControlRegister::GENERATE_NMI));
    assert_eq!(ControlRegister::from_bits_truncate(0xff).bits(), 0xff);
}

#[test]
fn status_register_flags() {
    let mut status = Status::new();
    assert_eq!(status.bits(), 0);
    status.set(Status::V_BLANK, true);
    assert_eq!(status.bits(), 0x80);
    status.insert(Status::SPRITE_0_HIT);
    assert_eq!(status.bits(), 0xc0);
    assert!(status.contains(Status::V_BLANK));
    status.set(Status::V_BLANK, false);
    assert_eq!(status.bits(), 0x40);
    status.remove(Status::SPRITE_0_HIT);
    assert_eq!(status.bits(), 0);
    assert_eq!(Status::from_bits_truncate(0xff).bits(), 0xe0);
}

#[test]
fn vram_write_then_buffered_read() {
    let mut ppu = ppu(Mirroring::HORIZONTAL);
    point_at(&mut ppu, 0x2305);
    ppu.write_to_data(0x66);
    assert_eq!(ppu.vram[0x0305], 0x66);
    assert_eq!(ppu.addr.get(), 0x2306);
    point_at(&mut ppu, 0x2305);
    assert_eq!(ppu.read_data(), 0x00);
    assert_eq!(ppu.addr.get(), 0x2306);
    assert_eq!(ppu.read_data(), 0x66);
}

#[test]
fn data_port_steps_by_32_when_told_to() {
    let mut ppu = ppu(Mirroring::HORIZONTAL);
    ppu.write_to_ctrl(0b100);
    ppu.vram[0x01ff] = 0x66;
    ppu.vram[0x01ff + 32] = 0x77;
    ppu.vram[0x01ff + 64] = 0x88;
    point_at(&mut ppu, 0x21ff);
    ppu.read_data();
    assert_eq!(ppu.read_data(), 0x66);
    assert_eq!(ppu.read_data(), 0x77);
    assert_eq!(ppu.read_data(), 0x88);
}

#[test]
fn pattern_memory_reads_are_buffered_and_writes_are_dropped() {
    let mut ppu = ppu(Mirroring::HORIZONTAL);
    point_at(&mut ppu, 0x0105);
    ppu.write_to_data(0xAA);
    assert_eq!(ppu.chr_rom[0x0105], (0x0105 % 253) as u8);
    assert_eq!(ppu.addr.get(), 0x0106);
    point_at(&mut ppu, 0x0105);
    assert_eq!(ppu.read_data(), 0);
    assert_eq!(ppu.read_data(), (0x0105 % 253) as u8);
}

#[test]
fn pattern_memory_reads_zero_without_character_rom() {
    let mut ppu = NesPPU::new(vec![], Mirroring::HORIZONTAL);
    point_at(&mut ppu, 0x0000);
    ppu.read_data();
    assert_eq!(ppu.read_data(), 0);
}

#[test]
fn horizontal_mirroring() {
    // [0x2000 A ] [0x2400 a ]
    // [0x2800 B ] [0x2C00 b ]
    let mut ppu = ppu(Mirroring::HORIZONTAL);
    point_at(&mut ppu, 0x2405);
    ppu.write_to_data(0x66);
    point_at(&mut ppu, 0x2805);
    ppu.write_to_data(0x77);
    point_at(&mut ppu, 0x2005);
    ppu.read_data();
    assert_eq!(ppu.read_data(), 0x66);
    point_at(&mut ppu, 0x2c05);
    ppu.read_data();
    assert_eq!(ppu.read_data(), 0x77);
    assert_eq!(ppu.mirror_vram_addr(0x2000), 0x000);
    assert_eq!(ppu.mirror_vram_addr(0x2400), 0x000);
    assert_eq!(ppu.mirror_vram_addr(0x2800), 0x400);
    assert_eq!(ppu.mirror_vram_addr(0x2c00), 0x400);
    assert_eq!(ppu.mirror_vram_addr(0x2fff), 0x7ff);
}

#[test]
fn vertical_mirroring() {
    // [0x2000 A ] [0x2400 B ]
    // [0x2800 a ] [0x2C00 b ]
    let mut ppu = ppu(Mirroring::VERTICAL);
    point_at(&mut ppu, 0x2005);
    ppu.write_to_data(0x66);
    point_at(&mut ppu, 0x2c05);
    ppu.write_to_data(0x77);
    point_at(&mut ppu, 0x2805);
    ppu.read_data();
    assert_eq!(ppu.read_data(), 0x66);
    point_at(&mut ppu, 0x2405);
    ppu.read_data();
    assert_eq!(ppu.read_data(), 0x77);
    assert_eq!(ppu.mirror_vram_addr(0x2400), 0x400);
    assert_eq!(ppu.mirror_vram_addr(0x2800), 0x000);
    assert_eq!(ppu.mirror_vram_addr(0x2c00), 0x400);
}

#[test]
fn four_screen_mirroring_folds_nothing() {
    let mut ppu = ppu(Mirroring::FOUR_SCREEN);
    assert_eq!(ppu.mirror_vram_addr(0x2405), 0x405);
    assert_eq!(ppu.mirror_vram_addr(0x2805), 0x805);
    assert_eq!(ppu.mirror_vram_addr(0x2c05), 0xc05);
    // The console has video memory for the first two tables only.
    point_at(&mut ppu, 0x2805);
    ppu.write_to_data(0x66);
    assert!(ppu.vram.iter().all(|b| *b == 0));
    point_at(&mut ppu, 0x2805);
    ppu.read_data();
    assert_eq!(ppu.read_data(), 0);
}

#[test]
fn nametables_show_again_above_3000() {
    let mut ppu = ppu(Mirroring::VERTICAL);
    point_at(&mut ppu, 0x3305);
    ppu.write_to_data(0x66);
    assert_eq!(ppu.vram[0x0305], 0x66);
    point_at(&mut ppu, 0x2305);
    ppu.read_data();
    assert_eq!(ppu.read_data(), 0x66);
    assert_eq!(ppu.mirror_vram_addr(0x3eff), ppu.mirror_vram_addr(0x2eff));
}

#[test]
fn palette_reads_are_immediate() {
    let mut ppu = ppu(Mirroring::HORIZONTAL);
    point_at(&mut ppu, 0x3f03);
    ppu.write_to_data(0x2a);
    assert_eq!(ppu.palette_table[3], 0x2a);
    ppu.vram[0x0703] = 0x99;
    point_at(&mut ppu, 0x3f03);
    assert_eq!(ppu.read_data(), 0x2a);
    // The buffer was filled from the nametable beneath the palette.
    point_at(&mut ppu, 0x2000);
    assert_eq!(ppu.read_data(), 0x99);
}

#[test]
fn palette_mirror() {
    let mut ppu = ppu(Mirroring::HORIZONTAL);
    point_at(&mut ppu, 0x3f00);
    ppu.write_to_data(0x21);
    point_at(&mut ppu, 0x3f10);
    assert_eq!(ppu.read_data(), 0x21);
    for k in [0x04u16, 0x08, 0x0c] {
        point_at(&mut ppu, 0x3f10 + k);
        ppu.write_to_data(0x30 + k as u8);
        point_at(&mut ppu, 0x3f00 + k);
        assert_eq!(ppu.read_data(), 0x30 + k as u8);
    }
    // Entry $11 is a cell of its own.
    point_at(&mut ppu, 0x3f11);
    ppu.write_to_data(0x15);
    point_at(&mut ppu, 0x3f01);
    assert_eq!(ppu.read_data(), 0x00);
    // The palette shows again every 32 bytes.
    point_at(&mut ppu, 0x3f31);
    assert_eq!(ppu.read_data(), 0x15);
}

#[test]
fn status_read_clears_vblank_and_the_write_toggle() {
    let mut ppu = ppu(Mirroring::HORIZONTAL);
    ppu.status.set(Status::V_BLANK, true);
    ppu.status.set(Status::SPRITE_0_HIT, true);
    ppu.write_to_ppu_addr(0x21);
    assert!(!ppu.addr.hi_ptr);
    assert_eq!(ppu.read_status(), 0xc0);
    assert_eq!(ppu.status.bits(), 0x40);
    assert!(ppu.addr.hi_ptr);
    ppu.write_to_ppu_addr(0x23);
    ppu.write_to_ppu_addr(0x05);
    assert_eq!(ppu.addr.get(), 0x2305);
}

#[test]
fn scroll_takes_x_then_y_and_shares_the_toggle() {
    let mut ppu = ppu(Mirroring::HORIZONTAL);
    ppu.write_to_scroll(0x11);
    ppu.write_to_scroll(0x22);
    assert_eq!(ppu.scroll.scroll_x, 0x11);
    assert_eq!(ppu.scroll.scroll_y, 0x22);
    ppu.write_to_scroll(0x33);
    assert_eq!(ppu.scroll.scroll_x, 0x33);
    assert_eq!(ppu.scroll.scroll_y, 0x22);
    ppu.read_status();
    ppu.write_to_scroll(0x44);
    assert_eq!(ppu.scroll.scroll_x, 0x44);
}

#[test]
fn oam_data_write_moves_the_pointer() {
    let mut ppu = ppu(Mirroring::HORIZONTAL);
    ppu.write_to_oam_addr(0xfe);
    ppu.write_to_oam_data(0x66);
    ppu.write_to_oam_data(0x77);
    assert_eq!(ppu.oam_addr, 0x00);
    ppu.write_to_oam_data(0x88);
    assert_eq!(ppu.oam_data[0xfe], 0x66);
    assert_eq!(ppu.oam_data[0xff], 0x77);
    assert_eq!(ppu.oam_data[0x00], 0x88);
    ppu.write_to_oam_addr(0xff);
    assert_eq!(ppu.read_oam_data(), 0x77);
    assert_eq!(ppu.oam_addr, 0xff);
}

#[test]
fn oam_dma_starts_at_the_pointer_and_wraps() {
    let mut ppu = ppu(Mirroring::HORIZONTAL);
    let mut data = [0u8; 256];
    for (i, cell) in data.iter_mut().enumerate() {
        *cell = i as u8 ^ 0x5a;
    }
    ppu.write_to_oam_addr(0x10);
    ppu.write_oam_dma(&data);
    assert_eq!(ppu.oam_addr, 0x10);
    for i in 0..256usize {
        assert_eq!(ppu.oam_data[(0x10 + i) % 256], data[i]);
    }
    ppu.write_to_oam_addr(0);
    ppu.write_oam_dma(&data);
    assert_eq!(ppu.oam_data, data);
}

#[test]
fn mask_is_stored() {
    let mut ppu = ppu(Mirroring::HORIZONTAL);
    ppu.write_to_mask(0x1e);
    assert_eq!(ppu.mask, 0x1e);
}

#[test]
fn tick_counts_dots_and_scanlines() {
    let mut ppu = ppu(Mirroring::HORIZONTAL);
    assert!(!ppu.tick(200));
    assert_eq!((ppu.cycles, ppu.scanline), (200, 0));
    assert!(!ppu.tick(140));
    assert_eq!((ppu.cycles, ppu.scanline), (340, 0));
    assert!(!ppu.tick(1));
    assert_eq!((ppu.cycles, ppu.scanline), (0, 1));
    assert!(!ppu.tick(255));
    assert!(!ppu.tick(255));
    assert_eq!((ppu.cycles, ppu.scanline), (169, 2));
}

fn run_to_scanline(ppu: &mut NesPPU, line: usize) -> usize {
    let mut frames = 0;
    while ppu.scanline != line {
        if ppu.tick(31) {
            frames += 1;
        }
    }
    frames
}

#[test]
fn vblank_begins_on_scanline_241() {
    let mut ppu = ppu(Mirroring::HORIZONTAL);
    run_to_scanline(&mut ppu, 240);
    assert_eq!(ppu.status.bits(), 0);
    run_to_scanline(&mut ppu, 241);
    assert_eq!(ppu.status.bits(), 0x80);
    // Without NMI generation the flag is raised, the interrupt is not.
    assert!(!ppu.nmi_interrupt);
}

#[test]
fn nmi_is_raised_with_vblank_when_enabled() {
    let mut ppu = ppu(Mirroring::HORIZONTAL);
    ppu.write_to_ctrl(0x80);
    run_to_scanline(&mut ppu, 240);
    assert!(!ppu.nmi_interrupt);
    run_to_scanline(&mut ppu, 241);
    assert!(ppu.nmi_interrupt);
    assert!(ppu.pull_nmi_interrupt());
    assert!(!ppu.nmi_interrupt);
    assert!(!ppu.pull_nmi_interrupt());
}

#[test]
fn frame_completes_after_scanline_261() {
    let mut ppu = ppu(Mirroring::HORIZONTAL);
    run_to_scanline(&mut ppu, 261);
    ppu.status.insert(Status::SPRITE_0_HIT | Status::SPRITE_OVERFLOW);
    assert_eq!(ppu.status.bits(), 0xe0);
    let mut complete = false;
    while ppu.scanline == 261 {
        complete = ppu.tick(31);
    }
    assert!(complete);
    assert_eq!(ppu.scanline, 0);
    assert_eq!(ppu.status.bits(), 0x20);
    // One frame is 262 scanlines of 341 dots.
    let mut ppu = self::ppu(Mirroring::HORIZONTAL);
    let mut dots = 0;
    loop {
        dots += 1;
        if ppu.tick(1) {
            break;
        }
    }
    assert_eq!(dots, 341 * 262);
}

#[test]
fn enabling_nmi_during_vblank_raises_it_at_once() {
    let mut ppu = ppu(Mirroring::HORIZONTAL);
    ppu.status.set(Status::V_BLANK, true);
    ppu.write_to_ctrl(0x80);
    assert!(ppu.nmi_interrupt);
    // Writing the bit again while it is set raises nothing.
    ppu.pull_nmi_interrupt();
    ppu.write_to_ctrl(0x80);
    assert!(!ppu.nmi_interrupt);
    // Outside vertical blank nothing is raised either.
    let mut ppu = self::ppu(Mirroring::HORIZONTAL);
    ppu.write_to_ctrl(0x80);
    assert!(!ppu.nmi_interrupt);
}

#[test]
fn peek_data_does_not_move_the_address() {
    let mut ppu = ppu(Mirroring::HORIZONTAL);
    ppu.palette_table[5] = 0x17;
    point_at(&mut ppu, 0x3f05);
    assert_eq!(ppu.peek_data(), 0x17);
    assert_eq!(ppu.addr.get(), 0x3f05);
    point_at(&mut ppu, 0x2000);
    ppu.internal_data_buf = 0x44;
    assert_eq!(ppu.peek_data(), 0x44);
    assert_eq!(ppu.internal_data_buf, 0x44);
}
