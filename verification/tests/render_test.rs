use nes_core::cartridge::Mirroring;
use nes_core::ppu::NesPPU;
use nes_core::render::frame::bg_pallette;
use nes_core::render::frame::show_frame;
use nes_core::render::frame::show_tile;
use nes_core::render::frame::Frame;
use nes_core::render::palette::system_color;
use nes_core::render::render;

fn pixel(frame: &Frame, x: usize, y: usize) -> (u8, u8, u8) {
    let base = y * 3 * 256 + x * 3;
    (frame.data[base], frame.data[base + 1], frame.data[base + 2])
}

/// A PPU whose tile 1 of bank 0 has colour 2 in its top row, colour 1 in
/// its left column below it, colour 3 in its bottom right corner, and
/// colour 0 elsewhere.
fn ppu() -> NesPPU {
    let mut chr = vec![0u8; 0x2000];
    chr[16] = 0xff;
    for row in 1..8 {
        chr[16 + 8 + row] = 0x80;
    }
    chr[16 + 7] = 0x01;
    chr[16 + 8 + 7] = 0x81;
    // Tile 2 of bank 1 is solid colour 3.
    for row in 0..16 {
        chr[0x1000 + 32 + row] = 0xff;
    }
    let mut ppu = NesPPU::new(chr, Mirroring::HORIZONTAL);
    for (i, cell) in ppu.palette_table.iter_mut().enumerate() {
        *cell = i as u8 + 1;
    }
    ppu
}

#[test]
fn a_new_frame_is_black() {
    let frame = Frame::new();
    assert_eq!(frame.data.len(), 256 * 240 * 3);
    assert!(frame.data.iter().all(|b| *b == 0));
}

#[test]
fn set_pixel_writes_three_bytes() {
    let mut frame = Frame::new();
    frame.set_pixel(3, 2, (10, 20, 30));
    assert_eq!(frame.data[2 * 768 + 9..2 * 768 + 12], [10, 20, 30]);
    assert_eq!(frame.data.iter().filter(|b| **b != 0).count(), 3);
    frame.set_pixel(255, 239, (1, 2, 3));
    assert_eq!(frame.data[184317..], [1, 2, 3]);
}

#[test]
fn set_pixel_leaves_out_what_does_not_fit() {
    let mut frame = Frame::new();
    frame.set_pixel(0, 240, (1, 2, 3));
    frame.set_pixel(usize::MAX, 0, (1, 2, 3));
    frame.set_pixel(0, usize::MAX, (1, 2, 3));
    frame.set_pixel(usize::MAX, usize::MAX, (1, 2, 3));
    assert!(frame.data.iter().all(|b| *b == 0));
    let mut short = Frame { data: vec![0; 5] };
    short.set_pixel(1, 0, (1, 2, 3));
    assert_eq!(short.data, vec![0; 5]);
    short.set_pixel(0, 0, (1, 2, 3));
    assert_eq!(short.data, vec![1, 2, 3, 0, 0]);
}

#[test]
fn system_palette_entries() {
    assert_eq!(system_color(0x00), (0x80, 0x80, 0x80));
    assert_eq!(system_color(0x01), (0x00, 0x3D, 0xA6));
    assert_eq!(system_color(0x0d), (0x00, 0x00, 0x00));
    assert_eq!(system_color(0x20), (0xFF, 0xFF, 0xFF));
    assert_eq!(system_color(0x3f), (0x11, 0x11, 0x11));
    // Only six bits of the index count.
    assert_eq!(system_color(0x41), system_color(0x01));
    assert_eq!(system_color(0xff), system_color(0x3f));
}

#[test]
fn background_palette_follows_the_attribute_table() {
    let mut ppu = ppu();
    // One byte for tiles (0..4, 0..4): quadrants use palettes 1, 2, 3, 0.
    ppu.vram[0x3c0] = 0b00_11_10_01;
    assert_eq!(bg_pallette(&ppu, 0, 0), [1, 6, 7, 8]);
    assert_eq!(bg_pallette(&ppu, 1, 1), [1, 6, 7, 8]);
    assert_eq!(bg_pallette(&ppu, 0, 2), [1, 10, 11, 12]);
    assert_eq!(bg_pallette(&ppu, 2, 1), [1, 14, 15, 16]);
    assert_eq!(bg_pallette(&ppu, 3, 3), [1, 2, 3, 4]);
    // The next block to the right and the block below have bytes of their own.
    ppu.vram[0x3c1] = 0b01;
    ppu.vram[0x3c8] = 0b10;
    assert_eq!(bg_pallette(&ppu, 0, 4), [1, 6, 7, 8]);
    assert_eq!(bg_pallette(&ppu, 4, 0), [1, 10, 11, 12]);
    assert_eq!(bg_pallette(&ppu, 29, 31), [1, 2, 3, 4]);
}

#[test]
fn show_tile_draws_the_two_bit_planes() {
    let ppu = ppu();
    let mut frame = Frame::new();
    show_tile(&ppu, &mut frame, 0, 2, 1, 1);
    let backdrop = system_color(1);
    let one = system_color(2);
    let two = system_color(3);
    let three = system_color(4);
    for x in 0..8 {
        assert_eq!(pixel(&frame, 16 + x, 8), two);
    }
    for y in 1..7 {
        assert_eq!(pixel(&frame, 16, 8 + y), one);
        for x in 1..8 {
            assert_eq!(pixel(&frame, 16 + x, 8 + y), backdrop);
        }
    }
    assert_eq!(pixel(&frame, 16, 15), one);
    assert_eq!(pixel(&frame, 23, 15), three);
    assert_eq!(pixel(&frame, 22, 15), backdrop);
    // Nothing outside the tile's cell is touched.
    assert_eq!(pixel(&frame, 15, 8), (0, 0, 0));
    assert_eq!(pixel(&frame, 24, 8), (0, 0, 0));
    assert_eq!(pixel(&frame, 16, 7), (0, 0, 0));
    assert_eq!(pixel(&frame, 16, 16), (0, 0, 0));
}

#[test]
fn show_tile_reads_the_second_bank() {
    let ppu = ppu();
    let mut frame = Frame::new();
    show_tile(&ppu, &mut frame, 1, 31, 29, 2);
    for y in 0..8 {
        for x in 0..8 {
            assert_eq!(pixel(&frame, 248 + x, 232 + y), system_color(4));
        }
    }
}

#[test]
fn render_draws_the_first_nametable() {
    let mut ppu = ppu();
    ppu.vram[0] = 1;
    ppu.vram[33] = 1;
    ppu.vram[0x3c0] = 0b01;
    let mut frame = Frame::new();
    render(&ppu, &mut frame);
    assert_eq!(pixel(&frame, 0, 0), system_color(7));
    assert_eq!(pixel(&frame, 8, 8), system_color(7));
    assert_eq!(pixel(&frame, 8, 9), system_color(6));
    assert_eq!(pixel(&frame, 9, 9), system_color(1));
    // Every other cell shows tile 0, which is blank: the backdrop colour.
    assert_eq!(pixel(&frame, 8, 0), system_color(1));
    assert_eq!(pixel(&frame, 255, 239), system_color(1));
    // With the background bank switched, tile 1 of bank 1 is blank too.
    ppu.write_to_ctrl(0x10);
    ppu.vram[2] = 2;
    render(&ppu, &mut frame);
    assert_eq!(pixel(&frame, 0, 0), system_color(1));
    // Cell (2, 0) lies in the top right quadrant of its block: palette 0.
    assert_eq!(pixel(&frame, 16, 0), system_color(4));
}

#[test]
fn show_frame_lays_out_the_tiles_of_pattern_memory() {
    let ppu = ppu();
    let frame = show_frame(&ppu);
    assert_eq!(frame.data.len(), 256 * 240 * 3);
    // Tile 1 sits in the second cell of the first row.
    assert_eq!(pixel(&frame, 8, 0), system_color(3));
    assert_eq!(pixel(&frame, 8, 1), system_color(2));
    assert_eq!(pixel(&frame, 0, 0), system_color(1));
    // Tile 258 is tile 2 of the second bank: row 8, cell 2.
    assert_eq!(pixel(&frame, 16, 64), system_color(4));
    // After 512 tiles the viewer starts over: tile 513 shows tile 1 again.
    assert_eq!(pixel(&frame, 8, 128), system_color(3));
}
