use nes_core::cartridge::prepare_rom;
use nes_core::cartridge::Mirroring;
use nes_core::cartridge::Rom;
use nes_core::error::NesError;

fn image(header: [u8; 16], trainer: bool, prg: usize, chr: usize) -> Vec<u8> {
    let mut raw = header.to_vec();
    if trainer {
        raw.extend(vec![0xEE; 512]);
    }
    raw.extend((0..prg).map(|i| (i % 251) as u8));
    raw.extend((0..chr).map(|i| (i % 241) as u8 ^ 0xFF));
    raw
}

fn header(prg_banks: u8, chr_banks: u8, flags6: u8, flags7: u8) -> [u8; 16] {
    [
        0x4E, 0x45, 0x53, 0x1A, prg_banks, chr_banks, flags6, flags7, 0, 0, 0, 0, 0, 0, 0, 0,
    ]
}

fn error_of(raw: &Vec<u8>) -> NesError {
    match Rom::new(raw) {
        Ok(_) => panic!("the image was accepted"),
        Err(e) => e,
    }
}

#[test]
fn loads_a_plain_image() {
    let raw = image(header(2, 1, 0, 0), false, 0x8000, 0x2000);
    let rom = Rom::new(&raw).unwrap_or_else(|_| panic!("rejected"));
    assert_eq!(rom.prg_rom.len(), 0x8000);
    assert_eq!(rom.chr_rom.len(), 0x2000);
    assert_eq!(rom.prg_rom[..], raw[16..16 + 0x8000]);
    assert_eq!(rom.chr_rom[..], raw[16 + 0x8000..]);
    assert_eq!(rom.mapper, 0);
    assert_eq!(rom.screen_mirroring, Mirroring::HORIZONTAL);
}

#[test]
fn rejects_bad_magic() {
    let mut raw = image(header(1, 1, 0, 0), false, 0x4000, 0x2000);
    raw[3] = 0x1B;
    assert_eq!(error_of(&raw), NesError::BadMagic);
    assert_eq!(error_of(&vec![]), NesError::BadMagic);
    assert_eq!(error_of(&vec![0x4E, 0x45, 0x53]), NesError::BadMagic);
    // A wrong magic wins over everything else that is wrong.
    let mut raw = image(header(1, 1, 0x10, 0), false, 0, 0);
    raw[0] = 0;
    assert_eq!(error_of(&raw), NesError::BadMagic);
}

#[test]
fn rejects_other_mappers() {
    let raw = image(header(1, 1, 0x10, 0), false, 0x4000, 0x2000);
    assert_eq!(error_of(&raw), NesError::UnsupportedMapper);
    let raw = image(header(1, 1, 0, 0x40), false, 0x4000, 0x2000);
    assert_eq!(error_of(&raw), NesError::UnsupportedMapper);
    // The low nibble of byte 7 is no part of the mapper number.
    let raw = image(header(1, 1, 0, 0x0F), false, 0x4000, 0x2000);
    assert!(Rom::new(&raw).is_ok());
}

#[test]
fn rejects_truncated_images() {
    let raw = vec![0x4E, 0x45, 0x53, 0x1A, 1, 1];
    assert_eq!(error_of(&raw), NesError::Truncated);
    let mut raw = image(header(1, 1, 0, 0), false, 0x4000, 0x2000);
    raw.pop();
    assert_eq!(error_of(&raw), NesError::Truncated);
    let mut raw = image(header(1, 1, 0x04, 0), true, 0x4000, 0x2000);
    raw.pop();
    assert_eq!(error_of(&raw), NesError::Truncated);
}

#[test]
fn bytes_after_the_announced_banks_are_ignored() {
    let mut raw = image(header(1, 1, 0, 0), false, 0x4000, 0x2000);
    raw.extend(vec![1, 2, 3]);
    let rom = Rom::new(&raw).unwrap_or_else(|_| panic!("rejected"));
    assert_eq!(rom.prg_rom.len(), 0x4000);
    assert_eq!(rom.chr_rom.len(), 0x2000);
}

#[test]
fn skips_the_trainer() {
    let raw = image(header(1, 1, 0x04, 0), true, 0x4000, 0x2000);
    let rom = Rom::new(&raw).unwrap_or_else(|_| panic!("rejected"));
    assert_eq!(rom.prg_rom[..], raw[16 + 512..16 + 512 + 0x4000]);
    assert_eq!(rom.chr_rom[..], raw[16 + 512 + 0x4000..]);
    assert_eq!(rom.prg_rom[0], 0);
    assert_eq!(rom.prg_rom[1], 1);
}

#[test]
fn decodes_mirroring() {
    let raw = image(header(1, 1, 0x01, 0), false, 0x4000, 0x2000);
    let rom = Rom::new(&raw).unwrap_or_else(|_| panic!("rejected"));
    assert_eq!(rom.screen_mirroring, Mirroring::VERTICAL);
    let raw = image(header(1, 1, 0x08, 0), false, 0x4000, 0x2000);
    let rom = Rom::new(&raw).unwrap_or_else(|_| panic!("rejected"));
    assert_eq!(rom.screen_mirroring, Mirroring::FOUR_SCREEN);
    let raw = image(header(1, 1, 0x09, 0), false, 0x4000, 0x2000);
    let rom = Rom::new(&raw).unwrap_or_else(|_| panic!("rejected"));
    assert_eq!(rom.screen_mirroring, Mirroring::FOUR_SCREEN);
    // Bit 1, battery-backed RAM, changes nothing.
    let raw = image(header(1, 1, 0x02, 0), false, 0x4000, 0x2000);
    let rom = Rom::new(&raw).unwrap_or_else(|_| panic!("rejected"));
    assert_eq!(rom.screen_mirroring, Mirroring::HORIZONTAL);
}

#[test]
fn accepts_an_image_without_character_rom() {
    let raw = image(header(1, 0, 0, 0), false, 0x4000, 0);
    let rom = Rom::new(&raw).unwrap_or_else(|_| panic!("rejected"));
    assert_eq!(rom.prg_rom.len(), 0x4000);
    assert!(rom.chr_rom.is_empty());
}

#[test]
fn synthetic_cartridge_points_the_reset_vector_at_the_program() {
    let rom = prepare_rom(vec![0xa9, 0x05, 0x00]);
    assert_eq!(rom.prg_rom.len(), 0x8000);
    assert_eq!(rom.chr_rom.len(), 0x2000);
    assert_eq!(rom.prg_rom[..3], [0xa9, 0x05, 0x00]);
    assert!(rom.prg_rom[3..0x7FFC].iter().all(|b| *b == 0));
    assert_eq!(rom.prg_rom[0x7FFC], 0x00);
    assert_eq!(rom.prg_rom[0x7FFD], 0x80);
    assert_eq!(rom.prg_rom[0x7FFE], 0x00);
    assert_eq!(rom.prg_rom[0x7FFF], 0x00);
    assert!(rom.chr_rom.iter().all(|b| *b == 0));
    assert_eq!(rom.mapper, 0);
    assert_eq!(rom.screen_mirroring, Mirroring::HORIZONTAL);
}

#[test]
fn synthetic_cartridge_takes_the_longest_program() {
    let rom = prepare_rom(vec![0xEA; 0x7FFA]);
    assert_eq!(rom.prg_rom[0x7FF9], 0xEA);
    assert_eq!(rom.prg_rom[0x7FFA], 0x00);
    assert_eq!(rom.prg_rom[0x7FFD], 0x80);
}
