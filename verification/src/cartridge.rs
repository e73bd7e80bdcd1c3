//! Cartridge images in the iNES format.

use vstd::prelude::*;
use crate::error::NesError;

verus! {

/// Size of one program ROM bank.
pub const PRG_ROM_PAGE_SIZE: usize = 16384;

/// Size of one character ROM bank.
pub const CHR_ROM_PAGE_SIZE: usize = 8192;

/// Length of the iNES header.
pub const HEADER_SIZE: usize = 16;

/// Length of the optional trainer block that follows the header.
pub const TRAINER_SIZE: usize = 512;

/// Longest program that fits a synthetic cartridge beside its vectors.
pub const MAX_PROGRAM_SIZE: usize = 0x7FFA;

/// How the four logical nametables share the console's two physical ones.
#[allow(non_camel_case_types)]
#[derive(Clone, Copy, Debug, PartialEq, Eq, Structural)]
pub enum Mirroring {
    VERTICAL,
    HORIZONTAL,
    FOUR_SCREEN,
}

/// A parsed cartridge: the header is gone, program and character ROM are
/// plain byte sequences.
pub struct Rom {
    pub prg_rom: Vec<u8>,
    pub chr_rom: Vec<u8>,
    pub mapper: u8,
    pub screen_mirroring: Mirroring,
}

/// The first four bytes of `raw` are `N`, `E`, `S`, `0x1A`.
pub open spec fn has_magic(raw: Seq<u8>) -> bool {
    &&& raw.len() >= 4
    &&& raw[0] == 0x4E
    &&& raw[1] == 0x45
    &&& raw[2] == 0x53
    &&& raw[3] == 0x1A
}

/// Mapper number announced by header bytes 6 and 7.
pub open spec fn header_mapper(raw: Seq<u8>) -> u8 {
    (raw[7] & 0xF0) | (raw[6] >> 4)
}

/// Mirroring announced by header byte 6: bit 3 selects four-screen,
/// otherwise bit 0 selects vertical over horizontal.
pub open spec fn header_mirroring(raw: Seq<u8>) -> Mirroring {
    if raw[6] & 0x08 != 0 {
        Mirroring::FOUR_SCREEN
    } else if raw[6] & 0x01 != 0 {
        Mirroring::VERTICAL
    } else {
        Mirroring::HORIZONTAL
    }
}

/// Offset of the first program ROM byte: after the header and, when bit 2
/// of header byte 6 is set, after the trainer.
pub open spec fn prg_start(raw: Seq<u8>) -> int {
    if raw[6] & 0x04 != 0 {
        HEADER_SIZE + TRAINER_SIZE
    } else {
        HEADER_SIZE as int
    }
}

/// Offset of the first character ROM byte.
pub open spec fn chr_start(raw: Seq<u8>) -> int {
    prg_start(raw) + raw[4] * PRG_ROM_PAGE_SIZE
}

/// Offset one past the last byte the header accounts for.
pub open spec fn image_end(raw: Seq<u8>) -> int {
    chr_start(raw) + raw[5] * CHR_ROM_PAGE_SIZE
}

/// What loading `raw` yields: the error that rejects it, or nothing when
/// the image is accepted.
pub open spec fn image_defect(raw: Seq<u8>) -> Option<NesError> {
    if !has_magic(raw) {
        Some(NesError::BadMagic)
    } else if raw.len() < HEADER_SIZE {
        Some(NesError::Truncated)
    } else if header_mapper(raw) != 0 {
        Some(NesError::UnsupportedMapper)
    } else if raw.len() < image_end(raw) {
        Some(NesError::Truncated)
    } else {
        None
    }
}

/// Program ROM of the synthetic cartridge built around `program`: the
/// program at the start of a 32 KiB image, zeroes after it, and the reset
/// vector pointing at `$8000`.
pub open spec fn synthetic_prg(program: Seq<u8>) -> Seq<u8> {
    Seq::new(
        0x8000,
        |i: int|
            if i < program.len() {
                program[i]
            } else if i == 0x7FFD {
                0x80u8
            } else {
                0u8
            },
    )
}

/// Copies `len` bytes of `raw` starting at `start`.
fn copy_range(raw: &Vec<u8>, start: usize, len: usize) -> (out: Vec<u8>)
    requires
        start + len <= raw@.len(),
    ensures
        out@ == raw@.subrange(start as int, start + len),
{
    let total: usize = raw.len();
    let mut out: Vec<u8> = Vec::new();
    let mut i: usize = 0;
    while i < len
        invariant
            i <= len,
            start + len <= total == raw@.len(),
            out@ == raw@.subrange(start as int, start + i),
        decreases len - i,
    {
        out.push(raw[start + i]);
        i += 1;
        assert(out@ == raw@.subrange(start as int, start + i));
    }
    out
}

/// A vector of `len` zero bytes.
fn zeroed(len: usize) -> (out: Vec<u8>)
    ensures
        out@ == Seq::new(len as nat, |i: int| 0u8),
{
    let mut out: Vec<u8> = Vec::new();
    let mut i: usize = 0;
    while i < len
        invariant
            i <= len,
            out@ == Seq::new(i as nat, |j: int| 0u8),
        decreases len - i,
    {
        out.push(0);
        i += 1;
        assert(out@ == Seq::new(i as nat, |j: int| 0u8));
    }
    out
}

impl Rom {
    /// The lengths the data model promises: whole banks of program and
    /// character ROM.
    pub open spec fn wf(&self) -> bool {
        &&& self.prg_rom@.len() % PRG_ROM_PAGE_SIZE as nat == 0
        &&& self.chr_rom@.len() % CHR_ROM_PAGE_SIZE as nat == 0
    }

    /// Parses an iNES image.
    ///
    /// The image is rejected with `BadMagic` exactly when its first four
    /// bytes are not the magic, with `UnsupportedMapper` exactly when a
    /// complete header names a mapper other than 0, and with `Truncated`
    /// when the header or the banks it announces are cut short. Every other
    /// image is accepted, and the result holds the announced banks byte for
    /// byte. An image without character ROM is accepted with an empty
    /// `chr_rom`.
    pub fn new(raw: &Vec<u8>) -> (res: Result<Rom, NesError>)
        ensures
            match res {
                Ok(rom) => {
                    &&& image_defect(raw@) is None
                    &&& rom.prg_rom@ == raw@.subrange(prg_start(raw@), chr_start(raw@))
                    &&& rom.chr_rom@ == raw@.subrange(chr_start(raw@), image_end(raw@))
                    &&& rom.mapper == 0
                    &&& rom.screen_mirroring == header_mirroring(raw@)
                    &&& rom.wf()
                },
                Err(e) => image_defect(raw@) == Some(e),
            },
    {
        if raw.len() < 4 || raw[0] != 0x4E || raw[1] != 0x45 || raw[2] != 0x53 || raw[3] != 0x1A {
            return Err(NesError::BadMagic);
        }
        if raw.len() < HEADER_SIZE {
            return Err(NesError::Truncated);
        }
        let mapper: u8 = (raw[7] & 0xF0) | (raw[6] >> 4);
        if mapper != 0 {
            return Err(NesError::UnsupportedMapper);
        }
        let screen_mirroring = if raw[6] & 0x08 != 0 {
            Mirroring::FOUR_SCREEN
        } else if raw[6] & 0x01 != 0 {
            Mirroring::VERTICAL
        } else {
            Mirroring::HORIZONTAL
        };
        let prg_size: usize = raw[4] as usize * PRG_ROM_PAGE_SIZE;
        let chr_size: usize = raw[5] as usize * CHR_ROM_PAGE_SIZE;
        let prg_at: usize = if raw[6] & 0x04 != 0 {
            HEADER_SIZE + TRAINER_SIZE
        } else {
            HEADER_SIZE
        };
        let chr_at: usize = prg_at + prg_size;
        if raw.len() < chr_at + chr_size {
            return Err(NesError::Truncated);
        }
        let prg_rom = copy_range(raw, prg_at, prg_size);
        let chr_rom = copy_range(raw, chr_at, chr_size);
        Ok(Rom { prg_rom, chr_rom, mapper, screen_mirroring })
    }
}

/// Wraps a CPU program into a synthetic mapper-0 cartridge: 32 KiB of
/// program ROM with the program at `$8000` and the reset vector pointing
/// there, 8 KiB of blank character ROM, horizontal mirroring.
pub fn prepare_rom(program: Vec<u8>) -> (rom: Rom)
    requires
        program@.len() <= MAX_PROGRAM_SIZE,
    ensures
        rom.prg_rom@ == synthetic_prg(program@),
        rom.chr_rom@ == Seq::new(CHR_ROM_PAGE_SIZE as nat, |i: int| 0u8),
        rom.mapper == 0,
        rom.screen_mirroring == Mirroring::HORIZONTAL,
        rom.wf(),
{
    let mut prg_rom: Vec<u8> = zeroed(2 * PRG_ROM_PAGE_SIZE);
    let mut i: usize = 0;
    while i < program.len()
        invariant
            i <= program@.len() <= MAX_PROGRAM_SIZE,
            prg_rom@.len() == 0x8000,
            forall|j: int| 0 <= j < i ==> prg_rom@[j] == program@[j],
            forall|j: int| i <= j < 0x8000 ==> prg_rom@[j] == 0,
        decreases program@.len() - i,
    {
        prg_rom[i] = program[i];
        i += 1;
    }
    prg_rom[0x7FFD] = 0x80;
    assert(prg_rom@ =~= synthetic_prg(program@));
    Rom {
        prg_rom,
        chr_rom: zeroed(CHR_ROM_PAGE_SIZE),
        mapper: 0,
        screen_mirroring: Mirroring::HORIZONTAL,
    }
}

} // verus!
