//! The failures the core can report.

use vstd::prelude::*;

verus! {

/// Everything that can go wrong while loading a cartridge or running code.
#[derive(Clone, Copy, Debug, PartialEq, Eq, Structural)]
pub enum NesError {
    /// The image does not start with the iNES magic bytes.
    BadMagic,
    /// The image asks for a mapper other than mapper 0.
    UnsupportedMapper,
    /// The image is shorter than its own header announces.
    Truncated,
    /// The CPU fetched a byte that is not an official opcode.
    IllegalOpcode,
    /// The CPU stored to the cartridge's program ROM.
    WriteToRom,
    /// A write-only PPU register was read, or a read-only one written,
    /// while the bus was in strict mode.
    InvalidPpuAccess,
}

} // verus!
