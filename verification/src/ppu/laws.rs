//! What follows from the PPU's model: the laws its register file obeys.

use vstd::prelude::*;
use crate::cartridge::Mirroring;
use crate::ppu::mirrored;
use crate::ppu::palette_index;
use crate::ppu::AddrRegister;
use crate::ppu::PpuState;
use crate::ppu::NAMETABLE_BASE;
use crate::ppu::PALETTE_BASE;

verus! {

impl PpuState {
    /// The state after the program pointed the address port at `target`
    /// the documented way: a read of the status register, then the high
    /// byte, then the low byte.
    pub open spec fn pointed_at(self, target: u16) -> PpuState {
        self.after_read_status().after_write_ppu_addr((target / 256) as u8).after_write_ppu_addr(
            (target % 256) as u8,
        )
    }
}

/// The latched address always fits fourteen bits.
pub proof fn lemma_addr_fits(register: AddrRegister)
    ensures
        0 <= register.addr() < 0x4000,
{
}

/// Reading the status register clears the write toggle: whatever state the
/// toggle was in, the two writes to the address port that follow are taken
/// as a high byte and a low byte, in that order.
pub proof fn lemma_status_read_starts_address_pair(ppu: PpuState, hi: u8, lo: u8)
    ensures
        ppu.after_read_status().addr.hi_ptr,
        ppu.after_read_status().after_write_ppu_addr(hi).after_write_ppu_addr(lo).addr.addr() == (hi
            % 64) * 256 + lo,
        ppu.after_read_status().after_write_ppu_addr(hi).after_write_ppu_addr(lo).addr.hi_ptr,
{
}

/// Pointing the address port at a 14-bit address latches that address and
/// changes no memory.
pub proof fn lemma_pointed_at(ppu: PpuState, target: u16)
    requires
        target < 0x4000,
    ensures
        ppu.pointed_at(target).addr.addr() == target,
        ppu.pointed_at(target).vram == ppu.vram,
        ppu.pointed_at(target).palette == ppu.palette,
        ppu.pointed_at(target).chr == ppu.chr,
        ppu.pointed_at(target).buffer == ppu.buffer,
        ppu.pointed_at(target).ctrl == ppu.ctrl,
        ppu.pointed_at(target).mirroring == ppu.mirroring,
{
}

/// A byte written through the data port to nametable memory comes back
/// through the read buffer: after the write, the program points the
/// address port at the same address again, reads once to prime the buffer
/// and reads once more for the byte.
///
/// The address has to be backed by video memory (with four-screen
/// mirroring only the lower half of the window is), and the second read
/// has to fall below the palette, where reads are buffered.
pub proof fn lemma_data_port_round_trip(ppu: PpuState, target: u16, value: u8)
    requires
        ppu.wf(),
        NAMETABLE_BASE <= target < PALETTE_BASE,
        ppu.addr.addr() == target,
        mirrored(ppu.mirroring, target) < 2048,
        target + ppu.ctrl.step() < PALETTE_BASE,
    ensures
        ({
            let written = ppu.after_write_data(value);
            let primed = written.pointed_at(target).after_read_data();
            &&& written.nametable_byte(target) == value
            &&& primed.buffer == value
            &&& primed.data_value() == value
        }),
{
    let written = ppu.after_write_data(value);
    lemma_pointed_at(written, target);
    let pointed = written.pointed_at(target);
    assert(pointed.addr.addr() == target);
    assert(pointed.data_refill() == value);
    let primed = pointed.after_read_data();
    assert(primed.addr.addr() == (target + ppu.ctrl.step()) % 0x4000);
}

/// A byte written through the data port to the palette is what the very
/// next read of the same address returns: palette reads are not buffered.
pub proof fn lemma_palette_round_trip(ppu: PpuState, target: u16, value: u8)
    requires
        ppu.wf(),
        PALETTE_BASE <= target < 0x4000,
        ppu.addr.addr() == target,
    ensures
        ppu.after_write_data(value).pointed_at(target).data_value() == value,
{
    let written = ppu.after_write_data(value);
    lemma_pointed_at(written, target);
}

/// Palette entries `$10`, `$14`, `$18` and `$1C` are the cells of entries
/// `$00`, `$04`, `$08` and `$0C`, and every palette address stands for
/// the one 32 below it.
pub proof fn lemma_palette_mirrors(addr: u16)
    ensures
        0 <= palette_index(addr) < 32,
        palette_index(addr) == palette_index((addr % 32) as u16),
        addr % 4 == 0 ==> palette_index(addr) == palette_index((addr % 16) as u16),
        palette_index(0x3F10) == palette_index(0x3F00),
        palette_index(0x3F14) == palette_index(0x3F04),
        palette_index(0x3F18) == palette_index(0x3F08),
        palette_index(0x3F1C) == palette_index(0x3F0C),
{
}

/// A byte written to palette entry `$00`, `$04`, `$08` or `$0C` is read
/// back at the entry 16 above it, and the other way round: the write goes
/// to the one cell both addresses name.
pub proof fn lemma_palette_mirror_round_trip(ppu: PpuState, entry: u16, upwards: bool, value: u8)
    requires
        ppu.wf(),
        entry == 0 || entry == 4 || entry == 8 || entry == 12,
        ppu.addr.addr() == (if upwards {
            PALETTE_BASE + entry
        } else {
            PALETTE_BASE + 16 + entry
        }),
    ensures
        ppu.after_write_data(value).pointed_at(
            if upwards {
                (PALETTE_BASE + 16 + entry) as u16
            } else {
                (PALETTE_BASE + entry) as u16
            },
        ).data_value() == value,
{
    let written = ppu.after_write_data(value);
    if upwards {
        lemma_pointed_at(written, (PALETTE_BASE + 16 + entry) as u16);
    } else {
        lemma_pointed_at(written, (PALETTE_BASE + entry) as u16);
    }
}

/// The nametable window folds onto video memory as the mirroring says:
/// each address shares its cell with the address 4 KiB further on, and
/// with its horizontal or vertical neighbour table.
pub proof fn lemma_nametable_mirrors(mirroring: Mirroring, addr: u16)
    requires
        NAMETABLE_BASE <= addr < 0x2400,
    ensures
        mirrored(mirroring, addr) == mirrored(mirroring, (addr + 0x1000) as u16),
        mirroring == Mirroring::HORIZONTAL ==> mirrored(mirroring, addr) == mirrored(
            mirroring,
            (addr + 0x400) as u16,
        ) && mirrored(mirroring, (addr + 0x800) as u16) == mirrored(
            mirroring,
            (addr + 0xC00) as u16,
        ) && mirrored(mirroring, addr) != mirrored(mirroring, (addr + 0x800) as u16),
        mirroring == Mirroring::VERTICAL ==> mirrored(mirroring, addr) == mirrored(
            mirroring,
            (addr + 0x800) as u16,
        ) && mirrored(mirroring, (addr + 0x400) as u16) == mirrored(
            mirroring,
            (addr + 0xC00) as u16,
        ) && mirrored(mirroring, addr) != mirrored(mirroring, (addr + 0x400) as u16),
        mirroring != Mirroring::FOUR_SCREEN ==> mirrored(mirroring, addr) < 2048,
{
}

/// A sprite DMA with the sprite pointer at zero leaves sprite memory
/// holding exactly the page it was given.
pub proof fn lemma_oam_dma_from_zero(ppu: PpuState, data: Seq<u8>)
    requires
        data.len() == 256,
        ppu.oam_addr == 0,
    ensures
        ppu.after_oam_dma(data).oam == data,
{
    assert(ppu.after_oam_dma(data).oam =~= data);
}

/// The clock never leaves the frame.
pub proof fn lemma_tick_keeps_clock(ppu: PpuState, dots: u8)
    requires
        ppu.wf(),
    ensures
        ppu.ticked(dots).wf(),
{
}

} // verus!
