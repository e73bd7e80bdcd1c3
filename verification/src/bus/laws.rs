//! What follows from the bus's model: mirroring, the purity of most reads,
//! and what no access can change.

use vstd::prelude::*;
use crate::bus::BusState;
use crate::bus::OAM_DMA;
use crate::bus::PPU_REGISTERS;
use crate::bus::PPU_REGISTERS_MIRRORS_END;
use crate::bus::PRG_ROM;
use crate::bus::RAM_MIRRORS_END;

verus! {

impl BusState {
    /// Whether reading `addr` leaves the machine as it was: everything
    /// but the PPU's register window.
    pub open spec fn reads_purely(addr: u16) -> bool {
        addr < PPU_REGISTERS || addr > PPU_REGISTERS_MIRRORS_END
    }

    /// What no read or write changes: the program ROM, the cycle count,
    /// the PPU's clock, the access mode. A fault, once recorded, stays.
    pub open spec fn continues(self, before: BusState) -> bool {
        &&& self.prg == before.prg
        &&& self.cycles == before.cycles
        &&& self.strict == before.strict
        &&& self.ppu.dot == before.ppu.dot
        &&& self.ppu.scanline == before.ppu.scanline
        &&& self.ppu.chr == before.ppu.chr
        &&& self.ppu.mirroring == before.ppu.mirroring
        &&& before.fault is Some ==> self.fault == before.fault
        &&& before.wf() ==> self.wf()
    }
}

/// Work RAM shows four times: every address up to `$1FFF` behaves as the
/// address with its bits 11 and 12 cleared.
pub proof fn lemma_ram_mirrors(bus: BusState, addr: u16, data: u8)
    requires
        addr <= RAM_MIRRORS_END,
    ensures
        bus.read_value(addr) == bus.read_value(addr & 0x07FF),
        bus.after_read(addr) == bus.after_read(addr & 0x07FF),
        bus.after_write(addr, data) == bus.after_write(addr & 0x07FF, data),
        bus.after_read(addr) == bus,
{
    reveal(BusState::read_value);
    reveal(BusState::after_read);
    reveal(BusState::after_write);
    assert(addr & 0x07FF == addr % 0x800) by (bit_vector);
}

/// The eight PPU registers show all through `$2000..$4000`: every address
/// in the window behaves as the address with all bits cleared but bit 13
/// and the low three.
pub proof fn lemma_ppu_registers_mirror(bus: BusState, addr: u16, data: u8)
    requires
        PPU_REGISTERS <= addr <= PPU_REGISTERS_MIRRORS_END,
    ensures
        PPU_REGISTERS <= addr & 0x2007 <= 0x2007,
        (addr & 0x2007) % 8 == addr % 8,
        bus.read_value(addr) == bus.read_value(addr & 0x2007),
        bus.after_read(addr) == bus.after_read(addr & 0x2007),
        bus.after_write(addr, data) == bus.after_write(addr & 0x2007, data),
{
    reveal(BusState::read_value);
    reveal(BusState::after_read);
    reveal(BusState::after_write);
    assert(0x2000 <= addr <= 0x3FFF ==> 0x2000 <= addr & 0x2007 <= 0x2007 && (addr & 0x2007) % 8
        == addr % 8) by (bit_vector);
}

/// What a write stores in work RAM is what a read of the same address
/// returns.
pub proof fn lemma_ram_round_trip(bus: BusState, addr: u16, data: u8)
    requires
        bus.wf(),
        addr <= RAM_MIRRORS_END,
    ensures
        bus.after_write(addr, data).read_value(addr) == data,
{
    reveal(BusState::wf);
    reveal(BusState::read_value);
    reveal(BusState::after_write);
}

/// A write to work RAM is not seen by a read of any other cell, and not
/// by a read of program ROM.
pub proof fn lemma_ram_write_is_local(bus: BusState, addr: u16, data: u8, other: u16)
    requires
        bus.wf(),
        addr <= RAM_MIRRORS_END,
        BusState::reads_purely(other),
        other <= RAM_MIRRORS_END ==> other % 0x800 != addr % 0x800,
    ensures
        bus.after_write(addr, data).read_value(other) == bus.read_value(other),
{
    reveal(BusState::wf);
    reveal(BusState::read_value);
    reveal(BusState::after_write);
}

/// A read outside the PPU's register window changes nothing.
pub proof fn lemma_pure_read(bus: BusState, addr: u16)
    requires
        BusState::reads_purely(addr),
    ensures
        bus.after_read(addr) == bus,
{
    reveal(BusState::after_read);
}

/// A read changes none of the things no access changes.
pub proof fn lemma_read_continues(bus: BusState, addr: u16)
    ensures
        bus.after_read(addr).continues(bus),
        bus.after_read(addr).ram == bus.ram,
{
    reveal(BusState::wf);
    reveal(BusState::after_read);
}

/// The reads of a sprite DMA change none of the things no access
/// changes, and nothing at all when the page lies outside the PPU's
/// register window.
pub proof fn lemma_dma_reads_continue(bus: BusState, page: u8, n: nat)
    requires
        n <= 256,
    ensures
        bus.after_dma_reads(page, n).continues(bus),
        bus.after_dma_reads(page, n).ram == bus.ram,
        BusState::reads_purely((page * 256) as u16) ==> bus.after_dma_reads(page, n) == bus,
    decreases n,
{
    if n > 0 {
        lemma_dma_reads_continue(bus, page, (n - 1) as nat);
        let before = bus.after_dma_reads(page, (n - 1) as nat);
        lemma_read_continues(before, (page * 256 + n - 1) as u16);
        if BusState::reads_purely((page * 256) as u16) {
            assert(BusState::reads_purely((page * 256 + n - 1) as u16));
            lemma_pure_read(before, (page * 256 + n - 1) as u16);
        }
    }
}

/// A write changes none of the things no access changes.
pub proof fn lemma_write_continues(bus: BusState, addr: u16, data: u8)
    ensures
        bus.after_write(addr, data).continues(bus),
{
    reveal(BusState::wf);
    reveal(BusState::after_write);
    if addr == OAM_DMA {
        lemma_dma_reads_continue(bus, data, 256);
        assert(bus.after_oam_dma(data).ppu.oam.len() == 256);
    }
}

/// A sprite DMA with the sprite pointer at zero leaves in sprite memory,
/// cell for cell, the 256 bytes the bus returns for the page. For a page
/// outside the PPU's register window those are the bytes a read of each
/// address returns before the transfer, and nothing but sprite memory and
/// the record of the page changes.
pub proof fn lemma_oam_dma(bus: BusState, page: u8)
    requires
        bus.ppu.oam_addr == 0,
    ensures
        bus.after_write(OAM_DMA, page).ppu.oam == bus.dma_bytes(page),
        BusState::reads_purely((page * 256) as u16) ==> forall|k: int|
            0 <= k < 256 ==> #[trigger] bus.after_write(OAM_DMA, page).ppu.oam[k]
                == bus.read_value((page * 256 + k) as u16),
{
    reveal(BusState::after_write);
    let data = bus.dma_bytes(page);
    assert(bus.after_oam_dma(page).ppu.oam =~= data) by {
        lemma_dma_reads_continue(bus, page, 256);
        let read = bus.after_dma_reads(page, 256);
        assert(read.ppu.oam_addr == bus.ppu.oam_addr) by {
            lemma_dma_keeps_sprite_pointer(bus, page, 256);
        }
    }
    if BusState::reads_purely((page * 256) as u16) {
        assert forall|k: int| 0 <= k < 256 implies #[trigger] bus.after_write(
            OAM_DMA,
            page,
        ).ppu.oam[k] == bus.read_value((page * 256 + k) as u16) by {
            lemma_dma_reads_continue(bus, page, k as nat);
        }
    }
}

/// The reads of a sprite DMA leave the sprite pointer alone.
proof fn lemma_dma_keeps_sprite_pointer(bus: BusState, page: u8, n: nat)
    ensures
        bus.after_dma_reads(page, n).ppu.oam_addr == bus.ppu.oam_addr,
    decreases n,
{
    reveal(BusState::after_read);
    if n > 0 {
        lemma_dma_keeps_sprite_pointer(bus, page, (n - 1) as nat);
    }
}

/// A store to program ROM changes no memory and records the fault, unless
/// an earlier fault is still recorded.
pub proof fn lemma_rom_is_read_only(bus: BusState, addr: u16, data: u8)
    requires
        addr >= PRG_ROM,
    ensures
        bus.after_write(addr, data) == bus.flagged(crate::error::NesError::WriteToRom),
        bus.after_write(addr, data).fault is Some,
        forall|other: u16| bus.after_write(addr, data).read_value(other) == bus.read_value(other),
{
    reveal(BusState::after_write);
    reveal(BusState::read_value);
}

} // verus!
