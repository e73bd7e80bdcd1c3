//! The CPU's view of the machine: 2 KiB of work RAM, the PPU's registers,
//! the stubbed sound and controller ports, and the cartridge's program ROM.

pub mod laws;

use vstd::prelude::*;
use crate::cartridge::Rom;
use crate::error::NesError;
use crate::ppu::NesPPU;
use crate::ppu::PpuState;

verus! {

/// Last address of the mirrored work RAM.
pub const RAM_MIRRORS_END: u16 = 0x1FFF;

/// First address of the PPU register window.
pub const PPU_REGISTERS: u16 = 0x2000;

/// Last address of the mirrored PPU register window.
pub const PPU_REGISTERS_MIRRORS_END: u16 = 0x3FFF;

/// The sprite DMA port.
pub const OAM_DMA: u16 = 0x4014;

/// First address of program ROM.
pub const PRG_ROM: u16 = 0x8000;

/// The CPU cycle count at power-on.
pub const POWER_ON_CYCLES: usize = 7;

/// The most CPU cycles one call of `Bus::tick` can take: three dots per
/// cycle must fit the PPU's eight-bit dot count.
pub const MAX_TICK: u8 = 85;

/// Byte-wide access to the CPU's address space.
pub trait Mem {
    fn mem_read(&mut self, addr: u16) -> u8;

    fn mem_write(&mut self, addr: u16, data: u8);
}

/// The bus as a mathematical value.
pub struct BusState {
    pub ram: Seq<u8>,
    pub prg: Seq<u8>,
    pub ppu: PpuState,
    pub cycles: usize,
    pub strict: bool,
    pub fault: Option<NesError>,
}

impl BusState {
    /// The memories have their sizes and the PPU's clock is inside the frame.
    #[verifier::opaque]
    pub open spec fn wf(self) -> bool {
        &&& self.ram.len() == 2048
        &&& self.ppu.wf()
    }

    /// The program ROM byte at `addr`. A single 16 KiB bank shows twice,
    /// at `$8000` and at `$C000`; where no ROM answers the byte is zero.
    pub open spec fn prg_byte(self, addr: u16) -> u8 {
        let offset = addr - PRG_ROM;
        let index = if self.prg.len() == 0x4000 {
            offset % 0x4000
        } else {
            offset
        };
        if 0 <= index < self.prg.len() {
            self.prg[index]
        } else {
            0
        }
    }

    /// The state with `error` recorded, unless an earlier fault already is.
    pub open spec fn flagged(self, error: NesError) -> BusState {
        if self.fault is None {
            BusState { fault: Some(error), ..self }
        } else {
            self
        }
    }

    /// The state after an access in the wrong direction to a PPU register:
    /// a fault in strict mode, nothing otherwise.
    pub open spec fn after_invalid_access(self) -> BusState {
        if self.strict {
            self.flagged(NesError::InvalidPpuAccess)
        } else {
            self
        }
    }

    /// The byte a read of `addr` returns.
    #[verifier::opaque]
    pub open spec fn read_value(self, addr: u16) -> u8 {
        if addr <= RAM_MIRRORS_END {
            self.ram[addr as int % 0x800]
        } else if addr <= PPU_REGISTERS_MIRRORS_END {
            let register = addr % 8;
            if register == 2 {
                self.ppu.status.bits
            } else if register == 4 {
                self.ppu.oam_value()
            } else if register == 7 {
                self.ppu.data_value()
            } else {
                0
            }
        } else if addr < PRG_ROM {
            0
        } else {
            self.prg_byte(addr)
        }
    }

    /// The state a read of `addr` leaves behind. Only the PPU's status and
    /// data ports change anything.
    #[verifier::opaque]
    pub open spec fn after_read(self, addr: u16) -> BusState {
        if PPU_REGISTERS <= addr <= PPU_REGISTERS_MIRRORS_END {
            let register = addr % 8;
            if register == 2 {
                BusState { ppu: self.ppu.after_read_status(), ..self }
            } else if register == 4 {
                self
            } else if register == 7 {
                BusState { ppu: self.ppu.after_read_data(), ..self }
            } else {
                self.after_invalid_access()
            }
        } else {
            self
        }
    }

    /// The state after the first `n` reads of a sprite DMA from `page`.
    pub open spec fn after_dma_reads(self, page: u8, n: nat) -> BusState
        decreases n,
    {
        if n == 0 {
            self
        } else {
            self.after_dma_reads(page, (n - 1) as nat).after_read((page * 256 + n - 1) as u16)
        }
    }

    /// Byte `k` of a sprite DMA from `page`: what the bus returns for
    /// address `page * 256 + k` once the `k` bytes before it were read.
    pub open spec fn dma_byte(self, page: u8, k: int) -> u8 {
        self.after_dma_reads(page, k as nat).read_value((page * 256 + k) as u16)
    }

    /// The 256 bytes of a sprite DMA from `page`.
    pub open spec fn dma_bytes(self, page: u8) -> Seq<u8> {
        Seq::new(256, |k: int| self.dma_byte(page, k))
    }

    /// The state after a sprite DMA from `page`.
    pub open spec fn after_oam_dma(self, page: u8) -> BusState {
        let read = self.after_dma_reads(page, 256);
        BusState {
            ppu: PpuState { oam_dma: page, ..read.ppu.after_oam_dma(self.dma_bytes(page)) },
            ..read
        }
    }

    /// The state a write of `data` to `addr` leaves behind.
    #[verifier::opaque]
    pub open spec fn after_write(self, addr: u16, data: u8) -> BusState {
        if addr <= RAM_MIRRORS_END {
            BusState { ram: self.ram.update(addr as int % 0x800, data), ..self }
        } else if addr <= PPU_REGISTERS_MIRRORS_END {
            let register = addr % 8;
            if register == 0 {
                BusState { ppu: self.ppu.after_write_ctrl(data), ..self }
            } else if register == 1 {
                BusState { ppu: self.ppu.after_write_mask(data), ..self }
            } else if register == 2 {
                self.after_invalid_access()
            } else if register == 3 {
                BusState { ppu: self.ppu.after_write_oam_addr(data), ..self }
            } else if register == 4 {
                BusState { ppu: self.ppu.after_write_oam_data(data), ..self }
            } else if register == 5 {
                BusState { ppu: self.ppu.after_write_scroll(data), ..self }
            } else if register == 6 {
                BusState { ppu: self.ppu.after_write_ppu_addr(data), ..self }
            } else {
                BusState { ppu: self.ppu.after_write_data(data), ..self }
            }
        } else if addr == OAM_DMA {
            self.after_oam_dma(data)
        } else if addr < PRG_ROM {
            self
        } else {
            self.flagged(NesError::WriteToRom)
        }
    }

    /// The state after `cycles` CPU cycles: the PPU runs three dots for
    /// each of them.
    pub open spec fn ticked(self, cycles: u8) -> BusState {
        BusState {
            cycles: self.cycles.wrapping_add(cycles as usize),
            ppu: self.ppu.ticked((3 * cycles) as u8),
            ..self
        }
    }

    /// Whether `cycles` more CPU cycles complete a frame.
    pub open spec fn completes_frame(self, cycles: u8) -> bool {
        self.ppu.completes_frame((3 * cycles) as u8)
    }

    pub open spec fn after_poll_nmi(self) -> BusState {
        BusState { ppu: self.ppu.after_poll_nmi(), ..self }
    }
}

/// The address-decoding fabric. It owns the work RAM, the cartridge and
/// the PPU.
pub struct Bus {
    pub cpu_vram: [u8; 2048],
    pub rom: Rom,
    pub ppu: NesPPU,
    /// CPU cycles since power-on.
    pub cycles: usize,
    /// In strict mode an access in the wrong direction to a PPU register
    /// is a fault; otherwise it reads as zero or is ignored.
    pub strict: bool,
    /// The first fault since the field was last cleared.
    pub fault: Option<NesError>,
}

impl View for Bus {
    type V = BusState;

    open spec fn view(&self) -> BusState {
        BusState {
            ram: self.cpu_vram@,
            prg: self.rom.prg_rom@,
            ppu: self.ppu@,
            cycles: self.cycles,
            strict: self.strict,
            fault: self.fault,
        }
    }
}

/// A copy of `bytes`.
fn copy_bytes(bytes: &Vec<u8>) -> (out: Vec<u8>)
    ensures
        out@ == bytes@,
{
    let mut out: Vec<u8> = Vec::new();
    let mut i: usize = 0;
    while i < bytes.len()
        invariant
            i <= bytes@.len(),
            out@ == bytes@.subrange(0, i as int),
        decreases bytes@.len() - i,
    {
        out.push(bytes[i]);
        i += 1;
        assert(out@ == bytes@.subrange(0, i as int));
    }
    out
}

impl Bus {
    pub open spec fn wf(&self) -> bool {
        self@.wf()
    }

    /// A bus around `rom`: blank RAM, a fresh PPU over the cartridge's
    /// character ROM and mirroring, permissive mode, no fault.
    pub fn new(rom: Rom) -> (bus: Bus)
        ensures
            bus.wf(),
            bus@.ram == Seq::new(2048, |i: int| 0u8),
            bus@.prg == rom.prg_rom@,
            bus.ppu@ == NesPPU::power_on(rom.chr_rom@, rom.screen_mirroring),
            bus@.cycles == POWER_ON_CYCLES,
            !bus@.strict,
            bus@.fault is None,
    {
        reveal(BusState::wf);
        let ppu = NesPPU::new(copy_bytes(&rom.chr_rom), rom.screen_mirroring);
        let bus = Bus {
            cpu_vram: [0u8; 2048],
            rom,
            ppu,
            cycles: POWER_ON_CYCLES,
            strict: false,
            fault: None,
        };
        assert(bus@.ram =~= Seq::new(2048, |i: int| 0u8));
        bus
    }

    fn read_prg_rom(&self, addr: u16) -> (value: u8)
        requires
            addr >= PRG_ROM,
        ensures
            value == self@.prg_byte(addr),
    {
        let mut offset: usize = (addr - PRG_ROM) as usize;
        if self.rom.prg_rom.len() == 0x4000 {
            offset = offset % 0x4000;
        }
        if offset < self.rom.prg_rom.len() {
            self.rom.prg_rom[offset]
        } else {
            0
        }
    }

    /// Records `error` unless an earlier fault already is recorded.
    fn flag(&mut self, error: NesError)
        ensures
            final(self)@ == old(self)@.flagged(error),
    {
        if self.fault.is_none() {
            self.fault = Some(error);
        }
    }

    fn invalid_access(&mut self)
        ensures
            final(self)@ == old(self)@.after_invalid_access(),
    {
        if self.strict {
            self.flag(NesError::InvalidPpuAccess);
        }
    }

    /// The byte a read of `addr` would return, without the read's effects.
    pub fn peek(&self, addr: u16) -> (value: u8)
        ensures
            value == self@.read_value(addr),
    {
        reveal(BusState::read_value);
        if addr <= RAM_MIRRORS_END {
            self.cpu_vram[(addr % 0x800) as usize]
        } else if addr <= PPU_REGISTERS_MIRRORS_END {
            let register: u16 = addr % 8;
            if register == 2 {
                self.ppu.status.bits()
            } else if register == 4 {
                self.ppu.read_oam_data()
            } else if register == 7 {
                self.ppu.peek_data()
            } else {
                0
            }
        } else if addr < PRG_ROM {
            0
        } else {
            self.read_prg_rom(addr)
        }
    }

    /// Runs the machine for `cycles` CPU cycles and says whether the PPU
    /// completed a frame in them.
    pub fn tick(&mut self, cycles: u8) -> (frame: bool)
        requires
            old(self).wf(),
            cycles <= MAX_TICK,
        ensures
            final(self).wf(),
            final(self)@ == old(self)@.ticked(cycles),
            frame == old(self)@.completes_frame(cycles),
    {
        reveal(BusState::wf);
        self.cycles = self.cycles.wrapping_add(cycles as usize);
        self.ppu.tick(cycles * 3)
    }

    /// Whether the PPU has an NMI waiting; the request is cleared.
    pub fn poll_nmi_status(&mut self) -> (pending: bool)
        ensures
            pending == old(self)@.ppu.nmi,
            final(self)@ == old(self)@.after_poll_nmi(),
            old(self).wf() ==> final(self).wf(),
    {
        reveal(BusState::wf);
        self.ppu.pull_nmi_interrupt()
    }

    /// Reads 256 bytes from `page` and hands them to the PPU's sprite memory.
    fn oam_dma(&mut self, page: u8)
        ensures
            final(self)@ == old(self)@.after_oam_dma(page),
            old(self).wf() ==> final(self).wf(),
    {
        reveal(BusState::wf);
        let mut buffer: [u8; 256] = [0u8; 256];
        let hi: u16 = page as u16 * 256;
        let mut i: usize = 0;
        while i < 256
            invariant
                i <= 256,
                hi == page * 256,
                self@ == old(self)@.after_dma_reads(page, i as nat),
                old(self).wf() ==> self.wf(),
                forall|k: int| 0 <= k < i ==> buffer@[k] == old(self)@.dma_byte(page, k),
            decreases 256 - i,
        {
            let value = self.mem_read(hi + i as u16);
            buffer[i] = value;
            i += 1;
        }
        assert(buffer@ =~= old(self)@.dma_bytes(page));
        self.ppu.write_oam_dma(&buffer);
        self.ppu.oam_dma = page;
    }
}

impl Mem for Bus {
    /// Reads the byte at `addr`, with the side effects the PPU's ports have.
    fn mem_read(&mut self, addr: u16) -> (value: u8)
        ensures
            value == old(self)@.read_value(addr),
            final(self)@ == old(self)@.after_read(addr),
            old(self).wf() ==> final(self).wf(),
    {
        reveal(BusState::wf);
        reveal(BusState::read_value);
        reveal(BusState::after_read);
        if PPU_REGISTERS <= addr && addr <= PPU_REGISTERS_MIRRORS_END {
            let register: u16 = addr % 8;
            if register == 2 {
                self.ppu.read_status()
            } else if register == 4 {
                self.ppu.read_oam_data()
            } else if register == 7 {
                self.ppu.read_data()
            } else {
                self.invalid_access();
                0
            }
        } else {
            self.peek(addr)
        }
    }

    /// Writes `data` to `addr`. A write to program ROM changes nothing and
    /// is recorded as a fault; writes to the sound and controller ports
    /// and to unmapped addresses are dropped.
    fn mem_write(&mut self, addr: u16, data: u8)
        ensures
            final(self)@ == old(self)@.after_write(addr, data),
            old(self).wf() ==> final(self).wf(),
    {
        reveal(BusState::wf);
        reveal(BusState::after_write);
        if addr <= RAM_MIRRORS_END {
            self.cpu_vram[(addr % 0x800) as usize] = data;
        } else if addr <= PPU_REGISTERS_MIRRORS_END {
            let register: u16 = addr % 8;
            if register == 0 {
                self.ppu.write_to_ctrl(data);
            } else if register == 1 {
                self.ppu.write_to_mask(data);
            } else if register == 2 {
                self.invalid_access();
            } else if register == 3 {
                self.ppu.write_to_oam_addr(data);
            } else if register == 4 {
                self.ppu.write_to_oam_data(data);
            } else if register == 5 {
                self.ppu.write_to_scroll(data);
            } else if register == 6 {
                self.ppu.write_to_ppu_addr(data);
            } else {
                self.ppu.write_to_data(data);
            }
        } else if addr == OAM_DMA {
            self.oam_dma(data);
        } else if addr < PRG_ROM {
        } else {
            self.flag(NesError::WriteToRom);
        }
    }
}

} // verus!
