//! The picture processing unit: its register file, the memory behind it,
//! and the scanline clock.

pub mod laws;

use vstd::prelude::*;
use crate::cartridge::Mirroring;

verus! {

/// Dots in one scanline.
pub const DOTS_PER_SCANLINE: usize = 341;

/// Scanlines in one frame.
pub const SCANLINES_PER_FRAME: usize = 262;

/// The scanline on which vertical blank begins.
pub const VBLANK_SCANLINE: usize = 241;

/// First address of the nametable region of PPU address space.
pub const NAMETABLE_BASE: u16 = 0x2000;

/// First address of the palette region of PPU address space.
pub const PALETTE_BASE: u16 = 0x3F00;

/// The two-write address latch behind `$2006`, shared with `$2005`.
#[derive(Clone, Copy, Debug)]
pub struct AddrRegister {
    /// High byte, then low byte.
    pub value: (u8, u8),
    /// `true` while the next write is the first of a pair.
    pub hi_ptr: bool,
}

impl AddrRegister {
    /// The latched address: fourteen bits, whatever the bytes hold.
    pub open spec fn addr(self) -> int {
        (self.value.0 as int % 64) * 256 + self.value.1
    }

    /// The register after `data` is written to it: the first write of a
    /// pair replaces the high six bits, the second the low byte.
    pub open spec fn updated(self, data: u8) -> AddrRegister {
        if self.hi_ptr {
            AddrRegister { value: (data % 64, self.value.1), hi_ptr: false }
        } else {
            AddrRegister { value: (self.value.0 % 64, data), hi_ptr: true }
        }
    }

    /// The register after its address moved on by `inc`, wrapping at 14 bits.
    pub open spec fn incremented(self, inc: u8) -> AddrRegister {
        let next = (self.addr() + inc) % 0x4000;
        AddrRegister { value: ((next / 256) as u8, (next % 256) as u8), hi_ptr: self.hi_ptr }
    }

    /// The register with its write toggle flipped.
    pub open spec fn toggled(self) -> AddrRegister {
        AddrRegister { value: self.value, hi_ptr: !self.hi_ptr }
    }

    /// The register waiting for the first write of a pair.
    pub open spec fn unlatched(self) -> AddrRegister {
        AddrRegister { value: self.value, hi_ptr: true }
    }

    pub fn new() -> (r: Self)
        ensures
            r == (AddrRegister { value: (0, 0), hi_ptr: true }),
            r.addr() == 0,
    {
        AddrRegister { value: (0, 0), hi_ptr: true }
    }

    fn set(&mut self, data: u16)
        ensures
            final(self).value == ((data / 256) as u8, (data % 256) as u8),
            final(self).hi_ptr == old(self).hi_ptr,
    {
        self.value.0 = (data / 256) as u8;
        self.value.1 = (data % 256) as u8;
    }

    /// Takes one write to the address port.
    pub fn update(&mut self, data: u8)
        ensures
            *final(self) == old(self).updated(data),
    {
        if self.hi_ptr {
            self.value.0 = data % 64;
        } else {
            self.value.0 = self.value.0 % 64;
            self.value.1 = data;
        }
        self.hi_ptr = !self.hi_ptr;
    }

    /// Moves the address on after an access to the data port.
    pub fn increment(&mut self, inc: u8)
        ensures
            *final(self) == old(self).incremented(inc),
            final(self).addr() == (old(self).addr() + inc) % 0x4000,
    {
        let next: u16 = (self.get() + inc as u16) % 0x4000;
        self.set(next);
    }

    /// Makes the next write the first of a pair.
    pub fn reset_latch(&mut self)
        ensures
            *final(self) == old(self).unlatched(),
    {
        self.hi_ptr = true;
    }

    /// Flips the write toggle without touching the address.
    pub fn toggle_latch(&mut self)
        ensures
            *final(self) == old(self).toggled(),
    {
        self.hi_ptr = !self.hi_ptr;
    }

    /// The latched 14-bit address.
    pub fn get(&self) -> (a: u16)
        ensures
            a == self.addr(),
            a < 0x4000,
    {
        (self.value.0 % 64) as u16 * 256 + self.value.1 as u16
    }
}

/// The scroll register `$2005`: two writes fill it, X first.
#[derive(Clone, Copy, Debug, PartialEq, Eq, Structural)]
pub struct ScrollRegister {
    pub scroll_x: u8,
    pub scroll_y: u8,
}

/// The status register `$2002`: only its three high bits exist.
#[derive(Clone, Copy, Debug, PartialEq, Eq, Structural)]
pub struct Status {
    pub bits: u8,
}

impl Status {
    pub const V_BLANK: u8 = 0b1000_0000;

    pub const SPRITE_0_HIT: u8 = 0b0100_0000;

    pub const SPRITE_OVERFLOW: u8 = 0b0010_0000;

    /// Every bit the register implements.
    pub const ALL: u8 = 0b1110_0000;

    pub open spec fn has(self, flags: u8) -> bool {
        self.bits & flags == flags
    }

    pub open spec fn with(self, flags: u8) -> Status {
        Status { bits: self.bits | flags }
    }

    pub open spec fn without(self, flags: u8) -> Status {
        Status { bits: self.bits & !flags }
    }

    pub fn new() -> (r: Self)
        ensures
            r.bits == 0,
    {
        Status { bits: 0 }
    }

    /// Keeps the bits of `bits` that the register implements.
    pub fn from_bits_truncate(bits: u8) -> (r: Self)
        ensures
            r.bits == bits & Status::ALL,
    {
        Status { bits: bits & Status::ALL }
    }

    pub fn bits(&self) -> (b: u8)
        ensures
            b == self.bits,
    {
        self.bits
    }

    /// Whether every bit of `flags` is set.
    pub fn contains(&self, flags: u8) -> (b: bool)
        ensures
            b == self.has(flags),
    {
        self.bits & flags == flags
    }

    pub fn insert(&mut self, flags: u8)
        ensures
            *final(self) == old(self).with(flags),
    {
        self.bits = self.bits | flags;
    }

    pub fn remove(&mut self, flags: u8)
        ensures
            *final(self) == old(self).without(flags),
    {
        self.bits = self.bits & !flags;
    }

    /// Sets the bits of `flags` when `value` holds, clears them otherwise.
    pub fn set(&mut self, flags: u8, value: bool)
        ensures
            *final(self) == if value {
                old(self).with(flags)
            } else {
                old(self).without(flags)
            },
    {
        if value {
            self.insert(flags);
        } else {
            self.remove(flags);
        }
    }
}

/// The control register `$2000`.
#[derive(Clone, Copy, Debug, PartialEq, Eq, Structural)]
pub struct ControlRegister {
    pub bits: u8,
}

impl ControlRegister {
    pub const NAMETABLE1: u8 = 0b0000_0001;

    pub const NAMETABLE2: u8 = 0b0000_0010;

    pub const VRAM_ADD_INCREMENT: u8 = 0b0000_0100;

    pub const SPRITE_PATTERN_ADDR: u8 = 0b0000_1000;

    pub const BACKROUND_PATTERN_ADDR: u8 = 0b0001_0000;

    pub const SPRITE_SIZE: u8 = 0b0010_0000;

    pub const MASTER_SLAVE_SELECT: u8 = 0b0100_0000;

    pub const GENERATE_NMI: u8 = 0b1000_0000;

    pub open spec fn has(self, flags: u8) -> bool {
        self.bits & flags == flags
    }

    /// Base of the background pattern table: `$1000` when the flag is set.
    pub open spec fn pattern_base(self) -> u16 {
        if self.has(ControlRegister::BACKROUND_PATTERN_ADDR) {
            0x1000
        } else {
            0
        }
    }

    /// How far the data port moves the address: 32 when the flag is set.
    pub open spec fn step(self) -> u8 {
        if self.has(ControlRegister::VRAM_ADD_INCREMENT) {
            32
        } else {
            1
        }
    }

    pub fn new() -> (r: Self)
        ensures
            r.bits == 0,
    {
        ControlRegister { bits: 0 }
    }

    pub fn from_bits_truncate(bits: u8) -> (r: Self)
        ensures
            r.bits == bits,
    {
        ControlRegister { bits }
    }

    pub fn bits(&self) -> (b: u8)
        ensures
            b == self.bits,
    {
        self.bits
    }

    /// Whether every bit of `flags` is set.
    pub fn contains(&self, flags: u8) -> (b: bool)
        ensures
            b == self.has(flags),
    {
        self.bits & flags == flags
    }

    pub fn bknd_pattern_addr(&self) -> (a: u16)
        ensures
            a == self.pattern_base(),
    {
        if self.contains(ControlRegister::BACKROUND_PATTERN_ADDR) {
            0x1000
        } else {
            0
        }
    }

    pub fn vram_addr_increment(&self) -> (inc: u8)
        ensures
            inc == self.step(),
    {
        if !self.contains(ControlRegister::VRAM_ADD_INCREMENT) {
            1
        } else {
            32
        }
    }

    /// Replaces all eight bits.
    pub fn update(&mut self, data: u8)
        ensures
            final(self).bits == data,
    {
        self.bits = data;
    }
}

/// Where a nametable address lands in video memory: the address is reduced
/// to the 4 KiB nametable window and its four 1 KiB pages are folded as
/// the mirroring says. Horizontal folds pages 1 and 3 onto 0 and 2,
/// vertical folds pages 2 and 3 onto 0 and 1, four-screen folds nothing.
pub open spec fn mirrored(mirroring: Mirroring, addr: u16) -> int {
    let index = addr as int % 0x1000;
    match mirroring {
        Mirroring::HORIZONTAL => (index / 0x800) * 0x400 + index % 0x400,
        Mirroring::VERTICAL => index % 0x800,
        Mirroring::FOUR_SCREEN => index,
    }
}

/// Where a palette address lands in the 32-byte palette: entries `$10`,
/// `$14`, `$18` and `$1C` are the same cells as `$00`, `$04`, `$08`, `$0C`.
pub open spec fn palette_index(addr: u16) -> int {
    let i = addr as int % 32;
    if i >= 16 && i % 4 == 0 {
        i - 16
    } else {
        i
    }
}

/// The PPU as a mathematical value.
pub struct PpuState {
    pub chr: Seq<u8>,
    pub mirroring: Mirroring,
    pub palette: Seq<u8>,
    pub vram: Seq<u8>,
    pub oam: Seq<u8>,
    pub ctrl: ControlRegister,
    pub mask: u8,
    pub status: Status,
    pub oam_addr: u8,
    pub oam_dma: u8,
    pub scroll: ScrollRegister,
    pub addr: AddrRegister,
    pub buffer: u8,
    pub dot: nat,
    pub scanline: nat,
    pub nmi: bool,
}

impl PpuState {
    /// The memories have their sizes and the clock is inside the frame.
    pub open spec fn wf(self) -> bool {
        &&& self.palette.len() == 32
        &&& self.vram.len() == 2048
        &&& self.oam.len() == 256
        &&& self.dot < DOTS_PER_SCANLINE
        &&& self.scanline < SCANLINES_PER_FRAME
    }

    /// The pattern byte at `addr`; zero where the cartridge has none.
    pub open spec fn pattern_byte(self, addr: int) -> u8 {
        if 0 <= addr < self.chr.len() {
            self.chr[addr]
        } else {
            0
        }
    }

    /// The nametable byte behind `addr`; zero where four-screen mirroring
    /// points past the console's own 2 KiB.
    pub open spec fn nametable_byte(self, addr: u16) -> u8 {
        let i = mirrored(self.mirroring, addr);
        if i < 2048 {
            self.vram[i]
        } else {
            0
        }
    }

    /// After a write to `$2000`. Switching NMI generation on while the
    /// vertical-blank flag is up raises the interrupt at once.
    pub open spec fn after_write_ctrl(self, value: u8) -> PpuState {
        let ctrl = ControlRegister { bits: value };
        let raise = !self.ctrl.has(ControlRegister::GENERATE_NMI) && ctrl.has(
            ControlRegister::GENERATE_NMI,
        ) && self.status.has(Status::V_BLANK);
        PpuState { ctrl, nmi: self.nmi || raise, ..self }
    }

    pub open spec fn after_write_mask(self, value: u8) -> PpuState {
        PpuState { mask: value, ..self }
    }

    /// After a read of `$2002`: vertical blank is acknowledged and the
    /// write toggle starts over.
    pub open spec fn after_read_status(self) -> PpuState {
        PpuState {
            status: self.status.without(Status::V_BLANK),
            addr: self.addr.unlatched(),
            ..self
        }
    }

    pub open spec fn after_write_oam_addr(self, value: u8) -> PpuState {
        PpuState { oam_addr: value, ..self }
    }

    /// What a read of `$2004` returns.
    pub open spec fn oam_value(self) -> u8 {
        self.oam[self.oam_addr as int]
    }

    /// After a write to `$2004`: the byte is stored and the pointer moves.
    pub open spec fn after_write_oam_data(self, value: u8) -> PpuState {
        PpuState {
            oam: self.oam.update(self.oam_addr as int, value),
            oam_addr: ((self.oam_addr + 1) % 256) as u8,
            ..self
        }
    }

    /// After a write to `$2005`: the first write of a pair is the X scroll,
    /// the second the Y scroll.
    pub open spec fn after_write_scroll(self, value: u8) -> PpuState {
        PpuState {
            scroll: if self.addr.hi_ptr {
                ScrollRegister { scroll_x: value, scroll_y: self.scroll.scroll_y }
            } else {
                ScrollRegister { scroll_x: self.scroll.scroll_x, scroll_y: value }
            },
            addr: self.addr.toggled(),
            ..self
        }
    }

    pub open spec fn after_write_ppu_addr(self, value: u8) -> PpuState {
        PpuState { addr: self.addr.updated(value), ..self }
    }

    /// What a read of `$2007` returns: the palette answers at once,
    /// everything below it answers with the byte buffered by the read before.
    pub open spec fn data_value(self) -> u8 {
        let a = self.addr.addr();
        if a >= PALETTE_BASE {
            self.palette[palette_index(a as u16)]
        } else {
            self.buffer
        }
    }

    /// What a read of `$2007` leaves in the buffer: the pattern byte, or
    /// the nametable byte (for a palette address, the one mirrored beneath).
    pub open spec fn data_refill(self) -> u8 {
        let a = self.addr.addr();
        if a < NAMETABLE_BASE {
            self.pattern_byte(a)
        } else {
            self.nametable_byte(a as u16)
        }
    }

    pub open spec fn after_read_data(self) -> PpuState {
        PpuState {
            buffer: self.data_refill(),
            addr: self.addr.incremented(self.ctrl.step()),
            ..self
        }
    }

    /// After a write to `$2007`. Pattern memory is ROM and keeps its
    /// contents; the address moves on in every case.
    pub open spec fn after_write_data(self, value: u8) -> PpuState {
        let a = self.addr.addr();
        let addr = self.addr.incremented(self.ctrl.step());
        if a < NAMETABLE_BASE {
            PpuState { addr, ..self }
        } else if a < PALETTE_BASE {
            let i = mirrored(self.mirroring, a as u16);
            if i < 2048 {
                PpuState { vram: self.vram.update(i, value), addr, ..self }
            } else {
                PpuState { addr, ..self }
            }
        } else {
            PpuState { palette: self.palette.update(palette_index(a as u16), value), addr, ..self }
        }
    }

    /// After a sprite DMA of `data`: byte `i` lands `i` cells past the
    /// sprite pointer, wrapping inside the 256 cells.
    pub open spec fn after_oam_dma(self, data: Seq<u8>) -> PpuState {
        PpuState {
            oam: Seq::new(256, |j: int| data[(j - self.oam_addr) % 256]),
            ..self
        }
    }

    /// Whether `dots` more dots end the frame.
    pub open spec fn completes_frame(self, dots: u8) -> bool {
        self.dot + dots >= DOTS_PER_SCANLINE && self.scanline + 1 >= SCANLINES_PER_FRAME
    }

    /// After `dots` more dots. Crossing the end of a scanline starts the
    /// next one; entering scanline 241 raises vertical blank and, if
    /// enabled, the interrupt; running past scanline 261 starts a new frame
    /// with vertical blank and sprite-0 hit cleared.
    pub open spec fn ticked(self, dots: u8) -> PpuState {
        let dot = self.dot + dots;
        if dot < DOTS_PER_SCANLINE {
            PpuState { dot: dot as nat, ..self }
        } else {
            let dot = (dot - DOTS_PER_SCANLINE) as nat;
            let line = self.scanline + 1;
            let status = if line == VBLANK_SCANLINE {
                self.status.with(Status::V_BLANK)
            } else {
                self.status
            };
            let nmi = self.nmi || (line == VBLANK_SCANLINE && self.ctrl.has(
                ControlRegister::GENERATE_NMI,
            ));
            if line >= SCANLINES_PER_FRAME {
                PpuState {
                    dot,
                    scanline: 0,
                    status: status.without(Status::V_BLANK).without(Status::SPRITE_0_HIT),
                    nmi,
                    ..self
                }
            } else {
                PpuState { dot, scanline: line, status, nmi, ..self }
            }
        }
    }

    pub open spec fn after_poll_nmi(self) -> PpuState {
        PpuState { nmi: false, ..self }
    }
}

/// The picture processing unit.
#[derive(Clone)]
pub struct NesPPU {
    pub mirroring: Mirroring,
    /// Palette memory, `$3F00..$4000`.
    pub palette_table: [u8; 32],
    pub ctrl: ControlRegister,
    pub mask: u8,
    pub status: Status,
    pub oam_addr: u8,
    pub oam_data: [u8; 256],
    pub scroll: ScrollRegister,
    pub addr: AddrRegister,
    /// The page of the last sprite DMA.
    pub oam_dma: u8,
    /// Nametable memory, `$2000..$3F00`.
    pub vram: [u8; 2048],
    /// Pattern memory, `$0000..$2000`.
    pub chr_rom: Vec<u8>,
    pub internal_data_buf: u8,
    /// Dot inside the scanline.
    pub cycles: usize,
    pub scanline: usize,
    /// An NMI is waiting for the CPU.
    pub nmi_interrupt: bool,
}

impl View for NesPPU {
    type V = PpuState;

    open spec fn view(&self) -> PpuState {
        PpuState {
            chr: self.chr_rom@,
            mirroring: self.mirroring,
            palette: self.palette_table@,
            vram: self.vram@,
            oam: self.oam_data@,
            ctrl: self.ctrl,
            mask: self.mask,
            status: self.status,
            oam_addr: self.oam_addr,
            oam_dma: self.oam_dma,
            scroll: self.scroll,
            addr: self.addr,
            buffer: self.internal_data_buf,
            dot: self.cycles as nat,
            scanline: self.scanline as nat,
            nmi: self.nmi_interrupt,
        }
    }
}

impl NesPPU {
    /// The clock is inside the frame.
    pub open spec fn wf(&self) -> bool {
        self@.wf()
    }

    /// The PPU at power-on: blank memories, registers cleared, the write
    /// toggle expecting a first write, the clock at the first dot of the
    /// first scanline.
    pub open spec fn power_on(chr: Seq<u8>, mirroring: Mirroring) -> PpuState {
        PpuState {
            chr,
            mirroring,
            palette: Seq::new(32, |i: int| 0u8),
            vram: Seq::new(2048, |i: int| 0u8),
            oam: Seq::new(256, |i: int| 0u8),
            ctrl: ControlRegister { bits: 0 },
            mask: 0,
            status: Status { bits: 0 },
            oam_addr: 0,
            oam_dma: 0,
            scroll: ScrollRegister { scroll_x: 0, scroll_y: 0 },
            addr: AddrRegister { value: (0, 0), hi_ptr: true },
            buffer: 0,
            dot: 0,
            scanline: 0,
            nmi: false,
        }
    }

    /// A PPU at power-on over the given pattern memory.
    pub fn new(chr_rom: Vec<u8>, mirroring: Mirroring) -> (ppu: Self)
        ensures
            ppu.wf(),
            ppu@ == Self::power_on(chr_rom@, mirroring),
    {
        let ppu = NesPPU {
            chr_rom,
            mirroring,
            vram: [0u8; 2048],
            oam_dma: 0,
            palette_table: [0u8; 32],
            addr: AddrRegister::new(),
            ctrl: ControlRegister::new(),
            internal_data_buf: 0,
            oam_addr: 0,
            status: Status::new(),
            scroll: ScrollRegister { scroll_x: 0, scroll_y: 0 },
            oam_data: [0u8; 256],
            mask: 0,
            cycles: 0,
            scanline: 0,
            nmi_interrupt: false,
        };
        assert(ppu@.palette =~= Seq::new(32, |i: int| 0u8));
        assert(ppu@.vram =~= Seq::new(2048, |i: int| 0u8));
        assert(ppu@.oam =~= Seq::new(256, |i: int| 0u8));
        ppu
    }

    /// Advances the clock by `cycles` dots and says whether that completed
    /// a frame.
    pub fn tick(&mut self, cycles: u8) -> (frame: bool)
        requires
            old(self).wf(),
        ensures
            final(self).wf(),
            final(self)@ == old(self)@.ticked(cycles),
            frame == old(self)@.completes_frame(cycles),
    {
        self.cycles += cycles as usize;
        if self.cycles >= DOTS_PER_SCANLINE {
            self.cycles = self.cycles - DOTS_PER_SCANLINE;
            self.scanline += 1;
            if self.scanline == VBLANK_SCANLINE {
                self.status.insert(Status::V_BLANK);
                if self.ctrl.contains(ControlRegister::GENERATE_NMI) {
                    self.nmi_interrupt = true;
                }
            }
            if self.scanline >= SCANLINES_PER_FRAME {
                self.scanline = 0;
                self.status.remove(Status::V_BLANK);
                self.status.remove(Status::SPRITE_0_HIT);
                return true;
            }
        }
        false
    }

    /// Whether an NMI is waiting; the request is taken off the PPU.
    pub fn pull_nmi_interrupt(&mut self) -> (pending: bool)
        ensures
            pending == old(self)@.nmi,
            final(self)@ == old(self)@.after_poll_nmi(),
    {
        let pending = self.nmi_interrupt;
        self.nmi_interrupt = false;
        pending
    }

    /// Reads `$2002`.
    pub fn read_status(&mut self) -> (bits: u8)
        ensures
            bits == old(self)@.status.bits,
            final(self)@ == old(self)@.after_read_status(),
    {
        let bits = self.status.bits();
        self.status.remove(Status::V_BLANK);
        self.addr.reset_latch();
        bits
    }

    /// Reads `$2004`.
    pub fn read_oam_data(&self) -> (value: u8)
        ensures
            value == self@.oam_value(),
    {
        self.oam_data[self.oam_addr as usize]
    }

    /// Writes `$2006`.
    pub fn write_to_ppu_addr(&mut self, value: u8)
        ensures
            final(self)@ == old(self)@.after_write_ppu_addr(value),
    {
        self.addr.update(value);
    }

    /// Index into `vram` of the nametable byte behind `addr`.
    pub fn mirror_vram_addr(&self, addr: u16) -> (index: u16)
        ensures
            index == mirrored(self.mirroring, addr),
            index < 0x1000,
            self.mirroring != Mirroring::FOUR_SCREEN ==> index < 2048,
    {
        let vram_index: u16 = addr % 0x1000;
        let name_table: u16 = vram_index / 0x400;
        match self.mirroring {
            Mirroring::VERTICAL => {
                if name_table >= 2 {
                    vram_index - 0x800
                } else {
                    vram_index
                }
            },
            Mirroring::HORIZONTAL => {
                if name_table == 1 || name_table == 2 {
                    vram_index - 0x400
                } else if name_table == 3 {
                    vram_index - 0x800
                } else {
                    vram_index
                }
            },
            Mirroring::FOUR_SCREEN => vram_index,
        }
    }

    /// Writes `$2001`.
    pub fn write_to_mask(&mut self, value: u8)
        ensures
            final(self)@ == old(self)@.after_write_mask(value),
    {
        self.mask = value;
    }

    /// Writes `$2005`.
    pub fn write_to_scroll(&mut self, value: u8)
        ensures
            final(self)@ == old(self)@.after_write_scroll(value),
    {
        if self.addr.hi_ptr {
            self.scroll.scroll_x = value;
        } else {
            self.scroll.scroll_y = value;
        }
        self.addr.toggle_latch();
    }

    /// Writes `$2003`.
    pub fn write_to_oam_addr(&mut self, value: u8)
        ensures
            final(self)@ == old(self)@.after_write_oam_addr(value),
    {
        self.oam_addr = value;
    }

    /// Writes `$2004`.
    pub fn write_to_oam_data(&mut self, value: u8)
        ensures
            final(self)@ == old(self)@.after_write_oam_data(value),
    {
        self.oam_data[self.oam_addr as usize] = value;
        self.oam_addr = self.oam_addr.wrapping_add(1);
    }

    /// Writes `$2000`.
    pub fn write_to_ctrl(&mut self, value: u8)
        ensures
            final(self)@ == old(self)@.after_write_ctrl(value),
    {
        let before = self.ctrl.contains(ControlRegister::GENERATE_NMI);
        self.ctrl.update(value);
        if !before && self.ctrl.contains(ControlRegister::GENERATE_NMI) && self.status.contains(
            Status::V_BLANK,
        ) {
            self.nmi_interrupt = true;
        }
    }

    /// Copies a page of sprite data into sprite memory, starting at the
    /// sprite pointer.
    pub fn write_oam_dma(&mut self, data: &[u8; 256])
        ensures
            final(self)@ == old(self)@.after_oam_dma(data@),
    {
        let ghost start = self.oam_addr as int;
        let ghost before = self@;
        let mut i: usize = 0;
        while i < 256
            invariant
                i <= 256,
                self.oam_addr == (start + i) % 256,
                self@ == (PpuState { oam: self@.oam, oam_addr: self.oam_addr, ..before }),
                forall|j: int|
                    0 <= j < 256 && (j - start) % 256 < i ==> self.oam_data@[j] == data@[(j
                        - start) % 256],
            decreases 256 - i,
        {
            self.oam_data[self.oam_addr as usize] = data[i];
            self.oam_addr = self.oam_addr.wrapping_add(1);
            i += 1;
        }
        assert(self@.oam =~= before.after_oam_dma(data@).oam);
    }

    fn increment_vram_addr(&mut self)
        ensures
            final(self)@ == (PpuState {
                addr: old(self).addr.incremented(old(self).ctrl.step()),
                ..old(self)@
            }),
    {
        self.addr.increment(self.ctrl.vram_addr_increment());
    }

    /// The pattern byte at `addr`; zero where the cartridge has none.
    fn read_chr(&self, addr: u16) -> (value: u8)
        ensures
            value == self@.pattern_byte(addr as int),
    {
        if (addr as usize) < self.chr_rom.len() {
            self.chr_rom[addr as usize]
        } else {
            0
        }
    }

    /// The nametable byte behind `addr`.
    fn read_nametable(&self, addr: u16) -> (value: u8)
        ensures
            value == self@.nametable_byte(addr),
    {
        let index: u16 = self.mirror_vram_addr(addr);
        if index < 2048 {
            self.vram[index as usize]
        } else {
            0
        }
    }

    /// Index into `palette_table` of the cell behind `addr`.
    fn mirror_palette_addr(addr: u16) -> (index: usize)
        ensures
            index == palette_index(addr),
            index < 32,
    {
        let i: u16 = addr % 32;
        if i >= 16 && i % 4 == 0 {
            (i - 16) as usize
        } else {
            i as usize
        }
    }

    /// Writes `$2007`.
    pub fn write_to_data(&mut self, value: u8)
        ensures
            final(self)@ == old(self)@.after_write_data(value),
    {
        let addr: u16 = self.addr.get();
        self.increment_vram_addr();
        if addr < NAMETABLE_BASE {
        } else if addr < PALETTE_BASE {
            let index: u16 = self.mirror_vram_addr(addr);
            if index < 2048 {
                self.vram[index as usize] = value;
            }
        } else {
            self.palette_table[Self::mirror_palette_addr(addr)] = value;
        }
    }

    /// What a read of `$2007` would return, without performing it.
    pub fn peek_data(&self) -> (value: u8)
        ensures
            value == self@.data_value(),
    {
        let addr: u16 = self.addr.get();
        if addr >= PALETTE_BASE {
            self.palette_table[Self::mirror_palette_addr(addr)]
        } else {
            self.internal_data_buf
        }
    }

    /// Reads `$2007`.
    pub fn read_data(&mut self) -> (value: u8)
        ensures
            value == old(self)@.data_value(),
            final(self)@ == old(self)@.after_read_data(),
    {
        let addr: u16 = self.addr.get();
        let value = self.peek_data();
        let refill = if addr < NAMETABLE_BASE {
            self.read_chr(addr)
        } else {
            self.read_nametable(addr)
        };
        self.increment_vram_addr();
        self.internal_data_buf = refill;
        value
    }
}

} // verus!
