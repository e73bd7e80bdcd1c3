//! Execution core of an NES emulator: cartridge images, the picture
//! processing unit, the CPU bus, and the 6502 interpreter that drives them.
//!
//! Every component carries a mathematical model of its state (`PpuState`,
//! `BusState`, `CpuState`), and the executable code is proved to follow
//! that model step for step. The `laws` modules hold what follows from the
//! models: mirroring, round trips, and the invariants of the run loop.

pub mod error;
pub mod cartridge;
pub mod ppu;
pub mod bus;
pub mod cpu;
pub mod render;

pub use error::NesError;
pub use cartridge::Rom;
