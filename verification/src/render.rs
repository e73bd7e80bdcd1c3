//! Turning the PPU's memory into a picture.

pub mod frame;
pub mod palette;

use vstd::prelude::*;
use crate::ppu::NesPPU;
use crate::ppu::PpuState;
use crate::render::frame::show_tile;
use crate::render::frame::tile_rgb;
use crate::render::frame::Frame;
use crate::render::frame::HEIGHT;
use crate::render::frame::TILES_PER_ROW;
use crate::render::frame::TILE_ROWS;
use crate::render::frame::WIDTH;

verus! {

/// The colour of background pixel (`x`, `y`): the first nametable names
/// the tile of the pixel's cell, the control register names the pattern
/// bank, and the attribute table with the palette gives the colours.
pub open spec fn background_rgb(ppu: PpuState, x: int, y: int) -> (u8, u8, u8) {
    tile_rgb(
        ppu,
        ppu.ctrl.pattern_base() as int / 0x1000,
        ppu.vram[y / 8 * 32 + x / 8] as int,
        x / 8,
        y / 8,
        x % 8,
        y % 8,
    )
}

/// Draws the background of the first nametable into `frame`.
pub fn render(ppu: &NesPPU, frame: &mut Frame)
    requires
        old(frame).wf(),
    ensures
        final(frame).wf(),
        forall|x: int, y: int|
            0 <= x < WIDTH && 0 <= y < HEIGHT ==> #[trigger] final(frame).pixel(x, y)
                == background_rgb(ppu@, x, y),
{
    let bank: u16 = ppu.ctrl.bknd_pattern_addr() / 0x1000;
    let mut i: usize = 0;
    while i < TILES_PER_ROW * TILE_ROWS
        invariant
            i <= TILES_PER_ROW * TILE_ROWS,
            frame.wf(),
            bank == ppu@.ctrl.pattern_base() as int / 0x1000,
            bank <= 1,
            forall|x: int, y: int|
                0 <= x < WIDTH && 0 <= y < HEIGHT && y / 8 * 32 + x / 8 < i
                    ==> #[trigger] frame.pixel(x, y) == background_rgb(ppu@, x, y),
        decreases TILES_PER_ROW * TILE_ROWS - i,
    {
        let tile_idx: usize = ppu.vram[i] as usize;
        let tile_x: usize = i % 32;
        let tile_y: usize = i / 32;
        show_tile(ppu, frame, bank, tile_x, tile_y, tile_idx);
        i += 1;
    }
}

} // verus!
