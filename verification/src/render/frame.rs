//! The frame buffer and the drawing of background tiles into it.

use vstd::prelude::*;
use crate::ppu::NesPPU;
use crate::ppu::PpuState;
use crate::render::palette::system_color;
use crate::render::palette::system_rgb;

verus! {

/// Width of a frame in pixels.
pub const WIDTH: usize = 256;

/// Height of a frame in pixels.
pub const HEIGHT: usize = 240;

/// Bytes one row of pixels takes.
pub const ROW_BYTES: usize = 768;

/// Bytes a whole frame takes.
pub const FRAME_BYTES: usize = 184320;

/// Tiles in one row of the background.
pub const TILES_PER_ROW: usize = 32;

/// Rows of tiles in the background.
pub const TILE_ROWS: usize = 30;

/// First byte of the attribute table inside a nametable.
pub const ATTRIBUTE_TABLE: usize = 0x3C0;

/// A picture of 256 by 240 pixels, three bytes (red, green, blue) each,
/// row after row.
pub struct Frame {
    pub data: Vec<u8>,
}

/// Where pixel (`x`, `y`) starts in a frame's bytes.
pub open spec fn pixel_base(x: int, y: int) -> int {
    y * ROW_BYTES + x * 3
}

/// Bit `k` of `value`.
pub open spec fn bit_of(value: u8, k: u8) -> u8 {
    (value >> k) & 1
}

/// The colour index, 0 to 3, of pixel (`x`, `y`) inside the tile at
/// `tile_idx` of pattern bank `bank`: the row's byte in the first plane
/// gives the high bit, the byte eight further on gives the low bit, and
/// the leftmost pixel sits in bit 7.
pub open spec fn tile_value(ppu: PpuState, bank: int, tile_idx: int, x: int, y: int) -> u8 {
    let at = bank * 0x1000 + tile_idx * 16 + y;
    (bit_of(ppu.pattern_byte(at), (7 - x) as u8) << 1) | bit_of(
        ppu.pattern_byte(at + 8),
        (7 - x) as u8,
    )
}

/// The attribute byte that governs tile (`tile_x`, `tile_y`): one byte
/// for each block of four by four tiles.
pub open spec fn attribute_byte(ppu: PpuState, tile_x: int, tile_y: int) -> u8 {
    ppu.vram[ATTRIBUTE_TABLE + tile_x / 4 + tile_y / 4 * 8]
}

/// Which of the four background palettes tile (`tile_x`, `tile_y`) uses:
/// two bits of the attribute byte, chosen by the tile's quadrant inside
/// its block.
pub open spec fn palette_choice(ppu: PpuState, tile_x: int, tile_y: int) -> u8 {
    let attr = attribute_byte(ppu, tile_x, tile_y);
    if tile_x % 4 / 2 == 0 && tile_y % 4 / 2 == 0 {
        attr & 0b11
    } else if tile_x % 4 / 2 == 1 && tile_y % 4 / 2 == 0 {
        (attr >> 2) & 0b11
    } else if tile_x % 4 / 2 == 0 && tile_y % 4 / 2 == 1 {
        (attr >> 4) & 0b11
    } else {
        (attr >> 6) & 0b11
    }
}

/// The system colour of a pixel with colour index `value` in a tile that
/// uses background palette `choice`. Index 0 is the backdrop colour,
/// whatever the palette.
pub open spec fn palette_entry(ppu: PpuState, choice: u8, value: u8) -> u8 {
    if value == 0 {
        ppu.palette[0]
    } else if value == 1 {
        ppu.palette[1 + choice * 4]
    } else if value == 2 {
        ppu.palette[2 + choice * 4]
    } else {
        ppu.palette[3 + choice * 4]
    }
}

/// The colour of pixel (`x`, `y`) of the tile at `tile_idx` of bank
/// `bank`, drawn at tile position (`tile_x`, `tile_y`).
pub open spec fn tile_rgb(
    ppu: PpuState,
    bank: int,
    tile_idx: int,
    tile_x: int,
    tile_y: int,
    x: int,
    y: int,
) -> (u8, u8, u8) {
    system_rgb(
        palette_entry(
            ppu,
            palette_choice(ppu, tile_x, tile_y),
            tile_value(ppu, bank, tile_idx, x, y),
        ),
    )
}

impl Frame {
    /// The buffer holds exactly one frame.
    pub open spec fn wf(&self) -> bool {
        self.data@.len() == FRAME_BYTES
    }

    /// The colour of pixel (`x`, `y`).
    pub open spec fn pixel(&self, x: int, y: int) -> (u8, u8, u8) {
        let base = pixel_base(x, y);
        (self.data@[base], self.data@[base + 1], self.data@[base + 2])
    }

    /// A black frame.
    pub fn new() -> (frame: Self)
        ensures
            frame.wf(),
            forall|i: int| 0 <= i < FRAME_BYTES ==> frame.data@[i] == 0,
    {
        let mut data: Vec<u8> = Vec::new();
        let mut i: usize = 0;
        while i < FRAME_BYTES
            invariant
                i <= FRAME_BYTES,
                data@.len() == i,
                forall|j: int| 0 <= j < i ==> data@[j] == 0,
            decreases FRAME_BYTES - i,
        {
            data.push(0);
            i += 1;
        }
        Frame { data }
    }

    /// Colours pixel (`x`, `y`). A pixel whose three bytes do not all lie
    /// inside the buffer is left out.
    pub fn set_pixel(&mut self, x: usize, y: usize, rgb: (u8, u8, u8))
        ensures
            final(self).data@ == (if pixel_base(x as int, y as int) + 2 < old(self).data@.len() {
                old(self).data@.update(pixel_base(x as int, y as int), rgb.0).update(
                    pixel_base(x as int, y as int) + 1,
                    rgb.1,
                ).update(pixel_base(x as int, y as int) + 2, rgb.2)
            } else {
                old(self).data@
            }),
    {
        let len: usize = self.data.len();
        if x >= len || y >= len {
            assert(pixel_base(x as int, y as int) >= len) by (nonlinear_arith)
                requires
                    x >= len || y >= len,
                    x >= 0,
                    y >= 0,
            ;
            return ;
        }
        let base: u128 = y as u128 * ROW_BYTES as u128 + x as u128 * 3;
        if base + 2 < len as u128 {
            let at: usize = base as usize;
            self.data[at] = rgb.0;
            self.data[at + 1] = rgb.1;
            self.data[at + 2] = rgb.2;
        }
    }
}

/// Two bits cut out of a byte are a number below four.
proof fn lemma_two_bits(attr: u8)
    ensures
        attr & 0b11 <= 3,
        (attr >> 2) & 0b11 <= 3,
        (attr >> 4) & 0b11 <= 3,
        (attr >> 6) & 0b11 <= 3,
{
    assert(attr & 0b11 <= 3) by (bit_vector);
    assert((attr >> 2) & 0b11 <= 3) by (bit_vector);
    assert((attr >> 4) & 0b11 <= 3) by (bit_vector);
    assert((attr >> 6) & 0b11 <= 3) by (bit_vector);
}

/// Two bits put side by side are a number below four.
proof fn lemma_tile_value(upper: u8, lower: u8, shift: u8)
    ensures
        (((upper >> shift) & 1) << 1) | ((lower >> shift) & 1) <= 3,
{
    assert((((upper >> shift) & 1) << 1) | ((lower >> shift) & 1) <= 3) by (bit_vector);
}

/// Colouring one pixel of a whole frame changes that pixel and no other.
proof fn lemma_pixel_set(before: Frame, after: Frame, x: int, y: int, rgb: (u8, u8, u8))
    requires
        before.wf(),
        0 <= x < WIDTH,
        0 <= y < HEIGHT,
        after.data@ == before.data@.update(pixel_base(x, y), rgb.0).update(
            pixel_base(x, y) + 1,
            rgb.1,
        ).update(pixel_base(x, y) + 2, rgb.2),
    ensures
        after.wf(),
        after.pixel(x, y) == rgb,
        forall|px: int, py: int|
            0 <= px < WIDTH && 0 <= py < HEIGHT && !(px == x && py == y) ==> #[trigger] after.pixel(
                px,
                py,
            ) == before.pixel(px, py),
{
}

/// The four colours a background tile at (`tile_x`, `tile_y`) can show:
/// the backdrop, then the three colours of the tile's palette.
pub fn bg_pallette(ppu: &NesPPU, tile_y: usize, tile_x: usize) -> (colors: [u8; 4])
    requires
        tile_x < TILES_PER_ROW,
        tile_y < TILE_ROWS,
    ensures
        forall|value: u8|
            value <= 3 ==> colors@[value as int] == #[trigger] palette_entry(
                ppu@,
                palette_choice(ppu@, tile_x as int, tile_y as int),
                value,
            ),
{
    let attr_table_idx: usize = tile_x / 4 + tile_y / 4 * 8;
    let attr: u8 = ppu.vram[ATTRIBUTE_TABLE + attr_table_idx];
    proof {
        lemma_two_bits(attr);
    }
    let pallet_idx: u8 = if tile_x % 4 / 2 == 0 && tile_y % 4 / 2 == 0 {
        attr & 0b11
    } else if tile_x % 4 / 2 == 1 && tile_y % 4 / 2 == 0 {
        (attr >> 2) & 0b11
    } else if tile_x % 4 / 2 == 0 && tile_y % 4 / 2 == 1 {
        (attr >> 4) & 0b11
    } else {
        (attr >> 6) & 0b11
    };
    let pallete_start: usize = 1 + (pallet_idx as usize) * 4;
    [
        ppu.palette_table[0],
        ppu.palette_table[pallete_start],
        ppu.palette_table[pallete_start + 1],
        ppu.palette_table[pallete_start + 2],
    ]
}

/// The pattern byte at `at`; zero where the cartridge has none.
fn pattern_byte(ppu: &NesPPU, at: usize) -> (value: u8)
    ensures
        value == ppu@.pattern_byte(at as int),
{
    if at < ppu.chr_rom.len() {
        ppu.chr_rom[at]
    } else {
        0
    }
}

/// Draws the tile at `tile_idx` of pattern bank `bank` at tile position
/// (`tile_x`, `tile_y`), in the colours the attribute table gives that
/// position. The 64 pixels of the position are replaced; every other pixel
/// stays.
pub fn show_tile(
    ppu: &NesPPU,
    frame: &mut Frame,
    bank: u16,
    tile_x: usize,
    tile_y: usize,
    tile_idx: usize,
)
    requires
        old(frame).wf(),
        bank <= 1,
        tile_x < TILES_PER_ROW,
        tile_y < TILE_ROWS,
        tile_idx < 512,
    ensures
        final(frame).wf(),
        forall|px: int, py: int|
            0 <= px < WIDTH && 0 <= py < HEIGHT ==> #[trigger] final(frame).pixel(px, py) == (if px
                / 8 == tile_x && py / 8 == tile_y {
                tile_rgb(
                    ppu@,
                    bank as int,
                    tile_idx as int,
                    tile_x as int,
                    tile_y as int,
                    px % 8,
                    py % 8,
                )
            } else {
                old(frame).pixel(px, py)
            }),
{
    let start: usize = bank as usize * 0x1000 + tile_idx * 16;
    let pallette = bg_pallette(ppu, tile_y, tile_x);
    let mut y: usize = 0;
    while y < 8
        invariant
            y <= 8,
            frame.wf(),
            bank <= 1,
            tile_x < TILES_PER_ROW,
            tile_y < TILE_ROWS,
            tile_idx < 512,
            start == bank * 0x1000 + tile_idx * 16,
            forall|value: u8|
                value <= 3 ==> pallette@[value as int] == #[trigger] palette_entry(
                    ppu@,
                    palette_choice(ppu@, tile_x as int, tile_y as int),
                    value,
                ),
            forall|px: int, py: int|
                0 <= px < WIDTH && 0 <= py < HEIGHT ==> #[trigger] frame.pixel(px, py) == (if px / 8
                    == tile_x && py / 8 == tile_y && py % 8 < y {
                    tile_rgb(
                        ppu@,
                        bank as int,
                        tile_idx as int,
                        tile_x as int,
                        tile_y as int,
                        px % 8,
                        py % 8,
                    )
                } else {
                    old(frame).pixel(px, py)
                }),
        decreases 8 - y,
    {
        let upper: u8 = pattern_byte(ppu, start + y);
        let lower: u8 = pattern_byte(ppu, start + y + 8);
        let mut x: usize = 0;
        while x < 8
            invariant
                x <= 8,
                y < 8,
                frame.wf(),
                bank <= 1,
                tile_x < TILES_PER_ROW,
                tile_y < TILE_ROWS,
                tile_idx < 512,
                start == bank * 0x1000 + tile_idx * 16,
                upper == ppu@.pattern_byte(start + y),
                lower == ppu@.pattern_byte(start + y + 8),
                forall|value: u8|
                    value <= 3 ==> pallette@[value as int] == #[trigger] palette_entry(
                        ppu@,
                        palette_choice(ppu@, tile_x as int, tile_y as int),
                        value,
                    ),
                forall|px: int, py: int|
                    0 <= px < WIDTH && 0 <= py < HEIGHT ==> #[trigger] frame.pixel(px, py) == (if px
                        / 8 == tile_x && py / 8 == tile_y && (py % 8 < y || (py % 8 == y && px % 8
                        < x)) {
                        tile_rgb(
                            ppu@,
                            bank as int,
                            tile_idx as int,
                            tile_x as int,
                            tile_y as int,
                            px % 8,
                            py % 8,
                        )
                    } else {
                        old(frame).pixel(px, py)
                    }),
            decreases 8 - x,
        {
            let shift: u8 = (7 - x) as u8;
            let value: u8 = (((upper >> shift) & 1) << 1) | ((lower >> shift) & 1);
            let entry: u8 = if value == 0 {
                pallette[0]
            } else if value == 1 {
                pallette[1]
            } else if value == 2 {
                pallette[2]
            } else {
                pallette[3]
            };
            let rgb = system_color(entry);
            let ghost before = *frame;
            frame.set_pixel(tile_x * 8 + x, tile_y * 8 + y, rgb);
            proof {
                lemma_tile_value(upper, lower, shift);
                lemma_pixel_set(
                    before,
                    *frame,
                    (tile_x * 8 + x) as int,
                    (tile_y * 8 + y) as int,
                    rgb,
                );
            }
            x += 1;
        }
        y += 1;
    }
}

/// The picture of the first 960 tiles of pattern memory, laid out in rows
/// of 32: a viewer for the cartridge's tiles.
pub fn show_frame(ppu: &NesPPU) -> (frame: Frame)
    ensures
        frame.wf(),
        forall|px: int, py: int|
            0 <= px < WIDTH && 0 <= py < HEIGHT ==> #[trigger] frame.pixel(px, py) == tile_rgb(
                ppu@,
                0,
                (py / 8 * 32 + px / 8) % 512,
                px / 8,
                py / 8,
                px % 8,
                py % 8,
            ),
{
    let mut frame = Frame::new();
    let mut i: usize = 0;
    while i < TILES_PER_ROW * TILE_ROWS
        invariant
            i <= TILES_PER_ROW * TILE_ROWS,
            frame.wf(),
            forall|px: int, py: int|
                0 <= px < WIDTH && 0 <= py < HEIGHT && py / 8 * 32 + px / 8 < i
                    ==> #[trigger] frame.pixel(px, py) == tile_rgb(
                    ppu@,
                    0,
                    (py / 8 * 32 + px / 8) % 512,
                    px / 8,
                    py / 8,
                    px % 8,
                    py % 8,
                ),
        decreases TILES_PER_ROW * TILE_ROWS - i,
    {
        show_tile(ppu, &mut frame, 0, i % 32, i / 32, i % 512);
        i += 1;
    }
    frame
}

} // verus!
