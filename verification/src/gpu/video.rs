//! The emulated video generator: what each pixel of the screen shows,
//! given video RAM, the sprite table and the video registers, and the
//! line-by-line drawing of the frame.
//!
//! Sprites are ranked by their place in the sprite table alone, and a line
//! shows every sprite that lies on it. The window counts its lines from
//! the line where it starts. Of the video registers, the line counter is
//! driven; the status register is not.

use vstd::prelude::*;
use crate::cpu::alu::{bit, bit_is_set, bit_weight, test_bit, weight};
use crate::mmu::{MemoryModel, Mmu};

verus! {

pub const LCDC: u16 = 0xFF40;

pub const SCY: u16 = 0xFF42;

pub const SCX: u16 = 0xFF43;

pub const LY: u16 = 0xFF44;

pub const BGP: u16 = 0xFF47;

pub const OBP0: u16 = 0xFF48;

pub const OBP1: u16 = 0xFF49;

pub const WY: u16 = 0xFF4A;

pub const WX: u16 = 0xFF4B;

/// Bytes in a frame: three for each pixel.
pub const FRAME_BYTES: usize = 69120;

/// Cycles that one line of the screen takes.
pub const LINE_CYCLES: u32 = 456;

/// The gray level of a shade: 0 is white, 3 is black.
pub open spec fn gray(shade: u8) -> u8
    recommends
        shade < 4,
{
    (255 - 85 * shade) as u8
}

/// Whether `level` is the gray level of a shade.
pub open spec fn is_gray_level(level: u8) -> bool {
    level == 255 || level == 170 || level == 85 || level == 0
}

/// Whether every byte of `frame` is the gray level of a shade.
pub open spec fn all_gray(frame: Seq<u8>) -> bool {
    forall|i: int| 0 <= i < frame.len() ==> is_gray_level(#[trigger] frame[i])
}

/// The shade that `palette` gives to the colour number `colour`.
pub open spec fn palette_shade(palette: u8, colour: u8) -> u8
    recommends
        colour < 4,
{
    ((palette as int / weight((2 * colour) as u8)) % 4) as u8
}

/// The colour number of pixel (`px`, `py`) of the tile whose sixteen bytes
/// start at `tile`: two bytes a row, the left pixel in the high bits, the
/// first byte holding the low bit of the number.
pub open spec fn tile_pixel(m: MemoryModel, tile: u16, px: u8, py: u8) -> u8
    recommends
        px < 8,
        py < 8,
        tile <= 0xFFF0,
{
    let low = m.read((tile + 2 * py) as u16);
    let high = m.read((tile + 2 * py + 1) as u16);
    (2 * bit(test_bit(high, (7 - px) as u8)) + bit(test_bit(low, (7 - px) as u8))) as u8
}

/// Where the data of background tile `index` starts: counted from 0x8000
/// where bit 4 of the control register is set, and else from 0x9000 with
/// the upper half of the numbers below it.
pub open spec fn tile_address(lcdc: u8, index: u8) -> u16 {
    if test_bit(lcdc, 4) {
        (0x8000 + 16 * index) as u16
    } else {
        glyph_address(index)
    }
}

/// Where the data of the tile that an overlay cell names starts.
pub open spec fn glyph_address(index: u8) -> u16 {
    if index < 128 {
        (0x9000 + 16 * index) as u16
    } else {
        (0x8800 + 16 * (index - 128)) as u16
    }
}

/// The colour number at (`px`, `py`) of the 256 by 256 plane whose tile
/// map is the upper one (at 0x9C00) or the lower one (at 0x9800).
pub open spec fn plane_colour(m: MemoryModel, upper: bool, px: u8, py: u8) -> u8 {
    let map = if upper { 0x9C00int } else { 0x9800int };
    let index = m.read((map + (py / 8) * 32 + px / 8) as u16);
    tile_pixel(m, tile_address(m.read(LCDC), index), px % 8, py % 8)
}

/// Whether the window covers pixel (`x`, `y`).
pub open spec fn in_window(m: MemoryModel, x: u8, y: u8) -> bool {
    test_bit(m.read(LCDC), 5) && m.read(WY) <= y && m.read(WX) <= x + 7
}

/// The colour number of the background at (`x`, `y`): blank where the
/// background is switched off, else the window where it covers the pixel,
/// else the scrolled background plane.
pub open spec fn background_colour(m: MemoryModel, x: u8, y: u8) -> u8 {
    let lcdc = m.read(LCDC);
    if !test_bit(lcdc, 0) {
        0
    } else if in_window(m, x, y) {
        plane_colour(
            m,
            test_bit(lcdc, 6),
            (x + 7 - m.read(WX)) as u8,
            (y - m.read(WY)) as u8,
        )
    } else {
        plane_colour(
            m,
            test_bit(lcdc, 3),
            ((x + m.read(SCX)) % 256) as u8,
            ((y + m.read(SCY)) % 256) as u8,
        )
    }
}

/// A sprite's pixel: its colour number, never 0, and the sprite's
/// attribute byte.
pub struct SpritePixel {
    pub colour: u8,
    pub attributes: u8,
}

/// What sprite number `i` shows at (`x`, `y`), if it lies there and is not
/// transparent there.
pub open spec fn sprite_pixel(m: MemoryModel, i: u8, x: u8, y: u8) -> Option<SpritePixel>
    recommends
        i < 40,
{
    let base = 0xFE00 + 4 * i;
    let top = m.read(base as u16);
    let left = m.read((base + 1) as u16);
    let tile = m.read((base + 2) as u16);
    let attributes = m.read((base + 3) as u16);
    let tall = test_bit(m.read(LCDC), 2);
    let height = if tall { 16int } else { 8 };
    let row = y + 16 - top;
    let col = x + 8 - left;
    if 0 <= row < height && 0 <= col < 8 {
        let r = if test_bit(attributes, 6) { height - 1 - row } else { row };
        let c = if test_bit(attributes, 5) { 7 - col } else { col };
        let t = if tall { tile - tile % 2 + r / 8 } else { tile as int };
        let colour = tile_pixel(m, (0x8000 + 16 * t) as u16, c as u8, (r % 8) as u8);
        if colour != 0 {
            Some(SpritePixel { colour, attributes })
        } else {
            None
        }
    } else {
        None
    }
}

/// The pixel of the first sprite, from number `from` on, that shows
/// something at (`x`, `y`).
pub open spec fn first_sprite(m: MemoryModel, from: u8, x: u8, y: u8) -> Option<SpritePixel>
    decreases 40 - from,
{
    if from >= 40 {
        None
    } else {
        match sprite_pixel(m, from, x, y) {
            Some(p) => Some(p),
            None => first_sprite(m, (from + 1) as u8, x, y),
        }
    }
}

/// The shade of pixel (`x`, `y`) of the screen.
pub open spec fn shade_at(m: MemoryModel, x: u8, y: u8) -> u8
    recommends
        x < 160,
        y < 144,
{
    let ground = background_colour(m, x, y);
    let sprite = if test_bit(m.read(LCDC), 1) {
        first_sprite(m, 0, x, y)
    } else {
        None
    };
    match sprite {
        Some(p) => if test_bit(p.attributes, 7) && ground != 0 {
            palette_shade(m.read(BGP), ground)
        } else {
            palette_shade(if test_bit(p.attributes, 4) { m.read(OBP1) } else { m.read(OBP0) }, p.colour)
        },
        None => palette_shade(m.read(BGP), ground),
    }
}

/// The frame with line `y` drawn anew from `m`.
pub open spec fn with_line(frame: Seq<u8>, m: MemoryModel, y: u8) -> Seq<u8> {
    Seq::new(
        frame.len(),
        |i: int| if i / 480 == y { gray(shade_at(m, ((i / 3) % 160) as u8, y)) } else { frame[i] },
    )
}

pub fn gray_of(shade: u8) -> (out: u8)
    requires
        shade < 4,
    ensures
        out == gray(shade),
        is_gray_level(out),
{
    255 - 85 * shade
}

pub fn shade_of(palette: u8, colour: u8) -> (out: u8)
    requires
        colour < 4,
    ensures
        out == palette_shade(palette, colour),
        out < 4,
{
    (palette / bit_weight(2 * colour)) % 4
}

pub fn tile_pixel_of(mmu: &Mmu, tile: u16, px: u8, py: u8) -> (out: u8)
    requires
        mmu@.wf(),
        px < 8,
        py < 8,
        tile <= 0xFFF0,
    ensures
        out == tile_pixel(mmu@, tile, px, py),
        out < 4,
{
    let low: u8 = mmu.read_byte(tile + 2 * py as u16);
    let high: u8 = mmu.read_byte(tile + 2 * py as u16 + 1);
    let h: u8 = if bit_is_set(high, 7 - px) { 2 } else { 0 };
    let l: u8 = if bit_is_set(low, 7 - px) { 1 } else { 0 };
    h + l
}

pub fn glyph_address_of(index: u8) -> (out: u16)
    ensures
        out == glyph_address(index),
        0x8800 <= out <= 0x97F0,
{
    if index < 128 {
        0x9000 + 16 * index as u16
    } else {
        0x8800 + 16 * (index - 128) as u16
    }
}

fn plane_colour_of(mmu: &Mmu, upper: bool, px: u8, py: u8) -> (out: u8)
    requires
        mmu@.wf(),
    ensures
        out == plane_colour(mmu@, upper, px, py),
        out < 4,
{
    let map: u16 = if upper { 0x9C00 } else { 0x9800 };
    let index: u8 = mmu.read_byte(map + (py / 8) as u16 * 32 + (px / 8) as u16);
    let lcdc: u8 = mmu.read_byte(LCDC);
    let tile: u16 = if bit_is_set(lcdc, 4) {
        0x8000 + 16 * index as u16
    } else {
        glyph_address_of(index)
    };
    tile_pixel_of(mmu, tile, px % 8, py % 8)
}

fn background_colour_of(mmu: &Mmu, x: u8, y: u8) -> (out: u8)
    requires
        mmu@.wf(),
        x < 160,
    ensures
        out == background_colour(mmu@, x, y),
        out < 4,
{
    let lcdc: u8 = mmu.read_byte(LCDC);
    let wy: u8 = mmu.read_byte(WY);
    let wx: u8 = mmu.read_byte(WX);
    if !bit_is_set(lcdc, 0) {
        0
    } else if bit_is_set(lcdc, 5) && wy <= y && wx as u16 <= x as u16 + 7 {
        plane_colour_of(mmu, bit_is_set(lcdc, 6), (x as u16 + 7 - wx as u16) as u8, y - wy)
    } else {
        let px: u16 = (x as u16 + mmu.read_byte(SCX) as u16) % 256;
        let py: u16 = (y as u16 + mmu.read_byte(SCY) as u16) % 256;
        plane_colour_of(mmu, bit_is_set(lcdc, 3), px as u8, py as u8)
    }
}

/// The colour and attributes of sprite `i` at (`x`, `y`); the colour is 0
/// where the sprite shows nothing.
fn sprite_pixel_of(mmu: &Mmu, i: u8, x: u8, y: u8) -> (out: (u8, u8))
    requires
        mmu@.wf(),
        i < 40,
    ensures
        match sprite_pixel(mmu@, i, x, y) {
            Some(p) => out == (p.colour, p.attributes) && 0 < p.colour < 4,
            None => out.0 == 0,
        },
{
    let base: u16 = 0xFE00 + 4 * i as u16;
    let top: u8 = mmu.read_byte(base);
    let left: u8 = mmu.read_byte(base + 1);
    let tile: u8 = mmu.read_byte(base + 2);
    let attributes: u8 = mmu.read_byte(base + 3);
    let tall: bool = bit_is_set(mmu.read_byte(LCDC), 2);
    let height: u16 = if tall { 16 } else { 8 };
    let low_y: u16 = y as u16 + 16;
    let low_x: u16 = x as u16 + 8;
    if low_y >= top as u16 && low_y - (top as u16) < height && low_x >= left as u16 && low_x - (
    left as u16) < 8 {
        let row: u16 = low_y - top as u16;
        let col: u16 = low_x - left as u16;
        let r: u16 = if bit_is_set(attributes, 6) { height - 1 - row } else { row };
        let c: u16 = if bit_is_set(attributes, 5) { 7 - col } else { col };
        let t: u16 = if tall { (tile - tile % 2) as u16 + r / 8 } else { tile as u16 };
        let colour: u8 = tile_pixel_of(mmu, 0x8000 + 16 * t, c as u8, (r % 8) as u8);
        (colour, attributes)
    } else {
        (0, attributes)
    }
}

/// The shade of pixel (`x`, `y`) of the screen.
pub fn shade_at_of(mmu: &Mmu, x: u8, y: u8) -> (out: u8)
    requires
        mmu@.wf(),
        x < 160,
    ensures
        out == shade_at(mmu@, x, y),
        out < 4,
{
    let ground: u8 = background_colour_of(mmu, x, y);
    let mut found: (u8, u8) = (0, 0);
    if bit_is_set(mmu.read_byte(LCDC), 1) {
        let mut i: u8 = 0;
        while i < 40 && found.0 == 0
            invariant
                mmu@.wf(),
                i <= 40,
                found.0 < 4,
                found.0 == 0 ==> first_sprite(mmu@, 0, x, y) == first_sprite(mmu@, i, x, y),
                found.0 != 0 ==> first_sprite(mmu@, 0, x, y) == Some(
                    SpritePixel { colour: found.0, attributes: found.1 },
                ),
            decreases 40 - i + (if found.0 == 0 { 1int } else { 0 }),
        {
            found = sprite_pixel_of(mmu, i, x, y);
            i += 1;
        }
    }
    if found.0 != 0 && !(bit_is_set(found.1, 7) && ground != 0) {
        let palette: u8 = if bit_is_set(found.1, 4) {
            mmu.read_byte(OBP1)
        } else {
            mmu.read_byte(OBP0)
        };
        shade_of(palette, found.0)
    } else {
        shade_of(mmu.read_byte(BGP), ground)
    }
}

/// Draws line `y` of the frame anew.
pub fn render_line(frame: &mut Vec<u8>, mmu: &Mmu, y: u8)
    requires
        mmu@.wf(),
        old(frame)@.len() == FRAME_BYTES,
        y < 144,
    ensures
        final(frame)@ == with_line(old(frame)@, mmu@, y),
        all_gray(old(frame)@) ==> all_gray(final(frame)@),
{
    let mut x: u8 = 0;
    while x < 160
        invariant
            mmu@.wf(),
            y < 144,
            x <= 160,
            frame@.len() == FRAME_BYTES,
            all_gray(old(frame)@) ==> all_gray(frame@),
            forall|i: int|
                0 <= i < FRAME_BYTES ==> #[trigger] frame@[i] == if i / 480 == y && (i / 3) % 160
                    < x {
                    gray(shade_at(mmu@, ((i / 3) % 160) as u8, y))
                } else {
                    old(frame)@[i]
                },
        decreases 160 - x,
    {
        let level: u8 = gray_of(shade_at_of(mmu, x, y));
        let at: usize = (y as usize * 160 + x as usize) * 3;
        frame.set(at, level);
        frame.set(at + 1, level);
        frame.set(at + 2, level);
        proof {
            assert forall|i: int| 0 <= i < FRAME_BYTES implies #[trigger] frame@[i] == if i / 480
                == y && (i / 3) % 160 < x + 1 {
                gray(shade_at(mmu@, ((i / 3) % 160) as u8, y))
            } else {
                old(frame)@[i]
            } by {
                if i / 480 == y && (i / 3) % 160 == x {
                    assert(i / 3 == y * 160 + x);
                    assert(at <= i < at + 3);
                } else {
                    assert(!(at <= i < at + 3));
                }
            }
        }
        x += 1;
    }
    assert(frame@ =~= with_line(old(frame)@, mmu@, y));
}

} // verus!
