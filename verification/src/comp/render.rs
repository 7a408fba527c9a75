//! The renderer: the picture that the PPU's memories describe.
//!
//! The background is the nametable that the control register selects, 32 by
//! 30 tiles of 8 by 8 pixels; each pixel takes two bits from the tile's
//! pattern and two from the attribute table. Over it lie up to 64 sprites;
//! where several cover a pixel, the one that comes first in sprite memory
//! wins.

use vstd::prelude::*;
use crate::comp::ppu::NesPPU;
use crate::comp::ppu::PpuState;
use crate::comp::render::frame::Frame;
use crate::comp::render::frame::FRAME_SIZE;
use crate::comp::render::frame::HEIGHT;
use crate::comp::render::frame::WIDTH;
use crate::comp::render::palette::spec_system_color;
use crate::comp::render::palette::system_color;

pub mod frame;
pub mod palette;

verus! {

/// Control bit 3: sprites take their patterns from `$1000`.
pub const CTRL_SPRITE_BANK: u8 = 0b0000_1000;

/// Control bit 4: the background takes its patterns from `$1000`.
pub const CTRL_BACKGROUND_BANK: u8 = 0b0001_0000;

/// Control bit 5: sprites are 16 pixels high.
pub const CTRL_TALL_SPRITES: u8 = 0b0010_0000;

/// Mask bit 3: the background is drawn.
pub const MASK_SHOW_BACKGROUND: u8 = 0b0000_1000;

/// Mask bit 4: sprites are drawn.
pub const MASK_SHOW_SPRITES: u8 = 0b0001_0000;

/// Sprite attribute bit 5: the sprite lies behind the background.
pub const SPRITE_BEHIND: u8 = 0b0010_0000;

/// Sprite attribute bit 6: the sprite is mirrored left to right.
pub const SPRITE_FLIP_HORIZONTAL: u8 = 0b0100_0000;

/// Sprite attribute bit 7: the sprite is mirrored top to bottom.
pub const SPRITE_FLIP_VERTICAL: u8 = 0b1000_0000;

pub const SPRITE_COUNT: usize = 64;

/// Bit `n` of a byte, bit 0 being the lowest.
pub open spec fn spec_bit(b: u8, n: u8) -> u8 {
    match n {
        0 => b % 2,
        1 => (b / 2) % 2,
        2 => (b / 4) % 2,
        3 => (b / 8) % 2,
        4 => (b / 16) % 2,
        5 => (b / 32) % 2,
        6 => (b / 64) % 2,
        _ => b / 128,
    }
}

/// Bit `n` of a byte, bit 0 being the lowest.
#[verifier::when_used_as_spec(spec_bit)]
pub fn bit(b: u8, n: u8) -> (v: u8)
    ensures
        v == spec_bit(b, n),
        v <= 1,
{
    match n {
        0 => b % 2,
        1 => (b / 2) % 2,
        2 => (b / 4) % 2,
        3 => (b / 8) % 2,
        4 => (b / 16) % 2,
        5 => (b / 32) % 2,
        6 => (b / 64) % 2,
        _ => b / 128,
    }
}

/// The two bits that a pattern gives to the pixel in column `col` of row
/// `row` of tile `tile`: the low bit from the tile's first plane, the high
/// bit from its second.
pub open spec fn spec_pattern_value(s: PpuState, bank: u16, tile: u8, col: u8, row: u8) -> u8 {
    let lo = s.mem_byte((bank + tile * 16 + row) as u16);
    let hi = s.mem_byte((bank + tile * 16 + row + 8) as u16);
    (spec_bit(hi, (7 - col) as u8) * 2 + spec_bit(lo, (7 - col) as u8)) as u8
}

/// Where the nametable that the control register selects begins.
pub open spec fn spec_nametable_base(s: PpuState) -> u16 {
    (0x2000 + (s.ctrl % 4) * 0x400) as u16
}

/// The two pattern bits of the background at a pixel; 0 where the
/// background is switched off.
pub open spec fn spec_background_value(s: PpuState, x: int, y: int) -> u8 {
    if s.mask & MASK_SHOW_BACKGROUND == 0 {
        0
    } else {
        let tile = s.mem_byte((spec_nametable_base(s) + (y / 8) * 32 + x / 8) as u16);
        let bank: u16 = if s.ctrl & CTRL_BACKGROUND_BANK != 0 {
            0x1000
        } else {
            0
        };
        spec_pattern_value(s, bank, tile, (x % 8) as u8, (y % 8) as u8)
    }
}

/// The background palette, 0 to 3, that the attribute table gives to a
/// pixel: each attribute byte covers 32 by 32 pixels, two bits for each
/// quarter.
pub open spec fn spec_background_palette(s: PpuState, x: int, y: int) -> u8 {
    let attr = s.mem_byte((spec_nametable_base(s) + 0x3C0 + (y / 32) * 8 + x / 32) as u16);
    let quarter = ((y / 16) % 2) * 2 + (x / 16) % 2;
    if quarter == 0 {
        attr % 4
    } else if quarter == 1 {
        (attr / 4) % 4
    } else if quarter == 2 {
        (attr / 16) % 4
    } else {
        attr / 64
    }
}

/// The palette entry that the background shows at a pixel: the backdrop
/// where the pattern bits are 0.
pub open spec fn spec_background_entry(s: PpuState, x: int, y: int) -> u8 {
    let v = spec_background_value(s, x, y);
    if v == 0 {
        s.palette[0]
    } else {
        s.palette[spec_background_palette(s, x, y) * 4 + v]
    }
}

/// The height of every sprite: 8 pixels, or 16.
pub open spec fn spec_sprite_height(s: PpuState) -> int {
    if s.ctrl & CTRL_TALL_SPRITES != 0 {
        16
    } else {
        8
    }
}

/// Whether sprite `i` covers a pixel.
pub open spec fn spec_sprite_covers(s: PpuState, i: int, x: int, y: int) -> bool {
    let top = s.oam[4 * i];
    let left = s.oam[4 * i + 3];
    left <= x < left + 8 && top <= y < top + spec_sprite_height(s)
}

/// The two pattern bits of sprite `i` at a pixel that it covers, its
/// flipping taken into account. A tall sprite takes its two tiles from the
/// bank that bit 0 of its tile number names.
pub open spec fn spec_sprite_value(s: PpuState, i: int, x: int, y: int) -> u8 {
    let tile = s.oam[4 * i + 1];
    let attr = s.oam[4 * i + 2];
    let height = spec_sprite_height(s);
    let dx = x - s.oam[4 * i + 3];
    let dy = y - s.oam[4 * i];
    let col = if attr & SPRITE_FLIP_HORIZONTAL != 0 {
        7 - dx
    } else {
        dx
    };
    let row = if attr & SPRITE_FLIP_VERTICAL != 0 {
        height - 1 - dy
    } else {
        dy
    };
    if height == 8 {
        let bank: u16 = if s.ctrl & CTRL_SPRITE_BANK != 0 {
            0x1000
        } else {
            0
        };
        spec_pattern_value(s, bank, tile, col as u8, row as u8)
    } else {
        let bank: u16 = if tile % 2 == 1 {
            0x1000
        } else {
            0
        };
        let upper = (tile - tile % 2) as u8;
        if row < 8 {
            spec_pattern_value(s, bank, upper, col as u8, row as u8)
        } else {
            spec_pattern_value(s, bank, (upper + 1) as u8, col as u8, (row - 8) as u8)
        }
    }
}

/// Whether sprite `i` shows at a pixel: it covers the pixel, its pattern
/// bits there are not 0, and it lies before the background or the
/// background's pattern bits there are 0.
pub open spec fn spec_sprite_shows(s: PpuState, i: int, x: int, y: int) -> bool {
    &&& spec_sprite_covers(s, i, x, y)
    &&& spec_sprite_value(s, i, x, y) != 0
    &&& (s.oam[4 * i + 2] & SPRITE_BEHIND == 0 || spec_background_value(s, x, y) == 0)
}

/// The palette entry that sprite `i` shows at a pixel.
pub open spec fn spec_sprite_entry(s: PpuState, i: int, x: int, y: int) -> u8 {
    s.palette[0x10 + (s.oam[4 * i + 2] % 4) * 4 + spec_sprite_value(s, i, x, y)]
}

/// The first sprite from `from` on that shows at a pixel; 64 if none does.
pub open spec fn spec_first_sprite(s: PpuState, from: int, x: int, y: int) -> int
    decreases SPRITE_COUNT - from,
{
    if from >= SPRITE_COUNT {
        SPRITE_COUNT as int
    } else if spec_sprite_shows(s, from, x, y) {
        from
    } else {
        spec_first_sprite(s, from + 1, x, y)
    }
}

/// The palette entry that the picture shows at a pixel: that of the first
/// sprite that shows there, where sprites are switched on and one does;
/// else that of the background.
pub open spec fn spec_pixel_entry(s: PpuState, x: int, y: int) -> u8 {
    let first = spec_first_sprite(s, 0, x, y);
    if s.mask & MASK_SHOW_SPRITES != 0 && first < SPRITE_COUNT {
        spec_sprite_entry(s, first, x, y)
    } else {
        spec_background_entry(s, x, y)
    }
}

/// Byte `k` of the picture: pixel by pixel from the top left, row by row,
/// red, green and blue of each.
pub open spec fn spec_frame_byte(s: PpuState, k: int) -> u8 {
    let rgb = spec_system_color(spec_pixel_entry(s, (k / 3) % (WIDTH as int), (k / 3) / (WIDTH as int)));
    if k % 3 == 0 {
        rgb.0
    } else if k % 3 == 1 {
        rgb.1
    } else {
        rgb.2
    }
}

/// The picture that the PPU's memories describe.
pub open spec fn spec_render(s: PpuState) -> Seq<u8> {
    Seq::new(FRAME_SIZE as nat, |k: int| spec_frame_byte(s, k))
}

/// The two bits that a pattern gives to a pixel of a tile.
pub fn pattern_value(ppu: &NesPPU, bank: u16, tile: u8, col: u8, row: u8) -> (v: u8)
    requires
        ppu@.wf(),
        bank == 0 || bank == 0x1000,
        col < 8,
        row < 8,
    ensures
        v == spec_pattern_value(ppu@, bank, tile, col, row),
        v < 4,
{
    let addr: u16 = bank + tile as u16 * 16 + row as u16;
    let lo: u8 = ppu.mem_byte(addr);
    let hi: u8 = ppu.mem_byte(addr + 8);
    bit(hi, 7 - col) * 2 + bit(lo, 7 - col)
}

/// Where the nametable that the control register selects begins.
pub fn nametable_base(ppu: &NesPPU) -> (base: u16)
    ensures
        base == spec_nametable_base(ppu@),
        base == 0x2000 || base == 0x2400 || base == 0x2800 || base == 0x2C00,
{
    0x2000 + (ppu.ctrl() % 4) as u16 * 0x400
}

/// The two pattern bits of the background at a pixel.
pub fn background_value(ppu: &NesPPU, x: usize, y: usize) -> (v: u8)
    requires
        ppu@.wf(),
        x < WIDTH,
        y < HEIGHT,
    ensures
        v == spec_background_value(ppu@, x as int, y as int),
        v < 4,
{
    if ppu.mask() & MASK_SHOW_BACKGROUND == 0 {
        0
    } else {
        let tile: u8 = ppu.mem_byte(nametable_base(ppu) + ((y / 8) * 32 + x / 8) as u16);
        let bank: u16 = if ppu.ctrl() & CTRL_BACKGROUND_BANK != 0 {
            0x1000
        } else {
            0
        };
        pattern_value(ppu, bank, tile, (x % 8) as u8, (y % 8) as u8)
    }
}

/// The background palette, 0 to 3, of a pixel.
pub fn background_palette(ppu: &NesPPU, x: usize, y: usize) -> (p: u8)
    requires
        ppu@.wf(),
        x < WIDTH,
        y < HEIGHT,
    ensures
        p == spec_background_palette(ppu@, x as int, y as int),
        p < 4,
{
    let attr: u8 = ppu.mem_byte(nametable_base(ppu) + 0x3C0 + ((y / 32) * 8 + x / 32) as u16);
    let quarter: usize = ((y / 16) % 2) * 2 + (x / 16) % 2;
    if quarter == 0 {
        attr % 4
    } else if quarter == 1 {
        (attr / 4) % 4
    } else if quarter == 2 {
        (attr / 16) % 4
    } else {
        attr / 64
    }
}

/// The palette entry that the background shows at a pixel.
pub fn background_entry(ppu: &NesPPU, x: usize, y: usize) -> (entry: u8)
    requires
        ppu@.wf(),
        x < WIDTH,
        y < HEIGHT,
    ensures
        entry == spec_background_entry(ppu@, x as int, y as int),
{
    let v: u8 = background_value(ppu, x, y);
    if v == 0 {
        ppu.palette_entry(0)
    } else {
        ppu.palette_entry((background_palette(ppu, x, y) * 4 + v) as usize)
    }
}

/// The height of every sprite: 8 pixels, or 16.
pub fn sprite_height(ppu: &NesPPU) -> (h: usize)
    ensures
        h == spec_sprite_height(ppu@),
{
    if ppu.ctrl() & CTRL_TALL_SPRITES != 0 {
        16
    } else {
        8
    }
}

/// Whether sprite `i` covers a pixel.
pub fn sprite_covers(ppu: &NesPPU, i: usize, x: usize, y: usize) -> (covers: bool)
    requires
        ppu@.wf(),
        i < SPRITE_COUNT,
    ensures
        covers == spec_sprite_covers(ppu@, i as int, x as int, y as int),
{
    let top: usize = ppu.oam_byte(4 * i) as usize;
    if y < top || y >= top + sprite_height(ppu) {
        return false;
    }
    let left: usize = ppu.oam_byte(4 * i + 3) as usize;
    left <= x && x < left + 8
}

/// The two pattern bits of sprite `i` at a pixel that it covers.
pub fn sprite_value(ppu: &NesPPU, i: usize, x: usize, y: usize) -> (v: u8)
    requires
        ppu@.wf(),
        i < SPRITE_COUNT,
        spec_sprite_covers(ppu@, i as int, x as int, y as int),
    ensures
        v == spec_sprite_value(ppu@, i as int, x as int, y as int),
        v < 4,
{
    let tile: u8 = ppu.oam_byte(4 * i + 1);
    let attr: u8 = ppu.oam_byte(4 * i + 2);
    let height: usize = sprite_height(ppu);
    let dx: usize = x - ppu.oam_byte(4 * i + 3) as usize;
    let dy: usize = y - ppu.oam_byte(4 * i) as usize;
    let col: usize = if attr & SPRITE_FLIP_HORIZONTAL != 0 {
        7 - dx
    } else {
        dx
    };
    let row: usize = if attr & SPRITE_FLIP_VERTICAL != 0 {
        height - 1 - dy
    } else {
        dy
    };
    if height == 8 {
        let bank: u16 = if ppu.ctrl() & CTRL_SPRITE_BANK != 0 {
            0x1000
        } else {
            0
        };
        pattern_value(ppu, bank, tile, col as u8, row as u8)
    } else {
        let bank: u16 = if tile % 2 == 1 {
            0x1000
        } else {
            0
        };
        let upper: u8 = tile - tile % 2;
        if row < 8 {
            pattern_value(ppu, bank, upper, col as u8, row as u8)
        } else {
            pattern_value(ppu, bank, upper + 1, col as u8, (row - 8) as u8)
        }
    }
}

/// Whether sprite `i` shows at a pixel.
pub fn sprite_shows(ppu: &NesPPU, i: usize, x: usize, y: usize) -> (shows: bool)
    requires
        ppu@.wf(),
        i < SPRITE_COUNT,
        x < WIDTH,
        y < HEIGHT,
    ensures
        shows == spec_sprite_shows(ppu@, i as int, x as int, y as int),
{
    if !sprite_covers(ppu, i, x, y) {
        return false;
    }
    if sprite_value(ppu, i, x, y) == 0 {
        return false;
    }
    ppu.oam_byte(4 * i + 2) & SPRITE_BEHIND == 0 || background_value(ppu, x, y) == 0
}

/// The first sprite that shows at a pixel; 64 if none does.
pub fn first_sprite(ppu: &NesPPU, x: usize, y: usize) -> (first: usize)
    requires
        ppu@.wf(),
        x < WIDTH,
        y < HEIGHT,
    ensures
        first == spec_first_sprite(ppu@, 0, x as int, y as int),
        first <= SPRITE_COUNT,
        first < SPRITE_COUNT ==> spec_sprite_shows(ppu@, first as int, x as int, y as int),
{
    let mut i: usize = 0;
    while i < SPRITE_COUNT
        invariant
            ppu@.wf(),
            x < WIDTH,
            y < HEIGHT,
            i <= SPRITE_COUNT,
            spec_first_sprite(ppu@, 0, x as int, y as int) == spec_first_sprite(
                ppu@,
                i as int,
                x as int,
                y as int,
            ),
        decreases SPRITE_COUNT - i,
    {
        if sprite_shows(ppu, i, x, y) {
            return i;
        }
        i += 1;
    }
    i
}

/// The palette entry that the picture shows at a pixel.
pub fn pixel_entry(ppu: &NesPPU, x: usize, y: usize) -> (entry: u8)
    requires
        ppu@.wf(),
        x < WIDTH,
        y < HEIGHT,
    ensures
        entry == spec_pixel_entry(ppu@, x as int, y as int),
{
    if ppu.mask() & MASK_SHOW_SPRITES != 0 {
        let first: usize = first_sprite(ppu, x, y);
        if first < SPRITE_COUNT {
            let v: u8 = sprite_value(ppu, first, x, y);
            let select: u8 = ppu.oam_byte(4 * first + 2) % 4;
            return ppu.palette_entry((0x10 + select * 4 + v) as usize);
        }
    }
    background_entry(ppu, x, y)
}

/// Draws the picture that the PPU's memories describe.
pub fn render(ppu: &NesPPU, frame: &mut Frame)
    requires
        ppu@.wf(),
        old(frame)@.len() == FRAME_SIZE,
    ensures
        final(frame)@ == spec_render(ppu@),
{
    let mut y: usize = 0;
    while y < HEIGHT
        invariant
            ppu@.wf(),
            y <= HEIGHT,
            frame@.len() == FRAME_SIZE,
            forall|k: int| 0 <= k < y * WIDTH * 3 ==> frame@[k] == spec_frame_byte(ppu@, k),
        decreases HEIGHT - y,
    {
        let mut x: usize = 0;
        while x < WIDTH
            invariant
                ppu@.wf(),
                y < HEIGHT,
                x <= WIDTH,
                frame@.len() == FRAME_SIZE,
                forall|k: int|
                    0 <= k < (y * WIDTH + x) * 3 ==> frame@[k] == spec_frame_byte(ppu@, k),
            decreases WIDTH - x,
        {
            let rgb: (u8, u8, u8) = system_color(pixel_entry(ppu, x, y));
            frame.set_pixel(x, y, rgb);
            proof {
                let base = (y * WIDTH + x) * 3;
                assert forall|k: int| base <= k < base + 3 implies frame@[k] == spec_frame_byte(
                    ppu@,
                    k,
                ) by {
                    assert(k / 3 == y * WIDTH + x);
                    assert((k / 3) % (WIDTH as int) == x && (k / 3) / (WIDTH as int) == y);
                }
            }
            x += 1;
        }
        y += 1;
    }
    assert(frame@ =~= spec_render(ppu@));
}

/// Rows of the picture that the tile sheet fills: 8 rows of 32 tiles.
pub const TILE_SHEET_HEIGHT: usize = 64;

/// The palette entry that the tile sheet shows for each of the four
/// pattern values: black, dark grey, light grey, white.
pub open spec fn spec_shade(v: u8) -> u8 {
    if v == 0 {
        0x0F
    } else if v == 1 {
        0x00
    } else if v == 2 {
        0x10
    } else {
        0x30
    }
}

/// The palette entry that the tile sheet shows for a pattern value.
#[verifier::when_used_as_spec(spec_shade)]
pub fn shade(v: u8) -> (entry: u8)
    ensures
        entry == spec_shade(v),
{
    if v == 0 {
        0x0F
    } else if v == 1 {
        0x00
    } else if v == 2 {
        0x10
    } else {
        0x30
    }
}

/// Byte `k` of the tile sheet of a pattern bank: the bank's 256 tiles, 32
/// to a row, each pixel in the shade of its pattern value.
pub open spec fn spec_tile_sheet_byte(s: PpuState, bank: u16, k: int) -> u8 {
    let x = (k / 3) % (WIDTH as int);
    let y = (k / 3) / (WIDTH as int);
    let rgb = spec_system_color(
        spec_shade(
            spec_pattern_value(s, bank, ((y / 8) * 32 + x / 8) as u8, (x % 8) as u8, (y % 8) as u8),
        ),
    );
    if k % 3 == 0 {
        rgb.0
    } else if k % 3 == 1 {
        rgb.1
    } else {
        rgb.2
    }
}

/// Draws the 256 tiles of a pattern bank into the top 64 rows of the
/// picture and leaves the rows below as they are.
pub fn render_tile_sheet(ppu: &NesPPU, bank: u16, frame: &mut Frame)
    requires
        ppu@.wf(),
        bank == 0 || bank == 0x1000,
        old(frame)@.len() == FRAME_SIZE,
    ensures
        final(frame)@.len() == FRAME_SIZE,
        forall|k: int|
            0 <= k < TILE_SHEET_HEIGHT * WIDTH * 3 ==> final(frame)@[k] == spec_tile_sheet_byte(
                ppu@,
                bank,
                k,
            ),
        forall|k: int|
            TILE_SHEET_HEIGHT * WIDTH * 3 <= k < FRAME_SIZE ==> final(frame)@[k] == old(frame)@[k],
{
    let mut y: usize = 0;
    while y < TILE_SHEET_HEIGHT
        invariant
            ppu@.wf(),
            bank == 0 || bank == 0x1000,
            y <= TILE_SHEET_HEIGHT,
            frame@.len() == FRAME_SIZE,
            forall|k: int|
                0 <= k < y * WIDTH * 3 ==> frame@[k] == spec_tile_sheet_byte(ppu@, bank, k),
            forall|k: int| y * WIDTH * 3 <= k < FRAME_SIZE ==> frame@[k] == old(frame)@[k],
        decreases TILE_SHEET_HEIGHT - y,
    {
        let mut x: usize = 0;
        while x < WIDTH
            invariant
                ppu@.wf(),
                bank == 0 || bank == 0x1000,
                y < TILE_SHEET_HEIGHT,
                x <= WIDTH,
                frame@.len() == FRAME_SIZE,
                forall|k: int|
                    0 <= k < (y * WIDTH + x) * 3 ==> frame@[k] == spec_tile_sheet_byte(
                        ppu@,
                        bank,
                        k,
                    ),
                forall|k: int|
                    (y * WIDTH + x) * 3 <= k < FRAME_SIZE ==> frame@[k] == old(frame)@[k],
            decreases WIDTH - x,
        {
            let tile: u8 = ((y / 8) * 32 + x / 8) as u8;
            let v: u8 = pattern_value(ppu, bank, tile, (x % 8) as u8, (y % 8) as u8);
            frame.set_pixel(x, y, system_color(shade(v)));
            proof {
                let base = (y * WIDTH + x) * 3;
                assert forall|k: int| base <= k < base + 3 implies frame@[k]
                    == spec_tile_sheet_byte(ppu@, bank, k) by {
                    assert(k / 3 == y * WIDTH + x);
                    assert((k / 3) % (WIDTH as int) == x && (k / 3) / (WIDTH as int) == y);
                }
            }
            x += 1;
        }
        y += 1;
    }
}

/// Where several sprites show at a pixel, the one that comes first in
/// sprite memory is the one that is seen: the sprite that the picture takes
/// shows there, and no sprite before it does.
pub proof fn lemma_first_sprite_wins(s: PpuState, from: int, x: int, y: int)
    requires
        0 <= from <= SPRITE_COUNT,
    ensures
        from <= spec_first_sprite(s, from, x, y) <= SPRITE_COUNT,
        spec_first_sprite(s, from, x, y) < SPRITE_COUNT ==> spec_sprite_shows(
            s,
            spec_first_sprite(s, from, x, y),
            x,
            y,
        ),
        forall|j: int| from <= j < spec_first_sprite(s, from, x, y) ==> !spec_sprite_shows(s, j, x, y),
    decreases SPRITE_COUNT - from,
{
    if from < SPRITE_COUNT && !spec_sprite_shows(s, from, x, y) {
        lemma_first_sprite_wins(s, from + 1, x, y);
    }
}

} // verus!
