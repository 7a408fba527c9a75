use rnes::comp::ppu::NesPPU;
use rnes::comp::render::background_entry;
use rnes::comp::render::background_palette;
use rnes::comp::render::bit;
use rnes::comp::render::first_sprite;
use rnes::comp::render::frame::Frame;
use rnes::comp::render::palette::system_color;
use rnes::comp::render::palette::SYSTEM_PALETTE;
use rnes::comp::render::pattern_value;
use rnes::comp::render::pixel_entry;
use rnes::comp::render::render;
use rnes::comp::render::render_tile_sheet;
use rnes::comp::render::sprite_covers;
use rnes::comp::rom::Mirroring;

/// Tile 1 of bank 0 is a diagonal of value 3 on a ground of value 1; tile 2
/// has value 2 everywhere but in its top left pixel; tile 1 of bank `$1000`
/// has value 3 in its left column.
fn picture_unit() -> NesPPU {
    let mut chr = vec![0u8; 8192];
    for row in 0..8 {
        chr[16 + row] = 0xFF;
        chr[16 + 8 + row] = 0x80 >> row;
        chr[32 + row] = 0x00;
        chr[32 + 8 + row] = if row == 0 { 0x7F } else { 0xFF };
        chr[0x1000 + 16 + row] = 0x80;
        chr[0x1000 + 16 + 8 + row] = 0x80;
    }
    let mut ppu = NesPPU::new(chr, Mirroring::VERTICAL);
    ppu.mask = 0x18;
    for i in 0..32 {
        ppu.palette_table[i] = i as u8;
    }
    ppu.palette_table[0] = 0x3F;
    ppu
}

fn pixel(frame: &Frame, x: usize, y: usize) -> (u8, u8, u8) {
    let base = (y * 256 + x) * 3;
    (frame.data[base], frame.data[base + 1], frame.data[base + 2])
}

#[test]
fn test_frame_set_pixel() {
    let mut frame = Frame::new();
    assert_eq!(frame.data.len(), 256 * 240 * 3);
    assert!(frame.data.iter().all(|b| *b == 0));
    frame.set_pixel(255, 239, (1, 2, 3));
    assert_eq!(&frame.data[184317..], &[1, 2, 3]);
    frame.set_pixel(1, 0, (4, 5, 6));
    assert_eq!(&frame.data[..6], &[0, 0, 0, 4, 5, 6]);
    let before = frame.data.clone();
    frame.set_pixel(256, 0, (9, 9, 9));
    frame.set_pixel(0, 240, (9, 9, 9));
    assert_eq!(frame.data, before);
}

#[test]
fn test_system_palette() {
    assert_eq!(SYSTEM_PALETTE.len(), 192);
    assert_eq!(system_color(0x00), (0x80, 0x80, 0x80));
    assert_eq!(system_color(0x01), (0x00, 0x3D, 0xA6));
    assert_eq!(system_color(0x20), (0xFF, 0xFF, 0xFF));
    assert_eq!(system_color(0x3F), (0x11, 0x11, 0x11));
    assert_eq!(system_color(0x41), system_color(0x01));
    assert_eq!(system_color(0xFF), system_color(0x3F));
}

#[test]
fn test_bit() {
    assert_eq!(bit(0b1000_0001, 0), 1);
    assert_eq!(bit(0b1000_0001, 1), 0);
    assert_eq!(bit(0b1000_0001, 7), 1);
    assert_eq!(bit(0b0100_0000, 6), 1);
    assert_eq!(bit(0b0100_0000, 7), 0);
    for n in 0..8u8 {
        assert_eq!(bit(0xA5, n), (0xA5 >> n) & 1);
    }
}

#[test]
fn test_pattern_value() {
    let ppu = picture_unit();
    assert_eq!(pattern_value(&ppu, 0, 1, 0, 0), 3);
    assert_eq!(pattern_value(&ppu, 0, 1, 1, 0), 1);
    assert_eq!(pattern_value(&ppu, 0, 1, 5, 5), 3);
    assert_eq!(pattern_value(&ppu, 0, 1, 5, 4), 1);
    assert_eq!(pattern_value(&ppu, 0, 2, 0, 0), 0);
    assert_eq!(pattern_value(&ppu, 0, 2, 1, 0), 2);
    assert_eq!(pattern_value(&ppu, 0, 0, 3, 3), 0);
    assert_eq!(pattern_value(&ppu, 0x1000, 1, 0, 7), 3);
    assert_eq!(pattern_value(&ppu, 0x1000, 1, 1, 7), 0);
}

#[test]
fn test_background_tiles_and_attributes() {
    let mut ppu = picture_unit();
    // Tile 1 at column 2 of row 1, tile 2 at column 5 of row 5.
    ppu.vram[1 * 32 + 2] = 1;
    ppu.vram[5 * 32 + 5] = 2;
    // The attribute byte of the top left 32 by 32 pixels: palette 2 for its
    // top right quarter; that of the next: palette 3 for its top left.
    ppu.vram[0x3C0] = 0b0000_1000;
    ppu.vram[0x3C0 + 8 + 1] = 0b0000_0011;
    assert_eq!(background_palette(&ppu, 16, 8), 2);
    assert_eq!(background_palette(&ppu, 15, 8), 0);
    assert_eq!(background_palette(&ppu, 16, 16), 0);
    assert_eq!(background_palette(&ppu, 40, 40), 3);
    assert_eq!(background_entry(&ppu, 16, 8), 2 * 4 + 3);
    assert_eq!(background_entry(&ppu, 17, 8), 2 * 4 + 1);
    assert_eq!(background_entry(&ppu, 17, 9), 2 * 4 + 3);
    assert_eq!(background_entry(&ppu, 41, 40), 3 * 4 + 2);
    assert_eq!(background_entry(&ppu, 40, 40), 0x3F);
    assert_eq!(background_entry(&ppu, 0, 0), 0x3F);

    let mut frame = Frame::new();
    render(&ppu, &mut frame);
    assert_eq!(pixel(&frame, 16, 8), system_color(11));
    assert_eq!(pixel(&frame, 17, 8), system_color(9));
    assert_eq!(pixel(&frame, 41, 40), system_color(14));
    assert_eq!(pixel(&frame, 0, 0), system_color(0x3F));
    assert_eq!(pixel(&frame, 255, 239), system_color(0x3F));
}

#[test]
fn test_background_bank_and_nametable_selection() {
    let mut ppu = picture_unit();
    ppu.vram[0] = 1;
    ppu.vram[0x400] = 2;
    assert_eq!(background_entry(&ppu, 0, 0), 3);
    ppu.ctrl = 0b0000_0001;
    assert_eq!(background_entry(&ppu, 1, 0), 2);
    ppu.ctrl = 0b0001_0000;
    assert_eq!(background_entry(&ppu, 0, 0), 3);
    assert_eq!(background_entry(&ppu, 1, 0), 0x3F);
    ppu.ctrl = 0;
    ppu.mask = 0x10;
    assert_eq!(background_entry(&ppu, 0, 0), 0x3F);
}

#[test]
fn test_sprites_over_the_background() {
    let mut ppu = picture_unit();
    ppu.ctrl = 0b0000_1000;
    // Sprite 0: tile 1 of bank $1000 at (100, 50), palette 1.
    ppu.oam_data[0] = 50;
    ppu.oam_data[1] = 1;
    ppu.oam_data[2] = 0b0000_0001;
    ppu.oam_data[3] = 100;
    for i in 1..64 {
        ppu.oam_data[4 * i] = 0xF0;
    }
    assert!(sprite_covers(&ppu, 0, 100, 50));
    assert!(sprite_covers(&ppu, 0, 107, 57));
    assert!(!sprite_covers(&ppu, 0, 108, 57));
    assert!(!sprite_covers(&ppu, 0, 100, 58));
    assert!(!sprite_covers(&ppu, 0, 99, 50));
    assert_eq!(first_sprite(&ppu, 100, 50), 0);
    assert_eq!(first_sprite(&ppu, 101, 50), 64);
    assert_eq!(pixel_entry(&ppu, 100, 50), 0x10 + 4 + 3);
    assert_eq!(pixel_entry(&ppu, 101, 50), 0x3F);
    // Mirrored left to right, the column is on the right.
    ppu.oam_data[2] = 0b0100_0001;
    assert_eq!(pixel_entry(&ppu, 100, 50), 0x3F);
    assert_eq!(pixel_entry(&ppu, 107, 50), 0x17);
    // With sprites switched off, the background shows.
    ppu.mask = 0x08;
    assert_eq!(pixel_entry(&ppu, 107, 50), 0x3F);
}

#[test]
fn test_sprite_priority() {
    let mut ppu = picture_unit();
    ppu.ctrl = 0b0000_1000;
    for i in 0..64 {
        ppu.oam_data[4 * i] = 0xF0;
    }
    // Sprites 3 and 5 both cover (8, 8); 3 uses palette 2, 5 palette 0.
    for (i, select) in [(3usize, 2u8), (5, 0)] {
        ppu.oam_data[4 * i] = 8;
        ppu.oam_data[4 * i + 1] = 1;
        ppu.oam_data[4 * i + 2] = select;
        ppu.oam_data[4 * i + 3] = 8;
    }
    assert_eq!(first_sprite(&ppu, 8, 8), 3);
    assert_eq!(pixel_entry(&ppu, 8, 8), 0x10 + 8 + 3);
    // Background tile 1 under the sprites: value 3 at (8, 8).
    ppu.vram[1 * 32 + 1] = 1;
    assert_eq!(pixel_entry(&ppu, 8, 8), 0x1B);
    // Sprite 3 behind the background: sprite 5 is seen.
    ppu.oam_data[4 * 3 + 2] = 0b0010_0010;
    assert_eq!(first_sprite(&ppu, 8, 8), 5);
    assert_eq!(pixel_entry(&ppu, 8, 8), 0x13);
    // Both behind: the background is seen.
    ppu.oam_data[4 * 5 + 2] = 0b0010_0000;
    assert_eq!(first_sprite(&ppu, 8, 8), 64);
    assert_eq!(pixel_entry(&ppu, 8, 8), 3);
}

#[test]
fn test_tall_and_flipped_sprites() {
    let mut ppu = picture_unit();
    ppu.ctrl = 0b0010_0000;
    for i in 0..64 {
        ppu.oam_data[4 * i] = 0xF0;
    }
    // Tile number 3: bank $1000, tiles 2 and 3. Make tile 3 of that bank
    // solid value 1.
    for row in 0..8 {
        ppu.chr_rom[0x1000 + 3 * 16 + row] = 0xFF;
    }
    ppu.oam_data[0] = 20;
    ppu.oam_data[1] = 3;
    ppu.oam_data[2] = 0;
    ppu.oam_data[3] = 30;
    assert_eq!(pixel_entry(&ppu, 30, 20), 0x3F);
    assert_eq!(pixel_entry(&ppu, 30, 27), 0x3F);
    assert_eq!(pixel_entry(&ppu, 30, 28), 0x11);
    assert_eq!(pixel_entry(&ppu, 37, 35), 0x11);
    assert_eq!(pixel_entry(&ppu, 37, 36), 0x3F);
    // Mirrored top to bottom, the solid tile is on top.
    ppu.oam_data[2] = 0b1000_0000;
    assert_eq!(pixel_entry(&ppu, 30, 20), 0x11);
    assert_eq!(pixel_entry(&ppu, 30, 28), 0x3F);
}

#[test]
fn test_sprite_at_the_edge_of_the_picture() {
    let mut ppu = picture_unit();
    ppu.ctrl = 0b0000_1000;
    for i in 0..64 {
        ppu.oam_data[4 * i] = 0xF0;
    }
    ppu.oam_data[0] = 236;
    ppu.oam_data[1] = 1;
    ppu.oam_data[2] = 0b0100_0000;
    ppu.oam_data[3] = 252;
    let mut frame = Frame::new();
    render(&ppu, &mut frame);
    assert_eq!(pixel(&frame, 255, 239), system_color(0x3F));
    ppu.oam_data[3] = 248;
    render(&ppu, &mut frame);
    assert_eq!(pixel(&frame, 255, 239), system_color(0x13));
    assert_eq!(pixel(&frame, 254, 239), system_color(0x3F));
}

#[test]
fn test_tile_sheet() {
    let ppu = picture_unit();
    let mut frame = Frame::new();
    frame.set_pixel(0, 64, (7, 7, 7));
    render_tile_sheet(&ppu, 0, &mut frame);
    assert_eq!(pixel(&frame, 0, 0), system_color(0x0F));
    assert_eq!(pixel(&frame, 8, 0), system_color(0x30));
    assert_eq!(pixel(&frame, 9, 0), system_color(0x00));
    assert_eq!(pixel(&frame, 16, 0), system_color(0x0F));
    assert_eq!(pixel(&frame, 17, 0), system_color(0x10));
    assert_eq!(pixel(&frame, 0, 64), (7, 7, 7));
    render_tile_sheet(&ppu, 0x1000, &mut frame);
    assert_eq!(pixel(&frame, 8, 7), system_color(0x30));
    assert_eq!(pixel(&frame, 9, 7), system_color(0x0F));
}
