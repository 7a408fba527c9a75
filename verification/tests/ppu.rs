use rnes::comp::ppu::NesPPU;
use rnes::comp::rom::Mirroring;

fn ppu(mirroring: Mirroring) -> NesPPU {
    let mut chr = vec![0u8; 8192];
    chr[0x0005] = 0x77;
    chr[0x1FFF] = 0x88;
    NesPPU::new(chr, mirroring)
}

fn point(ppu: &mut NesPPU, addr: u16) {
    ppu.write_register(6, (addr >> 8) as u8);
    ppu.write_register(6, (addr & 0xFF) as u8);
}

#[test]
fn vram_writes_are_read_back_buffered() {
    let mut ppu = ppu(Mirroring::HORIZONTAL);
    point(&mut ppu, 0x2305);
    ppu.write_register(7, 0x66);
    ppu.write_register(7, 0x67);
    point(&mut ppu, 0x2305);
    assert_eq!(ppu.read_register(7), 0x00);
    assert_eq!(ppu.read_register(7), 0x66);
    assert_eq!(ppu.read_register(7), 0x67);
    assert_eq!(ppu.addr, 0x2308);
}

#[test]
fn character_rom_is_read_and_not_written() {
    let mut ppu = ppu(Mirroring::HORIZONTAL);
    point(&mut ppu, 0x0005);
    ppu.write_register(7, 0x99);
    point(&mut ppu, 0x0005);
    let _ = ppu.read_register(7);
    assert_eq!(ppu.read_register(7), 0x77);
    point(&mut ppu, 0x1FFF);
    let _ = ppu.read_register(7);
    assert_eq!(ppu.read_register(7), 0x88);
}

#[test]
fn the_pointer_steps_by_32_when_asked() {
    let mut ppu = ppu(Mirroring::HORIZONTAL);
    ppu.write_register(0, 0b100);
    point(&mut ppu, 0x2000);
    ppu.write_register(7, 1);
    ppu.write_register(7, 2);
    ppu.write_register(7, 3);
    assert_eq!(ppu.addr, 0x2060);
    assert_eq!(ppu.vram[0x00], 1);
    assert_eq!(ppu.vram[0x20], 2);
    assert_eq!(ppu.vram[0x40], 3);
}

#[test]
fn the_pointer_wraps_at_15_bits() {
    let mut ppu = ppu(Mirroring::HORIZONTAL);
    ppu.write_register(0, 0b100);
    point(&mut ppu, 0x3FF0);
    assert_eq!(ppu.addr, 0x3FF0);
    for _ in 0..0x200 {
        let _ = ppu.read_register(7);
    }
    assert_eq!(ppu.addr, 0x7FF0);
    let _ = ppu.read_register(7);
    assert_eq!(ppu.addr, 0x0010);
}

#[test]
fn horizontal_mirroring_pairs_the_tables_side_by_side() {
    let mut ppu = ppu(Mirroring::HORIZONTAL);
    point(&mut ppu, 0x2005);
    ppu.write_register(7, 0xA1);
    point(&mut ppu, 0x2805);
    ppu.write_register(7, 0xB2);
    assert_eq!(ppu.vram[0x005], 0xA1);
    assert_eq!(ppu.vram[0x405], 0xB2);
    assert_eq!(ppu.mirror_vram_addr(0x2405), 0x005);
    assert_eq!(ppu.mirror_vram_addr(0x2C05), 0x405);
    assert_eq!(ppu.mirror_vram_addr(0x3405), 0x005);
    assert_eq!(ppu.mirror_vram_addr(0x2FFF), 0x7FF);
}

#[test]
fn vertical_mirroring_pairs_the_tables_one_above_the_other() {
    let ppu = ppu(Mirroring::VERTICAL);
    assert_eq!(ppu.mirror_vram_addr(0x2005), 0x005);
    assert_eq!(ppu.mirror_vram_addr(0x2405), 0x405);
    assert_eq!(ppu.mirror_vram_addr(0x2805), 0x005);
    assert_eq!(ppu.mirror_vram_addr(0x2C05), 0x405);
    assert_eq!(ppu.mirror_vram_addr(0x3C05), 0x405);
}

#[test]
fn palette_reads_are_immediate_and_refill_the_buffer() {
    let mut ppu = ppu(Mirroring::VERTICAL);
    point(&mut ppu, 0x2F01);
    ppu.write_register(7, 0x5C);
    point(&mut ppu, 0x3F01);
    ppu.write_register(7, 0x2A);
    point(&mut ppu, 0x3F01);
    assert_eq!(ppu.read_register(7), 0x2A);
    assert_eq!(ppu.buffer, 0x5C);
    point(&mut ppu, 0x3F21);
    assert_eq!(ppu.read_register(7), 0x2A);
}

#[test]
fn sprite_palette_entry_zero_is_the_backdrop() {
    let mut ppu = ppu(Mirroring::VERTICAL);
    point(&mut ppu, 0x3F10);
    ppu.write_register(7, 0x0F);
    assert_eq!(ppu.palette_table[0x00], 0x0F);
    point(&mut ppu, 0x3F04);
    ppu.write_register(7, 0x11);
    point(&mut ppu, 0x3F14);
    assert_eq!(ppu.read_register(7), 0x11);
    assert_eq!(NesPPU::mirror_palette_addr(0x3F1C), 0x0C);
    assert_eq!(NesPPU::mirror_palette_addr(0x3F1D), 0x1D);
    assert_eq!(NesPPU::mirror_palette_addr(0x3F11), 0x11);
}

#[test]
fn reading_the_status_clears_vblank_and_the_toggle() {
    let mut ppu = ppu(Mirroring::VERTICAL);
    ppu.status = 0b1110_0000;
    ppu.write_register(6, 0x21);
    assert!(ppu.latch);
    assert_eq!(ppu.peek_register(2) & 0xE0, 0xE0);
    assert_eq!(ppu.read_register(2) & 0xE0, 0xE0);
    assert!(!ppu.latch);
    assert_eq!(ppu.status, 0b0110_0000);
    assert_eq!(ppu.read_register(2) & 0xE0, 0x60);
    // The next write to the address register is a first write again.
    ppu.write_register(6, 0x23);
    ppu.write_register(6, 0x45);
    assert_eq!(ppu.addr, 0x2345);
}

#[test]
fn the_status_floats_in_its_low_bits() {
    let mut ppu = ppu(Mirroring::VERTICAL);
    ppu.status = 0b1000_0000;
    ppu.write_register(1, 0b0001_1111);
    assert_eq!(ppu.read_register(2), 0b1001_1111);
    assert_eq!(ppu.read_register(0), 0b1001_1111);
}

#[test]
fn scroll_takes_x_then_y() {
    let mut ppu = ppu(Mirroring::VERTICAL);
    ppu.write_register(5, 0x12);
    ppu.write_register(5, 0x34);
    assert_eq!((ppu.scroll_x, ppu.scroll_y), (0x12, 0x34));
    ppu.write_register(5, 0x56);
    assert_eq!((ppu.scroll_x, ppu.scroll_y), (0x56, 0x34));
}

#[test]
fn sprite_memory_is_written_at_the_sprite_address() {
    let mut ppu = ppu(Mirroring::VERTICAL);
    ppu.write_register(3, 0xFE);
    ppu.write_register(4, 0x11);
    ppu.write_register(4, 0x22);
    ppu.write_register(4, 0x33);
    assert_eq!(ppu.oam_data[0xFE], 0x11);
    assert_eq!(ppu.oam_data[0xFF], 0x22);
    assert_eq!(ppu.oam_data[0x00], 0x33);
    assert_eq!(ppu.oam_addr, 0x01);
    ppu.write_register(3, 0xFF);
    assert_eq!(ppu.read_register(4), 0x22);
    assert_eq!(ppu.oam_addr, 0xFF);
}

#[test]
fn vblank_begins_at_scanline_241_dot_1() {
    let mut ppu = ppu(Mirroring::VERTICAL);
    ppu.write_register(0, 0x80);
    ppu.tick(241 * 341);
    assert_eq!((ppu.scanline, ppu.dot), (241, 0));
    assert_eq!(ppu.status & 0x80, 0);
    assert!(!ppu.nmi_pending);
    assert!(!ppu.frame_ready);
    ppu.tick(1);
    assert_eq!((ppu.scanline, ppu.dot), (241, 1));
    assert_eq!(ppu.status & 0x80, 0x80);
    assert!(ppu.nmi_pending);
    assert!(ppu.frame_ready);
    assert_eq!(ppu.poll_nmi_interrupt(), Some(1));
    assert_eq!(ppu.poll_nmi_interrupt(), None);
}

#[test]
fn vblank_without_the_enable_bit_raises_nothing() {
    let mut ppu = ppu(Mirroring::VERTICAL);
    ppu.tick(241 * 341 + 1);
    assert_eq!(ppu.status & 0x80, 0x80);
    assert!(ppu.frame_ready);
    assert!(!ppu.nmi_pending);
    // Enabling the interrupt during the blank raises it at once.
    ppu.write_register(0, 0x80);
    assert!(ppu.nmi_pending);
    assert_eq!(ppu.poll_nmi_interrupt(), Some(1));
    // Writing the bit again while it is set raises nothing.
    ppu.write_register(0, 0x80);
    assert!(!ppu.nmi_pending);
}

#[test]
fn the_frame_ends_after_262_scanlines() {
    let mut ppu = ppu(Mirroring::VERTICAL);
    ppu.tick(89341);
    assert_eq!((ppu.frame, ppu.scanline, ppu.dot), (0, 261, 340));
    assert_eq!(ppu.status & 0x80, 0x80);
    ppu.status |= 0x60;
    ppu.tick(1);
    assert_eq!((ppu.frame, ppu.scanline, ppu.dot), (1, 0, 0));
    assert_eq!(ppu.status & 0xE0, 0);
}

#[test]
fn sprite_zero_hit_is_noted_at_the_end_of_its_scanline() {
    let mut ppu = ppu(Mirroring::VERTICAL);
    ppu.oam_data[0] = 30;
    ppu.mask = 0x10;
    ppu.tick(30 * 341 + 340);
    assert_eq!(ppu.status & 0x40, 0);
    ppu.tick(1);
    assert_eq!((ppu.scanline, ppu.dot), (31, 0));
    assert_eq!(ppu.status & 0x40, 0x40);

    let mut hidden = NesPPU::new(vec![0; 8192], Mirroring::VERTICAL);
    hidden.oam_data[0] = 30;
    hidden.tick(40 * 341);
    assert_eq!(hidden.status & 0x40, 0);
}

#[test]
fn sprite_dma_wraps_in_sprite_memory() {
    let mut ppu = ppu(Mirroring::VERTICAL);
    let page: Vec<u8> = (0..=255u8).collect();
    ppu.write_register(3, 0xF0);
    ppu.write_oam_dma(&page);
    assert_eq!(ppu.oam_data[0xF0], 0);
    assert_eq!(ppu.oam_data[0xFF], 15);
    assert_eq!(ppu.oam_data[0x00], 16);
    assert_eq!(ppu.oam_data[0xEF], 255);
    assert_eq!(ppu.oam_addr, 0xF0);
}
