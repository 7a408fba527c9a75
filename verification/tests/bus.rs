use rnes::comp::bus::Bus;
use rnes::comp::controller::ControllerButtons;
use rnes::comp::cpu::Mem;
use rnes::comp::rom::Rom;

fn cartridge(prg: Vec<u8>, flags6: u8) -> Rom {
    let mut raw = vec![0x4E, 0x45, 0x53, 0x1A, (prg.len() / 16384) as u8, 1, flags6, 0];
    raw.extend_from_slice(&[0; 8]);
    raw.extend_from_slice(&prg);
    raw.extend_from_slice(&[0; 8192]);
    Rom::new(&raw).unwrap()
}

fn small_bus() -> Bus {
    let mut prg = vec![0u8; 16384];
    prg[0] = 0xAB;
    prg[0x3FFF] = 0xCD;
    Bus::new(cartridge(prg, 0))
}

#[test]
fn ram_is_mirrored_every_2k() {
    let mut bus = small_bus();
    bus.mem_write(0x0123, 0x55);
    assert_eq!(bus.mem_read(0x0123), 0x55);
    assert_eq!(bus.mem_read(0x0923), 0x55);
    assert_eq!(bus.mem_read(0x1123), 0x55);
    assert_eq!(bus.mem_read(0x1923), 0x55);
    bus.mem_write(0x1FFF, 0x66);
    assert_eq!(bus.mem_read(0x07FF), 0x66);
    assert_eq!(bus.mem_read(0x0FFF), 0x66);
    assert_eq!(bus.mem_read(0x17FF), 0x66);
    assert_eq!(bus.mem_read(0x0000), 0x00);
}

#[test]
fn a_small_program_rom_appears_twice() {
    let mut bus = small_bus();
    assert_eq!(bus.mem_read(0x8000), 0xAB);
    assert_eq!(bus.mem_read(0xC000), 0xAB);
    assert_eq!(bus.mem_read(0xBFFF), 0xCD);
    assert_eq!(bus.mem_read(0xFFFF), 0xCD);
}

#[test]
fn a_large_program_rom_appears_once() {
    let mut prg = vec![0u8; 32768];
    prg[0] = 0x11;
    prg[0x4000] = 0x22;
    prg[0x7FFF] = 0x33;
    let mut bus = Bus::new(cartridge(prg, 0));
    assert_eq!(bus.mem_read(0x8000), 0x11);
    assert_eq!(bus.mem_read(0xC000), 0x22);
    assert_eq!(bus.mem_read(0xFFFF), 0x33);
}

#[test]
fn writes_to_rom_are_ignored() {
    let mut bus = small_bus();
    bus.mem_write(0x8000, 0x99);
    assert_eq!(bus.mem_read(0x8000), 0xAB);
    bus.mem_write_u16(0xFFFC, 0x1234);
    assert_eq!(bus.mem_read_u16(0xFFFC), 0x0000);
}

#[test]
fn unmapped_addresses_read_zero() {
    let mut bus = small_bus();
    for addr in [0x4000u16, 0x4013, 0x4015, 0x4017, 0x4018, 0x5000, 0x7FFF] {
        bus.mem_write(addr, 0x77);
        assert_eq!(bus.mem_read(addr), 0, "at {:04x}", addr);
    }
    assert_eq!(bus.mem_read(0x4014), 0);
}

#[test]
fn words_are_little_endian_and_wrap() {
    let mut bus = small_bus();
    bus.mem_write_u16(0x0010, 0xBEEF);
    assert_eq!(bus.mem_read(0x0010), 0xEF);
    assert_eq!(bus.mem_read(0x0011), 0xBE);
    assert_eq!(bus.mem_read_u16(0x0010), 0xBEEF);
    bus.mem_write(0x0000, 0x44);
    assert_eq!(bus.mem_read_u16(0xFFFF), 0x44CD);
    assert_eq!(bus.peek_u16(0xFFFF), 0x44CD);
}

#[test]
fn ppu_registers_are_mirrored_every_8_bytes() {
    let mut bus = small_bus();
    // The address register at $2006 through a mirror, the data register
    // at $2007 through another.
    bus.mem_write(0x3FFE, 0x21);
    bus.mem_write(0x2EFE, 0x05);
    bus.mem_write(0x3FFF, 0x9A);
    bus.mem_write(0x2006, 0x21);
    bus.mem_write(0x2006, 0x05);
    let _stale = bus.mem_read(0x200F);
    assert_eq!(bus.mem_read(0x2017), 0x9A);
}

#[test]
fn the_controller_is_read_at_4016() {
    let mut bus = small_bus();
    bus.joypad1.set_button_pressed_status(ControllerButtons::BUTTON_B, true);
    bus.joypad1.set_button_pressed_status(ControllerButtons::UP, true);
    bus.mem_write(0x4016, 1);
    bus.mem_write(0x4016, 0);
    let mut bits = vec![];
    for _ in 0..10 {
        bits.push(bus.mem_read(0x4016));
    }
    assert_eq!(bits, vec![0, 1, 0, 0, 1, 0, 0, 0, 1, 1]);
}

#[test]
fn peek_reads_without_effect() {
    let mut bus = small_bus();
    bus.joypad1.set_button_pressed_status(ControllerButtons::BUTTON_A, true);
    bus.mem_write(0x4016, 0);
    assert_eq!(bus.peek(0x4016), 1);
    assert_eq!(bus.peek(0x4016), 1);
    assert_eq!(bus.mem_read(0x4016), 1);
    assert_eq!(bus.peek(0x4016), 0);
    bus.mem_write(0x0042, 7);
    assert_eq!(bus.peek(0x0842), 7);
    assert_eq!(bus.peek(0x8000), 0xAB);
}

#[test]
fn a_tick_runs_the_ppu_three_dots_per_cycle() {
    let mut bus = small_bus();
    assert_eq!(bus.cycles(), 0);
    bus.tick(1);
    assert_eq!((bus.ppu.scanline, bus.ppu.dot), (0, 3));
    bus.tick(113);
    assert_eq!(bus.cycles(), 114);
    assert_eq!((bus.ppu.scanline, bus.ppu.dot), (1, 1));
    let mut total: u64 = 114;
    for _ in 0..1000 {
        bus.tick(97);
        total += 97;
        let dots = bus.ppu.frame * 89342 + bus.ppu.scanline as u64 * 341 + bus.ppu.dot as u64;
        assert_eq!(dots, 3 * total);
    }
    assert_eq!(bus.cycles() as u64, total);
    assert_eq!(bus.ppu.frame, 3);
}

#[test]
fn sprite_dma_copies_a_page_and_stalls() {
    let mut bus = small_bus();
    for i in 0..256u16 {
        bus.mem_write(0x0200 + i, (i as u8) ^ 0x5A);
    }
    bus.mem_write(0x2003, 0x10);
    bus.mem_write(0x4014, 0x02);
    assert_eq!(bus.dma_stall(), 513);
    for i in 0..256usize {
        assert_eq!(bus.ppu.oam_data[(0x10 + i) % 256], (i as u8) ^ 0x5A);
    }
    assert_eq!(bus.ppu.oam_addr, 0x10);
    assert_eq!(bus.cycles(), 0);
    bus.settle_dma();
    assert_eq!(bus.cycles(), 513);
    assert_eq!(bus.dma_stall(), 0);
    bus.mem_write(0x4014, 0x02);
    assert_eq!(bus.dma_stall(), 514);
    bus.settle_dma();
    assert_eq!(bus.cycles(), 513 + 514);
}

#[test]
fn the_interrupt_is_polled_once() {
    let mut bus = small_bus();
    bus.mem_write(0x2000, 0x80);
    assert_eq!(bus.poll_nmi_status(), None);
    // 241 scanlines and one dot: 82182 dots, 27394 cycles.
    for _ in 0..27393 {
        bus.tick(1);
    }
    assert_eq!(bus.poll_nmi_status(), None);
    assert!(!bus.take_frame());
    bus.tick(1);
    assert!(bus.take_frame());
    assert!(!bus.take_frame());
    assert!(bus.poll_nmi_status().is_some());
    assert_eq!(bus.poll_nmi_status(), None);
}
