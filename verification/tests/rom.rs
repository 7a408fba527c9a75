use rnes::comp::rom::Mirroring;
use rnes::comp::rom::Rom;
use rnes::comp::rom::RomError;

fn rom_image(prg_banks: u8, chr_banks: u8, flags6: u8, flags7: u8, trainer: bool) -> Vec<u8> {
    let mut raw = vec![0x4E, 0x45, 0x53, 0x1A, prg_banks, chr_banks, flags6, flags7];
    raw.extend_from_slice(&[0; 8]);
    if trainer {
        raw.extend_from_slice(&[0xEE; 512]);
    }
    for bank in 0..prg_banks {
        raw.extend_from_slice(&[0x10 + bank; 16384]);
    }
    for bank in 0..chr_banks {
        raw.extend_from_slice(&[0x20 + bank; 8192]);
    }
    raw
}

#[test]
fn decodes_a_one_bank_cartridge() {
    let raw = rom_image(1, 1, 0x00, 0x00, false);
    let rom = Rom::new(&raw).unwrap();
    assert_eq!(rom.prg_rom.len(), 16384);
    assert_eq!(rom.chr_rom.len(), 8192);
    assert!(rom.prg_rom.iter().all(|b| *b == 0x10));
    assert!(rom.chr_rom.iter().all(|b| *b == 0x20));
    assert_eq!(rom.mapper, 0);
    assert_eq!(rom.screen_mirroring, Mirroring::HORIZONTAL);
}

#[test]
fn decodes_a_two_bank_cartridge() {
    let raw = rom_image(2, 1, 0x01, 0x00, false);
    let rom = Rom::new(&raw).unwrap();
    assert_eq!(rom.prg_rom.len(), 32768);
    assert_eq!(rom.prg_rom[0], 0x10);
    assert_eq!(rom.prg_rom[16383], 0x10);
    assert_eq!(rom.prg_rom[16384], 0x11);
    assert_eq!(rom.prg_rom[32767], 0x11);
    assert_eq!(rom.chr_rom[0], 0x20);
    assert_eq!(rom.screen_mirroring, Mirroring::VERTICAL);
}

#[test]
fn four_screen_overrides_the_mirroring_bit() {
    let rom = Rom::new(&rom_image(1, 1, 0x09, 0x00, false)).unwrap();
    assert_eq!(rom.screen_mirroring, Mirroring::FOUR_SCREEN);
    let rom = Rom::new(&rom_image(1, 1, 0x08, 0x00, false)).unwrap();
    assert_eq!(rom.screen_mirroring, Mirroring::FOUR_SCREEN);
}

#[test]
fn skips_the_trainer() {
    let raw = rom_image(1, 1, 0x04, 0x00, true);
    let rom = Rom::new(&raw).unwrap();
    assert_eq!(rom.prg_rom.len(), 16384);
    assert_eq!(rom.prg_rom[0], 0x10);
    assert_eq!(rom.chr_rom[8191], 0x20);
}

#[test]
fn rejects_a_wrong_magic() {
    let mut raw = rom_image(1, 1, 0, 0, false);
    raw[3] = 0x1B;
    assert_eq!(Rom::new(&raw).err(), Some(RomError::InvalidHeader));
    let mut raw = rom_image(1, 1, 0, 0, false);
    raw[0] = b'M';
    assert_eq!(Rom::new(&raw).err(), Some(RomError::InvalidHeader));
}

#[test]
fn rejects_an_image_shorter_than_a_header() {
    assert_eq!(Rom::new(&vec![]).err(), Some(RomError::InvalidHeader));
    assert_eq!(Rom::new(&vec![0x4E, 0x45, 0x53, 0x1A, 1, 1]).err(), Some(RomError::InvalidHeader));
    let raw = rom_image(0, 0, 0, 0, false);
    assert_eq!(raw.len(), 16);
    assert!(Rom::new(&raw).is_ok());
    assert_eq!(Rom::new(&raw[..15].to_vec()).err(), Some(RomError::InvalidHeader));
}

#[test]
fn rejects_other_versions() {
    assert_eq!(Rom::new(&rom_image(1, 1, 0, 0x08, false)).err(), Some(RomError::UnsupportedVersion));
    assert_eq!(Rom::new(&rom_image(1, 1, 0, 0x04, false)).err(), Some(RomError::UnsupportedVersion));
    assert_eq!(Rom::new(&rom_image(1, 1, 0, 0x0C, false)).err(), Some(RomError::UnsupportedVersion));
}

#[test]
fn rejects_other_mappers() {
    assert_eq!(Rom::new(&rom_image(1, 1, 0x10, 0, false)).err(), Some(RomError::UnsupportedMapper));
    assert_eq!(Rom::new(&rom_image(1, 1, 0, 0x40, false)).err(), Some(RomError::UnsupportedMapper));
}

#[test]
fn the_version_is_checked_before_the_mapper() {
    assert_eq!(Rom::new(&rom_image(1, 1, 0x10, 0x08, false)).err(), Some(RomError::UnsupportedVersion));
}

#[test]
fn rejects_a_truncated_body() {
    let mut raw = rom_image(1, 1, 0, 0, false);
    raw.pop();
    assert_eq!(Rom::new(&raw).err(), Some(RomError::TruncatedBody));
    let raw = rom_image(1, 1, 0x04, 0, false);
    assert_eq!(Rom::new(&raw).err(), Some(RomError::TruncatedBody));
    let mut raw = rom_image(2, 0, 0, 0, false);
    raw.truncate(16 + 16384);
    assert_eq!(Rom::new(&raw).err(), Some(RomError::TruncatedBody));
}

#[test]
fn bytes_behind_the_body_are_ignored() {
    let mut raw = rom_image(1, 1, 0, 0, false);
    raw.extend_from_slice(&[0xFF; 100]);
    let rom = Rom::new(&raw).unwrap();
    assert_eq!(rom.prg_rom.len(), 16384);
    assert_eq!(rom.chr_rom.len(), 8192);
    assert_eq!(rom.chr_rom[8191], 0x20);
}
