//! The cartridge: an iNES image taken apart into program ROM, character ROM,
//! the nametable mirroring and the mapper number.

use vstd::prelude::*;
use vstd::slice::slice_subrange;
use vstd::slice::slice_to_vec;

verus! {

/// How the two physical nametables are laid out over the four logical ones.
#[allow(non_camel_case_types)]
#[derive(Clone, Copy, Debug, PartialEq, Eq, Structural)]
pub enum Mirroring {
    VERTICAL,
    HORIZONTAL,
    FOUR_SCREEN,
}

/// Why an image was turned down.
#[derive(Clone, Copy, Debug, PartialEq, Eq, Structural)]
pub enum RomError {
    /// The image is shorter than a header or does not start with `NES\x1A`.
    InvalidHeader,
    /// The header announces a format other than iNES 1.
    UnsupportedVersion,
    /// The cartridge uses a mapper other than 0.
    UnsupportedMapper,
    /// The image ends before the program and character ROM that its header
    /// announces.
    TruncatedBody,
}

pub const HEADER_SIZE: usize = 16;

pub const TRAINER_SIZE: usize = 512;

pub const PRG_ROM_PAGE_SIZE: usize = 16384;

pub const CHR_ROM_PAGE_SIZE: usize = 8192;

/// What a cartridge holds, as a value.
pub struct Cartridge {
    pub prg: Seq<u8>,
    pub chr: Seq<u8>,
    pub mapper: u8,
    pub mirroring: Mirroring,
}

/// Whether the image is long enough for a header and starts with the four
/// bytes `N`, `E`, `S`, `0x1A`.
pub open spec fn has_ines_magic(raw: Seq<u8>) -> bool {
    &&& raw.len() >= HEADER_SIZE
    &&& raw[0] == 0x4E
    &&& raw[1] == 0x45
    &&& raw[2] == 0x53
    &&& raw[3] == 0x1A
}

/// The format version that flag byte 7 announces; 0 is iNES 1.
pub open spec fn ines_version(flags7: u8) -> u8 {
    (flags7 >> 2) & 0b11
}

/// The mapper number: its high nibble from flag byte 7, its low nibble from
/// the high nibble of flag byte 6.
pub open spec fn ines_mapper(flags6: u8, flags7: u8) -> u8 {
    (flags7 & 0b1111_0000) | (flags6 >> 4)
}

/// The mirroring that flag byte 6 announces: four-screen where bit 3 is set,
/// else vertical where bit 0 is set, else horizontal.
pub open spec fn ines_mirroring(flags6: u8) -> Mirroring {
    if flags6 & 0b1000 != 0 {
        Mirroring::FOUR_SCREEN
    } else if flags6 & 0b1 != 0 {
        Mirroring::VERTICAL
    } else {
        Mirroring::HORIZONTAL
    }
}

/// Where program ROM starts: behind the header, and behind the trainer where
/// bit 2 of flag byte 6 announces one.
pub open spec fn ines_prg_start(flags6: u8) -> int {
    HEADER_SIZE + if flags6 & 0b100 != 0 {
        TRAINER_SIZE as int
    } else {
        0
    }
}

/// The cartridge that an image describes, or the reason why it describes
/// none.
pub open spec fn decode(raw: Seq<u8>) -> Result<Cartridge, RomError> {
    if !has_ines_magic(raw) {
        Err(RomError::InvalidHeader)
    } else if ines_version(raw[7]) != 0 {
        Err(RomError::UnsupportedVersion)
    } else if ines_mapper(raw[6], raw[7]) != 0 {
        Err(RomError::UnsupportedMapper)
    } else {
        let prg_start = ines_prg_start(raw[6]);
        let chr_start = prg_start + raw[4] * PRG_ROM_PAGE_SIZE;
        let end = chr_start + raw[5] * CHR_ROM_PAGE_SIZE;
        if raw.len() < end {
            Err(RomError::TruncatedBody)
        } else {
            Ok(
                Cartridge {
                    prg: raw.subrange(prg_start, chr_start),
                    chr: raw.subrange(chr_start, end),
                    mapper: ines_mapper(raw[6], raw[7]),
                    mirroring: ines_mirroring(raw[6]),
                },
            )
        }
    }
}

/// A cartridge as it was read from an image.
pub struct Rom {
    pub prg_rom: Vec<u8>,
    pub chr_rom: Vec<u8>,
    pub mapper: u8,
    pub screen_mirroring: Mirroring,
}

impl View for Rom {
    type V = Cartridge;

    open spec fn view(&self) -> Cartridge {
        Cartridge {
            prg: self.prg_rom@,
            chr: self.chr_rom@,
            mapper: self.mapper,
            mirroring: self.screen_mirroring,
        }
    }
}

impl Rom {
    /// Takes an iNES image apart.
    pub fn new(raw: &Vec<u8>) -> (res: Result<Rom, RomError>)
        ensures
            match res {
                Ok(rom) => decode(raw@) == Ok::<Cartridge, RomError>(rom@),
                Err(e) => decode(raw@) == Err::<Cartridge, RomError>(e),
            },
    {
        if raw.len() < HEADER_SIZE || raw[0] != 0x4E || raw[1] != 0x45 || raw[2] != 0x53 || raw[3]
            != 0x1A {
            return Err(RomError::InvalidHeader);
        }
        let flags6: u8 = raw[6];
        let flags7: u8 = raw[7];
        if (flags7 >> 2) & 0b11 != 0 {
            return Err(RomError::UnsupportedVersion);
        }
        let mapper: u8 = (flags7 & 0b1111_0000) | (flags6 >> 4);
        if mapper != 0 {
            return Err(RomError::UnsupportedMapper);
        }
        let screen_mirroring = if flags6 & 0b1000 != 0 {
            Mirroring::FOUR_SCREEN
        } else if flags6 & 0b1 != 0 {
            Mirroring::VERTICAL
        } else {
            Mirroring::HORIZONTAL
        };
        let prg_rom_size: usize = raw[4] as usize * PRG_ROM_PAGE_SIZE;
        let chr_rom_size: usize = raw[5] as usize * CHR_ROM_PAGE_SIZE;
        let prg_rom_start: usize = HEADER_SIZE + if flags6 & 0b100 != 0 {
            TRAINER_SIZE
        } else {
            0
        };
        let chr_rom_start: usize = prg_rom_start + prg_rom_size;
        if raw.len() < chr_rom_start + chr_rom_size {
            return Err(RomError::TruncatedBody);
        }
        let bytes = raw.as_slice();
        let prg_rom = slice_to_vec(slice_subrange(bytes, prg_rom_start, chr_rom_start));
        let chr_rom = slice_to_vec(
            slice_subrange(bytes, chr_rom_start, chr_rom_start + chr_rom_size),
        );
        Ok(Rom { prg_rom, chr_rom, mapper, screen_mirroring })
    }
}

} // verus!
