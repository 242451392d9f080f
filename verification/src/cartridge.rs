//! The iNES cartridge image: a 16-byte header, an optional 512-byte trainer,
//! the program ROM and the character ROM.

use vstd::prelude::*;

verus! {

/// Length of the header.
pub const HEADER_SIZE: usize = 16;

/// Length of the trainer, where the header announces one.
pub const TRAINER_SIZE: usize = 512;

/// The unit in which the header counts program ROM.
pub const PRG_ROM_PAGE_SIZE: usize = 16384;

/// The unit in which the header counts character ROM.
pub const CHR_ROM_PAGE_SIZE: usize = 8192;

/// How the picture unit's name tables are mirrored.
#[derive(Debug, Clone, Copy, PartialEq, Eq)]
pub enum Mirroring {
    Vertical,
    Horizontal,
    FourScreen,
}

/// Why a byte stream is no cartridge image.
#[derive(Debug, Clone, Copy, PartialEq, Eq)]
pub enum RomError {
    /// The stream does not begin with `'N' 'E' 'S' 0x1A`.
    InvalidMagic,
    /// The header's format version is not 1.0.
    UnsupportedVersion,
    /// The stream ends before the header, or before the ROM that the header announces.
    Truncated,
}

/// A decoded cartridge.
pub struct Rom {
    pub prg_rom: Vec<u8>,
    pub chr_rom: Vec<u8>,
    pub mapper: u8,
    pub screen_mirroring: Mirroring,
    pub has_trainer: bool,
    pub has_battery: bool,
}

/// What a cartridge holds.
pub struct RomImage {
    pub prg_rom: Seq<u8>,
    pub chr_rom: Seq<u8>,
    pub mapper: u8,
    pub screen_mirroring: Mirroring,
    pub has_trainer: bool,
    pub has_battery: bool,
}

impl View for Rom {
    type V = RomImage;

    open spec fn view(&self) -> RomImage {
        RomImage {
            prg_rom: self.prg_rom@,
            chr_rom: self.chr_rom@,
            mapper: self.mapper,
            screen_mirroring: self.screen_mirroring,
            has_trainer: self.has_trainer,
            has_battery: self.has_battery,
        }
    }
}

/// The stream begins with the four bytes that mark an iNES image.
pub open spec fn has_magic(raw: Seq<u8>) -> bool {
    raw.len() >= 4 && raw[0] == 0x4E && raw[1] == 0x45 && raw[2] == 0x53 && raw[3] == 0x1A
}

/// The format version: bits 2 and 3 of header byte 7.
pub open spec fn version_of(flags7: u8) -> u8 {
    (flags7 >> 2) & 0b11
}

/// The mapper number: high nibble from byte 7, low nibble from the high nibble of byte 6.
pub open spec fn mapper_of(flags6: u8, flags7: u8) -> u8 {
    (flags7 & 0b1111_0000) | (flags6 >> 4)
}

/// Bit 2 of byte 6: a trainer precedes the program ROM.
pub open spec fn trainer_of(flags6: u8) -> bool {
    flags6 & 0b100 != 0
}

/// Bit 1 of byte 6: the cartridge has battery-backed memory.
pub open spec fn battery_of(flags6: u8) -> bool {
    flags6 & 0b10 != 0
}

/// Bit 3 of byte 6 selects four-screen; otherwise bit 0 tells vertical from horizontal.
pub open spec fn mirroring_of(flags6: u8) -> Mirroring {
    if flags6 & 0b1000 != 0 {
        Mirroring::FourScreen
    } else if flags6 & 0b1 != 0 {
        Mirroring::Vertical
    } else {
        Mirroring::Horizontal
    }
}

/// Where the program ROM begins in an image with a full header.
pub open spec fn prg_start(raw: Seq<u8>) -> int {
    if trainer_of(raw[6]) {
        HEADER_SIZE + TRAINER_SIZE
    } else {
        HEADER_SIZE as int
    }
}

/// Where the character ROM begins: right after the program ROM.
pub open spec fn chr_start(raw: Seq<u8>) -> int {
    prg_start(raw) + raw[4] * PRG_ROM_PAGE_SIZE
}

/// Where the image ends.
pub open spec fn image_end(raw: Seq<u8>) -> int {
    chr_start(raw) + raw[5] * CHR_ROM_PAGE_SIZE
}

/// The cartridge that `raw` holds, or the reason why it holds none. The
/// stream is validated in this order: the magic, the length of the header,
/// the version, the length of the whole image. Bytes after the image are
/// ignored, and an image may announce no program ROM at all.
pub open spec fn decode(raw: Seq<u8>) -> Result<RomImage, RomError> {
    if !has_magic(raw) {
        Err(RomError::InvalidMagic)
    } else if raw.len() < HEADER_SIZE {
        Err(RomError::Truncated)
    } else if version_of(raw[7]) != 0 {
        Err(RomError::UnsupportedVersion)
    } else if raw.len() < image_end(raw) {
        Err(RomError::Truncated)
    } else {
        Ok(
            RomImage {
                prg_rom: raw.subrange(prg_start(raw), chr_start(raw)),
                chr_rom: raw.subrange(chr_start(raw), image_end(raw)),
                mapper: mapper_of(raw[6], raw[7]),
                screen_mirroring: mirroring_of(raw[6]),
                has_trainer: trainer_of(raw[6]),
                has_battery: battery_of(raw[6]),
            },
        )
    }
}

/// Copies `raw[start..end]`.
fn copy_range(raw: &Vec<u8>, start: usize, end: usize) -> (copy: Vec<u8>)
    requires
        start <= end <= raw@.len(),
    ensures
        copy@ == raw@.subrange(start as int, end as int),
{
    let mut copy: Vec<u8> = Vec::new();
    let mut next: usize = start;
    while next < end
        invariant
            start <= next <= end <= raw@.len(),
            copy@ == raw@.subrange(start as int, next as int),
        decreases end - next,
    {
        copy.push(raw[next]);
        next += 1;
        assert(copy@ =~= raw@.subrange(start as int, next as int));
    }
    copy
}

impl Rom {
    /// Decodes an iNES image.
    pub fn parse(raw: &Vec<u8>) -> (result: Result<Rom, RomError>)
        ensures
            match result {
                Ok(rom) => decode(raw@) == Ok::<RomImage, RomError>(rom@),
                Err(error) => decode(raw@) == Err::<RomImage, RomError>(error),
            },
    {
        if raw.len() < 4 || raw[0] != 0x4E || raw[1] != 0x45 || raw[2] != 0x53 || raw[3] != 0x1A {
            return Err(RomError::InvalidMagic);
        }
        if raw.len() < HEADER_SIZE {
            return Err(RomError::Truncated);
        }
        let flags6 = raw[6];
        let flags7 = raw[7];
        let ines_ver = (flags7 >> 2) & 0b11;
        if ines_ver != 0 {
            return Err(RomError::UnsupportedVersion);
        }
        let mapper = (flags7 & 0b1111_0000) | (flags6 >> 4);
        let has_trainer = flags6 & 0b100 != 0;
        let has_battery = flags6 & 0b10 != 0;
        let four_screen = flags6 & 0b1000 != 0;
        let vertical_mirroring = flags6 & 0b1 != 0;
        let screen_mirroring = if four_screen {
            Mirroring::FourScreen
        } else if vertical_mirroring {
            Mirroring::Vertical
        } else {
            Mirroring::Horizontal
        };
        let prg_rom_size: usize = raw[4] as usize * PRG_ROM_PAGE_SIZE;
        let chr_rom_size: usize = raw[5] as usize * CHR_ROM_PAGE_SIZE;
        let prg_rom_start: usize = HEADER_SIZE + if has_trainer {
            TRAINER_SIZE
        } else {
            0
        };
        let chr_rom_start: usize = prg_rom_start + prg_rom_size;
        if raw.len() < chr_rom_start + chr_rom_size {
            return Err(RomError::Truncated);
        }
        Ok(
            Rom {
                prg_rom: copy_range(raw, prg_rom_start, chr_rom_start),
                chr_rom: copy_range(raw, chr_rom_start, chr_rom_start + chr_rom_size),
                mapper,
                screen_mirroring,
                has_trainer,
                has_battery,
            },
        )
    }
}

} // verus!
