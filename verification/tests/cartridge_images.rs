use nes_core::bus::Bus;
use nes_core::cartridge::{Mirroring, Rom, RomError};
use nes_core::cpu::Memory;

fn image(prg_units: u8, chr_units: u8, flags6: u8, flags7: u8, trainer: bool) -> Vec<u8> {
    let mut raw = vec![0x4E, 0x45, 0x53, 0x1A, prg_units, chr_units, flags6, flags7];
    raw.extend(vec![0u8; 8]);
    if trainer {
        raw.extend(vec![0xEE; 512]);
    }
    raw.extend((0..prg_units as usize * 16384).map(|i| (i % 199) as u8));
    raw.extend((0..chr_units as usize * 8192).map(|i| (i % 97) as u8 | 0x80));
    raw
}

fn parsed(raw: &Vec<u8>) -> Rom {
    match Rom::parse(raw) {
        Ok(rom) => rom,
        Err(error) => panic!("no cartridge: {:?}", error),
    }
}

#[test]
fn parses_a_plain_image() {
    let raw = image(2, 1, 0x31, 0x00, false);
    let rom = parsed(&raw);
    assert_eq!(rom.prg_rom.len(), 32768);
    assert_eq!(rom.chr_rom.len(), 8192);
    assert_eq!(rom.prg_rom[..], raw[16..16 + 32768]);
    assert_eq!(rom.chr_rom[..], raw[16 + 32768..]);
    assert_eq!(rom.mapper, 3);
    assert_eq!(rom.screen_mirroring, Mirroring::Vertical);
    assert!(!rom.has_trainer);
    assert!(!rom.has_battery);
}

#[test]
fn skips_the_trainer() {
    let raw = image(1, 1, 0x04, 0x00, true);
    let rom = parsed(&raw);
    assert!(rom.has_trainer);
    assert_eq!(rom.prg_rom.len(), 16384);
    assert_eq!(rom.prg_rom[0], 0);
    assert_eq!(rom.prg_rom[1], 1);
    assert_eq!(rom.prg_rom[..], raw[528..528 + 16384]);
    assert_eq!(rom.chr_rom[..], raw[528 + 16384..]);
    assert_eq!(rom.screen_mirroring, Mirroring::Horizontal);
}

#[test]
fn mapper_joins_two_nibbles() {
    let rom = parsed(&image(1, 0, 0x10, 0x40, false));
    assert_eq!(rom.mapper, 0x41);
    let rom = parsed(&image(1, 0, 0xF0, 0xF0, false));
    assert_eq!(rom.mapper, 0xFF);
    let rom = parsed(&image(1, 0, 0x0F, 0x03, false).iter().copied().chain(vec![0u8; 512]).collect());
    assert_eq!(rom.mapper, 0x00);
}

#[test]
fn mirroring_modes() {
    assert_eq!(parsed(&image(1, 0, 0x00, 0, false)).screen_mirroring, Mirroring::Horizontal);
    assert_eq!(parsed(&image(1, 0, 0x01, 0, false)).screen_mirroring, Mirroring::Vertical);
    assert_eq!(parsed(&image(1, 0, 0x08, 0, false)).screen_mirroring, Mirroring::FourScreen);
    assert_eq!(parsed(&image(1, 0, 0x09, 0, false)).screen_mirroring, Mirroring::FourScreen);
}

#[test]
fn battery_flag() {
    assert!(parsed(&image(1, 0, 0x02, 0, false)).has_battery);
    assert!(!parsed(&image(1, 0, 0x01, 0, false)).has_battery);
}

#[test]
fn character_rom_may_be_absent() {
    let rom = parsed(&image(1, 0, 0x00, 0x00, false));
    assert_eq!(rom.chr_rom.len(), 0);
    assert_eq!(rom.prg_rom.len(), 16384);
}

#[test]
fn bytes_after_the_image_are_ignored() {
    let mut raw = image(1, 1, 0x00, 0x00, false);
    raw.extend(vec![0x55; 100]);
    let rom = parsed(&raw);
    assert_eq!(rom.prg_rom.len(), 16384);
    assert_eq!(rom.chr_rom.len(), 8192);
    assert_eq!(rom.chr_rom[8191], raw[16 + 16384 + 8191]);
}

#[test]
fn rejects_bad_magic() {
    let mut raw = image(1, 1, 0x00, 0x00, false);
    raw[3] = 0x1B;
    assert_eq!(Rom::parse(&raw).err(), Some(RomError::InvalidMagic));
    raw[3] = 0x1A;
    raw[0] = b'n';
    assert_eq!(Rom::parse(&raw).err(), Some(RomError::InvalidMagic));
    assert_eq!(Rom::parse(&Vec::new()).err(), Some(RomError::InvalidMagic));
    assert_eq!(Rom::parse(&vec![0x4E, 0x45, 0x53]).err(), Some(RomError::InvalidMagic));
}

#[test]
fn rejects_other_versions() {
    assert_eq!(
        Rom::parse(&image(1, 1, 0x00, 0x08, false)).err(),
        Some(RomError::UnsupportedVersion)
    );
    assert_eq!(
        Rom::parse(&image(1, 1, 0x00, 0x04, false)).err(),
        Some(RomError::UnsupportedVersion)
    );
    assert_eq!(
        Rom::parse(&image(1, 1, 0x00, 0x0C, false)).err(),
        Some(RomError::UnsupportedVersion)
    );
    assert!(Rom::parse(&image(1, 1, 0x00, 0x03, false)).is_ok());
}

#[test]
fn rejects_truncated_input() {
    let mut raw = image(1, 1, 0x00, 0x00, false);
    raw.pop();
    assert_eq!(Rom::parse(&raw).err(), Some(RomError::Truncated));
    assert_eq!(
        Rom::parse(&vec![0x4E, 0x45, 0x53, 0x1A]).err(),
        Some(RomError::Truncated)
    );
    assert_eq!(
        Rom::parse(&vec![0x4E, 0x45, 0x53, 0x1A, 1, 1, 0, 0, 0, 0, 0, 0, 0, 0, 0]).err(),
        Some(RomError::Truncated)
    );
    let without_trainer = image(1, 0, 0x04, 0x00, false);
    assert_eq!(Rom::parse(&without_trainer).err(), Some(RomError::Truncated));
}

#[test]
fn a_short_header_with_a_bad_version_byte_is_truncated() {
    let raw = vec![0x4E, 0x45, 0x53, 0x1A, 1, 1, 0, 0x08];
    assert_eq!(Rom::parse(&raw).err(), Some(RomError::Truncated));
}

#[test]
fn the_largest_image_parses() {
    let raw = image(255, 255, 0x00, 0x00, false);
    let rom = parsed(&raw);
    assert_eq!(rom.prg_rom.len(), 255 * 16384);
    assert_eq!(rom.chr_rom.len(), 255 * 8192);
}

#[test]
fn a_parsed_cartridge_is_read_through_the_bus() {
    let raw = image(1, 1, 0x00, 0x00, false);
    let bus = Bus::new(parsed(&raw));
    assert_eq!(bus.mem_read(0x8000), raw[16]);
    assert_eq!(bus.mem_read(0x8123), raw[16 + 0x123]);
    assert_eq!(bus.mem_read(0xC123), raw[16 + 0x123]);
    assert_eq!(bus.mem_read_u16(0xFFFC), u16::from_le_bytes([raw[16 + 0x3FFC], raw[16 + 0x3FFD]]));
}
