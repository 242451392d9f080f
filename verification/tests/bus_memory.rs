use nes_core::bus::Bus;
use nes_core::cartridge::{Mirroring, Rom};
use nes_core::cpu::Memory;

fn rom_with_banks(banks: usize) -> Rom {
    let prg_rom: Vec<u8> = (0..banks * 0x4000).map(|i| (i % 251) as u8).collect();
    Rom {
        prg_rom,
        chr_rom: Vec::new(),
        mapper: 0,
        screen_mirroring: Mirroring::Horizontal,
        has_trainer: false,
        has_battery: false,
    }
}

#[test]
fn ram_starts_zeroed() {
    let bus = Bus::new(rom_with_banks(1));
    for address in [0x0000u16, 0x0001, 0x07FF, 0x0800, 0x1FFF] {
        assert_eq!(bus.mem_read(address), 0);
    }
}

#[test]
fn ram_is_mirrored_four_times() {
    let mut bus = Bus::new(rom_with_banks(1));
    for address in 0..0x0800u16 {
        let value = (address % 253) as u8 ^ 0x5A;
        bus.mem_write(address, value);
        for k in 0..4u16 {
            assert_eq!(bus.mem_read(address + k * 0x0800), value);
        }
    }
}

#[test]
fn a_write_through_a_mirror_reaches_the_base_cell() {
    let mut bus = Bus::new(rom_with_banks(1));
    bus.mem_write(0x1801, 0x77);
    assert_eq!(bus.mem_read(0x0001), 0x77);
    assert_eq!(bus.mem_read(0x0801), 0x77);
    assert_eq!(bus.mem_read(0x1001), 0x77);
    assert_eq!(bus.mem_read(0x0002), 0x00);
}

#[test]
fn a_single_bank_answers_in_both_halves() {
    let bus = Bus::new(rom_with_banks(1));
    for i in 0..0x4000u16 {
        let expected = (i as usize % 251) as u8;
        assert_eq!(bus.mem_read(0x8000 + i), expected);
        assert_eq!(bus.mem_read(0xC000 + i), expected);
    }
}

#[test]
fn two_banks_fill_the_window() {
    let bus = Bus::new(rom_with_banks(2));
    assert_eq!(bus.mem_read(0x8000), 0);
    assert_eq!(bus.mem_read(0x8001), 1);
    assert_eq!(bus.mem_read(0xC000), (0x4000 % 251) as u8);
    assert_eq!(bus.mem_read(0xFFFF), (0x7FFF % 251) as u8);
}

#[test]
fn words_are_little_endian() {
    let mut bus = Bus::new(rom_with_banks(1));
    bus.mem_write_u16(0x0010, 0xBEEF);
    assert_eq!(bus.mem_read(0x0010), 0xEF);
    assert_eq!(bus.mem_read(0x0011), 0xBE);
    assert_eq!(bus.mem_read_u16(0x0810), 0xBEEF);
    assert_eq!(bus.mem_read_u16(0x8001), 0x0201);
}

#[test]
fn unmapped_addresses_read_zero_and_ignore_writes() {
    let mut bus = Bus::new(rom_with_banks(1));
    bus.mem_write(0x0000, 0x11);
    for address in [0x4000u16, 0x4017, 0x401F, 0x4020, 0x6000, 0x7FFF] {
        bus.mem_write(address, 0xAB);
        assert_eq!(bus.mem_read(address), 0);
    }
    assert_eq!(bus.mem_read(0x0000), 0x11);
    assert_eq!(bus.mem_read(0x8000), 0);
}

#[test]
fn ram_writes_leave_rom_alone() {
    let mut bus = Bus::new(rom_with_banks(2));
    for address in 0..0x2000u16 {
        bus.mem_write(address, 0xFF);
    }
    assert_eq!(bus.mem_read(0x8005), 5);
    assert_eq!(bus.mem_read(0xFFFF), (0x7FFF % 251) as u8);
}
