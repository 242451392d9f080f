//! The memory bus: 2 KiB of work RAM mirrored four times, the window of the
//! picture unit's registers, and the cartridge's program ROM.

use vstd::prelude::*;
use crate::cartridge::Rom;
use crate::cpu::Memory;

verus! {

/// First address of the work RAM and its mirrors.
pub const RAM: u16 = 0x0000;

/// Last address of the work RAM's mirrors.
pub const RAM_MIRRORS_END: u16 = 0x1FFF;

/// First address of the picture unit's register window.
pub const PPU_REGISTERS: u16 = 0x2000;

/// Last address of the picture unit's register window.
pub const PPU_MIRRORS_END: u16 = 0x3FFF;

/// First address of the program ROM window.
pub const PRG_ROM: u16 = 0x8000;

/// Size of the work RAM.
pub const RAM_SIZE: usize = 2048;

/// Size of one program ROM bank; a cartridge with a single bank shows it twice.
pub const PRG_BANK_SIZE: usize = 0x4000;

/// What the bus holds: the work RAM and the cartridge's program ROM.
pub struct BusState {
    pub ram: Seq<u8>,
    pub prg_rom: Seq<u8>,
}

impl BusState {
    /// The work RAM is complete.
    pub open spec fn wf(self) -> bool {
        self.ram.len() == RAM_SIZE
    }

    /// The program ROM has one bank or two.
    pub open spec fn has_mapped_rom(self) -> bool {
        self.prg_rom.len() == PRG_BANK_SIZE || self.prg_rom.len() == 2 * PRG_BANK_SIZE
    }
}

/// `address` lies in the work RAM or one of its mirrors.
pub open spec fn in_ram(address: u16) -> bool {
    address <= RAM_MIRRORS_END
}

/// `address` lies in the window of the picture unit's registers, which this
/// bus does not serve.
pub open spec fn in_ppu_window(address: u16) -> bool {
    PPU_REGISTERS <= address <= PPU_MIRRORS_END
}

/// `address` lies in the program ROM window.
pub open spec fn in_prg_rom(address: u16) -> bool {
    address >= PRG_ROM
}

/// The RAM cell behind `address`.
pub open spec fn ram_cell(address: u16) -> int {
    address as int % RAM_SIZE as int
}

/// The offset into a program ROM of `len` bytes behind `address`.
pub open spec fn prg_offset(address: u16, len: nat) -> int {
    (address - PRG_ROM) % len as int
}

/// The bus between the processor and the rest of the machine.
pub struct Bus {
    cpu_vram: [u8; 2048],
    rom: Rom,
}

impl View for Bus {
    type V = BusState;

    closed spec fn view(&self) -> BusState {
        BusState { ram: self.cpu_vram@, prg_rom: self.rom.prg_rom@ }
    }
}

impl Memory for Bus {
    /// Every address can be read but those of the picture unit's window,
    /// and those of the ROM window when the cartridge's ROM is not of one or
    /// two banks.
    open spec fn readable(space: BusState, address: u16) -> bool {
        if in_prg_rom(address) {
            space.has_mapped_rom()
        } else {
            !in_ppu_window(address)
        }
    }

    /// The picture unit's window and the ROM take no writes.
    open spec fn writable(space: BusState, address: u16) -> bool {
        !in_ppu_window(address) && !in_prg_rom(address)
    }

    /// RAM and ROM give the cell behind the address; the remaining addresses read as zero.
    open spec fn peek(space: BusState, address: u16) -> u8 {
        if in_ram(address) {
            space.ram[ram_cell(address)]
        } else if in_prg_rom(address) {
            space.prg_rom[prg_offset(address, space.prg_rom.len())]
        } else {
            0
        }
    }

    /// A write changes the RAM cell behind the address; outside the RAM it changes nothing.
    open spec fn poke(space: BusState, address: u16, value: u8) -> BusState {
        if in_ram(address) {
            BusState { ram: space.ram.update(ram_cell(address), value), ..space }
        } else {
            space
        }
    }

    proof fn lemma_poke_keeps_access(space: BusState, address: u16, value: u8) {
    }

    fn mem_read(&self, address: u16) -> (value: u8) {
        if address <= RAM_MIRRORS_END {
            let mirror_down_address = address & 0b0000_0111_1111_1111;
            assert(address & 0b0000_0111_1111_1111 == address % 2048) by (bit_vector);
            self.cpu_vram[mirror_down_address as usize]
        } else if address >= PRG_ROM {
            self.read_rpg_rom(address)
        } else {
            0
        }
    }

    fn mem_write(&mut self, address: u16, value: u8) {
        if address <= RAM_MIRRORS_END {
            let mirror_down_address = address & 0b111_1111_1111;
            assert(address & 0b111_1111_1111 == address % 2048) by (bit_vector);
            self.cpu_vram[mirror_down_address as usize] = value;
        }
    }
}

impl Bus {
    /// A bus with zeroed work RAM over the cartridge `rom`.
    pub fn new(rom: Rom) -> (bus: Bus)
        ensures
            bus@ == (BusState { ram: Seq::new(RAM_SIZE as nat, |i: int| 0u8), prg_rom: rom.prg_rom@ }),
    {
        let bus = Bus { cpu_vram: [0; 2048], rom: rom };
        assert(bus@.ram =~= Seq::new(RAM_SIZE as nat, |i: int| 0u8));
        bus
    }

    /// The model's work RAM is always complete.
    pub proof fn lemma_view_wf(&self)
        ensures
            self@.wf(),
    {
    }

    /// Reads the program ROM; a single bank answers in both halves of the window.
    fn read_rpg_rom(&self, addr: u16) -> (value: u8)
        requires
            addr >= PRG_ROM,
            self@.has_mapped_rom(),
        ensures
            value == self@.prg_rom[prg_offset(addr, self@.prg_rom.len())],
    {
        let mut addr = addr - 0x8000;
        if self.rom.prg_rom.len() == 0x4000 && addr >= 0x4000 {
            addr = addr % 0x4000;
        }
        self.rom.prg_rom[addr as usize]
    }
}

} // verus!
