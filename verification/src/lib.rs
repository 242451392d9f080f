//! The core of an 8-bit NES-class machine: a MOS 6502 interpreter, its memory
//! bus and the iNES cartridge decoder, with machine-checked contracts.

pub mod bus;
pub mod cartridge;
pub mod cpu;
pub mod laws;
pub mod opcodes;
pub mod state;
pub mod status_flags;
