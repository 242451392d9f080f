//! The opcode table: one descriptor for each documented 6502 opcode.

use vstd::prelude::*;
use crate::cpu::AddressingMode;

verus! {

/// What the decoder knows of one opcode.
pub struct Instruction {
    /// The opcode byte.
    pub code: u8,
    /// The three-letter assembler name.
    pub mnemonic: &'static str,
    /// Encoded length in bytes, opcode included: 1, 2 or 3.
    pub len: u8,
    /// How the operand is found. `NoneAddressing` stands for implied,
    /// accumulator, relative and indirect-jump operands.
    pub mode: AddressingMode,
    /// Base cycle count, without page-crossing or branch penalties.
    pub cycles: u8,
}

impl Instruction {
    pub fn new(code: u8, mnemonic: &'static str, len: u8, mode: AddressingMode, cycles: u8) -> (instruction: Instruction)
        ensures
            instruction == (Instruction { code, mnemonic, len, mode, cycles }),
    {
        Instruction { code, mnemonic, len, mode, cycles }
    }
}

/// The table as a function of the opcode byte: the descriptor of a
/// documented opcode, `None` for the 105 other bytes.
#[verifier::opaque]
pub open spec fn instruction_for(code: u8) -> Option<Instruction> {
    match code {
        0x00 => Some(Instruction { code, mnemonic: "BRK", len: 1, mode: AddressingMode::NoneAddressing, cycles: 7 }),
        0x01 => Some(Instruction { code, mnemonic: "ORA", len: 2, mode: AddressingMode::IndirectX, cycles: 6 }),
        0x05 => Some(Instruction { code, mnemonic: "ORA", len: 2, mode: AddressingMode::ZeroPage, cycles: 3 }),
        0x06 => Some(Instruction { code, mnemonic: "ASL", len: 2, mode: AddressingMode::ZeroPage, cycles: 5 }),
        0x08 => Some(Instruction { code, mnemonic: "PHP", len: 1, mode: AddressingMode::NoneAddressing, cycles: 3 }),
        0x09 => Some(Instruction { code, mnemonic: "ORA", len: 2, mode: AddressingMode::Immediate, cycles: 2 }),
        0x0A => Some(Instruction { code, mnemonic: "ASL", len: 1, mode: AddressingMode::NoneAddressing, cycles: 2 }),
        0x0D => Some(Instruction { code, mnemonic: "ORA", len: 3, mode: AddressingMode::Absolute, cycles: 4 }),
        0x0E => Some(Instruction { code, mnemonic: "ASL", len: 3, mode: AddressingMode::Absolute, cycles: 6 }),
        0x10 => Some(Instruction { code, mnemonic: "BPL", len: 2, mode: AddressingMode::NoneAddressing, cycles: 2 }),
        0x11 => Some(Instruction { code, mnemonic: "ORA", len: 2, mode: AddressingMode::IndirectY, cycles: 5 }),
        0x15 => Some(Instruction { code, mnemonic: "ORA", len: 2, mode: AddressingMode::ZeroPageX, cycles: 4 }),
        0x16 => Some(Instruction { code, mnemonic: "ASL", len: 2, mode: AddressingMode::ZeroPageX, cycles: 6 }),
        0x18 => Some(Instruction { code, mnemonic: "CLC", len: 1, mode: AddressingMode::NoneAddressing, cycles: 2 }),
        0x19 => Some(Instruction { code, mnemonic: "ORA", len: 3, mode: AddressingMode::AbsoluteY, cycles: 4 }),
        0x1D => Some(Instruction { code, mnemonic: "ORA", len: 3, mode: AddressingMode::AbsoluteX, cycles: 4 }),
        0x1E => Some(Instruction { code, mnemonic: "ASL", len: 3, mode: AddressingMode::AbsoluteX, cycles: 7 }),
        0x20 => Some(Instruction { code, mnemonic: "JSR", len: 3, mode: AddressingMode::Absolute, cycles: 6 }),
        0x21 => Some(Instruction { code, mnemonic: "AND", len: 2, mode: AddressingMode::IndirectX, cycles: 6 }),
        0x24 => Some(Instruction { code, mnemonic: "BIT", len: 2, mode: AddressingMode::ZeroPage, cycles: 3 }),
        0x25 => Some(Instruction { code, mnemonic: "AND", len: 2, mode: AddressingMode::ZeroPage, cycles: 3 }),
        0x26 => Some(Instruction { code, mnemonic: "ROL", len: 2, mode: AddressingMode::ZeroPage, cycles: 5 }),
        0x28 => Some(Instruction { code, mnemonic: "PLP", len: 1, mode: AddressingMode::NoneAddressing, cycles: 4 }),
        0x29 => Some(Instruction { code, mnemonic: "AND", len: 2, mode: AddressingMode::Immediate, cycles: 2 }),
        0x2A => Some(Instruction { code, mnemonic: "ROL", len: 1, mode: AddressingMode::NoneAddressing, cycles: 2 }),
        0x2C => Some(Instruction { code, mnemonic: "BIT", len: 3, mode: AddressingMode::Absolute, cycles: 4 }),
        0x2D => Some(Instruction { code, mnemonic: "AND", len: 3, mode: AddressingMode::Absolute, cycles: 4 }),
        0x2E => Some(Instruction { code, mnemonic: "ROL", len: 3, mode: AddressingMode::Absolute, cycles: 6 }),
        0x30 => Some(Instruction { code, mnemonic: "BMI", len: 2, mode: AddressingMode::NoneAddressing, cycles: 2 }),
        0x31 => Some(Instruction { code, mnemonic: "AND", len: 2, mode: AddressingMode::IndirectY, cycles: 5 }),
        0x35 => Some(Instruction { code, mnemonic: "AND", len: 2, mode: AddressingMode::ZeroPageX, cycles: 4 }),
        0x36 => Some(Instruction { code, mnemonic: "ROL", len: 2, mode: AddressingMode::ZeroPageX, cycles: 6 }),
        0x38 => Some(Instruction { code, mnemonic: "SEC", len: 1, mode: AddressingMode::NoneAddressing, cycles: 2 }),
        0x39 => Some(Instruction { code, mnemonic: "AND", len: 3, mode: AddressingMode::AbsoluteY, cycles: 4 }),
        0x3D => Some(Instruction { code, mnemonic: "AND", len: 3, mode: AddressingMode::AbsoluteX, cycles: 4 }),
        0x3E => Some(Instruction { code, mnemonic: "ROL", len: 3, mode: AddressingMode::AbsoluteX, cycles: 7 }),
        0x40 => Some(Instruction { code, mnemonic: "RTI", len: 1, mode: AddressingMode::NoneAddressing, cycles: 6 }),
        0x41 => Some(Instruction { code, mnemonic: "EOR", len: 2, mode: AddressingMode::IndirectX, cycles: 6 }),
        0x45 => Some(Instruction { code, mnemonic: "EOR", len: 2, mode: AddressingMode::ZeroPage, cycles: 3 }),
        0x46 => Some(Instruction { code, mnemonic: "LSR", len: 2, mode: AddressingMode::ZeroPage, cycles: 5 }),
        0x48 => Some(Instruction { code, mnemonic: "PHA", len: 1, mode: AddressingMode::NoneAddressing, cycles: 3 }),
        0x49 => Some(Instruction { code, mnemonic: "EOR", len: 2, mode: AddressingMode::Immediate, cycles: 2 }),
        0x4A => Some(Instruction { code, mnemonic: "LSR", len: 1, mode: AddressingMode::NoneAddressing, cycles: 2 }),
        0x4C => Some(Instruction { code, mnemonic: "JMP", len: 3, mode: AddressingMode::Absolute, cycles: 3 }),
        0x4D => Some(Instruction { code, mnemonic: "EOR", len: 3, mode: AddressingMode::Absolute, cycles: 4 }),
        0x4E => Some(Instruction { code, mnemonic: "LSR", len: 3, mode: AddressingMode::Absolute, cycles: 6 }),
        0x50 => Some(Instruction { code, mnemonic: "BVC", len: 2, mode: AddressingMode::NoneAddressing, cycles: 2 }),
        0x51 => Some(Instruction { code, mnemonic: "EOR", len: 2, mode: AddressingMode::IndirectY, cycles: 5 }),
        0x55 => Some(Instruction { code, mnemonic: "EOR", len: 2, mode: AddressingMode::ZeroPageX, cycles: 4 }),
        0x56 => Some(Instruction { code, mnemonic: "LSR", len: 2, mode: AddressingMode::ZeroPageX, cycles: 6 }),
        0x58 => Some(Instruction { code, mnemonic: "CLI", len: 1, mode: AddressingMode::NoneAddressing, cycles: 2 }),
        0x59 => Some(Instruction { code, mnemonic: "EOR", len: 3, mode: AddressingMode::AbsoluteY, cycles: 4 }),
        0x5D => Some(Instruction { code, mnemonic: "EOR", len: 3, mode: AddressingMode::AbsoluteX, cycles: 4 }),
        0x5E => Some(Instruction { code, mnemonic: "LSR", len: 3, mode: AddressingMode::AbsoluteX, cycles: 7 }),
        0x60 => Some(Instruction { code, mnemonic: "RTS", len: 1, mode: AddressingMode::NoneAddressing, cycles: 6 }),
        0x61 => Some(Instruction { code, mnemonic: "ADC", len: 2, mode: AddressingMode::IndirectX, cycles: 6 }),
        0x65 => Some(Instruction { code, mnemonic: "ADC", len: 2, mode: AddressingMode::ZeroPage, cycles: 3 }),
        0x66 => Some(Instruction { code, mnemonic: "ROR", len: 2, mode: AddressingMode::ZeroPage, cycles: 5 }),
        0x68 => Some(Instruction { code, mnemonic: "PLA", len: 1, mode: AddressingMode::NoneAddressing, cycles: 4 }),
        0x69 => Some(Instruction { code, mnemonic: "ADC", len: 2, mode: AddressingMode::Immediate, cycles: 2 }),
        0x6A => Some(Instruction { code, mnemonic: "ROR", len: 1, mode: AddressingMode::NoneAddressing, cycles: 2 }),
        0x6C => Some(Instruction { code, mnemonic: "JMP", len: 3, mode: AddressingMode::NoneAddressing, cycles: 5 }),
        0x6D => Some(Instruction { code, mnemonic: "ADC", len: 3, mode: AddressingMode::Absolute, cycles: 4 }),
        0x6E => Some(Instruction { code, mnemonic: "ROR", len: 3, mode: AddressingMode::Absolute, cycles: 6 }),
        0x70 => Some(Instruction { code, mnemonic: "BVS", len: 2, mode: AddressingMode::NoneAddressing, cycles: 2 }),
        0x71 => Some(Instruction { code, mnemonic: "ADC", len: 2, mode: AddressingMode::IndirectY, cycles: 5 }),
        0x75 => Some(Instruction { code, mnemonic: "ADC", len: 2, mode: AddressingMode::ZeroPageX, cycles: 4 }),
        0x76 => Some(Instruction { code, mnemonic: "ROR", len: 2, mode: AddressingMode::ZeroPageX, cycles: 6 }),
        0x78 => Some(Instruction { code, mnemonic: "SEI", len: 1, mode: AddressingMode::NoneAddressing, cycles: 2 }),
        0x79 => Some(Instruction { code, mnemonic: "ADC", len: 3, mode: AddressingMode::AbsoluteY, cycles: 4 }),
        0x7D => Some(Instruction { code, mnemonic: "ADC", len: 3, mode: AddressingMode::AbsoluteX, cycles: 4 }),
        0x7E => Some(Instruction { code, mnemonic: "ROR", len: 3, mode: AddressingMode::AbsoluteX, cycles: 7 }),
        0x81 => Some(Instruction { code, mnemonic: "STA", len: 2, mode: AddressingMode::IndirectX, cycles: 6 }),
        0x84 => Some(Instruction { code, mnemonic: "STY", len: 2, mode: AddressingMode::ZeroPage, cycles: 3 }),
        0x85 => Some(Instruction { code, mnemonic: "STA", len: 2, mode: AddressingMode::ZeroPage, cycles: 3 }),
        0x86 => Some(Instruction { code, mnemonic: "STX", len: 2, mode: AddressingMode::ZeroPage, cycles: 3 }),
        0x88 => Some(Instruction { code, mnemonic: "DEY", len: 1, mode: AddressingMode::NoneAddressing, cycles: 2 }),
        0x8A => Some(Instruction { code, mnemonic: "TXA", len: 1, mode: AddressingMode::NoneAddressing, cycles: 2 }),
        0x8C => Some(Instruction { code, mnemonic: "STY", len: 3, mode: AddressingMode::Absolute, cycles: 4 }),
        0x8D => Some(Instruction { code, mnemonic: "STA", len: 3, mode: AddressingMode::Absolute, cycles: 4 }),
        0x8E => Some(Instruction { code, mnemonic: "STX", len: 3, mode: AddressingMode::Absolute, cycles: 4 }),
        0x90 => Some(Instruction { code, mnemonic: "BCC", len: 2, mode: AddressingMode::NoneAddressing, cycles: 2 }),
        0x91 => Some(Instruction { code, mnemonic: "STA", len: 2, mode: AddressingMode::IndirectY, cycles: 6 }),
        0x94 => Some(Instruction { code, mnemonic: "STY", len: 2, mode: AddressingMode::ZeroPageX, cycles: 4 }),
        0x95 => Some(Instruction { code, mnemonic: "STA", len: 2, mode: AddressingMode::ZeroPageX, cycles: 4 }),
        0x96 => Some(Instruction { code, mnemonic: "STX", len: 2, mode: AddressingMode::ZeroPageY, cycles: 4 }),
        0x98 => Some(Instruction { code, mnemonic: "TYA", len: 1, mode: AddressingMode::NoneAddressing, cycles: 2 }),
        0x99 => Some(Instruction { code, mnemonic: "STA", len: 3, mode: AddressingMode::AbsoluteY, cycles: 5 }),
        0x9A => Some(Instruction { code, mnemonic: "TXS", len: 1, mode: AddressingMode::NoneAddressing, cycles: 2 }),
        0x9D => Some(Instruction { code, mnemonic: "STA", len: 3, mode: AddressingMode::AbsoluteX, cycles: 5 }),
        0xA0 => Some(Instruction { code, mnemonic: "LDY", len: 2, mode: AddressingMode::Immediate, cycles: 2 }),
        0xA1 => Some(Instruction { code, mnemonic: "LDA", len: 2, mode: AddressingMode::IndirectX, cycles: 6 }),
        0xA2 => Some(Instruction { code, mnemonic: "LDX", len: 2, mode: AddressingMode::Immediate, cycles: 2 }),
        0xA4 => Some(Instruction { code, mnemonic: "LDY", len: 2, mode: AddressingMode::ZeroPage, cycles: 3 }),
        0xA5 => Some(Instruction { code, mnemonic: "LDA", len: 2, mode: AddressingMode::ZeroPage, cycles: 3 }),
        0xA6 => Some(Instruction { code, mnemonic: "LDX", len: 2, mode: AddressingMode::ZeroPage, cycles: 3 }),
        0xA8 => Some(Instruction { code, mnemonic: "TAY", len: 1, mode: AddressingMode::NoneAddressing, cycles: 2 }),
        0xA9 => Some(Instruction { code, mnemonic: "LDA", len: 2, mode: AddressingMode::Immediate, cycles: 2 }),
        0xAA => Some(Instruction { code, mnemonic: "TAX", len: 1, mode: AddressingMode::NoneAddressing, cycles: 2 }),
        0xAC => Some(Instruction { code, mnemonic: "LDY", len: 3, mode: AddressingMode::Absolute, cycles: 4 }),
        0xAD => Some(Instruction { code, mnemonic: "LDA", len: 3, mode: AddressingMode::Absolute, cycles: 4 }),
        0xAE => Some(Instruction { code, mnemonic: "LDX", len: 3, mode: AddressingMode::Absolute, cycles: 4 }),
        0xB0 => Some(Instruction { code, mnemonic: "BCS", len: 2, mode: AddressingMode::NoneAddressing, cycles: 2 }),
        0xB1 => Some(Instruction { code, mnemonic: "LDA", len: 2, mode: AddressingMode::IndirectY, cycles: 5 }),
        0xB4 => Some(Instruction { code, mnemonic: "LDY", len: 2, mode: AddressingMode::ZeroPageX, cycles: 4 }),
        0xB5 => Some(Instruction { code, mnemonic: "LDA", len: 2, mode: AddressingMode::ZeroPageX, cycles: 4 }),
        0xB6 => Some(Instruction { code, mnemonic: "LDX", len: 2, mode: AddressingMode::ZeroPageY, cycles: 4 }),
        0xB8 => Some(Instruction { code, mnemonic: "CLV", len: 1, mode: AddressingMode::NoneAddressing, cycles: 2 }),
        0xB9 => Some(Instruction { code, mnemonic: "LDA", len: 3, mode: AddressingMode::AbsoluteY, cycles: 4 }),
        0xBA => Some(Instruction { code, mnemonic: "TSX", len: 1, mode: AddressingMode::NoneAddressing, cycles: 2 }),
        0xBC => Some(Instruction { code, mnemonic: "LDY", len: 3, mode: AddressingMode::AbsoluteX, cycles: 4 }),
        0xBD => Some(Instruction { code, mnemonic: "LDA", len: 3, mode: AddressingMode::AbsoluteX, cycles: 4 }),
        0xBE => Some(Instruction { code, mnemonic: "LDX", len: 3, mode: AddressingMode::AbsoluteY, cycles: 4 }),
        0xC0 => Some(Instruction { code, mnemonic: "CPY", len: 2, mode: AddressingMode::Immediate, cycles: 2 }),
        0xC1 => Some(Instruction { code, mnemonic: "CMP", len: 2, mode: AddressingMode::IndirectX, cycles: 6 }),
        0xC4 => Some(Instruction { code, mnemonic: "CPY", len: 2, mode: AddressingMode::ZeroPage, cycles: 3 }),
        0xC5 => Some(Instruction { code, mnemonic: "CMP", len: 2, mode: AddressingMode::ZeroPage, cycles: 3 }),
        0xC6 => Some(Instruction { code, mnemonic: "DEC", len: 2, mode: AddressingMode::ZeroPage, cycles: 5 }),
        0xC8 => Some(Instruction { code, mnemonic: "INY", len: 1, mode: AddressingMode::NoneAddressing, cycles: 2 }),
        0xC9 => Some(Instruction { code, mnemonic: "CMP", len: 2, mode: AddressingMode::Immediate, cycles: 2 }),
        0xCA => Some(Instruction { code, mnemonic: "DEX", len: 1, mode: AddressingMode::NoneAddressing, cycles: 2 }),
        0xCC => Some(Instruction { code, mnemonic: "CPY", len: 3, mode: AddressingMode::Absolute, cycles: 4 }),
        0xCD => Some(Instruction { code, mnemonic: "CMP", len: 3, mode: AddressingMode::Absolute, cycles: 4 }),
        0xCE => Some(Instruction { code, mnemonic: "DEC", len: 3, mode: AddressingMode::Absolute, cycles: 6 }),
        0xD0 => Some(Instruction { code, mnemonic: "BNE", len: 2, mode: AddressingMode::NoneAddressing, cycles: 2 }),
        0xD1 => Some(Instruction { code, mnemonic: "CMP", len: 2, mode: AddressingMode::IndirectY, cycles: 5 }),
        0xD5 => Some(Instruction { code, mnemonic: "CMP", len: 2, mode: AddressingMode::ZeroPageX, cycles: 4 }),
        0xD6 => Some(Instruction { code, mnemonic: "DEC", len: 2, mode: AddressingMode::ZeroPageX, cycles: 6 }),
        0xD8 => Some(Instruction { code, mnemonic: "CLD", len: 1, mode: AddressingMode::NoneAddressing, cycles: 2 }),
        0xD9 => Some(Instruction { code, mnemonic: "CMP", len: 3, mode: AddressingMode::AbsoluteY, cycles: 4 }),
        0xDD => Some(Instruction { code, mnemonic: "CMP", len: 3, mode: AddressingMode::AbsoluteX, cycles: 4 }),
        0xDE => Some(Instruction { code, mnemonic: "DEC", len: 3, mode: AddressingMode::AbsoluteX, cycles: 7 }),
        0xE0 => Some(Instruction { code, mnemonic: "CPX", len: 2, mode: AddressingMode::Immediate, cycles: 2 }),
        0xE1 => Some(Instruction { code, mnemonic: "SBC", len: 2, mode: AddressingMode::IndirectX, cycles: 6 }),
        0xE4 => Some(Instruction { code, mnemonic: "CPX", len: 2, mode: AddressingMode::ZeroPage, cycles: 3 }),
        0xE5 => Some(Instruction { code, mnemonic: "SBC", len: 2, mode: AddressingMode::ZeroPage, cycles: 3 }),
        0xE6 => Some(Instruction { code, mnemonic: "INC", len: 2, mode: AddressingMode::ZeroPage, cycles: 5 }),
        0xE8 => Some(Instruction { code, mnemonic: "INX", len: 1, mode: AddressingMode::NoneAddressing, cycles: 2 }),
        0xE9 => Some(Instruction { code, mnemonic: "SBC", len: 2, mode: AddressingMode::Immediate, cycles: 2 }),
        0xEA => Some(Instruction { code, mnemonic: "NOP", len: 1, mode: AddressingMode::NoneAddressing, cycles: 2 }),
        0xEC => Some(Instruction { code, mnemonic: "CPX", len: 3, mode: AddressingMode::Absolute, cycles: 4 }),
        0xED => Some(Instruction { code, mnemonic: "SBC", len: 3, mode: AddressingMode::Absolute, cycles: 4 }),
        0xEE => Some(Instruction { code, mnemonic: "INC", len: 3, mode: AddressingMode::Absolute, cycles: 6 }),
        0xF0 => Some(Instruction { code, mnemonic: "BEQ", len: 2, mode: AddressingMode::NoneAddressing, cycles: 2 }),
        0xF1 => Some(Instruction { code, mnemonic: "SBC", len: 2, mode: AddressingMode::IndirectY, cycles: 5 }),
        0xF5 => Some(Instruction { code, mnemonic: "SBC", len: 2, mode: AddressingMode::ZeroPageX, cycles: 4 }),
        0xF6 => Some(Instruction { code, mnemonic: "INC", len: 2, mode: AddressingMode::ZeroPageX, cycles: 6 }),
        0xF8 => Some(Instruction { code, mnemonic: "SED", len: 1, mode: AddressingMode::NoneAddressing, cycles: 2 }),
        0xF9 => Some(Instruction { code, mnemonic: "SBC", len: 3, mode: AddressingMode::AbsoluteY, cycles: 4 }),
        0xFD => Some(Instruction { code, mnemonic: "SBC", len: 3, mode: AddressingMode::AbsoluteX, cycles: 4 }),
        0xFE => Some(Instruction { code, mnemonic: "INC", len: 3, mode: AddressingMode::AbsoluteX, cycles: 7 }),
        _ => None,
    }
}

/// Number of operand bytes that resolving `mode` reads after the opcode.
pub open spec fn operand_bytes(mode: AddressingMode) -> int {
    match mode {
        AddressingMode::Immediate
        | AddressingMode::ZeroPage
        | AddressingMode::ZeroPageX
        | AddressingMode::ZeroPageY
        | AddressingMode::IndirectX
        | AddressingMode::IndirectY => 1,
        AddressingMode::Absolute | AddressingMode::AbsoluteX | AddressingMode::AbsoluteY => 2,
        AddressingMode::NoneAddressing => 0,
    }
}

/// The eight conditional branches, whose operand is a one-byte signed offset.
pub open spec fn is_branch(code: u8) -> bool {
    code == 0x10 || code == 0x30 || code == 0x50 || code == 0x70 || code == 0x90 || code == 0xB0
        || code == 0xD0 || code == 0xF0
}

/// `JMP (indirect)`, whose operand is a two-byte pointer.
pub open spec fn is_indirect_jump(code: u8) -> bool {
    code == 0x6C
}

/// Looks `code` up in the table.
#[verifier::rlimit(100)]
pub fn lookup(code: u8) -> (found: Option<Instruction>)
    ensures
        found == instruction_for(code),
{
    reveal(instruction_for);
    match code {
        0x00 => Some(Instruction::new(code, "BRK", 1, AddressingMode::NoneAddressing, 7)),
        0x01 => Some(Instruction::new(code, "ORA", 2, AddressingMode::IndirectX, 6)),
        0x05 => Some(Instruction::new(code, "ORA", 2, AddressingMode::ZeroPage, 3)),
        0x06 => Some(Instruction::new(code, "ASL", 2, AddressingMode::ZeroPage, 5)),
        0x08 => Some(Instruction::new(code, "PHP", 1, AddressingMode::NoneAddressing, 3)),
        0x09 => Some(Instruction::new(code, "ORA", 2, AddressingMode::Immediate, 2)),
        0x0A => Some(Instruction::new(code, "ASL", 1, AddressingMode::NoneAddressing, 2)),
        0x0D => Some(Instruction::new(code, "ORA", 3, AddressingMode::Absolute, 4)),
        0x0E => Some(Instruction::new(code, "ASL", 3, AddressingMode::Absolute, 6)),
        0x10 => Some(Instruction::new(code, "BPL", 2, AddressingMode::NoneAddressing, 2)),
        0x11 => Some(Instruction::new(code, "ORA", 2, AddressingMode::IndirectY, 5)),
        0x15 => Some(Instruction::new(code, "ORA", 2, AddressingMode::ZeroPageX, 4)),
        0x16 => Some(Instruction::new(code, "ASL", 2, AddressingMode::ZeroPageX, 6)),
        0x18 => Some(Instruction::new(code, "CLC", 1, AddressingMode::NoneAddressing, 2)),
        0x19 => Some(Instruction::new(code, "ORA", 3, AddressingMode::AbsoluteY, 4)),
        0x1D => Some(Instruction::new(code, "ORA", 3, AddressingMode::AbsoluteX, 4)),
        0x1E => Some(Instruction::new(code, "ASL", 3, AddressingMode::AbsoluteX, 7)),
        0x20 => Some(Instruction::new(code, "JSR", 3, AddressingMode::Absolute, 6)),
        0x21 => Some(Instruction::new(code, "AND", 2, AddressingMode::IndirectX, 6)),
        0x24 => Some(Instruction::new(code, "BIT", 2, AddressingMode::ZeroPage, 3)),
        0x25 => Some(Instruction::new(code, "AND", 2, AddressingMode::ZeroPage, 3)),
        0x26 => Some(Instruction::new(code, "ROL", 2, AddressingMode::ZeroPage, 5)),
        0x28 => Some(Instruction::new(code, "PLP", 1, AddressingMode::NoneAddressing, 4)),
        0x29 => Some(Instruction::new(code, "AND", 2, AddressingMode::Immediate, 2)),
        0x2A => Some(Instruction::new(code, "ROL", 1, AddressingMode::NoneAddressing, 2)),
        0x2C => Some(Instruction::new(code, "BIT", 3, AddressingMode::Absolute, 4)),
        0x2D => Some(Instruction::new(code, "AND", 3, AddressingMode::Absolute, 4)),
        0x2E => Some(Instruction::new(code, "ROL", 3, AddressingMode::Absolute, 6)),
        0x30 => Some(Instruction::new(code, "BMI", 2, AddressingMode::NoneAddressing, 2)),
        0x31 => Some(Instruction::new(code, "AND", 2, AddressingMode::IndirectY, 5)),
        0x35 => Some(Instruction::new(code, "AND", 2, AddressingMode::ZeroPageX, 4)),
        0x36 => Some(Instruction::new(code, "ROL", 2, AddressingMode::ZeroPageX, 6)),
        0x38 => Some(Instruction::new(code, "SEC", 1, AddressingMode::NoneAddressing, 2)),
        0x39 => Some(Instruction::new(code, "AND", 3, AddressingMode::AbsoluteY, 4)),
        0x3D => Some(Instruction::new(code, "AND", 3, AddressingMode::AbsoluteX, 4)),
        0x3E => Some(Instruction::new(code, "ROL", 3, AddressingMode::AbsoluteX, 7)),
        0x40 => Some(Instruction::new(code, "RTI", 1, AddressingMode::NoneAddressing, 6)),
        0x41 => Some(Instruction::new(code, "EOR", 2, AddressingMode::IndirectX, 6)),
        0x45 => Some(Instruction::new(code, "EOR", 2, AddressingMode::ZeroPage, 3)),
        0x46 => Some(Instruction::new(code, "LSR", 2, AddressingMode::ZeroPage, 5)),
        0x48 => Some(Instruction::new(code, "PHA", 1, AddressingMode::NoneAddressing, 3)),
        0x49 => Some(Instruction::new(code, "EOR", 2, AddressingMode::Immediate, 2)),
        0x4A => Some(Instruction::new(code, "LSR", 1, AddressingMode::NoneAddressing, 2)),
        0x4C => Some(Instruction::new(code, "JMP", 3, AddressingMode::Absolute, 3)),
        0x4D => Some(Instruction::new(code, "EOR", 3, AddressingMode::Absolute, 4)),
        0x4E => Some(Instruction::new(code, "LSR", 3, AddressingMode::Absolute, 6)),
        0x50 => Some(Instruction::new(code, "BVC", 2, AddressingMode::NoneAddressing, 2)),
        0x51 => Some(Instruction::new(code, "EOR", 2, AddressingMode::IndirectY, 5)),
        0x55 => Some(Instruction::new(code, "EOR", 2, AddressingMode::ZeroPageX, 4)),
        0x56 => Some(Instruction::new(code, "LSR", 2, AddressingMode::ZeroPageX, 6)),
        0x58 => Some(Instruction::new(code, "CLI", 1, AddressingMode::NoneAddressing, 2)),
        0x59 => Some(Instruction::new(code, "EOR", 3, AddressingMode::AbsoluteY, 4)),
        0x5D => Some(Instruction::new(code, "EOR", 3, AddressingMode::AbsoluteX, 4)),
        0x5E => Some(Instruction::new(code, "LSR", 3, AddressingMode::AbsoluteX, 7)),
        0x60 => Some(Instruction::new(code, "RTS", 1, AddressingMode::NoneAddressing, 6)),
        0x61 => Some(Instruction::new(code, "ADC", 2, AddressingMode::IndirectX, 6)),
        0x65 => Some(Instruction::new(code, "ADC", 2, AddressingMode::ZeroPage, 3)),
        0x66 => Some(Instruction::new(code, "ROR", 2, AddressingMode::ZeroPage, 5)),
        0x68 => Some(Instruction::new(code, "PLA", 1, AddressingMode::NoneAddressing, 4)),
        0x69 => Some(Instruction::new(code, "ADC", 2, AddressingMode::Immediate, 2)),
        0x6A => Some(Instruction::new(code, "ROR", 1, AddressingMode::NoneAddressing, 2)),
        0x6C => Some(Instruction::new(code, "JMP", 3, AddressingMode::NoneAddressing, 5)),
        0x6D => Some(Instruction::new(code, "ADC", 3, AddressingMode::Absolute, 4)),
        0x6E => Some(Instruction::new(code, "ROR", 3, AddressingMode::Absolute, 6)),
        0x70 => Some(Instruction::new(code, "BVS", 2, AddressingMode::NoneAddressing, 2)),
        0x71 => Some(Instruction::new(code, "ADC", 2, AddressingMode::IndirectY, 5)),
        0x75 => Some(Instruction::new(code, "ADC", 2, AddressingMode::ZeroPageX, 4)),
        0x76 => Some(Instruction::new(code, "ROR", 2, AddressingMode::ZeroPageX, 6)),
        0x78 => Some(Instruction::new(code, "SEI", 1, AddressingMode::NoneAddressing, 2)),
        0x79 => Some(Instruction::new(code, "ADC", 3, AddressingMode::AbsoluteY, 4)),
        0x7D => Some(Instruction::new(code, "ADC", 3, AddressingMode::AbsoluteX, 4)),
        0x7E => Some(Instruction::new(code, "ROR", 3, AddressingMode::AbsoluteX, 7)),
        0x81 => Some(Instruction::new(code, "STA", 2, AddressingMode::IndirectX, 6)),
        0x84 => Some(Instruction::new(code, "STY", 2, AddressingMode::ZeroPage, 3)),
        0x85 => Some(Instruction::new(code, "STA", 2, AddressingMode::ZeroPage, 3)),
        0x86 => Some(Instruction::new(code, "STX", 2, AddressingMode::ZeroPage, 3)),
        0x88 => Some(Instruction::new(code, "DEY", 1, AddressingMode::NoneAddressing, 2)),
        0x8A => Some(Instruction::new(code, "TXA", 1, AddressingMode::NoneAddressing, 2)),
        0x8C => Some(Instruction::new(code, "STY", 3, AddressingMode::Absolute, 4)),
        0x8D => Some(Instruction::new(code, "STA", 3, AddressingMode::Absolute, 4)),
        0x8E => Some(Instruction::new(code, "STX", 3, AddressingMode::Absolute, 4)),
        0x90 => Some(Instruction::new(code, "BCC", 2, AddressingMode::NoneAddressing, 2)),
        0x91 => Some(Instruction::new(code, "STA", 2, AddressingMode::IndirectY, 6)),
        0x94 => Some(Instruction::new(code, "STY", 2, AddressingMode::ZeroPageX, 4)),
        0x95 => Some(Instruction::new(code, "STA", 2, AddressingMode::ZeroPageX, 4)),
        0x96 => Some(Instruction::new(code, "STX", 2, AddressingMode::ZeroPageY, 4)),
        0x98 => Some(Instruction::new(code, "TYA", 1, AddressingMode::NoneAddressing, 2)),
        0x99 => Some(Instruction::new(code, "STA", 3, AddressingMode::AbsoluteY, 5)),
        0x9A => Some(Instruction::new(code, "TXS", 1, AddressingMode::NoneAddressing, 2)),
        0x9D => Some(Instruction::new(code, "STA", 3, AddressingMode::AbsoluteX, 5)),
        0xA0 => Some(Instruction::new(code, "LDY", 2, AddressingMode::Immediate, 2)),
        0xA1 => Some(Instruction::new(code, "LDA", 2, AddressingMode::IndirectX, 6)),
        0xA2 => Some(Instruction::new(code, "LDX", 2, AddressingMode::Immediate, 2)),
        0xA4 => Some(Instruction::new(code, "LDY", 2, AddressingMode::ZeroPage, 3)),
        0xA5 => Some(Instruction::new(code, "LDA", 2, AddressingMode::ZeroPage, 3)),
        0xA6 => Some(Instruction::new(code, "LDX", 2, AddressingMode::ZeroPage, 3)),
        0xA8 => Some(Instruction::new(code, "TAY", 1, AddressingMode::NoneAddressing, 2)),
        0xA9 => Some(Instruction::new(code, "LDA", 2, AddressingMode::Immediate, 2)),
        0xAA => Some(Instruction::new(code, "TAX", 1, AddressingMode::NoneAddressing, 2)),
        0xAC => Some(Instruction::new(code, "LDY", 3, AddressingMode::Absolute, 4)),
        0xAD => Some(Instruction::new(code, "LDA", 3, AddressingMode::Absolute, 4)),
        0xAE => Some(Instruction::new(code, "LDX", 3, AddressingMode::Absolute, 4)),
        0xB0 => Some(Instruction::new(code, "BCS", 2, AddressingMode::NoneAddressing, 2)),
        0xB1 => Some(Instruction::new(code, "LDA", 2, AddressingMode::IndirectY, 5)),
        0xB4 => Some(Instruction::new(code, "LDY", 2, AddressingMode::ZeroPageX, 4)),
        0xB5 => Some(Instruction::new(code, "LDA", 2, AddressingMode::ZeroPageX, 4)),
        0xB6 => Some(Instruction::new(code, "LDX", 2, AddressingMode::ZeroPageY, 4)),
        0xB8 => Some(Instruction::new(code, "CLV", 1, AddressingMode::NoneAddressing, 2)),
        0xB9 => Some(Instruction::new(code, "LDA", 3, AddressingMode::AbsoluteY, 4)),
        0xBA => Some(Instruction::new(code, "TSX", 1, AddressingMode::NoneAddressing, 2)),
        0xBC => Some(Instruction::new(code, "LDY", 3, AddressingMode::AbsoluteX, 4)),
        0xBD => Some(Instruction::new(code, "LDA", 3, AddressingMode::AbsoluteX, 4)),
        0xBE => Some(Instruction::new(code, "LDX", 3, AddressingMode::AbsoluteY, 4)),
        0xC0 => Some(Instruction::new(code, "CPY", 2, AddressingMode::Immediate, 2)),
        0xC1 => Some(Instruction::new(code, "CMP", 2, AddressingMode::IndirectX, 6)),
        0xC4 => Some(Instruction::new(code, "CPY", 2, AddressingMode::ZeroPage, 3)),
        0xC5 => Some(Instruction::new(code, "CMP", 2, AddressingMode::ZeroPage, 3)),
        0xC6 => Some(Instruction::new(code, "DEC", 2, AddressingMode::ZeroPage, 5)),
        0xC8 => Some(Instruction::new(code, "INY", 1, AddressingMode::NoneAddressing, 2)),
        0xC9 => Some(Instruction::new(code, "CMP", 2, AddressingMode::Immediate, 2)),
        0xCA => Some(Instruction::new(code, "DEX", 1, AddressingMode::NoneAddressing, 2)),
        0xCC => Some(Instruction::new(code, "CPY", 3, AddressingMode::Absolute, 4)),
        0xCD => Some(Instruction::new(code, "CMP", 3, AddressingMode::Absolute, 4)),
        0xCE => Some(Instruction::new(code, "DEC", 3, AddressingMode::Absolute, 6)),
        0xD0 => Some(Instruction::new(code, "BNE", 2, AddressingMode::NoneAddressing, 2)),
        0xD1 => Some(Instruction::new(code, "CMP", 2, AddressingMode::IndirectY, 5)),
        0xD5 => Some(Instruction::new(code, "CMP", 2, AddressingMode::ZeroPageX, 4)),
        0xD6 => Some(Instruction::new(code, "DEC", 2, AddressingMode::ZeroPageX, 6)),
        0xD8 => Some(Instruction::new(code, "CLD", 1, AddressingMode::NoneAddressing, 2)),
        0xD9 => Some(Instruction::new(code, "CMP", 3, AddressingMode::AbsoluteY, 4)),
        0xDD => Some(Instruction::new(code, "CMP", 3, AddressingMode::AbsoluteX, 4)),
        0xDE => Some(Instruction::new(code, "DEC", 3, AddressingMode::AbsoluteX, 7)),
        0xE0 => Some(Instruction::new(code, "CPX", 2, AddressingMode::Immediate, 2)),
        0xE1 => Some(Instruction::new(code, "SBC", 2, AddressingMode::IndirectX, 6)),
        0xE4 => Some(Instruction::new(code, "CPX", 2, AddressingMode::ZeroPage, 3)),
        0xE5 => Some(Instruction::new(code, "SBC", 2, AddressingMode::ZeroPage, 3)),
        0xE6 => Some(Instruction::new(code, "INC", 2, AddressingMode::ZeroPage, 5)),
        0xE8 => Some(Instruction::new(code, "INX", 1, AddressingMode::NoneAddressing, 2)),
        0xE9 => Some(Instruction::new(code, "SBC", 2, AddressingMode::Immediate, 2)),
        0xEA => Some(Instruction::new(code, "NOP", 1, AddressingMode::NoneAddressing, 2)),
        0xEC => Some(Instruction::new(code, "CPX", 3, AddressingMode::Absolute, 4)),
        0xED => Some(Instruction::new(code, "SBC", 3, AddressingMode::Absolute, 4)),
        0xEE => Some(Instruction::new(code, "INC", 3, AddressingMode::Absolute, 6)),
        0xF0 => Some(Instruction::new(code, "BEQ", 2, AddressingMode::NoneAddressing, 2)),
        0xF1 => Some(Instruction::new(code, "SBC", 2, AddressingMode::IndirectY, 5)),
        0xF5 => Some(Instruction::new(code, "SBC", 2, AddressingMode::ZeroPageX, 4)),
        0xF6 => Some(Instruction::new(code, "INC", 2, AddressingMode::ZeroPageX, 6)),
        0xF8 => Some(Instruction::new(code, "SED", 1, AddressingMode::NoneAddressing, 2)),
        0xF9 => Some(Instruction::new(code, "SBC", 3, AddressingMode::AbsoluteY, 4)),
        0xFD => Some(Instruction::new(code, "SBC", 3, AddressingMode::AbsoluteX, 4)),
        0xFE => Some(Instruction::new(code, "INC", 3, AddressingMode::AbsoluteX, 7)),
        _ => None,
    }
}

/// The opcodes whose handler resolves an operand address through the
/// addressing mode of their table entry.
pub open spec fn resolves_operand(code: u8) -> bool {
    match code {
        0xA9 | 0xA5 | 0xB5 | 0xAD | 0xBD | 0xB9 | 0xA1 | 0xB1 => true,
        0xA2 | 0xA6 | 0xB6 | 0xAE | 0xBE => true,
        0xA0 | 0xA4 | 0xB4 | 0xAC | 0xBC => true,
        0x85 | 0x8D | 0x95 | 0x9D | 0x99 | 0x81 | 0x91 => true,
        0x86 | 0x96 | 0x8E => true,
        0x84 | 0x94 | 0x8C => true,
        0x69 | 0x65 | 0x75 | 0x6D | 0x7D | 0x79 | 0x61 | 0x71 => true,
        0xE9 | 0xE5 | 0xF5 | 0xED | 0xFD | 0xF9 | 0xE1 | 0xF1 => true,
        0xC9 | 0xC5 | 0xD5 | 0xCD | 0xDD | 0xD9 | 0xC1 | 0xD1 => true,
        0xE0 | 0xE4 | 0xEC => true,
        0xC0 | 0xC4 | 0xCC => true,
        0x29 | 0x25 | 0x35 | 0x2D | 0x3D | 0x39 | 0x21 | 0x31 => true,
        0x49 | 0x45 | 0x55 | 0x4D | 0x5D | 0x59 | 0x41 | 0x51 => true,
        0x09 | 0x05 | 0x15 | 0x0D | 0x1D | 0x19 | 0x01 | 0x11 => true,
        0x24 | 0x2C => true,
        0xE6 | 0xEE | 0xF6 | 0xFE => true,
        0xC6 | 0xCE | 0xD6 | 0xDE => true,
        0x06 | 0x16 | 0x0E | 0x1E => true,
        0x46 | 0x56 | 0x4E | 0x5E => true,
        0x26 | 0x36 | 0x2E | 0x3E => true,
        0x66 | 0x76 | 0x6E | 0x7E => true,
        _ => false,
    }
}

/// The instructions that always set `pc` themselves: the jumps, the
/// subroutine call and the two returns.
pub open spec fn is_jump_or_return(code: u8) -> bool {
    code == 0x4C || code == 0x6C || code == 0x20 || code == 0x60 || code == 0x40
}

/// The two instructions that take a two-byte target address and read it
/// themselves: `JMP` absolute and `JSR`.
pub open spec fn is_absolute_jump(code: u8) -> bool {
    code == 0x4C || code == 0x20
}

/// Every entry carries its own opcode, and its length is the opcode byte plus
/// the operand bytes of its addressing mode; the branches and the indirect
/// jump, which resolve their operand themselves, have one and two operand
/// bytes.
pub proof fn lemma_table_lengths(code: u8)
    requires
        instruction_for(code) is Some,
    ensures
        instruction_for(code)->0.code == code,
        1 <= instruction_for(code)->0.len <= 3,
        is_branch(code) ==> instruction_for(code)->0.len == 2,
        is_indirect_jump(code) ==> instruction_for(code)->0.len == 3,
        !is_branch(code) && !is_indirect_jump(code) ==> instruction_for(code)->0.len == 1
            + operand_bytes(instruction_for(code)->0.mode),
{
    reveal(instruction_for);
}

/// The table gives an addressing mode exactly to the opcodes that resolve an
/// operand through it and to the two absolute jumps; no handler is ever
/// asked to resolve `NoneAddressing`.
pub proof fn lemma_table_modes(code: u8)
    ensures
        resolves_operand(code) ==> instruction_for(code) is Some,
        instruction_for(code) is Some ==> (instruction_for(code)->0.mode
            != AddressingMode::NoneAddressing <==> resolves_operand(code) || is_absolute_jump(
            code,
        )),
{
    reveal(instruction_for);
}

} // verus!
