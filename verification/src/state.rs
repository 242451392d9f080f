//! The mathematical model of the machine: the register file with a flat
//! 64 KiB address space, and what every instruction does to it.

use vstd::prelude::*;
use crate::cpu::{AddressingMode, Outcome};
use crate::opcodes::instruction_for;
use crate::status_flags::{
    with_flag,
    with_zero_and_negative,
    has_flag,
    BREAK,
    BREAK2,
    CARRY,
    DECIMAL_MODE,
    INTERRUPT_DISABLE,
    NEGATIVE,
    OVERFLOW,
    ZERO,
};

verus! {

/// Number of cells of the address space.
pub const MEMORY_SIZE: usize = 0x10000;

/// Base of the stack page; the stack pointer indexes within it.
pub const STACK: u16 = 0x0100;

/// Stack pointer after a reset.
pub const STACK_RESET: u8 = 0xFD;

/// Where `load` places a program.
pub const PROGRAM_START: u16 = 0x0600;

/// Address of the little-endian reset vector.
pub const RESET_VECTOR: u16 = 0xFFFC;

/// Address of the little-endian vector that `BRK` and interrupt requests share.
pub const IRQ_VECTOR: u16 = 0xFFFE;

/// The 16-bit word with low byte `lo` and high byte `hi`.
pub open spec fn word(lo: u8, hi: u8) -> u16 {
    (lo + 256 * hi) as u16
}

/// The low byte of `w`.
pub open spec fn low_byte(w: u16) -> u8 {
    (w % 256) as u8
}

/// The high byte of `w`.
pub open spec fn high_byte(w: u16) -> u8 {
    (w / 256) as u8
}

/// The byte `b` read as a two's-complement number.
pub open spec fn signed(b: u8) -> int {
    if b < 0x80 {
        b as int
    } else {
        b - 256
    }
}

/// The address `offset` bytes (signed) after `pc`, wrapping in 16 bits.
pub open spec fn displaced(pc: u16, offset: u8) -> u16 {
    ((pc + signed(offset)) % 0x10000) as u16
}

/// The one's complement of `value`.
pub open spec fn complement(value: u8) -> u8 {
    (255 - value) as u8
}

/// A byte moved one place left, with `carry_in` entering at bit 0.
pub open spec fn rotated_left(value: u8, carry_in: bool) -> u8 {
    ((value * 2) % 256 + if carry_in { 1int } else { 0int }) as u8
}

/// A byte moved one place right, with `carry_in` entering at bit 7.
pub open spec fn rotated_right(value: u8, carry_in: bool) -> u8 {
    (value / 2 + if carry_in { 128int } else { 0int }) as u8
}

/// `memory` with the first `count` bytes of `program` laid over it from
/// `PROGRAM_START` on.
pub open spec fn overlaid(memory: Seq<u8>, program: Seq<u8>, count: int) -> Seq<u8> {
    Seq::new(
        memory.len(),
        |i: int|
            if PROGRAM_START <= i < PROGRAM_START + count {
                program[i - PROGRAM_START]
            } else {
                memory[i]
            },
    )
}

/// The registers and the whole address space at one moment.
pub struct State {
    pub acc: u8,
    pub status: u8,
    pub index_x: u8,
    pub index_y: u8,
    pub sp: u8,
    pub pc: u16,
    pub memory: Seq<u8>,
}

impl State {
    /// Every address has a cell.
    pub open spec fn wf(self) -> bool {
        self.memory.len() == MEMORY_SIZE
    }

    /// The machine as it is built: registers cleared, `P = I | U`,
    /// `sp = 0xFD`, `pc = 0`, every cell zero.
    pub open spec fn power_on() -> State {
        State {
            acc: 0,
            status: INTERRUPT_DISABLE | BREAK2,
            index_x: 0,
            index_y: 0,
            sp: STACK_RESET,
            pc: 0,
            memory: Seq::new(MEMORY_SIZE as nat, |i: int| 0u8),
        }
    }

    // ----- memory -----

    pub open spec fn read(self, address: u16) -> u8 {
        self.memory[address as int]
    }

    /// Little-endian word at `pos`; the second byte of address `0xFFFF` is at `0x0000`.
    pub open spec fn read_u16(self, pos: u16) -> u16 {
        word(self.read(pos), self.read(pos.wrapping_add(1)))
    }

    pub open spec fn write(self, address: u16, value: u8) -> State {
        State { memory: self.memory.update(address as int, value), ..self }
    }

    pub open spec fn write_u16(self, pos: u16, data: u16) -> State {
        self.write(pos, low_byte(data)).write(pos.wrapping_add(1), high_byte(data))
    }

    // ----- status flags -----

    pub open spec fn get_flag(self, flag: u8) -> bool {
        has_flag(self.status, flag)
    }

    pub open spec fn set_flag(self, flag: u8, value: bool) -> State {
        State { status: with_flag(self.status, flag, value), ..self }
    }

    pub open spec fn update_zero_and_negative_flags(self, value: u8) -> State {
        State { status: with_zero_and_negative(self.status, value), ..self }
    }

    // ----- addressing -----

    /// The zero-page word whose low byte is at `pointer`; the high byte is
    /// taken from the next zero-page cell, wrapping within the page.
    pub open spec fn read_zero_page_u16(self, pointer: u8) -> u16 {
        word(self.read(pointer as u16), self.read(pointer.wrapping_add(1) as u16))
    }

    /// The address that `mode` resolves to when `pc` points at the first
    /// operand byte. `NoneAddressing` resolves to nothing; its value here is
    /// arbitrary.
    pub open spec fn operand_address(self, mode: AddressingMode) -> u16 {
        match mode {
            AddressingMode::Immediate => self.pc,
            AddressingMode::ZeroPage => self.read(self.pc) as u16,
            AddressingMode::ZeroPageX => self.read(self.pc).wrapping_add(self.index_x) as u16,
            AddressingMode::ZeroPageY => self.read(self.pc).wrapping_add(self.index_y) as u16,
            AddressingMode::Absolute => self.read_u16(self.pc),
            AddressingMode::AbsoluteX => self.read_u16(self.pc).wrapping_add(self.index_x as u16),
            AddressingMode::AbsoluteY => self.read_u16(self.pc).wrapping_add(self.index_y as u16),
            AddressingMode::IndirectX => self.read_zero_page_u16(
                self.read(self.pc).wrapping_add(self.index_x),
            ),
            AddressingMode::IndirectY => self.read_zero_page_u16(self.read(self.pc)).wrapping_add(
                self.index_y as u16,
            ),
            AddressingMode::NoneAddressing => 0,
        }
    }

    /// The operand byte that `mode` designates.
    pub open spec fn operand(self, mode: AddressingMode) -> u8 {
        self.read(self.operand_address(mode))
    }

    // ----- loads, stores, transfers -----

    pub open spec fn lda(self, mode: AddressingMode) -> State {
        let value = self.operand(mode);
        State { acc: value, ..self }.update_zero_and_negative_flags(value)
    }

    pub open spec fn ldx(self, mode: AddressingMode) -> State {
        let value = self.operand(mode);
        State { index_x: value, ..self }.update_zero_and_negative_flags(value)
    }

    pub open spec fn ldy(self, mode: AddressingMode) -> State {
        let value = self.operand(mode);
        State { index_y: value, ..self }.update_zero_and_negative_flags(value)
    }

    pub open spec fn sta(self, mode: AddressingMode) -> State {
        self.write(self.operand_address(mode), self.acc)
    }

    pub open spec fn stx(self, mode: AddressingMode) -> State {
        self.write(self.operand_address(mode), self.index_x)
    }

    pub open spec fn sty(self, mode: AddressingMode) -> State {
        self.write(self.operand_address(mode), self.index_y)
    }

    pub open spec fn tax(self) -> State {
        State { index_x: self.acc, ..self }.update_zero_and_negative_flags(self.acc)
    }

    pub open spec fn tay(self) -> State {
        State { index_y: self.acc, ..self }.update_zero_and_negative_flags(self.acc)
    }

    pub open spec fn txa(self) -> State {
        State { acc: self.index_x, ..self }.update_zero_and_negative_flags(self.index_x)
    }

    pub open spec fn tya(self) -> State {
        State { acc: self.index_y, ..self }.update_zero_and_negative_flags(self.index_y)
    }

    pub open spec fn tsx(self) -> State {
        State { index_x: self.sp, ..self }.update_zero_and_negative_flags(self.sp)
    }

    pub open spec fn txs(self) -> State {
        State { sp: self.index_x, ..self }
    }

    // ----- increments and decrements -----

    pub open spec fn inc(self, mode: AddressingMode) -> State {
        let address = self.operand_address(mode);
        let result = self.read(address).wrapping_add(1);
        self.write(address, result).update_zero_and_negative_flags(result)
    }

    pub open spec fn dec(self, mode: AddressingMode) -> State {
        let address = self.operand_address(mode);
        let result = self.read(address).wrapping_sub(1);
        self.write(address, result).update_zero_and_negative_flags(result)
    }

    pub open spec fn inx(self) -> State {
        let result = self.index_x.wrapping_add(1);
        State { index_x: result, ..self }.update_zero_and_negative_flags(result)
    }

    pub open spec fn iny(self) -> State {
        let result = self.index_y.wrapping_add(1);
        State { index_y: result, ..self }.update_zero_and_negative_flags(result)
    }

    pub open spec fn dex(self) -> State {
        let result = self.index_x.wrapping_sub(1);
        State { index_x: result, ..self }.update_zero_and_negative_flags(result)
    }

    pub open spec fn dey(self) -> State {
        let result = self.index_y.wrapping_sub(1);
        State { index_y: result, ..self }.update_zero_and_negative_flags(result)
    }

    // ----- arithmetic and logic -----

    /// The carry flag as a number.
    pub open spec fn carry_in(self) -> int {
        if self.get_flag(CARRY) {
            1
        } else {
            0
        }
    }

    /// `A + value + C`: the low byte goes to `A`, bit 8 to C, and V tells
    /// whether the operands agree in sign and the result does not. D is ignored.
    pub open spec fn add_with_carry(self, value: u8) -> State {
        let sum = self.acc + value + self.carry_in();
        let result = (sum % 256) as u8;
        let overflow = (self.acc ^ result) & (value ^ result) & 0x80 != 0;
        let flagged = self.set_flag(CARRY, sum > 0xFF).set_flag(OVERFLOW, overflow);
        State { acc: result, ..flagged }.update_zero_and_negative_flags(result)
    }

    pub open spec fn adc(self, mode: AddressingMode) -> State {
        self.add_with_carry(self.operand(mode))
    }

    /// Subtraction is the addition of the operand's one's complement, with C
    /// as the inverted borrow.
    pub open spec fn sbc(self, mode: AddressingMode) -> State {
        self.add_with_carry(complement(self.operand(mode)))
    }

    pub open spec fn and(self, mode: AddressingMode) -> State {
        let result = self.acc & self.operand(mode);
        State { acc: result, ..self }.update_zero_and_negative_flags(result)
    }

    pub open spec fn eor(self, mode: AddressingMode) -> State {
        let result = self.acc ^ self.operand(mode);
        State { acc: result, ..self }.update_zero_and_negative_flags(result)
    }

    pub open spec fn ora(self, mode: AddressingMode) -> State {
        let result = self.acc | self.operand(mode);
        State { acc: result, ..self }.update_zero_and_negative_flags(result)
    }

    /// Flags of `reg_value - M`: C when no borrow is needed, Z and N from the
    /// low byte of the difference. No register changes.
    pub open spec fn compare(self, mode: AddressingMode, reg_value: u8) -> State {
        let value = self.operand(mode);
        self.set_flag(CARRY, reg_value >= value).update_zero_and_negative_flags(
            reg_value.wrapping_sub(value),
        )
    }

    pub open spec fn bit(self, mode: AddressingMode) -> State {
        let value = self.operand(mode);
        self.set_flag(ZERO, self.acc & value == 0).set_flag(
            NEGATIVE,
            value & NEGATIVE != 0,
        ).set_flag(OVERFLOW, value & OVERFLOW != 0)
    }

    // ----- shifts and rotates -----

    /// Flags after `value` became `result` with `carry_out` leaving the byte.
    pub open spec fn shifted_flags(self, carry_out: bool, result: u8) -> State {
        self.set_flag(CARRY, carry_out).update_zero_and_negative_flags(result)
    }

    pub open spec fn asl_accumulator(self) -> State {
        let result = rotated_left(self.acc, false);
        State { acc: result, ..self.shifted_flags(self.acc >= 0x80, result) }
    }

    pub open spec fn asl(self, mode: AddressingMode) -> State {
        let address = self.operand_address(mode);
        let value = self.read(address);
        let result = rotated_left(value, false);
        self.shifted_flags(value >= 0x80, result).write(address, result)
    }

    pub open spec fn lsr_accumulator(self) -> State {
        let result = rotated_right(self.acc, false);
        State { acc: result, ..self.shifted_flags(self.acc % 2 == 1, result) }
    }

    pub open spec fn lsr(self, mode: AddressingMode) -> State {
        let address = self.operand_address(mode);
        let value = self.read(address);
        let result = rotated_right(value, false);
        self.shifted_flags(value % 2 == 1, result).write(address, result)
    }

    pub open spec fn rol_accumulator(self) -> State {
        let result = rotated_left(self.acc, self.get_flag(CARRY));
        State { acc: result, ..self.shifted_flags(self.acc >= 0x80, result) }
    }

    pub open spec fn rol(self, mode: AddressingMode) -> State {
        let address = self.operand_address(mode);
        let value = self.read(address);
        let result = rotated_left(value, self.get_flag(CARRY));
        self.shifted_flags(value >= 0x80, result).write(address, result)
    }

    pub open spec fn ror_accumulator(self) -> State {
        let result = rotated_right(self.acc, self.get_flag(CARRY));
        State { acc: result, ..self.shifted_flags(self.acc % 2 == 1, result) }
    }

    pub open spec fn ror(self, mode: AddressingMode) -> State {
        let address = self.operand_address(mode);
        let value = self.read(address);
        let result = rotated_right(value, self.get_flag(CARRY));
        self.shifted_flags(value % 2 == 1, result).write(address, result)
    }

    // ----- stack -----

    /// The address of the stack cell that `sp` designates.
    pub open spec fn stack_address(self) -> u16 {
        (STACK + self.sp) as u16
    }

    /// A push writes at `sp`, then decrements it within the page.
    pub open spec fn stack_push(self, value: u8) -> State {
        State { sp: self.sp.wrapping_sub(1), ..self.write(self.stack_address(), value) }
    }

    /// The state after a pop: `sp` incremented within the page.
    pub open spec fn stack_pop(self) -> State {
        State { sp: self.sp.wrapping_add(1), ..self }
    }

    /// The byte on top of the stack: the one that the last pop delivered.
    pub open spec fn stack_top(self) -> u8 {
        self.read(self.stack_address())
    }

    /// The high byte is pushed first, so the word lies little-endian in memory.
    pub open spec fn stack_push_u16(self, value: u16) -> State {
        self.stack_push(high_byte(value)).stack_push(low_byte(value))
    }

    pub open spec fn stack_pop_u16(self) -> State {
        self.stack_pop().stack_pop()
    }

    /// The word that the last `stack_pop_u16` delivered.
    pub open spec fn stack_top_u16(self) -> u16 {
        word(State { sp: self.sp.wrapping_sub(1), ..self }.stack_top(), self.stack_top())
    }

    pub open spec fn pha(self) -> State {
        self.stack_push(self.acc)
    }

    pub open spec fn pla(self) -> State {
        let popped = self.stack_pop();
        let value = popped.stack_top();
        State { acc: value, ..popped }.update_zero_and_negative_flags(value)
    }

    /// The pushed copy of `P` has B and U set; `P` itself does not change.
    pub open spec fn php(self) -> State {
        self.stack_push(self.status | BREAK | BREAK2)
    }

    /// The popped byte becomes `P`, but for B, which is cleared, and U, which is set.
    pub open spec fn plp(self) -> State {
        let popped = self.stack_pop();
        State { status: popped.stack_top(), ..popped }.set_flag(BREAK, false).set_flag(
            BREAK2,
            true,
        )
    }

    /// The bytes of `values` pushed one after the other, the first one first.
    pub open spec fn push_all(self, values: Seq<u8>) -> State
        decreases values.len(),
    {
        if values.len() == 0 {
            self
        } else {
            self.push_all(values.drop_last()).stack_push(values.last())
        }
    }

    /// `count` pops in a row.
    pub open spec fn pop_times(self, count: nat) -> State
        decreases count,
    {
        if count == 0 {
            self
        } else {
            self.pop_times((count - 1) as nat).stack_pop()
        }
    }

    // ----- control flow -----

    /// A taken branch lands `offset` (signed, read at `pc`) after the byte
    /// that follows the offset. One not taken leaves `pc` alone.
    pub open spec fn branch(self, condition: bool) -> State {
        if condition {
            State { pc: displaced(self.pc.wrapping_add(1), self.read(self.pc)), ..self }
        } else {
            self
        }
    }

    pub open spec fn jmp_absolute(self) -> State {
        State { pc: self.read_u16(self.pc), ..self }
    }

    /// The target's high byte is fetched from the page of the pointer: a
    /// pointer at `xxFF` takes it from `xx00`, not from the next page.
    pub open spec fn jmp_indirect(self) -> State {
        let pointer = self.read_u16(self.pc);
        let next = if low_byte(pointer) == 0xFF {
            (pointer - 0xFF) as u16
        } else {
            pointer.wrapping_add(1)
        };
        State { pc: word(self.read(pointer), self.read(next)), ..self }
    }

    /// The pushed return address is that of the last byte of the instruction.
    pub open spec fn jsr(self) -> State {
        let pushed = self.stack_push_u16(self.pc.wrapping_add(1));
        State { pc: pushed.read_u16(self.pc), ..pushed }
    }

    pub open spec fn rts(self) -> State {
        let popped = self.stack_pop_u16();
        State { pc: popped.stack_top_u16().wrapping_add(1), ..popped }
    }

    pub open spec fn rti(self) -> State {
        let restored = self.plp();
        let popped = restored.stack_pop_u16();
        State { pc: popped.stack_top_u16(), ..popped }
    }

    /// The interrupt sequence of `BRK`, with `pc` already past the opcode:
    /// the address behind the padding byte and a copy of `P` with B and U
    /// set are pushed, I is set, and `pc` comes from the interrupt vector.
    pub open spec fn brk_interrupt(self) -> State {
        let pushed = self.stack_push_u16(self.pc.wrapping_add(1)).php().set_flag(
            INTERRUPT_DISABLE,
            true,
        );
        State { pc: pushed.read_u16(IRQ_VECTOR), ..pushed }
    }

    // ----- life cycle -----

    /// Registers cleared, `P = I | U`, `sp = 0xFD`, `pc` from the reset vector.
    pub open spec fn reset(self) -> State {
        State {
            acc: 0,
            status: INTERRUPT_DISABLE | BREAK2,
            index_x: 0,
            index_y: 0,
            sp: STACK_RESET,
            pc: self.read_u16(RESET_VECTOR),
            memory: self.memory,
        }
    }

    /// The program copied to `PROGRAM_START` and that address stored in the
    /// reset vector. Where the two overlap, the vector wins.
    pub open spec fn load(self, program: Seq<u8>) -> State {
        State {
            memory: overlaid(self.memory, program, program.len() as int),
            ..self
        }.write_u16(RESET_VECTOR, PROGRAM_START)
    }

    // ----- fetch, decode, execute -----

    /// Loads and stores.
    pub open spec fn load_or_store(self, code: u8, mode: AddressingMode) -> Option<State> {
        match code {
            0xA9 | 0xA5 | 0xB5 | 0xAD | 0xBD | 0xB9 | 0xA1 | 0xB1 => Some(self.lda(mode)),
            0xA2 | 0xA6 | 0xB6 | 0xAE | 0xBE => Some(self.ldx(mode)),
            0xA0 | 0xA4 | 0xB4 | 0xAC | 0xBC => Some(self.ldy(mode)),
            0x85 | 0x8D | 0x95 | 0x9D | 0x99 | 0x81 | 0x91 => Some(self.sta(mode)),
            0x86 | 0x96 | 0x8E => Some(self.stx(mode)),
            0x84 | 0x94 | 0x8C => Some(self.sty(mode)),
            _ => None,
        }
    }

    /// Additions, subtractions, comparisons and the bitwise operations on `A`.
    pub open spec fn arithmetic_or_logic(self, code: u8, mode: AddressingMode) -> Option<State> {
        match code {
            0x69 | 0x65 | 0x75 | 0x6D | 0x7D | 0x79 | 0x61 | 0x71 => Some(self.adc(mode)),
            0xE9 | 0xE5 | 0xF5 | 0xED | 0xFD | 0xF9 | 0xE1 | 0xF1 => Some(self.sbc(mode)),
            0xC9 | 0xC5 | 0xD5 | 0xCD | 0xDD | 0xD9 | 0xC1 | 0xD1 => Some(
                self.compare(mode, self.acc),
            ),
            0xE0 | 0xE4 | 0xEC => Some(self.compare(mode, self.index_x)),
            0xC0 | 0xC4 | 0xCC => Some(self.compare(mode, self.index_y)),
            0x29 | 0x25 | 0x35 | 0x2D | 0x3D | 0x39 | 0x21 | 0x31 => Some(self.and(mode)),
            0x49 | 0x45 | 0x55 | 0x4D | 0x5D | 0x59 | 0x41 | 0x51 => Some(self.eor(mode)),
            0x09 | 0x05 | 0x15 | 0x0D | 0x1D | 0x19 | 0x01 | 0x11 => Some(self.ora(mode)),
            0x24 | 0x2C => Some(self.bit(mode)),
            _ => None,
        }
    }

    /// Increments and decrements of memory cells and index registers.
    pub open spec fn increment_or_decrement(self, code: u8, mode: AddressingMode) -> Option<State> {
        match code {
            0xE6 | 0xEE | 0xF6 | 0xFE => Some(self.inc(mode)),
            0xC6 | 0xCE | 0xD6 | 0xDE => Some(self.dec(mode)),
            0xE8 => Some(self.inx()),
            0xC8 => Some(self.iny()),
            0xCA => Some(self.dex()),
            0x88 => Some(self.dey()),
            _ => None,
        }
    }

    /// Shifts and rotates, of the accumulator and of memory cells.
    pub open spec fn shift_or_rotate(self, code: u8, mode: AddressingMode) -> Option<State> {
        match code {
            0x0A => Some(self.asl_accumulator()),
            0x06 | 0x16 | 0x0E | 0x1E => Some(self.asl(mode)),
            0x4A => Some(self.lsr_accumulator()),
            0x46 | 0x56 | 0x4E | 0x5E => Some(self.lsr(mode)),
            0x2A => Some(self.rol_accumulator()),
            0x26 | 0x36 | 0x2E | 0x3E => Some(self.rol(mode)),
            0x6A => Some(self.ror_accumulator()),
            0x66 | 0x76 | 0x6E | 0x7E => Some(self.ror(mode)),
            _ => None,
        }
    }

    /// Register transfers and the four stack instructions.
    pub open spec fn transfer_or_stack(self, code: u8) -> Option<State> {
        match code {
            0xAA => Some(self.tax()),
            0xA8 => Some(self.tay()),
            0x8A => Some(self.txa()),
            0x98 => Some(self.tya()),
            0xBA => Some(self.tsx()),
            0x9A => Some(self.txs()),
            0x48 => Some(self.pha()),
            0x68 => Some(self.pla()),
            0x08 => Some(self.php()),
            0x28 => Some(self.plp()),
            _ => None,
        }
    }

    /// Conditional branches and the instructions that set or clear one flag.
    pub open spec fn branch_or_flag(self, code: u8) -> Option<State> {
        match code {
            0x90 => Some(self.branch(!self.get_flag(CARRY))),
            0xB0 => Some(self.branch(self.get_flag(CARRY))),
            0xF0 => Some(self.branch(self.get_flag(ZERO))),
            0xD0 => Some(self.branch(!self.get_flag(ZERO))),
            0x30 => Some(self.branch(self.get_flag(NEGATIVE))),
            0x10 => Some(self.branch(!self.get_flag(NEGATIVE))),
            0x50 => Some(self.branch(!self.get_flag(OVERFLOW))),
            0x70 => Some(self.branch(self.get_flag(OVERFLOW))),
            0x18 => Some(self.set_flag(CARRY, false)),
            0x38 => Some(self.set_flag(CARRY, true)),
            0x58 => Some(self.set_flag(INTERRUPT_DISABLE, false)),
            0x78 => Some(self.set_flag(INTERRUPT_DISABLE, true)),
            0xD8 => Some(self.set_flag(DECIMAL_MODE, false)),
            0xF8 => Some(self.set_flag(DECIMAL_MODE, true)),
            0xB8 => Some(self.set_flag(OVERFLOW, false)),
            _ => None,
        }
    }

    /// Jumps, subroutine call and the two returns.
    pub open spec fn jump_or_return(self, code: u8) -> Option<State> {
        match code {
            0x4C => Some(self.jmp_absolute()),
            0x6C => Some(self.jmp_indirect()),
            0x20 => Some(self.jsr()),
            0x60 => Some(self.rts()),
            0x40 => Some(self.rti()),
            _ => None,
        }
    }

    /// What the instruction with opcode `code` does, once `pc` has moved past
    /// the opcode byte. `mode` is the addressing mode of its table entry.
    /// `NOP` changes nothing, and neither does a byte that is no opcode.
    pub open spec fn execute(self, code: u8, mode: AddressingMode) -> State {
        if self.load_or_store(code, mode) is Some {
            self.load_or_store(code, mode)->0
        } else if self.arithmetic_or_logic(code, mode) is Some {
            self.arithmetic_or_logic(code, mode)->0
        } else if self.increment_or_decrement(code, mode) is Some {
            self.increment_or_decrement(code, mode)->0
        } else if self.shift_or_rotate(code, mode) is Some {
            self.shift_or_rotate(code, mode)->0
        } else if self.transfer_or_stack(code) is Some {
            self.transfer_or_stack(code)->0
        } else if self.branch_or_flag(code) is Some {
            self.branch_or_flag(code)->0
        } else if self.jump_or_return(code) is Some {
            self.jump_or_return(code)->0
        } else {
            self
        }
    }

    /// The state with `pc` moved past the opcode byte.
    pub open spec fn fetched(self) -> State {
        State { pc: self.pc.wrapping_add(1), ..self }
    }

    /// One instruction. The opcode at `pc` is fetched and `pc` moves past it.
    /// An undocumented opcode stops there, and so does `BRK`. Any other
    /// instruction is executed; where it left `pc` alone, `pc` then moves
    /// past the operand bytes.
    pub open spec fn step(self) -> (State, Outcome) {
        let code = self.read(self.pc);
        let fetched = self.fetched();
        match instruction_for(code) {
            None => (fetched, Outcome::UnknownOpcode(code)),
            Some(instruction) => if code == 0x00 {
                (fetched, Outcome::Break)
            } else {
                let done = fetched.execute(code, instruction.mode);
                if done.pc == fetched.pc {
                    (
                        State { pc: done.pc.wrapping_add((instruction.len - 1) as u16), ..done },
                        Outcome::Running,
                    )
                } else {
                    (done, Outcome::Running)
                }
            },
        }
    }

    /// At most `budget` instructions, stopping early at the first that does
    /// not leave the machine running.
    pub open spec fn run(self, budget: nat) -> (State, Outcome)
        decreases budget,
    {
        if budget == 0 {
            (self, Outcome::Running)
        } else {
            let (next, outcome) = self.step();
            if outcome == Outcome::Running {
                next.run((budget - 1) as nat)
            } else {
                (next, outcome)
            }
        }
    }
}

} // verus!
