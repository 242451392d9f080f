//! The processor: its registers, its flat 64 KiB memory, and the
//! fetch-decode-execute loop.

use vstd::prelude::*;
use crate::opcodes::{
    instruction_for,
    lemma_table_lengths,
    lemma_table_modes,
    lookup,
    resolves_operand,
};
use crate::state::{
    high_byte,
    low_byte,
    overlaid,
    rotated_left,
    rotated_right,
    word,
    State,
    IRQ_VECTOR,
    PROGRAM_START,
    RESET_VECTOR,
    STACK,
    STACK_RESET,
};
use crate::status_flags::{
    BREAK,
    BREAK2,
    CARRY,
    DECIMAL_MODE,
    INTERRUPT_DISABLE,
    NEGATIVE,
    OVERFLOW,
    ZERO,
};

verus! {

/// How an instruction finds its operand.
#[derive(Debug, Clone, Copy, PartialEq, Eq)]
pub enum AddressingMode {
    Immediate,
    ZeroPage,
    ZeroPageX,
    ZeroPageY,
    Absolute,
    AbsoluteX,
    AbsoluteY,
    IndirectX,
    IndirectY,
    NoneAddressing,
}

/// How one step, or a run of steps, ended.
#[derive(Debug, Clone, Copy, PartialEq, Eq)]
pub enum Outcome {
    /// The instruction completed; the machine can go on.
    Running,
    /// `BRK` was fetched: the program halted.
    Break,
    /// The fetched byte is no documented opcode.
    UnknownOpcode(u8),
}

/// Most instructions that `run` and `run_with_callback` execute before they
/// give up on a program that does not halt.
pub const STEP_LIMIT: u64 = 0xFFFF_FFFF_FFFF_FFFF;

/// A byte-addressed memory with 16-bit addresses.
///
/// An implementation describes itself through its view: which addresses can
/// be read and written, what a read returns, and what a write leaves behind.
pub trait Memory: View + Sized {
    /// Whether a read of `address` is served.
    spec fn readable(space: Self::V, address: u16) -> bool;

    /// Whether a write to `address` is accepted.
    spec fn writable(space: Self::V, address: u16) -> bool;

    /// The byte that a read of `address` returns.
    spec fn peek(space: Self::V, address: u16) -> u8;

    /// The memory after `value` was written to `address`.
    spec fn poke(space: Self::V, address: u16, value: u8) -> Self::V;

    /// A write changes no address's access rights.
    proof fn lemma_poke_keeps_access(space: Self::V, address: u16, value: u8)
        ensures
            forall|a: u16|
                Self::readable(#[trigger] Self::poke(space, address, value), a) == Self::readable(
                    space,
                    a,
                ),
            forall|a: u16|
                Self::writable(#[trigger] Self::poke(space, address, value), a) == Self::writable(
                    space,
                    a,
                ),
    ;

    fn mem_read(&self, address: u16) -> (value: u8)
        requires
            Self::readable(self@, address),
        ensures
            value == Self::peek(self@, address),
    ;

    fn mem_write(&mut self, address: u16, value: u8)
        requires
            Self::writable(old(self)@, address),
        ensures
            final(self)@ == Self::poke(old(self)@, address, value),
    ;

    /// Reads the little-endian word at `pos`. The second byte of a word at
    /// `0xFFFF` is the one at `0x0000`.
    fn mem_read_u16(&self, pos: u16) -> (value: u16)
        requires
            Self::readable(self@, pos),
            Self::readable(self@, pos.wrapping_add(1)),
        ensures
            value == word(Self::peek(self@, pos), Self::peek(self@, pos.wrapping_add(1))),
    {
        let lo: u16 = self.mem_read(pos) as u16;
        let hi: u16 = self.mem_read(pos.wrapping_add(1)) as u16;
        proof {
            lemma_word_of_bytes(lo, hi);
        }
        (hi << 8) | lo
    }

    /// Writes `data` at `pos`, low byte first.
    fn mem_write_u16(&mut self, pos: u16, data: u16)
        requires
            Self::writable(old(self)@, pos),
            Self::writable(old(self)@, pos.wrapping_add(1)),
        ensures
            final(self)@ == Self::poke(
                Self::poke(old(self)@, pos, low_byte(data)),
                pos.wrapping_add(1),
                high_byte(data),
            ),
    {
        let hi: u8 = (data >> 8) as u8;
        let lo: u8 = (data & 0xFF) as u8;
        proof {
            lemma_bytes_of_word(data);
        }
        proof {
            Self::lemma_poke_keeps_access(self@, pos, lo);
        }
        self.mem_write(pos, lo);
        self.mem_write(pos.wrapping_add(1), hi);
    }
}

/// The 6502 with a flat memory of its own.
pub struct CPU {
    pub acc: u8,
    pub status: u8,
    pub index_x: u8,
    pub index_y: u8,
    /// Stack pointer: the stack cell in use next is at `0x0100 + sp`.
    pub sp: u8,
    /// Program counter.
    pub pc: u16,
    memory: [u8; 0x10000],
}

impl View for CPU {
    type V = State;

    closed spec fn view(&self) -> State {
        State {
            acc: self.acc,
            status: self.status,
            index_x: self.index_x,
            index_y: self.index_y,
            sp: self.sp,
            pc: self.pc,
            memory: self.memory@,
        }
    }
}

impl Memory for CPU {
    open spec fn readable(space: State, address: u16) -> bool {
        true
    }

    open spec fn writable(space: State, address: u16) -> bool {
        true
    }

    open spec fn peek(space: State, address: u16) -> u8 {
        space.read(address)
    }

    open spec fn poke(space: State, address: u16, value: u8) -> State {
        space.write(address, value)
    }

    proof fn lemma_poke_keeps_access(space: State, address: u16, value: u8) {
    }

    fn mem_read(&self, address: u16) -> (value: u8) {
        self.memory[address as usize]
    }

    fn mem_write(&mut self, address: u16, value: u8) {
        self.memory[address as usize] = value;
    }
}

impl CPU {
    /// A processor with cleared registers, `P = I | U`, `sp = 0xFD`, `pc = 0`
    /// and zeroed memory.
    pub fn new() -> (cpu: CPU)
        ensures
            cpu@ == State::power_on(),
    {
        let cpu = CPU {
            acc: 0,
            status: INTERRUPT_DISABLE | BREAK2,
            index_x: 0,
            index_y: 0,
            sp: STACK_RESET,
            pc: 0,
            memory: [0; 0x10000],
        };
        assert(cpu@.memory =~= State::power_on().memory);
        cpu
    }

    /// The model always has all 65536 cells.
    pub proof fn lemma_view_wf(&self)
        ensures
            self@.wf(),
    {
    }

    pub fn set_flag(&mut self, flag: u8, value: bool)
        ensures
            final(self)@ == old(self)@.set_flag(flag, value),
    {
        if value {
            self.status = self.status | flag;
        } else {
            self.status = self.status & !flag;
        }
    }

    pub fn get_flag(&self, flag: u8) -> (set: bool)
        ensures
            set == self@.get_flag(flag),
    {
        (self.status & flag) != 0
    }

    pub fn update_zero_and_negative_flags(&mut self, value: u8)
        ensures
            final(self)@ == old(self)@.update_zero_and_negative_flags(value),
    {
        assert(((value & 0b1000_0000) != 0) == (value >= 0x80)) by (bit_vector);
        self.set_flag(ZERO, value == 0);
        self.set_flag(NEGATIVE, (value & 0b1000_0000) != 0);
    }

    /// Resolves `mode` with `pc` at the first operand byte.
    pub fn get_operand_address(&self, mode: &AddressingMode) -> (address: u16)
        requires
            *mode != AddressingMode::NoneAddressing,
        ensures
            address == self@.operand_address(*mode),
    {
        match mode {
            AddressingMode::Immediate => self.pc,
            AddressingMode::ZeroPage => self.mem_read(self.pc) as u16,
            AddressingMode::Absolute => self.mem_read_u16(self.pc),
            AddressingMode::ZeroPageX => {
                let pos = self.mem_read(self.pc);
                pos.wrapping_add(self.index_x) as u16
            },
            AddressingMode::ZeroPageY => {
                let pos = self.mem_read(self.pc);
                pos.wrapping_add(self.index_y) as u16
            },
            AddressingMode::AbsoluteX => {
                let base = self.mem_read_u16(self.pc);
                base.wrapping_add(self.index_x as u16)
            },
            AddressingMode::AbsoluteY => {
                let base = self.mem_read_u16(self.pc);
                base.wrapping_add(self.index_y as u16)
            },
            AddressingMode::IndirectX => {
                let base = self.mem_read(self.pc);
                let ptr: u8 = base.wrapping_add(self.index_x);
                self.read_zero_page_u16(ptr)
            },
            AddressingMode::IndirectY => {
                let base = self.mem_read(self.pc);
                let deref_base = self.read_zero_page_u16(base);
                deref_base.wrapping_add(self.index_y as u16)
            },
            AddressingMode::NoneAddressing => 0,
        }
    }

    /// Reads a word from the zero page; its high byte never comes from page 1.
    fn read_zero_page_u16(&self, pointer: u8) -> (value: u16)
        ensures
            value == self@.read_zero_page_u16(pointer),
    {
        let lo: u16 = self.mem_read(pointer as u16) as u16;
        let hi: u16 = self.mem_read(pointer.wrapping_add(1) as u16) as u16;
        proof {
            lemma_word_of_bytes(lo, hi);
        }
        (hi << 8) | lo
    }

    pub fn lda(&mut self, mode: &AddressingMode)
        requires
            *mode != AddressingMode::NoneAddressing,
        ensures
            final(self)@ == old(self)@.lda(*mode),
    {
        let addr = self.get_operand_address(mode);
        let value = self.mem_read(addr);
        self.acc = value;
        self.update_zero_and_negative_flags(self.acc);
    }

    pub fn ldx(&mut self, mode: &AddressingMode)
        requires
            *mode != AddressingMode::NoneAddressing,
        ensures
            final(self)@ == old(self)@.ldx(*mode),
    {
        let addr = self.get_operand_address(mode);
        self.index_x = self.mem_read(addr);
        self.update_zero_and_negative_flags(self.index_x);
    }

    pub fn ldy(&mut self, mode: &AddressingMode)
        requires
            *mode != AddressingMode::NoneAddressing,
        ensures
            final(self)@ == old(self)@.ldy(*mode),
    {
        let addr = self.get_operand_address(mode);
        self.index_y = self.mem_read(addr);
        self.update_zero_and_negative_flags(self.index_y);
    }

    pub fn sta(&mut self, mode: &AddressingMode)
        requires
            *mode != AddressingMode::NoneAddressing,
        ensures
            final(self)@ == old(self)@.sta(*mode),
    {
        let addr = self.get_operand_address(mode);
        self.mem_write(addr, self.acc);
    }

    pub fn stx(&mut self, mode: &AddressingMode)
        requires
            *mode != AddressingMode::NoneAddressing,
        ensures
            final(self)@ == old(self)@.stx(*mode),
    {
        let addr = self.get_operand_address(mode);
        self.mem_write(addr, self.index_x);
    }

    pub fn sty(&mut self, mode: &AddressingMode)
        requires
            *mode != AddressingMode::NoneAddressing,
        ensures
            final(self)@ == old(self)@.sty(*mode),
    {
        let addr = self.get_operand_address(mode);
        self.mem_write(addr, self.index_y);
    }

    pub fn tax(&mut self)
        ensures
            final(self)@ == old(self)@.tax(),
    {
        self.index_x = self.acc;
        self.update_zero_and_negative_flags(self.index_x);
    }

    pub fn tay(&mut self)
        ensures
            final(self)@ == old(self)@.tay(),
    {
        self.index_y = self.acc;
        self.update_zero_and_negative_flags(self.index_y);
    }

    pub fn txa(&mut self)
        ensures
            final(self)@ == old(self)@.txa(),
    {
        self.acc = self.index_x;
        self.update_zero_and_negative_flags(self.acc);
    }

    pub fn tya(&mut self)
        ensures
            final(self)@ == old(self)@.tya(),
    {
        self.acc = self.index_y;
        self.update_zero_and_negative_flags(self.acc);
    }

    pub fn tsx(&mut self)
        ensures
            final(self)@ == old(self)@.tsx(),
    {
        self.index_x = self.sp;
        self.update_zero_and_negative_flags(self.index_x);
    }

    pub fn txs(&mut self)
        ensures
            final(self)@ == old(self)@.txs(),
    {
        self.sp = self.index_x;
    }

    pub fn inc(&mut self, mode: &AddressingMode)
        requires
            *mode != AddressingMode::NoneAddressing,
        ensures
            final(self)@ == old(self)@.inc(*mode),
    {
        let addr = self.get_operand_address(mode);
        let value = self.mem_read(addr);
        let result = value.wrapping_add(1);
        self.mem_write(addr, result);
        self.update_zero_and_negative_flags(result);
    }

    pub fn inx(&mut self)
        ensures
            final(self)@ == old(self)@.inx(),
    {
        self.index_x = self.index_x.wrapping_add(1);
        self.update_zero_and_negative_flags(self.index_x);
    }

    pub fn iny(&mut self)
        ensures
            final(self)@ == old(self)@.iny(),
    {
        self.index_y = self.index_y.wrapping_add(1);
        self.update_zero_and_negative_flags(self.index_y);
    }

    pub fn dec(&mut self, mode: &AddressingMode)
        requires
            *mode != AddressingMode::NoneAddressing,
        ensures
            final(self)@ == old(self)@.dec(*mode),
    {
        let addr = self.get_operand_address(mode);
        let mut value = self.mem_read(addr);
        value = value.wrapping_sub(1);
        self.mem_write(addr, value);
        self.update_zero_and_negative_flags(value);
    }

    pub fn dex(&mut self)
        ensures
            final(self)@ == old(self)@.dex(),
    {
        self.index_x = self.index_x.wrapping_sub(1);
        self.update_zero_and_negative_flags(self.index_x);
    }

    pub fn dey(&mut self)
        ensures
            final(self)@ == old(self)@.dey(),
    {
        self.index_y = self.index_y.wrapping_sub(1);
        self.update_zero_and_negative_flags(self.index_y);
    }

    /// `A + value + C`, the common path of `adc` and `sbc`.
    fn add_with_carry(&mut self, value: u8)
        ensures
            final(self)@ == old(self)@.add_with_carry(value),
    {
        let carry_in: u16 = if self.get_flag(CARRY) {
            1
        } else {
            0
        };
        let sum: u16 = self.acc as u16 + value as u16 + carry_in;
        self.set_flag(CARRY, sum > 0xFF);
        let result: u8 = (sum % 256) as u8;
        let overflow = (self.acc ^ result) & (value ^ result) & 0x80 != 0;
        self.set_flag(OVERFLOW, overflow);
        self.acc = result;
        self.update_zero_and_negative_flags(self.acc);
    }

    pub fn adc(&mut self, mode: &AddressingMode)
        requires
            *mode != AddressingMode::NoneAddressing,
        ensures
            final(self)@ == old(self)@.adc(*mode),
    {
        let addr = self.get_operand_address(mode);
        let value = self.mem_read(addr);
        self.add_with_carry(value);
    }

    pub fn sbc(&mut self, mode: &AddressingMode)
        requires
            *mode != AddressingMode::NoneAddressing,
        ensures
            final(self)@ == old(self)@.sbc(*mode),
    {
        let addr = self.get_operand_address(mode);
        let value = self.mem_read(addr);
        assert(value ^ 0xFF == 255 - value) by (bit_vector);
        self.add_with_carry(value ^ 0xFF);
    }

    pub fn and(&mut self, mode: &AddressingMode)
        requires
            *mode != AddressingMode::NoneAddressing,
        ensures
            final(self)@ == old(self)@.and(*mode),
    {
        let addr = self.get_operand_address(mode);
        let value = self.mem_read(addr);
        self.acc = self.acc & value;
        self.update_zero_and_negative_flags(self.acc);
    }

    pub fn eor(&mut self, mode: &AddressingMode)
        requires
            *mode != AddressingMode::NoneAddressing,
        ensures
            final(self)@ == old(self)@.eor(*mode),
    {
        let addr = self.get_operand_address(mode);
        let value = self.mem_read(addr);
        self.acc = self.acc ^ value;
        self.update_zero_and_negative_flags(self.acc);
    }

    pub fn ora(&mut self, mode: &AddressingMode)
        requires
            *mode != AddressingMode::NoneAddressing,
        ensures
            final(self)@ == old(self)@.ora(*mode),
    {
        let addr = self.get_operand_address(mode);
        let value = self.mem_read(addr);
        self.acc = self.acc | value;
        self.update_zero_and_negative_flags(self.acc);
    }

    pub fn compare(&mut self, mode: &AddressingMode, reg_value: u8)
        requires
            *mode != AddressingMode::NoneAddressing,
        ensures
            final(self)@ == old(self)@.compare(*mode, reg_value),
    {
        let addr = self.get_operand_address(mode);
        let value = self.mem_read(addr);
        let result = reg_value.wrapping_sub(value);
        self.set_flag(CARRY, reg_value >= value);
        self.update_zero_and_negative_flags(result);
    }

    pub fn bit(&mut self, mode: &AddressingMode)
        requires
            *mode != AddressingMode::NoneAddressing,
        ensures
            final(self)@ == old(self)@.bit(*mode),
    {
        let addr = self.get_operand_address(mode);
        let value = self.mem_read(addr);
        self.set_flag(ZERO, (self.acc & value) == 0);
        self.set_flag(NEGATIVE, (value & NEGATIVE) != 0);
        self.set_flag(OVERFLOW, (value & OVERFLOW) != 0);
    }

    /// Shifts `value` left with `carry_in` entering at bit 0, and sets C, Z
    /// and N from what happened.
    fn shift_left(&mut self, value: u8, carry_in: bool) -> (result: u8)
        ensures
            result == rotated_left(value, carry_in),
            final(self)@ == old(self)@.shifted_flags(value >= 0x80, result),
    {
        proof {
            lemma_end_bits(value);
            lemma_shift_left(value);
        }
        self.set_flag(CARRY, (value & 0x80) != 0);
        let mut result: u8 = value << 1;
        if carry_in {
            result |= 0x01;
        }
        self.update_zero_and_negative_flags(result);
        result
    }

    /// Shifts `value` right with `carry_in` entering at bit 7, and sets C, Z
    /// and N from what happened.
    fn shift_right(&mut self, value: u8, carry_in: bool) -> (result: u8)
        ensures
            result == rotated_right(value, carry_in),
            final(self)@ == old(self)@.shifted_flags(value % 2 == 1, result),
    {
        proof {
            lemma_end_bits(value);
            lemma_shift_right(value);
        }
        self.set_flag(CARRY, (value & 0x01) != 0);
        let mut result: u8 = value >> 1;
        if carry_in {
            result |= 0x80;
        }
        self.update_zero_and_negative_flags(result);
        result
    }

    pub fn asl_accumulator(&mut self)
        ensures
            final(self)@ == old(self)@.asl_accumulator(),
    {
        let value = self.acc;
        self.acc = self.shift_left(value, false);
    }

    pub fn asl(&mut self, mode: &AddressingMode)
        requires
            *mode != AddressingMode::NoneAddressing,
        ensures
            final(self)@ == old(self)@.asl(*mode),
    {
        let addr = self.get_operand_address(mode);
        let value = self.mem_read(addr);
        let result = self.shift_left(value, false);
        self.mem_write(addr, result);
    }

    pub fn lsr_accumulator(&mut self)
        ensures
            final(self)@ == old(self)@.lsr_accumulator(),
    {
        let value = self.acc;
        self.acc = self.shift_right(value, false);
    }

    pub fn lsr(&mut self, mode: &AddressingMode)
        requires
            *mode != AddressingMode::NoneAddressing,
        ensures
            final(self)@ == old(self)@.lsr(*mode),
    {
        let addr = self.get_operand_address(mode);
        let value = self.mem_read(addr);
        let result = self.shift_right(value, false);
        self.mem_write(addr, result);
    }

    pub fn rol_accumulator(&mut self)
        ensures
            final(self)@ == old(self)@.rol_accumulator(),
    {
        let value = self.acc;
        let old_carry = self.get_flag(CARRY);
        self.acc = self.shift_left(value, old_carry);
    }

    pub fn rol(&mut self, mode: &AddressingMode)
        requires
            *mode != AddressingMode::NoneAddressing,
        ensures
            final(self)@ == old(self)@.rol(*mode),
    {
        let addr = self.get_operand_address(mode);
        let value = self.mem_read(addr);
        let old_carry = self.get_flag(CARRY);
        let result = self.shift_left(value, old_carry);
        self.mem_write(addr, result);
    }

    pub fn ror_accumulator(&mut self)
        ensures
            final(self)@ == old(self)@.ror_accumulator(),
    {
        let value = self.acc;
        let old_carry = self.get_flag(CARRY);
        self.acc = self.shift_right(value, old_carry);
    }

    pub fn ror(&mut self, mode: &AddressingMode)
        requires
            *mode != AddressingMode::NoneAddressing,
        ensures
            final(self)@ == old(self)@.ror(*mode),
    {
        let addr = self.get_operand_address(mode);
        let value = self.mem_read(addr);
        let old_carry = self.get_flag(CARRY);
        let result = self.shift_right(value, old_carry);
        self.mem_write(addr, result);
    }

    pub fn stack_push(&mut self, value: u8)
        ensures
            final(self)@ == old(self)@.stack_push(value),
    {
        self.mem_write(STACK + self.sp as u16, value);
        self.sp = self.sp.wrapping_sub(1);
    }

    pub fn stack_pop(&mut self) -> (value: u8)
        ensures
            final(self)@ == old(self)@.stack_pop(),
            value == final(self)@.stack_top(),
    {
        self.sp = self.sp.wrapping_add(1);
        self.mem_read(STACK + self.sp as u16)
    }

    pub fn stack_push_u16(&mut self, value: u16)
        ensures
            final(self)@ == old(self)@.stack_push_u16(value),
    {
        let hi: u8 = (value >> 8) as u8;
        let lo: u8 = (value & 0xFF) as u8;
        proof {
            lemma_bytes_of_word(value);
        }
        self.stack_push(hi);
        self.stack_push(lo);
    }

    pub fn stack_pop_u16(&mut self) -> (value: u16)
        ensures
            final(self)@ == old(self)@.stack_pop_u16(),
            value == final(self)@.stack_top_u16(),
    {
        let lo: u16 = self.stack_pop() as u16;
        let hi: u16 = self.stack_pop() as u16;
        proof {
            lemma_word_of_bytes(lo, hi);
        }
        (hi << 8) | lo
    }

    pub fn pha(&mut self)
        ensures
            final(self)@ == old(self)@.pha(),
    {
        self.stack_push(self.acc);
    }

    pub fn pla(&mut self)
        ensures
            final(self)@ == old(self)@.pla(),
    {
        self.acc = self.stack_pop();
        self.update_zero_and_negative_flags(self.acc);
    }

    pub fn php(&mut self)
        ensures
            final(self)@ == old(self)@.php(),
    {
        let mut flags = self.status;
        flags |= BREAK;
        flags |= BREAK2;
        self.stack_push(flags);
    }

    pub fn plp(&mut self)
        ensures
            final(self)@ == old(self)@.plp(),
    {
        self.status = self.stack_pop();
        self.set_flag(BREAK, false);
        self.set_flag(BREAK2, true);
    }

    /// The common body of the eight conditional branches.
    pub fn branch(&mut self, condition: bool)
        ensures
            final(self)@ == old(self)@.branch(condition),
    {
        if condition {
            let offset = self.mem_read(self.pc);
            let next = self.pc.wrapping_add(1);
            self.pc = if offset < 0x80 {
                next.wrapping_add(offset as u16)
            } else {
                next.wrapping_sub(256 - offset as u16)
            };
        }
    }

    pub fn jmp_absolute(&mut self)
        ensures
            final(self)@ == old(self)@.jmp_absolute(),
    {
        self.pc = self.mem_read_u16(self.pc);
    }

    pub fn jmp_indirect(&mut self)
        ensures
            final(self)@ == old(self)@.jmp_indirect(),
    {
        let operand_addr = self.mem_read_u16(self.pc);
        assert((operand_addr & 0x00FF == 0x00FF) == (operand_addr % 256 == 0xFF) && (operand_addr
            & 0x00FF == 0x00FF ==> operand_addr & 0xFF00 == operand_addr - 0xFF)) by (bit_vector);
        let target_addr = if operand_addr & 0x00FF == 0x00FF {
            let lo: u16 = self.mem_read(operand_addr) as u16;
            let hi: u16 = self.mem_read(operand_addr & 0xFF00) as u16;
            proof {
                lemma_word_of_bytes(lo, hi);
            }
            (hi << 8) | lo
        } else {
            self.mem_read_u16(operand_addr)
        };
        self.pc = target_addr;
    }

    pub fn jsr(&mut self)
        ensures
            final(self)@ == old(self)@.jsr(),
    {
        self.stack_push_u16(self.pc.wrapping_add(1));
        self.pc = self.mem_read_u16(self.pc);
    }

    pub fn rts(&mut self)
        ensures
            final(self)@ == old(self)@.rts(),
    {
        self.pc = self.stack_pop_u16().wrapping_add(1);
    }

    pub fn rti(&mut self)
        ensures
            final(self)@ == old(self)@.rti(),
    {
        self.status = self.stack_pop();
        self.set_flag(BREAK, false);
        self.set_flag(BREAK2, true);
        self.pc = self.stack_pop_u16();
    }

    /// Enters the interrupt handler as the hardware does on `BRK`. `step`
    /// and the run functions treat `BRK` as a halt and never do this; a host
    /// that wants the hardware's behaviour calls it once a run has returned
    /// `Outcome::Break`, when `pc` is just past the `BRK` opcode.
    pub fn brk_interrupt(&mut self)
        ensures
            final(self)@ == old(self)@.brk_interrupt(),
    {
        self.stack_push_u16(self.pc.wrapping_add(1));
        self.php();
        self.set_flag(INTERRUPT_DISABLE, true);
        self.pc = self.mem_read_u16(IRQ_VECTOR);
    }

    /// Clears the registers and takes `pc` from the reset vector. Memory is
    /// left as it is.
    pub fn reset(&mut self)
        ensures
            final(self)@ == old(self)@.reset(),
    {
        self.acc = 0;
        self.status = INTERRUPT_DISABLE | BREAK2;
        self.index_x = 0;
        self.index_y = 0;
        self.sp = STACK_RESET;
        self.pc = self.mem_read_u16(RESET_VECTOR);
    }

    /// Copies `program` to `0x0600` and points the reset vector at it.
    pub fn load(&mut self, program: Vec<u8>)
        requires
            program@.len() <= 0x10000 - PROGRAM_START,
        ensures
            final(self)@ == old(self)@.load(program@),
    {
        let ghost before = self@;
        let mut copied: usize = 0;
        assert(self@.memory =~= overlaid(before.memory, program@, 0));
        while copied < program.len()
            invariant
                copied <= program@.len() <= 0x10000 - PROGRAM_START,
                self@ == (State { memory: overlaid(before.memory, program@, copied as int), ..before }),
            decreases program@.len() - copied,
        {
            self.memory[0x0600 + copied] = program[copied];
            copied += 1;
            assert(self@.memory =~= overlaid(before.memory, program@, copied as int));
        }
        self.mem_write_u16(RESET_VECTOR, PROGRAM_START);
    }

    /// Loads `program`, resets the processor and runs it.
    pub fn load_and_run(&mut self, program: Vec<u8>) -> (outcome: Outcome)
        requires
            program@.len() <= 0x10000 - PROGRAM_START,
        ensures
            (final(self)@, outcome) == old(self)@.load(program@).reset().run(STEP_LIMIT as nat),
    {
        self.load(program);
        self.reset();
        self.run()
    }

    /// Handles `code` if it is a load or a store.
    fn execute_load_or_store(&mut self, code: u8, mode: &AddressingMode) -> (handled: bool)
        requires
            resolves_operand(code) ==> *mode != AddressingMode::NoneAddressing,
        ensures
            handled == old(self)@.load_or_store(code, *mode) is Some,
            final(self)@ == if handled {
                old(self)@.load_or_store(code, *mode)->0
            } else {
                old(self)@
            },
    {
        match code {
            0xA9 | 0xA5 | 0xB5 | 0xAD | 0xBD | 0xB9 | 0xA1 | 0xB1 => self.lda(mode),
            0xA2 | 0xA6 | 0xB6 | 0xAE | 0xBE => self.ldx(mode),
            0xA0 | 0xA4 | 0xB4 | 0xAC | 0xBC => self.ldy(mode),
            0x85 | 0x8D | 0x95 | 0x9D | 0x99 | 0x81 | 0x91 => self.sta(mode),
            0x86 | 0x96 | 0x8E => self.stx(mode),
            0x84 | 0x94 | 0x8C => self.sty(mode),
            _ => {
                return false;
            },
        }
        true
    }

    /// Handles `code` if it adds, subtracts, compares or combines bits.
    fn execute_arithmetic_or_logic(&mut self, code: u8, mode: &AddressingMode) -> (handled: bool)
        requires
            resolves_operand(code) ==> *mode != AddressingMode::NoneAddressing,
        ensures
            handled == old(self)@.arithmetic_or_logic(code, *mode) is Some,
            final(self)@ == if handled {
                old(self)@.arithmetic_or_logic(code, *mode)->0
            } else {
                old(self)@
            },
    {
        match code {
            0x69 | 0x65 | 0x75 | 0x6D | 0x7D | 0x79 | 0x61 | 0x71 => self.adc(mode),
            0xE9 | 0xE5 | 0xF5 | 0xED | 0xFD | 0xF9 | 0xE1 | 0xF1 => self.sbc(mode),
            0xC9 | 0xC5 | 0xD5 | 0xCD | 0xDD | 0xD9 | 0xC1 | 0xD1 => self.compare(mode, self.acc),
            0xE0 | 0xE4 | 0xEC => self.compare(mode, self.index_x),
            0xC0 | 0xC4 | 0xCC => self.compare(mode, self.index_y),
            0x29 | 0x25 | 0x35 | 0x2D | 0x3D | 0x39 | 0x21 | 0x31 => self.and(mode),
            0x49 | 0x45 | 0x55 | 0x4D | 0x5D | 0x59 | 0x41 | 0x51 => self.eor(mode),
            0x09 | 0x05 | 0x15 | 0x0D | 0x1D | 0x19 | 0x01 | 0x11 => self.ora(mode),
            0x24 | 0x2C => self.bit(mode),
            _ => {
                return false;
            },
        }
        true
    }

    /// Handles `code` if it increments or decrements.
    fn execute_increment_or_decrement(&mut self, code: u8, mode: &AddressingMode) -> (handled: bool)
        requires
            resolves_operand(code) ==> *mode != AddressingMode::NoneAddressing,
        ensures
            handled == old(self)@.increment_or_decrement(code, *mode) is Some,
            final(self)@ == if handled {
                old(self)@.increment_or_decrement(code, *mode)->0
            } else {
                old(self)@
            },
    {
        match code {
            0xE6 | 0xEE | 0xF6 | 0xFE => self.inc(mode),
            0xC6 | 0xCE | 0xD6 | 0xDE => self.dec(mode),
            0xE8 => self.inx(),
            0xC8 => self.iny(),
            0xCA => self.dex(),
            0x88 => self.dey(),
            _ => {
                return false;
            },
        }
        true
    }

    /// Handles `code` if it shifts or rotates.
    fn execute_shift_or_rotate(&mut self, code: u8, mode: &AddressingMode) -> (handled: bool)
        requires
            resolves_operand(code) ==> *mode != AddressingMode::NoneAddressing,
        ensures
            handled == old(self)@.shift_or_rotate(code, *mode) is Some,
            final(self)@ == if handled {
                old(self)@.shift_or_rotate(code, *mode)->0
            } else {
                old(self)@
            },
    {
        match code {
            0x0A => self.asl_accumulator(),
            0x06 | 0x16 | 0x0E | 0x1E => self.asl(mode),
            0x4A => self.lsr_accumulator(),
            0x46 | 0x56 | 0x4E | 0x5E => self.lsr(mode),
            0x2A => self.rol_accumulator(),
            0x26 | 0x36 | 0x2E | 0x3E => self.rol(mode),
            0x6A => self.ror_accumulator(),
            0x66 | 0x76 | 0x6E | 0x7E => self.ror(mode),
            _ => {
                return false;
            },
        }
        true
    }

    /// Handles `code` if it moves a register or uses the stack.
    fn execute_transfer_or_stack(&mut self, code: u8) -> (handled: bool)
        ensures
            handled == old(self)@.transfer_or_stack(code) is Some,
            final(self)@ == if handled {
                old(self)@.transfer_or_stack(code)->0
            } else {
                old(self)@
            },
    {
        match code {
            0xAA => self.tax(),
            0xA8 => self.tay(),
            0x8A => self.txa(),
            0x98 => self.tya(),
            0xBA => self.tsx(),
            0x9A => self.txs(),
            0x48 => self.pha(),
            0x68 => self.pla(),
            0x08 => self.php(),
            0x28 => self.plp(),
            _ => {
                return false;
            },
        }
        true
    }

    /// Handles `code` if it is a branch or sets or clears a flag.
    fn execute_branch_or_flag(&mut self, code: u8) -> (handled: bool)
        ensures
            handled == old(self)@.branch_or_flag(code) is Some,
            final(self)@ == if handled {
                old(self)@.branch_or_flag(code)->0
            } else {
                old(self)@
            },
    {
        match code {
            0x90 => self.branch(!self.get_flag(CARRY)),
            0xB0 => self.branch(self.get_flag(CARRY)),
            0xF0 => self.branch(self.get_flag(ZERO)),
            0xD0 => self.branch(!self.get_flag(ZERO)),
            0x30 => self.branch(self.get_flag(NEGATIVE)),
            0x10 => self.branch(!self.get_flag(NEGATIVE)),
            0x50 => self.branch(!self.get_flag(OVERFLOW)),
            0x70 => self.branch(self.get_flag(OVERFLOW)),
            0x18 => self.set_flag(CARRY, false),
            0x38 => self.set_flag(CARRY, true),
            0x58 => self.set_flag(INTERRUPT_DISABLE, false),
            0x78 => self.set_flag(INTERRUPT_DISABLE, true),
            0xD8 => self.set_flag(DECIMAL_MODE, false),
            0xF8 => self.set_flag(DECIMAL_MODE, true),
            0xB8 => self.set_flag(OVERFLOW, false),
            _ => {
                return false;
            },
        }
        true
    }

    /// Handles `code` if it is a jump, a call or a return.
    fn execute_jump_or_return(&mut self, code: u8) -> (handled: bool)
        ensures
            handled == old(self)@.jump_or_return(code) is Some,
            final(self)@ == if handled {
                old(self)@.jump_or_return(code)->0
            } else {
                old(self)@
            },
    {
        match code {
            0x4C => self.jmp_absolute(),
            0x6C => self.jmp_indirect(),
            0x20 => self.jsr(),
            0x60 => self.rts(),
            0x40 => self.rti(),
            _ => {
                return false;
            },
        }
        true
    }

    /// Performs the instruction with opcode `code`, with `pc` already past
    /// the opcode byte. `mode` is the addressing mode of its table entry.
    pub fn execute(&mut self, code: u8, mode: &AddressingMode)
        requires
            resolves_operand(code) ==> *mode != AddressingMode::NoneAddressing,
        ensures
            final(self)@ == old(self)@.execute(code, *mode),
    {
        let _handled = self.execute_load_or_store(code, mode) || self.execute_arithmetic_or_logic(
            code,
            mode,
        ) || self.execute_increment_or_decrement(code, mode) || self.execute_shift_or_rotate(
            code,
            mode,
        ) || self.execute_transfer_or_stack(code) || self.execute_branch_or_flag(code)
            || self.execute_jump_or_return(code);
    }

    /// Executes one instruction.
    pub fn step(&mut self) -> (outcome: Outcome)
        ensures
            (final(self)@, outcome) == old(self)@.step(),
    {
        let opcode = self.mem_read(self.pc);
        self.pc = self.pc.wrapping_add(1);
        let pc_state = self.pc;
        let instruction = match lookup(opcode) {
            Some(instruction) => instruction,
            None => {
                return Outcome::UnknownOpcode(opcode);
            },
        };
        proof {
            lemma_table_lengths(opcode);
            lemma_table_modes(opcode);
        }
        if opcode == 0x00 {
            return Outcome::Break;
        }
        self.execute(opcode, &instruction.mode);
        if pc_state == self.pc {
            self.pc = self.pc.wrapping_add((instruction.len - 1) as u16);
        }
        Outcome::Running
    }

    /// Runs until `BRK`, an undocumented opcode, or `STEP_LIMIT` instructions.
    pub fn run(&mut self) -> (outcome: Outcome)
        ensures
            (final(self)@, outcome) == old(self)@.run(STEP_LIMIT as nat),
    {
        let idle = |cpu: &mut CPU|
            ensures
                final(cpu)@ == old(cpu)@,
            {};
        let outcome = self.run_with_callback(idle);
        proof {
            assert(runs_to(unchanged(), old(self)@, STEP_LIMIT as nat, self@, outcome));
            lemma_quiet_run(old(self)@, STEP_LIMIT as nat, self@, outcome);
        }
        outcome
    }

    /// Runs as `run` does and hands the processor to `callback` after each
    /// completed instruction. The callback may change the processor.
    pub fn run_with_callback<F>(&mut self, callback: F) -> (outcome: Outcome) where
        F: FnMut(&mut CPU),

        requires
            forall|cpu: &mut CPU| call_requires(callback, (cpu,)),
        ensures
            forall|handed: spec_fn(State, State) -> bool|
                (forall|cpu: &mut CPU|
                    call_ensures(callback, (cpu,), ()) ==> handed(cpu@, final(cpu)@))
                    ==> #[trigger] runs_to(
                    handed,
                    old(self)@,
                    STEP_LIMIT as nat,
                    final(self)@,
                    outcome,
                ),
    {
        self.run_with_budget(STEP_LIMIT, callback)
    }

    /// Runs at most `budget` instructions, stopping early at `BRK` or at an
    /// undocumented opcode, and hands the processor to `callback` after each
    /// completed instruction. `Running` comes back when the budget is spent.
    ///
    /// The callback is called once after each instruction that completes,
    /// and not after a `BRK` or an undocumented opcode; each step starts
    /// from the state that the callback before it left. So for every
    /// relation `handed` that holds between the states in which the callback
    /// takes and leaves the processor, the run is one of `runs_to`.
    #[verifier::loop_isolation(false)]
    pub fn run_with_budget<F>(&mut self, budget: u64, mut callback: F) -> (outcome: Outcome) where
        F: FnMut(&mut CPU),

        requires
            forall|cpu: &mut CPU| call_requires(callback, (cpu,)),
        ensures
            forall|handed: spec_fn(State, State) -> bool|
                (forall|cpu: &mut CPU|
                    call_ensures(callback, (cpu,), ()) ==> handed(cpu@, final(cpu)@))
                    ==> #[trigger] runs_to(
                    handed,
                    old(self)@,
                    budget as nat,
                    final(self)@,
                    outcome,
                ),
    {
        let ghost given = callback;
        let mut remaining = budget;
        while remaining > 0
            invariant
                callback == given,
                forall|handed: spec_fn(State, State) -> bool, end: State, outcome: Outcome|
                    (forall|cpu: &mut CPU|
                        call_ensures(given, (cpu,), ()) ==> handed(cpu@, final(cpu)@)) && runs_to(
                        handed,
                        self@,
                        remaining as nat,
                        end,
                        outcome,
                    ) ==> #[trigger] runs_to(handed, old(self)@, budget as nat, end, outcome),
            decreases remaining,
        {
            let ghost before = self@;
            match self.step() {
                Outcome::Running => {},
                Outcome::Break => {
                    return Outcome::Break;
                },
                Outcome::UnknownOpcode(opcode) => {
                    return Outcome::UnknownOpcode(opcode);
                },
            }
            let ghost stepped = self@;
            callback(self);
            remaining -= 1;
            proof {
                assert forall|handed: spec_fn(State, State) -> bool, end: State, outcome: Outcome|
                    (forall|cpu: &mut CPU|
                        call_ensures(given, (cpu,), ()) ==> handed(cpu@, final(cpu)@)) && runs_to(
                        handed,
                        self@,
                        remaining as nat,
                        end,
                        outcome,
                    ) implies #[trigger] runs_to(handed, old(self)@, budget as nat, end, outcome) by {
                    lemma_run_extends(
                        handed,
                        before,
                        self@,
                        (remaining + 1) as nat,
                        end,
                        outcome,
                    );
                }
            }
        }
        Outcome::Running
    }
}

/// A run of at most `budget` instructions from `start` may end in state
/// `end` with `outcome`, when after each instruction that completes the
/// processor is handed to a callback that takes and leaves it in states
/// related by `handed`. The callback is not called after `BRK` or after an
/// undocumented opcode, nor once the budget is spent.
pub open spec fn runs_to(
    handed: spec_fn(State, State) -> bool,
    start: State,
    budget: nat,
    end: State,
    outcome: Outcome,
) -> bool
    decreases budget,
{
    if budget == 0 {
        end == start && outcome == Outcome::Running
    } else if start.step().1 != Outcome::Running {
        (end, outcome) == start.step()
    } else {
        exists|patched: State|
            #[trigger] handed(start.step().0, patched) && runs_to(
                handed,
                patched,
                (budget - 1) as nat,
                end,
                outcome,
            )
    }
}

/// A run that is handed over after its first step goes on as a run from
/// the state that the callback left.
pub proof fn lemma_run_extends(
    handed: spec_fn(State, State) -> bool,
    start: State,
    patched: State,
    budget: nat,
    end: State,
    outcome: Outcome,
)
    requires
        budget > 0,
        start.step().1 == Outcome::Running,
        handed(start.step().0, patched),
        runs_to(handed, patched, (budget - 1) as nat, end, outcome),
    ensures
        runs_to(handed, start, budget, end, outcome),
{
}

/// The relation of a callback that leaves the processor as it finds it.
pub open spec fn unchanged() -> spec_fn(State, State) -> bool {
    |before: State, after: State| after == before
}

/// With a callback that leaves the processor as it finds it, a run ends
/// where the model's run of as many steps ends.
pub proof fn lemma_quiet_run(start: State, budget: nat, end: State, outcome: Outcome)
    requires
        runs_to(unchanged(), start, budget, end, outcome),
    ensures
        (end, outcome) == start.run(budget),
    decreases budget,
{
    if budget > 0 && start.step().1 == Outcome::Running {
        let patched = choose|patched: State|
            #[trigger] unchanged()(start.step().0, patched) && runs_to(
                unchanged(),
                patched,
                (budget - 1) as nat,
                end,
                outcome,
            );
        lemma_quiet_run(patched, (budget - 1) as nat, end, outcome);
    }
}

/// A run with budget left is one step, and the rest of the run where that
/// step left the machine running.
pub proof fn lemma_run_unfolds(state: State, budget: nat)
    requires
        budget > 0,
    ensures
        state.run(budget) == if state.step().1 == Outcome::Running {
            state.step().0.run((budget - 1) as nat)
        } else {
            state.step()
        },
{
}

/// Joining two bytes with a shift and an `or` gives the little-endian word.
pub proof fn lemma_word_of_bytes(lo: u16, hi: u16)
    by (bit_vector)
    requires
        lo < 256,
        hi < 256,
    ensures
        (hi << 8) | lo == lo + 256 * hi,
{
}

/// A shift and a mask split a word into its high and low bytes.
pub proof fn lemma_bytes_of_word(data: u16)
    by (bit_vector)
    ensures
        (data & 0xFF) as u8 == (data % 256) as u8,
        (data >> 8) as u8 == (data / 256) as u8,
{
}

/// The tests of a byte's end bits, as arithmetic.
proof fn lemma_end_bits(value: u8)
    by (bit_vector)
    ensures
        (value & 0x80 != 0) == (value >= 0x80),
        (value & 0x01 != 0) == (value % 2 == 1),
{
}

/// A left shift of a byte doubles it and drops bit 8; bit 0 is then free.
proof fn lemma_shift_left(value: u8)
    by (bit_vector)
    ensures
        value << 1 == (value * 2) % 256,
        (value << 1) | 1 == (value << 1) + 1,
{
}

/// A right shift of a byte halves it; bit 7 is then free.
proof fn lemma_shift_right(value: u8)
    by (bit_vector)
    ensures
        value >> 1 == value / 2,
        (value >> 1) | 0x80 == value / 2 + 128,
{
}

} // verus!
