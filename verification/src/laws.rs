//! What holds of the machine as a whole: laws that relate several
//! instructions, or an instruction to arithmetic, each proved from the model.

use vstd::prelude::*;
use crate::bus::{in_ram, Bus, BusState, PRG_BANK_SIZE, PRG_ROM, RAM_SIZE};
use crate::cpu::{lemma_run_unfolds, AddressingMode, Memory, Outcome};
use crate::opcodes::{
    instruction_for,
    is_branch,
    is_jump_or_return,
    lemma_table_lengths,
    lemma_table_modes,
};
use crate::state::{complement, displaced, signed, State};
use crate::status_flags::{
    canonical,
    has_flag,
    lemma_with_flag_reads_back,
    lemma_zero_and_negative,
    with_flag,
    with_zero_and_negative,
    BREAK,
    BREAK2,
    CARRY,
    DECIMAL_MODE,
    INTERRUPT_DISABLE,
    NEGATIVE,
    OVERFLOW,
    ZERO,
};

verus! {

/// The address `count` bytes after `pc`, wrapping in 16 bits.
pub open spec fn advanced(pc: u16, count: int) -> u16 {
    ((pc + count) % 0x10000) as u16
}

/// An instruction that is neither a branch, a jump, a call nor a return
/// leaves `pc` exactly as many bytes after its opcode as its table entry is
/// long. A branch ends either behind its two bytes or at its target.
pub proof fn lemma_step_consumes_length(state: State)
    requires
        state.wf(),
        instruction_for(state.read(state.pc)) is Some,
    ensures
        ({
            let code = state.read(state.pc);
            let len = instruction_for(code)->0.len;
            let after = state.step().0.pc;
            &&& !is_branch(code) && !is_jump_or_return(code) ==> after == advanced(
                state.pc,
                len as int,
            )
            &&& is_branch(code) ==> after == advanced(state.pc, len as int) || after == displaced(
                advanced(state.pc, len as int),
                state.read(advanced(state.pc, 1)),
            )
        }),
{
    let code = state.read(state.pc);
    let mode = instruction_for(code)->0.mode;
    let fetched = state.fetched();
    lemma_table_lengths(code);
    lemma_table_modes(code);
    lemma_jump_or_return_frame(fetched, code);
    lemma_load_or_store_frame(fetched, code, mode);
    lemma_arithmetic_or_logic_frame(fetched, code, mode);
    lemma_increment_or_decrement_frame(fetched, code, mode);
    lemma_shift_or_rotate_frame(fetched, code, mode);
    lemma_transfer_or_stack_frame(fetched, code);
    lemma_branch_or_flag_frame(fetched, code);
}

/// Z and N after the instructions that write a register: Z tells whether the
/// register holds zero, N whether its bit 7 is set.
pub proof fn lemma_register_results_set_zero_and_negative(state: State, mode: AddressingMode)
    ensures
        describes(state.lda(mode).status, state.lda(mode).acc),
        describes(state.ldx(mode).status, state.ldx(mode).index_x),
        describes(state.ldy(mode).status, state.ldy(mode).index_y),
        describes(state.tax().status, state.tax().index_x),
        describes(state.tay().status, state.tay().index_y),
        describes(state.txa().status, state.txa().acc),
        describes(state.tya().status, state.tya().acc),
        describes(state.tsx().status, state.tsx().index_x),
        describes(state.inx().status, state.inx().index_x),
        describes(state.iny().status, state.iny().index_y),
        describes(state.dex().status, state.dex().index_x),
        describes(state.dey().status, state.dey().index_y),
        describes(state.adc(mode).status, state.adc(mode).acc),
        describes(state.sbc(mode).status, state.sbc(mode).acc),
        describes(state.and(mode).status, state.and(mode).acc),
        describes(state.eor(mode).status, state.eor(mode).acc),
        describes(state.ora(mode).status, state.ora(mode).acc),
        describes(state.pla().status, state.pla().acc),
        describes(state.asl_accumulator().status, state.asl_accumulator().acc),
        describes(state.lsr_accumulator().status, state.lsr_accumulator().acc),
        describes(state.rol_accumulator().status, state.rol_accumulator().acc),
        describes(state.ror_accumulator().status, state.ror_accumulator().acc),
{
    assert forall|status: u8, value: u8|
        describes(#[trigger] with_zero_and_negative(status, value), value) by {
        lemma_zero_and_negative(status, value);
    }
}

/// Z and N after the instructions whose result goes to memory or nowhere:
/// they describe the byte left in the cell, and for a comparison the low
/// byte of the difference.
pub proof fn lemma_memory_results_set_zero_and_negative(
    state: State,
    mode: AddressingMode,
    reg_value: u8,
)
    requires
        state.wf(),
    ensures
        describes(state.inc(mode).status, state.inc(mode).read(state.operand_address(mode))),
        describes(state.dec(mode).status, state.dec(mode).read(state.operand_address(mode))),
        describes(state.asl(mode).status, state.asl(mode).read(state.operand_address(mode))),
        describes(state.lsr(mode).status, state.lsr(mode).read(state.operand_address(mode))),
        describes(state.rol(mode).status, state.rol(mode).read(state.operand_address(mode))),
        describes(state.ror(mode).status, state.ror(mode).read(state.operand_address(mode))),
        describes(
            state.compare(mode, reg_value).status,
            reg_value.wrapping_sub(state.operand(mode)),
        ),
{
    assert forall|status: u8, value: u8|
        describes(#[trigger] with_zero_and_negative(status, value), value) by {
        lemma_zero_and_negative(status, value);
    }
}

/// `status` has Z set exactly when `value` is zero and N exactly when bit 7
/// of `value` is set.
pub open spec fn describes(status: u8, value: u8) -> bool {
    &&& has_flag(status, ZERO) <==> value == 0
    &&& has_flag(status, NEGATIVE) <==> value & 0x80 != 0
}

/// Whether `a + b + carry`, read as signed bytes, leaves the range of a signed byte.
pub open spec fn signed_overflow(a: u8, b: u8, carry: int) -> bool {
    let sum = signed(a) + signed(b) + carry;
    sum < -128 || sum > 127
}

/// Addition with carry is addition: `A` receives `A + M + C` modulo 256, C
/// the carry out of bit 7, V the signed overflow, Z and N describe the new
/// `A`. Nothing else changes; the D flag has no influence.
pub proof fn lemma_add_with_carry_adds(state: State, value: u8)
    ensures
        ({
            let sum = state.acc + value + state.carry_in();
            let after = state.add_with_carry(value);
            &&& after.acc == sum % 256
            &&& after.get_flag(CARRY) <==> sum >= 256
            &&& after.get_flag(OVERFLOW) <==> signed_overflow(state.acc, value, state.carry_in())
            &&& describes(after.status, after.acc)
            &&& after.index_x == state.index_x
            &&& after.index_y == state.index_y
            &&& after.sp == state.sp
            &&& after.pc == state.pc
            &&& after.memory == state.memory
            &&& forall|flag: u8|
                #![trigger after.get_flag(flag)]
                flag == INTERRUPT_DISABLE || flag == DECIMAL_MODE || flag == BREAK || flag == BREAK2
                    ==> after.get_flag(
                    flag,
                ) == state.get_flag(flag)
        }),
{
    let sum = state.acc + value + state.carry_in();
    let result = (sum % 256) as u8;
    let overflow = (state.acc ^ result) & (value ^ result) & 0x80 != 0;
    let after = state.add_with_carry(value);
    let with_carry = with_flag(state.status, CARRY, sum > 0xFF);
    let with_overflow = with_flag(with_carry, OVERFLOW, overflow);
    lemma_sign_bits(state.acc, value, result);
    lemma_zero_and_negative(with_overflow, result);
    lemma_with_flag_reads_back(state.status, CARRY, sum > 0xFF, OVERFLOW);
    lemma_with_flag_reads_back(with_carry, OVERFLOW, overflow, CARRY);
    assert(has_flag(with_zero_and_negative(with_overflow, result), CARRY) == has_flag(
        with_overflow,
        CARRY,
    ));
    assert(has_flag(with_zero_and_negative(with_overflow, result), OVERFLOW) == has_flag(
        with_overflow,
        OVERFLOW,
    ));
    assert forall|flag: u8|
        flag == INTERRUPT_DISABLE || flag == DECIMAL_MODE || flag == BREAK || flag == BREAK2 implies #[trigger] after.get_flag(
        flag,
    ) == state.get_flag(flag) by {
        lemma_with_flag_reads_back(state.status, CARRY, sum > 0xFF, flag);
        lemma_with_flag_reads_back(with_carry, OVERFLOW, overflow, flag);
        assert(has_flag(with_zero_and_negative(with_overflow, result), flag) == has_flag(
            with_overflow,
            flag,
        ));
    }
}

/// The overflow test on sign bits: both operands have one sign and the
/// result has the other.
proof fn lemma_sign_bits(a: u8, b: u8, result: u8)
    by (bit_vector)
    ensures
        ((a ^ result) & (b ^ result) & 0x80 != 0) == ((a >= 0x80) == (b >= 0x80) && (a >= 0x80) != (
        result >= 0x80)),
{
}

/// `ADC` with an immediate operand adds the byte at `pc`.
pub proof fn lemma_adc_immediate_adds(state: State)
    ensures
        state.adc(AddressingMode::Immediate) == state.add_with_carry(state.read(state.pc)),
        state.sbc(AddressingMode::Immediate) == state.add_with_carry(
            complement(state.read(state.pc)),
        ),
{
}

/// The program `LDA #a; ADC #b`, run for its two instructions from any
/// state, leaves `a + b + C` modulo 256 in `A`, the carry out of bit 7 in C
/// and the signed overflow in V, with `pc` behind its four bytes.
pub proof fn lemma_load_then_add_program(state: State, a: u8, b: u8)
    requires
        state.wf(),
        state.read(state.pc) == 0xA9,
        state.read(advanced(state.pc, 1)) == a,
        state.read(advanced(state.pc, 2)) == 0x69,
        state.read(advanced(state.pc, 3)) == b,
    ensures
        ({
            let (after, outcome) = state.run(2);
            let sum = a + b + state.carry_in();
            &&& outcome == Outcome::Running
            &&& after.acc == sum % 256
            &&& after.get_flag(CARRY) <==> sum >= 256
            &&& after.get_flag(OVERFLOW) <==> signed_overflow(a, b, state.carry_in())
            &&& describes(after.status, after.acc)
            &&& after.pc == advanced(state.pc, 4)
            &&& after.memory == state.memory
        }),
{
    reveal(instruction_for);
    let loaded = state.fetched().lda(AddressingMode::Immediate);
    let first = State { pc: advanced(state.pc, 2), ..loaded };
    assert(state.step() == (first, Outcome::Running));
    assert(first.acc == a);
    lemma_zero_and_negative(state.status, a);
    assert(first.carry_in() == state.carry_in());
    let added = first.fetched().adc(AddressingMode::Immediate);
    let second = State { pc: advanced(state.pc, 4), ..added };
    assert(first.step() == (second, Outcome::Running));
    lemma_add_with_carry_adds(first.fetched(), b);
    lemma_run_unfolds(state, 2);
    lemma_run_unfolds(first, 1);
    assert(second.run(0) == (second, Outcome::Running));
}

/// Subtraction with borrow is subtraction: `A` receives `A - M - (1 - C)`
/// modulo 256 and C is set exactly when no borrow was needed.
pub proof fn lemma_subtract_with_borrow_subtracts(state: State, value: u8)
    ensures
        ({
            let difference = state.acc - value - (1 - state.carry_in());
            let after = state.add_with_carry(complement(value));
            &&& after.acc == difference % 256
            &&& after.get_flag(CARRY) <==> difference >= 0
        }),
{
    lemma_add_with_carry_adds(state, complement(value));
}

/// Adding a byte with C clear and subtracting it again with C set gives the
/// accumulator back.
pub proof fn lemma_add_then_subtract_round_trip(state: State, value: u8)
    ensures
        state.set_flag(CARRY, false).add_with_carry(value).set_flag(CARRY, true).add_with_carry(
            complement(value),
        ).acc == state.acc,
{
    let cleared = state.set_flag(CARRY, false);
    lemma_with_flag_reads_back(state.status, CARRY, false, CARRY);
    lemma_add_with_carry_adds(cleared, value);
    let added = cleared.add_with_carry(value);
    let set = added.set_flag(CARRY, true);
    lemma_with_flag_reads_back(added.status, CARRY, true, CARRY);
    lemma_subtract_with_borrow_subtracts(set, value);
}

/// Work RAM is mirrored four times: a byte written through any address
/// below `0x2000` is read back through each address with the same low
/// eleven bits.
pub proof fn lemma_ram_mirrors(space: BusState, address: u16, value: u8, k: int)
    requires
        space.wf(),
        address < RAM_SIZE,
        0 <= k < 4,
    ensures
        Bus::writable(space, address),
        Bus::readable(Bus::poke(space, address, value), (address + k * RAM_SIZE) as u16),
        Bus::peek(Bus::poke(space, address, value), (address + k * RAM_SIZE) as u16) == value,
{
}

/// A write through one mirror of the work RAM is seen through every mirror,
/// whichever mirror was written.
pub proof fn lemma_ram_mirrors_both_ways(space: BusState, written: u16, read: u16, value: u8)
    requires
        space.wf(),
        in_ram(written),
        in_ram(read),
        written % 0x0800 == read % 0x0800,
    ensures
        Bus::peek(Bus::poke(space, written, value), read) == value,
{
}

/// A cartridge with a single 16 KiB bank shows it in both halves of the ROM window.
pub proof fn lemma_single_bank_mirrors(space: BusState, i: int)
    requires
        space.prg_rom.len() == PRG_BANK_SIZE,
        0 <= i < PRG_BANK_SIZE,
    ensures
        Bus::readable(space, (PRG_ROM + i) as u16),
        Bus::readable(space, (PRG_ROM + PRG_BANK_SIZE + i) as u16),
        Bus::peek(space, (PRG_ROM + i) as u16) == Bus::peek(
            space,
            (PRG_ROM + PRG_BANK_SIZE + i) as u16,
        ),
        Bus::peek(space, (PRG_ROM + i) as u16) == space.prg_rom[i],
{
}

/// No write changes what the ROM window shows.
pub proof fn lemma_rom_is_read_only(space: BusState, written: u16, read: u16, value: u8)
    requires
        space.wf(),
        Bus::writable(space, written),
        read >= PRG_ROM,
    ensures
        Bus::peek(Bus::poke(space, written, value), read) == Bus::peek(space, read),
{
}

/// The stack pointer counts pushes modulo 256, and pushes touch nothing but
/// the stack page and the stack pointer.
pub proof fn lemma_pushes_wrap(state: State, values: Seq<u8>)
    ensures
        state.push_all(values).sp == (state.sp - values.len()) % 256,
        values.len() % 256 == 0 ==> state.push_all(values).sp == state.sp,
        state.push_all(values).acc == state.acc,
        state.push_all(values).index_x == state.index_x,
        state.push_all(values).index_y == state.index_y,
        state.push_all(values).status == state.status,
        state.push_all(values).pc == state.pc,
    decreases values.len(),
{
    if values.len() > 0 {
        lemma_pushes_wrap(state, values.drop_last());
    }
}

/// The stack pointer counts pops modulo 256: from `0xFD`, 255 pops end at
/// `0xFC` and 256 pops where they began. Pops change nothing else.
pub proof fn lemma_pops_wrap(state: State, count: nat)
    ensures
        state.pop_times(count).sp == (state.sp + count) % 256,
        count % 256 == 0 ==> state.pop_times(count).sp == state.sp,
        state.pop_times(count) == (State { sp: state.pop_times(count).sp, ..state }),
    decreases count,
{
    if count > 0 {
        lemma_pops_wrap(state, (count - 1) as nat);
    }
}

/// A byte that was pushed is the byte that the next pop delivers, and the
/// pop restores the stack pointer.
pub proof fn lemma_pop_returns_pushed(state: State, value: u8)
    requires
        state.wf(),
    ensures
        state.stack_push(value).stack_pop().stack_top() == value,
        state.stack_push(value).stack_pop().sp == state.sp,
{
}

/// A word that was pushed is the word that `stack_pop_u16` delivers.
pub proof fn lemma_pop_returns_pushed_word(state: State, value: u16)
    requires
        state.wf(),
    ensures
        state.stack_push_u16(value).stack_pop_u16().stack_top_u16() == value,
        state.stack_push_u16(value).stack_pop_u16().sp == state.sp,
{
}

/// A subroutine call followed at once by a return continues behind the
/// three bytes of the call.
pub proof fn lemma_return_follows_call(state: State)
    requires
        state.wf(),
    ensures
        state.jsr().rts().pc == advanced(state.pc, 2),
        state.jsr().rts().sp == state.sp,
{
    lemma_pop_returns_pushed_word(state, state.pc.wrapping_add(1));
    let called = state.jsr();
    let pushed = state.stack_push_u16(state.pc.wrapping_add(1));
    assert(called.stack_pop_u16().stack_top_u16() == pushed.stack_pop_u16().stack_top_u16());
}

/// The processor's own copy of `P` always has U set and B clear: a reset
/// makes it so, and no instruction changes it.
pub proof fn lemma_status_stays_canonical(state: State)
    requires
        canonical(state.status),
    ensures
        canonical(state.reset().status),
        canonical(State::power_on().status),
        canonical(state.step().0.status),
{
    assert(canonical(0x04u8 | 0x20u8)) by (bit_vector);
    let code = state.read(state.pc);
    let fetched = state.fetched();
    if instruction_for(code) is Some && code != 0x00 {
        let mode = instruction_for(code)->0.mode;
        lemma_load_or_store_frame(fetched, code, mode);
        lemma_arithmetic_or_logic_frame(fetched, code, mode);
        lemma_increment_or_decrement_frame(fetched, code, mode);
        lemma_shift_or_rotate_frame(fetched, code, mode);
        lemma_transfer_or_stack_frame(fetched, code);
        lemma_branch_or_flag_frame(fetched, code);
        lemma_jump_or_return_frame(fetched, code);
    }
}

/// Setting or clearing one of C, Z, I, D, V, N leaves U and B alone, and so
/// does taking Z and N from a result.
proof fn lemma_flags_keep_canonical()
    ensures
        forall|status: u8, flag: u8, value: bool|
            flag == CARRY || flag == ZERO || flag == INTERRUPT_DISABLE || flag == DECIMAL_MODE
                || flag == OVERFLOW || flag == NEGATIVE ==> canonical(
                #[trigger] with_flag(status, flag, value),
            ) == canonical(status),
        forall|status: u8, value: u8|
            canonical(#[trigger] with_zero_and_negative(status, value)) == canonical(status),
        forall|status: u8|
            #![trigger with_flag(with_flag(status, BREAK, false), BREAK2, true)]
            canonical(with_flag(with_flag(status, BREAK, false), BREAK2, true)),
{
    assert forall|status: u8, flag: u8, value: bool|
        flag == CARRY || flag == ZERO || flag == INTERRUPT_DISABLE || flag == DECIMAL_MODE || flag
            == OVERFLOW || flag == NEGATIVE implies canonical(
        #[trigger] with_flag(status, flag, value),
    ) == canonical(status) by {
        lemma_with_flag_reads_back(status, flag, value, BREAK);
        lemma_with_flag_reads_back(status, flag, value, BREAK2);
    }
    assert forall|status: u8|
        #![trigger with_flag(with_flag(status, BREAK, false), BREAK2, true)]
        canonical(with_flag(with_flag(status, BREAK, false), BREAK2, true)) by {
        let cleared = with_flag(status, BREAK, false);
        lemma_with_flag_reads_back(status, BREAK, false, BREAK2);
        lemma_with_flag_reads_back(cleared, BREAK2, true, BREAK);
    }
}

/// Loads and stores leave `pc` alone and keep `P` canonical.
proof fn lemma_load_or_store_frame(state: State, code: u8, mode: AddressingMode)
    ensures
        state.load_or_store(code, mode) matches Some(next) ==> next.pc == state.pc && (canonical(
            state.status,
        ) ==> canonical(next.status)),
{
    lemma_flags_keep_canonical();
}

/// Arithmetic and logic leave `pc` alone and keep `P` canonical.
proof fn lemma_arithmetic_or_logic_frame(state: State, code: u8, mode: AddressingMode)
    ensures
        state.arithmetic_or_logic(code, mode) matches Some(next) ==> next.pc == state.pc && (
        canonical(state.status) ==> canonical(next.status)),
{
    lemma_flags_keep_canonical();
}

/// Increments and decrements leave `pc` alone and keep `P` canonical.
proof fn lemma_increment_or_decrement_frame(state: State, code: u8, mode: AddressingMode)
    ensures
        state.increment_or_decrement(code, mode) matches Some(next) ==> next.pc == state.pc && (
        canonical(state.status) ==> canonical(next.status)),
{
    lemma_flags_keep_canonical();
}

/// Shifts and rotates leave `pc` alone and keep `P` canonical.
proof fn lemma_shift_or_rotate_frame(state: State, code: u8, mode: AddressingMode)
    ensures
        state.shift_or_rotate(code, mode) matches Some(next) ==> next.pc == state.pc && (
        canonical(state.status) ==> canonical(next.status)),
{
    lemma_flags_keep_canonical();
}

/// Transfers and stack instructions leave `pc` alone and keep `P` canonical.
proof fn lemma_transfer_or_stack_frame(state: State, code: u8)
    ensures
        state.transfer_or_stack(code) matches Some(next) ==> next.pc == state.pc && (canonical(
            state.status,
        ) ==> canonical(next.status)),
{
    lemma_flags_keep_canonical();
}

/// Flag instructions leave `pc` alone; a branch leaves it alone or moves it
/// to its target. Both keep `P` canonical.
proof fn lemma_branch_or_flag_frame(state: State, code: u8)
    ensures
        state.branch_or_flag(code) matches Some(next) ==> {
            &&& canonical(state.status) ==> canonical(next.status)
            &&& !is_branch(code) ==> next.pc == state.pc
            &&& is_branch(code) ==> next.pc == state.pc || next.pc == displaced(
                state.pc.wrapping_add(1),
                state.read(state.pc),
            )
        },
{
    lemma_flags_keep_canonical();
}

/// Jumps, calls and returns keep `P` canonical.
proof fn lemma_jump_or_return_frame(state: State, code: u8)
    ensures
        state.jump_or_return(code) matches Some(next) ==> (canonical(state.status) ==> canonical(
            next.status,
        )),
        state.jump_or_return(code) is Some <==> is_jump_or_return(code),
{
    lemma_flags_keep_canonical();
}

} // verus!
