//! The bits of the processor status register `P`.

use vstd::prelude::*;

verus! {

/// C: an unsigned result left the byte range, or a shifted-out bit.
pub const CARRY: u8 = 0b0000_0001;

/// Z: the last result byte was zero.
pub const ZERO: u8 = 0b0000_0010;

/// I: maskable interrupts are disabled.
pub const INTERRUPT_DISABLE: u8 = 0b0000_0100;

/// D: decimal mode. A settable bit only; arithmetic ignores it.
pub const DECIMAL_MODE: u8 = 0b0000_1000;

/// B: set only in the copy of `P` that `PHP` pushes.
pub const BREAK: u8 = 0b0001_0000;

/// U: the unused bit, always set in the processor's own copy of `P`.
pub const BREAK2: u8 = 0b0010_0000;

/// V: a signed result left the range -128..=127.
pub const OVERFLOW: u8 = 0b0100_0000;

/// N: bit 7 of the last result byte.
pub const NEGATIVE: u8 = 0b1000_0000;

/// Whether any bit of `flag` is set in `status`.
pub open spec fn has_flag(status: u8, flag: u8) -> bool {
    status & flag != 0
}

/// `status` with the bits of `flag` set when `value` holds and cleared when it does not.
pub open spec fn with_flag(status: u8, flag: u8, value: bool) -> u8 {
    if value {
        status | flag
    } else {
        status & !flag
    }
}

/// `status` with Z and N taken from the result byte `value`.
pub open spec fn with_zero_and_negative(status: u8, value: u8) -> u8 {
    with_flag(with_flag(status, ZERO, value == 0), NEGATIVE, value >= 0x80)
}

/// A status byte as the processor keeps it: U set, B clear.
pub open spec fn canonical(status: u8) -> bool {
    has_flag(status, BREAK2) && !has_flag(status, BREAK)
}

/// Setting or clearing a single flag bit is read back by `has_flag`, and
/// leaves every other single bit as it was.
pub proof fn lemma_with_flag_reads_back(status: u8, flag: u8, value: bool, other: u8)
    requires
        single_bit(flag),
        single_bit(other),
    ensures
        has_flag(with_flag(status, flag, value), flag) == value,
        other != flag ==> has_flag(with_flag(status, flag, value), other) == has_flag(status, other),
{
    assert(single_bit(flag) && single_bit(other) ==> has_flag(status | flag, flag) && !has_flag(
        status & !flag,
        flag,
    ) && (other != flag ==> has_flag(status | flag, other) == has_flag(status, other) && has_flag(
        status & !flag,
        other,
    ) == has_flag(status, other))) by (bit_vector);
}

/// Whether `flag` is one of the eight masks with exactly one bit set.
pub open spec fn single_bit(flag: u8) -> bool {
    flag == 0x01 || flag == 0x02 || flag == 0x04 || flag == 0x08 || flag == 0x10 || flag == 0x20
        || flag == 0x40 || flag == 0x80
}

/// After Z and N are taken from a result byte, Z is set exactly when the byte
/// is zero and N exactly when its bit 7 is set; the six other flags keep
/// their values.
pub proof fn lemma_zero_and_negative(status: u8, value: u8)
    ensures
        has_flag(with_zero_and_negative(status, value), ZERO) <==> value == 0,
        has_flag(with_zero_and_negative(status, value), NEGATIVE) <==> value & 0x80 != 0,
        forall|flag: u8|
            single_bit(flag) && flag != ZERO && flag != NEGATIVE ==> #[trigger] has_flag(
                with_zero_and_negative(status, value),
                flag,
            ) == has_flag(status, flag),
{
    let after_zero = with_flag(status, ZERO, value == 0);
    lemma_with_flag_reads_back(status, ZERO, value == 0, NEGATIVE);
    lemma_with_flag_reads_back(after_zero, NEGATIVE, value >= 0x80, ZERO);
    assert((value >= 0x80) <==> (value & 0x80 != 0)) by (bit_vector);
    assert forall|flag: u8|
        single_bit(flag) && flag != ZERO && flag != NEGATIVE implies #[trigger] has_flag(
        with_zero_and_negative(status, value),
        flag,
    ) == has_flag(status, flag) by {
        lemma_with_flag_reads_back(status, ZERO, value == 0, flag);
        lemma_with_flag_reads_back(after_zero, NEGATIVE, value >= 0x80, flag);
    }
}

} // verus!
