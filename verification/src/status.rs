//! The processor status register: one byte, one flag per bit.

use crate::semantics::{bit_tested, compared, wrap8};
use vstd::prelude::*;

verus! {

/// Bit 0: carry out of the last shift or comparison.
pub const FLAG_CARRY: u8 = 0b0000_0001;

/// Bit 1: the last result was zero.
pub const FLAG_ZERO: u8 = 0b0000_0010;

/// Bit 2: interrupts are masked.
pub const FLAG_INTERRUPT_DISABLE: u8 = 0b0000_0100;

/// Bit 3: decimal arithmetic is selected.
pub const FLAG_DECIMAL_MODE: u8 = 0b0000_1000;

/// Bit 4: software break.
pub const FLAG_BREAK: u8 = 0b0001_0000;

/// Bit 5: not connected.
pub const FLAG_UNUSED: u8 = 0b0010_0000;

/// Bit 6: signed overflow.
pub const FLAG_OVERFLOW: u8 = 0b0100_0000;

/// Bit 7: the last result had its top bit set.
pub const FLAG_NEGATIVE: u8 = 0b1000_0000;

/// Every bit of `mask` is set in `status`.
pub open spec fn has_flag(status: u8, mask: u8) -> bool {
    status & mask == mask
}

/// `status` with the bits of `mask` switched on, or off.
pub open spec fn put_flag(status: u8, mask: u8, on: bool) -> u8 {
    if on {
        status | mask
    } else {
        status & !mask
    }
}

/// Bit 7 of a byte, its sign when read as two's complement.
pub open spec fn bit7(v: u8) -> bool {
    v & 0x80 != 0
}

/// Bit 6 of a byte.
pub open spec fn bit6(v: u8) -> bool {
    v & 0x40 != 0
}

/// `status` after a register or memory cell received `v`: Zero tells whether
/// `v` is zero, Negative copies bit 7 of `v`, the other six bits stay.
pub open spec fn zero_negative(status: u8, v: u8) -> u8 {
    put_flag(put_flag(status, FLAG_ZERO, v == 0), FLAG_NEGATIVE, bit7(v))
}

/// Bit 7 of a byte is set exactly when the byte is 128 or more.
pub proof fn lemma_bit7_is_sign(v: u8)
    by (bit_vector)
    ensures
        bit7(v) <==> v >= 128,
{
}

/// A flag that was just put reads back as it was put.
pub proof fn lemma_put_then_has(status: u8, mask: u8, on: bool)
    by (bit_vector)
    requires
        mask != 0,
    ensures
        has_flag(put_flag(status, mask, on), mask) == on,
{
}

/// Putting one flag leaves every flag that shares no bit with it as it was.
pub proof fn lemma_put_keeps_others(status: u8, mask: u8, on: bool, other: u8)
    by (bit_vector)
    requires
        mask & other == 0,
    ensures
        has_flag(put_flag(status, mask, on), other) == has_flag(status, other),
{
}

/// What `zero_negative` leaves in the register: Zero is set exactly for a
/// zero value, Negative exactly for a value with bit 7 set, never both, and
/// the six other flags are untouched.
pub proof fn lemma_zero_negative(status: u8, v: u8)
    by (bit_vector)
    ensures
        has_flag(zero_negative(status, v), FLAG_ZERO) <==> v == 0,
        has_flag(zero_negative(status, v), FLAG_NEGATIVE) <==> v >= 128,
        !(has_flag(zero_negative(status, v), FLAG_ZERO) && has_flag(
            zero_negative(status, v),
            FLAG_NEGATIVE,
        )),
        zero_negative(status, v) & 0x7D == status & 0x7D,
{
}

/// `zero_negative` touches Zero and Negative only.
pub proof fn lemma_zero_negative_keeps(status: u8, v: u8)
    by (bit_vector)
    ensures
        has_flag(zero_negative(status, v), FLAG_CARRY) == has_flag(status, FLAG_CARRY),
        has_flag(zero_negative(status, v), FLAG_INTERRUPT_DISABLE) == has_flag(
            status,
            FLAG_INTERRUPT_DISABLE,
        ),
        has_flag(zero_negative(status, v), FLAG_DECIMAL_MODE) == has_flag(
            status,
            FLAG_DECIMAL_MODE,
        ),
        has_flag(zero_negative(status, v), FLAG_BREAK) == has_flag(status, FLAG_BREAK),
        has_flag(zero_negative(status, v), FLAG_UNUSED) == has_flag(status, FLAG_UNUSED),
        has_flag(zero_negative(status, v), FLAG_OVERFLOW) == has_flag(status, FLAG_OVERFLOW),
{
}

/// What a comparison leaves in the status register, for every register
/// value and every operand: Carry is set exactly where the register is at
/// least the operand, Zero exactly where the two are equal, and Negative is
/// bit 7 of their difference modulo 256.
pub proof fn lemma_compared(status: u8, register: u8, operand: u8)
    ensures
        has_flag(compared(status, register, operand), FLAG_CARRY) <==> register >= operand,
        has_flag(compared(status, register, operand), FLAG_ZERO) <==> register == operand,
        has_flag(compared(status, register, operand), FLAG_NEGATIVE) <==> wrap8(
            register - operand,
        ) >= 128,
{
    let carried = put_flag(status, FLAG_CARRY, register >= operand);
    let difference = wrap8(register - operand);
    lemma_put_then_has(status, FLAG_CARRY, register >= operand);
    lemma_zero_negative(carried, difference);
    lemma_zero_negative_keeps(carried, difference);
    assert(difference == 0 <==> register == operand);
}

/// What a shift to the left of `v` leaves in the status register when its
/// result is described in Zero and Negative: Carry is bit 7 of `v`.
pub proof fn lemma_shift_flags(status: u8, v: u8)
    ensures
        has_flag(zero_negative(put_flag(status, FLAG_CARRY, bit7(v)), wrap8(2 * v)), FLAG_CARRY)
            <==> v >= 128,
{
    let carried = put_flag(status, FLAG_CARRY, bit7(v));
    lemma_bit7_is_sign(v);
    lemma_put_then_has(status, FLAG_CARRY, bit7(v));
    lemma_zero_negative_keeps(carried, wrap8(2 * v));
}

/// What the bit test leaves in the status register: Overflow and Negative
/// are bits 6 and 7 of the operand, Zero tells whether operand and
/// accumulator share no bit, and the five other flags are untouched.
pub proof fn lemma_bit_tested(status: u8, a: u8, operand: u8)
    by (bit_vector)
    ensures
        has_flag(bit_tested(status, a, operand), FLAG_OVERFLOW) <==> bit6(operand),
        has_flag(bit_tested(status, a, operand), FLAG_NEGATIVE) <==> operand >= 128,
        has_flag(bit_tested(status, a, operand), FLAG_ZERO) <==> a & operand == 0,
        bit_tested(status, a, operand) & 0x3D == status & 0x3D,
{
}

} // verus!
