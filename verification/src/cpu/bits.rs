//! Facts that tie the interpreter's bit operations to arithmetic.

use vstd::prelude::*;
use crate::cpu::arith::signed;

verus! {

/// Shifting by one bit is doubling or halving; the bits that leave are the
/// top and the bottom one; rotating in a carry adds it at the free end.
pub proof fn lemma_shift(value: u8)
    ensures
        value << 1 == (value * 2) % 0x100,
        (value << 1) | 1 == (value * 2 + 1) % 0x100,
        value >> 1 == value / 2,
        (value >> 1) | 0x80 == value / 2 + 128,
        (value & 0x80 != 0) == (value >= 128),
        (value & 0x01 != 0) == (value % 2 == 1),
{
    assert(value << 1 == (value * 2) % 0x100) by (bit_vector);
    assert((value << 1) | 1 == (value * 2 + 1) % 0x100) by (bit_vector);
    assert(value >> 1 == value / 2) by (bit_vector);
    assert((value >> 1) | 0x80 == value / 2 + 128) by (bit_vector);
    assert((value & 0x80 != 0) == (value >= 128)) by (bit_vector);
    assert((value & 0x01 != 0) == (value % 2 == 1)) by (bit_vector);
}

/// The bitwise complement of a byte is its distance from 255.
pub proof fn lemma_complement(value: u8)
    ensures
        !value == 0xFF - value,
{
    assert(!value == 0xFF - value) by (bit_vector);
}

/// The sign-bit test for overflow agrees with the arithmetic definition:
/// adding two bytes and a carry overflows exactly when the operands have
/// the same sign and the result has the other.
pub proof fn lemma_signed_overflow(a: u8, value: u8, carry: u8)
    requires
        carry <= 1,
    ensures
        ({
            let result = ((a + value + carry) % 0x100) as u8;
            let total = signed(a) + signed(value) + carry;
            ((a ^ result) & (value ^ result) & 0x80 != 0) == (total < -128 || total > 127)
        }),
{
    let result = ((a + value + carry) % 0x100) as u8;
    assert(((a ^ result) & (value ^ result) & 0x80 != 0) == ((a >= 128) == (value >= 128) && (a
        >= 128) != (result >= 128))) by (bit_vector);
}

} // verus!
