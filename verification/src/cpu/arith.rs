//! Byte and address arithmetic as the processor does it: everything wraps.

use vstd::prelude::*;

verus! {

/// `x` reduced to a byte.
#[verifier::opaque]
pub open spec fn wrap8(x: int) -> u8 {
    (x % 0x100) as u8
}

/// `x` reduced to a 16-bit address.
#[verifier::opaque]
pub open spec fn wrap16(x: int) -> u16 {
    (x % 0x10000) as u16
}

/// The 16-bit word with the given high and low bytes.
#[verifier::opaque]
pub open spec fn word(hi: u8, lo: u8) -> u16 {
    (hi * 0x100 + lo) as u16
}

/// The high byte of a word.
#[verifier::opaque]
pub open spec fn high(value: u16) -> u8 {
    (value / 0x100) as u8
}

/// The low byte of a word.
#[verifier::opaque]
pub open spec fn low(value: u16) -> u8 {
    (value % 0x100) as u8
}

/// Whether two addresses lie in different 256-byte pages.
#[verifier::opaque]
pub open spec fn pages_differ(a: u16, b: u16) -> bool {
    a / 0x100 != b / 0x100
}

/// The address after `ptr` inside `ptr`'s own page.
#[verifier::opaque]
pub open spec fn next_in_page(ptr: u16) -> u16 {
    ((ptr / 0x100) * 0x100 + (ptr + 1) % 0x100) as u16
}

/// The byte as a two's-complement number.
pub open spec fn signed(value: u8) -> int {
    if value < 128 {
        value as int
    } else {
        value - 256
    }
}

pub fn byte_add(a: u8, b: u8) -> (r: u8)
    ensures
        r == wrap8(a + b),
{
    reveal(wrap8);
    a.wrapping_add(b)
}

pub fn byte_sub(a: u8, b: u8) -> (r: u8)
    ensures
        r == wrap8(a - b),
{
    reveal(wrap8);
    a.wrapping_sub(b)
}

/// The address `index` bytes after `base`.
pub fn addr_add(base: u16, index: u8) -> (r: u16)
    ensures
        r == wrap16(base + index),
{
    reveal(wrap16);
    base.wrapping_add(index as u16)
}

/// The address `displacement`, read as a signed byte, away from `base`.
pub fn addr_offset(base: u16, displacement: u8) -> (r: u16)
    ensures
        r == wrap16(base + signed(displacement)),
{
    reveal(wrap16);
    if displacement < 128 {
        base.wrapping_add(displacement as u16)
    } else {
        base.wrapping_sub(256 - displacement as u16)
    }
}

pub fn make_word(hi: u8, lo: u8) -> (r: u16)
    ensures
        r == word(hi, lo),
{
    reveal(word);
    (hi as u16) * 0x100 + (lo as u16)
}

pub fn high_byte(value: u16) -> (r: u8)
    ensures
        r == high(value),
{
    reveal(high);
    (value / 0x100) as u8
}

pub fn low_byte(value: u16) -> (r: u8)
    ensures
        r == low(value),
{
    reveal(low);
    (value % 0x100) as u8
}

pub fn crosses_page(a: u16, b: u16) -> (r: bool)
    ensures
        r == pages_differ(a, b),
{
    reveal(pages_differ);
    a / 0x100 != b / 0x100
}

/// The address after `ptr` that the indirect jump fetches from: the
/// processor does not carry into the pointer's high byte.
pub fn page_wrapped_next(ptr: u16) -> (r: u16)
    ensures
        r == next_in_page(ptr),
{
    reveal(next_in_page);
    (ptr / 0x100) * 0x100 + (ptr % 0x100 + 1) % 0x100
}

/// A word is its two halves put together.
pub proof fn lemma_word_halves(value: u16)
    ensures
        word(high(value), low(value)) == value,
{
    reveal(word);
    reveal(high);
    reveal(low);
}

/// The halves of a word put together are the bytes it was made of.
pub proof fn lemma_halves_of_word(hi: u8, lo: u8)
    ensures
        high(word(hi, lo)) == hi,
        low(word(hi, lo)) == lo,
{
    reveal(word);
    reveal(high);
    reveal(low);
}

} // verus!
