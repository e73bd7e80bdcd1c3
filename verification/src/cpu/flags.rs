//! The processor status register `P` as a packed byte.

use vstd::prelude::*;

verus! {

/// The status register right after reset: interrupts disabled, the unused
/// bit set.
pub const RESET_STATUS: u8 = 0x24;

/// The eight bits of the status register.
#[derive(Clone, Copy, Debug, PartialEq, Eq, Structural)]
pub enum StatusFlag {
    Carry,
    Zero,
    InterruptDisable,
    DecimalMode,
    BreakCommand,
    /// Bit 5, which reads as one.
    Undefined,
    Overflow,
    Negative,
}

impl StatusFlag {
    /// The flag's bit in the status byte.
    pub open spec fn bit(self) -> u8 {
        match self {
            StatusFlag::Carry => 0b0000_0001,
            StatusFlag::Zero => 0b0000_0010,
            StatusFlag::InterruptDisable => 0b0000_0100,
            StatusFlag::DecimalMode => 0b0000_1000,
            StatusFlag::BreakCommand => 0b0001_0000,
            StatusFlag::Undefined => 0b0010_0000,
            StatusFlag::Overflow => 0b0100_0000,
            StatusFlag::Negative => 0b1000_0000,
        }
    }

    /// The flag's bit in the status byte.
    pub fn mask(&self) -> (m: u8)
        ensures
            m == self.bit(),
    {
        match self {
            StatusFlag::Carry => 0b0000_0001,
            StatusFlag::Zero => 0b0000_0010,
            StatusFlag::InterruptDisable => 0b0000_0100,
            StatusFlag::DecimalMode => 0b0000_1000,
            StatusFlag::BreakCommand => 0b0001_0000,
            StatusFlag::Undefined => 0b0010_0000,
            StatusFlag::Overflow => 0b0100_0000,
            StatusFlag::Negative => 0b1000_0000,
        }
    }

    /// Every bit but the flag's.
    pub fn reverse(&self) -> (m: u8)
        ensures
            m == 0b1111_1111 ^ self.bit(),
    {
        0b1111_1111 ^ self.mask()
    }

    /// Whether the flag is set in `status`.
    pub fn among(&self, status: u8) -> (on: bool)
        ensures
            on == flag_set(status, *self),
    {
        status & self.mask() == self.mask()
    }

    /// Sets the flag in `status`.
    pub fn add(&self, status: &mut u8)
        ensures
            *final(status) == with_flag(*old(status), *self, true),
    {
        *status = *status | self.mask();
    }

    /// Clears the flag in `status`.
    pub fn remove(&self, status: &mut u8)
        ensures
            *final(status) == with_flag(*old(status), *self, false),
    {
        *status = *status & !self.mask();
    }

    /// Sets the flag in `status` when `on` holds, clears it otherwise.
    pub fn assign(&self, status: &mut u8, on: bool)
        ensures
            *final(status) == with_flag(*old(status), *self, on),
    {
        if on {
            self.add(status);
        } else {
            self.remove(status);
        }
    }

    /// Whether the flag is set in `status`.
    pub fn test(&self, status: u8) -> (on: bool)
        ensures
            on == flag_set(status, *self),
    {
        let m: u8 = self.mask();
        status & m == m
    }

    /// `status` with the flag set.
    pub fn or_get(&self, status: u8) -> (r: u8)
        ensures
            r == with_flag(status, *self, true),
    {
        status | self.mask()
    }

    /// The flag's bit as it stands in `status`, every other bit cleared.
    pub fn and_get(&self, status: u8) -> (r: u8)
        ensures
            r == status & self.bit(),
            r == (if flag_set(status, *self) {
                self.bit()
            } else {
                0
            }),
    {
        let m: u8 = self.mask();
        assert(m & status == status & m) by (bit_vector);
        proof {
            lemma_single_bit(status, *self);
        }
        status & m
    }
}

/// Whether `flag` is set in the status byte `p`.
pub open spec fn flag_set(p: u8, flag: StatusFlag) -> bool {
    p & flag.bit() == flag.bit()
}

/// The status byte `p` with `flag` set to `on` and every other bit kept.
pub open spec fn with_flag(p: u8, flag: StatusFlag, on: bool) -> u8 {
    if on {
        p | flag.bit()
    } else {
        p & !flag.bit()
    }
}

/// The status byte `p` with zero and negative taken from `value`: zero is
/// set when `value` is 0, negative when its bit 7 is set.
pub open spec fn with_zn(p: u8, value: u8) -> u8 {
    with_flag(with_flag(p, StatusFlag::Zero, value == 0), StatusFlag::Negative, value >= 128)
}

/// A popped status byte as the register takes it: break cleared, bit 5 set.
pub open spec fn pulled_status(value: u8) -> u8 {
    with_flag(with_flag(value, StatusFlag::BreakCommand, false), StatusFlag::Undefined, true)
}

/// A flag's bit is either wholly in a status byte or wholly out of it.
pub proof fn lemma_single_bit(p: u8, flag: StatusFlag)
    ensures
        p & flag.bit() == flag.bit() || p & flag.bit() == 0,
        (flag.bit() & p == flag.bit()) == flag_set(p, flag),
{
    let b = flag.bit();
    assert((b == 1 || b == 2 || b == 4 || b == 8 || b == 16 || b == 32 || b == 64 || b == 128) ==> ((p
        & b == b || p & b == 0) && b & p == p & b)) by (bit_vector);
}

/// Writing a flag makes it read back as written.
pub proof fn lemma_flag_written(p: u8, flag: StatusFlag, on: bool)
    ensures
        flag_set(with_flag(p, flag, on), flag) == on,
{
    let b = flag.bit();
    assert((b == 1 || b == 2 || b == 4 || b == 8 || b == 16 || b == 32 || b == 64 || b == 128) ==> ((p
        | b) & b == b && (p & !b) & b != b)) by (bit_vector);
}

/// Writing a flag leaves every other flag as it was.
pub proof fn lemma_flag_kept(p: u8, flag: StatusFlag, on: bool, other: StatusFlag)
    requires
        flag != other,
    ensures
        flag_set(with_flag(p, flag, on), other) == flag_set(p, other),
{
    let b = flag.bit();
    let c = other.bit();
    assert((b == 1 || b == 2 || b == 4 || b == 8 || b == 16 || b == 32 || b == 64 || b == 128) && (c
        == 1 || c == 2 || c == 4 || c == 8 || c == 16 || c == 32 || c == 64 || c == 128) && b != c
        ==> ((p | b) & c == p & c && (p & !b) & c == p & c)) by (bit_vector);
}

/// After zero and negative are taken from a value they describe it, and
/// the six other flags are untouched.
pub proof fn lemma_with_zn(p: u8, value: u8)
    ensures
        flag_set(with_zn(p, value), StatusFlag::Zero) == (value == 0),
        flag_set(with_zn(p, value), StatusFlag::Negative) == (value >= 128),
        forall|other: StatusFlag|
            other != StatusFlag::Zero && other != StatusFlag::Negative ==> flag_set(
                with_zn(p, value),
                other,
            ) == flag_set(p, other),
{
    let q = with_flag(p, StatusFlag::Zero, value == 0);
    lemma_flag_written(p, StatusFlag::Zero, value == 0);
    lemma_flag_kept(q, StatusFlag::Negative, value >= 128, StatusFlag::Zero);
    lemma_flag_written(q, StatusFlag::Negative, value >= 128);
    assert forall|other: StatusFlag|
        other != StatusFlag::Zero && other != StatusFlag::Negative implies flag_set(
        with_zn(p, value),
        other,
    ) == flag_set(p, other) by {
        lemma_flag_kept(p, StatusFlag::Zero, value == 0, other);
        lemma_flag_kept(q, StatusFlag::Negative, value >= 128, other);
    }
}

} // verus!
