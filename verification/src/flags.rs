//! The status-flag register: named condition bits packed in one byte, with the
//! shared zero/negative update rule reused by most register-mutating
//! instructions.

use vstd::prelude::*;

verus! {

/// Carry bit (bit 0).
pub const CARRY: u8 = 0x01;
/// Zero bit (bit 1).
pub const ZERO: u8 = 0x02;
/// Interrupt-disable bit (bit 2).
pub const INTERRUPT_DISABLE: u8 = 0x04;
/// Decimal-mode bit (bit 3); decimal arithmetic itself is out of scope.
pub const DECIMAL_MODE: u8 = 0x08;
/// Break bit (bit 4).
pub const BREAK: u8 = 0x10;
/// Second break bit (bit 5).
pub const BREAK2: u8 = 0x20;
/// Overflow bit (bit 6).
pub const OVERFLOW: u8 = 0x40;
/// Negative bit (bit 7).
pub const NEGATIVE: u8 = 0x80;

/// True when any of the bits selected by `mask` is set in `status`.
pub open spec fn has_flag(status: u8, mask: u8) -> bool {
    status & mask != 0
}

/// `status` with the bits of `mask` set or cleared according to `cond`.
pub open spec fn flag_if(status: u8, mask: u8, cond: bool) -> u8 {
    if cond {
        status | mask
    } else {
        status & !mask
    }
}

/// The shared zero/negative rule: Zero is set iff `value == 0`, Negative is
/// set iff bit 7 of `value` is set; no other bit moves.
pub open spec fn zn_update(status: u8, value: u8) -> u8 {
    flag_if(flag_if(status, ZERO, value == 0), NEGATIVE, value & 0x80 != 0)
}

/// The zero/negative rule, spelled out bit by bit: after `zn_update(status,
/// value)`, Zero holds exactly when `value` is zero, Negative holds exactly
/// when bit 7 of `value` is set, and every bit outside those two keeps its
/// prior value — whatever `status` held before.
pub proof fn lemma_zn_update(status: u8, value: u8)
    ensures
        has_flag(zn_update(status, value), ZERO) == (value == 0),
        has_flag(zn_update(status, value), NEGATIVE) == (value & 0x80 != 0),
        zn_update(status, value) & 0x7d == status & 0x7d,
{
    assert(has_flag(zn_update(status, value), ZERO) == (value == 0)
        && has_flag(zn_update(status, value), NEGATIVE) == (value & 0x80 != 0)
        && zn_update(status, value) & 0x7d == status & 0x7d) by (bit_vector);
}

/// The status register: eight named condition bits packed in a byte. The raw
/// byte is the type's view.
#[derive(Clone, Copy, Debug, PartialEq, Eq, Structural)]
pub struct CpuFlags {
    bits: u8,
}

impl View for CpuFlags {
    type V = u8;

    closed spec fn view(&self) -> u8 {
        self.bits
    }
}

impl CpuFlags {
    /// A flag register holding exactly the given raw byte.
    pub fn from_bits_truncate(bits: u8) -> (r: Self)
        ensures
            r@ == bits,
    {
        CpuFlags { bits }
    }

    /// The raw byte, with each flag at its fixed bit position.
    pub fn bits(&self) -> (r: u8)
        ensures
            r == self@,
    {
        self.bits
    }

    /// Sets the bits selected by `mask`.
    pub fn insert(&mut self, mask: u8)
        ensures
            final(self)@ == old(self)@ | mask,
    {
        self.bits = self.bits | mask;
    }

    /// Clears the bits selected by `mask`.
    pub fn remove(&mut self, mask: u8)
        ensures
            final(self)@ == old(self)@ & !mask,
    {
        self.bits = self.bits & !mask;
    }

    /// True when any of the bits selected by `mask` is set.
    pub fn contains(&self, mask: u8) -> (r: bool)
        ensures
            r == has_flag(self@, mask),
    {
        self.bits & mask != 0
    }

    /// Sets or clears the bits selected by `mask` according to `cond`.
    pub fn set(&mut self, mask: u8, cond: bool)
        ensures
            final(self)@ == flag_if(old(self)@, mask, cond),
    {
        if cond {
            self.insert(mask);
        } else {
            self.remove(mask);
        }
    }
}

} // verus!
