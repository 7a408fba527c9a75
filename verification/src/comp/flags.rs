//! The processor status register.
//!
//! ```text
//!  7 6 5 4 3 2 1 0
//!  N V _ B D I Z C
//!  | |   | | | | +--- Carry
//!  | |   | | | +----- Zero
//!  | |   | | +------- Interrupt disable
//!  | |   | +--------- Decimal mode (stored, never honoured)
//!  | |   +----------- Break
//!  | +--------------- Overflow
//!  +----------------- Negative
//! ```

use vstd::prelude::*;

verus! {

/// The status register `P`, one bit per flag.
#[derive(Clone, Copy, Debug, PartialEq, Eq, Structural)]
pub struct CpuFlags {
    pub bits: u8,
}

impl CpuFlags {
    pub const CARRY: u8 = 0b0000_0001;

    pub const ZERO: u8 = 0b0000_0010;

    pub const INTERRUPT_DISABLE: u8 = 0b0000_0100;

    pub const DECIMAL_MODE: u8 = 0b0000_1000;

    pub const BREAK: u8 = 0b0001_0000;

    pub const UNUSED: u8 = 0b0010_0000;

    pub const OVERFLOW: u8 = 0b0100_0000;

    pub const NEGATIVE: u8 = 0b1000_0000;

    /// Whether every bit of `flag` is set.
    pub open spec fn has(self, flag: u8) -> bool {
        self.bits & flag == flag
    }

    /// The register with the bits of `flag` set when `on` holds and cleared
    /// when it does not.
    pub open spec fn with(self, flag: u8, on: bool) -> CpuFlags {
        CpuFlags { bits: if on { self.bits | flag } else { self.bits & !flag } }
    }

    /// The register after an operation that produced `res`: Z tells whether
    /// the result is zero, N is its bit 7.
    pub open spec fn with_zn(self, res: u8) -> CpuFlags {
        self.with(CpuFlags::ZERO, res == 0).with(CpuFlags::NEGATIVE, res & 0b1000_0000 != 0)
    }

    /// The carry flag as the number that is added: 0 or 1.
    pub open spec fn carry_in(self) -> u8 {
        if self.has(CpuFlags::CARRY) {
            1
        } else {
            0
        }
    }

    /// Every bit of the byte is a flag, so no bit is dropped.
    pub fn from_bits_truncate(bits: u8) -> (f: CpuFlags)
        ensures
            f.bits == bits,
    {
        CpuFlags { bits }
    }

    /// The register as a byte.
    pub fn bits(&self) -> (b: u8)
        ensures
            b == self.bits,
    {
        self.bits
    }

    /// Whether every bit of `flag` is set.
    pub fn contains(&self, flag: u8) -> (b: bool)
        ensures
            b == self.has(flag),
    {
        self.bits & flag == flag
    }

    /// Sets the bits of `flag`.
    pub fn insert(&mut self, flag: u8)
        ensures
            *final(self) == old(self).with(flag, true),
    {
        self.bits = self.bits | flag;
    }

    /// Clears the bits of `flag`.
    pub fn remove(&mut self, flag: u8)
        ensures
            *final(self) == old(self).with(flag, false),
    {
        self.bits = self.bits & !flag;
    }

    /// Sets the bits of `flag` where `value` holds and clears them where it
    /// does not.
    pub fn set(&mut self, flag: u8, value: bool)
        ensures
            *final(self) == old(self).with(flag, value),
    {
        if value {
            self.insert(flag);
        } else {
            self.remove(flag);
        }
    }
}

/// Whether `flag` is exactly one bit.
pub open spec fn is_single_flag(flag: u8) -> bool {
    flag == 0b0000_0001 || flag == 0b0000_0010 || flag == 0b0000_0100 || flag == 0b0000_1000
        || flag == 0b0001_0000 || flag == 0b0010_0000 || flag == 0b0100_0000 || flag
        == 0b1000_0000
}

/// Setting or clearing one flag gives that flag the value asked for and
/// leaves every other flag as it was.
pub proof fn lemma_with_sets_one_flag(p: CpuFlags, flag: u8, on: bool, other: u8)
    requires
        is_single_flag(flag),
        is_single_flag(other),
    ensures
        p.with(flag, on).has(flag) == on,
        other != flag ==> p.with(flag, on).has(other) == p.has(other),
{
    let b = p.bits;
    assert((flag == 1 || flag == 2 || flag == 4 || flag == 8 || flag == 16 || flag == 32 || flag
        == 64 || flag == 128) && (other == 1 || other == 2 || other == 4 || other == 8 || other
        == 16 || other == 32 || other == 64 || other == 128) ==> {
        &&& (b | flag) & flag == flag
        &&& (b & !flag) & flag != flag
        &&& (other != flag ==> ((b | flag) & other == other) == (b & other == other))
        &&& (other != flag ==> ((b & !flag) & other == other) == (b & other == other))
    }) by (bit_vector);
}

/// After an operation that produced `res`, Z is set exactly when the result
/// is zero and N exactly when bit 7 of the result is 1; no other flag moves.
pub proof fn lemma_with_zn(p: CpuFlags, res: u8, other: u8)
    requires
        is_single_flag(other),
    ensures
        p.with_zn(res).has(CpuFlags::ZERO) == (res == 0),
        p.with_zn(res).has(CpuFlags::NEGATIVE) == (res & 0b1000_0000 != 0),
        p.with_zn(res).has(CpuFlags::NEGATIVE) == (res >= 128),
        other != CpuFlags::ZERO && other != CpuFlags::NEGATIVE ==> p.with_zn(res).has(other)
            == p.has(other),
{
    let z = p.with(CpuFlags::ZERO, res == 0);
    lemma_with_sets_one_flag(p, CpuFlags::ZERO, res == 0, other);
    lemma_with_sets_one_flag(p, CpuFlags::ZERO, res == 0, CpuFlags::ZERO);
    lemma_with_sets_one_flag(z, CpuFlags::NEGATIVE, res & 0b1000_0000 != 0, CpuFlags::ZERO);
    lemma_with_sets_one_flag(z, CpuFlags::NEGATIVE, res & 0b1000_0000 != 0, other);
    assert((res & 0b1000_0000 != 0) == (res >= 128)) by (bit_vector);
}

} // verus!
