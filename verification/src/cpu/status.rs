//! 6502 processor status register (P) bit manipulation.

use vstd::prelude::*;

verus! {

/// The processor status register: one byte of flag bits.
#[derive(Clone, Copy, Debug)]
pub struct Status(pub u8);

/// Flag names of the status register, from bit 0 (C) to bit 7 (N).
#[derive(Clone, Copy, Debug, PartialEq, Eq, Structural)]
pub enum Flag {
    C,
    Z,
    I,
    D,
    B,
    U,
    V,
    N,
}

pub const C: Flag = Flag::C;
pub const Z: Flag = Flag::Z;
pub const I: Flag = Flag::I;
pub const D: Flag = Flag::D;
pub const B: Flag = Flag::B;
pub const U: Flag = Flag::U;
pub const V: Flag = Flag::V;
pub const N: Flag = Flag::N;

/// Bit position of a flag inside the status byte.
pub open spec fn flag_bit(flag: Flag) -> u8 {
    match flag {
        Flag::C => 0,
        Flag::Z => 1,
        Flag::I => 2,
        Flag::D => 3,
        Flag::B => 4,
        Flag::U => 5,
        Flag::V => 6,
        Flag::N => 7,
    }
}

/// Whether bit `bit` of `p` is set.
pub open spec fn bit_of(p: u8, bit: u8) -> bool {
    (p >> bit) & 1 == 1
}

/// The byte `p` with bit `bit` forced to `val`.
pub open spec fn with_bit(p: u8, bit: u8, val: bool) -> u8 {
    if val {
        p | (1u8 << bit)
    } else {
        p & !(1u8 << bit)
    }
}

/// Value of `flag` in the status byte `p`.
pub open spec fn flag_of(p: u8, flag: Flag) -> bool {
    bit_of(p, flag_bit(flag))
}

/// Status byte `p` with `flag` set to `val`.
pub open spec fn with_flag(p: u8, flag: Flag, val: bool) -> u8 {
    with_bit(p, flag_bit(flag), val)
}

/// Status byte `p` after N and Z are set from the value `val`.
pub open spec fn with_nz(p: u8, val: u8) -> u8 {
    with_flag(with_flag(p, Flag::N, val >= 0x80), Flag::Z, val == 0)
}

/// Byte pushed on the stack for status `p` (PHP/BRK with `brk`, interrupts without).
pub open spec fn push_byte(p: u8, brk: bool) -> u8 {
    if brk {
        p | 0x30
    } else {
        (p | 0x20) & 0xEF
    }
}

/// Register value restored from a pulled stack byte (PLP/RTI).
pub open spec fn pull_byte(val: u8) -> u8 {
    (val | 0x20) & 0xEF
}

fn flag_position(flag: Flag) -> (r: u8)
    ensures
        r == flag_bit(flag),
        r < 8,
{
    match flag {
        Flag::C => 0,
        Flag::Z => 1,
        Flag::I => 2,
        Flag::D => 3,
        Flag::B => 4,
        Flag::U => 5,
        Flag::V => 6,
        Flag::N => 7,
    }
}

impl Status {
    /// Fresh status register: only the unused bit U is set.
    pub fn new() -> (s: Self)
        ensures
            s.0 == 0x20,
    {
        Status(0x20)
    }

    /// Read a flag.
    pub fn get(&self, flag: Flag) -> (r: bool)
        ensures
            r == flag_of(self.0, flag),
    {
        let bit = flag_position(flag);
        let p = self.0;
        assert(((p >> bit) & 1 != 0) == ((p >> bit) & 1 == 1)) by (bit_vector);
        (p >> bit) & 1 != 0
    }

    /// Write a flag.
    pub fn set(&mut self, flag: Flag, val: bool)
        ensures
            final(self).0 == with_flag(old(self).0, flag, val),
    {
        let bit = flag_position(flag);
        let mask: u8 = 1u8 << bit;
        if val {
            self.0 = self.0 | mask;
        } else {
            self.0 = self.0 & !mask;
        }
    }

    /// Set N and Z flags based on a value.
    pub fn set_nz(&mut self, val: u8)
        ensures
            final(self).0 == with_nz(old(self).0, val),
    {
        assert((val & 0x80 != 0) == (val >= 0x80)) by (bit_vector);
        self.set(N, val & 0x80 != 0);
        self.set(Z, val == 0);
    }

    /// Byte pushed to the stack by PHP/BRK (`brk` true: B set) or by an
    /// interrupt (`brk` false: B clear). U is always set.
    pub fn to_push_byte(&self, brk: bool) -> (r: u8)
        ensures
            r == push_byte(self.0, brk),
    {
        let mut val: u8 = self.0 | 0x20;
        if brk {
            val = val | 0x10;
        } else {
            val = val & 0xEF;
        }
        proof {
            let p = self.0;
            assert((p | 0x20) | 0x10 == p | 0x30) by (bit_vector);
        }
        val
    }

    /// Restore from a stack byte (PLP/RTI): U forced on, B forced off.
    pub fn from_pull_byte(&mut self, val: u8)
        ensures
            final(self).0 == pull_byte(val),
    {
        self.0 = (val | 0x20) & 0xEF;
    }
}

/// Reading a flag gives back the value just written to it.
pub proof fn lemma_get_after_set(p: u8, flag: Flag, val: bool)
    ensures
        flag_of(with_flag(p, flag, val), flag) == val,
{
    let b = flag_bit(flag);
    assert(b < 8);
    assert(b < 8 ==> bit_of(with_bit(p, b, val), b) == val) by (bit_vector);
}

/// Writing a flag leaves every other flag unchanged.
pub proof fn lemma_set_keeps_other_flags(p: u8, flag: Flag, other: Flag, val: bool)
    requires
        flag != other,
    ensures
        flag_of(with_flag(p, flag, val), other) == flag_of(p, other),
{
    let b = flag_bit(flag);
    let o = flag_bit(other);
    assert(b < 8 && o < 8 && b != o);
    assert(b < 8 && o < 8 && b != o ==> bit_of(with_bit(p, b, val), o) == bit_of(p, o))
        by (bit_vector);
}

/// A status byte restored from the stack always has U set and B clear, and
/// keeps every other flag of the pulled byte.
pub proof fn lemma_pull_byte_flags(val: u8, flag: Flag)
    ensures
        flag_of(pull_byte(val), Flag::U),
        !flag_of(pull_byte(val), Flag::B),
        flag != Flag::U && flag != Flag::B ==> flag_of(pull_byte(val), flag) == flag_of(val, flag),
{
    let b = flag_bit(flag);
    assert(bit_of(pull_byte(val), 5)) by (bit_vector);
    assert(!bit_of(pull_byte(val), 4)) by (bit_vector);
    assert(b < 8 && b != 5 && b != 4 ==> bit_of(pull_byte(val), b) == bit_of(val, b))
        by (bit_vector);
}

/// Pushing the status (PHP) and pulling it back (PLP) restores every flag
/// except B, which the register never holds, and U, which is always set.
pub proof fn lemma_push_pull_roundtrip(p: u8, brk: bool)
    ensures
        pull_byte(push_byte(p, brk)) == (p | 0x20) & 0xEF,
{
    assert(pull_byte(push_byte(p, brk)) == (p | 0x20) & 0xEF) by (bit_vector);
}

} // verus!
