//! The five condition flags and their packing into the program status word.

use vstd::prelude::*;

verus! {

/// The condition flags of the processor.
#[derive(Clone, Copy, Debug, PartialEq, Eq, Structural)]
pub struct Flags {
    /// Sign: bit 7 of the last result.
    pub s: bool,
    /// Zero: the last result was zero.
    pub z: bool,
    /// Parity: the last result had an even number of set bits.
    pub p: bool,
    /// Carry (or borrow) out of bit 7.
    pub cy: bool,
    /// Auxiliary carry (or borrow) across bits 3 and 4.
    pub ac: bool,
}

/// The branch conditions of the conditional jumps, calls and returns.
#[derive(Clone, Copy, Debug, PartialEq, Eq, Structural)]
pub enum Cond {
    /// Zero flag clear.
    NotZero,
    /// Zero flag set.
    Zero,
    /// Carry flag clear.
    NoCarry,
    /// Carry flag set.
    Carry,
    /// Parity flag clear (odd parity).
    ParityOdd,
    /// Parity flag set (even parity).
    ParityEven,
    /// Sign flag clear.
    Plus,
    /// Sign flag set.
    Minus,
}

/// Weight of a flag bit inside the status word: `w` if the flag is set, else 0.
pub open spec fn weight(flag: bool, w: int) -> int {
    if flag {
        w
    } else {
        0
    }
}

impl Flags {
    /// All flags clear.
    pub open spec fn cleared() -> Flags {
        Flags { s: false, z: false, p: false, cy: false, ac: false }
    }

    /// The status word as PUSH PSW stores it. From bit 7 down to bit 0:
    /// S, Z, 0, AC, 0, P, 1, CY.
    pub open spec fn psw(self) -> u8 {
        (weight(self.s, 128) + weight(self.z, 64) + weight(self.ac, 16) + weight(self.p, 4) + 2
            + weight(self.cy, 1)) as u8
    }

    /// The flags that POP PSW reads out of a status word. Bits 5, 3 and 1 are
    /// ignored.
    pub open spec fn of_psw(byte: u8) -> Flags {
        Flags {
            s: byte / 128 % 2 == 1,
            z: byte / 64 % 2 == 1,
            ac: byte / 16 % 2 == 1,
            p: byte / 4 % 2 == 1,
            cy: byte % 2 == 1,
        }
    }

    /// Whether a branch on `cond` is taken with these flags.
    pub open spec fn holds(self, cond: Cond) -> bool {
        match cond {
            Cond::NotZero => !self.z,
            Cond::Zero => self.z,
            Cond::NoCarry => !self.cy,
            Cond::Carry => self.cy,
            Cond::ParityOdd => !self.p,
            Cond::ParityEven => self.p,
            Cond::Plus => !self.s,
            Cond::Minus => self.s,
        }
    }

    /// Creates a flag register with every flag clear.
    pub fn new() -> (f: Flags)
        ensures
            f == Flags::cleared(),
    {
        Flags { s: false, z: false, p: false, cy: false, ac: false }
    }

    /// Packs the flags into the status word.
    pub fn to_psw(&self) -> (byte: u8)
        ensures
            byte == self.psw(),
    {
        let mut byte: u8 = 0x02;
        if self.s {
            byte += 0x80;
        }
        if self.z {
            byte += 0x40;
        }
        if self.ac {
            byte += 0x10;
        }
        if self.p {
            byte += 0x04;
        }
        if self.cy {
            byte += 0x01;
        }
        byte
    }

    /// Unpacks a status word.
    pub fn from_psw(byte: u8) -> (f: Flags)
        ensures
            f == Flags::of_psw(byte),
    {
        assert((byte & 0x80 != 0) == (byte / 128 % 2 == 1) && (byte & 0x40 != 0) == (byte / 64 % 2
            == 1) && (byte & 0x10 != 0) == (byte / 16 % 2 == 1) && (byte & 0x04 != 0) == (byte / 4
            % 2 == 1) && (byte & 0x01 != 0) == (byte % 2 == 1)) by (bit_vector);
        Flags {
            s: byte & 0x80 != 0,
            z: byte & 0x40 != 0,
            ac: byte & 0x10 != 0,
            p: byte & 0x04 != 0,
            cy: byte & 0x01 != 0,
        }
    }

    /// Evaluates a branch condition.
    pub fn test(&self, cond: Cond) -> (taken: bool)
        ensures
            taken == self.holds(cond),
    {
        match cond {
            Cond::NotZero => !self.z,
            Cond::Zero => self.z,
            Cond::NoCarry => !self.cy,
            Cond::Carry => self.cy,
            Cond::ParityOdd => !self.p,
            Cond::ParityEven => self.p,
            Cond::Plus => !self.s,
            Cond::Minus => self.s,
        }
    }
}

/// Unpacking a packed status word gives back every flag.
pub proof fn lemma_psw_round_trip(f: Flags)
    ensures
        Flags::of_psw(f.psw()) == f,
        f.psw() / 2 % 2 == 1,
        f.psw() / 8 % 2 == 0,
        f.psw() / 32 % 2 == 0,
{
}

} // verus!
