//! The register file: the accumulator, six general registers that pair up
//! into BC, DE and HL, the program counter and the stack pointer.

use vstd::prelude::*;

verus! {

/// The sixteen-bit register pairs that LXI, INX, DCX and DAD address.
#[derive(Clone, Copy, Debug, PartialEq, Eq, Structural)]
pub enum RegPair {
    BC,
    DE,
    HL,
    SP,
}

/// The registers of the processor. A pair is a view of two registers, the
/// first named holding the high byte; nothing is stored twice.
#[derive(Clone, Copy, Debug, PartialEq, Eq, Structural)]
pub struct Registers {
    pub a: u8,
    pub b: u8,
    pub c: u8,
    pub d: u8,
    pub e: u8,
    pub h: u8,
    pub l: u8,
    pub pc: u16,
    pub sp: u16,
}

/// The sixteen-bit word with high byte `hi` and low byte `lo`.
pub open spec fn word_spec(hi: u8, lo: u8) -> u16 {
    (hi * 256 + lo) as u16
}

/// The high byte of a word.
pub open spec fn high_spec(w: u16) -> u8 {
    (w / 256) as u8
}

/// The low byte of a word.
pub open spec fn low_spec(w: u16) -> u8 {
    (w % 256) as u8
}

/// `base + delta` in the sixteen-bit address space, wrapping at both ends.
pub open spec fn offset_spec(base: u16, delta: int) -> u16 {
    ((base + delta) % 0x1_0000) as u16
}

/// Builds a word from its two bytes.
pub fn word(hi: u8, lo: u8) -> (w: u16)
    ensures
        w == word_spec(hi, lo),
{
    assert(((hi as u16) << 8) | (lo as u16) == hi * 256 + lo) by (bit_vector);
    ((hi as u16) << 8) | (lo as u16)
}

/// Takes the high byte of a word.
pub fn high(w: u16) -> (b: u8)
    ensures
        b == high_spec(w),
{
    assert(w >> 8 == w / 256) by (bit_vector);
    (w >> 8) as u8
}

/// Takes the low byte of a word.
pub fn low(w: u16) -> (b: u8)
    ensures
        b == low_spec(w),
{
    assert(w & 0xFF == w % 256) by (bit_vector);
    (w & 0xFF) as u8
}

/// Moves an address up by `n`, wrapping past 0xFFFF.
pub fn advance(base: u16, n: u16) -> (r: u16)
    ensures
        r == offset_spec(base, n as int),
{
    proof {
        if base + n > 0xFFFF {
            assert((base + n) % 0x1_0000 == base + n - 0x1_0000);
        } else {
            assert((base + n) % 0x1_0000 == base + n);
        }
    }
    base.wrapping_add(n)
}

/// Moves an address down by `n`, wrapping below 0.
pub fn retreat(base: u16, n: u16) -> (r: u16)
    ensures
        r == offset_spec(base, -(n as int)),
{
    proof {
        if base - n < 0 {
            assert((base - n) % 0x1_0000 == base - n + 0x1_0000);
        } else {
            assert((base - n) % 0x1_0000 == base - n);
        }
    }
    base.wrapping_sub(n)
}

/// Moving an address in two steps is moving it by the sum of the steps, and
/// moving it by nothing leaves it where it was.
pub proof fn lemma_offset_sum(base: u16, first: int, second: int)
    ensures
        offset_spec(offset_spec(base, first), second) == offset_spec(base, first + second),
        offset_spec(base, 0) == base,
{
    let m = 0x1_0000int;
    let x = base + first;
    assert(x == m * (x / m) + x % m) by {
        vstd::arithmetic::div_mod::lemma_fundamental_div_mod(x, m);
    }
    assert((x % m + second) % m == (x + second) % m) by {
        vstd::arithmetic::div_mod::lemma_mod_multiples_vanish(-(x / m), x + second, m);
    }
}

/// A word is made of its own high and low bytes, and the bytes of a word
/// built from two bytes are those bytes.
pub proof fn lemma_word_bytes(w: u16, hi: u8, lo: u8)
    ensures
        word_spec(high_spec(w), low_spec(w)) == w,
        high_spec(word_spec(hi, lo)) == hi,
        low_spec(word_spec(hi, lo)) == lo,
{
}

impl Registers {
    /// Every register zero.
    pub open spec fn zeroed() -> Registers {
        Registers { a: 0, b: 0, c: 0, d: 0, e: 0, h: 0, l: 0, pc: 0, sp: 0 }
    }

    /// The value of a register pair.
    pub open spec fn pair_spec(self, rp: RegPair) -> u16 {
        match rp {
            RegPair::BC => word_spec(self.b, self.c),
            RegPair::DE => word_spec(self.d, self.e),
            RegPair::HL => word_spec(self.h, self.l),
            RegPair::SP => self.sp,
        }
    }

    /// The registers with pair `rp` holding `w` and the others unchanged.
    pub open spec fn with_pair(self, rp: RegPair, w: u16) -> Registers {
        match rp {
            RegPair::BC => Registers { b: high_spec(w), c: low_spec(w), ..self },
            RegPair::DE => Registers { d: high_spec(w), e: low_spec(w), ..self },
            RegPair::HL => Registers { h: high_spec(w), l: low_spec(w), ..self },
            RegPair::SP => Registers { sp: w, ..self },
        }
    }

    /// Creates a register file with every register zero.
    pub fn new() -> (r: Registers)
        ensures
            r == Registers::zeroed(),
    {
        Registers { a: 0, b: 0, c: 0, d: 0, e: 0, h: 0, l: 0, pc: 0, sp: 0 }
    }

    /// Reads a register pair.
    pub fn pair(&self, rp: RegPair) -> (w: u16)
        ensures
            w == self.pair_spec(rp),
    {
        match rp {
            RegPair::BC => word(self.b, self.c),
            RegPair::DE => word(self.d, self.e),
            RegPair::HL => word(self.h, self.l),
            RegPair::SP => self.sp,
        }
    }

    /// Writes a register pair, high byte to the first register of the pair.
    pub fn set_pair(&mut self, rp: RegPair, w: u16)
        ensures
            *final(self) == old(self).with_pair(rp, w),
    {
        match rp {
            RegPair::BC => {
                self.b = high(w);
                self.c = low(w);
            },
            RegPair::DE => {
                self.d = high(w);
                self.e = low(w);
            },
            RegPair::HL => {
                self.h = high(w);
                self.l = low(w);
            },
            RegPair::SP => {
                self.sp = w;
            },
        }
    }

    /// Reads the pair HL, the address of the memory operand.
    pub fn hl(&self) -> (w: u16)
        ensures
            w == self.pair_spec(RegPair::HL),
    {
        word(self.h, self.l)
    }
}

/// A pair reads back what was written to it, and writing a pair leaves the
/// other pairs, the accumulator and the program counter alone.
pub proof fn lemma_pair_write_read(r: Registers, rp: RegPair, w: u16, other: RegPair)
    ensures
        r.with_pair(rp, w).pair_spec(rp) == w,
        other != rp ==> r.with_pair(rp, w).pair_spec(other) == r.pair_spec(other),
        r.with_pair(rp, w).a == r.a,
        r.with_pair(rp, w).pc == r.pc,
        r.with_pair(rp, r.pair_spec(rp)) == r,
{
}

} // verus!
