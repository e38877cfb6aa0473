//! The memory: 65,536 bytes, addressed by sixteen bits, so that every address
//! is in range and address arithmetic wraps.

use crate::error::CpuError;
use crate::registers::{
    advance, high, high_spec, lemma_offset_sum, low, low_spec, offset_spec, word, word_spec,
};
use vstd::prelude::*;

verus! {

/// Number of bytes of memory.
pub const MEMORY_SIZE: usize = 65536;

/// The whole address space, as one array.
pub struct Memory {
    bytes: [u8; MEMORY_SIZE],
}

/// The little-endian word at `addr`: low byte at `addr`, high byte at the next
/// address, which wraps to 0 after 0xFFFF.
pub open spec fn word_at(mem: Seq<u8>, addr: u16) -> u16 {
    word_spec(mem[offset_spec(addr, 1) as int], mem[addr as int])
}

/// The memory after `w` is stored at `addr`, low byte first.
pub open spec fn store_word(mem: Seq<u8>, addr: u16, w: u16) -> Seq<u8> {
    mem.update(addr as int, low_spec(w)).update(offset_spec(addr, 1) as int, high_spec(w))
}

/// The memory after `data` is copied to `offset` and the addresses that
/// follow: bytes inside the copied range come from `data`, the others stay.
pub open spec fn loaded(mem: Seq<u8>, data: Seq<u8>, offset: int) -> Seq<u8> {
    Seq::new(
        mem.len(),
        |i: int|
            if offset <= i < offset + data.len() {
                data[i - offset]
            } else {
                mem[i]
            },
    )
}

/// Whether `text` is what lies in memory from `start` up to, and without,
/// the first byte equal to `stop`. Addresses wrap after 0xFFFF; when no byte
/// of the memory equals `stop`, the text is the whole memory.
pub open spec fn is_text_at(mem: Seq<u8>, start: u16, stop: u8, text: Seq<u8>) -> bool {
    &&& text.len() <= MEMORY_SIZE
    &&& forall|i: int|
        0 <= i < text.len() ==> #[trigger] text[i] == mem[offset_spec(start, i) as int] && text[i]
            != stop
    &&& text.len() < MEMORY_SIZE ==> mem[offset_spec(start, text.len() as int) as int] == stop
}

/// Whether `data` placed at `offset` stays inside the address space.
pub open spec fn fits(len: int, offset: int) -> bool {
    offset + len <= MEMORY_SIZE
}

impl View for Memory {
    type V = Seq<u8>;

    closed spec fn view(&self) -> Seq<u8> {
        self.bytes@
    }
}

impl Memory {
    /// The view of a memory always has `MEMORY_SIZE` bytes.
    pub proof fn lemma_len(&self)
        ensures
            self@.len() == MEMORY_SIZE,
    {
    }

    /// Creates a memory of zero bytes.
    pub fn new() -> (m: Memory)
        ensures
            m@ == Seq::new(MEMORY_SIZE as nat, |i: int| 0u8),
    {
        Memory { bytes: [0u8; MEMORY_SIZE] }
    }

    /// Reads the byte at `addr`.
    pub fn read_byte(&self, addr: u16) -> (b: u8)
        ensures
            b == self@[addr as int],
    {
        self.bytes[addr as usize]
    }

    /// Writes `value` at `addr`.
    pub fn write_byte(&mut self, addr: u16, value: u8)
        ensures
            final(self)@ == old(self)@.update(addr as int, value),
    {
        self.bytes[addr as usize] = value;
    }

    /// Reads the little-endian word at `addr`.
    pub fn read_word(&self, addr: u16) -> (w: u16)
        ensures
            w == word_at(self@, addr),
    {
        let lo: u8 = self.read_byte(addr);
        let hi: u8 = self.read_byte(advance(addr, 1));
        word(hi, lo)
    }

    /// Writes `w` at `addr`, low byte first.
    pub fn write_word(&mut self, addr: u16, w: u16)
        ensures
            final(self)@ == store_word(old(self)@, addr, w),
    {
        self.write_byte(addr, low(w));
        self.write_byte(advance(addr, 1), high(w));
    }

    /// Copies `data` into memory from `offset` on. When the copy would run
    /// past the last address, nothing is written.
    pub fn load(&mut self, data: &[u8], offset: usize) -> (r: Result<(), CpuError>)
        ensures
            fits(data@.len() as int, offset as int) ==> r == Ok::<(), CpuError>(()) && final(self)@
                == loaded(old(self)@, data@, offset as int),
            !fits(data@.len() as int, offset as int) ==> r == Err::<(), CpuError>(
                CpuError::OutOfBounds,
            ) && final(self)@ == old(self)@,
    {
        if offset > MEMORY_SIZE || data.len() > MEMORY_SIZE - offset {
            return Err(CpuError::OutOfBounds);
        }
        let mut i: usize = 0;
        while i < data.len()
            invariant
                i <= data@.len(),
                offset + data@.len() <= MEMORY_SIZE,
                self@ == loaded(old(self)@, data@.take(i as int), offset as int),
            decreases data@.len() - i,
        {
            self.bytes[offset + i] = data[i];
            i += 1;
        }
        assert(data@.take(i as int) == data@);
        Ok(())
    }

    /// Reads the text at `start` that ends before the first byte equal to
    /// `stop`.
    pub fn read_until(&self, start: u16, stop: u8) -> (text: Vec<u8>)
        ensures
            is_text_at(self@, start, stop, text@),
    {
        let mut text: Vec<u8> = Vec::new();
        let mut addr: u16 = start;
        proof {
            lemma_offset_sum(start, 0, 0);
        }
        while text.len() < MEMORY_SIZE
            invariant
                text@.len() <= MEMORY_SIZE,
                addr == offset_spec(start, text@.len() as int),
                forall|i: int|
                    0 <= i < text@.len() ==> #[trigger] text@[i] == self@[offset_spec(
                        start,
                        i,
                    ) as int] && text@[i] != stop,
            ensures
                is_text_at(self@, start, stop, text@),
            decreases MEMORY_SIZE - text@.len(),
        {
            let b: u8 = self.read_byte(addr);
            if b == stop {
                break ;
            }
            proof {
                lemma_offset_sum(start, text@.len() as int, 1);
            }
            text.push(b);
            addr = advance(addr, 1);
        }
        text
    }

    /// The memory image, for inspection.
    pub fn as_array(&self) -> (image: &[u8; MEMORY_SIZE])
        ensures
            image@ == self@,
    {
        &self.bytes
    }
}

/// The text at an address is unique: two texts that both lie at `start` and
/// end before the first `stop` are the same.
pub proof fn lemma_text_unique(mem: Seq<u8>, start: u16, stop: u8, t1: Seq<u8>, t2: Seq<u8>)
    requires
        is_text_at(mem, start, stop, t1),
        is_text_at(mem, start, stop, t2),
    ensures
        t1 == t2,
{
    if t1.len() < t2.len() {
        assert(t2[t1.len() as int] != stop);
    } else if t2.len() < t1.len() {
        assert(t1[t2.len() as int] != stop);
    }
    assert(t1 =~= t2);
}

} // verus!
