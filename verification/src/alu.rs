//! The arithmetic/logic unit: pure functions from operands and incoming flags
//! to a result and the flags it leaves behind.
//!
//! Each operation is described by a specification function over mathematical
//! integers and implemented by an executable function on bytes that is proved
//! to agree with it.

use crate::flags::{weight, Flags};
use vstd::prelude::*;

verus! {

/// What an ALU operation produces: the result byte and the new flags.
#[derive(Clone, Copy, Debug, PartialEq, Eq, Structural)]
pub struct AluResult {
    pub value: u8,
    pub flags: Flags,
}

/// The eight accumulator operations that take a register, memory or immediate
/// operand.
#[derive(Clone, Copy, Debug, PartialEq, Eq, Structural)]
pub enum AluOp {
    Add,
    AddCarry,
    Sub,
    SubBorrow,
    And,
    Xor,
    Or,
    /// Subtraction that sets the flags and discards the difference.
    Compare,
}

/// Number of set bits of a byte.
pub open spec fn count_ones(x: u8) -> int {
    x % 2 + x / 2 % 2 + x / 4 % 2 + x / 8 % 2 + x / 16 % 2 + x / 32 % 2 + x / 64 % 2 + x / 128
}

/// The parity flag of a result: set when the number of set bits is even.
pub open spec fn even_parity(x: u8) -> bool {
    count_ones(x) % 2 == 0
}

/// Flags after an operation with result `value`: zero, sign and parity are
/// taken from the result, carry and auxiliary carry are as given.
pub open spec fn result_flags(value: u8, cy: bool, ac: bool) -> Flags {
    Flags { z: value == 0, s: value >= 128, p: even_parity(value), cy, ac }
}

/// `a + b + carry` in eight bits. Carry is the carry out of bit 7, auxiliary
/// carry the carry out of bit 3.
pub open spec fn add_with_carry_spec(a: u8, b: u8, carry: bool) -> AluResult {
    let total = a + b + weight(carry, 1);
    let value = (total % 256) as u8;
    AluResult {
        value,
        flags: result_flags(value, total > 255, a % 16 + b % 16 + weight(carry, 1) > 15),
    }
}

/// `a - b - borrow` in eight bits. Carry is the borrow out of bit 7,
/// auxiliary carry the borrow out of the low nibble.
pub open spec fn sub_with_borrow_spec(a: u8, b: u8, borrow: bool) -> AluResult {
    let taken = b + weight(borrow, 1);
    let value = ((a - taken) % 256) as u8;
    AluResult {
        value,
        flags: result_flags(value, a < taken, a % 16 < b % 16 + weight(borrow, 1)),
    }
}

/// `x + 1` in eight bits. The carry flag is left as it was.
pub open spec fn increment_spec(x: u8, flags: Flags) -> AluResult {
    let value = ((x + 1) % 256) as u8;
    AluResult { value, flags: result_flags(value, flags.cy, x % 16 == 15) }
}

/// `x - 1` in eight bits. The carry flag is left as it was.
pub open spec fn decrement_spec(x: u8, flags: Flags) -> AluResult {
    let value = ((x - 1) % 256) as u8;
    AluResult { value, flags: result_flags(value, flags.cy, x % 16 == 0) }
}

/// Flags after a logical operation: carry and auxiliary carry are cleared.
pub open spec fn logic_spec(value: u8) -> AluResult {
    AluResult { value, flags: result_flags(value, false, false) }
}

/// Flags of `a - b`; the value is `a` itself.
pub open spec fn compare_spec(a: u8, b: u8) -> AluResult {
    AluResult { value: a, flags: sub_with_borrow_spec(a, b, false).flags }
}

/// What one of the eight accumulator operations does to accumulator `a` with
/// operand `b`.
pub open spec fn accumulate_spec(op: AluOp, a: u8, b: u8, flags: Flags) -> AluResult {
    match op {
        AluOp::Add => add_with_carry_spec(a, b, false),
        AluOp::AddCarry => add_with_carry_spec(a, b, flags.cy),
        AluOp::Sub => sub_with_borrow_spec(a, b, false),
        AluOp::SubBorrow => sub_with_borrow_spec(a, b, flags.cy),
        AluOp::And => logic_spec(a & b),
        AluOp::Xor => logic_spec(a ^ b),
        AluOp::Or => logic_spec(a | b),
        AluOp::Compare => compare_spec(a, b),
    }
}

/// Rotate left: bit 7 moves to bit 0 and to the carry flag.
pub open spec fn rotate_left_spec(a: u8, flags: Flags) -> AluResult {
    AluResult {
        value: (a * 2 % 256 + a / 128) as u8,
        flags: Flags { cy: a >= 128, ..flags },
    }
}

/// Rotate right: bit 0 moves to bit 7 and to the carry flag.
pub open spec fn rotate_right_spec(a: u8, flags: Flags) -> AluResult {
    AluResult {
        value: (a / 2 + a % 2 * 128) as u8,
        flags: Flags { cy: a % 2 == 1, ..flags },
    }
}

/// Rotate left through carry: the old carry enters bit 0, bit 7 becomes the
/// carry.
pub open spec fn rotate_left_through_carry_spec(a: u8, flags: Flags) -> AluResult {
    AluResult {
        value: (a * 2 % 256 + weight(flags.cy, 1)) as u8,
        flags: Flags { cy: a >= 128, ..flags },
    }
}

/// Rotate right through carry: the old carry enters bit 7, bit 0 becomes the
/// carry.
pub open spec fn rotate_right_through_carry_spec(a: u8, flags: Flags) -> AluResult {
    AluResult {
        value: (a / 2 + weight(flags.cy, 128)) as u8,
        flags: Flags { cy: a % 2 == 1, ..flags },
    }
}

/// One's complement of the accumulator; no flag changes.
pub open spec fn complement_spec(a: u8) -> u8 {
    (255 - a) as u8
}

/// What the first step of decimal adjustment adds: 6 when the low digit is
/// above 9 or a carry out of it is pending.
pub open spec fn low_digit_adjustment(a: u8, flags: Flags) -> int {
    if a % 16 > 9 || flags.ac {
        6
    } else {
        0
    }
}

/// What the second step of decimal adjustment adds, given the sum `after_low`
/// that the first step left: 0x60 when the high digit is above 9 or a carry is
/// pending.
pub open spec fn high_digit_adjustment(after_low: int, flags: Flags) -> int {
    if after_low / 16 > 9 || flags.cy {
        0x60
    } else {
        0
    }
}

/// Decimal adjustment of the accumulator after a BCD addition, in two steps.
/// The first corrects the low digit and sets the auxiliary carry to the carry
/// out of it. The second corrects the high digit and sets the carry when the
/// sum leaves eight bits; otherwise the carry stays as it was.
pub open spec fn decimal_adjust_spec(a: u8, flags: Flags) -> AluResult {
    let low = low_digit_adjustment(a, flags);
    let after_low = a + low;
    let after_high = after_low + high_digit_adjustment(after_low, flags);
    let value = (after_high % 256) as u8;
    AluResult {
        value,
        flags: result_flags(value, flags.cy || after_high > 255, a % 16 + low > 15),
    }
}

/// Sixteen-bit sum of a register pair and HL: the sum modulo 65536 and the
/// carry out of bit 15.
pub open spec fn double_add_spec(hl: u16, rhs: u16) -> (u16, bool) {
    (((hl + rhs) % 0x1_0000) as u16, hl + rhs > 0xFFFF)
}

/// Computes the parity flag of a byte.
pub fn parity(x: u8) -> (p: bool)
    ensures
        p == even_parity(x),
{
    let folded: u8 = x ^ (x >> 4);
    let folded: u8 = folded ^ (folded >> 2);
    let folded: u8 = folded ^ (folded >> 1);
    assert((((x ^ (x >> 4)) ^ ((x ^ (x >> 4)) >> 2)) ^ (((x ^ (x >> 4)) ^ ((x ^ (x >> 4)) >> 2))
        >> 1)) & 1 == (x % 2 + x / 2 % 2 + x / 4 % 2 + x / 8 % 2 + x / 16 % 2 + x / 32 % 2 + x / 64
        % 2 + x / 128) % 2) by (bit_vector);
    folded & 1 == 0
}

/// Zero, sign and parity of `value`, with the given carry and auxiliary carry.
pub fn flags_of(value: u8, cy: bool, ac: bool) -> (f: Flags)
    ensures
        f == result_flags(value, cy, ac),
{
    Flags { z: value == 0, s: value >= 0x80, p: parity(value), cy, ac }
}

/// Adds `b` and the incoming carry to `a`.
pub fn add_with_carry(a: u8, b: u8, carry: bool) -> (r: AluResult)
    ensures
        r == add_with_carry_spec(a, b, carry),
{
    let c: u8 = if carry { 1 } else { 0 };
    let total: u16 = a as u16 + b as u16 + c as u16;
    proof {
        lemma_masks(a, b, total);
    }
    let nibbles: u8 = (a & 0x0F) + (b & 0x0F) + c;
    let value: u8 = (total & 0xFF) as u8;
    AluResult { value, flags: flags_of(value, total > 0xFF, nibbles > 0x0F) }
}

/// Subtracts `b` and the incoming borrow from `a`.
pub fn sub_with_borrow(a: u8, b: u8, borrow: bool) -> (r: AluResult)
    ensures
        r == sub_with_borrow_spec(a, b, borrow),
{
    let c: u8 = if borrow { 1 } else { 0 };
    let taken: u16 = b as u16 + c as u16;
    let total: u16 = 0x100 + a as u16 - taken;
    proof {
        lemma_masks(a, b, total);
        if a >= taken {
            assert((a - taken) % 256 == a - taken);
            assert(total % 256 == a - taken);
        } else {
            assert((a - taken) % 256 == a - taken + 256);
            assert(total % 256 == total);
        }
    }
    let low_taken: u8 = (b & 0x0F) + c;
    let value: u8 = (total & 0xFF) as u8;
    AluResult { value, flags: flags_of(value, (a as u16) < taken, (a & 0x0F) < low_taken) }
}

/// Increments `x`, keeping the carry flag of `flags`.
pub fn increment(x: u8, flags: Flags) -> (r: AluResult)
    ensures
        r == increment_spec(x, flags),
{
    proof {
        lemma_masks(x, x, 0);
    }
    let value: u8 = x.wrapping_add(1);
    AluResult { value, flags: flags_of(value, flags.cy, x & 0x0F == 0x0F) }
}

/// Decrements `x`, keeping the carry flag of `flags`.
pub fn decrement(x: u8, flags: Flags) -> (r: AluResult)
    ensures
        r == decrement_spec(x, flags),
{
    proof {
        lemma_masks(x, x, 0);
    }
    let value: u8 = x.wrapping_sub(1);
    AluResult { value, flags: flags_of(value, flags.cy, x & 0x0F == 0) }
}

/// Sets the flags for `a - b` and leaves the value at `a`.
pub fn compare(a: u8, b: u8) -> (r: AluResult)
    ensures
        r == compare_spec(a, b),
{
    AluResult { value: a, flags: sub_with_borrow(a, b, false).flags }
}

/// Applies one of the eight accumulator operations.
pub fn accumulate(op: AluOp, a: u8, b: u8, flags: Flags) -> (r: AluResult)
    ensures
        r == accumulate_spec(op, a, b, flags),
{
    match op {
        AluOp::Add => add_with_carry(a, b, false),
        AluOp::AddCarry => add_with_carry(a, b, flags.cy),
        AluOp::Sub => sub_with_borrow(a, b, false),
        AluOp::SubBorrow => sub_with_borrow(a, b, flags.cy),
        AluOp::And => {
            let value: u8 = a & b;
            AluResult { value, flags: flags_of(value, false, false) }
        },
        AluOp::Xor => {
            let value: u8 = a ^ b;
            AluResult { value, flags: flags_of(value, false, false) }
        },
        AluOp::Or => {
            let value: u8 = a | b;
            AluResult { value, flags: flags_of(value, false, false) }
        },
        AluOp::Compare => compare(a, b),
    }
}

/// Rotates the accumulator left by one bit.
pub fn rotate_left(a: u8, flags: Flags) -> (r: AluResult)
    ensures
        r == rotate_left_spec(a, flags),
{
    assert((a << 1) | (a >> 7) == a * 2 % 256 + a / 128) by (bit_vector);
    AluResult { value: (a << 1) | (a >> 7), flags: Flags { cy: a >= 0x80, ..flags } }
}

/// Rotates the accumulator right by one bit.
pub fn rotate_right(a: u8, flags: Flags) -> (r: AluResult)
    ensures
        r == rotate_right_spec(a, flags),
{
    assert((a >> 1) | (a << 7) == a / 2 + a % 2 * 128 && (a & 1 == 1) == (a % 2 == 1))
        by (bit_vector);
    AluResult { value: (a >> 1) | (a << 7), flags: Flags { cy: a & 1 == 1, ..flags } }
}

/// Rotates the accumulator left by one bit through the carry flag.
pub fn rotate_left_through_carry(a: u8, flags: Flags) -> (r: AluResult)
    ensures
        r == rotate_left_through_carry_spec(a, flags),
{
    let c: u8 = if flags.cy { 1 } else { 0 };
    assert((a << 1) | c == a * 2 % 256 + c) by (bit_vector)
        requires
            c <= 1,
    ;
    AluResult { value: (a << 1) | c, flags: Flags { cy: a >= 0x80, ..flags } }
}

/// Rotates the accumulator right by one bit through the carry flag.
pub fn rotate_right_through_carry(a: u8, flags: Flags) -> (r: AluResult)
    ensures
        r == rotate_right_through_carry_spec(a, flags),
{
    let c: u8 = if flags.cy { 0x80 } else { 0 };
    assert((a >> 1) | c == a / 2 + c && (a & 1 == 1) == (a % 2 == 1)) by (bit_vector)
        requires
            c == 0x80 || c == 0,
    ;
    AluResult { value: (a >> 1) | c, flags: Flags { cy: a & 1 == 1, ..flags } }
}

/// Complements every bit of the accumulator.
pub fn complement(a: u8) -> (r: u8)
    ensures
        r == complement_spec(a),
{
    assert(!a == 255 - a) by (bit_vector);
    !a
}

/// Adjusts the accumulator to two packed decimal digits.
pub fn decimal_adjust(a: u8, flags: Flags) -> (r: AluResult)
    ensures
        r == decimal_adjust_spec(a, flags),
{
    let mut total: u16 = a as u16;
    let mut ac = false;
    proof {
        lemma_masks(a, a, 0);
    }
    if (a & 0x0F) > 9 || flags.ac {
        ac = (a & 0x0F) + 6 > 0x0F;
        total += 6;
    }
    assert(total >> 4 == total / 16) by (bit_vector);
    if (total >> 4) > 9 || flags.cy {
        total += 0x60;
    }
    proof {
        lemma_masks(a, a, total);
    }
    let value: u8 = (total & 0xFF) as u8;
    AluResult { value, flags: flags_of(value, flags.cy || total > 0xFF, ac) }
}

/// Adds a sixteen-bit operand to HL, returning the sum and the carry.
pub fn double_add(hl: u16, rhs: u16) -> (r: (u16, bool))
    ensures
        r == double_add_spec(hl, rhs),
{
    let total: u32 = hl as u32 + rhs as u32;
    assert(total & 0xFFFF == total % 0x1_0000) by (bit_vector);
    ((total & 0xFFFF) as u16, total > 0xFFFF)
}

/// Masking with 0x0F keeps the low nibble and masking with 0xFF the low byte.
proof fn lemma_masks(a: u8, b: u8, wide: u16)
    ensures
        a & 0x0F == a % 16,
        b & 0x0F == b % 16,
        wide & 0xFF == wide % 256,
{
    assert(a & 0x0F == a % 16 && b & 0x0F == b % 16 && wide & 0xFF == wide % 256)
        by (bit_vector);
}

} // verus!
