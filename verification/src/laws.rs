//! Properties of the model that hold for every state and every operand.

use crate::alu::{
    accumulate_spec, add_with_carry_spec, decimal_adjust_spec, decrement_spec, even_parity,
    increment_spec, sub_with_borrow_spec, AluOp,
};
use crate::error::CpuError;
use crate::flags::{lemma_psw_round_trip, Flags};
use crate::instruction::{cycles_spec, taken_spec, Instruction, Operand, StackPair};
use crate::memory::{store_word, word_at};
use crate::registers::{lemma_offset_sum, lemma_word_bytes, offset_spec, Registers};
use crate::state::{current, operand_lo, step, step_result, State, StepOutcome};
use vstd::prelude::*;

verus! {

/// The remainder of `x` by `d`, given the multiple of `d` at or below `x`.
proof fn lemma_remainder(x: int, d: int, q: int)
    requires
        d > 0,
        q * d <= x < q * d + d,
    ensures
        x % d == x - q * d,
{
    vstd::arithmetic::div_mod::lemma_fundamental_div_mod_converse(x, d, q, x - q * d);
}

/// Subtracting `b` and the borrow `c` from the sum of `a`, `b` and the carry
/// `c` gives `a` back. The subtraction borrows exactly when the addition
/// carried, out of bit 7 and out of the low nibble alike.
pub proof fn lemma_add_sub_round_trip(a: u8, b: u8, c: bool)
    ensures
        sub_with_borrow_spec(add_with_carry_spec(a, b, c).value, b, c).value == a,
        sub_with_borrow_spec(add_with_carry_spec(a, b, c).value, b, c).flags.cy
            == add_with_carry_spec(a, b, c).flags.cy,
        sub_with_borrow_spec(add_with_carry_spec(a, b, c).value, b, c).flags.ac
            == add_with_carry_spec(a, b, c).flags.ac,
{
    let carry: int = if c { 1 } else { 0 };
    let total = a + b + carry;
    let wrap: int = if total > 255 { 1 } else { 0 };
    lemma_remainder(total, 256, wrap);
    let sum = total - 256 * wrap;
    lemma_remainder(sum - (b + carry), 256, -wrap);
    let a_low = a as int % 16;
    let b_low = b as int % 16;
    let nibbles = a_low + b_low + carry;
    let half: int = if nibbles > 15 { 1 } else { 0 };
    lemma_remainder(a as int, 16, a as int / 16);
    lemma_remainder(b as int, 16, b as int / 16);
    lemma_remainder(sum, 16, a as int / 16 + b as int / 16 + half - 16 * wrap);
}

/// ADD of an operand other than the accumulator followed at once by SUB of
/// the same operand restores the accumulator, and the SUB leaves the carry
/// and the auxiliary carry as the ADD set them.
pub proof fn lemma_add_then_sub(s: State, o: Operand)
    requires
        s.wf(),
        !s.halted,
        o != Operand::A,
        current(s) == Instruction::Alu(AluOp::Add, o),
        current(step(s)) == Instruction::Alu(AluOp::Sub, o),
    ensures
        step(step(s)).regs.a == s.regs.a,
        step(step(s)).flags.cy == step(s).flags.cy,
        step(step(s)).flags.ac == step(s).flags.ac,
{
    lemma_add_sub_round_trip(s.regs.a, s.operand(o), false);
}

/// Every ALU operation that sets the parity flag sets it to the parity of
/// its result: the flag is set exactly when the result has an even number of
/// set bits.
pub proof fn lemma_parity_of_result(a: u8, b: u8, flags: Flags, op: AluOp)
    ensures
        add_with_carry_spec(a, b, flags.cy).flags.p == even_parity(
            add_with_carry_spec(a, b, flags.cy).value,
        ),
        sub_with_borrow_spec(a, b, flags.cy).flags.p == even_parity(
            sub_with_borrow_spec(a, b, flags.cy).value,
        ),
        increment_spec(a, flags).flags.p == even_parity(increment_spec(a, flags).value),
        decrement_spec(a, flags).flags.p == even_parity(decrement_spec(a, flags).value),
        decimal_adjust_spec(a, flags).flags.p == even_parity(decimal_adjust_spec(a, flags).value),
        op != AluOp::Compare ==> accumulate_spec(op, a, b, flags).flags.p == even_parity(
            accumulate_spec(op, a, b, flags).value,
        ),
        accumulate_spec(AluOp::Compare, a, b, flags).flags.p == even_parity(
            sub_with_borrow_spec(a, b, false).value,
        ),
{
}

/// After an instruction that sets the parity flag, the flag is the parity of
/// what the instruction produced: the accumulator after an accumulator
/// operation or DAA, the operand after INR and DCR, and the difference that
/// a comparison discards.
pub proof fn lemma_parity_after_step(s: State, op: AluOp, o: Operand)
    requires
        s.wf(),
        !s.halted,
    ensures
        current(s) == Instruction::Alu(op, o) && op != AluOp::Compare ==> step(s).flags.p
            == even_parity(step(s).regs.a),
        current(s) == Instruction::AluImm(op) && op != AluOp::Compare ==> step(s).flags.p
            == even_parity(step(s).regs.a),
        current(s) == Instruction::Daa ==> step(s).flags.p == even_parity(step(s).regs.a),
        current(s) == Instruction::Inr(o) ==> step(s).flags.p == even_parity(step(s).operand(o)),
        current(s) == Instruction::Dcr(o) ==> step(s).flags.p == even_parity(step(s).operand(o)),
        current(s) == Instruction::Alu(AluOp::Compare, o) ==> step(s).flags.p == even_parity(
            sub_with_borrow_spec(s.regs.a, s.operand(o), false).value,
        ),
        current(s) == Instruction::AluImm(AluOp::Compare) ==> step(s).flags.p == even_parity(
            sub_with_borrow_spec(s.regs.a, operand_lo(s), false).value,
        ),
{
}

/// INR and DCR leave the carry flag as it was, whatever the operand holds.
pub proof fn lemma_inr_dcr_keep_carry(s: State)
    requires
        current(s) is Inr || current(s) is Dcr,
    ensures
        step(s).flags.cy == s.flags.cy,
{
}

/// The instructions that change a flag: the arithmetic and logic
/// operations, the rotates, DAD, STC, CMC, and POP PSW.
pub open spec fn changes_flags(instr: Instruction) -> bool {
    match instr {
        Instruction::Dad(_)
        | Instruction::Inr(_)
        | Instruction::Dcr(_)
        | Instruction::Rlc
        | Instruction::Rrc
        | Instruction::Ral
        | Instruction::Rar
        | Instruction::Daa
        | Instruction::Stc
        | Instruction::Cmc
        | Instruction::Alu(_, _)
        | Instruction::AluImm(_) => true,
        Instruction::Pop(p) => p == StackPair::PSW,
        _ => false,
    }
}

/// An instruction that is not documented to touch the flags leaves all five
/// as they were.
pub proof fn lemma_flags_untouched(s: State)
    requires
        !changes_flags(current(s)),
    ensures
        step(s).flags == s.flags,
{
}

/// The rotates, DAD, STC and CMC change no flag but the carry.
pub proof fn lemma_only_carry_changes(s: State)
    requires
        current(s) is Rlc || current(s) is Rrc || current(s) is Ral || current(s) is Rar
            || current(s) is Dad || current(s) is Stc || current(s) is Cmc,
    ensures
        step(s).flags == (Flags { cy: step(s).flags.cy, ..s.flags }),
{
}

/// The word read at an address is the word stored there last.
pub proof fn lemma_store_then_read(mem: Seq<u8>, addr: u16, w: u16)
    requires
        mem.len() == 0x1_0000,
    ensures
        word_at(store_word(mem, addr, w), addr) == w,
        store_word(mem, addr, w).len() == mem.len(),
{
    lemma_word_bytes(w, 0, 0);
    assert(offset_spec(addr, 1) != addr);
}

/// A pushed word is on top of the stack, and dropping it puts the stack
/// pointer back.
pub proof fn lemma_pushed_popped(s: State, w: u16)
    requires
        s.wf(),
    ensures
        s.pushed(w).top() == w,
        s.pushed(w).popped().regs.sp == s.regs.sp,
        s.pushed(w).popped().regs == s.regs,
{
    let sp = offset_spec(s.regs.sp, -2);
    lemma_store_then_read(s.mem, sp, w);
    lemma_offset_sum(s.regs.sp, -2, 2);
}

/// PUSH of a stack pair followed at once by POP of the same pair restores
/// the pair, and with it every register and every flag, and leaves the
/// stack pointer where it was. For PSW the accumulator and all five flags
/// come back through the packed status word.
pub proof fn lemma_push_then_pop(s: State, p: StackPair)
    requires
        s.wf(),
        !s.halted,
        current(s) == Instruction::Push(p),
        current(step(s)) == Instruction::Pop(p),
    ensures
        step(step(s)).stack_pair(p) == s.stack_pair(p),
        step(step(s)).regs.sp == s.regs.sp,
        step(step(s)).flags == s.flags,
        step(step(s)).regs == (Registers { pc: offset_spec(s.regs.pc, 2), ..s.regs }),
{
    let w = s.stack_pair(p);
    lemma_pushed_popped(s.with_pc(offset_spec(s.regs.pc, 1)), w);
    lemma_offset_sum(s.regs.pc, 1, 1);
    lemma_psw_round_trip(s.flags);
    lemma_word_bytes(w, s.regs.a, s.flags.psw());
    lemma_word_bytes(w, s.regs.b, s.regs.c);
    lemma_word_bytes(w, s.regs.d, s.regs.e);
    lemma_word_bytes(w, s.regs.h, s.regs.l);
}

/// CALL followed at once by RET goes on at the instruction behind the
/// three-byte CALL and leaves the stack pointer where it was.
pub proof fn lemma_call_then_ret(s: State)
    requires
        s.wf(),
        !s.halted,
        current(s) == Instruction::Call,
        current(step(s)) == Instruction::Ret,
    ensures
        step(step(s)).regs.pc == offset_spec(s.regs.pc, 3),
        step(step(s)).regs.sp == s.regs.sp,
{
    let fetched = s.with_pc(offset_spec(s.regs.pc, 3));
    lemma_pushed_popped(fetched, fetched.regs.pc);
}

/// A step keeps the memory at its full size.
pub proof fn lemma_step_wf(s: State)
    requires
        s.wf(),
    ensures
        step(s).wf(),
{
}

/// A step reports nothing but a halt as an error: every opcode selects an
/// instruction and every address is in range.
pub proof fn lemma_step_errors(s: State)
    ensures
        step_result(s) is Err ==> step_result(s) == Err::<StepOutcome, CpuError>(
            CpuError::HaltRequested,
        ),
        step_result(s) is Err <==> step(s).halted,
{
}

/// The cycle counter never goes down. While it has room, a step of a
/// running processor adds the cost of its instruction, between 4 and 18
/// cycles; a halted processor adds nothing.
pub proof fn lemma_cycles_grow(s: State)
    ensures
        step(s).cycles >= s.cycles,
        s.halted ==> step(s).cycles == s.cycles,
        !s.halted && s.cycles + 18 <= u64::MAX ==> step(s).cycles == s.cycles + cycles_spec(
            current(s),
            taken_spec(current(s), s.flags),
        ) && 4 <= step(s).cycles - s.cycles <= 18,
{
}

} // verus!
