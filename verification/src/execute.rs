//! The execution unit: fetch, decode, execute.

use crate::alu::{
    accumulate, complement, decimal_adjust, decrement, double_add, increment, rotate_left,
    rotate_left_through_carry, rotate_right, rotate_right_through_carry,
};
use crate::cpu::CPU;
use crate::error::CpuError;
use crate::flags::Flags;
use crate::instruction::{decode, operand_len_spec, Instruction, Operand};
use crate::registers::{advance, lemma_offset_sum, offset_spec, retreat, word, RegPair};
use crate::state::{apply, step, step_result, StepOutcome, INPUT_DEFAULT};
use vstd::prelude::*;

verus! {

impl CPU {
    /// Reads the opcode at the program counter and moves the counter on.
    fn fetch(&mut self) -> (opcode: u8)
        ensures
            opcode == old(self)@.mem[old(self)@.regs.pc as int],
            final(self)@ == old(self)@.with_pc(offset_spec(old(self)@.regs.pc, 1)),
    {
        let pc: u16 = self.registers().pc;
        let opcode: u8 = self.read_byte(pc);
        self.jump(advance(pc, 1));
        opcode
    }

    /// Carries out an instruction that moves data between registers and
    /// memory.
    fn execute_transfer(&mut self, instr: Instruction, lo: u8, hi: u8)
        requires
            instr is Nop || instr is Lxi || instr is Stax || instr is Ldax || instr is Mvi ||
            instr is Shld || instr is Lhld || instr is Sta || instr is Lda || instr is Mov ||
            instr is Xchg || instr is Sphl,
        ensures
            final(self)@ == apply(old(self)@, instr, lo, hi),
    {
        let a: u8 = self.registers().a;
        match instr {
            Instruction::Nop => {},
            Instruction::Lxi(rp) => {
                self.set_pair(rp, word(hi, lo));
            },
            Instruction::Stax(rp) => {
                self.write_byte(self.pair(rp), a);
            },
            Instruction::Ldax(rp) => {
                let v: u8 = self.read_byte(self.pair(rp));
                self.set_operand(Operand::A, v);
            },
            Instruction::Mvi(o) => {
                self.set_operand(o, lo);
            },
            Instruction::Shld => {
                self.write_word(word(hi, lo), self.pair(RegPair::HL));
            },
            Instruction::Lhld => {
                let w: u16 = self.read_word(word(hi, lo));
                self.set_pair(RegPair::HL, w);
            },
            Instruction::Sta => {
                self.write_byte(word(hi, lo), a);
            },
            Instruction::Lda => {
                let v: u8 = self.read_byte(word(hi, lo));
                self.set_operand(Operand::A, v);
            },
            Instruction::Mov(dst, src) => {
                let v: u8 = self.operand(src);
                self.set_operand(dst, v);
            },
            Instruction::Xchg => {
                let hl: u16 = self.pair(RegPair::HL);
                let de: u16 = self.pair(RegPair::DE);
                self.set_pair(RegPair::HL, de);
                self.set_pair(RegPair::DE, hl);
            },
            Instruction::Sphl => {
                self.set_pair(RegPair::SP, self.pair(RegPair::HL));
            },
            _ => {},
        }
    }

    /// Carries out an instruction that computes: arithmetic, logic, rotates
    /// and the carry flag.
    fn execute_arithmetic(&mut self, instr: Instruction, lo: u8, hi: u8)
        requires
            instr is Inx || instr is Dcx || instr is Dad || instr is Inr || instr is Dcr ||
            instr is Rlc || instr is Rrc || instr is Ral || instr is Rar || instr is Daa ||
            instr is Cma || instr is Stc || instr is Cmc || instr is Alu || instr is AluImm,
        ensures
            final(self)@ == apply(old(self)@, instr, lo, hi),
    {
        let a: u8 = self.registers().a;
        let flags: Flags = self.flags();
        match instr {
            Instruction::Inx(rp) => {
                self.set_pair(rp, advance(self.pair(rp), 1));
            },
            Instruction::Dcx(rp) => {
                self.set_pair(rp, retreat(self.pair(rp), 1));
            },
            Instruction::Dad(rp) => {
                let sum = double_add(self.pair(RegPair::HL), self.pair(rp));
                self.set_pair(RegPair::HL, sum.0);
                self.set_carry(sum.1);
            },
            Instruction::Inr(o) => {
                let r = increment(self.operand(o), flags);
                self.set_operand(o, r.value);
                self.set_flags(r.flags);
            },
            Instruction::Dcr(o) => {
                let r = decrement(self.operand(o), flags);
                self.set_operand(o, r.value);
                self.set_flags(r.flags);
            },
            Instruction::Rlc => {
                self.set_result(rotate_left(a, flags));
            },
            Instruction::Rrc => {
                self.set_result(rotate_right(a, flags));
            },
            Instruction::Ral => {
                self.set_result(rotate_left_through_carry(a, flags));
            },
            Instruction::Rar => {
                self.set_result(rotate_right_through_carry(a, flags));
            },
            Instruction::Daa => {
                self.set_result(decimal_adjust(a, flags));
            },
            Instruction::Cma => {
                self.set_operand(Operand::A, complement(a));
            },
            Instruction::Stc => {
                self.set_carry(true);
            },
            Instruction::Cmc => {
                self.set_carry(!flags.cy);
            },
            Instruction::Alu(op, o) => {
                let r = accumulate(op, a, self.operand(o), flags);
                self.set_result(r);
            },
            Instruction::AluImm(op) => {
                self.set_result(accumulate(op, a, lo, flags));
            },
            _ => {},
        }
    }

    /// Carries out an instruction of the control-flow and stack unit, the
    /// input/output trap or the interrupt enable.
    fn execute_control(&mut self, instr: Instruction, lo: u8, hi: u8)
        requires
            instr is Ret || instr is RetIf || instr is Jmp || instr is JmpIf ||
            instr is Call || instr is CallIf || instr is Rst || instr is Pop ||
            instr is Push || instr is Xthl || instr is Pchl || instr is Hlt || instr is Out ||
            instr is In || instr is Di || instr is Ei,
        ensures
            final(self)@ == apply(old(self)@, instr, lo, hi),
    {
        match instr {
            Instruction::Ret | Instruction::RetIf(_) => {
                self.ret();
            },
            Instruction::Jmp | Instruction::JmpIf(_) => {
                self.jump(word(hi, lo));
            },
            Instruction::Call | Instruction::CallIf(_) => {
                self.call(word(hi, lo));
            },
            Instruction::Rst(n) => {
                self.call(n as u16 * 8);
            },
            Instruction::Pop(p) => {
                let w: u16 = self.pop();
                self.set_stack_pair(p, w);
            },
            Instruction::Push(p) => {
                let w: u16 = self.stack_pair(p);
                self.push(w);
            },
            Instruction::Xthl => {
                let hl: u16 = self.pair(RegPair::HL);
                let top: u16 = self.read_word(self.pair(RegPair::SP));
                self.write_word(self.pair(RegPair::SP), hl);
                self.set_pair(RegPair::HL, top);
            },
            Instruction::Pchl => {
                self.jump(self.pair(RegPair::HL));
            },
            Instruction::Hlt => {
                self.set_halted(true);
            },
            Instruction::Out => {
                self.set_out_port(lo);
            },
            Instruction::In => {
                self.set_operand(Operand::A, INPUT_DEFAULT);
            },
            Instruction::Di => {
                self.set_interrupts(false);
            },
            Instruction::Ei => {
                self.set_interrupts(true);
            },
            _ => {},
        }
    }

    /// Carries out one decoded instruction whose operand bytes are `lo` and
    /// `hi`.
    pub(crate) fn execute(&mut self, instr: Instruction, lo: u8, hi: u8)
        ensures
            final(self)@ == apply(old(self)@, instr, lo, hi),
    {
        match instr {
            Instruction::Nop
            | Instruction::Lxi(_)
            | Instruction::Stax(_)
            | Instruction::Ldax(_)
            | Instruction::Mvi(_)
            | Instruction::Shld
            | Instruction::Lhld
            | Instruction::Sta
            | Instruction::Lda
            | Instruction::Mov(_, _)
            | Instruction::Xchg
            | Instruction::Sphl => self.execute_transfer(instr, lo, hi),
            Instruction::Inx(_)
            | Instruction::Dcx(_)
            | Instruction::Dad(_)
            | Instruction::Inr(_)
            | Instruction::Dcr(_)
            | Instruction::Rlc
            | Instruction::Rrc
            | Instruction::Ral
            | Instruction::Rar
            | Instruction::Daa
            | Instruction::Cma
            | Instruction::Stc
            | Instruction::Cmc
            | Instruction::Alu(_, _)
            | Instruction::AluImm(_) => self.execute_arithmetic(instr, lo, hi),
            _ => self.execute_control(instr, lo, hi),
        }
    }

    /// Performs one fetch-decode-execute cycle. Returns what the host has to
    /// do next: nothing, service an input or output port, or deal with a
    /// halt. A halted processor does nothing until an interrupt is accepted.
    pub fn tick(&mut self) -> (r: Result<StepOutcome, CpuError>)
        ensures
            final(self)@ == step(old(self)@),
            r == step_result(old(self)@),
    {
        if self.is_halted() {
            return Err(CpuError::HaltRequested);
        }
        let a: u8 = self.registers().a;
        let flags: Flags = self.flags();
        let opcode: u8 = self.fetch();
        let instr: Instruction = decode(opcode);
        let lo: u8 = self.read_byte(self.registers().pc);
        let hi: u8 = self.read_byte(advance(self.registers().pc, 1));
        self.jump(advance(self.registers().pc, instr.operand_len()));
        proof {
            let pc = old(self)@.regs.pc;
            lemma_offset_sum(pc, 1, 1);
            lemma_offset_sum(pc, 1, operand_len_spec(instr) as int);
        }
        let taken: bool = instr.taken(&flags);
        if taken {
            self.execute(instr, lo, hi);
        }
        self.charge(instr.cycles(taken));
        match instr {
            Instruction::Hlt => Err(CpuError::HaltRequested),
            Instruction::In => Ok(StepOutcome::Input { port: lo }),
            Instruction::Out => Ok(StepOutcome::Output { port: lo, value: a }),
            _ => Ok(StepOutcome::Continue),
        }
    }
}

} // verus!
