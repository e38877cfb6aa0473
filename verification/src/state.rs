//! The mathematical model of the machine: its state as plain values and a
//! sequence of bytes, and the transition that one instruction makes.
//!
//! The functions of [`crate::cpu::CPU`] are stated in terms of this model:
//! the view of a processor is a [`State`], and a call of `tick` takes it to
//! [`step`] of that state.

use crate::alu::{
    accumulate_spec, complement_spec, decimal_adjust_spec, decrement_spec, double_add_spec,
    increment_spec, rotate_left_spec, rotate_left_through_carry_spec, rotate_right_spec,
    rotate_right_through_carry_spec, AluResult,
};
use crate::error::CpuError;
use crate::flags::Flags;
use crate::instruction::{
    cycles_spec, decode_spec, operand_len_spec, taken_spec, Instruction, Operand, StackPair,
};
use crate::memory::{fits, loaded, store_word, word_at, MEMORY_SIZE};
use crate::registers::{high_spec, low_spec, offset_spec, word_spec, RegPair, Registers};
use vstd::prelude::*;

verus! {

/// What IN leaves in the accumulator until the host supplies the byte that
/// the port delivered.
pub const INPUT_DEFAULT: u8 = 0xFF;

/// What a step that ran to its end asks of the host.
#[derive(Clone, Copy, Debug, PartialEq, Eq, Structural)]
pub enum StepOutcome {
    /// Nothing: go on with the next step.
    Continue,
    /// IN was executed: the host reads the port and hands the byte over.
    Input { port: u8 },
    /// OUT was executed: the host sends `value` to the port.
    Output { port: u8, value: u8 },
}

/// The state of the machine.
pub struct State {
    pub regs: Registers,
    pub flags: Flags,
    /// The memory, one byte per address.
    pub mem: Seq<u8>,
    pub int_enabled: bool,
    /// Set by HLT, cleared by an accepted interrupt.
    pub halted: bool,
    /// Clock cycles elapsed; stays at the largest value once reached.
    pub cycles: u64,
    /// The vector of the interrupt accepted last, if any.
    pub last_interrupt: Option<u16>,
    /// The port that OUT addressed last, if any.
    pub out_port: Option<u8>,
}

impl State {
    /// The memory covers the whole address space.
    pub open spec fn wf(self) -> bool {
        self.mem.len() == MEMORY_SIZE
    }

    /// The state after power-up: registers, flags and memory zero, interrupts
    /// enabled, running.
    pub open spec fn initial() -> State {
        State {
            regs: Registers::zeroed(),
            flags: Flags::cleared(),
            mem: Seq::new(MEMORY_SIZE as nat, |i: int| 0u8),
            int_enabled: true,
            halted: false,
            cycles: 0,
            last_interrupt: None,
            out_port: None,
        }
    }

    /// The address of the memory operand: the value of HL.
    pub open spec fn hl(self) -> u16 {
        self.regs.pair_spec(RegPair::HL)
    }

    /// The value of an eight-bit operand.
    pub open spec fn operand(self, o: Operand) -> u8 {
        match o {
            Operand::B => self.regs.b,
            Operand::C => self.regs.c,
            Operand::D => self.regs.d,
            Operand::E => self.regs.e,
            Operand::H => self.regs.h,
            Operand::L => self.regs.l,
            Operand::M => self.mem[self.hl() as int],
            Operand::A => self.regs.a,
        }
    }

    /// The state with operand `o` holding `v`.
    pub open spec fn with_operand(self, o: Operand, v: u8) -> State {
        match o {
            Operand::B => State { regs: Registers { b: v, ..self.regs }, ..self },
            Operand::C => State { regs: Registers { c: v, ..self.regs }, ..self },
            Operand::D => State { regs: Registers { d: v, ..self.regs }, ..self },
            Operand::E => State { regs: Registers { e: v, ..self.regs }, ..self },
            Operand::H => State { regs: Registers { h: v, ..self.regs }, ..self },
            Operand::L => State { regs: Registers { l: v, ..self.regs }, ..self },
            Operand::M => State { mem: self.mem.update(self.hl() as int, v), ..self },
            Operand::A => State { regs: Registers { a: v, ..self.regs }, ..self },
        }
    }

    /// The state with register pair `rp` holding `w`.
    pub open spec fn with_pair(self, rp: RegPair, w: u16) -> State {
        State { regs: self.regs.with_pair(rp, w), ..self }
    }

    /// The state with the program counter at `addr`.
    pub open spec fn with_pc(self, addr: u16) -> State {
        State { regs: Registers { pc: addr, ..self.regs }, ..self }
    }

    /// The state with the flags replaced.
    pub open spec fn with_flags(self, flags: Flags) -> State {
        State { flags, ..self }
    }

    /// The state with the carry flag replaced.
    pub open spec fn with_carry(self, cy: bool) -> State {
        State { flags: Flags { cy, ..self.flags }, ..self }
    }

    /// The state with `v` stored at `addr`.
    pub open spec fn with_byte(self, addr: u16, v: u8) -> State {
        State { mem: self.mem.update(addr as int, v), ..self }
    }

    /// The state with `w` stored at `addr`, low byte first.
    pub open spec fn with_word(self, addr: u16, w: u16) -> State {
        State { mem: store_word(self.mem, addr, w), ..self }
    }

    /// The state with the accumulator and the flags that an ALU operation
    /// produced.
    pub open spec fn with_result(self, r: AluResult) -> State {
        State { regs: Registers { a: r.value, ..self.regs }, flags: r.flags, ..self }
    }

    /// The word that PUSH stores for a stack pair.
    pub open spec fn stack_pair(self, p: StackPair) -> u16 {
        match p {
            StackPair::BC => self.regs.pair_spec(RegPair::BC),
            StackPair::DE => self.regs.pair_spec(RegPair::DE),
            StackPair::HL => self.regs.pair_spec(RegPair::HL),
            StackPair::PSW => word_spec(self.regs.a, self.flags.psw()),
        }
    }

    /// The state after POP has moved `w` into a stack pair.
    pub open spec fn with_stack_pair(self, p: StackPair, w: u16) -> State {
        match p {
            StackPair::BC => self.with_pair(RegPair::BC, w),
            StackPair::DE => self.with_pair(RegPair::DE, w),
            StackPair::HL => self.with_pair(RegPair::HL, w),
            StackPair::PSW => State {
                regs: Registers { a: high_spec(w), ..self.regs },
                flags: Flags::of_psw(low_spec(w)),
                ..self
            },
        }
    }

    /// The word on top of the stack: low byte at SP, high byte above it.
    pub open spec fn top(self) -> u16 {
        word_at(self.mem, self.regs.sp)
    }

    /// The state after `w` is pushed: SP goes down by two, then the low byte
    /// is stored at SP and the high byte above it.
    pub open spec fn pushed(self, w: u16) -> State {
        let sp = offset_spec(self.regs.sp, -2);
        self.with_pair(RegPair::SP, sp).with_word(sp, w)
    }

    /// The state after the top of the stack is dropped: SP goes up by two.
    pub open spec fn popped(self) -> State {
        self.with_pair(RegPair::SP, offset_spec(self.regs.sp, 2))
    }

    /// The state after a call to `target`: the program counter is pushed and
    /// then set to `target`.
    pub open spec fn called(self, target: u16) -> State {
        self.pushed(self.regs.pc).with_pc(target)
    }

    /// The state after a return: the program counter is popped.
    pub open spec fn returned(self) -> State {
        self.popped().with_pc(self.top())
    }

    /// The state with `n` more cycles on the counter.
    pub open spec fn charged(self, n: u64) -> State {
        State {
            cycles: if self.cycles + n > u64::MAX {
                u64::MAX
            } else {
                (self.cycles + n) as u64
            },
            ..self
        }
    }

    /// The state after the host has supplied the byte that an input port
    /// delivered.
    pub open spec fn with_input(self, value: u8) -> State {
        self.with_operand(Operand::A, value)
    }

    /// The state after an interrupt at `vector` is accepted: a call to
    /// `vector`, with interrupts disabled and the processor running.
    pub open spec fn interrupted(self, vector: u16) -> State {
        State {
            int_enabled: false,
            halted: false,
            last_interrupt: Some(vector),
            ..self.called(vector)
        }
    }
}

/// What an instruction does to the state once its operand bytes `lo` and `hi`
/// are fetched and the program counter stands behind them. Conditions are
/// not looked at here: [`step`] applies a conditional branch only when it is
/// taken.
pub open spec fn apply(s: State, instr: Instruction, lo: u8, hi: u8) -> State {
    let imm = word_spec(hi, lo);
    let a = s.regs.a;
    match instr {
        Instruction::Nop => s,
        Instruction::Lxi(rp) => s.with_pair(rp, imm),
        Instruction::Stax(rp) => s.with_byte(s.regs.pair_spec(rp), a),
        Instruction::Ldax(rp) => s.with_operand(Operand::A, s.mem[s.regs.pair_spec(rp) as int]),
        Instruction::Inx(rp) => s.with_pair(rp, offset_spec(s.regs.pair_spec(rp), 1)),
        Instruction::Dcx(rp) => s.with_pair(rp, offset_spec(s.regs.pair_spec(rp), -1)),
        Instruction::Dad(rp) => {
            let sum = double_add_spec(s.hl(), s.regs.pair_spec(rp));
            s.with_pair(RegPair::HL, sum.0).with_carry(sum.1)
        },
        Instruction::Inr(o) => {
            let r = increment_spec(s.operand(o), s.flags);
            s.with_operand(o, r.value).with_flags(r.flags)
        },
        Instruction::Dcr(o) => {
            let r = decrement_spec(s.operand(o), s.flags);
            s.with_operand(o, r.value).with_flags(r.flags)
        },
        Instruction::Mvi(o) => s.with_operand(o, lo),
        Instruction::Rlc => s.with_result(rotate_left_spec(a, s.flags)),
        Instruction::Rrc => s.with_result(rotate_right_spec(a, s.flags)),
        Instruction::Ral => s.with_result(rotate_left_through_carry_spec(a, s.flags)),
        Instruction::Rar => s.with_result(rotate_right_through_carry_spec(a, s.flags)),
        Instruction::Shld => s.with_word(imm, s.hl()),
        Instruction::Lhld => s.with_pair(RegPair::HL, word_at(s.mem, imm)),
        Instruction::Sta => s.with_byte(imm, a),
        Instruction::Lda => s.with_operand(Operand::A, s.mem[imm as int]),
        Instruction::Daa => s.with_result(decimal_adjust_spec(a, s.flags)),
        Instruction::Cma => s.with_operand(Operand::A, complement_spec(a)),
        Instruction::Stc => s.with_carry(true),
        Instruction::Cmc => s.with_carry(!s.flags.cy),
        Instruction::Mov(dst, src) => s.with_operand(dst, s.operand(src)),
        Instruction::Hlt => State { halted: true, ..s },
        Instruction::Alu(op, o) => s.with_result(accumulate_spec(op, a, s.operand(o), s.flags)),
        Instruction::AluImm(op) => s.with_result(accumulate_spec(op, a, lo, s.flags)),
        Instruction::Ret | Instruction::RetIf(_) => s.returned(),
        Instruction::Jmp | Instruction::JmpIf(_) => s.with_pc(imm),
        Instruction::Call | Instruction::CallIf(_) => s.called(imm),
        Instruction::Rst(n) => s.called((n as u16 * 8) as u16),
        Instruction::Pop(p) => s.popped().with_stack_pair(p, s.top()),
        Instruction::Push(p) => s.pushed(s.stack_pair(p)),
        Instruction::Out => State { out_port: Some(lo), ..s },
        Instruction::In => s.with_operand(Operand::A, INPUT_DEFAULT),
        Instruction::Xthl => s.with_word(s.regs.sp, s.hl()).with_pair(RegPair::HL, s.top()),
        Instruction::Xchg => s.with_pair(RegPair::HL, s.regs.pair_spec(RegPair::DE)).with_pair(
            RegPair::DE,
            s.hl(),
        ),
        Instruction::Pchl => s.with_pc(s.hl()),
        Instruction::Sphl => s.with_pair(RegPair::SP, s.hl()),
        Instruction::Di => State { int_enabled: false, ..s },
        Instruction::Ei => State { int_enabled: true, ..s },
    }
}

/// The opcode byte at the program counter.
pub open spec fn opcode_at_pc(s: State) -> u8 {
    s.mem[s.regs.pc as int]
}

/// The instruction at the program counter.
pub open spec fn current(s: State) -> Instruction {
    decode_spec(opcode_at_pc(s))
}

/// The first operand byte of the instruction at the program counter.
pub open spec fn operand_lo(s: State) -> u8 {
    s.mem[offset_spec(s.regs.pc, 1) as int]
}

/// The second operand byte of the instruction at the program counter.
pub open spec fn operand_hi(s: State) -> u8 {
    s.mem[offset_spec(s.regs.pc, 2) as int]
}

/// One fetch-decode-execute cycle. A halted processor stays as it is.
/// Otherwise the instruction at the program counter is decoded, the program
/// counter moves behind its operand bytes, the instruction is applied if it
/// is taken, and its cycles are charged.
pub open spec fn step(s: State) -> State {
    if s.halted {
        s
    } else {
        let instr = current(s);
        let taken = taken_spec(instr, s.flags);
        let fetched = s.with_pc(offset_spec(s.regs.pc, 1 + operand_len_spec(instr)));
        let done = if taken {
            apply(fetched, instr, operand_lo(s), operand_hi(s))
        } else {
            fetched
        };
        done.charged(cycles_spec(instr, taken))
    }
}

/// What a step reports: a halt when the processor is or becomes halted, a
/// request to the host after IN and OUT, and nothing else otherwise.
pub open spec fn step_result(s: State) -> Result<StepOutcome, CpuError> {
    if s.halted {
        Err(CpuError::HaltRequested)
    } else {
        match current(s) {
            Instruction::Hlt => Err(CpuError::HaltRequested),
            Instruction::In => Ok(StepOutcome::Input { port: operand_lo(s) }),
            Instruction::Out => Ok(StepOutcome::Output { port: operand_lo(s), value: s.regs.a }),
            _ => Ok(StepOutcome::Continue),
        }
    }
}

/// The state after an interrupt at `vector` is injected: accepted when
/// interrupts are enabled, without effect when they are not.
pub open spec fn inject(s: State, vector: u16) -> State {
    if s.int_enabled {
        s.interrupted(vector)
    } else {
        s
    }
}

/// What an injected interrupt returns: success exactly when interrupts are
/// enabled.
pub open spec fn inject_result(s: State) -> Result<(), CpuError> {
    if s.int_enabled {
        Ok(())
    } else {
        Err(CpuError::InterruptRejected)
    }
}

/// What a load of `len` bytes at `offset` returns: success exactly when the
/// bytes fit into the address space.
pub open spec fn load_result(len: int, offset: int) -> Result<(), CpuError> {
    if fits(len, offset) {
        Ok(())
    } else {
        Err(CpuError::OutOfBounds)
    }
}

/// The state after a load of `data` at `offset`: the bytes are in memory
/// when they fit, and nothing has changed when they do not.
pub open spec fn load_state(s: State, data: Seq<u8>, offset: int) -> State {
    if fits(data.len() as int, offset) {
        State { mem: loaded(s.mem, data, offset), ..s }
    } else {
        s
    }
}

} // verus!
