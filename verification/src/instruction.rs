//! The instruction set: what each opcode byte selects, how many operand
//! bytes follow it, and what it costs in clock cycles.
//!
//! [`decode_spec`] defines the opcode map by the bit fields of the opcode;
//! [`decode`] is the dispatch table, one entry per opcode byte, proved to
//! agree with it on all 256 values.

use crate::alu::AluOp;
use crate::flags::{Cond, Flags};
use crate::registers::RegPair;
use vstd::prelude::*;

verus! {

/// An eight-bit operand: one of the seven registers, or `M`, the byte of
/// memory that HL addresses.
#[derive(Clone, Copy, Debug, PartialEq, Eq, Structural)]
pub enum Operand {
    B,
    C,
    D,
    E,
    H,
    L,
    M,
    A,
}

/// The sixteen-bit values that PUSH and POP move. `PSW` is the accumulator
/// (high byte) with the packed flags (low byte).
#[derive(Clone, Copy, Debug, PartialEq, Eq, Structural)]
pub enum StackPair {
    BC,
    DE,
    HL,
    PSW,
}

/// One instruction, as the decoder hands it to the execution unit.
#[derive(Clone, Copy, Debug, PartialEq, Eq, Structural)]
pub enum Instruction {
    Nop,
    /// Load a register pair with the immediate word.
    Lxi(RegPair),
    /// Store the accumulator at the address in a register pair.
    Stax(RegPair),
    /// Load the accumulator from the address in a register pair.
    Ldax(RegPair),
    Inx(RegPair),
    Dcx(RegPair),
    /// Add a register pair to HL.
    Dad(RegPair),
    Inr(Operand),
    Dcr(Operand),
    /// Move the immediate byte to an operand.
    Mvi(Operand),
    Rlc,
    Rrc,
    Ral,
    Rar,
    /// Store HL at the immediate address.
    Shld,
    /// Load HL from the immediate address.
    Lhld,
    /// Store the accumulator at the immediate address.
    Sta,
    /// Load the accumulator from the immediate address.
    Lda,
    Daa,
    Cma,
    Stc,
    Cmc,
    /// Move to the first operand from the second.
    Mov(Operand, Operand),
    Hlt,
    /// An accumulator operation with a register or memory operand.
    Alu(AluOp, Operand),
    /// An accumulator operation with the immediate byte.
    AluImm(AluOp),
    Ret,
    RetIf(Cond),
    Jmp,
    JmpIf(Cond),
    Call,
    CallIf(Cond),
    /// Call the fixed address eight times the number.
    Rst(u8),
    Pop(StackPair),
    Push(StackPair),
    /// Output the accumulator to the port named by the immediate byte.
    Out,
    /// Input the accumulator from the port named by the immediate byte.
    In,
    /// Exchange HL with the word on top of the stack.
    Xthl,
    /// Exchange HL with DE.
    Xchg,
    /// Jump to the address in HL.
    Pchl,
    /// Load the stack pointer from HL.
    Sphl,
    Di,
    Ei,
}

/// The operand that a three-bit register field selects.
pub open spec fn operand_of(field: u8) -> Operand {
    if field == 0 {
        Operand::B
    } else if field == 1 {
        Operand::C
    } else if field == 2 {
        Operand::D
    } else if field == 3 {
        Operand::E
    } else if field == 4 {
        Operand::H
    } else if field == 5 {
        Operand::L
    } else if field == 6 {
        Operand::M
    } else {
        Operand::A
    }
}

/// The register pair that a two-bit pair field selects.
pub open spec fn pair_of(field: u8) -> RegPair {
    if field == 0 {
        RegPair::BC
    } else if field == 1 {
        RegPair::DE
    } else if field == 2 {
        RegPair::HL
    } else {
        RegPair::SP
    }
}

/// The stack pair that a two-bit pair field selects.
pub open spec fn stack_pair_of(field: u8) -> StackPair {
    if field == 0 {
        StackPair::BC
    } else if field == 1 {
        StackPair::DE
    } else if field == 2 {
        StackPair::HL
    } else {
        StackPair::PSW
    }
}

/// The branch condition that a three-bit condition field selects.
pub open spec fn cond_of(field: u8) -> Cond {
    if field == 0 {
        Cond::NotZero
    } else if field == 1 {
        Cond::Zero
    } else if field == 2 {
        Cond::NoCarry
    } else if field == 3 {
        Cond::Carry
    } else if field == 4 {
        Cond::ParityOdd
    } else if field == 5 {
        Cond::ParityEven
    } else if field == 6 {
        Cond::Plus
    } else {
        Cond::Minus
    }
}

/// The accumulator operation that a three-bit operation field selects.
pub open spec fn alu_op_of(field: u8) -> AluOp {
    if field == 0 {
        AluOp::Add
    } else if field == 1 {
        AluOp::AddCarry
    } else if field == 2 {
        AluOp::Sub
    } else if field == 3 {
        AluOp::SubBorrow
    } else if field == 4 {
        AluOp::And
    } else if field == 5 {
        AluOp::Xor
    } else if field == 6 {
        AluOp::Or
    } else {
        AluOp::Compare
    }
}

/// Opcodes 0x00 to 0x3F: loads, stores, increments, rotates and the like.
/// `mid` is bits 5 to 3 of the opcode and `low` bits 2 to 0.
pub open spec fn decode_group_0(mid: u8, low: u8) -> Instruction {
    if low == 0 {
        Instruction::Nop
    } else if low == 1 {
        if mid % 2 == 0 {
            Instruction::Lxi(pair_of(mid / 2))
        } else {
            Instruction::Dad(pair_of(mid / 2))
        }
    } else if low == 2 {
        if mid == 0 {
            Instruction::Stax(RegPair::BC)
        } else if mid == 1 {
            Instruction::Ldax(RegPair::BC)
        } else if mid == 2 {
            Instruction::Stax(RegPair::DE)
        } else if mid == 3 {
            Instruction::Ldax(RegPair::DE)
        } else if mid == 4 {
            Instruction::Shld
        } else if mid == 5 {
            Instruction::Lhld
        } else if mid == 6 {
            Instruction::Sta
        } else {
            Instruction::Lda
        }
    } else if low == 3 {
        if mid % 2 == 0 {
            Instruction::Inx(pair_of(mid / 2))
        } else {
            Instruction::Dcx(pair_of(mid / 2))
        }
    } else if low == 4 {
        Instruction::Inr(operand_of(mid))
    } else if low == 5 {
        Instruction::Dcr(operand_of(mid))
    } else if low == 6 {
        Instruction::Mvi(operand_of(mid))
    } else if mid == 0 {
        Instruction::Rlc
    } else if mid == 1 {
        Instruction::Rrc
    } else if mid == 2 {
        Instruction::Ral
    } else if mid == 3 {
        Instruction::Rar
    } else if mid == 4 {
        Instruction::Daa
    } else if mid == 5 {
        Instruction::Cma
    } else if mid == 6 {
        Instruction::Stc
    } else {
        Instruction::Cmc
    }
}

/// Opcodes 0xC0 to 0xFF: branches, the stack, immediates and input/output.
/// The five slots of this group that name no instruction do nothing.
pub open spec fn decode_group_3(mid: u8, low: u8) -> Instruction {
    if low == 0 {
        Instruction::RetIf(cond_of(mid))
    } else if low == 1 {
        if mid % 2 == 0 {
            Instruction::Pop(stack_pair_of(mid / 2))
        } else if mid == 1 {
            Instruction::Ret
        } else if mid == 3 {
            Instruction::Nop
        } else if mid == 5 {
            Instruction::Pchl
        } else {
            Instruction::Sphl
        }
    } else if low == 2 {
        Instruction::JmpIf(cond_of(mid))
    } else if low == 3 {
        if mid == 0 {
            Instruction::Jmp
        } else if mid == 1 {
            Instruction::Nop
        } else if mid == 2 {
            Instruction::Out
        } else if mid == 3 {
            Instruction::In
        } else if mid == 4 {
            Instruction::Xthl
        } else if mid == 5 {
            Instruction::Xchg
        } else if mid == 6 {
            Instruction::Di
        } else {
            Instruction::Ei
        }
    } else if low == 4 {
        Instruction::CallIf(cond_of(mid))
    } else if low == 5 {
        if mid % 2 == 0 {
            Instruction::Push(stack_pair_of(mid / 2))
        } else if mid == 1 {
            Instruction::Call
        } else {
            Instruction::Nop
        }
    } else if low == 6 {
        Instruction::AluImm(alu_op_of(mid))
    } else {
        Instruction::Rst(mid)
    }
}

/// The instruction that an opcode byte selects. Bits 7 and 6 select the
/// group; in the move and arithmetic groups bits 5 to 3 select the
/// destination or the operation and bits 2 to 0 the source. The twelve
/// opcodes that name no instruction (0x08, 0x10, 0x18, 0x20, 0x28, 0x30,
/// 0x38, 0xCB, 0xD9, 0xDD, 0xED, 0xFD) are `Nop`.
pub open spec fn decode_spec(opcode: u8) -> Instruction {
    let group = opcode / 64;
    let mid = (opcode / 8 % 8) as u8;
    let low = (opcode % 8) as u8;
    if group == 0 {
        decode_group_0(mid, low)
    } else if group == 1 {
        if opcode == 0x76 {
            Instruction::Hlt
        } else {
            Instruction::Mov(operand_of(mid), operand_of(low))
        }
    } else if group == 2 {
        Instruction::Alu(alu_op_of(mid), operand_of(low))
    } else {
        decode_group_3(mid, low)
    }
}

/// The twelve opcodes that name no instruction.
pub open spec fn is_unused(opcode: u8) -> bool {
    opcode == 0x08 || opcode == 0x10 || opcode == 0x18 || opcode == 0x20 || opcode == 0x28
        || opcode == 0x30 || opcode == 0x38 || opcode == 0xCB || opcode == 0xD9 || opcode == 0xDD
        || opcode == 0xED || opcode == 0xFD
}

/// An opcode does nothing exactly when it is 0x00 or names no instruction.
pub proof fn lemma_nop_opcodes(opcode: u8)
    ensures
        decode_spec(opcode) == Instruction::Nop <==> opcode == 0x00 || is_unused(opcode),
{
}

/// Number of operand bytes that follow the opcode.
pub open spec fn operand_len_spec(instr: Instruction) -> u16 {
    match instr {
        Instruction::Lxi(_)
        | Instruction::Shld
        | Instruction::Lhld
        | Instruction::Sta
        | Instruction::Lda
        | Instruction::Jmp
        | Instruction::JmpIf(_)
        | Instruction::Call
        | Instruction::CallIf(_) => 2,
        Instruction::Mvi(_) | Instruction::AluImm(_) | Instruction::Out | Instruction::In => 1,
        _ => 0,
    }
}

/// Whether the instruction does its work with the given flags: a
/// conditional branch only when its condition holds, every other
/// instruction always.
pub open spec fn taken_spec(instr: Instruction, flags: Flags) -> bool {
    match instr {
        Instruction::RetIf(c) | Instruction::JmpIf(c) | Instruction::CallIf(c) => flags.holds(c),
        _ => true,
    }
}

/// Clock cycles that the instruction takes. Conditional calls and returns
/// cost six cycles more when taken; instructions with a memory operand cost
/// more than those that stay in registers.
pub open spec fn cycles_spec(instr: Instruction, taken: bool) -> u64 {
    match instr {
        Instruction::Nop => 4,
        Instruction::Lxi(_) => 10,
        Instruction::Stax(_) | Instruction::Ldax(_) => 7,
        Instruction::Inx(_) | Instruction::Dcx(_) => 5,
        Instruction::Dad(_) => 10,
        Instruction::Inr(o) | Instruction::Dcr(o) => if o == Operand::M {
            10
        } else {
            5
        },
        Instruction::Mvi(o) => if o == Operand::M {
            10
        } else {
            7
        },
        Instruction::Rlc | Instruction::Rrc | Instruction::Ral | Instruction::Rar => 4,
        Instruction::Shld | Instruction::Lhld => 16,
        Instruction::Sta | Instruction::Lda => 13,
        Instruction::Daa | Instruction::Cma | Instruction::Stc | Instruction::Cmc => 4,
        Instruction::Mov(d, s) => if d == Operand::M || s == Operand::M {
            7
        } else {
            5
        },
        Instruction::Hlt => 7,
        Instruction::Alu(_, o) => if o == Operand::M {
            7
        } else {
            4
        },
        Instruction::AluImm(_) => 7,
        Instruction::Ret => 10,
        Instruction::RetIf(_) => if taken {
            11
        } else {
            5
        },
        Instruction::Jmp | Instruction::JmpIf(_) => 10,
        Instruction::Call => 17,
        Instruction::CallIf(_) => if taken {
            17
        } else {
            11
        },
        Instruction::Rst(_) => 11,
        Instruction::Pop(_) => 10,
        Instruction::Push(_) => 11,
        Instruction::Out | Instruction::In => 10,
        Instruction::Xthl => 18,
        Instruction::Xchg => 4,
        Instruction::Pchl | Instruction::Sphl => 5,
        Instruction::Di | Instruction::Ei => 4,
    }
}

/// Decodes an opcode byte. Every byte selects exactly one instruction.
pub fn decode(opcode: u8) -> (instr: Instruction)
    ensures
        instr == decode_spec(opcode),
{
    match opcode {
        0x00 => Instruction::Nop,
        0x01 => Instruction::Lxi(RegPair::BC),
        0x02 => Instruction::Stax(RegPair::BC),
        0x03 => Instruction::Inx(RegPair::BC),
        0x04 => Instruction::Inr(Operand::B),
        0x05 => Instruction::Dcr(Operand::B),
        0x06 => Instruction::Mvi(Operand::B),
        0x07 => Instruction::Rlc,
        0x08 => Instruction::Nop,
        0x09 => Instruction::Dad(RegPair::BC),
        0x0A => Instruction::Ldax(RegPair::BC),
        0x0B => Instruction::Dcx(RegPair::BC),
        0x0C => Instruction::Inr(Operand::C),
        0x0D => Instruction::Dcr(Operand::C),
        0x0E => Instruction::Mvi(Operand::C),
        0x0F => Instruction::Rrc,
        0x10 => Instruction::Nop,
        0x11 => Instruction::Lxi(RegPair::DE),
        0x12 => Instruction::Stax(RegPair::DE),
        0x13 => Instruction::Inx(RegPair::DE),
        0x14 => Instruction::Inr(Operand::D),
        0x15 => Instruction::Dcr(Operand::D),
        0x16 => Instruction::Mvi(Operand::D),
        0x17 => Instruction::Ral,
        0x18 => Instruction::Nop,
        0x19 => Instruction::Dad(RegPair::DE),
        0x1A => Instruction::Ldax(RegPair::DE),
        0x1B => Instruction::Dcx(RegPair::DE),
        0x1C => Instruction::Inr(Operand::E),
        0x1D => Instruction::Dcr(Operand::E),
        0x1E => Instruction::Mvi(Operand::E),
        0x1F => Instruction::Rar,
        0x20 => Instruction::Nop,
        0x21 => Instruction::Lxi(RegPair::HL),
        0x22 => Instruction::Shld,
        0x23 => Instruction::Inx(RegPair::HL),
        0x24 => Instruction::Inr(Operand::H),
        0x25 => Instruction::Dcr(Operand::H),
        0x26 => Instruction::Mvi(Operand::H),
        0x27 => Instruction::Daa,
        0x28 => Instruction::Nop,
        0x29 => Instruction::Dad(RegPair::HL),
        0x2A => Instruction::Lhld,
        0x2B => Instruction::Dcx(RegPair::HL),
        0x2C => Instruction::Inr(Operand::L),
        0x2D => Instruction::Dcr(Operand::L),
        0x2E => Instruction::Mvi(Operand::L),
        0x2F => Instruction::Cma,
        0x30 => Instruction::Nop,
        0x31 => Instruction::Lxi(RegPair::SP),
        0x32 => Instruction::Sta,
        0x33 => Instruction::Inx(RegPair::SP),
        0x34 => Instruction::Inr(Operand::M),
        0x35 => Instruction::Dcr(Operand::M),
        0x36 => Instruction::Mvi(Operand::M),
        0x37 => Instruction::Stc,
        0x38 => Instruction::Nop,
        0x39 => Instruction::Dad(RegPair::SP),
        0x3A => Instruction::Lda,
        0x3B => Instruction::Dcx(RegPair::SP),
        0x3C => Instruction::Inr(Operand::A),
        0x3D => Instruction::Dcr(Operand::A),
        0x3E => Instruction::Mvi(Operand::A),
        0x3F => Instruction::Cmc,
        0x40 => Instruction::Mov(Operand::B, Operand::B),
        0x41 => Instruction::Mov(Operand::B, Operand::C),
        0x42 => Instruction::Mov(Operand::B, Operand::D),
        0x43 => Instruction::Mov(Operand::B, Operand::E),
        0x44 => Instruction::Mov(Operand::B, Operand::H),
        0x45 => Instruction::Mov(Operand::B, Operand::L),
        0x46 => Instruction::Mov(Operand::B, Operand::M),
        0x47 => Instruction::Mov(Operand::B, Operand::A),
        0x48 => Instruction::Mov(Operand::C, Operand::B),
        0x49 => Instruction::Mov(Operand::C, Operand::C),
        0x4A => Instruction::Mov(Operand::C, Operand::D),
        0x4B => Instruction::Mov(Operand::C, Operand::E),
        0x4C => Instruction::Mov(Operand::C, Operand::H),
        0x4D => Instruction::Mov(Operand::C, Operand::L),
        0x4E => Instruction::Mov(Operand::C, Operand::M),
        0x4F => Instruction::Mov(Operand::C, Operand::A),
        0x50 => Instruction::Mov(Operand::D, Operand::B),
        0x51 => Instruction::Mov(Operand::D, Operand::C),
        0x52 => Instruction::Mov(Operand::D, Operand::D),
        0x53 => Instruction::Mov(Operand::D, Operand::E),
        0x54 => Instruction::Mov(Operand::D, Operand::H),
        0x55 => Instruction::Mov(Operand::D, Operand::L),
        0x56 => Instruction::Mov(Operand::D, Operand::M),
        0x57 => Instruction::Mov(Operand::D, Operand::A),
        0x58 => Instruction::Mov(Operand::E, Operand::B),
        0x59 => Instruction::Mov(Operand::E, Operand::C),
        0x5A => Instruction::Mov(Operand::E, Operand::D),
        0x5B => Instruction::Mov(Operand::E, Operand::E),
        0x5C => Instruction::Mov(Operand::E, Operand::H),
        0x5D => Instruction::Mov(Operand::E, Operand::L),
        0x5E => Instruction::Mov(Operand::E, Operand::M),
        0x5F => Instruction::Mov(Operand::E, Operand::A),
        0x60 => Instruction::Mov(Operand::H, Operand::B),
        0x61 => Instruction::Mov(Operand::H, Operand::C),
        0x62 => Instruction::Mov(Operand::H, Operand::D),
        0x63 => Instruction::Mov(Operand::H, Operand::E),
        0x64 => Instruction::Mov(Operand::H, Operand::H),
        0x65 => Instruction::Mov(Operand::H, Operand::L),
        0x66 => Instruction::Mov(Operand::H, Operand::M),
        0x67 => Instruction::Mov(Operand::H, Operand::A),
        0x68 => Instruction::Mov(Operand::L, Operand::B),
        0x69 => Instruction::Mov(Operand::L, Operand::C),
        0x6A => Instruction::Mov(Operand::L, Operand::D),
        0x6B => Instruction::Mov(Operand::L, Operand::E),
        0x6C => Instruction::Mov(Operand::L, Operand::H),
        0x6D => Instruction::Mov(Operand::L, Operand::L),
        0x6E => Instruction::Mov(Operand::L, Operand::M),
        0x6F => Instruction::Mov(Operand::L, Operand::A),
        0x70 => Instruction::Mov(Operand::M, Operand::B),
        0x71 => Instruction::Mov(Operand::M, Operand::C),
        0x72 => Instruction::Mov(Operand::M, Operand::D),
        0x73 => Instruction::Mov(Operand::M, Operand::E),
        0x74 => Instruction::Mov(Operand::M, Operand::H),
        0x75 => Instruction::Mov(Operand::M, Operand::L),
        0x76 => Instruction::Hlt,
        0x77 => Instruction::Mov(Operand::M, Operand::A),
        0x78 => Instruction::Mov(Operand::A, Operand::B),
        0x79 => Instruction::Mov(Operand::A, Operand::C),
        0x7A => Instruction::Mov(Operand::A, Operand::D),
        0x7B => Instruction::Mov(Operand::A, Operand::E),
        0x7C => Instruction::Mov(Operand::A, Operand::H),
        0x7D => Instruction::Mov(Operand::A, Operand::L),
        0x7E => Instruction::Mov(Operand::A, Operand::M),
        0x7F => Instruction::Mov(Operand::A, Operand::A),
        0x80 => Instruction::Alu(AluOp::Add, Operand::B),
        0x81 => Instruction::Alu(AluOp::Add, Operand::C),
        0x82 => Instruction::Alu(AluOp::Add, Operand::D),
        0x83 => Instruction::Alu(AluOp::Add, Operand::E),
        0x84 => Instruction::Alu(AluOp::Add, Operand::H),
        0x85 => Instruction::Alu(AluOp::Add, Operand::L),
        0x86 => Instruction::Alu(AluOp::Add, Operand::M),
        0x87 => Instruction::Alu(AluOp::Add, Operand::A),
        0x88 => Instruction::Alu(AluOp::AddCarry, Operand::B),
        0x89 => Instruction::Alu(AluOp::AddCarry, Operand::C),
        0x8A => Instruction::Alu(AluOp::AddCarry, Operand::D),
        0x8B => Instruction::Alu(AluOp::AddCarry, Operand::E),
        0x8C => Instruction::Alu(AluOp::AddCarry, Operand::H),
        0x8D => Instruction::Alu(AluOp::AddCarry, Operand::L),
        0x8E => Instruction::Alu(AluOp::AddCarry, Operand::M),
        0x8F => Instruction::Alu(AluOp::AddCarry, Operand::A),
        0x90 => Instruction::Alu(AluOp::Sub, Operand::B),
        0x91 => Instruction::Alu(AluOp::Sub, Operand::C),
        0x92 => Instruction::Alu(AluOp::Sub, Operand::D),
        0x93 => Instruction::Alu(AluOp::Sub, Operand::E),
        0x94 => Instruction::Alu(AluOp::Sub, Operand::H),
        0x95 => Instruction::Alu(AluOp::Sub, Operand::L),
        0x96 => Instruction::Alu(AluOp::Sub, Operand::M),
        0x97 => Instruction::Alu(AluOp::Sub, Operand::A),
        0x98 => Instruction::Alu(AluOp::SubBorrow, Operand::B),
        0x99 => Instruction::Alu(AluOp::SubBorrow, Operand::C),
        0x9A => Instruction::Alu(AluOp::SubBorrow, Operand::D),
        0x9B => Instruction::Alu(AluOp::SubBorrow, Operand::E),
        0x9C => Instruction::Alu(AluOp::SubBorrow, Operand::H),
        0x9D => Instruction::Alu(AluOp::SubBorrow, Operand::L),
        0x9E => Instruction::Alu(AluOp::SubBorrow, Operand::M),
        0x9F => Instruction::Alu(AluOp::SubBorrow, Operand::A),
        0xA0 => Instruction::Alu(AluOp::And, Operand::B),
        0xA1 => Instruction::Alu(AluOp::And, Operand::C),
        0xA2 => Instruction::Alu(AluOp::And, Operand::D),
        0xA3 => Instruction::Alu(AluOp::And, Operand::E),
        0xA4 => Instruction::Alu(AluOp::And, Operand::H),
        0xA5 => Instruction::Alu(AluOp::And, Operand::L),
        0xA6 => Instruction::Alu(AluOp::And, Operand::M),
        0xA7 => Instruction::Alu(AluOp::And, Operand::A),
        0xA8 => Instruction::Alu(AluOp::Xor, Operand::B),
        0xA9 => Instruction::Alu(AluOp::Xor, Operand::C),
        0xAA => Instruction::Alu(AluOp::Xor, Operand::D),
        0xAB => Instruction::Alu(AluOp::Xor, Operand::E),
        0xAC => Instruction::Alu(AluOp::Xor, Operand::H),
        0xAD => Instruction::Alu(AluOp::Xor, Operand::L),
        0xAE => Instruction::Alu(AluOp::Xor, Operand::M),
        0xAF => Instruction::Alu(AluOp::Xor, Operand::A),
        0xB0 => Instruction::Alu(AluOp::Or, Operand::B),
        0xB1 => Instruction::Alu(AluOp::Or, Operand::C),
        0xB2 => Instruction::Alu(AluOp::Or, Operand::D),
        0xB3 => Instruction::Alu(AluOp::Or, Operand::E),
        0xB4 => Instruction::Alu(AluOp::Or, Operand::H),
        0xB5 => Instruction::Alu(AluOp::Or, Operand::L),
        0xB6 => Instruction::Alu(AluOp::Or, Operand::M),
        0xB7 => Instruction::Alu(AluOp::Or, Operand::A),
        0xB8 => Instruction::Alu(AluOp::Compare, Operand::B),
        0xB9 => Instruction::Alu(AluOp::Compare, Operand::C),
        0xBA => Instruction::Alu(AluOp::Compare, Operand::D),
        0xBB => Instruction::Alu(AluOp::Compare, Operand::E),
        0xBC => Instruction::Alu(AluOp::Compare, Operand::H),
        0xBD => Instruction::Alu(AluOp::Compare, Operand::L),
        0xBE => Instruction::Alu(AluOp::Compare, Operand::M),
        0xBF => Instruction::Alu(AluOp::Compare, Operand::A),
        0xC0 => Instruction::RetIf(Cond::NotZero),
        0xC1 => Instruction::Pop(StackPair::BC),
        0xC2 => Instruction::JmpIf(Cond::NotZero),
        0xC3 => Instruction::Jmp,
        0xC4 => Instruction::CallIf(Cond::NotZero),
        0xC5 => Instruction::Push(StackPair::BC),
        0xC6 => Instruction::AluImm(AluOp::Add),
        0xC7 => Instruction::Rst(0),
        0xC8 => Instruction::RetIf(Cond::Zero),
        0xC9 => Instruction::Ret,
        0xCA => Instruction::JmpIf(Cond::Zero),
        0xCB => Instruction::Nop,
        0xCC => Instruction::CallIf(Cond::Zero),
        0xCD => Instruction::Call,
        0xCE => Instruction::AluImm(AluOp::AddCarry),
        0xCF => Instruction::Rst(1),
        0xD0 => Instruction::RetIf(Cond::NoCarry),
        0xD1 => Instruction::Pop(StackPair::DE),
        0xD2 => Instruction::JmpIf(Cond::NoCarry),
        0xD3 => Instruction::Out,
        0xD4 => Instruction::CallIf(Cond::NoCarry),
        0xD5 => Instruction::Push(StackPair::DE),
        0xD6 => Instruction::AluImm(AluOp::Sub),
        0xD7 => Instruction::Rst(2),
        0xD8 => Instruction::RetIf(Cond::Carry),
        0xD9 => Instruction::Nop,
        0xDA => Instruction::JmpIf(Cond::Carry),
        0xDB => Instruction::In,
        0xDC => Instruction::CallIf(Cond::Carry),
        0xDD => Instruction::Nop,
        0xDE => Instruction::AluImm(AluOp::SubBorrow),
        0xDF => Instruction::Rst(3),
        0xE0 => Instruction::RetIf(Cond::ParityOdd),
        0xE1 => Instruction::Pop(StackPair::HL),
        0xE2 => Instruction::JmpIf(Cond::ParityOdd),
        0xE3 => Instruction::Xthl,
        0xE4 => Instruction::CallIf(Cond::ParityOdd),
        0xE5 => Instruction::Push(StackPair::HL),
        0xE6 => Instruction::AluImm(AluOp::And),
        0xE7 => Instruction::Rst(4),
        0xE8 => Instruction::RetIf(Cond::ParityEven),
        0xE9 => Instruction::Pchl,
        0xEA => Instruction::JmpIf(Cond::ParityEven),
        0xEB => Instruction::Xchg,
        0xEC => Instruction::CallIf(Cond::ParityEven),
        0xED => Instruction::Nop,
        0xEE => Instruction::AluImm(AluOp::Xor),
        0xEF => Instruction::Rst(5),
        0xF0 => Instruction::RetIf(Cond::Plus),
        0xF1 => Instruction::Pop(StackPair::PSW),
        0xF2 => Instruction::JmpIf(Cond::Plus),
        0xF3 => Instruction::Di,
        0xF4 => Instruction::CallIf(Cond::Plus),
        0xF5 => Instruction::Push(StackPair::PSW),
        0xF6 => Instruction::AluImm(AluOp::Or),
        0xF7 => Instruction::Rst(6),
        0xF8 => Instruction::RetIf(Cond::Minus),
        0xF9 => Instruction::Sphl,
        0xFA => Instruction::JmpIf(Cond::Minus),
        0xFB => Instruction::Ei,
        0xFC => Instruction::CallIf(Cond::Minus),
        0xFD => Instruction::Nop,
        0xFE => Instruction::AluImm(AluOp::Compare),
        0xFF => Instruction::Rst(7),
    }
}

impl Operand {
    /// Whether the operand is the memory byte that HL addresses.
    pub fn is_memory(&self) -> (m: bool)
        ensures
            m == (*self == Operand::M),
    {
        match self {
            Operand::M => true,
            _ => false,
        }
    }
}

impl Instruction {
    /// Number of operand bytes that follow the opcode: 0, 1 or 2.
    pub fn operand_len(&self) -> (n: u16)
        ensures
            n == operand_len_spec(*self),
            n <= 2,
    {
        match self {
            Instruction::Lxi(_)
            | Instruction::Shld
            | Instruction::Lhld
            | Instruction::Sta
            | Instruction::Lda
            | Instruction::Jmp
            | Instruction::JmpIf(_)
            | Instruction::Call
            | Instruction::CallIf(_) => 2,
            Instruction::Mvi(_) | Instruction::AluImm(_) | Instruction::Out | Instruction::In => 1,
            _ => 0,
        }
    }

    /// Whether the instruction does its work with the given flags.
    pub fn taken(&self, flags: &Flags) -> (t: bool)
        ensures
            t == taken_spec(*self, *flags),
    {
        match self {
            Instruction::RetIf(c) | Instruction::JmpIf(c) | Instruction::CallIf(c) => flags.test(
                *c,
            ),
            _ => true,
        }
    }

    /// Clock cycles that the instruction takes, between 4 and 18.
    pub fn cycles(&self, taken: bool) -> (n: u64)
        ensures
            n == cycles_spec(*self, taken),
            4 <= n <= 18,
    {
        match self {
            Instruction::Nop => 4,
            Instruction::Lxi(_) => 10,
            Instruction::Stax(_) | Instruction::Ldax(_) => 7,
            Instruction::Inx(_) | Instruction::Dcx(_) => 5,
            Instruction::Dad(_) => 10,
            Instruction::Inr(o) | Instruction::Dcr(o) => if o.is_memory() {
                10
            } else {
                5
            },
            Instruction::Mvi(o) => if o.is_memory() {
                10
            } else {
                7
            },
            Instruction::Rlc | Instruction::Rrc | Instruction::Ral | Instruction::Rar => 4,
            Instruction::Shld | Instruction::Lhld => 16,
            Instruction::Sta | Instruction::Lda => 13,
            Instruction::Daa | Instruction::Cma | Instruction::Stc | Instruction::Cmc => 4,
            Instruction::Mov(d, s) => if d.is_memory() || s.is_memory() {
                7
            } else {
                5
            },
            Instruction::Hlt => 7,
            Instruction::Alu(_, o) => if o.is_memory() {
                7
            } else {
                4
            },
            Instruction::AluImm(_) => 7,
            Instruction::Ret => 10,
            Instruction::RetIf(_) => if taken {
                11
            } else {
                5
            },
            Instruction::Jmp | Instruction::JmpIf(_) => 10,
            Instruction::Call => 17,
            Instruction::CallIf(_) => if taken {
                17
            } else {
                11
            },
            Instruction::Rst(_) => 11,
            Instruction::Pop(_) => 10,
            Instruction::Push(_) => 11,
            Instruction::Out | Instruction::In => 10,
            Instruction::Xthl => 18,
            Instruction::Xchg => 4,
            Instruction::Pchl | Instruction::Sphl => 5,
            Instruction::Di | Instruction::Ei => 4,
        }
    }
}

} // verus!
