//! The system calls of CP/M that diagnostic programs use to report their
//! results. The processor knows nothing of them: a host that runs such a
//! program asks [`system_call`] after each step and services what it finds.

use crate::cpu::CPU;
use crate::memory::is_text_at;
use crate::registers::RegPair;
use crate::state::State;
use vstd::prelude::*;

verus! {

/// Address that a program jumps to when it is done.
pub const WARM_BOOT: u16 = 0x0000;

/// Address that a program calls for a system function.
pub const SYSTEM_ENTRY: u16 = 0x0005;

/// Number, in register C, of the function that writes the character in E.
pub const WRITE_CHAR: u8 = 2;

/// Number, in register C, of the function that writes the text at DE.
pub const WRITE_TEXT: u8 = 9;

/// The byte that ends a text: a dollar sign.
pub const TEXT_END: u8 = 0x24;

/// What a program asks of the system.
#[derive(Clone, Debug, PartialEq, Eq)]
pub enum SystemCall {
    /// The program is done.
    WarmBoot,
    /// Write these bytes to the console.
    Write(Vec<u8>),
}

/// Whether `call` is what the program in state `s` asks of the system. At
/// the warm-boot address it is done. At the system entry, function 2 writes
/// the byte in E and function 9 the text at DE that ends before the first
/// dollar sign. Anywhere else, and for any other function, it asks nothing.
pub open spec fn is_system_call(s: State, call: Option<SystemCall>) -> bool {
    if s.regs.pc == WARM_BOOT {
        call == Some(SystemCall::WarmBoot)
    } else if s.regs.pc == SYSTEM_ENTRY && s.regs.c == WRITE_CHAR {
        call matches Some(SystemCall::Write(bytes)) && bytes@ == seq![s.regs.e]
    } else if s.regs.pc == SYSTEM_ENTRY && s.regs.c == WRITE_TEXT {
        call matches Some(SystemCall::Write(bytes)) && is_text_at(
            s.mem,
            s.regs.pair_spec(RegPair::DE),
            TEXT_END,
            bytes@,
        )
    } else {
        call is None
    }
}

/// Tells what the program asks of the system at the present state.
pub fn system_call(cpu: &CPU) -> (call: Option<SystemCall>)
    ensures
        is_system_call(cpu@, call),
{
    let regs = cpu.registers();
    if regs.pc == WARM_BOOT {
        Some(SystemCall::WarmBoot)
    } else if regs.pc == SYSTEM_ENTRY && regs.c == WRITE_CHAR {
        let mut bytes: Vec<u8> = Vec::new();
        bytes.push(regs.e);
        Some(SystemCall::Write(bytes))
    } else if regs.pc == SYSTEM_ENTRY && regs.c == WRITE_TEXT {
        Some(SystemCall::Write(cpu.read_until(regs.pair(RegPair::DE), TEXT_END)))
    } else {
        None
    }
}

} // verus!
