//! Instruction-level emulator core for the Intel 8080.
//!
//! The crate is organised as the processor is: a register file and a flag
//! register, a flat 64 KiB memory, an arithmetic/logic unit made of pure
//! functions, an instruction decoder, and the CPU that ties them together.
//! A host drives the core by calling [`CPU::tick`] over and over; each call
//! runs one instruction and says what, if anything, the host has to service.
//!
//! Every executable function is verified against a mathematical model of the
//! machine: [`state::State`] and the transition function [`state::step`].
//! What holds of the model for all states is proved in [`laws`].

pub mod alu;
pub mod cpm;
pub mod cpu;
pub mod error;
pub mod execute;
pub mod flags;
pub mod instruction;
pub mod laws;
pub mod memory;
pub mod registers;
pub mod state;
pub mod trace;

pub use crate::alu::{AluOp, AluResult};
pub use crate::cpu::CPU;
pub use crate::error::CpuError;
pub use crate::flags::{Cond, Flags};
pub use crate::instruction::{Instruction, Operand, StackPair};
pub use crate::memory::{Memory, MEMORY_SIZE};
pub use crate::registers::{RegPair, Registers};
pub use crate::state::{StepOutcome, INPUT_DEFAULT};
