//! The conditions that the core reports to its host.

use vstd::prelude::*;

verus! {

/// A condition that ends an operation of the core. Each is returned as a
/// value; the core never aborts the process.
#[derive(Clone, Copy, Debug, PartialEq, Eq, Structural)]
pub enum CpuError {
    /// The opcode selects no instruction. Every opcode byte selects one, so
    /// a step never returns this.
    InvalidOpcode,
    /// A load would run past the end of the address space.
    OutOfBounds,
    /// HLT was executed, or the processor is halted already. This is how a
    /// program ends; the host decides what follows.
    HaltRequested,
    /// An interrupt was injected while interrupts were disabled.
    InterruptRejected,
}

} // verus!
