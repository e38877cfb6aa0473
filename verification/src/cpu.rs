//! The processor: register file, flags, memory, interrupt enable and cycle
//! counter, and the single-step operation that drives them.

use crate::alu::AluResult;
use crate::error::CpuError;
use crate::flags::Flags;
use crate::instruction::{Operand, StackPair};
use crate::memory::{is_text_at, word_at, Memory, MEMORY_SIZE};
use crate::registers::{advance, high, low, retreat, word, RegPair, Registers};
use crate::state::{inject, inject_result, load_result, load_state, State};
use vstd::prelude::*;

verus! {

/// An Intel 8080 with its 64 KiB of memory.
pub struct CPU {
    regs: Registers,
    flags: Flags,
    mem: Memory,
    int_enabled: bool,
    halted: bool,
    cycles: u64,
    last_interrupt: Option<u16>,
    out_port: Option<u8>,
}

impl View for CPU {
    type V = State;

    closed spec fn view(&self) -> State {
        State {
            regs: self.regs,
            flags: self.flags,
            mem: self.mem@,
            int_enabled: self.int_enabled,
            halted: self.halted,
            cycles: self.cycles,
            last_interrupt: self.last_interrupt,
            out_port: self.out_port,
        }
    }
}

impl CPU {
    /// The model of a processor always covers the whole address space.
    pub proof fn lemma_wf(&self)
        ensures
            self@.wf(),
    {
        self.mem.lemma_len();
    }

    /// Creates a processor in its power-up state: everything zero,
    /// interrupts enabled.
    pub fn new() -> (cpu: CPU)
        ensures
            cpu@ == State::initial(),
    {
        CPU {
            regs: Registers::new(),
            flags: Flags::new(),
            mem: Memory::new(),
            int_enabled: true,
            halted: false,
            cycles: 0,
            last_interrupt: None,
            out_port: None,
        }
    }

    /// Puts the processor back into its power-up state, memory included.
    pub fn reset(&mut self)
        ensures
            final(self)@ == State::initial(),
    {
        *self = CPU::new();
    }

    /// Sets the address at which execution starts.
    pub fn init_start_addr(&mut self, start_addr: u16)
        ensures
            final(self)@ == old(self)@.with_pc(start_addr),
    {
        self.regs.pc = start_addr;
    }

    /// Copies a program image into memory from address 0 on. An image longer
    /// than the memory is refused and nothing is written.
    pub fn load(&mut self, data: &[u8]) -> (r: Result<(), CpuError>)
        ensures
            r == load_result(data@.len() as int, 0),
            final(self)@ == load_state(old(self)@, data@, 0),
    {
        self.load_from(data, 0)
    }

    /// Copies a program image into memory from address `start` on. An image
    /// that would run past the last address is refused and nothing is
    /// written.
    pub fn load_from(&mut self, data: &[u8], start: usize) -> (r: Result<(), CpuError>)
        ensures
            r == load_result(data@.len() as int, start as int),
            final(self)@ == load_state(old(self)@, data@, start as int),
    {
        self.mem.load(data, start)
    }

    /// Reads an eight-bit operand: a register, or the memory byte at HL.
    pub fn operand(&self, o: Operand) -> (v: u8)
        ensures
            v == self@.operand(o),
    {
        match o {
            Operand::B => self.regs.b,
            Operand::C => self.regs.c,
            Operand::D => self.regs.d,
            Operand::E => self.regs.e,
            Operand::H => self.regs.h,
            Operand::L => self.regs.l,
            Operand::M => self.mem.read_byte(self.regs.hl()),
            Operand::A => self.regs.a,
        }
    }

    /// Writes an eight-bit operand: a register, or the memory byte at HL.
    pub fn set_operand(&mut self, o: Operand, v: u8)
        ensures
            final(self)@ == old(self)@.with_operand(o, v),
    {
        match o {
            Operand::B => {
                self.regs.b = v;
            },
            Operand::C => {
                self.regs.c = v;
            },
            Operand::D => {
                self.regs.d = v;
            },
            Operand::E => {
                self.regs.e = v;
            },
            Operand::H => {
                self.regs.h = v;
            },
            Operand::L => {
                self.regs.l = v;
            },
            Operand::M => {
                let addr: u16 = self.regs.hl();
                self.mem.write_byte(addr, v);
            },
            Operand::A => {
                self.regs.a = v;
            },
        }
    }

    /// Reads a register pair.
    pub fn pair(&self, rp: RegPair) -> (w: u16)
        ensures
            w == self@.regs.pair_spec(rp),
    {
        self.regs.pair(rp)
    }

    /// Writes a register pair.
    pub fn set_pair(&mut self, rp: RegPair, w: u16)
        ensures
            final(self)@ == old(self)@.with_pair(rp, w),
    {
        self.regs.set_pair(rp, w);
    }

    /// The word that PUSH stores for a stack pair.
    pub(crate) fn stack_pair(&self, p: StackPair) -> (w: u16)
        ensures
            w == self@.stack_pair(p),
    {
        match p {
            StackPair::BC => self.regs.pair(RegPair::BC),
            StackPair::DE => self.regs.pair(RegPair::DE),
            StackPair::HL => self.regs.pair(RegPair::HL),
            StackPair::PSW => word(self.regs.a, self.flags.to_psw()),
        }
    }

    /// Moves a popped word into a stack pair.
    pub(crate) fn set_stack_pair(&mut self, p: StackPair, w: u16)
        ensures
            final(self)@ == old(self)@.with_stack_pair(p, w),
    {
        match p {
            StackPair::BC => self.regs.set_pair(RegPair::BC, w),
            StackPair::DE => self.regs.set_pair(RegPair::DE, w),
            StackPair::HL => self.regs.set_pair(RegPair::HL, w),
            StackPair::PSW => {
                self.regs.a = high(w);
                self.flags = Flags::from_psw(low(w));
            },
        }
    }

    /// Reads the byte at `addr`.
    pub fn read_byte(&self, addr: u16) -> (v: u8)
        ensures
            v == self@.mem[addr as int],
    {
        self.mem.read_byte(addr)
    }

    /// Writes `v` at `addr`.
    pub fn write_byte(&mut self, addr: u16, v: u8)
        ensures
            final(self)@ == old(self)@.with_byte(addr, v),
    {
        self.mem.write_byte(addr, v);
    }

    /// Reads the text at `start` that ends before the first byte equal to
    /// `stop`.
    pub fn read_until(&self, start: u16, stop: u8) -> (text: Vec<u8>)
        ensures
            is_text_at(self@.mem, start, stop, text@),
    {
        self.mem.read_until(start, stop)
    }

    /// Reads the little-endian word at `addr`.
    pub(crate) fn read_word(&self, addr: u16) -> (w: u16)
        ensures
            w == word_at(self@.mem, addr),
    {
        self.mem.read_word(addr)
    }

    /// Writes `w` at `addr`, low byte first.
    pub(crate) fn write_word(&mut self, addr: u16, w: u16)
        ensures
            final(self)@ == old(self)@.with_word(addr, w),
    {
        self.mem.write_word(addr, w);
    }

    /// Replaces the flags.
    pub(crate) fn set_flags(&mut self, flags: Flags)
        ensures
            final(self)@ == old(self)@.with_flags(flags),
    {
        self.flags = flags;
    }

    /// Replaces the carry flag.
    pub(crate) fn set_carry(&mut self, cy: bool)
        ensures
            final(self)@ == old(self)@.with_carry(cy),
    {
        self.flags.cy = cy;
    }

    /// Moves the program counter to `addr`.
    pub(crate) fn jump(&mut self, addr: u16)
        ensures
            final(self)@ == old(self)@.with_pc(addr),
    {
        self.regs.pc = addr;
    }

    /// Pushes a word onto the stack.
    pub(crate) fn push(&mut self, w: u16)
        ensures
            final(self)@ == old(self)@.pushed(w),
    {
        let sp: u16 = retreat(self.regs.sp, 2);
        self.set_pair(RegPair::SP, sp);
        self.write_word(sp, w);
    }

    /// Pops a word off the stack.
    pub(crate) fn pop(&mut self) -> (w: u16)
        ensures
            w == old(self)@.top(),
            final(self)@ == old(self)@.popped(),
    {
        let w: u16 = self.read_word(self.regs.sp);
        self.set_pair(RegPair::SP, advance(self.regs.sp, 2));
        w
    }

    /// Calls the routine at `target`.
    pub(crate) fn call(&mut self, target: u16)
        ensures
            final(self)@ == old(self)@.called(target),
    {
        let back: u16 = self.regs.pc;
        self.push(back);
        self.jump(target);
    }

    /// Returns from a routine.
    pub(crate) fn ret(&mut self)
        ensures
            final(self)@ == old(self)@.returned(),
    {
        let back: u16 = self.pop();
        self.jump(back);
    }

    /// Stores the accumulator and the flags that the ALU produced.
    pub(crate) fn set_result(&mut self, r: AluResult)
        ensures
            final(self)@ == old(self)@.with_result(r),
    {
        self.regs.a = r.value;
        self.flags = r.flags;
    }

    /// Charges `n` clock cycles.
    pub(crate) fn charge(&mut self, n: u64)
        ensures
            final(self)@ == old(self)@.charged(n),
    {
        self.cycles = self.cycles.saturating_add(n);
    }

    /// Marks the processor halted or running.
    pub(crate) fn set_halted(&mut self, halted: bool)
        ensures
            final(self)@ == (State { halted, ..old(self)@ }),
    {
        self.halted = halted;
    }

    /// Enables or disables interrupts.
    pub(crate) fn set_interrupts(&mut self, enabled: bool)
        ensures
            final(self)@ == (State { int_enabled: enabled, ..old(self)@ }),
    {
        self.int_enabled = enabled;
    }

    /// Records the port that OUT addressed.
    pub(crate) fn set_out_port(&mut self, port: u8)
        ensures
            final(self)@ == (State { out_port: Some(port), ..old(self)@ }),
    {
        self.out_port = Some(port);
    }

    /// The registers.
    pub fn registers(&self) -> (r: Registers)
        ensures
            r == self@.regs,
    {
        self.regs
    }

    /// The flags.
    pub fn flags(&self) -> (f: Flags)
        ensures
            f == self@.flags,
    {
        self.flags
    }

    /// The program counter.
    pub fn pc(&self) -> (pc: u16)
        ensures
            pc == self@.regs.pc,
    {
        self.regs.pc
    }

    /// The stack pointer.
    pub fn sp(&self) -> (sp: u16)
        ensures
            sp == self@.regs.sp,
    {
        self.regs.sp
    }

    /// Clock cycles elapsed since power-up or the last reset.
    pub fn cycles(&self) -> (n: u64)
        ensures
            n == self@.cycles,
    {
        self.cycles
    }

    /// Whether interrupts are enabled.
    pub fn interrupts_enabled(&self) -> (e: bool)
        ensures
            e == self@.int_enabled,
    {
        self.int_enabled
    }

    /// The vector of the interrupt accepted last, if any.
    pub fn last_interrupt(&self) -> (v: Option<u16>)
        ensures
            v == self@.last_interrupt,
    {
        self.last_interrupt
    }

    /// The port that OUT addressed last, if any.
    pub fn out_port(&self) -> (p: Option<u8>)
        ensures
            p == self@.out_port,
    {
        self.out_port
    }

    /// The memory image, for inspection.
    pub fn memory(&self) -> (image: &[u8; MEMORY_SIZE])
        ensures
            image@ == self@.mem,
    {
        self.mem.as_array()
    }

    /// Whether the processor is halted.
    pub fn is_halted(&self) -> (h: bool)
        ensures
            h == self@.halted,
    {
        self.halted
    }

    /// Hands the processor the byte that an input port delivered. Called by
    /// the host after a step has asked for input.
    pub fn provide_input(&mut self, value: u8)
        ensures
            final(self)@ == old(self)@.with_input(value),
    {
        self.set_operand(Operand::A, value);
    }

    /// Injects an interrupt at `vector`. With interrupts enabled it is
    /// accepted: the program counter is pushed, execution goes on at
    /// `vector`, further interrupts are disabled and a halted processor runs
    /// again. With interrupts disabled it is rejected and nothing changes.
    pub fn inject_interrupt(&mut self, vector: u16) -> (r: Result<(), CpuError>)
        ensures
            final(self)@ == inject(old(self)@, vector),
            r == inject_result(old(self)@),
    {
        if !self.int_enabled {
            return Err(CpuError::InterruptRejected);
        }
        self.call(vector);
        self.int_enabled = false;
        self.halted = false;
        self.last_interrupt = Some(vector);
        Ok(())
    }
}

} // verus!
