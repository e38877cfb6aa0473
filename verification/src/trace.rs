//! Debug rendering of the state after a step: one line of text, or the same
//! values as numbers and flag names for a graphical front end.

use crate::cpu::CPU;
use crate::flags::{weight, Flags};
use crate::registers::{word, word_spec, RegPair};
use crate::state::{opcode_at_pc, step, State};
use vstd::prelude::*;
use vstd::string::StringExecFns;

verus! {

/// The lower-case hexadecimal digit of a value below sixteen.
pub open spec fn hex_digit(n: int) -> char {
    if n == 0 {
        '0'
    } else if n == 1 {
        '1'
    } else if n == 2 {
        '2'
    } else if n == 3 {
        '3'
    } else if n == 4 {
        '4'
    } else if n == 5 {
        '5'
    } else if n == 6 {
        '6'
    } else if n == 7 {
        '7'
    } else if n == 8 {
        '8'
    } else if n == 9 {
        '9'
    } else if n == 10 {
        'a'
    } else if n == 11 {
        'b'
    } else if n == 12 {
        'c'
    } else if n == 13 {
        'd'
    } else if n == 14 {
        'e'
    } else {
        'f'
    }
}

/// A byte as two hexadecimal digits.
pub open spec fn hex2(x: u8) -> Seq<char> {
    seq![hex_digit(x as int / 16), hex_digit(x as int % 16)]
}

/// A word as four hexadecimal digits.
pub open spec fn hex4(x: u16) -> Seq<char> {
    seq![
        hex_digit(x as int / 4096),
        hex_digit(x as int / 256 % 16),
        hex_digit(x as int / 16 % 16),
        hex_digit(x as int % 16),
    ]
}

/// The flag bits as the debug output shows them: the packed status word
/// without its constant bit 1.
pub open spec fn flag_bits(flags: Flags) -> u8 {
    (weight(flags.s, 128) + weight(flags.z, 64) + weight(flags.ac, 16) + weight(flags.p, 4)
        + weight(flags.cy, 1)) as u8
}

/// The name of a flag when it is set, a dot when it is clear.
pub open spec fn flag_name(set: bool, name: Seq<char>) -> Seq<char> {
    if set {
        name
    } else {
        "."@
    }
}

/// The five numbers of the debug output: AF, BC, DE, HL and the opcode.
pub open spec fn trace_values(s: State, opcode: u8) -> Seq<u16> {
    seq![
        word_spec(s.regs.a, flag_bits(s.flags)),
        s.regs.pair_spec(RegPair::BC),
        s.regs.pair_spec(RegPair::DE),
        s.regs.pair_spec(RegPair::HL),
        opcode as u16,
    ]
}

/// The five flag names of the debug output, in the order S, Z, AC, P, CY.
pub open spec fn trace_flags(flags: Flags) -> Seq<Seq<char>> {
    seq![
        flag_name(flags.s, "S"@),
        flag_name(flags.z, "Z"@),
        flag_name(flags.ac, "AC"@),
        flag_name(flags.p, "P"@),
        flag_name(flags.cy, "CY"@),
    ]
}

/// The debug line for state `s`, reached by executing `opcode`: the register
/// pairs, the program counter, the stack pointer and the byte it points at
/// as four hexadecimal digits each, the opcode as two, and the flag names.
pub open spec fn trace_line(s: State, opcode: u8) -> Seq<char> {
    "AF-"@ + hex4(trace_values(s, opcode)[0]) + " BC-"@ + hex4(trace_values(s, opcode)[1])
        + " DE-"@ + hex4(trace_values(s, opcode)[2]) + " HL-"@ + hex4(trace_values(s, opcode)[3])
        + " PC-"@ + hex4(s.regs.pc) + " SP-"@ + hex4(s.regs.sp) + " (SP)-"@ + hex4(
        s.mem[s.regs.sp as int] as u16,
    ) + " OP-"@ + hex2(opcode) + " Flags-"@ + trace_flags(s.flags)[0] + trace_flags(s.flags)[1]
        + trace_flags(s.flags)[2] + trace_flags(s.flags)[3] + trace_flags(s.flags)[4]
}

/// The hexadecimal digit of a value below sixteen, as text.
fn hex_digit_text(n: u8) -> (t: &'static str)
    requires
        n < 16,
    ensures
        t@ == seq![hex_digit(n as int)],
{
    proof {
        reveal_strlit("0");
        reveal_strlit("1");
        reveal_strlit("2");
        reveal_strlit("3");
        reveal_strlit("4");
        reveal_strlit("5");
        reveal_strlit("6");
        reveal_strlit("7");
        reveal_strlit("8");
        reveal_strlit("9");
        reveal_strlit("a");
        reveal_strlit("b");
        reveal_strlit("c");
        reveal_strlit("d");
        reveal_strlit("e");
        reveal_strlit("f");
    }
    let t: &'static str = match n {
        0 => "0",
        1 => "1",
        2 => "2",
        3 => "3",
        4 => "4",
        5 => "5",
        6 => "6",
        7 => "7",
        8 => "8",
        9 => "9",
        10 => "a",
        11 => "b",
        12 => "c",
        13 => "d",
        14 => "e",
        _ => "f",
    };
    assert(t@ =~= seq![hex_digit(n as int)]);
    t
}

/// Appends a byte as two hexadecimal digits.
fn push_hex2(out: &mut String, x: u8)
    ensures
        final(out)@ == old(out)@ + hex2(x),
{
    out.append(hex_digit_text(x / 16));
    out.append(hex_digit_text(x % 16));
    assert(out@ =~= old(out)@ + hex2(x));
}

/// Appends a word as four hexadecimal digits.
fn push_hex4(out: &mut String, x: u16)
    ensures
        final(out)@ == old(out)@ + hex4(x),
{
    out.append(hex_digit_text((x / 4096) as u8));
    out.append(hex_digit_text((x / 256 % 16) as u8));
    out.append(hex_digit_text((x / 16 % 16) as u8));
    out.append(hex_digit_text((x % 16) as u8));
    assert(out@ =~= old(out)@ + hex4(x));
}

/// The name of a flag when it is set, a dot when it is clear.
fn flag_text(set: bool, name: &'static str) -> (t: &'static str)
    ensures
        t@ == flag_name(set, name@),
{
    if set {
        name
    } else {
        "."
    }
}

/// Packs the flags as the debug output shows them.
fn pack_flag_bits(flags: Flags) -> (bits: u8)
    ensures
        bits == flag_bits(flags),
{
    flags.to_psw() - 0x02
}

impl CPU {
    /// The five numbers of the debug output for the present state.
    fn values(&self, opcode: u8) -> (v: Vec<u16>)
        ensures
            v@ == trace_values(self@, opcode),
    {
        let regs = self.registers();
        let v: Vec<u16> = vec![
            word(regs.a, pack_flag_bits(self.flags())),
            regs.pair(RegPair::BC),
            regs.pair(RegPair::DE),
            regs.pair(RegPair::HL),
            opcode as u16,
        ];
        v
    }

    /// The five flag names of the debug output for the present state.
    fn flag_names(&self) -> (names: Vec<&'static str>)
        ensures
            names@.len() == 5,
            forall|i: int| 0 <= i < 5 ==> (#[trigger] names@[i])@ == trace_flags(self@.flags)[i],
    {
        let flags = self.flags();
        vec![
            flag_text(flags.s, "S"),
            flag_text(flags.z, "Z"),
            flag_text(flags.ac, "AC"),
            flag_text(flags.p, "P"),
            flag_text(flags.cy, "CY"),
        ]
    }

    /// Performs one step and renders the state it leaves as a line of text.
    pub fn debug_tick(&mut self) -> (line: String)
        ensures
            final(self)@ == step(old(self)@),
            line@ == trace_line(final(self)@, opcode_at_pc(old(self)@)),
    {
        let opcode: u8 = self.read_byte(self.registers().pc);
        let _ = self.tick();
        let regs = self.registers();
        let values = self.values(opcode);
        let names = self.flag_names();
        let mut line = String::from_str("AF-");
        push_hex4(&mut line, values[0]);
        line.append(" BC-");
        push_hex4(&mut line, values[1]);
        line.append(" DE-");
        push_hex4(&mut line, values[2]);
        line.append(" HL-");
        push_hex4(&mut line, values[3]);
        line.append(" PC-");
        push_hex4(&mut line, regs.pc);
        line.append(" SP-");
        push_hex4(&mut line, regs.sp);
        line.append(" (SP)-");
        push_hex4(&mut line, self.read_byte(regs.sp) as u16);
        line.append(" OP-");
        push_hex2(&mut line, opcode);
        line.append(" Flags-");
        line.append(names[0]);
        line.append(names[1]);
        line.append(names[2]);
        line.append(names[3]);
        line.append(names[4]);
        line
    }

    /// Performs one step and returns, for a graphical front end, the numbers
    /// AF, BC, DE, HL and the opcode, and the five flag names.
    pub fn gui_debug_tick(&mut self) -> (out: (Vec<u16>, Vec<&'static str>))
        ensures
            final(self)@ == step(old(self)@),
            out.0@ == trace_values(final(self)@, opcode_at_pc(old(self)@)),
            out.1@.len() == 5,
            forall|i: int|
                0 <= i < 5 ==> (#[trigger] out.1@[i])@ == trace_flags(final(self)@.flags)[i],
    {
        let opcode: u8 = self.read_byte(self.registers().pc);
        let _ = self.tick();
        (self.values(opcode), self.flag_names())
    }
}

} // verus!
