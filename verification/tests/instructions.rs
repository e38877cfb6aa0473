//! Single instructions and what they do to registers, flags and memory.

use i8080::{CpuError, Flags, Operand, RegPair, Registers, StepOutcome, CPU};

fn at_0100(program: &[u8]) -> CPU {
    let mut cpu = CPU::new();
    assert_eq!(cpu.load_from(program, 0x0100), Ok(()));
    cpu.init_start_addr(0x0100);
    cpu.set_pair(RegPair::SP, 0x2400);
    cpu
}

fn steps(cpu: &mut CPU, n: usize) {
    for _ in 0..n {
        assert_eq!(cpu.tick(), Ok(StepOutcome::Continue));
    }
}

/// Runs `PUSH B; POP PSW` with BC holding the accumulator and the status
/// word, which is how a program sets the flags.
fn with_flags(cpu: &mut CPU, a: u8, status: u8) {
    let pc = cpu.pc();
    let bc = cpu.pair(RegPair::BC);
    let saved = [cpu.read_byte(0xF000), cpu.read_byte(0xF001)];
    cpu.write_byte(0xF000, 0xC5);
    cpu.write_byte(0xF001, 0xF1);
    cpu.init_start_addr(0xF000);
    cpu.set_pair(RegPair::BC, (a as u16) << 8 | status as u16);
    steps(cpu, 2);
    cpu.set_pair(RegPair::BC, bc);
    cpu.write_byte(0xF000, saved[0]);
    cpu.write_byte(0xF001, saved[1]);
    cpu.init_start_addr(pc);
}

#[test]
fn lxi_loads_each_pair() {
    let mut cpu = at_0100(&[
        0x01, 0x34, 0x12, 0x11, 0x78, 0x56, 0x21, 0xBC, 0x9A, 0x31, 0xF0, 0xDE,
    ]);
    steps(&mut cpu, 4);
    assert_eq!(cpu.pair(RegPair::BC), 0x1234);
    assert_eq!(cpu.pair(RegPair::DE), 0x5678);
    assert_eq!(cpu.pair(RegPair::HL), 0x9ABC);
    assert_eq!(cpu.sp(), 0xDEF0);
    assert_eq!(cpu.registers().b, 0x12);
    assert_eq!(cpu.registers().c, 0x34);
    assert_eq!(cpu.pc(), 0x010C);
    assert_eq!(cpu.cycles(), 40);
}

#[test]
fn stax_and_ldax_go_through_bc_and_de() {
    // STAX B; STAX D; then LDAX B; LDAX D after changing memory.
    let mut cpu = at_0100(&[0x02, 0x12, 0x0A, 0x1A]);
    cpu.set_pair(RegPair::BC, 0x3000);
    cpu.set_pair(RegPair::DE, 0x3001);
    cpu.set_operand(Operand::A, 0x77);
    steps(&mut cpu, 2);
    assert_eq!(cpu.read_byte(0x3000), 0x77);
    assert_eq!(cpu.read_byte(0x3001), 0x77);
    cpu.write_byte(0x3000, 0x11);
    cpu.write_byte(0x3001, 0x22);
    steps(&mut cpu, 1);
    assert_eq!(cpu.registers().a, 0x11);
    steps(&mut cpu, 1);
    assert_eq!(cpu.registers().a, 0x22);
    assert_eq!(cpu.cycles(), 28);
}

#[test]
fn sta_stores_and_lda_loads_the_accumulator() {
    // STA 0x3000; MVI A,0; LDA 0x3000
    let mut cpu = at_0100(&[0x32, 0x00, 0x30, 0x3E, 0x00, 0x3A, 0x00, 0x30]);
    cpu.set_operand(Operand::A, 0x5C);
    steps(&mut cpu, 1);
    assert_eq!(cpu.read_byte(0x3000), 0x5C);
    assert_eq!(cpu.registers().a, 0x5C);
    steps(&mut cpu, 1);
    assert_eq!(cpu.registers().a, 0x00);
    steps(&mut cpu, 1);
    assert_eq!(cpu.registers().a, 0x5C);
    assert_eq!(cpu.read_byte(0x3000), 0x5C);
    assert_eq!(cpu.cycles(), 13 + 7 + 13);
}

#[test]
fn shld_and_lhld_move_hl_low_byte_first() {
    // SHLD 0x3000; LXI H,0; LHLD 0x3000
    let mut cpu = at_0100(&[0x22, 0x00, 0x30, 0x21, 0x00, 0x00, 0x2A, 0x00, 0x30]);
    cpu.set_pair(RegPair::HL, 0xABCD);
    steps(&mut cpu, 1);
    assert_eq!(cpu.read_byte(0x3000), 0xCD);
    assert_eq!(cpu.read_byte(0x3001), 0xAB);
    steps(&mut cpu, 1);
    assert_eq!(cpu.pair(RegPair::HL), 0);
    steps(&mut cpu, 1);
    assert_eq!(cpu.pair(RegPair::HL), 0xABCD);
    assert_eq!(cpu.cycles(), 16 + 10 + 16);
}

#[test]
fn shld_at_the_last_address_wraps() {
    let mut cpu = at_0100(&[0x22, 0xFF, 0xFF]);
    cpu.set_pair(RegPair::HL, 0xABCD);
    steps(&mut cpu, 1);
    assert_eq!(cpu.read_byte(0xFFFF), 0xCD);
    assert_eq!(cpu.read_byte(0x0000), 0xAB);
}

#[test]
fn inx_and_dcx_wrap_and_leave_flags_alone() {
    // INX B; DCX D; INX SP; DCX SP; DCX SP
    let mut cpu = at_0100(&[0x03, 0x1B, 0x33, 0x3B, 0x3B]);
    cpu.set_pair(RegPair::BC, 0xFFFF);
    cpu.set_pair(RegPair::DE, 0x0000);
    cpu.set_pair(RegPair::SP, 0xFFFF);
    steps(&mut cpu, 2);
    assert_eq!(cpu.pair(RegPair::BC), 0x0000);
    assert_eq!(cpu.pair(RegPair::DE), 0xFFFF);
    assert_eq!(cpu.flags(), Flags::new());
    steps(&mut cpu, 1);
    assert_eq!(cpu.sp(), 0x0000);
    steps(&mut cpu, 2);
    assert_eq!(cpu.sp(), 0xFFFE);
    assert_eq!(cpu.flags(), Flags::new());
    assert_eq!(cpu.cycles(), 25);
}

#[test]
fn dad_adds_to_hl_and_sets_only_the_carry() {
    // DAD B; DAD H; DAD SP
    let mut cpu = at_0100(&[0x09, 0x29, 0x39]);
    cpu.set_pair(RegPair::HL, 0xF000);
    cpu.set_pair(RegPair::BC, 0x1001);
    cpu.set_pair(RegPair::SP, 0x0003);
    steps(&mut cpu, 1);
    assert_eq!(cpu.pair(RegPair::HL), 0x0001);
    assert_eq!(cpu.flags(), Flags { cy: true, ..Flags::new() });
    steps(&mut cpu, 1);
    assert_eq!(cpu.pair(RegPair::HL), 0x0002);
    assert_eq!(cpu.flags(), Flags::new());
    steps(&mut cpu, 1);
    assert_eq!(cpu.pair(RegPair::HL), 0x0005);
    assert_eq!(cpu.pair(RegPair::BC), 0x1001);
    assert_eq!(cpu.cycles(), 30);
}

#[test]
fn inr_and_dcr_of_memory() {
    // INR M; DCR M; DCR M
    let mut cpu = at_0100(&[0x34, 0x35, 0x35]);
    cpu.set_pair(RegPair::HL, 0x3000);
    cpu.write_byte(0x3000, 0xFF);
    steps(&mut cpu, 1);
    assert_eq!(cpu.read_byte(0x3000), 0x00);
    assert!(cpu.flags().z);
    assert!(!cpu.flags().cy);
    steps(&mut cpu, 1);
    assert_eq!(cpu.read_byte(0x3000), 0xFF);
    assert!(cpu.flags().s);
    steps(&mut cpu, 1);
    assert_eq!(cpu.read_byte(0x3000), 0xFE);
    assert_eq!(cpu.cycles(), 30);
}

#[test]
fn inr_and_dcr_of_each_register() {
    let registers = [
        (0x04u8, 0x05u8, Operand::B),
        (0x0C, 0x0D, Operand::C),
        (0x14, 0x15, Operand::D),
        (0x1C, 0x1D, Operand::E),
        (0x24, 0x25, Operand::H),
        (0x2C, 0x2D, Operand::L),
        (0x3C, 0x3D, Operand::A),
    ];
    for (inr, dcr, operand) in registers {
        let mut cpu = at_0100(&[inr, inr, dcr]);
        cpu.set_operand(operand, 0x7E);
        steps(&mut cpu, 1);
        assert_eq!(cpu.operand(operand), 0x7F);
        steps(&mut cpu, 1);
        assert_eq!(cpu.operand(operand), 0x80);
        assert!(cpu.flags().s);
        assert!(cpu.flags().ac);
        steps(&mut cpu, 1);
        assert_eq!(cpu.operand(operand), 0x7F);
        assert!(!cpu.flags().s);
        assert!(cpu.flags().ac);
        assert_eq!(cpu.cycles(), 15);
    }
}

#[test]
fn mvi_to_memory() {
    let mut cpu = at_0100(&[0x36, 0x42]);
    cpu.set_pair(RegPair::HL, 0x3000);
    steps(&mut cpu, 1);
    assert_eq!(cpu.read_byte(0x3000), 0x42);
    assert_eq!(cpu.pc(), 0x0102);
    assert_eq!(cpu.cycles(), 10);
}

#[test]
fn mov_between_registers_and_memory() {
    // MOV B,A; MOV M,B; MOV C,M; MOV A,C
    let mut cpu = at_0100(&[0x47, 0x70, 0x4E, 0x79]);
    cpu.set_operand(Operand::A, 0x33);
    cpu.set_pair(RegPair::HL, 0x3000);
    steps(&mut cpu, 2);
    assert_eq!(cpu.registers().b, 0x33);
    assert_eq!(cpu.read_byte(0x3000), 0x33);
    cpu.write_byte(0x3000, 0x44);
    steps(&mut cpu, 2);
    assert_eq!(cpu.registers().c, 0x44);
    assert_eq!(cpu.registers().a, 0x44);
    assert_eq!(cpu.flags(), Flags::new());
    assert_eq!(cpu.cycles(), 5 + 7 + 7 + 5);
}

#[test]
fn rotate_instructions() {
    // RLC; RRC; RAL; RAR
    let mut cpu = at_0100(&[0x07, 0x0F, 0x17, 0x1F]);
    cpu.set_operand(Operand::A, 0x81);
    steps(&mut cpu, 1);
    assert_eq!(cpu.registers().a, 0x03);
    assert!(cpu.flags().cy);
    steps(&mut cpu, 1);
    assert_eq!(cpu.registers().a, 0x81);
    assert!(cpu.flags().cy);
    steps(&mut cpu, 1);
    assert_eq!(cpu.registers().a, 0x03);
    assert!(cpu.flags().cy);
    steps(&mut cpu, 1);
    assert_eq!(cpu.registers().a, 0x81);
    assert!(cpu.flags().cy);
    assert_eq!(cpu.flags(), Flags { cy: true, ..Flags::new() });
    assert_eq!(cpu.cycles(), 16);
}

#[test]
fn cma_stc_cmc() {
    // CMA; STC; CMC; CMC
    let mut cpu = at_0100(&[0x2F, 0x37, 0x3F, 0x3F]);
    cpu.set_operand(Operand::A, 0x0F);
    steps(&mut cpu, 1);
    assert_eq!(cpu.registers().a, 0xF0);
    assert_eq!(cpu.flags(), Flags::new());
    steps(&mut cpu, 1);
    assert!(cpu.flags().cy);
    steps(&mut cpu, 1);
    assert!(!cpu.flags().cy);
    steps(&mut cpu, 1);
    assert_eq!(cpu.flags(), Flags { cy: true, ..Flags::new() });
    assert_eq!(cpu.cycles(), 16);
}

#[test]
fn arithmetic_with_register_memory_and_immediate() {
    // ADD B; ADC M; SUI 1; SBI 0; ANI 0x0F; XRA A; ORI 0x80; CPI 0x80
    let mut cpu = at_0100(&[
        0x80, 0x8E, 0xD6, 0x01, 0xDE, 0x00, 0xE6, 0x0F, 0xAF, 0xF6, 0x80, 0xFE, 0x80,
    ]);
    cpu.set_operand(Operand::A, 0xF0);
    cpu.set_operand(Operand::B, 0x20);
    cpu.set_pair(RegPair::HL, 0x3000);
    cpu.write_byte(0x3000, 0x05);
    steps(&mut cpu, 1);
    assert_eq!(cpu.registers().a, 0x10);
    assert!(cpu.flags().cy);
    steps(&mut cpu, 1);
    assert_eq!(cpu.registers().a, 0x16);
    assert!(!cpu.flags().cy);
    steps(&mut cpu, 1);
    assert_eq!(cpu.registers().a, 0x15);
    steps(&mut cpu, 1);
    assert_eq!(cpu.registers().a, 0x15);
    steps(&mut cpu, 1);
    assert_eq!(cpu.registers().a, 0x05);
    assert!(cpu.flags().p);
    steps(&mut cpu, 1);
    assert_eq!(cpu.registers().a, 0x00);
    assert_eq!(cpu.flags(), Flags { z: true, p: true, ..Flags::new() });
    steps(&mut cpu, 1);
    assert_eq!(cpu.registers().a, 0x80);
    assert_eq!(cpu.flags(), Flags { s: true, ..Flags::new() });
    steps(&mut cpu, 1);
    assert_eq!(cpu.registers().a, 0x80);
    assert_eq!(cpu.flags(), Flags { z: true, p: true, ..Flags::new() });
    assert_eq!(cpu.pc(), 0x010D);
    assert_eq!(cpu.cycles(), 4 + 7 + 7 + 7 + 7 + 4 + 7 + 7);
}

#[test]
fn and_clears_carry_and_auxiliary_carry_in_a_program() {
    // ANA B after the flags were all set.
    let mut cpu = at_0100(&[0xA0]);
    with_flags(&mut cpu, 0xFF, 0xFF);
    assert_eq!(cpu.flags(), Flags { s: true, z: true, p: true, cy: true, ac: true });
    cpu.set_operand(Operand::B, 0x81);
    steps(&mut cpu, 1);
    assert_eq!(cpu.registers().a, 0x81);
    assert_eq!(cpu.flags(), Flags { s: true, p: true, ..Flags::new() });
}

#[test]
fn compare_instruction_keeps_the_accumulator() {
    // CMP B; CMP M
    let mut cpu = at_0100(&[0xB8, 0xBE]);
    cpu.set_operand(Operand::A, 0x10);
    cpu.set_operand(Operand::B, 0x11);
    cpu.set_pair(RegPair::HL, 0x3000);
    cpu.write_byte(0x3000, 0x10);
    steps(&mut cpu, 1);
    assert_eq!(cpu.registers().a, 0x10);
    assert_eq!(cpu.flags(), Flags { s: true, p: true, cy: true, ac: true, z: false });
    steps(&mut cpu, 1);
    assert_eq!(cpu.registers().a, 0x10);
    assert_eq!(cpu.flags(), Flags { z: true, p: true, ..Flags::new() });
    assert_eq!(cpu.cycles(), 4 + 7);
}

#[test]
fn jmp_and_pchl() {
    // JMP 0x0200; at 0x0200: PCHL
    let mut cpu = at_0100(&[0xC3, 0x00, 0x02]);
    assert_eq!(cpu.load_from(&[0xE9], 0x0200), Ok(()));
    cpu.set_pair(RegPair::HL, 0x4321);
    steps(&mut cpu, 1);
    assert_eq!(cpu.pc(), 0x0200);
    steps(&mut cpu, 1);
    assert_eq!(cpu.pc(), 0x4321);
    assert_eq!(cpu.sp(), 0x2400);
    assert_eq!(cpu.cycles(), 15);
}

#[test]
fn conditional_jumps_follow_their_flag() {
    // For each condition: the flags that take it and the flags that do not.
    let cases = [
        (0xC2u8, 0x00u8, 0x40u8),
        (0xCA, 0x40, 0x00),
        (0xD2, 0x00, 0x01),
        (0xDA, 0x01, 0x00),
        (0xE2, 0x00, 0x04),
        (0xEA, 0x04, 0x00),
        (0xF2, 0x00, 0x80),
        (0xFA, 0x80, 0x00),
    ];
    for (opcode, taking, leaving) in cases {
        let mut cpu = at_0100(&[opcode, 0x00, 0x02]);
        with_flags(&mut cpu, 0, taking);
        let before = cpu.cycles();
        steps(&mut cpu, 1);
        assert_eq!(cpu.pc(), 0x0200, "opcode {:#04x}", opcode);
        assert_eq!(cpu.cycles() - before, 10);
        let mut cpu = at_0100(&[opcode, 0x00, 0x02]);
        with_flags(&mut cpu, 0, leaving);
        let before = cpu.cycles();
        steps(&mut cpu, 1);
        assert_eq!(cpu.pc(), 0x0103, "opcode {:#04x}", opcode);
        assert_eq!(cpu.cycles() - before, 10);
    }
}

#[test]
fn conditional_calls_and_returns_follow_their_flag() {
    let cases = [
        (0xC4u8, 0xC0u8, 0x00u8, 0x40u8),
        (0xCC, 0xC8, 0x40, 0x00),
        (0xD4, 0xD0, 0x00, 0x01),
        (0xDC, 0xD8, 0x01, 0x00),
        (0xE4, 0xE0, 0x00, 0x04),
        (0xEC, 0xE8, 0x04, 0x00),
        (0xF4, 0xF0, 0x00, 0x80),
        (0xFC, 0xF8, 0x80, 0x00),
    ];
    for (call, ret, taking, leaving) in cases {
        let mut cpu = at_0100(&[call, 0x00, 0x02]);
        assert_eq!(cpu.load_from(&[ret], 0x0200), Ok(()));
        with_flags(&mut cpu, 0, taking);
        let before = cpu.cycles();
        steps(&mut cpu, 1);
        assert_eq!(cpu.pc(), 0x0200, "opcode {:#04x}", call);
        assert_eq!(cpu.sp(), 0x23FE);
        assert_eq!(cpu.read_byte(0x23FE), 0x03);
        assert_eq!(cpu.read_byte(0x23FF), 0x01);
        assert_eq!(cpu.cycles() - before, 17);
        steps(&mut cpu, 1);
        assert_eq!(cpu.pc(), 0x0103, "opcode {:#04x}", ret);
        assert_eq!(cpu.sp(), 0x2400);
        assert_eq!(cpu.cycles() - before, 17 + 11);

        let mut cpu = at_0100(&[call, 0x00, 0x02, ret]);
        with_flags(&mut cpu, 0, leaving);
        let before = cpu.cycles();
        steps(&mut cpu, 1);
        assert_eq!(cpu.pc(), 0x0103, "opcode {:#04x}", call);
        assert_eq!(cpu.sp(), 0x2400);
        assert_eq!(cpu.cycles() - before, 11);
        steps(&mut cpu, 1);
        assert_eq!(cpu.pc(), 0x0104, "opcode {:#04x}", ret);
        assert_eq!(cpu.sp(), 0x2400);
        assert_eq!(cpu.cycles() - before, 11 + 5);
    }
}

#[test]
fn push_and_pop_of_each_pair() {
    // PUSH B; PUSH D; PUSH H; POP B; POP D; POP H: the pairs change places.
    let mut cpu = at_0100(&[0xC5, 0xD5, 0xE5, 0xC1, 0xD1, 0xE1]);
    cpu.set_pair(RegPair::BC, 0x1122);
    cpu.set_pair(RegPair::DE, 0x3344);
    cpu.set_pair(RegPair::HL, 0x5566);
    steps(&mut cpu, 3);
    assert_eq!(cpu.sp(), 0x23FA);
    assert_eq!(
        [
            cpu.read_byte(0x23FA),
            cpu.read_byte(0x23FB),
            cpu.read_byte(0x23FC),
            cpu.read_byte(0x23FD),
            cpu.read_byte(0x23FE),
            cpu.read_byte(0x23FF),
        ],
        [0x66, 0x55, 0x44, 0x33, 0x22, 0x11]
    );
    steps(&mut cpu, 3);
    assert_eq!(cpu.pair(RegPair::BC), 0x5566);
    assert_eq!(cpu.pair(RegPair::DE), 0x3344);
    assert_eq!(cpu.pair(RegPair::HL), 0x1122);
    assert_eq!(cpu.sp(), 0x2400);
    assert_eq!(cpu.cycles(), 3 * 11 + 3 * 10);
}

#[test]
fn push_psw_stores_accumulator_and_status_word() {
    // STC; PUSH PSW
    let mut cpu = at_0100(&[0x37, 0xF5]);
    cpu.set_operand(Operand::A, 0xA5);
    steps(&mut cpu, 2);
    assert_eq!(cpu.read_byte(0x23FF), 0xA5);
    assert_eq!(cpu.read_byte(0x23FE), 0b0000_0011);
    assert_eq!(cpu.sp(), 0x23FE);
}

#[test]
fn pop_psw_reads_accumulator_and_flags() {
    let mut cpu = at_0100(&[0xF1, 0xF1]);
    cpu.set_pair(RegPair::SP, 0x3000);
    cpu.write_byte(0x3000, 0b1101_0111);
    cpu.write_byte(0x3001, 0x12);
    cpu.write_byte(0x3002, 0b0010_1000);
    cpu.write_byte(0x3003, 0x34);
    steps(&mut cpu, 1);
    assert_eq!(cpu.registers().a, 0x12);
    assert_eq!(cpu.flags(), Flags { s: true, z: true, p: true, cy: true, ac: true });
    steps(&mut cpu, 1);
    assert_eq!(cpu.registers().a, 0x34);
    assert_eq!(cpu.flags(), Flags::new());
    assert_eq!(cpu.sp(), 0x3004);
}

#[test]
fn push_then_pop_restores_every_pair_and_the_stack_pointer() {
    for (push, pop, pair) in
        [(0xC5u8, 0xC1u8, RegPair::BC), (0xD5, 0xD1, RegPair::DE), (0xE5, 0xE1, RegPair::HL)]
    {
        for value in [0x0000u16, 0x0001, 0x00FF, 0x0100, 0x1234, 0x8000, 0xFFFF] {
            for sp in [0x2400u16, 0x0000, 0x0001, 0x0002, 0xFFFF] {
                let mut cpu = at_0100(&[push, pop]);
                cpu.set_pair(RegPair::SP, sp);
                cpu.set_pair(pair, value);
                let before = cpu.registers();
                steps(&mut cpu, 2);
                assert_eq!(cpu.pair(pair), value);
                assert_eq!(cpu.sp(), sp);
                assert_eq!(cpu.registers(), Registers { pc: 0x0102, ..before });
            }
        }
    }
}

#[test]
fn push_psw_then_pop_psw_restores_every_flag() {
    for status in 0..=255u8 {
        let mut cpu = at_0100(&[0xF5, 0x3E, 0x00, 0xAF, 0xF1]);
        with_flags(&mut cpu, status ^ 0x5A, status);
        let flags = cpu.flags();
        let a = cpu.registers().a;
        assert_eq!(a, status ^ 0x5A);
        steps(&mut cpu, 1);
        assert_eq!(cpu.read_byte(0x23FE), (status & 0b1101_0101) | 0b0000_0010);
        // MVI A,0 and XRA A in between change accumulator and flags.
        steps(&mut cpu, 2);
        assert_eq!(cpu.flags(), Flags { z: true, p: true, ..Flags::new() });
        steps(&mut cpu, 1);
        assert_eq!(cpu.flags(), flags);
        assert_eq!(cpu.registers().a, a);
        assert_eq!(cpu.sp(), 0x2400);
    }
}

#[test]
fn call_then_ret_from_every_page() {
    for page in 0..=255u16 {
        let pc = page << 8 | 0x7D;
        let mut cpu = CPU::new();
        cpu.write_byte(pc, 0xCD);
        cpu.write_byte(pc.wrapping_add(1), 0x80);
        cpu.write_byte(pc.wrapping_add(2), 0x80);
        cpu.write_byte(0x8080, 0xC9);
        cpu.init_start_addr(pc);
        cpu.set_pair(RegPair::SP, 0x9000);
        steps(&mut cpu, 2);
        assert_eq!(cpu.pc(), pc.wrapping_add(3));
        assert_eq!(cpu.sp(), 0x9000);
    }
    // At the top of memory the return address wraps.
    let mut cpu = CPU::new();
    cpu.write_byte(0xFFFE, 0xCD);
    cpu.write_byte(0xFFFF, 0x80);
    cpu.write_byte(0x0000, 0x80);
    cpu.write_byte(0x8080, 0xC9);
    cpu.init_start_addr(0xFFFE);
    cpu.set_pair(RegPair::SP, 0x9000);
    steps(&mut cpu, 1);
    assert_eq!(cpu.pc(), 0x8080);
    steps(&mut cpu, 1);
    assert_eq!(cpu.pc(), 0x0001);
    assert_eq!(cpu.sp(), 0x9000);
}

#[test]
fn xthl_exchanges_hl_with_the_top_of_stack() {
    let mut cpu = at_0100(&[0xE3]);
    cpu.set_pair(RegPair::HL, 0x1234);
    cpu.write_byte(0x2400, 0xCD);
    cpu.write_byte(0x2401, 0xAB);
    steps(&mut cpu, 1);
    assert_eq!(cpu.pair(RegPair::HL), 0xABCD);
    assert_eq!(cpu.read_byte(0x2400), 0x34);
    assert_eq!(cpu.read_byte(0x2401), 0x12);
    assert_eq!(cpu.sp(), 0x2400);
    assert_eq!(cpu.cycles(), 18);
}

#[test]
fn xchg_and_sphl() {
    // XCHG; SPHL
    let mut cpu = at_0100(&[0xEB, 0xF9]);
    cpu.set_pair(RegPair::HL, 0x1234);
    cpu.set_pair(RegPair::DE, 0xABCD);
    steps(&mut cpu, 1);
    assert_eq!(cpu.pair(RegPair::HL), 0xABCD);
    assert_eq!(cpu.pair(RegPair::DE), 0x1234);
    assert_eq!(cpu.cycles(), 4);
    steps(&mut cpu, 1);
    assert_eq!(cpu.sp(), 0xABCD);
    assert_eq!(cpu.cycles(), 9);
}

#[test]
fn instructions_without_flag_effect_leave_the_flags() {
    // With every flag set, run each opcode that is not documented to change
    // a flag and see that all five stay set.
    let changing = |op: u8| {
        let low = op & 7;
        let top = op >> 6;
        (top == 0 && (low == 4 || low == 5 || low == 7 || (low == 1 && op & 8 != 0)))
            || top == 2
            || (top == 3 && low == 6)
            || op == 0xF1
    };
    for op in 0..=255u8 {
        if changing(op) {
            continue;
        }
        let mut cpu = at_0100(&[op, 0x00, 0x40]);
        with_flags(&mut cpu, 0x12, 0xFF);
        let before = cpu.flags();
        let r = cpu.tick();
        assert!(r != Err(CpuError::InvalidOpcode));
        assert_eq!(cpu.flags(), before, "opcode {:#04x}", op);
    }
}

#[test]
fn cycle_counter_never_goes_down() {
    // LXI SP; MVI B,5; loop: PUSH B; POP D; DCR B; JNZ loop; HLT
    let mut cpu = at_0100(&[
        0x31, 0x00, 0x24, 0x06, 0x05, 0xC5, 0xD1, 0x05, 0xC2, 0x05, 0x01, 0x76,
    ]);
    let mut last = cpu.cycles();
    loop {
        let r = cpu.tick();
        assert!(cpu.cycles() >= last + 4 && cpu.cycles() <= last + 18);
        last = cpu.cycles();
        if r == Err(CpuError::HaltRequested) {
            break;
        }
    }
    assert_eq!(cpu.tick(), Err(CpuError::HaltRequested));
    assert_eq!(cpu.cycles(), last);
    assert_eq!(last, 10 + 7 + 5 * (11 + 10 + 5 + 10) + 7);
}
