//! Texts in memory and the CP/M system calls read from the processor state.

use i8080::cpm::{system_call, SystemCall, SYSTEM_ENTRY, TEXT_END, WARM_BOOT, WRITE_CHAR, WRITE_TEXT};
use i8080::{Memory, Operand, RegPair, StepOutcome, CPU};

#[test]
fn read_until_stops_before_the_first_stop_byte() {
    let mut mem = Memory::new();
    assert_eq!(mem.load(b"HELLO$WORLD$", 0x0200), Ok(()));
    assert_eq!(mem.read_until(0x0200, b'$'), b"HELLO".to_vec());
    assert_eq!(mem.read_until(0x0203, b'$'), b"LO".to_vec());
    assert_eq!(mem.read_until(0x0205, b'$'), Vec::<u8>::new());
    assert_eq!(mem.read_until(0x0206, b'$'), b"WORLD".to_vec());
    assert_eq!(mem.read_until(0x0200, b'L'), b"HE".to_vec());
    assert_eq!(mem.read_until(0x0200, 0), b"HELLO$WORLD$".to_vec());
}

#[test]
fn read_until_wraps_at_the_top_of_memory() {
    let mut mem = Memory::new();
    mem.write_byte(0xFFFE, b'A');
    mem.write_byte(0xFFFF, b'B');
    mem.write_byte(0x0000, b'C');
    mem.write_byte(0x0001, b'$');
    assert_eq!(mem.read_until(0xFFFE, b'$'), b"ABC".to_vec());
}

#[test]
fn read_until_without_a_stop_byte_reads_the_whole_memory_once() {
    let mut mem = Memory::new();
    mem.write_byte(0x1000, 7);
    let text = mem.read_until(0x0FFF, b'$');
    assert_eq!(text.len(), 65536);
    assert_eq!(text[0], 0);
    assert_eq!(text[1], 7);
    assert!(text[2..].iter().all(|&b| b == 0));
}

#[test]
fn system_call_constants() {
    assert_eq!(WARM_BOOT, 0x0000);
    assert_eq!(SYSTEM_ENTRY, 0x0005);
    assert_eq!(WRITE_CHAR, 2);
    assert_eq!(WRITE_TEXT, 9);
    assert_eq!(TEXT_END, b'$');
}

#[test]
fn system_call_at_warm_boot() {
    let cpu = CPU::new();
    assert_eq!(system_call(&cpu), Some(SystemCall::WarmBoot));
}

#[test]
fn system_call_writes_a_character() {
    let mut cpu = CPU::new();
    cpu.init_start_addr(SYSTEM_ENTRY);
    cpu.set_operand(Operand::C, WRITE_CHAR);
    cpu.set_operand(Operand::E, b'x');
    assert_eq!(system_call(&cpu), Some(SystemCall::Write(vec![b'x'])));
}

#[test]
fn system_call_writes_a_text() {
    let mut cpu = CPU::new();
    assert_eq!(cpu.load_from(b"CPU IS OPERATIONAL$ AND MORE", 0x0300), Ok(()));
    cpu.init_start_addr(SYSTEM_ENTRY);
    cpu.set_operand(Operand::C, WRITE_TEXT);
    cpu.set_pair(RegPair::DE, 0x0300);
    assert_eq!(system_call(&cpu), Some(SystemCall::Write(b"CPU IS OPERATIONAL".to_vec())));
    assert_eq!(cpu.read_until(0x0304, b' '), b"IS".to_vec());
}

#[test]
fn system_call_asks_nothing_elsewhere() {
    let mut cpu = CPU::new();
    cpu.set_operand(Operand::C, WRITE_TEXT);
    cpu.init_start_addr(0x0100);
    assert_eq!(system_call(&cpu), None);
    cpu.init_start_addr(SYSTEM_ENTRY);
    cpu.set_operand(Operand::C, 1);
    assert_eq!(system_call(&cpu), None);
    cpu.set_operand(Operand::C, 0);
    assert_eq!(system_call(&cpu), None);
}

#[test]
fn program_calls_the_system_and_comes_back() {
    // MVI C,9; LXI D,0x0110; CALL 5; JMP 0   with RET at the system entry.
    let mut cpu = CPU::new();
    assert_eq!(
        cpu.load_from(&[0x0E, 0x09, 0x11, 0x10, 0x01, 0xCD, 0x05, 0x00, 0xC3, 0x00, 0x00], 0x0100),
        Ok(())
    );
    assert_eq!(cpu.load_from(b"OK$", 0x0110), Ok(()));
    cpu.write_byte(SYSTEM_ENTRY, 0xC9);
    cpu.init_start_addr(0x0100);
    cpu.set_pair(RegPair::SP, 0x2400);
    let mut written = Vec::new();
    let mut done = false;
    for _ in 0..10 {
        assert_eq!(cpu.tick(), Ok(StepOutcome::Continue));
        match system_call(&cpu) {
            Some(SystemCall::WarmBoot) => {
                done = true;
                break;
            }
            Some(SystemCall::Write(bytes)) => written.push(bytes),
            None => {}
        }
    }
    assert!(done);
    assert_eq!(written, vec![b"OK".to_vec()]);
    assert_eq!(cpu.sp(), 0x2400);
}
