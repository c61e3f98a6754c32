use lc3_emu::emulator::{ConsoleIo, Emulator};
use lc3_emu::instruction::{
    trap_getc, trap_halt, trap_in, trap_out, trap_puts, trap_putsp,
};
use lc3_emu::opcode::{Trap, Traps};
use lc3_emu::register::Register;

#[test]
fn puts_prints_hi_and_stops_at_terminator() {
    let mut emu = Emulator::new();
    let mut io = ConsoleIo::new();
    emu.memory.write(0x5000, 0x48);
    emu.memory.write(0x5001, 0x49);
    emu.memory.write(0x5002, 0x00);
    emu.memory.write(0x5003, 0x5A);
    emu.registers.update(Register::Rr0, 0x5000);
    trap_puts(&mut emu, &mut io);
    assert_eq!(io.output, vec![0x48, 0x49]);
}

#[test]
fn puts_truncates_each_word_to_its_low_byte() {
    let mut emu = Emulator::new();
    let mut io = ConsoleIo::new();
    emu.memory.write(0x5000, 0x1248);
    emu.memory.write(0x5001, 0x0000);
    emu.registers.update(Register::Rr0, 0x5000);
    trap_puts(&mut emu, &mut io);
    assert_eq!(io.output, vec![0x48]);
}

#[test]
fn putsp_unpacks_two_characters_per_word() {
    let mut emu = Emulator::new();
    let mut io = ConsoleIo::new();
    emu.memory.write(0x5000, 0x4948);
    emu.memory.write(0x5001, 0x0041);
    emu.memory.write(0x5002, 0x0000);
    emu.registers.update(Register::Rr0, 0x5000);
    trap_putsp(&mut emu, &mut io);
    assert_eq!(io.output, vec![0x48, 0x49, 0x41]);
}

#[test]
fn out_prints_low_byte_of_r0() {
    let mut emu = Emulator::new();
    let mut io = ConsoleIo::new();
    emu.registers.update(Register::Rr0, 0x1248);
    trap_out(&mut emu, &mut io);
    assert_eq!(io.output, vec![0x48]);
}

#[test]
fn getc_takes_one_byte_without_touching_flags() {
    let mut emu = Emulator::new();
    let mut io = ConsoleIo::new();
    io.input.push(0x61);
    io.input.push(0x62);
    emu.registers.update(Register::Rcond, 2);
    trap_getc(&mut emu, &mut io);
    assert_eq!(emu.registers.get_value(Register::Rr0), 0x61);
    assert_eq!(emu.registers.get_value(Register::Rcond), 2);
    assert_eq!(io.input, vec![0x62]);
    assert!(io.output.is_empty());
}

#[test]
fn in_prints_prompt_then_takes_one_byte() {
    let mut emu = Emulator::new();
    let mut io = ConsoleIo::new();
    io.input.push(0x62);
    trap_in(&mut emu, &mut io);
    assert_eq!(io.output, b"Enter a character: \n".to_vec());
    assert_eq!(emu.registers.get_value(Register::Rr0), 0x62);
    assert!(io.input.is_empty());
}

#[test]
fn halt_prints_notice_and_clears_run_flag() {
    let mut emu = Emulator::new();
    let mut io = ConsoleIo::new();
    assert!(emu.running);
    trap_halt(&mut emu, &mut io);
    assert_eq!(io.output, b"HALT\n".to_vec());
    assert!(!emu.running);
}

#[test]
fn traps_call_dispatches_by_name() {
    let mut emu = Emulator::new();
    let mut io = ConsoleIo::new();
    emu.memory.write(0x5000, 0x21);
    emu.memory.write(0x5001, 0x00);
    emu.registers.update(Register::Rr0, 0x5000);
    let traps = Traps::new();
    traps.call(Trap::TrapPuts, &mut emu, &mut io);
    assert_eq!(io.output, vec![0x21]);
    traps.call(Trap::TrapHalt, &mut emu, &mut io);
    assert!(!emu.running);
}
