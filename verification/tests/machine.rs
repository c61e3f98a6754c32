use lc3_emu::emulator::{
    awaits_input, run, step, ConsoleIo, Emulator, StepOutcome, MEMORY_MAX, PC_START,
};
use lc3_emu::opcode::{DecodeFault, Opcode, Opcodes, Trap};
use lc3_emu::register::{Register, KBDR_ADDRESS, KBSR_ADDRESS};

fn started() -> Emulator {
    let mut emu = Emulator::new();
    emu.registers.update(Register::Rcond, 2);
    emu.registers.update(Register::Rpc, PC_START);
    emu
}

#[test]
fn constants_cover_the_whole_address_space() {
    assert_eq!(MEMORY_MAX, 65536);
    assert_eq!(PC_START, 0x3000);
    assert_eq!(KBSR_ADDRESS, 0xFE00);
    assert_eq!(KBDR_ADDRESS, 0xFE02);
}

#[test]
fn new_emulator_is_running_with_clear_state() {
    let emu = Emulator::new();
    assert!(emu.running);
    assert_eq!(emu.registers.get_value(Register::Rpc), 0);
    assert_eq!(emu.memory.memory.len(), MEMORY_MAX);
    assert_eq!(emu.memory.memory[0x3000], 0);
}

#[test]
fn mmu_write_then_read_returns_stored_word() {
    let mut emu = Emulator::new();
    let mut io = ConsoleIo::new();
    emu.memory.write(0x1234, 0xBEEF);
    assert_eq!(emu.memory.read(0x1234, &mut io.input), 0xBEEF);
}

#[test]
fn keyboard_status_read_with_pending_byte_sets_ready_bit() {
    let mut emu = Emulator::new();
    let mut io = ConsoleIo::new();
    io.input.push(0x41);
    let status = emu.memory.read(KBSR_ADDRESS, &mut io.input);
    assert_eq!(status, 0x8000);
    assert_eq!(emu.memory.memory[KBDR_ADDRESS as usize], 0x41);
    assert!(io.input.is_empty());
}

#[test]
fn keyboard_status_read_with_zero_byte_reads_not_ready() {
    let mut emu = Emulator::new();
    let mut io = ConsoleIo::new();
    io.input.push(0x00);
    let status = emu.memory.read(KBSR_ADDRESS, &mut io.input);
    assert_eq!(status, 0);
    assert!(io.input.is_empty());
}

#[test]
fn keyboard_status_read_with_empty_queue_reads_not_ready() {
    let mut emu = Emulator::new();
    let mut io = ConsoleIo::new();
    emu.memory.write(KBSR_ADDRESS, 0x8000);
    let status = emu.memory.read(KBSR_ADDRESS, &mut io.input);
    assert_eq!(status, 0);
}

#[test]
fn halt_trap_stops_the_machine_whatever_the_pc() {
    let mut emu = started();
    let mut io = ConsoleIo::new();
    emu.memory.write(PC_START, 0xF025);
    let outcome = step(&mut emu, &mut io);
    assert_eq!(outcome, StepOutcome::Halted);
    assert!(!emu.running);
    assert_eq!(io.output, b"HALT\n".to_vec());
    // The loop's next state check leaves immediately, whatever the counter.
    emu.registers.update(Register::Rpc, 0xABCD);
    assert_eq!(run(&mut emu, &mut io, 10), StepOutcome::Halted);
    assert_eq!(io.output, b"HALT\n".to_vec());
}

#[test]
fn step_fetches_and_advances_the_counter() {
    let mut emu = started();
    let mut io = ConsoleIo::new();
    // BR with no condition bits: never taken.
    emu.memory.write(PC_START, 0x0000);
    let outcome = step(&mut emu, &mut io);
    assert_eq!(outcome, StepOutcome::Continued);
    assert_eq!(emu.registers.get_value(Register::Rpc), 0x3001);
    assert!(emu.running);
}

#[test]
fn run_executes_a_small_program_to_the_halt() {
    let mut emu = started();
    let mut io = ConsoleIo::new();
    // ADD R0, R0, #7 then TRAP HALT.
    emu.memory.write(0x3000, 0x1027);
    emu.memory.write(0x3001, 0xF025);
    let outcome = run(&mut emu, &mut io, 100);
    assert_eq!(outcome, StepOutcome::Halted);
    assert_eq!(emu.registers.get_value(Register::Rr0), 7);
    assert_eq!(io.output, b"HALT\n".to_vec());
    assert!(!emu.running);
}

#[test]
fn run_reports_an_exhausted_step_budget() {
    let mut emu = started();
    let mut io = ConsoleIo::new();
    // BRnzp #-1: an intentional infinite loop.
    emu.memory.write(0x3000, 0x0FFF);
    let outcome = run(&mut emu, &mut io, 25);
    assert_eq!(outcome, StepOutcome::Continued);
    assert!(emu.running);
}

#[test]
fn unknown_trap_vector_faults_and_stops() {
    let mut emu = started();
    let mut io = ConsoleIo::new();
    emu.memory.write(PC_START, 0xF026);
    let outcome = step(&mut emu, &mut io);
    assert_eq!(outcome, StepOutcome::Faulted(DecodeFault::BadTrapVector(0x26)));
    assert!(!emu.running);
}

#[test]
fn getc_trap_waits_for_input_then_consumes_it() {
    let mut emu = started();
    let mut io = ConsoleIo::new();
    emu.memory.write(PC_START, 0xF020);
    assert!(awaits_input(&emu, &io));
    let outcome = step(&mut emu, &mut io);
    assert_eq!(outcome, StepOutcome::NeedInput);
    assert_eq!(emu.registers.get_value(Register::Rpc), PC_START);
    io.input.push(0x41);
    assert!(!awaits_input(&emu, &io));
    let outcome = step(&mut emu, &mut io);
    assert_eq!(outcome, StepOutcome::Continued);
    assert_eq!(emu.registers.get_value(Register::Rr0), 0x41);
    assert_eq!(emu.registers.get_value(Register::Rpc), 0x3001);
    // Flags stay what they were: a trap write is not a flag update.
    assert_eq!(emu.registers.get_value(Register::Rcond), 2);
}

#[test]
fn run_yields_for_input_and_resumes() {
    let mut emu = started();
    let mut io = ConsoleIo::new();
    emu.memory.write(0x3000, 0xF020);
    emu.memory.write(0x3001, 0xF025);
    let outcome = run(&mut emu, &mut io, 100);
    assert_eq!(outcome, StepOutcome::NeedInput);
    io.input.push(0x5A);
    let outcome = run(&mut emu, &mut io, 100);
    assert_eq!(outcome, StepOutcome::Halted);
    assert_eq!(emu.registers.get_value(Register::Rr0), 0x5A);
}

#[test]
fn load_through_the_status_address_waits_for_a_byte() {
    let mut emu = started();
    let mut io = ConsoleIo::new();
    // LDI R0, #1 with the pointer word naming the keyboard status address.
    emu.memory.write(0x3000, 0xA001);
    emu.memory.write(0x3002, KBSR_ADDRESS);
    let outcome = step(&mut emu, &mut io);
    assert_eq!(outcome, StepOutcome::NeedInput);
    io.input.push(0x5A);
    let outcome = step(&mut emu, &mut io);
    assert_eq!(outcome, StepOutcome::Continued);
    assert_eq!(emu.registers.get_value(Register::Rr0), 0x8000);
    assert_eq!(emu.memory.memory[KBDR_ADDRESS as usize], 0x5A);
    assert!(io.input.is_empty());
}

#[test]
fn fetch_at_the_status_address_polls_first() {
    let mut emu = started();
    let mut io = ConsoleIo::new();
    emu.registers.update(Register::Rpc, KBSR_ADDRESS);
    let outcome = step(&mut emu, &mut io);
    assert_eq!(outcome, StepOutcome::NeedInput);
    io.input.push(0x41);
    // The poll rewrites the status word before the fetch reads it; the
    // fetched word 0x8000 decodes as the reserved RTI no-op.
    let outcome = step(&mut emu, &mut io);
    assert_eq!(outcome, StepOutcome::Continued);
    assert_eq!(emu.registers.get_value(Register::Rpc), 0xFE01);
    assert_eq!(emu.memory.memory[KBDR_ADDRESS as usize], 0x41);
}

#[test]
fn step_on_a_halted_machine_does_nothing() {
    let mut emu = started();
    let mut io = ConsoleIo::new();
    emu.memory.write(PC_START, 0x1027);
    emu.running = false;
    let outcome = step(&mut emu, &mut io);
    assert_eq!(outcome, StepOutcome::Halted);
    assert_eq!(emu.registers.get_value(Register::Rr0), 0);
    assert_eq!(emu.registers.get_value(Register::Rpc), PC_START);
}

#[test]
fn opcode_conversion_is_defensive() {
    assert_eq!(Opcode::from_u16(0), Ok(Opcode::OpBr));
    assert_eq!(Opcode::from_u16(1), Ok(Opcode::OpAdd));
    assert_eq!(Opcode::from_u16(15), Ok(Opcode::OpTrap));
    assert_eq!(Opcode::from_u16(16), Err(DecodeFault::BadOpcode(16)));
}

#[test]
fn trap_conversion_rejects_unknown_vectors() {
    assert_eq!(Trap::from_u16(0x20), Ok(Trap::TrapGetc));
    assert_eq!(Trap::from_u16(0x25), Ok(Trap::TrapHalt));
    assert_eq!(Trap::from_u16(0x1F), Err(DecodeFault::BadTrapVector(0x1F)));
    assert_eq!(Trap::from_u16(0x26), Err(DecodeFault::BadTrapVector(0x26)));
}

#[test]
fn opcodes_call_dispatches_by_tag() {
    let mut emu = started();
    let mut io = ConsoleIo::new();
    emu.registers.update(Register::Rr1, 40);
    let table = Opcodes::new();
    // ADD R0, R1, #2
    let r = table.call(Opcode::OpAdd, &mut emu, 0x1062, &mut io);
    assert_eq!(r, Ok(()));
    assert_eq!(emu.registers.get_value(Register::Rr0), 42);
}
