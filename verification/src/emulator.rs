//! The machine itself: the memory unit with its memory-mapped keyboard
//! registers, the console byte queues, and the assembled emulator state.

use vstd::prelude::*;

verus! {

use crate::instruction::{
    call_effect, call_ok, lemma_low3_bound, off6_of, off9_of, sign_extend, sr1_of,
    trap_vector_of,
};
use crate::opcode::{opcode_of, DecodeFault, Opcode, Opcodes, Traps};
use crate::register::{reg_of, Register, Registers, KBDR_ADDRESS, KBSR_ADDRESS};

/// The conventional start address for loaded programs.
pub const PC_START: u16 = 0x3000;

/// The number of words in memory: the full 16-bit address space.
pub const MEMORY_MAX: usize = 65536;

/// The console seen by the machine, as plain bytes. `input` queues keyboard
/// bytes the environment has already read, oldest first; `output` collects
/// the characters the machine prints, oldest first. The environment drains
/// `output` to the terminal and refills `input` when the machine asks.
pub struct ConsoleIo {
    pub input: Vec<u8>,
    pub output: Vec<u8>,
}

impl ConsoleIo {
    /// A console with no pending input and no pending output.
    pub fn new() -> (r: ConsoleIo)
        ensures
            r.input@.len() == 0,
            r.output@.len() == 0,
    {
        ConsoleIo { input: Vec::new(), output: Vec::new() }
    }
}

/// Memory after one keyboard poll. When a byte other than zero is pending,
/// the status word gains its ready bit and the data word receives the byte;
/// a zero byte or an empty queue clears the status word to "not ready".
pub open spec fn poll_mem(mem: Seq<u16>, input: Seq<u8>) -> Seq<u16> {
    if input.len() > 0 && input[0] != 0 {
        mem.update(KBSR_ADDRESS as int, 0x8000u16).update(KBDR_ADDRESS as int, input[0] as u16)
    } else {
        mem.update(KBSR_ADDRESS as int, 0u16)
    }
}

/// The input queue after one keyboard poll: the oldest byte is consumed.
pub open spec fn poll_input(input: Seq<u8>) -> Seq<u8> {
    if input.len() > 0 {
        input.drop_first()
    } else {
        input
    }
}

/// The effect of one memory read: the memory afterwards, the input queue
/// afterwards, and the word returned. A read of the keyboard status address
/// polls the keyboard first and returns the freshly written status word;
/// any other read leaves everything unchanged.
pub open spec fn read_step(mem: Seq<u16>, input: Seq<u8>, address: u16) -> (
    Seq<u16>,
    Seq<u8>,
    u16,
) {
    if address == KBSR_ADDRESS {
        let polled = poll_mem(mem, input);
        (polled, poll_input(input), polled[address as int])
    } else {
        (mem, input, mem[address as int])
    }
}

/// The memory unit: a flat store of one word per 16-bit address, with the
/// keyboard status and data registers mapped into it.
#[derive(Clone, Debug)]
pub struct Mmu {
    pub memory: Vec<u16>,
}

impl View for Mmu {
    type V = Seq<u16>;

    /// A memory is viewed as the sequence of its stored words.
    open spec fn view(&self) -> Seq<u16> {
        self.memory@
    }
}

impl Mmu {
    /// The memory covers the whole address space; its length never changes.
    pub open spec fn wf(self) -> bool {
        self@.len() == MEMORY_MAX
    }

    /// A fresh memory with every word cleared.
    pub fn new() -> (r: Mmu)
        ensures
            r.wf(),
            forall|i: int| 0 <= i < MEMORY_MAX ==> r.memory@[i] == 0,
    {
        let mut memory: Vec<u16> = Vec::new();
        while memory.len() < MEMORY_MAX
            invariant
                memory@.len() <= MEMORY_MAX,
                forall|i: int| 0 <= i < memory@.len() ==> memory@[i] == 0,
            decreases MEMORY_MAX - memory@.len(),
        {
            memory.push(0);
        }
        Mmu { memory }
    }

    /// Stores a word. Every 16-bit address is valid by construction, so a
    /// write never fails.
    pub fn write(&mut self, address: u16, value: u16)
        requires
            old(self).wf(),
        ensures
            final(self).wf(),
            final(self).memory@ == old(self).memory@.update(address as int, value),
    {
        self.memory.set(address as usize, value);
    }

    /// Polls the keyboard: consumes the oldest queued byte, if any, and
    /// rewrites the status and data words as `poll_mem` describes. An empty
    /// queue is not an error; the status word just reads "not ready".
    pub fn handle_keyboard(&mut self, input: &mut Vec<u8>)
        requires
            old(self).wf(),
        ensures
            final(self).wf(),
            final(self).memory@ == poll_mem(old(self).memory@, old(input)@),
            final(input)@ == poll_input(old(input)@),
    {
        if input.len() > 0 {
            let byte: u8 = input.remove(0);
            proof {
                assert(old(input)@.remove(0) =~= old(input)@.drop_first());
            }
            if byte != 0 {
                self.write(KBSR_ADDRESS, 0x8000);
                self.write(KBDR_ADDRESS, byte as u16);
            } else {
                self.write(KBSR_ADDRESS, 0);
            }
        } else {
            self.write(KBSR_ADDRESS, 0);
        }
    }

    /// Loads a word. A read of the keyboard status address first performs
    /// the keyboard poll and then returns the updated status word.
    pub fn read(&mut self, address: u16, input: &mut Vec<u8>) -> (value: u16)
        requires
            old(self).wf(),
        ensures
            final(self).wf(),
            final(self).memory@ == read_step(old(self).memory@, old(input)@, address).0,
            final(input)@ == read_step(old(self).memory@, old(input)@, address).1,
            value == read_step(old(self).memory@, old(input)@, address).2,
    {
        if address == KBSR_ADDRESS {
            self.handle_keyboard(input);
        }
        self.memory[address as usize]
    }
}

/// The whole machine: memory, registers, the two dispatch tables and the
/// run flag. The run flag is cleared only by the HALT trap and by a decode
/// fault.
#[derive(Clone, Debug)]
pub struct Emulator {
    pub memory: Mmu,
    pub registers: Registers,
    pub opcodes: Opcodes,
    pub traps: Traps,
    pub running: bool,
}

impl Emulator {
    /// The machine is well-formed when its memory covers the address space.
    pub open spec fn wf(self) -> bool {
        self.memory.wf()
    }

    /// A fresh machine: cleared memory, cleared registers, run flag set.
    pub fn new() -> (r: Emulator)
        ensures
            r.wf(),
            forall|i: int| 0 <= i < MEMORY_MAX ==> r.memory@[i] == 0,
            forall|reg: Register| r.registers.read_reg(reg) == 0,
            r.running,
    {
        Emulator {
            memory: Mmu::new(),
            registers: Registers::new(),
            opcodes: Opcodes::new(),
            traps: Traps::new(),
            running: true,
        }
    }
}

// ---------------------------------------------------------------------------
// The execution loop
// ---------------------------------------------------------------------------

/// What one execution cycle reported: the machine stepped and can continue;
/// it waits for a keyboard byte before its next instruction; it halted; or
/// decoding faulted, which also halts it.
#[derive(Clone, Copy, Debug, PartialEq, Eq, Structural)]
pub enum StepOutcome {
    Continued,
    NeedInput,
    Halted,
    Faulted(DecodeFault),
}

/// Whether the instruction at the program counter consumes keyboard input
/// when executed: its fetch or one of its loads reads the keyboard status
/// address, or it is TRAP GETC or TRAP IN. With an empty input queue the
/// machine waits before such an instruction instead of executing it, so a
/// poll never misses a byte the environment could still deliver: the wait
/// takes the place of the blocking byte-read a console would perform. The
/// string traps PUTS and PUTSP never wait: a walk that crosses the status
/// address with nothing queued just reads "not ready".
pub open spec fn wants_key(regs: Registers, mem: Seq<u16>) -> bool {
    let pc = regs.read_reg(Register::Rpc);
    if pc == KBSR_ADDRESS {
        true
    } else {
        let instr = mem[pc as int];
        let tag = instr >> 12;
        let pc1 = pc.wrapping_add(1);
        if tag == 2 || tag == 11 {
            pc1.wrapping_add(off9_of(instr)) == KBSR_ADDRESS
        } else if tag == 10 {
            let pointer = pc1.wrapping_add(off9_of(instr));
            pointer == KBSR_ADDRESS || mem[pointer as int] == KBSR_ADDRESS
        } else if tag == 6 {
            regs.read_reg(reg_of(sr1_of(instr))).wrapping_add(off6_of(instr)) == KBSR_ADDRESS
        } else if tag == 15 {
            trap_vector_of(instr) == 0x20 || trap_vector_of(instr) == 0x23
        } else {
            false
        }
    }
}

/// The effect of one execution cycle on the machine and the console, and
/// the outcome it reports. A halted machine stays put. When the next
/// instruction needs keyboard input and none is queued, nothing changes and
/// the cycle reports `NeedInput`. Otherwise the word at the program counter
/// is fetched (polling the keyboard when the counter sits on the status
/// address), the counter advances by one, and the decoded opcode
/// dispatches; a decode fault stops the machine.
pub open spec fn step_effect(
    regs: Registers,
    mem: Seq<u16>,
    input: Seq<u8>,
    output: Seq<u8>,
    running: bool,
) -> (Registers, Seq<u16>, Seq<u8>, Seq<u8>, bool, StepOutcome) {
    if !running {
        (regs, mem, input, output, running, StepOutcome::Halted)
    } else if input.len() == 0 && wants_key(regs, mem) {
        (regs, mem, input, output, running, StepOutcome::NeedInput)
    } else {
        let pc = regs.read_reg(Register::Rpc);
        let fetched = read_step(mem, input, pc);
        let instr = fetched.2;
        let advanced = regs.write_reg(Register::Rpc, pc.wrapping_add(1));
        let tag = instr >> 12;
        if tag >= 16 {
            (
                advanced,
                fetched.0,
                fetched.1,
                output,
                false,
                StepOutcome::Faulted(DecodeFault::BadOpcode(tag)),
            )
        } else {
            let op = opcode_of(tag);
            let stepped = call_effect(op, advanced, fetched.0, fetched.1, output, running, instr);
            let outcome = if !call_ok(op, instr) {
                StepOutcome::Faulted(DecodeFault::BadTrapVector(trap_vector_of(instr)))
            } else if stepped.4 {
                StepOutcome::Continued
            } else {
                StepOutcome::Halted
            };
            (stepped.0, stepped.1, stepped.2, stepped.3, stepped.4, outcome)
        }
    }
}

/// Reports whether the machine waits for keyboard input: true exactly when
/// the input queue is empty and the instruction at the program counter
/// would consume a byte.
pub fn awaits_input(emu: &Emulator, io: &ConsoleIo) -> (r: bool)
    requires
        emu.wf(),
    ensures
        r == (io.input@.len() == 0 && wants_key(emu.registers, emu.memory@)),
{
    if io.input.len() != 0 {
        return false;
    }
    let pc: u16 = emu.registers.get_value(Register::Rpc);
    if pc == KBSR_ADDRESS {
        return true;
    }
    let instr: u16 = emu.memory.memory[pc as usize];
    let tag: u16 = instr >> 12;
    let pc1: u16 = pc.wrapping_add(1);
    if tag == 2 || tag == 11 {
        pc1.wrapping_add(sign_extend(instr & 0x1FF, 9)) == KBSR_ADDRESS
    } else if tag == 10 {
        let pointer: u16 = pc1.wrapping_add(sign_extend(instr & 0x1FF, 9));
        pointer == KBSR_ADDRESS || emu.memory.memory[pointer as usize] == KBSR_ADDRESS
    } else if tag == 6 {
        let base_r: u16 = (instr >> 6) & 0x7;
        proof {
            lemma_low3_bound(instr >> 6);
        }
        let base: u16 = emu.registers.get_value(Register::from_index(base_r));
        base.wrapping_add(sign_extend(instr & 0x3F, 6)) == KBSR_ADDRESS
    } else if tag == 15 {
        let vector: u16 = instr & 0xFF;
        vector == 0x20 || vector == 0x23
    } else {
        false
    }
}

/// Runs one execution cycle, as `step_effect` describes: fetch at the
/// program counter, advance it by one word, decode, dispatch, and report
/// how the cycle ended.
pub fn step(emu: &mut Emulator, io: &mut ConsoleIo) -> (r: StepOutcome)
    requires
        old(emu).wf(),
    ensures
        final(emu).wf(),
        final(emu).registers == step_effect(
            old(emu).registers,
            old(emu).memory@,
            old(io).input@,
            old(io).output@,
            old(emu).running,
        ).0,
        final(emu).memory@ == step_effect(
            old(emu).registers,
            old(emu).memory@,
            old(io).input@,
            old(io).output@,
            old(emu).running,
        ).1,
        final(io).input@ == step_effect(
            old(emu).registers,
            old(emu).memory@,
            old(io).input@,
            old(io).output@,
            old(emu).running,
        ).2,
        final(io).output@ == step_effect(
            old(emu).registers,
            old(emu).memory@,
            old(io).input@,
            old(io).output@,
            old(emu).running,
        ).3,
        final(emu).running == step_effect(
            old(emu).registers,
            old(emu).memory@,
            old(io).input@,
            old(io).output@,
            old(emu).running,
        ).4,
        r == step_effect(
            old(emu).registers,
            old(emu).memory@,
            old(io).input@,
            old(io).output@,
            old(emu).running,
        ).5,
        r == StepOutcome::Continued ==> final(emu).running,
        (r == StepOutcome::Halted || r matches StepOutcome::Faulted(_)) ==> !final(emu).running,
        r == StepOutcome::NeedInput ==> final(emu).running && final(io).input@.len() == 0,
{
    if !emu.running {
        return StepOutcome::Halted;
    }
    if awaits_input(emu, io) {
        return StepOutcome::NeedInput;
    }
    let pc: u16 = emu.registers.get_value(Register::Rpc);
    let instr: u16 = emu.memory.read(pc, &mut io.input);
    emu.registers.update(Register::Rpc, pc.wrapping_add(1));
    match Opcode::from_u16(instr >> 12) {
        Ok(op) => {
            proof {
                if pc == KBSR_ADDRESS {
                    assert(0x8000u16 >> 12 == 8) by (bit_vector);
                    assert(0u16 >> 12 == 0) by (bit_vector);
                }
            }
            let ops = emu.opcodes;
            match ops.call(op, emu, instr, io) {
                Ok(()) => {
                    if emu.running {
                        StepOutcome::Continued
                    } else {
                        StepOutcome::Halted
                    }
                },
                Err(fault) => StepOutcome::Faulted(fault),
            }
        },
        Err(fault) => {
            emu.running = false;
            StepOutcome::Faulted(fault)
        },
    }
}

/// The effect of running the execution loop for at most `steps` cycles:
/// `step_effect` iterated until a cycle reports something other than
/// `Continued`, or the budget runs out with the machine still willing.
pub open spec fn run_effect(
    regs: Registers,
    mem: Seq<u16>,
    input: Seq<u8>,
    output: Seq<u8>,
    running: bool,
    steps: nat,
) -> (Registers, Seq<u16>, Seq<u8>, Seq<u8>, bool, StepOutcome)
    decreases steps,
{
    if !running {
        (regs, mem, input, output, running, StepOutcome::Halted)
    } else if steps == 0 {
        (regs, mem, input, output, running, StepOutcome::Continued)
    } else {
        let stepped = step_effect(regs, mem, input, output, running);
        if stepped.5 == StepOutcome::Continued {
            run_effect(stepped.0, stepped.1, stepped.2, stepped.3, stepped.4, (steps - 1) as nat)
        } else {
            stepped
        }
    }
}

/// Runs the execution loop, as `run_effect` describes: cycles through
/// fetch, decode and dispatch until the machine can no longer continue, or
/// until `steps` cycles have run. The loop leaves the Running state only
/// when the machine halts, faults, or waits for a keyboard byte; after
/// `NeedInput` the caller queues one byte and calls again. An emulated
/// program may legitimately run forever, so the budget keeps each call
/// finite: `Continued` reports an exhausted budget with the machine still
/// willing, and the caller simply calls again.
pub fn run(emu: &mut Emulator, io: &mut ConsoleIo, steps: u64) -> (r: StepOutcome)
    requires
        old(emu).wf(),
    ensures
        final(emu).wf(),
        final(emu).registers == run_effect(
            old(emu).registers,
            old(emu).memory@,
            old(io).input@,
            old(io).output@,
            old(emu).running,
            steps as nat,
        ).0,
        final(emu).memory@ == run_effect(
            old(emu).registers,
            old(emu).memory@,
            old(io).input@,
            old(io).output@,
            old(emu).running,
            steps as nat,
        ).1,
        final(io).input@ == run_effect(
            old(emu).registers,
            old(emu).memory@,
            old(io).input@,
            old(io).output@,
            old(emu).running,
            steps as nat,
        ).2,
        final(io).output@ == run_effect(
            old(emu).registers,
            old(emu).memory@,
            old(io).input@,
            old(io).output@,
            old(emu).running,
            steps as nat,
        ).3,
        final(emu).running == run_effect(
            old(emu).registers,
            old(emu).memory@,
            old(io).input@,
            old(io).output@,
            old(emu).running,
            steps as nat,
        ).4,
        r == run_effect(
            old(emu).registers,
            old(emu).memory@,
            old(io).input@,
            old(io).output@,
            old(emu).running,
            steps as nat,
        ).5,
        (r == StepOutcome::Halted || r matches StepOutcome::Faulted(_)) <==> !final(emu).running,
        r == StepOutcome::NeedInput ==> final(emu).running && final(io).input@.len() == 0,
        r == StepOutcome::Continued ==> final(emu).running,
{
    let mut remaining: u64 = steps;
    loop
        invariant
            emu.wf(),
            remaining <= steps,
            run_effect(
                old(emu).registers,
                old(emu).memory@,
                old(io).input@,
                old(io).output@,
                old(emu).running,
                steps as nat,
            ) == run_effect(
                emu.registers,
                emu.memory@,
                io.input@,
                io.output@,
                emu.running,
                remaining as nat,
            ),
        decreases remaining,
    {
        if !emu.running {
            proof {
                assert(run_effect(
                    emu.registers,
                    emu.memory@,
                    io.input@,
                    io.output@,
                    emu.running,
                    remaining as nat,
                ) == (
                    emu.registers,
                    emu.memory@,
                    io.input@,
                    io.output@,
                    emu.running,
                    StepOutcome::Halted,
                ));
            }
            return StepOutcome::Halted;
        }
        if remaining == 0 {
            proof {
                assert(run_effect(
                    emu.registers,
                    emu.memory@,
                    io.input@,
                    io.output@,
                    emu.running,
                    remaining as nat,
                ) == (
                    emu.registers,
                    emu.memory@,
                    io.input@,
                    io.output@,
                    emu.running,
                    StepOutcome::Continued,
                ));
            }
            return StepOutcome::Continued;
        }
        let ghost pre_regs = emu.registers;
        let ghost pre_mem = emu.memory@;
        let ghost pre_input = io.input@;
        let ghost pre_output = io.output@;
        let ghost pre_running = emu.running;
        let ghost pre_remaining = remaining;
        remaining = remaining - 1;
        let outcome = step(emu, io);
        proof {
            assert(run_effect(
                pre_regs,
                pre_mem,
                pre_input,
                pre_output,
                pre_running,
                pre_remaining as nat,
            ) == (if step_effect(pre_regs, pre_mem, pre_input, pre_output, pre_running).5
                == StepOutcome::Continued {
                run_effect(
                    emu.registers,
                    emu.memory@,
                    io.input@,
                    io.output@,
                    emu.running,
                    remaining as nat,
                )
            } else {
                step_effect(pre_regs, pre_mem, pre_input, pre_output, pre_running)
            }));
        }
        match outcome {
            StepOutcome::Continued => {
            },
            _ => {
                return outcome;
            },
        }
    }
}

} // verus!
