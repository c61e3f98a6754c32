//! Opcode and trap-vector decoding: the sixteen instruction tags, the six
//! trap routines, and the decode faults raised for anything unrecognized.

use vstd::prelude::*;

verus! {

use crate::emulator::{ConsoleIo, Emulator};
use crate::instruction::{
    call_effect, call_ok, op_add, op_and, op_br, op_jmp, op_jsr, op_ld, op_ldi, op_ldr, op_lea,
    op_not, op_res, op_rti, op_st, op_sti, op_str, op_trap, trap_effect, trap_getc, trap_halt,
    trap_in, trap_out, trap_puts, trap_putsp, trap_vector_of,
};

/// A fault raised while decoding: an instruction tag or a trap vector that
/// names no recognized operation. Either fault stops the machine.
#[derive(Clone, Copy, Debug, PartialEq, Eq, Structural)]
pub enum DecodeFault {
    /// The four-bit opcode tag matched no instruction.
    BadOpcode(u16),
    /// The eight-bit trap vector matched no trap routine.
    BadTrapVector(u16),
}

/// The sixteen opcodes, in tag order: the tag of an instruction word is its
/// top four bits.
#[derive(Clone, Copy, Debug, PartialEq, Eq, Structural)]
pub enum Opcode {
    OpBr,
    OpAdd,
    OpLd,
    OpSt,
    OpJsr,
    OpAnd,
    OpLdr,
    OpStr,
    OpRti,
    OpNot,
    OpLdi,
    OpSti,
    OpJmp,
    OpRes,
    OpLea,
    OpTrap,
}

/// The opcode selected by a tag below sixteen.
pub open spec fn opcode_of(value: u16) -> Opcode {
    if value == 0 {
        Opcode::OpBr
    } else if value == 1 {
        Opcode::OpAdd
    } else if value == 2 {
        Opcode::OpLd
    } else if value == 3 {
        Opcode::OpSt
    } else if value == 4 {
        Opcode::OpJsr
    } else if value == 5 {
        Opcode::OpAnd
    } else if value == 6 {
        Opcode::OpLdr
    } else if value == 7 {
        Opcode::OpStr
    } else if value == 8 {
        Opcode::OpRti
    } else if value == 9 {
        Opcode::OpNot
    } else if value == 10 {
        Opcode::OpLdi
    } else if value == 11 {
        Opcode::OpSti
    } else if value == 12 {
        Opcode::OpJmp
    } else if value == 13 {
        Opcode::OpRes
    } else if value == 14 {
        Opcode::OpLea
    } else {
        Opcode::OpTrap
    }
}

impl Opcode {
    /// Converts a fetched tag into its opcode. A four-bit tag always matches,
    /// but the conversion stays defensive: any wider value is a decode fault.
    pub fn from_u16(value: u16) -> (r: Result<Opcode, DecodeFault>)
        ensures
            value < 16 ==> r == Result::<Opcode, DecodeFault>::Ok(opcode_of(value)),
            value >= 16 ==> r == Result::<Opcode, DecodeFault>::Err(DecodeFault::BadOpcode(value)),
    {
        if value < 16 {
            Ok(if value == 0 {
                Opcode::OpBr
            } else if value == 1 {
                Opcode::OpAdd
            } else if value == 2 {
                Opcode::OpLd
            } else if value == 3 {
                Opcode::OpSt
            } else if value == 4 {
                Opcode::OpJsr
            } else if value == 5 {
                Opcode::OpAnd
            } else if value == 6 {
                Opcode::OpLdr
            } else if value == 7 {
                Opcode::OpStr
            } else if value == 8 {
                Opcode::OpRti
            } else if value == 9 {
                Opcode::OpNot
            } else if value == 10 {
                Opcode::OpLdi
            } else if value == 11 {
                Opcode::OpSti
            } else if value == 12 {
                Opcode::OpJmp
            } else if value == 13 {
                Opcode::OpRes
            } else if value == 14 {
                Opcode::OpLea
            } else {
                Opcode::OpTrap
            })
        } else {
            Err(DecodeFault::BadOpcode(value))
        }
    }
}

/// The six trap routines and their vectors: GETC is 0x20, OUT 0x21, PUTS
/// 0x22, IN 0x23, PUTSP 0x24 and HALT 0x25.
#[derive(Clone, Copy, Debug, PartialEq, Eq, Structural)]
pub enum Trap {
    TrapGetc,
    TrapOut,
    TrapPuts,
    TrapIn,
    TrapPutsp,
    TrapHalt,
}

/// Whether an eight-bit trap vector names a recognized trap routine.
pub open spec fn trap_vector_known(value: u16) -> bool {
    0x20 <= value <= 0x25
}

/// The trap routine selected by a recognized vector.
pub open spec fn trap_of(value: u16) -> Trap {
    if value == 0x20 {
        Trap::TrapGetc
    } else if value == 0x21 {
        Trap::TrapOut
    } else if value == 0x22 {
        Trap::TrapPuts
    } else if value == 0x23 {
        Trap::TrapIn
    } else if value == 0x24 {
        Trap::TrapPutsp
    } else {
        Trap::TrapHalt
    }
}

impl Trap {
    /// Converts a trap vector into its routine; an unmapped vector is a
    /// decode fault.
    pub fn from_u16(value: u16) -> (r: Result<Trap, DecodeFault>)
        ensures
            trap_vector_known(value) ==> r == Result::<Trap, DecodeFault>::Ok(trap_of(value)),
            !trap_vector_known(value) ==> r == Result::<Trap, DecodeFault>::Err(
                DecodeFault::BadTrapVector(value),
            ),
    {
        if value == 0x20 {
            Ok(Trap::TrapGetc)
        } else if value == 0x21 {
            Ok(Trap::TrapOut)
        } else if value == 0x22 {
            Ok(Trap::TrapPuts)
        } else if value == 0x23 {
            Ok(Trap::TrapIn)
        } else if value == 0x24 {
            Ok(Trap::TrapPutsp)
        } else if value == 0x25 {
            Ok(Trap::TrapHalt)
        } else {
            Err(DecodeFault::BadTrapVector(value))
        }
    }
}

/// The dispatch table for the sixteen opcodes. The mapping from tag to
/// handler is fixed, so the table carries no state: dispatch is a single
/// exhaustive match in `call`.
#[derive(Clone, Copy, Debug)]
pub struct Opcodes {}

impl Opcodes {
    /// A fresh dispatch table.
    pub fn new() -> (r: Opcodes) {
        Opcodes {  }
    }

    /// Dispatches one decoded opcode to its handler. GETC and IN block for
    /// a keyboard byte, so dispatching those traps asks for one queued byte;
    /// every other operation runs unconditionally. The result reports the
    /// decode fault of an unrecognized trap vector.
    pub fn call(&self, op: Opcode, emu: &mut Emulator, instr: u16, io: &mut ConsoleIo) -> (r:
        Result<(), DecodeFault>)
        requires
            old(emu).wf(),
            op == Opcode::OpTrap && (trap_vector_of(instr) == 0x20 || trap_vector_of(instr)
                == 0x23) ==> old(io).input@.len() > 0,
        ensures
            final(emu).wf(),
            final(emu).registers == call_effect(
                op,
                old(emu).registers,
                old(emu).memory@,
                old(io).input@,
                old(io).output@,
                old(emu).running,
                instr,
            ).0,
            final(emu).memory@ == call_effect(
                op,
                old(emu).registers,
                old(emu).memory@,
                old(io).input@,
                old(io).output@,
                old(emu).running,
                instr,
            ).1,
            final(io).input@ == call_effect(
                op,
                old(emu).registers,
                old(emu).memory@,
                old(io).input@,
                old(io).output@,
                old(emu).running,
                instr,
            ).2,
            final(io).output@ == call_effect(
                op,
                old(emu).registers,
                old(emu).memory@,
                old(io).input@,
                old(io).output@,
                old(emu).running,
                instr,
            ).3,
            final(emu).running == call_effect(
                op,
                old(emu).registers,
                old(emu).memory@,
                old(io).input@,
                old(io).output@,
                old(emu).running,
                instr,
            ).4,
            r is Ok <==> call_ok(op, instr),
            r matches Err(fault) ==> fault == DecodeFault::BadTrapVector(trap_vector_of(instr)),
    {
        match op {
            Opcode::OpBr => {
                op_br(emu, instr);
                Ok(())
            },
            Opcode::OpAdd => {
                op_add(emu, instr);
                Ok(())
            },
            Opcode::OpLd => {
                op_ld(emu, instr, io);
                Ok(())
            },
            Opcode::OpSt => {
                op_st(emu, instr);
                Ok(())
            },
            Opcode::OpJsr => {
                op_jsr(emu, instr);
                Ok(())
            },
            Opcode::OpAnd => {
                op_and(emu, instr);
                Ok(())
            },
            Opcode::OpLdr => {
                op_ldr(emu, instr, io);
                Ok(())
            },
            Opcode::OpStr => {
                op_str(emu, instr);
                Ok(())
            },
            Opcode::OpRti => {
                op_rti();
                Ok(())
            },
            Opcode::OpNot => {
                op_not(emu, instr);
                Ok(())
            },
            Opcode::OpLdi => {
                op_ldi(emu, instr, io);
                Ok(())
            },
            Opcode::OpSti => {
                op_sti(emu, instr, io);
                Ok(())
            },
            Opcode::OpJmp => {
                op_jmp(emu, instr);
                Ok(())
            },
            Opcode::OpRes => {
                op_res();
                Ok(())
            },
            Opcode::OpLea => {
                op_lea(emu, instr);
                Ok(())
            },
            Opcode::OpTrap => op_trap(emu, instr, io),
        }
    }
}

/// The dispatch table for the six trap routines, stateless like `Opcodes`.
#[derive(Clone, Copy, Debug)]
pub struct Traps {}

impl Traps {
    /// A fresh trap dispatch table.
    pub fn new() -> (r: Traps) {
        Traps {  }
    }

    /// Dispatches one trap routine. GETC and IN consume one queued keyboard
    /// byte, so they ask for a non-empty queue.
    pub fn call(&self, trap: Trap, emu: &mut Emulator, io: &mut ConsoleIo)
        requires
            old(emu).wf(),
            trap == Trap::TrapGetc || trap == Trap::TrapIn ==> old(io).input@.len() > 0,
        ensures
            final(emu).wf(),
            final(emu).registers == trap_effect(
                trap,
                old(emu).registers,
                old(emu).memory@,
                old(io).input@,
                old(io).output@,
                old(emu).running,
            ).0,
            final(emu).memory@ == trap_effect(
                trap,
                old(emu).registers,
                old(emu).memory@,
                old(io).input@,
                old(io).output@,
                old(emu).running,
            ).1,
            final(io).input@ == trap_effect(
                trap,
                old(emu).registers,
                old(emu).memory@,
                old(io).input@,
                old(io).output@,
                old(emu).running,
            ).2,
            final(io).output@ == trap_effect(
                trap,
                old(emu).registers,
                old(emu).memory@,
                old(io).input@,
                old(io).output@,
                old(emu).running,
            ).3,
            final(emu).running == trap_effect(
                trap,
                old(emu).registers,
                old(emu).memory@,
                old(io).input@,
                old(io).output@,
                old(emu).running,
            ).4,
    {
        match trap {
            Trap::TrapGetc => trap_getc(emu, io),
            Trap::TrapOut => trap_out(emu, io),
            Trap::TrapPuts => trap_puts(emu, io),
            Trap::TrapIn => trap_in(emu, io),
            Trap::TrapPutsp => trap_putsp(emu, io),
            Trap::TrapHalt => trap_halt(emu, io),
        }
    }
}

} // verus!
