//! The instruction handlers and trap routines, with the spec-level effect of
//! every operation on the register file, the memory, and the console queues.

use vstd::prelude::*;

verus! {

use crate::emulator::{read_step, ConsoleIo, Emulator, MEMORY_MAX};
use crate::opcode::{trap_of, trap_vector_known, DecodeFault, Opcode, Trap};
use crate::register::{
    lemma_flag_exclusive, reg_of, sign_flag_value, ConditionFlag, Register, Registers,
    KBSR_ADDRESS,
};

// ---------------------------------------------------------------------------
// Instruction fields
// ---------------------------------------------------------------------------

/// The destination-register field, bits 11:9. BR keeps its three condition
/// bits and ST/STI its source register in the same position.
pub open spec fn dr_of(instr: u16) -> u16 {
    (instr >> 9) & 0x7
}

/// The first source or base register, bits 8:6.
pub open spec fn sr1_of(instr: u16) -> u16 {
    (instr >> 6) & 0x7
}

/// The second source register, bits 2:0.
pub open spec fn sr2_of(instr: u16) -> u16 {
    instr & 0x7
}

/// The immediate-mode bit of ADD and AND, bit 5.
pub open spec fn imm_bit_of(instr: u16) -> u16 {
    (instr >> 5) & 0x1
}

/// The offset-mode bit of JSR, bit 11.
pub open spec fn jsr_bit_of(instr: u16) -> u16 {
    (instr >> 11) & 0x1
}

/// The eight-bit trap vector of TRAP.
pub open spec fn trap_vector_of(instr: u16) -> u16 {
    instr & 0xFF
}

/// A field of `bit_count` bits widened to 16 bits by replicating its top
/// bit: standard two's-complement sign extension.
pub open spec fn sign_extend_spec(x: u16, bit_count: u16) -> u16
    recommends
        1 <= bit_count < 16,
{
    if (x >> ((bit_count - 1) as u16)) & 1 != 0 {
        x | (0xFFFFu16 << bit_count)
    } else {
        x
    }
}

/// The sign-extended five-bit immediate of ADD and AND.
pub open spec fn imm5_of(instr: u16) -> u16 {
    sign_extend_spec(instr & 0x1F, 5)
}

/// The sign-extended six-bit offset of LDR and STR.
pub open spec fn off6_of(instr: u16) -> u16 {
    sign_extend_spec(instr & 0x3F, 6)
}

/// The sign-extended nine-bit PC-relative offset.
pub open spec fn off9_of(instr: u16) -> u16 {
    sign_extend_spec(instr & 0x1FF, 9)
}

/// The sign-extended eleven-bit offset of JSR.
pub open spec fn off11_of(instr: u16) -> u16 {
    sign_extend_spec(instr & 0x7FF, 11)
}

/// Sign-extends the low `bit_count` bits of `x` to a full word.
pub fn sign_extend(x: u16, bit_count: u8) -> (r: u16)
    requires
        1 <= bit_count < 16,
    ensures
        r == sign_extend_spec(x, bit_count as u16),
{
    let wide_count: u16 = bit_count as u16;
    let top_bit: u16 = wide_count - 1;
    if (x >> top_bit) & 1 != 0 {
        x | (0xFFFF << wide_count)
    } else {
        x
    }
}

/// Sign extension is idempotent: once the upper bits replicate the sign bit,
/// extending again with the same bit count changes nothing.
pub proof fn lemma_sign_extend_idempotent(x: u16, bit_count: u16)
    requires
        1 <= bit_count < 16,
    ensures
        sign_extend_spec(sign_extend_spec(x, bit_count), bit_count) == sign_extend_spec(
            x,
            bit_count,
        ),
{
    let top_bit = (bit_count - 1) as u16;
    assert({
        let once = if (x >> top_bit) & 1 != 0 {
            x | (0xFFFFu16 << bit_count)
        } else {
            x
        };
        let twice = if (once >> top_bit) & 1 != 0 {
            once | (0xFFFFu16 << bit_count)
        } else {
            once
        };
        twice == once
    }) by (bit_vector)
        requires
            1 <= bit_count < 16 && top_bit == bit_count - 1,
    ;
}

/// A three-bit field always indexes a general-purpose register.
pub(crate) proof fn lemma_low3_bound(x: u16)
    ensures
        x & 0x7 < 8,
{
    assert(x & 0x7 < 8) by (bit_vector);
}

/// The low byte of a word fits in eight bits.
proof fn lemma_low8_bound(x: u16)
    ensures
        x & 0xFF < 256,
{
    assert(x & 0xFF < 256) by (bit_vector);
}

// ---------------------------------------------------------------------------
// Condition flags
// ---------------------------------------------------------------------------

/// The register file after an operation writes `value` into the register
/// indexed by `dr` and records the matching condition flag.
pub open spec fn write_and_flag(regs: Registers, dr: u16, value: u16) -> Registers {
    regs.write_reg(reg_of(dr), value).write_reg(Register::Rcond, sign_flag_value(value))
}

/// After any operation that updates flags, the condition-code register
/// holds exactly one of the three flag values, and that flag matches the
/// signed interpretation of the destination register's new contents: every
/// flag-updating operation ends in `write_and_flag`, so this covers ADD,
/// AND, NOT, LD, LDI, LDR and LEA alike.
pub proof fn lemma_flags_follow_destination(regs: Registers, dr: u16, value: u16)
    requires
        dr < 8,
    ensures
        ({
            let out = write_and_flag(regs, dr, value);
            let cond = out.read_reg(Register::Rcond);
            &&& out.read_reg(reg_of(dr)) == value
            &&& cond == sign_flag_value(out.read_reg(reg_of(dr)))
            &&& cond == 1 || cond == 2 || cond == 4
            &&& cond == 2 <==> value == 0
            &&& cond == 4 <==> value >= 0x8000
            &&& cond == 1 <==> 0 < value < 0x8000
        }),
{
    lemma_flag_exclusive(value);
}

/// Records the condition flag for the register indexed by `reg`: zero sets
/// `FlZro`, a set sign bit `FlNeg`, anything else `FlPos`.
pub fn update_flags(emu: &mut Emulator, reg: u16)
    requires
        reg < 10,
    ensures
        final(emu).registers == old(emu).registers.write_reg(
            Register::Rcond,
            sign_flag_value(old(emu).registers.read_reg(reg_of(reg))),
        ),
        final(emu).memory == old(emu).memory,
        final(emu).running == old(emu).running,
{
    let r: u16 = emu.registers.get_value(Register::from_index(reg));
    if r == 0 {
        emu.registers.update(
            Register::Rcond,
            ConditionFlag::get_cflag_value(ConditionFlag::FlZro),
        );
    } else if r >> 15 == 1 {
        emu.registers.update(
            Register::Rcond,
            ConditionFlag::get_cflag_value(ConditionFlag::FlNeg),
        );
    } else {
        emu.registers.update(
            Register::Rcond,
            ConditionFlag::get_cflag_value(ConditionFlag::FlPos),
        );
    }
}

// ---------------------------------------------------------------------------
// Register-only operations
// ---------------------------------------------------------------------------

/// ADD: the destination receives SR1 plus either SR2 or the sign-extended
/// five-bit immediate, modulo 2^16; the condition flags follow the result.
pub open spec fn add_effect(regs: Registers, instr: u16) -> Registers {
    let r1 = regs.read_reg(reg_of(sr1_of(instr)));
    let operand = if imm_bit_of(instr) == 0 {
        regs.read_reg(reg_of(sr2_of(instr)))
    } else {
        imm5_of(instr)
    };
    write_and_flag(regs, dr_of(instr), r1.wrapping_add(operand))
}

/// Executes ADD.
pub fn op_add(emu: &mut Emulator, instr: u16)
    ensures
        final(emu).registers == add_effect(old(emu).registers, instr),
        final(emu).memory == old(emu).memory,
        final(emu).running == old(emu).running,
{
    let dr: u16 = (instr >> 9) & 0x7;
    let sr1: u16 = (instr >> 6) & 0x7;
    proof {
        lemma_low3_bound(instr >> 9);
        lemma_low3_bound(instr >> 6);
        lemma_low3_bound(instr);
    }
    let r1: u16 = emu.registers.get_value(Register::from_index(sr1));
    let imm_flag: u16 = (instr >> 5) & 0x1;
    let value: u16 = if imm_flag == 0 {
        let sr2: u16 = instr & 0x7;
        r1.wrapping_add(emu.registers.get_value(Register::from_index(sr2)))
    } else {
        r1.wrapping_add(sign_extend(instr & 0x1F, 5))
    };
    emu.registers.update(Register::from_index(dr), value);
    update_flags(emu, dr);
}

/// AND: the destination receives SR1 bitwise-and either SR2 or the
/// sign-extended five-bit immediate; the condition flags follow the result.
pub open spec fn and_effect(regs: Registers, instr: u16) -> Registers {
    let r1 = regs.read_reg(reg_of(sr1_of(instr)));
    let operand = if imm_bit_of(instr) == 0 {
        regs.read_reg(reg_of(sr2_of(instr)))
    } else {
        imm5_of(instr)
    };
    write_and_flag(regs, dr_of(instr), r1 & operand)
}

/// Executes AND.
pub fn op_and(emu: &mut Emulator, instr: u16)
    ensures
        final(emu).registers == and_effect(old(emu).registers, instr),
        final(emu).memory == old(emu).memory,
        final(emu).running == old(emu).running,
{
    let dr: u16 = (instr >> 9) & 0x7;
    let sr1: u16 = (instr >> 6) & 0x7;
    proof {
        lemma_low3_bound(instr >> 9);
        lemma_low3_bound(instr >> 6);
        lemma_low3_bound(instr);
    }
    let r1: u16 = emu.registers.get_value(Register::from_index(sr1));
    let imm_flag: u16 = (instr >> 5) & 0x1;
    let value: u16 = if imm_flag == 0 {
        let sr2: u16 = instr & 0x7;
        r1 & emu.registers.get_value(Register::from_index(sr2))
    } else {
        r1 & sign_extend(instr & 0x1F, 5)
    };
    emu.registers.update(Register::from_index(dr), value);
    update_flags(emu, dr);
}

/// NOT: the destination receives the bitwise complement of the source; the
/// condition flags follow the result.
pub open spec fn not_effect(regs: Registers, instr: u16) -> Registers {
    write_and_flag(regs, dr_of(instr), !regs.read_reg(reg_of(sr1_of(instr))))
}

/// Executes NOT.
pub fn op_not(emu: &mut Emulator, instr: u16)
    ensures
        final(emu).registers == not_effect(old(emu).registers, instr),
        final(emu).memory == old(emu).memory,
        final(emu).running == old(emu).running,
{
    let dr: u16 = (instr >> 9) & 0x7;
    let sr: u16 = (instr >> 6) & 0x7;
    proof {
        lemma_low3_bound(instr >> 9);
        lemma_low3_bound(instr >> 6);
    }
    let value: u16 = !emu.registers.get_value(Register::from_index(sr));
    emu.registers.update(Register::from_index(dr), value);
    update_flags(emu, dr);
}

/// JMP: the program counter jumps to the address held in the base register.
/// RET is the special case with R7 as the base. No flags change.
pub open spec fn jmp_effect(regs: Registers, instr: u16) -> Registers {
    regs.write_reg(Register::Rpc, regs.read_reg(reg_of(sr1_of(instr))))
}

/// Executes JMP.
pub fn op_jmp(emu: &mut Emulator, instr: u16)
    ensures
        final(emu).registers == jmp_effect(old(emu).registers, instr),
        final(emu).memory == old(emu).memory,
        final(emu).running == old(emu).running,
{
    let base_r: u16 = (instr >> 6) & 0x7;
    proof {
        lemma_low3_bound(instr >> 6);
    }
    let target: u16 = emu.registers.get_value(Register::from_index(base_r));
    emu.registers.update(Register::Rpc, target);
}

/// JSR/JSRR: R7 receives the incremented program counter as the return
/// address; with the mode bit (bit 11) set the PC moves by the sign-extended
/// eleven-bit offset, otherwise it jumps to the address held in the base
/// register, read before R7 is saved.
pub open spec fn jsr_effect(regs: Registers, instr: u16) -> Registers {
    let saved = regs.write_reg(Register::Rr7, regs.read_reg(Register::Rpc));
    if jsr_bit_of(instr) != 0 {
        saved.write_reg(
            Register::Rpc,
            regs.read_reg(Register::Rpc).wrapping_add(off11_of(instr)),
        )
    } else {
        saved.write_reg(Register::Rpc, regs.read_reg(reg_of(sr1_of(instr))))
    }
}

/// Executes JSR/JSRR.
pub fn op_jsr(emu: &mut Emulator, instr: u16)
    ensures
        final(emu).registers == jsr_effect(old(emu).registers, instr),
        final(emu).memory == old(emu).memory,
        final(emu).running == old(emu).running,
{
    let base_r: u16 = (instr >> 6) & 0x7;
    proof {
        lemma_low3_bound(instr >> 6);
    }
    let target: u16 = emu.registers.get_value(Register::from_index(base_r));
    let pc: u16 = emu.registers.get_value(Register::Rpc);
    emu.registers.update(Register::Rr7, pc);
    let flag: u16 = (instr >> 11) & 1;
    if flag != 0 {
        emu.registers.update(Register::Rpc, pc.wrapping_add(sign_extend(instr & 0x7FF, 11)));
    } else {
        emu.registers.update(Register::Rpc, target);
    }
}

/// BR: when the instruction's condition bits overlap the current condition
/// flag, the program counter moves by the sign-extended nine-bit offset.
pub open spec fn br_effect(regs: Registers, instr: u16) -> Registers {
    if dr_of(instr) & regs.read_reg(Register::Rcond) != 0 {
        regs.write_reg(
            Register::Rpc,
            regs.read_reg(Register::Rpc).wrapping_add(off9_of(instr)),
        )
    } else {
        regs
    }
}

/// Executes BR.
pub fn op_br(emu: &mut Emulator, instr: u16)
    ensures
        final(emu).registers == br_effect(old(emu).registers, instr),
        final(emu).memory == old(emu).memory,
        final(emu).running == old(emu).running,
{
    let cond_flag: u16 = (instr >> 9) & 0x7;
    let r_cond: u16 = emu.registers.get_value(Register::Rcond);
    if cond_flag & r_cond != 0 {
        let pc: u16 = emu.registers.get_value(Register::Rpc);
        emu.registers.update(Register::Rpc, pc.wrapping_add(sign_extend(instr & 0x1FF, 9)));
    }
}

/// LEA: the destination receives the program counter plus the sign-extended
/// nine-bit offset; the condition flags follow the result.
pub open spec fn lea_effect(regs: Registers, instr: u16) -> Registers {
    write_and_flag(
        regs,
        dr_of(instr),
        regs.read_reg(Register::Rpc).wrapping_add(off9_of(instr)),
    )
}

/// Executes LEA.
pub fn op_lea(emu: &mut Emulator, instr: u16)
    ensures
        final(emu).registers == lea_effect(old(emu).registers, instr),
        final(emu).memory == old(emu).memory,
        final(emu).running == old(emu).running,
{
    let dr: u16 = (instr >> 9) & 0x7;
    proof {
        lemma_low3_bound(instr >> 9);
    }
    let pc: u16 = emu.registers.get_value(Register::Rpc);
    let value: u16 = pc.wrapping_add(sign_extend(instr & 0x1FF, 9));
    emu.registers.update(Register::from_index(dr), value);
    update_flags(emu, dr);
}

/// RTI is reserved for kernel mode, which this machine does not model: the
/// operation is a no-op.
pub fn op_rti() {
}

/// RES is the reserved opcode: a no-op.
pub fn op_res() {
}

// ---------------------------------------------------------------------------
// Memory operations
// ---------------------------------------------------------------------------

/// LD: the destination receives the word at PC plus the nine-bit offset; the
/// condition flags follow it. Reading through the memory unit, the load
/// polls the keyboard when it touches the status address.
pub open spec fn ld_effect(regs: Registers, mem: Seq<u16>, input: Seq<u8>, instr: u16) -> (
    Registers,
    Seq<u16>,
    Seq<u8>,
) {
    let address = regs.read_reg(Register::Rpc).wrapping_add(off9_of(instr));
    let loaded = read_step(mem, input, address);
    (write_and_flag(regs, dr_of(instr), loaded.2), loaded.0, loaded.1)
}

/// Executes LD.
pub fn op_ld(emu: &mut Emulator, instr: u16, io: &mut ConsoleIo)
    requires
        old(emu).wf(),
    ensures
        final(emu).wf(),
        final(emu).registers == ld_effect(old(emu).registers, old(emu).memory@, old(io).input@, instr).0,
        final(emu).memory@ == ld_effect(old(emu).registers, old(emu).memory@, old(io).input@, instr).1,
        final(io).input@ == ld_effect(old(emu).registers, old(emu).memory@, old(io).input@, instr).2,
        final(io).output@ == old(io).output@,
        final(emu).running == old(emu).running,
{
    let dr: u16 = (instr >> 9) & 0x7;
    proof {
        lemma_low3_bound(instr >> 9);
    }
    let pc: u16 = emu.registers.get_value(Register::Rpc);
    let address: u16 = pc.wrapping_add(sign_extend(instr & 0x1FF, 9));
    let value: u16 = emu.memory.read(address, &mut io.input);
    emu.registers.update(Register::from_index(dr), value);
    update_flags(emu, dr);
}

/// LDI: the word at PC plus the offset holds an address, and the destination
/// receives the word stored there; the condition flags follow it. Both reads
/// go through the memory unit, so either can poll the keyboard.
pub open spec fn ldi_effect(regs: Registers, mem: Seq<u16>, input: Seq<u8>, instr: u16) -> (
    Registers,
    Seq<u16>,
    Seq<u8>,
) {
    let address = regs.read_reg(Register::Rpc).wrapping_add(off9_of(instr));
    let pointer = read_step(mem, input, address);
    let loaded = read_step(pointer.0, pointer.1, pointer.2);
    (write_and_flag(regs, dr_of(instr), loaded.2), loaded.0, loaded.1)
}

/// Executes LDI.
pub fn op_ldi(emu: &mut Emulator, instr: u16, io: &mut ConsoleIo)
    requires
        old(emu).wf(),
    ensures
        final(emu).wf(),
        final(emu).registers == ldi_effect(old(emu).registers, old(emu).memory@, old(io).input@, instr).0,
        final(emu).memory@ == ldi_effect(old(emu).registers, old(emu).memory@, old(io).input@, instr).1,
        final(io).input@ == ldi_effect(old(emu).registers, old(emu).memory@, old(io).input@, instr).2,
        final(io).output@ == old(io).output@,
        final(emu).running == old(emu).running,
{
    let dr: u16 = (instr >> 9) & 0x7;
    proof {
        lemma_low3_bound(instr >> 9);
    }
    let pc: u16 = emu.registers.get_value(Register::Rpc);
    let address: u16 = pc.wrapping_add(sign_extend(instr & 0x1FF, 9));
    let pointer: u16 = emu.memory.read(address, &mut io.input);
    let value: u16 = emu.memory.read(pointer, &mut io.input);
    emu.registers.update(Register::from_index(dr), value);
    update_flags(emu, dr);
}

/// LDR: the destination receives the word at the base register's contents
/// plus the six-bit offset; the condition flags follow it.
pub open spec fn ldr_effect(regs: Registers, mem: Seq<u16>, input: Seq<u8>, instr: u16) -> (
    Registers,
    Seq<u16>,
    Seq<u8>,
) {
    let address = regs.read_reg(reg_of(sr1_of(instr))).wrapping_add(off6_of(instr));
    let loaded = read_step(mem, input, address);
    (write_and_flag(regs, dr_of(instr), loaded.2), loaded.0, loaded.1)
}

/// Executes LDR.
pub fn op_ldr(emu: &mut Emulator, instr: u16, io: &mut ConsoleIo)
    requires
        old(emu).wf(),
    ensures
        final(emu).wf(),
        final(emu).registers == ldr_effect(old(emu).registers, old(emu).memory@, old(io).input@, instr).0,
        final(emu).memory@ == ldr_effect(old(emu).registers, old(emu).memory@, old(io).input@, instr).1,
        final(io).input@ == ldr_effect(old(emu).registers, old(emu).memory@, old(io).input@, instr).2,
        final(io).output@ == old(io).output@,
        final(emu).running == old(emu).running,
{
    let dr: u16 = (instr >> 9) & 0x7;
    let base_r: u16 = (instr >> 6) & 0x7;
    proof {
        lemma_low3_bound(instr >> 9);
        lemma_low3_bound(instr >> 6);
    }
    let base: u16 = emu.registers.get_value(Register::from_index(base_r));
    let address: u16 = base.wrapping_add(sign_extend(instr & 0x3F, 6));
    let value: u16 = emu.memory.read(address, &mut io.input);
    emu.registers.update(Register::from_index(dr), value);
    update_flags(emu, dr);
}

/// ST: the word in the source register (bits 11:9) is stored at PC plus the
/// nine-bit offset. A store never polls the keyboard.
pub open spec fn st_effect(regs: Registers, mem: Seq<u16>, instr: u16) -> Seq<u16> {
    let address = regs.read_reg(Register::Rpc).wrapping_add(off9_of(instr));
    mem.update(address as int, regs.read_reg(reg_of(dr_of(instr))))
}

/// Executes ST.
pub fn op_st(emu: &mut Emulator, instr: u16)
    requires
        old(emu).wf(),
    ensures
        final(emu).wf(),
        final(emu).registers == old(emu).registers,
        final(emu).memory@ == st_effect(old(emu).registers, old(emu).memory@, instr),
        final(emu).running == old(emu).running,
{
    let sr: u16 = (instr >> 9) & 0x7;
    proof {
        lemma_low3_bound(instr >> 9);
    }
    let pc: u16 = emu.registers.get_value(Register::Rpc);
    let address: u16 = pc.wrapping_add(sign_extend(instr & 0x1FF, 9));
    let value: u16 = emu.registers.get_value(Register::from_index(sr));
    emu.memory.write(address, value);
}

/// STI: the word at PC plus the offset holds an address, and the source
/// register's word is stored there. The pointer read goes through the memory
/// unit and can poll the keyboard; the store itself cannot.
pub open spec fn sti_effect(regs: Registers, mem: Seq<u16>, input: Seq<u8>, instr: u16) -> (
    Seq<u16>,
    Seq<u8>,
) {
    let address = regs.read_reg(Register::Rpc).wrapping_add(off9_of(instr));
    let pointer = read_step(mem, input, address);
    (pointer.0.update(pointer.2 as int, regs.read_reg(reg_of(dr_of(instr)))), pointer.1)
}

/// Executes STI.
pub fn op_sti(emu: &mut Emulator, instr: u16, io: &mut ConsoleIo)
    requires
        old(emu).wf(),
    ensures
        final(emu).wf(),
        final(emu).registers == old(emu).registers,
        final(emu).memory@ == sti_effect(old(emu).registers, old(emu).memory@, old(io).input@, instr).0,
        final(io).input@ == sti_effect(old(emu).registers, old(emu).memory@, old(io).input@, instr).1,
        final(io).output@ == old(io).output@,
        final(emu).running == old(emu).running,
{
    let sr: u16 = (instr >> 9) & 0x7;
    proof {
        lemma_low3_bound(instr >> 9);
    }
    let pc: u16 = emu.registers.get_value(Register::Rpc);
    let address: u16 = pc.wrapping_add(sign_extend(instr & 0x1FF, 9));
    let pointer: u16 = emu.memory.read(address, &mut io.input);
    let value: u16 = emu.registers.get_value(Register::from_index(sr));
    emu.memory.write(pointer, value);
}

/// STR: the source register's word is stored at the base register's
/// contents plus the six-bit offset.
pub open spec fn str_effect(regs: Registers, mem: Seq<u16>, instr: u16) -> Seq<u16> {
    let address = regs.read_reg(reg_of(sr1_of(instr))).wrapping_add(off6_of(instr));
    mem.update(address as int, regs.read_reg(reg_of(dr_of(instr))))
}

/// Executes STR.
pub fn op_str(emu: &mut Emulator, instr: u16)
    requires
        old(emu).wf(),
    ensures
        final(emu).wf(),
        final(emu).registers == old(emu).registers,
        final(emu).memory@ == str_effect(old(emu).registers, old(emu).memory@, instr),
        final(emu).running == old(emu).running,
{
    let sr: u16 = (instr >> 9) & 0x7;
    let base_r: u16 = (instr >> 6) & 0x7;
    proof {
        lemma_low3_bound(instr >> 9);
        lemma_low3_bound(instr >> 6);
    }
    let base: u16 = emu.registers.get_value(Register::from_index(base_r));
    let address: u16 = base.wrapping_add(sign_extend(instr & 0x3F, 6));
    let value: u16 = emu.registers.get_value(Register::from_index(sr));
    emu.memory.write(address, value);
}

/// A store/load round trip: executing `ST R0,#0` and then `LD R1,#0` at the
/// same program counter leaves the word of R0 in R1, whatever the machine
/// state. The one program counter this cannot hold for is the keyboard
/// status address, where the load polls the keyboard and overwrites the
/// stored word before returning it.
pub proof fn lemma_store_load_round_trip(regs: Registers, mem: Seq<u16>, input: Seq<u8>)
    requires
        mem.len() == 65536,
        regs.read_reg(Register::Rpc) != KBSR_ADDRESS,
    ensures
        ({
            let stored = st_effect(regs, mem, 0x3000u16);
            let loaded = ld_effect(regs, stored, input, 0x2200u16);
            loaded.0.read_reg(Register::Rr1) == regs.read_reg(Register::Rr0)
        }),
{
    assert((0x3000u16 >> 9) & 0x7 == 0 && (0x3000u16 & 0x1FF) == 0 && (0x2200u16 >> 9) & 0x7
        == 1 && (0x2200u16 & 0x1FF) == 0 && (0u16 >> 8u16) & 1 == 0) by (bit_vector);
}

// ---------------------------------------------------------------------------
// Trap routines
// ---------------------------------------------------------------------------

/// GETC and IN: the oldest queued keyboard byte moves into R0,
/// zero-extended. The condition flags deliberately stay unchanged, unlike
/// every other register-writing operation.
pub open spec fn getc_effect(regs: Registers, input: Seq<u8>) -> (Registers, Seq<u8>)
    recommends
        input.len() > 0,
{
    (regs.write_reg(Register::Rr0, input[0] as u16), input.drop_first())
}

/// OUT: the low eight bits of R0 leave as one character.
pub open spec fn out_effect(regs: Registers, output: Seq<u8>) -> Seq<u8> {
    output.push((regs.read_reg(Register::Rr0) & 0xFF) as u8)
}

/// The effect of PUTS from `address` on: the memory and input queue
/// afterwards, and the bytes printed. One character per word, each truncated
/// to its low byte, walking consecutive addresses until the first zero word.
/// The walk reads through the memory unit, so touching the keyboard status
/// address polls the keyboard; a string that runs off the end of memory is
/// cut short there.
pub open spec fn puts_effect(mem: Seq<u16>, input: Seq<u8>, address: int) -> (
    Seq<u16>,
    Seq<u8>,
    Seq<u8>,
)
    decreases MEMORY_MAX - address,
{
    if address < 0 || address >= MEMORY_MAX {
        (mem, input, Seq::empty())
    } else {
        let loaded = read_step(mem, input, address as u16);
        if loaded.2 == 0 {
            (loaded.0, loaded.1, Seq::empty())
        } else {
            let rest = puts_effect(loaded.0, loaded.1, address + 1);
            (rest.0, rest.1, seq![(loaded.2 & 0xFF) as u8] + rest.2)
        }
    }
}

/// The one or two characters a PUTSP word prints: the low byte first, then
/// the high byte when it is not zero.
pub open spec fn putsp_word_bytes(word: u16) -> Seq<u8> {
    let low = (word & 0xFF) as u8;
    let high = ((word >> 8) & 0xFF) as u8;
    if high != 0 {
        seq![low, high]
    } else {
        seq![low]
    }
}

/// The effect of PUTSP from `address` on, like `puts_effect` but with two
/// packed characters per word.
pub open spec fn putsp_effect(mem: Seq<u16>, input: Seq<u8>, address: int) -> (
    Seq<u16>,
    Seq<u8>,
    Seq<u8>,
)
    decreases MEMORY_MAX - address,
{
    if address < 0 || address >= MEMORY_MAX {
        (mem, input, Seq::empty())
    } else {
        let loaded = read_step(mem, input, address as u16);
        if loaded.2 == 0 {
            (loaded.0, loaded.1, Seq::empty())
        } else {
            let rest = putsp_effect(loaded.0, loaded.1, address + 1);
            (rest.0, rest.1, putsp_word_bytes(loaded.2) + rest.2)
        }
    }
}

/// The prompt IN prints before reading: "Enter a character: " and a newline.
pub open spec fn in_prompt() -> Seq<u8> {
    seq![
        69u8, 110u8, 116u8, 101u8, 114u8, 32u8, 97u8, 32u8, 99u8, 104u8, 97u8, 114u8, 97u8,
        99u8, 116u8, 101u8, 114u8, 58u8, 32u8, 10u8,
    ]
}

/// The halt notice: "HALT" and a newline.
pub open spec fn halt_message() -> Seq<u8> {
    seq![72u8, 65u8, 76u8, 84u8, 10u8]
}

/// GETC: blocks for one keyboard byte, here already queued by the caller,
/// and stores it zero-extended into R0 without touching the condition flags.
pub fn trap_getc(emu: &mut Emulator, io: &mut ConsoleIo)
    requires
        old(io).input@.len() > 0,
    ensures
        final(emu).registers == getc_effect(old(emu).registers, old(io).input@).0,
        final(io).input@ == getc_effect(old(emu).registers, old(io).input@).1,
        final(emu).memory == old(emu).memory,
        final(io).output@ == old(io).output@,
        final(emu).running == old(emu).running,
{
    let byte: u8 = io.input.remove(0);
    proof {
        assert(old(io).input@.remove(0) =~= old(io).input@.drop_first());
    }
    emu.registers.update(Register::Rr0, byte as u16);
}

/// OUT: prints the low eight bits of R0 as one character.
pub fn trap_out(emu: &mut Emulator, io: &mut ConsoleIo)
    ensures
        final(emu).registers == old(emu).registers,
        final(emu).memory == old(emu).memory,
        final(io).input@ == old(io).input@,
        final(io).output@ == out_effect(old(emu).registers, old(io).output@),
        final(emu).running == old(emu).running,
{
    let c: u16 = emu.registers.get_value(Register::Rr0);
    proof {
        lemma_low8_bound(c);
    }
    io.output.push((c & 0xFF) as u8);
}

/// PUTS: prints the zero-terminated string of words starting at the address
/// in R0, one character per word.
pub fn trap_puts(emu: &mut Emulator, io: &mut ConsoleIo)
    requires
        old(emu).wf(),
    ensures
        final(emu).wf(),
        final(emu).registers == old(emu).registers,
        final(emu).running == old(emu).running,
        final(emu).memory@ == puts_effect(
            old(emu).memory@,
            old(io).input@,
            old(emu).registers.read_reg(Register::Rr0) as int,
        ).0,
        final(io).input@ == puts_effect(
            old(emu).memory@,
            old(io).input@,
            old(emu).registers.read_reg(Register::Rr0) as int,
        ).1,
        final(io).output@ == old(io).output@ + puts_effect(
            old(emu).memory@,
            old(io).input@,
            old(emu).registers.read_reg(Register::Rr0) as int,
        ).2,
{
    let ghost orig_mem = emu.memory@;
    let ghost orig_input = io.input@;
    let ghost orig_output = io.output@;
    let ghost orig_regs = emu.registers;
    let ghost orig_running = emu.running;
    let start: u16 = emu.registers.get_value(Register::Rr0);
    let mut address: u32 = start as u32;
    loop
        invariant_except_break
            puts_effect(orig_mem, orig_input, start as int).0 == puts_effect(
                emu.memory@,
                io.input@,
                address as int,
            ).0,
            puts_effect(orig_mem, orig_input, start as int).1 == puts_effect(
                emu.memory@,
                io.input@,
                address as int,
            ).1,
            orig_output + puts_effect(orig_mem, orig_input, start as int).2 == io.output@
                + puts_effect(emu.memory@, io.input@, address as int).2,
        invariant
            emu.wf(),
            address <= 65536,
            emu.registers == orig_regs,
            emu.running == orig_running,
        ensures
            emu.wf(),
            emu.registers == orig_regs,
            emu.running == orig_running,
            emu.memory@ == puts_effect(orig_mem, orig_input, start as int).0,
            io.input@ == puts_effect(orig_mem, orig_input, start as int).1,
            io.output@ == orig_output + puts_effect(orig_mem, orig_input, start as int).2,
        decreases 65536 - address,
    {
        let ghost pre_mem = emu.memory@;
        let ghost pre_input = io.input@;
        let ghost pre_output = io.output@;
        if address >= 65536 {
            proof {
                assert(io.output@ + puts_effect(emu.memory@, io.input@, address as int).2
                    =~= io.output@);
            }
            break;
        }
        let w: u16 = emu.memory.read(address as u16, &mut io.input);
        if w == 0 {
            proof {
                let full = puts_effect(pre_mem, pre_input, address as int);
                assert(full.2 == Seq::<u8>::empty());
                assert(pre_output + Seq::<u8>::empty() =~= pre_output);
            }
            break;
        }
        proof {
            lemma_low8_bound(w);
        }
        io.output.push((w & 0xFF) as u8);
        proof {
            let b = (w & 0xFF) as u8;
            let rest = puts_effect(emu.memory@, io.input@, address + 1);
            assert(pre_output + (seq![b] + rest.2) =~= pre_output.push(b) + rest.2);
        }
        address = address + 1;
    }
}

/// IN: prints a prompt, then behaves as GETC: one queued byte moves into R0
/// with the condition flags untouched.
pub fn trap_in(emu: &mut Emulator, io: &mut ConsoleIo)
    requires
        old(io).input@.len() > 0,
    ensures
        final(emu).registers == getc_effect(old(emu).registers, old(io).input@).0,
        final(io).input@ == getc_effect(old(emu).registers, old(io).input@).1,
        final(emu).memory == old(emu).memory,
        final(io).output@ == old(io).output@ + in_prompt(),
        final(emu).running == old(emu).running,
{
    push_prompt(&mut io.output);
    let byte: u8 = io.input.remove(0);
    proof {
        assert(old(io).input@.remove(0) =~= old(io).input@.drop_first());
    }
    emu.registers.update(Register::Rr0, byte as u16);
}

/// Appends the IN prompt to the output buffer.
fn push_prompt(out: &mut Vec<u8>)
    ensures
        final(out)@ == old(out)@ + in_prompt(),
{
    out.push(69);
    out.push(110);
    out.push(116);
    out.push(101);
    out.push(114);
    out.push(32);
    out.push(97);
    out.push(32);
    out.push(99);
    out.push(104);
    out.push(97);
    out.push(114);
    out.push(97);
    out.push(99);
    out.push(116);
    out.push(101);
    out.push(114);
    out.push(58);
    out.push(32);
    out.push(10);
    proof {
        assert(out@ =~= old(out)@ + in_prompt());
    }
}

/// PUTSP: prints the zero-terminated string of words starting at the
/// address in R0, two packed characters per word: low byte first, then the
/// high byte when it is not zero.
pub fn trap_putsp(emu: &mut Emulator, io: &mut ConsoleIo)
    requires
        old(emu).wf(),
    ensures
        final(emu).wf(),
        final(emu).registers == old(emu).registers,
        final(emu).running == old(emu).running,
        final(emu).memory@ == putsp_effect(
            old(emu).memory@,
            old(io).input@,
            old(emu).registers.read_reg(Register::Rr0) as int,
        ).0,
        final(io).input@ == putsp_effect(
            old(emu).memory@,
            old(io).input@,
            old(emu).registers.read_reg(Register::Rr0) as int,
        ).1,
        final(io).output@ == old(io).output@ + putsp_effect(
            old(emu).memory@,
            old(io).input@,
            old(emu).registers.read_reg(Register::Rr0) as int,
        ).2,
{
    let ghost orig_mem = emu.memory@;
    let ghost orig_input = io.input@;
    let ghost orig_output = io.output@;
    let ghost orig_regs = emu.registers;
    let ghost orig_running = emu.running;
    let start: u16 = emu.registers.get_value(Register::Rr0);
    let mut address: u32 = start as u32;
    loop
        invariant_except_break
            putsp_effect(orig_mem, orig_input, start as int).0 == putsp_effect(
                emu.memory@,
                io.input@,
                address as int,
            ).0,
            putsp_effect(orig_mem, orig_input, start as int).1 == putsp_effect(
                emu.memory@,
                io.input@,
                address as int,
            ).1,
            orig_output + putsp_effect(orig_mem, orig_input, start as int).2 == io.output@
                + putsp_effect(emu.memory@, io.input@, address as int).2,
        invariant
            emu.wf(),
            address <= 65536,
            emu.registers == orig_regs,
            emu.running == orig_running,
        ensures
            emu.wf(),
            emu.registers == orig_regs,
            emu.running == orig_running,
            emu.memory@ == putsp_effect(orig_mem, orig_input, start as int).0,
            io.input@ == putsp_effect(orig_mem, orig_input, start as int).1,
            io.output@ == orig_output + putsp_effect(orig_mem, orig_input, start as int).2,
        decreases 65536 - address,
    {
        let ghost pre_mem = emu.memory@;
        let ghost pre_input = io.input@;
        let ghost pre_output = io.output@;
        if address >= 65536 {
            proof {
                assert(io.output@ + putsp_effect(emu.memory@, io.input@, address as int).2
                    =~= io.output@);
            }
            break;
        }
        let w: u16 = emu.memory.read(address as u16, &mut io.input);
        if w == 0 {
            proof {
                let full = putsp_effect(pre_mem, pre_input, address as int);
                assert(full.2 == Seq::<u8>::empty());
                assert(pre_output + Seq::<u8>::empty() =~= pre_output);
            }
            break;
        }
        proof {
            lemma_low8_bound(w);
            lemma_low8_bound(w >> 8);
        }
        let low: u8 = (w & 0xFF) as u8;
        let high: u8 = ((w >> 8) & 0xFF) as u8;
        io.output.push(low);
        if high != 0 {
            io.output.push(high);
        }
        proof {
            let rest = putsp_effect(emu.memory@, io.input@, address + 1);
            assert(pre_output + (putsp_word_bytes(w) + rest.2) =~= io.output@ + rest.2);
        }
        address = address + 1;
    }
}

/// HALT: prints the halt notice and clears the run flag; this is the only
/// trap that stops the machine.
pub fn trap_halt(emu: &mut Emulator, io: &mut ConsoleIo)
    ensures
        final(emu).registers == old(emu).registers,
        final(emu).memory == old(emu).memory,
        final(io).input@ == old(io).input@,
        final(io).output@ == old(io).output@ + halt_message(),
        !final(emu).running,
{
    io.output.push(72);
    io.output.push(65);
    io.output.push(76);
    io.output.push(84);
    io.output.push(10);
    proof {
        assert(io.output@ =~= old(io).output@ + halt_message());
    }
    emu.running = false;
}

// ---------------------------------------------------------------------------
// Dispatch
// ---------------------------------------------------------------------------

/// The combined effect of one trap routine on the registers, the memory,
/// the console queues and the run flag.
pub open spec fn trap_effect(
    trap: Trap,
    regs: Registers,
    mem: Seq<u16>,
    input: Seq<u8>,
    output: Seq<u8>,
    running: bool,
) -> (Registers, Seq<u16>, Seq<u8>, Seq<u8>, bool) {
    match trap {
        Trap::TrapGetc => {
            let taken = getc_effect(regs, input);
            (taken.0, mem, taken.1, output, running)
        },
        Trap::TrapOut => (regs, mem, input, out_effect(regs, output), running),
        Trap::TrapPuts => {
            let printed = puts_effect(mem, input, regs.read_reg(Register::Rr0) as int);
            (regs, printed.0, printed.1, output + printed.2, running)
        },
        Trap::TrapIn => {
            let taken = getc_effect(regs, input);
            (taken.0, mem, taken.1, output + in_prompt(), running)
        },
        Trap::TrapPutsp => {
            let printed = putsp_effect(mem, input, regs.read_reg(Register::Rr0) as int);
            (regs, printed.0, printed.1, output + printed.2, running)
        },
        Trap::TrapHalt => (regs, mem, input, output + halt_message(), false),
    }
}

/// The effect of the TRAP instruction given its eight-bit vector: a
/// recognized vector runs its routine; an unrecognized one is a decode
/// fault that stops the machine with everything else untouched.
pub open spec fn trap_dispatch_effect(
    regs: Registers,
    mem: Seq<u16>,
    input: Seq<u8>,
    output: Seq<u8>,
    running: bool,
    vector: u16,
) -> (Registers, Seq<u16>, Seq<u8>, Seq<u8>, bool) {
    if trap_vector_known(vector) {
        trap_effect(trap_of(vector), regs, mem, input, output, running)
    } else {
        (regs, mem, input, output, false)
    }
}

/// Executes TRAP: decodes the vector and runs the routine, or stops the
/// machine on an unrecognized vector, reporting the decode fault.
pub fn op_trap(emu: &mut Emulator, instr: u16, io: &mut ConsoleIo) -> (r: Result<
    (),
    DecodeFault,
>)
    requires
        old(emu).wf(),
        (trap_vector_of(instr) == 0x20 || trap_vector_of(instr) == 0x23) ==> old(
            io,
        ).input@.len() > 0,
    ensures
        final(emu).wf(),
        final(emu).registers == trap_dispatch_effect(
            old(emu).registers,
            old(emu).memory@,
            old(io).input@,
            old(io).output@,
            old(emu).running,
            trap_vector_of(instr),
        ).0,
        final(emu).memory@ == trap_dispatch_effect(
            old(emu).registers,
            old(emu).memory@,
            old(io).input@,
            old(io).output@,
            old(emu).running,
            trap_vector_of(instr),
        ).1,
        final(io).input@ == trap_dispatch_effect(
            old(emu).registers,
            old(emu).memory@,
            old(io).input@,
            old(io).output@,
            old(emu).running,
            trap_vector_of(instr),
        ).2,
        final(io).output@ == trap_dispatch_effect(
            old(emu).registers,
            old(emu).memory@,
            old(io).input@,
            old(io).output@,
            old(emu).running,
            trap_vector_of(instr),
        ).3,
        final(emu).running == trap_dispatch_effect(
            old(emu).registers,
            old(emu).memory@,
            old(io).input@,
            old(io).output@,
            old(emu).running,
            trap_vector_of(instr),
        ).4,
        r is Ok <==> trap_vector_known(trap_vector_of(instr)),
        r matches Err(fault) ==> fault == DecodeFault::BadTrapVector(trap_vector_of(instr)),
{
    let vector: u16 = instr & 0xFF;
    match Trap::from_u16(vector) {
        Ok(trap) => {
            let traps = emu.traps;
            traps.call(trap, emu, io);
            Ok(())
        },
        Err(fault) => {
            emu.running = false;
            Err(fault)
        },
    }
}

/// Whether dispatching `op` with instruction word `instr` succeeds: every
/// opcode does, except TRAP with an unrecognized vector.
pub open spec fn call_ok(op: Opcode, instr: u16) -> bool {
    op != Opcode::OpTrap || trap_vector_known(trap_vector_of(instr))
}

/// The combined effect of dispatching one decoded opcode on the registers,
/// the memory, the console queues and the run flag.
pub open spec fn call_effect(
    op: Opcode,
    regs: Registers,
    mem: Seq<u16>,
    input: Seq<u8>,
    output: Seq<u8>,
    running: bool,
    instr: u16,
) -> (Registers, Seq<u16>, Seq<u8>, Seq<u8>, bool) {
    match op {
        Opcode::OpBr => (br_effect(regs, instr), mem, input, output, running),
        Opcode::OpAdd => (add_effect(regs, instr), mem, input, output, running),
        Opcode::OpLd => {
            let loaded = ld_effect(regs, mem, input, instr);
            (loaded.0, loaded.1, loaded.2, output, running)
        },
        Opcode::OpSt => (regs, st_effect(regs, mem, instr), input, output, running),
        Opcode::OpJsr => (jsr_effect(regs, instr), mem, input, output, running),
        Opcode::OpAnd => (and_effect(regs, instr), mem, input, output, running),
        Opcode::OpLdr => {
            let loaded = ldr_effect(regs, mem, input, instr);
            (loaded.0, loaded.1, loaded.2, output, running)
        },
        Opcode::OpStr => (regs, str_effect(regs, mem, instr), input, output, running),
        Opcode::OpRti => (regs, mem, input, output, running),
        Opcode::OpNot => (not_effect(regs, instr), mem, input, output, running),
        Opcode::OpLdi => {
            let loaded = ldi_effect(regs, mem, input, instr);
            (loaded.0, loaded.1, loaded.2, output, running)
        },
        Opcode::OpSti => {
            let stored = sti_effect(regs, mem, input, instr);
            (regs, stored.0, stored.1, output, running)
        },
        Opcode::OpJmp => (jmp_effect(regs, instr), mem, input, output, running),
        Opcode::OpRes => (regs, mem, input, output, running),
        Opcode::OpLea => (lea_effect(regs, instr), mem, input, output, running),
        Opcode::OpTrap => trap_dispatch_effect(
            regs,
            mem,
            input,
            output,
            running,
            trap_vector_of(instr),
        ),
    }
}

} // verus!
