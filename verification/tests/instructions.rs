use lc3_emu::emulator::{ConsoleIo, Emulator};
use lc3_emu::instruction::{
    op_add, op_and, op_br, op_jmp, op_jsr, op_ld, op_ldi, op_ldr, op_lea, op_not, op_st, op_sti,
    op_str, sign_extend, update_flags,
};
use lc3_emu::register::Register;

#[test]
fn sign_extend_exact_values() {
    assert_eq!(sign_extend(0b11111, 5), 0xFFFF);
    assert_eq!(sign_extend(0b01111, 5), 0x000F);
    assert_eq!(sign_extend(0x1FF, 9), 0xFFFF);
    assert_eq!(sign_extend(0x0FF, 9), 0x00FF);
    assert_eq!(sign_extend(0x100, 9), 0xFF00);
    assert_eq!(sign_extend(0x3F, 6), 0xFFFF);
    assert_eq!(sign_extend(0x400, 11), 0xFC00);
    assert_eq!(sign_extend(0, 5), 0);
}

#[test]
fn sign_extend_is_idempotent_on_samples() {
    for (x, n) in [(0b10000u16, 5u8), (0b11111, 5), (0x1FE, 9), (0x2A, 6), (0x7FF, 11)] {
        let once = sign_extend(x, n);
        assert_eq!(sign_extend(once, n), once);
    }
}

#[test]
fn add_immediate_five_minus_one_is_four() {
    let mut emu = Emulator::new();
    emu.registers.update(Register::Rr1, 5);
    // ADD R0, R1, #-1: the five-bit immediate 0b11111 is -1.
    op_add(&mut emu, 0x107F);
    assert_eq!(emu.registers.get_value(Register::Rr0), 4);
    assert_eq!(emu.registers.get_value(Register::Rcond), 1);
}

#[test]
fn add_register_mode_sums_two_registers() {
    let mut emu = Emulator::new();
    emu.registers.update(Register::Rr1, 2);
    emu.registers.update(Register::Rr2, 3);
    // ADD R0, R1, R2
    op_add(&mut emu, 0x1042);
    assert_eq!(emu.registers.get_value(Register::Rr0), 5);
}

#[test]
fn add_wraps_modulo_two_to_the_sixteen() {
    let mut emu = Emulator::new();
    emu.registers.update(Register::Rr1, 0xFFFF);
    // ADD R0, R1, #1
    op_add(&mut emu, 0x1061);
    assert_eq!(emu.registers.get_value(Register::Rr0), 0);
    assert_eq!(emu.registers.get_value(Register::Rcond), 2);
}

#[test]
fn and_immediate_masks_with_sign_extended_value() {
    let mut emu = Emulator::new();
    emu.registers.update(Register::Rr1, 0xF0F0);
    // AND R0, R1, #-1: the immediate sign-extends to 0xFFFF.
    op_and(&mut emu, 0x507F);
    assert_eq!(emu.registers.get_value(Register::Rr0), 0xF0F0);
    assert_eq!(emu.registers.get_value(Register::Rcond), 4);
}

#[test]
fn and_register_mode_masks_two_registers() {
    let mut emu = Emulator::new();
    emu.registers.update(Register::Rr1, 0b1100);
    emu.registers.update(Register::Rr2, 0b1010);
    // AND R0, R1, R2
    op_and(&mut emu, 0x5042);
    assert_eq!(emu.registers.get_value(Register::Rr0), 0b1000);
}

#[test]
fn not_complements_every_bit() {
    let mut emu = Emulator::new();
    emu.registers.update(Register::Rr1, 0x00FF);
    // NOT R0, R1
    op_not(&mut emu, 0x907F);
    assert_eq!(emu.registers.get_value(Register::Rr0), 0xFF00);
    assert_eq!(emu.registers.get_value(Register::Rcond), 4);
}

#[test]
fn update_flags_sets_exactly_one_flag() {
    let mut emu = Emulator::new();
    emu.registers.update(Register::Rr5, 0);
    update_flags(&mut emu, 5);
    assert_eq!(emu.registers.get_value(Register::Rcond), 2);
    emu.registers.update(Register::Rr5, 0x8000);
    update_flags(&mut emu, 5);
    assert_eq!(emu.registers.get_value(Register::Rcond), 4);
    emu.registers.update(Register::Rr5, 7);
    update_flags(&mut emu, 5);
    assert_eq!(emu.registers.get_value(Register::Rcond), 1);
}

#[test]
fn store_then_load_round_trip() {
    let mut emu = Emulator::new();
    let mut io = ConsoleIo::new();
    emu.registers.update(Register::Rpc, 0x4000);
    emu.registers.update(Register::Rr0, 0x5678);
    // ST R0, #0 then LD R1, #0 at the same program counter.
    op_st(&mut emu, 0x3000);
    op_ld(&mut emu, 0x2200, &mut io);
    assert_eq!(
        emu.registers.get_value(Register::Rr1),
        emu.registers.get_value(Register::Rr0)
    );
    assert_eq!(emu.registers.get_value(Register::Rr1), 0x5678);
}

#[test]
fn ld_reads_pc_relative_word_and_sets_flags() {
    let mut emu = Emulator::new();
    let mut io = ConsoleIo::new();
    emu.registers.update(Register::Rpc, 0x3000);
    emu.memory.write(0x3005, 0xABCD);
    // LD R2, #5
    op_ld(&mut emu, 0x2405, &mut io);
    assert_eq!(emu.registers.get_value(Register::Rr2), 0xABCD);
    assert_eq!(emu.registers.get_value(Register::Rcond), 4);
}

#[test]
fn st_writes_pc_relative_word() {
    let mut emu = Emulator::new();
    emu.registers.update(Register::Rpc, 0x3000);
    emu.registers.update(Register::Rr4, 0x1234);
    // ST R4, #2
    op_st(&mut emu, 0x3802);
    assert_eq!(emu.memory.memory[0x3002], 0x1234);
}

#[test]
fn ldr_reads_base_plus_offset() {
    let mut emu = Emulator::new();
    let mut io = ConsoleIo::new();
    emu.registers.update(Register::Rr3, 0x2000);
    emu.memory.write(0x2002, 0x0042);
    // LDR R4, R3, #2
    op_ldr(&mut emu, 0x68C2, &mut io);
    assert_eq!(emu.registers.get_value(Register::Rr4), 0x0042);
    assert_eq!(emu.registers.get_value(Register::Rcond), 1);
}

#[test]
fn str_writes_base_plus_offset() {
    let mut emu = Emulator::new();
    emu.registers.update(Register::Rr3, 0x2000);
    emu.registers.update(Register::Rr4, 0x00AA);
    // STR R4, R3, #1
    op_str(&mut emu, 0x78C1);
    assert_eq!(emu.memory.memory[0x2001], 0x00AA);
}

#[test]
fn ldi_follows_the_stored_pointer() {
    let mut emu = Emulator::new();
    let mut io = ConsoleIo::new();
    emu.registers.update(Register::Rpc, 0x3000);
    emu.memory.write(0x3001, 0x4000);
    emu.memory.write(0x4000, 0x0077);
    // LDI R2, #1
    op_ldi(&mut emu, 0xA401, &mut io);
    assert_eq!(emu.registers.get_value(Register::Rr2), 0x0077);
}

#[test]
fn sti_writes_through_the_stored_pointer() {
    let mut emu = Emulator::new();
    let mut io = ConsoleIo::new();
    emu.registers.update(Register::Rpc, 0x3000);
    emu.memory.write(0x3001, 0x4000);
    emu.registers.update(Register::Rr2, 0x0099);
    // STI R2, #1
    op_sti(&mut emu, 0xB401, &mut io);
    assert_eq!(emu.memory.memory[0x4000], 0x0099);
}

#[test]
fn lea_loads_the_address_itself() {
    let mut emu = Emulator::new();
    emu.registers.update(Register::Rpc, 0x3000);
    // LEA R6, #-2
    op_lea(&mut emu, 0xEDFE);
    assert_eq!(emu.registers.get_value(Register::Rr6), 0x2FFE);
    assert_eq!(emu.registers.get_value(Register::Rcond), 1);
}

#[test]
fn br_moves_pc_when_condition_matches() {
    let mut emu = Emulator::new();
    emu.registers.update(Register::Rpc, 0x3000);
    emu.registers.update(Register::Rcond, 2);
    // BRz #5
    op_br(&mut emu, 0x0405);
    assert_eq!(emu.registers.get_value(Register::Rpc), 0x3005);
}

#[test]
fn br_stays_put_when_condition_differs() {
    let mut emu = Emulator::new();
    emu.registers.update(Register::Rpc, 0x3000);
    emu.registers.update(Register::Rcond, 1);
    // BRz #5 with the positive flag set: not taken.
    op_br(&mut emu, 0x0405);
    assert_eq!(emu.registers.get_value(Register::Rpc), 0x3000);
}

#[test]
fn jmp_jumps_to_register_contents() {
    let mut emu = Emulator::new();
    emu.registers.update(Register::Rr3, 0x1234);
    // JMP R3
    op_jmp(&mut emu, 0xC0C0);
    assert_eq!(emu.registers.get_value(Register::Rpc), 0x1234);
}

#[test]
fn jsr_offset_mode_saves_return_address() {
    let mut emu = Emulator::new();
    emu.registers.update(Register::Rpc, 0x3000);
    // JSR #0x10
    op_jsr(&mut emu, 0x4810);
    assert_eq!(emu.registers.get_value(Register::Rr7), 0x3000);
    assert_eq!(emu.registers.get_value(Register::Rpc), 0x3010);
}

#[test]
fn jsrr_jumps_to_base_register_contents() {
    let mut emu = Emulator::new();
    emu.registers.update(Register::Rpc, 0x3000);
    emu.registers.update(Register::Rr3, 0x5000);
    // JSRR R3
    op_jsr(&mut emu, 0x40C0);
    assert_eq!(emu.registers.get_value(Register::Rr7), 0x3000);
    assert_eq!(emu.registers.get_value(Register::Rpc), 0x5000);
}

#[test]
fn jsrr_through_r7_uses_value_read_before_saving() {
    let mut emu = Emulator::new();
    emu.registers.update(Register::Rpc, 0x3000);
    emu.registers.update(Register::Rr7, 0x1111);
    // JSRR R7
    op_jsr(&mut emu, 0x41C0);
    assert_eq!(emu.registers.get_value(Register::Rpc), 0x1111);
    assert_eq!(emu.registers.get_value(Register::Rr7), 0x3000);
}
