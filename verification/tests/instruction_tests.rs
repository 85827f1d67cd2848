use lc3_vm::instructions::{self, OpCodes};
use lc3_vm::registers::{Flags, Register};
use lc3_vm::trap_routines::TrapRoutine;
use lc3_vm::vm::Vm;

#[test]
fn decode_covers_every_field_value() {
    assert!(matches!(OpCodes::new(0), OpCodes::OP_BR));
    assert!(matches!(OpCodes::new(1), OpCodes::OP_ADD));
    assert!(matches!(OpCodes::new(8), OpCodes::OP_RTI));
    assert!(matches!(OpCodes::new(13), OpCodes::OP_RES));
    assert!(matches!(OpCodes::new(15), OpCodes::OP_TRAP));
    assert!(matches!(Register::new(0), Register::R_R0));
    assert!(matches!(Register::new(8), Register::R_PC));
    assert!(matches!(Register::new(9), Register::R_COND));
    assert!(matches!(TrapRoutine::new(0x20), TrapRoutine::TRAP_GETC));
    assert!(matches!(TrapRoutine::new(0x25), TrapRoutine::TRAP_HALT));
}

#[test]
fn flag_values_are_one_hot() {
    assert_eq!(Flags::FL_POS.value(), 0b001);
    assert_eq!(Flags::FL_ZRO.value(), 0b010);
    assert_eq!(Flags::FL_NEG.value(), 0b100);
}

#[test]
fn test_add() {
    let mut vm = Vm::new();

    let instruction: u16 = (0b000000 << 9) | (0b00001 << 6) | (1 << 5) | 5;

    vm.registers.write(Register::R_R1, 10);

    instructions::add(&mut vm, instruction);

    assert_eq!(vm.registers.read(Register::R_R0), 15);
}

#[test]
fn test_jmp() {
    let mut vm = Vm::new();

    let instruction: u16 = (0b000011 << 9) | (0b00001 << 6);

    vm.registers.write(Register::R_R1, 0x4000);

    instructions::jmp(&mut vm, instruction);

    assert_eq!(vm.registers.read(Register::R_PC), 0x4000);
}

#[test]
fn add_immediate_sets_positive_flag() {
    let mut vm = Vm::new();
    vm.registers.write(Register::R_R1, 10);

    // ADD R0, R1, #5
    instructions::add(&mut vm, (0b001 << 12) | (1 << 6) | (1 << 5) | 5);

    assert_eq!(vm.registers.read(Register::R_R0), 15);
    assert_eq!(vm.registers.read(Register::R_COND), Flags::FL_POS.value());
}

#[test]
fn add_wraps_and_sets_zero_flag() {
    let mut vm = Vm::new();
    vm.registers.write(Register::R_R1, 0xFFFF);

    // ADD R0, R1, #1
    instructions::add(&mut vm, (0b001 << 12) | (1 << 6) | (1 << 5) | 1);

    assert_eq!(vm.registers.read(Register::R_R0), 0x0000);
    assert_eq!(vm.registers.read(Register::R_COND), Flags::FL_ZRO.value());
}

#[test]
fn add_register_mode() {
    let mut vm = Vm::new();
    vm.registers.write(Register::R_R1, 3);
    vm.registers.write(Register::R_R2, 4);

    // ADD R0, R1, R2
    instructions::add(&mut vm, (0b001 << 12) | (1 << 6) | 2);

    assert_eq!(vm.registers.read(Register::R_R0), 7);
}

#[test]
fn and_immediate() {
    let mut vm = Vm::new();
    vm.registers.write(Register::R_R1, 0b1010);

    // AND R0, R1, #0b0110
    instructions::and(&mut vm, (0b101 << 12) | (1 << 6) | (1 << 5) | 0b0110);

    assert_eq!(vm.registers.read(Register::R_R0), 0b0010);
}

#[test]
fn not_zero_gives_all_ones_and_negative_flag() {
    let mut vm = Vm::new();
    vm.registers.write(Register::R_R1, 0x0000);

    // NOT R0, R1
    instructions::not(&mut vm, (0b1001 << 12) | (1 << 6));

    assert_eq!(vm.registers.read(Register::R_R0), 0xFFFF);
    assert_eq!(vm.registers.read(Register::R_COND), Flags::FL_NEG.value());
}

#[test]
fn lea_takes_address_only() {
    let mut vm = Vm::new();
    vm.registers.write(Register::R_PC, 0x3001);

    // LEA R0, #2
    instructions::lea(&mut vm, (0b1110 << 12) | 2);

    assert_eq!(vm.registers.read(Register::R_R0), 0x3003);
    // The address itself is loaded; memory stays untouched.
    assert_eq!(vm.memory[0x3003], 0);
    assert_eq!(vm.registers.read(Register::R_COND), Flags::FL_POS.value());
}

#[test]
fn jsr_long_form_saves_return_address() {
    let mut vm = Vm::new();
    vm.registers.write(Register::R_PC, 0x3000);

    // JSR #5 (long flag set)
    instructions::jsr(&mut vm, (0b0100 << 12) | (1 << 11) | 5);

    assert_eq!(vm.registers.read(Register::R_R7), 0x3000);
    assert_eq!(vm.registers.read(Register::R_PC), 0x3005);
}

#[test]
fn jsrr_jumps_to_register_value() {
    let mut vm = Vm::new();
    vm.registers.write(Register::R_PC, 0x3000);
    vm.registers.write(Register::R_R2, 0x4123);

    // JSRR R2
    instructions::jsr(&mut vm, (0b0100 << 12) | (2 << 6));

    assert_eq!(vm.registers.read(Register::R_R7), 0x3000);
    assert_eq!(vm.registers.read(Register::R_PC), 0x4123);
}

#[test]
fn branch_taken_on_matching_flag() {
    let mut vm = Vm::new();
    vm.registers.write(Register::R_PC, 0x3000);
    vm.registers.write(Register::R_COND, Flags::FL_NEG.value());

    // BRn #-2 (pcoffset9 = 0x1FE)
    instructions::branch(&mut vm, (0b100 << 9) | 0x1FE);

    assert_eq!(vm.registers.read(Register::R_PC), 0x2FFE);
}

#[test]
fn branch_not_taken_on_mismatch() {
    let mut vm = Vm::new();
    vm.registers.write(Register::R_PC, 0x3000);
    vm.registers.write(Register::R_COND, Flags::FL_POS.value());

    // BRz #4
    instructions::branch(&mut vm, (0b010 << 9) | 4);

    assert_eq!(vm.registers.read(Register::R_PC), 0x3000);
}

#[test]
fn ld_loads_pc_relative() {
    let mut vm = Vm::new();
    vm.registers.write(Register::R_PC, 0x3000);
    vm.mem_write(0x3004, 0xBEEF);

    // LD R3, #4
    instructions::ld(&mut vm, (0b0010 << 12) | (3 << 9) | 4);

    assert_eq!(vm.registers.read(Register::R_R3), 0xBEEF);
    assert_eq!(vm.registers.read(Register::R_COND), Flags::FL_NEG.value());
}

#[test]
fn ldi_loads_indirect() {
    let mut vm = Vm::new();
    vm.registers.write(Register::R_PC, 0x3000);
    vm.mem_write(0x3002, 0x4000);
    vm.mem_write(0x4000, 0x0042);

    // LDI R4, #2
    instructions::ldi(&mut vm, (0b1010 << 12) | (4 << 9) | 2);

    assert_eq!(vm.registers.read(Register::R_R4), 0x0042);
}

#[test]
fn ldr_loads_base_plus_offset() {
    let mut vm = Vm::new();
    vm.registers.write(Register::R_R2, 0x5000);
    vm.mem_write(0x5003, 7);

    // LDR R1, R2, #3
    instructions::ldr(&mut vm, (0b0110 << 12) | (1 << 9) | (2 << 6) | 3);

    assert_eq!(vm.registers.read(Register::R_R1), 7);
}

#[test]
fn st_stores_pc_relative() {
    let mut vm = Vm::new();
    vm.registers.write(Register::R_PC, 0x3000);
    vm.registers.write(Register::R_R5, 0xAAAA);

    // ST R5, #1
    instructions::st(&mut vm, (0b0011 << 12) | (5 << 9) | 1);

    assert_eq!(vm.memory[0x3001], 0xAAAA);
}

#[test]
fn sti_stores_indirect() {
    let mut vm = Vm::new();
    vm.registers.write(Register::R_PC, 0x3000);
    vm.registers.write(Register::R_R5, 0x1234);
    vm.mem_write(0x3002, 0x6000);

    // STI R5, #2
    instructions::sti(&mut vm, (0b1011 << 12) | (5 << 9) | 2);

    assert_eq!(vm.memory[0x6000], 0x1234);
}

#[test]
fn str_stores_base_plus_offset() {
    let mut vm = Vm::new();
    vm.registers.write(Register::R_R2, 0x7000);
    vm.registers.write(Register::R_R6, 0x5555);

    // STR R6, R2, #2
    instructions::str(&mut vm, (0b0111 << 12) | (6 << 9) | (2 << 6) | 2);

    assert_eq!(vm.memory[0x7002], 0x5555);
}

#[test]
fn negative_offset_wraps_address() {
    let mut vm = Vm::new();
    vm.registers.write(Register::R_PC, 0x0000);
    vm.registers.write(Register::R_R1, 0x0042);

    // ST R1, #-1: wraps to the top of the address space.
    instructions::st(&mut vm, (0b0011 << 12) | (1 << 9) | 0x1FF);

    assert_eq!(vm.memory[0xFFFF], 0x0042);
}
