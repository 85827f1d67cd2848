//! Decoding and the sixteen opcode semantics. Each handler takes the machine
//! by exclusive reference and the fetched instruction word, with the program
//! counter already advanced past it; its full effect on the machine is
//! stated against the handler's effect function over `VmView`.

use vstd::prelude::*;

use crate::registers::{Register, spec_register};
use crate::utils::{sign_extend, spec_sign_extend};
use crate::vm::{
    spec_mem_read_state, spec_mem_read_value, spec_mem_write, spec_update_flags, with_registers,
    Vm, VmView,
};

verus! {

/// The sixteen opcodes, in the order of their 4-bit encodings.
#[allow(non_camel_case_types)]
#[derive(Clone, Copy, Debug, PartialEq, Eq, Structural)]
pub enum OpCodes {
    OP_BR,
    OP_ADD,
    OP_LD,
    OP_ST,
    OP_JSR,
    OP_AND,
    OP_LDR,
    OP_STR,
    OP_RTI,
    OP_NOT,
    OP_LDI,
    OP_STI,
    OP_JMP,
    OP_RES,
    OP_LEA,
    OP_TRAP,
}

/// The opcode encoded by `value`; total over the 4-bit range.
pub open spec fn spec_opcode(value: u16) -> OpCodes
    recommends
        value < 16,
{
    if value == 0 {
        OpCodes::OP_BR
    } else if value == 1 {
        OpCodes::OP_ADD
    } else if value == 2 {
        OpCodes::OP_LD
    } else if value == 3 {
        OpCodes::OP_ST
    } else if value == 4 {
        OpCodes::OP_JSR
    } else if value == 5 {
        OpCodes::OP_AND
    } else if value == 6 {
        OpCodes::OP_LDR
    } else if value == 7 {
        OpCodes::OP_STR
    } else if value == 8 {
        OpCodes::OP_RTI
    } else if value == 9 {
        OpCodes::OP_NOT
    } else if value == 10 {
        OpCodes::OP_LDI
    } else if value == 11 {
        OpCodes::OP_STI
    } else if value == 12 {
        OpCodes::OP_JMP
    } else if value == 13 {
        OpCodes::OP_RES
    } else if value == 14 {
        OpCodes::OP_LEA
    } else {
        OpCodes::OP_TRAP
    }
}

impl OpCodes {
    /// Decodes the 4-bit opcode field.
    pub fn new(value: u16) -> (opcode: OpCodes)
        requires
            value < 16,
        ensures
            opcode == spec_opcode(value),
    {
        match value {
            0 => OpCodes::OP_BR,
            1 => OpCodes::OP_ADD,
            2 => OpCodes::OP_LD,
            3 => OpCodes::OP_ST,
            4 => OpCodes::OP_JSR,
            5 => OpCodes::OP_AND,
            6 => OpCodes::OP_LDR,
            7 => OpCodes::OP_STR,
            8 => OpCodes::OP_RTI,
            9 => OpCodes::OP_NOT,
            10 => OpCodes::OP_LDI,
            11 => OpCodes::OP_STI,
            12 => OpCodes::OP_JMP,
            13 => OpCodes::OP_RES,
            14 => OpCodes::OP_LEA,
            _ => OpCodes::OP_TRAP,
        }
    }
}

/// A 3-bit field masked out of an instruction names one of the eight
/// general-purpose registers.
pub proof fn lemma_register_field(x: u16)
    ensures
        x & 0x7 < 8,
{
    assert(x & 0x7 < 8) by (bit_vector);
}

/// The destination register named by bits 11..9.
pub open spec fn spec_dst(instruction: u16) -> Register {
    spec_register((instruction >> 9) & 0x7)
}

/// The first source register named by bits 8..6.
pub open spec fn spec_src1(instruction: u16) -> Register {
    spec_register((instruction >> 6) & 0x7)
}

/// ADD: the destination takes source one plus either the sign-extended
/// 5-bit immediate or source two, wrapping; the condition flags follow.
pub open spec fn spec_add(v: VmView, instruction: u16) -> VmView {
    let dst = spec_dst(instruction);
    let lhs = v.registers.spec_read(spec_src1(instruction));
    let rhs = if (instruction >> 5) & 0x1 != 0 {
        spec_sign_extend(instruction & 0x1F, 5)
    } else {
        v.registers.spec_read(spec_register(instruction & 0x7))
    };
    let written = with_registers(v, v.registers.spec_write(dst, lhs.wrapping_add(rhs)));
    spec_update_flags(written, dst)
}

/// Executes ADD.
pub fn add(vm: &mut Vm, instruction: u16)
    requires
        old(vm).wf(),
    ensures
        final(vm).wf(),
        final(vm)@ == spec_add(old(vm)@, instruction),
{
    proof {
        lemma_register_field(instruction >> 9);
        lemma_register_field(instruction >> 6);
        lemma_register_field(instruction);
    }
    let dst = Register::new((instruction >> 9) & 0x7);
    let lhs = vm.registers.read(Register::new((instruction >> 6) & 0x7));

    let imm_flag = (instruction >> 5) & 0x1;

    if imm_flag != 0 {
        let imm5 = sign_extend(instruction & 0x1F, 5);
        vm.registers.write(dst, lhs.wrapping_add(imm5));
    } else {
        let rhs = vm.registers.read(Register::new(instruction & 0x7));
        vm.registers.write(dst, lhs.wrapping_add(rhs));
    }

    vm.update_flags(dst);
}

/// AND: the destination takes source one bitwise-and either the
/// sign-extended 5-bit immediate or source two; the condition flags follow.
pub open spec fn spec_and(v: VmView, instruction: u16) -> VmView {
    let dst = spec_dst(instruction);
    let lhs = v.registers.spec_read(spec_src1(instruction));
    let rhs = if (instruction >> 5) & 0x1 != 0 {
        spec_sign_extend(instruction & 0x1F, 5)
    } else {
        v.registers.spec_read(spec_register(instruction & 0x7))
    };
    let written = with_registers(v, v.registers.spec_write(dst, lhs & rhs));
    spec_update_flags(written, dst)
}

/// Executes AND.
pub fn and(vm: &mut Vm, instruction: u16)
    requires
        old(vm).wf(),
    ensures
        final(vm).wf(),
        final(vm)@ == spec_and(old(vm)@, instruction),
{
    proof {
        lemma_register_field(instruction >> 9);
        lemma_register_field(instruction >> 6);
        lemma_register_field(instruction);
    }
    let dst = Register::new((instruction >> 9) & 0x7);
    let lhs = vm.registers.read(Register::new((instruction >> 6) & 0x7));

    let imm_flag = (instruction >> 5) & 0x1;

    if imm_flag != 0 {
        let imm5 = sign_extend(instruction & 0x1F, 5);
        vm.registers.write(dst, lhs & imm5);
    } else {
        let rhs = vm.registers.read(Register::new(instruction & 0x7));
        vm.registers.write(dst, lhs & rhs);
    }

    vm.update_flags(dst);
}

/// NOT: the destination takes the bitwise complement of the source; the
/// condition flags follow.
pub open spec fn spec_not(v: VmView, instruction: u16) -> VmView {
    let dst = spec_dst(instruction);
    let value = !v.registers.spec_read(spec_src1(instruction));
    spec_update_flags(with_registers(v, v.registers.spec_write(dst, value)), dst)
}

/// Executes NOT.
pub fn not(vm: &mut Vm, instruction: u16)
    requires
        old(vm).wf(),
    ensures
        final(vm).wf(),
        final(vm)@ == spec_not(old(vm)@, instruction),
{
    proof {
        lemma_register_field(instruction >> 9);
        lemma_register_field(instruction >> 6);
    }
    let dst = Register::new((instruction >> 9) & 0x7);
    let value = vm.registers.read(Register::new((instruction >> 6) & 0x7));

    vm.registers.write(dst, !value);
    vm.update_flags(dst);
}

/// BR: when the instruction's 3-bit condition mask shares a bit with the
/// condition-flags register, the program counter moves by the
/// sign-extended 9-bit offset, wrapping.
pub open spec fn spec_branch(v: VmView, instruction: u16) -> VmView {
    let offset = spec_sign_extend(instruction & 0x1FF, 9);
    let mask = (instruction >> 9) & 0x7;
    let pc = v.registers.spec_read(Register::R_PC);
    if mask & v.registers.spec_read(Register::R_COND) != 0 {
        with_registers(v, v.registers.spec_write(Register::R_PC, pc.wrapping_add(offset)))
    } else {
        v
    }
}

/// Executes BR.
pub fn branch(vm: &mut Vm, instruction: u16)
    requires
        old(vm).wf(),
    ensures
        final(vm).wf(),
        final(vm)@ == spec_branch(old(vm)@, instruction),
{
    let offset = sign_extend(instruction & 0x1FF, 9);
    let mask = (instruction >> 9) & 0x7;

    let cond = vm.registers.read(Register::R_COND);
    let pc = vm.registers.read(Register::R_PC);

    if mask & cond > 0 {
        vm.registers.write(Register::R_PC, pc.wrapping_add(offset));
    }
}

/// JMP: the program counter takes the value of the register named by bits
/// 8..6; with R7 there this is the conventional RET.
pub open spec fn spec_jmp(v: VmView, instruction: u16) -> VmView {
    with_registers(
        v,
        v.registers.spec_write(Register::R_PC, v.registers.spec_read(spec_src1(instruction))),
    )
}

/// Executes JMP.
pub fn jmp(vm: &mut Vm, instruction: u16)
    requires
        old(vm).wf(),
    ensures
        final(vm).wf(),
        final(vm)@ == spec_jmp(old(vm)@, instruction),
{
    proof {
        lemma_register_field(instruction >> 6);
    }
    let target = vm.registers.read(Register::new((instruction >> 6) & 0x7));
    vm.registers.write(Register::R_PC, target);
}

/// JSR and JSRR: R7 takes the already advanced program counter as the
/// return address; then the program counter either moves by the
/// sign-extended 11-bit offset (long form) or takes the value of the
/// register named by bits 8..6.
pub open spec fn spec_jsr(v: VmView, instruction: u16) -> VmView {
    let pc = v.registers.spec_read(Register::R_PC);
    let saved = v.registers.spec_write(Register::R_R7, pc);
    if (instruction >> 11) & 1 != 0 {
        with_registers(
            v,
            saved.spec_write(
                Register::R_PC,
                pc.wrapping_add(spec_sign_extend(instruction & 0x7FF, 11)),
            ),
        )
    } else {
        with_registers(
            v,
            saved.spec_write(Register::R_PC, saved.spec_read(spec_src1(instruction))),
        )
    }
}

/// Executes JSR / JSRR.
pub fn jsr(vm: &mut Vm, instruction: u16)
    requires
        old(vm).wf(),
    ensures
        final(vm).wf(),
        final(vm)@ == spec_jsr(old(vm)@, instruction),
{
    let long_flag = (instruction >> 11) & 1;
    let pc = vm.registers.read(Register::R_PC);

    vm.registers.write(Register::R_R7, pc);

    if long_flag != 0 {
        let offset = sign_extend(instruction & 0x7FF, 11);
        vm.registers.write(Register::R_PC, pc.wrapping_add(offset));
    } else {
        proof {
            lemma_register_field(instruction >> 6);
        }
        let target = vm.registers.read(Register::new((instruction >> 6) & 0x7));
        vm.registers.write(Register::R_PC, target);
    }
}

/// LD: the destination takes the cell at the program counter plus the
/// sign-extended 9-bit offset; the condition flags follow. Addressing the
/// keyboard status cell polls the keyboard first.
pub open spec fn spec_ld(v: VmView, instruction: u16) -> VmView {
    let dst = spec_dst(instruction);
    let address = v.registers.spec_read(Register::R_PC).wrapping_add(
        spec_sign_extend(instruction & 0x1FF, 9),
    );
    let polled = spec_mem_read_state(v, address);
    let value = spec_mem_read_value(v, address);
    spec_update_flags(with_registers(polled, polled.registers.spec_write(dst, value)), dst)
}

/// Executes LD.
pub fn ld(vm: &mut Vm, instruction: u16)
    requires
        old(vm).wf(),
    ensures
        final(vm).wf(),
        final(vm)@ == spec_ld(old(vm)@, instruction),
{
    proof {
        lemma_register_field(instruction >> 9);
    }
    let dst = Register::new((instruction >> 9) & 0x7);
    let offset = sign_extend(instruction & 0x1FF, 9);

    let pc = vm.registers.read(Register::R_PC);
    let value = vm.mem_read(pc.wrapping_add(offset));

    vm.registers.write(dst, value);
    vm.update_flags(dst);
}

/// LDI: the cell at the program counter plus the sign-extended 9-bit
/// offset holds the address of the value loaded into the destination; the
/// condition flags follow. Each of the two reads can poll the keyboard.
pub open spec fn spec_ldi(v: VmView, instruction: u16) -> VmView {
    let dst = spec_dst(instruction);
    let first = v.registers.spec_read(Register::R_PC).wrapping_add(
        spec_sign_extend(instruction & 0x1FF, 9),
    );
    let v1 = spec_mem_read_state(v, first);
    let pointer = spec_mem_read_value(v, first);
    let v2 = spec_mem_read_state(v1, pointer);
    let value = spec_mem_read_value(v1, pointer);
    spec_update_flags(with_registers(v2, v2.registers.spec_write(dst, value)), dst)
}

/// Executes LDI.
pub fn ldi(vm: &mut Vm, instruction: u16)
    requires
        old(vm).wf(),
    ensures
        final(vm).wf(),
        final(vm)@ == spec_ldi(old(vm)@, instruction),
{
    proof {
        lemma_register_field(instruction >> 9);
    }
    let dst = Register::new((instruction >> 9) & 0x7);
    let offset = sign_extend(instruction & 0x1FF, 9);

    let pc = vm.registers.read(Register::R_PC);
    let pointer = vm.mem_read(pc.wrapping_add(offset));
    let value = vm.mem_read(pointer);

    vm.registers.write(dst, value);
    vm.update_flags(dst);
}

/// LDR: the destination takes the cell at the base register plus the
/// sign-extended 6-bit offset; the condition flags follow.
pub open spec fn spec_ldr(v: VmView, instruction: u16) -> VmView {
    let dst = spec_dst(instruction);
    let base = v.registers.spec_read(spec_src1(instruction));
    let address = base.wrapping_add(spec_sign_extend(instruction & 0x3F, 6));
    let polled = spec_mem_read_state(v, address);
    let value = spec_mem_read_value(v, address);
    spec_update_flags(with_registers(polled, polled.registers.spec_write(dst, value)), dst)
}

/// Executes LDR.
pub fn ldr(vm: &mut Vm, instruction: u16)
    requires
        old(vm).wf(),
    ensures
        final(vm).wf(),
        final(vm)@ == spec_ldr(old(vm)@, instruction),
{
    proof {
        lemma_register_field(instruction >> 9);
        lemma_register_field(instruction >> 6);
    }
    let dst = Register::new((instruction >> 9) & 0x7);
    let base = vm.registers.read(Register::new((instruction >> 6) & 0x7));

    let offset = sign_extend(instruction & 0x3F, 6);
    let value = vm.mem_read(base.wrapping_add(offset));

    vm.registers.write(dst, value);
    vm.update_flags(dst);
}

/// LEA: the destination takes the program counter plus the sign-extended
/// 9-bit offset — the address itself, memory untouched; the condition
/// flags follow.
pub open spec fn spec_lea(v: VmView, instruction: u16) -> VmView {
    let dst = spec_dst(instruction);
    let address = v.registers.spec_read(Register::R_PC).wrapping_add(
        spec_sign_extend(instruction & 0x1FF, 9),
    );
    spec_update_flags(with_registers(v, v.registers.spec_write(dst, address)), dst)
}

/// Executes LEA.
pub fn lea(vm: &mut Vm, instruction: u16)
    requires
        old(vm).wf(),
    ensures
        final(vm).wf(),
        final(vm)@ == spec_lea(old(vm)@, instruction),
{
    proof {
        lemma_register_field(instruction >> 9);
    }
    let dst = Register::new((instruction >> 9) & 0x7);
    let offset = sign_extend(instruction & 0x1FF, 9);
    let pc = vm.registers.read(Register::R_PC);

    vm.registers.write(dst, pc.wrapping_add(offset));
    vm.update_flags(dst);
}

/// ST: the cell at the program counter plus the sign-extended 9-bit offset
/// takes the source register's value.
pub open spec fn spec_st(v: VmView, instruction: u16) -> VmView {
    let value = v.registers.spec_read(spec_dst(instruction));
    let address = v.registers.spec_read(Register::R_PC).wrapping_add(
        spec_sign_extend(instruction & 0x1FF, 9),
    );
    spec_mem_write(v, address, value)
}

/// Executes ST.
pub fn st(vm: &mut Vm, instruction: u16)
    requires
        old(vm).wf(),
    ensures
        final(vm).wf(),
        final(vm)@ == spec_st(old(vm)@, instruction),
{
    proof {
        lemma_register_field(instruction >> 9);
    }
    let value = vm.registers.read(Register::new((instruction >> 9) & 0x7));

    let offset = sign_extend(instruction & 0x1FF, 9);
    let pc = vm.registers.read(Register::R_PC);

    vm.mem_write(pc.wrapping_add(offset), value);
}

/// STI: the cell at the program counter plus the sign-extended 9-bit
/// offset holds the address that takes the source register's value; the
/// intermediate read can poll the keyboard.
pub open spec fn spec_sti(v: VmView, instruction: u16) -> VmView {
    let value = v.registers.spec_read(spec_dst(instruction));
    let first = v.registers.spec_read(Register::R_PC).wrapping_add(
        spec_sign_extend(instruction & 0x1FF, 9),
    );
    let polled = spec_mem_read_state(v, first);
    let pointer = spec_mem_read_value(v, first);
    spec_mem_write(polled, pointer, value)
}

/// Executes STI.
pub fn sti(vm: &mut Vm, instruction: u16)
    requires
        old(vm).wf(),
    ensures
        final(vm).wf(),
        final(vm)@ == spec_sti(old(vm)@, instruction),
{
    proof {
        lemma_register_field(instruction >> 9);
    }
    let value = vm.registers.read(Register::new((instruction >> 9) & 0x7));

    let offset = sign_extend(instruction & 0x1FF, 9);
    let pc = vm.registers.read(Register::R_PC);
    let pointer = vm.mem_read(pc.wrapping_add(offset));

    vm.mem_write(pointer, value);
}

/// STR: the cell at the base register plus the sign-extended 6-bit offset
/// takes the source register's value.
pub open spec fn spec_str(v: VmView, instruction: u16) -> VmView {
    let value = v.registers.spec_read(spec_dst(instruction));
    let base = v.registers.spec_read(spec_src1(instruction));
    let address = base.wrapping_add(spec_sign_extend(instruction & 0x3F, 6));
    spec_mem_write(v, address, value)
}

/// Executes STR.
pub fn str(vm: &mut Vm, instruction: u16)
    requires
        old(vm).wf(),
    ensures
        final(vm).wf(),
        final(vm)@ == spec_str(old(vm)@, instruction),
{
    proof {
        lemma_register_field(instruction >> 9);
        lemma_register_field(instruction >> 6);
    }
    let value = vm.registers.read(Register::new((instruction >> 9) & 0x7));
    let base = vm.registers.read(Register::new((instruction >> 6) & 0x7));

    let offset = sign_extend(instruction & 0x3F, 6);

    vm.mem_write(base.wrapping_add(offset), value);
}

} // verus!
