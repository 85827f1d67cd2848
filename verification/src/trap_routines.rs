//! The six console trap routines. Their decisions and data movement are
//! here; the embedding program performs the actual console reads and
//! writes, feeding the machine's input queue and draining its output
//! buffer.

use vstd::prelude::*;

use crate::registers::Register;
use crate::utils::{high_byte, lemma_high_byte, lemma_low_byte, low_byte};
use crate::vm::{Vm, VmView, MEMORY_SIZE};

verus! {

/// The six recognized trap vectors.
#[allow(non_camel_case_types)]
#[derive(Clone, Copy, Debug, PartialEq, Eq, Structural)]
pub enum TrapRoutine {
    TRAP_GETC,
    TRAP_OUT,
    TRAP_PUTS,
    TRAP_IN,
    TRAP_PUTSP,
    TRAP_HALT,
}

/// Whether `value` is one of the six recognized trap vectors; any other
/// vector is a fatal decode condition.
pub open spec fn is_trap_vector(value: u16) -> bool {
    0x20 <= value <= 0x25
}

/// The routine selected by a recognized trap vector.
pub open spec fn spec_trap_routine(value: u16) -> TrapRoutine
    recommends
        is_trap_vector(value),
{
    if value == 0x20 {
        TrapRoutine::TRAP_GETC
    } else if value == 0x21 {
        TrapRoutine::TRAP_OUT
    } else if value == 0x22 {
        TrapRoutine::TRAP_PUTS
    } else if value == 0x23 {
        TrapRoutine::TRAP_IN
    } else if value == 0x24 {
        TrapRoutine::TRAP_PUTSP
    } else {
        TrapRoutine::TRAP_HALT
    }
}

impl TrapRoutine {
    /// Decodes a recognized trap vector.
    pub fn new(value: u16) -> (routine: TrapRoutine)
        requires
            is_trap_vector(value),
        ensures
            routine == spec_trap_routine(value),
    {
        match value {
            0x20 => TrapRoutine::TRAP_GETC,
            0x21 => TrapRoutine::TRAP_OUT,
            0x22 => TrapRoutine::TRAP_PUTS,
            0x23 => TrapRoutine::TRAP_IN,
            0x24 => TrapRoutine::TRAP_PUTSP,
            _ => TrapRoutine::TRAP_HALT,
        }
    }
}

/// The bytes PUTS writes: the low byte of each consecutive cell from
/// `address` on, up to the first all-zero cell (exclusive). The fuel bounds
/// the walk to one sweep of the address space, so a string without a
/// terminator yields at most 65536 characters.
pub open spec fn spec_puts_bytes(memory: Seq<u16>, address: u16, fuel: nat) -> Seq<u8>
    decreases fuel,
{
    if fuel == 0 {
        Seq::empty()
    } else {
        let cell = memory[address as int];
        if cell == 0 {
            Seq::empty()
        } else {
            seq![low_byte(cell)] + spec_puts_bytes(
                memory,
                address.wrapping_add(1),
                (fuel - 1) as nat,
            )
        }
    }
}

/// The bytes PUTSP writes: two characters per cell, low byte first; the
/// walk stops at the first cell whose low byte is zero, or after the low
/// byte of a cell whose high byte is zero. The fuel bounds the walk to one
/// sweep of the address space.
pub open spec fn spec_putsp_bytes(memory: Seq<u16>, address: u16, fuel: nat) -> Seq<u8>
    decreases fuel,
{
    if fuel == 0 {
        Seq::empty()
    } else {
        let cell = memory[address as int];
        if low_byte(cell) == 0 {
            Seq::empty()
        } else if high_byte(cell) == 0 {
            seq![low_byte(cell)]
        } else {
            seq![low_byte(cell), high_byte(cell)] + spec_putsp_bytes(
                memory,
                address.wrapping_add(1),
                (fuel - 1) as nat,
            )
        }
    }
}

/// HALT: the run flag goes off; the run loop stops at its next check, and
/// the embedder may print a halt notice.
pub fn halt(vm: &mut Vm)
    ensures
        final(vm)@ == (VmView { active: false, ..old(vm)@ }),
{
    vm.active = false;
}

/// GETC: serves one byte from the machine's input queue into R0, without
/// echo. With the queue empty nothing changes and the caller must ask the
/// embedder for a byte instead.
pub fn get_char(vm: &mut Vm) -> (served: bool)
    ensures
        served == (old(vm)@.input.len() > 0),
        served ==> final(vm)@ == (VmView {
            registers: old(vm)@.registers.spec_write(
                Register::R_R0,
                old(vm)@.input[0] as u16,
            ),
            input: old(vm)@.input.remove(0),
            ..old(vm)@
        }),
        !served ==> final(vm)@ == old(vm)@,
{
    if vm.input.len() > 0 {
        let byte = vm.input.remove(0);
        vm.registers.write(Register::R_R0, byte as u16);
        true
    } else {
        false
    }
}

/// OUT: writes the low byte of R0 to the console output.
pub fn trap_out(vm: &mut Vm)
    ensures
        final(vm)@ == (VmView {
            output: old(vm)@.output.push(low_byte(old(vm)@.registers.spec_read(Register::R_R0))),
            ..old(vm)@
        }),
{
    let character = vm.registers.read(Register::R_R0);
    proof {
        lemma_low_byte(character);
    }
    vm.output.push((character & 0xFF) as u8);
}

/// IN: like GETC but the served byte is echoed to the console output. With
/// the queue empty nothing changes and the caller must have the embedder
/// prompt for a byte instead.
pub fn trap_in(vm: &mut Vm) -> (served: bool)
    ensures
        served == (old(vm)@.input.len() > 0),
        served ==> final(vm)@ == (VmView {
            registers: old(vm)@.registers.spec_write(
                Register::R_R0,
                old(vm)@.input[0] as u16,
            ),
            input: old(vm)@.input.remove(0),
            output: old(vm)@.output.push(old(vm)@.input[0]),
            ..old(vm)@
        }),
        !served ==> final(vm)@ == old(vm)@,
{
    if vm.input.len() > 0 {
        let byte = vm.input.remove(0);
        vm.registers.write(Register::R_R0, byte as u16);
        vm.output.push(byte);
        true
    } else {
        false
    }
}

/// PUTS: writes the string starting at the address in R0, one character
/// per cell, to the console output.
pub fn trap_put(vm: &mut Vm)
    requires
        old(vm).wf(),
    ensures
        final(vm).wf(),
        final(vm)@ == (VmView {
            output: old(vm)@.output + spec_puts_bytes(
                old(vm)@.memory,
                old(vm)@.registers.spec_read(Register::R_R0),
                MEMORY_SIZE as nat,
            ),
            ..old(vm)@
        }),
{
    let start = vm.registers.read(Register::R_R0);
    let ghost total = spec_puts_bytes(vm@.memory, start, MEMORY_SIZE as nat);
    let ghost mut built: Seq<u8> = Seq::empty();

    let mut address = start;
    let mut steps: usize = 0;
    let mut character = vm.memory[address as usize];
    proof {
        assert(built + total =~= total);
    }
    while character != 0 && steps < MEMORY_SIZE
        invariant
            vm.wf(),
            steps <= MEMORY_SIZE,
            character == vm@.memory[address as int],
            vm@.memory == old(vm)@.memory,
            vm@.registers == old(vm)@.registers,
            vm@.active == old(vm)@.active,
            vm@.input == old(vm)@.input,
            vm@.output =~= old(vm)@.output + built,
            built + spec_puts_bytes(vm@.memory, address, (MEMORY_SIZE - steps) as nat) =~= total,
        decreases MEMORY_SIZE - steps,
    {
        proof {
            lemma_low_byte(character);
        }
        let low = (character & 0xFF) as u8;
        vm.output.push(low);
        proof {
            let rest = spec_puts_bytes(
                vm@.memory,
                address.wrapping_add(1),
                (MEMORY_SIZE - (steps + 1)) as nat,
            );
            assert(spec_puts_bytes(vm@.memory, address, (MEMORY_SIZE - steps) as nat) =~= seq![low]
                + rest);
            assert(built.push(low) + rest =~= built + (seq![low] + rest));
            built = built.push(low);
        }
        address = address.wrapping_add(1);
        steps = steps + 1;
        character = vm.memory[address as usize];
    }
}

/// PUTSP: writes the packed string starting at the address in R0, two
/// characters per cell, to the console output.
pub fn trap_putsp(vm: &mut Vm)
    requires
        old(vm).wf(),
    ensures
        final(vm).wf(),
        final(vm)@ == (VmView {
            output: old(vm)@.output + spec_putsp_bytes(
                old(vm)@.memory,
                old(vm)@.registers.spec_read(Register::R_R0),
                MEMORY_SIZE as nat,
            ),
            ..old(vm)@
        }),
{
    let start = vm.registers.read(Register::R_R0);
    let ghost total = spec_putsp_bytes(vm@.memory, start, MEMORY_SIZE as nat);
    let ghost mut built: Seq<u8> = Seq::empty();

    let mut address = start;
    let mut steps: usize = 0;
    let mut done = false;
    proof {
        assert(built + total =~= total);
    }
    while !done && steps < MEMORY_SIZE
        invariant
            vm.wf(),
            steps <= MEMORY_SIZE,
            vm@.memory == old(vm)@.memory,
            vm@.registers == old(vm)@.registers,
            vm@.active == old(vm)@.active,
            vm@.input == old(vm)@.input,
            vm@.output =~= old(vm)@.output + built,
            !done ==> built + spec_putsp_bytes(vm@.memory, address, (MEMORY_SIZE - steps) as nat)
                =~= total,
            done ==> built =~= total,
        decreases MEMORY_SIZE - steps, if done { 0int } else { 1int },
    {
        let character = vm.memory[address as usize];
        proof {
            lemma_low_byte(character);
            lemma_high_byte(character);
        }
        let low = character & 0xFF;
        if low == 0 {
            done = true;
        } else {
            vm.output.push(low as u8);
            let high = character >> 8;
            if high == 0 {
                proof {
                    assert(built.push(low as u8) =~= built + seq![low as u8]);
                    built = built.push(low as u8);
                }
                done = true;
            } else {
                vm.output.push(high as u8);
                proof {
                    let rest = spec_putsp_bytes(
                        vm@.memory,
                        address.wrapping_add(1),
                        (MEMORY_SIZE - (steps + 1)) as nat,
                    );
                    assert(spec_putsp_bytes(vm@.memory, address, (MEMORY_SIZE - steps) as nat)
                        =~= seq![low as u8, high as u8] + rest);
                    assert(built.push(low as u8).push(high as u8) + rest =~= built + (seq![
                        low as u8,
                        high as u8,
                    ] + rest));
                    built = built.push(low as u8).push(high as u8);
                }
                address = address.wrapping_add(1);
                steps = steps + 1;
            }
        }
    }
}

} // verus!
