//! The machine itself: register file, 65536-word address space with the
//! memory-mapped keyboard device, the image loader, and the fetch-decode-
//! execute step.
//!
//! The console is modeled as data owned by the machine: `input` holds bytes
//! the embedding program has made available (the keyboard poll and the
//! character traps consume it front first), and `output` collects every byte
//! the program writes to the console, for the embedder to drain and print.

use vstd::prelude::*;

use crate::instructions::{
    spec_add, spec_and, spec_branch, spec_jmp, spec_jsr, spec_ld, spec_ldi, spec_ldr, spec_lea,
    spec_not, spec_opcode, spec_st, spec_sti, spec_str, OpCodes,
};
use crate::registers::{condition_flag, Flags, Register, Registers};
use crate::trap_routines::{
    is_trap_vector, spec_puts_bytes, spec_putsp_bytes, spec_trap_routine, TrapRoutine,
};
use crate::utils::{be16, low_byte};

verus! {

/// Number of 16-bit cells in the address space.
pub const MEMORY_SIZE: usize = 0x10000;

/// Address whose reads poll the keyboard and return its status.
pub const KEYBOARD_STATUS_ADDR: u16 = 0xFE00;

/// Address holding the last byte the keyboard poll received.
pub const KEYBOARD_DATA_ADDR: u16 = 0xFE01;

/// Address where execution of a loaded image begins.
pub const START_POSITION: u16 = 0x3000;

/// What the embedding program must do after one instruction step.
#[derive(Clone, Copy, Debug, PartialEq, Eq, Structural)]
pub enum Action {
    /// Nothing beyond draining the output buffer.
    Continue,
    /// Block for one console byte and hand it to `Vm::provide_input`
    /// without echoing it.
    ReadChar,
    /// Print a prompt, block for one console byte and hand it to
    /// `Vm::provide_input` with echo.
    Prompt,
    /// The machine halted normally; a halt notice may be printed.
    Halt,
    /// A reserved opcode or an unknown trap vector was fetched; the run
    /// cannot continue.
    Fatal,
}

/// The mathematical state of the machine: the contents of the address
/// space and register file, the run flag, and the console queues.
pub ghost struct VmView {
    pub memory: Seq<u16>,
    pub registers: Registers,
    pub active: bool,
    pub input: Seq<u8>,
    pub output: Seq<u8>,
}

impl VmView {
    /// The address space always spans exactly 65536 cells.
    pub open spec fn wf(self) -> bool {
        self.memory.len() == MEMORY_SIZE
    }
}

/// `v` with its register file replaced by `registers`.
pub open spec fn with_registers(v: VmView, registers: Registers) -> VmView {
    VmView { registers, ..v }
}

/// `v` after recomputing the condition flags from the value held by
/// `register`.
pub open spec fn spec_update_flags(v: VmView, register: Register) -> VmView {
    with_registers(
        v,
        v.registers.spec_write(
            Register::R_COND,
            condition_flag(v.registers.spec_read(register)).spec_value(),
        ),
    )
}

/// `v` after one keyboard poll: with no byte pending the status cell
/// becomes 0; a pending line feed is swallowed and the status cell becomes
/// 0; any other pending byte sets the status cell's bit 15 and lands in the
/// data cell. A pending byte is consumed either way.
pub open spec fn spec_poll(v: VmView) -> VmView {
    if v.input.len() == 0 {
        VmView { memory: v.memory.update(KEYBOARD_STATUS_ADDR as int, 0), ..v }
    } else if v.input[0] == 10 {
        VmView {
            memory: v.memory.update(KEYBOARD_STATUS_ADDR as int, 0),
            input: v.input.remove(0),
            ..v
        }
    } else {
        VmView {
            memory: v.memory.update(KEYBOARD_STATUS_ADDR as int, 0x8000).update(
                KEYBOARD_DATA_ADDR as int,
                v.input[0] as u16,
            ),
            input: v.input.remove(0),
            ..v
        }
    }
}

/// `v` after a read of `address`: only the keyboard status address has the
/// polling side effect.
pub open spec fn spec_mem_read_state(v: VmView, address: u16) -> VmView {
    if address == KEYBOARD_STATUS_ADDR {
        spec_poll(v)
    } else {
        v
    }
}

/// The value a read of `address` returns, after any polling side effect.
pub open spec fn spec_mem_read_value(v: VmView, address: u16) -> u16 {
    spec_mem_read_state(v, address).memory[address as int]
}

/// `v` after an unconditional store of `value` at `address`.
pub open spec fn spec_mem_write(v: VmView, address: u16, value: u16) -> VmView {
    VmView { memory: v.memory.update(address as int, value), ..v }
}

/// `memory` after placing `words` at consecutive addresses from `origin`
/// on, wrapping around the top of the address space.
pub open spec fn spec_store_words(memory: Seq<u16>, origin: u16, words: Seq<u16>) -> Seq<u16>
    decreases words.len(),
{
    if words.len() == 0 {
        memory
    } else {
        spec_store_words(
            memory.update(origin as int, words[0]),
            origin.wrapping_add(1),
            words.remove(0),
        )
    }
}

/// The big-endian 16-bit words following the two origin bytes of an image.
pub open spec fn spec_image_words(data: Seq<u8>) -> Seq<u16>
    recommends
        data.len() >= 2,
        data.len() % 2 == 0,
{
    Seq::new(((data.len() - 2) / 2) as nat, |i: int| be16(data[2 * i + 2], data[2 * i + 3]) as u16)
}

/// TRAP: R7 takes the already advanced program counter as the calling
/// convention's return address, and the low byte of the instruction
/// selects one of the six console routines; an unknown vector is fatal and
/// changes nothing. The resulting action tells the embedder what console
/// work, if any, is owed.
pub open spec fn spec_trap(v: VmView, instruction: u16) -> (VmView, Action) {
    let vector = instruction & 0xFF;
    if !is_trap_vector(vector) {
        (v, Action::Fatal)
    } else {
        let saved = with_registers(
            v,
            v.registers.spec_write(Register::R_R7, v.registers.spec_read(Register::R_PC)),
        );
        match spec_trap_routine(vector) {
            TrapRoutine::TRAP_GETC => if saved.input.len() > 0 {
                (
                    VmView {
                        registers: saved.registers.spec_write(
                            Register::R_R0,
                            saved.input[0] as u16,
                        ),
                        input: saved.input.remove(0),
                        ..saved
                    },
                    Action::Continue,
                )
            } else {
                (saved, Action::ReadChar)
            },
            TrapRoutine::TRAP_OUT => (
                VmView {
                    output: saved.output.push(
                        low_byte(saved.registers.spec_read(Register::R_R0)),
                    ),
                    ..saved
                },
                Action::Continue,
            ),
            TrapRoutine::TRAP_PUTS => (
                VmView {
                    output: saved.output + spec_puts_bytes(
                        saved.memory,
                        saved.registers.spec_read(Register::R_R0),
                        MEMORY_SIZE as nat,
                    ),
                    ..saved
                },
                Action::Continue,
            ),
            TrapRoutine::TRAP_IN => if saved.input.len() > 0 {
                (
                    VmView {
                        registers: saved.registers.spec_write(
                            Register::R_R0,
                            saved.input[0] as u16,
                        ),
                        input: saved.input.remove(0),
                        output: saved.output.push(saved.input[0]),
                        ..saved
                    },
                    Action::Continue,
                )
            } else {
                (saved, Action::Prompt)
            },
            TrapRoutine::TRAP_PUTSP => (
                VmView {
                    output: saved.output + spec_putsp_bytes(
                        saved.memory,
                        saved.registers.spec_read(Register::R_R0),
                        MEMORY_SIZE as nat,
                    ),
                    ..saved
                },
                Action::Continue,
            ),
            TrapRoutine::TRAP_HALT => (VmView { active: false, ..saved }, Action::Halt),
        }
    }
}

/// One instruction cycle: fetch the word at the program counter (polling
/// the keyboard if the counter sits on the status address), advance the
/// counter, then apply the decoded operation. The two reserved opcodes are
/// fatal and leave the state as it stood after the fetch.
pub open spec fn spec_step(v: VmView) -> (VmView, Action) {
    let pc = v.registers.spec_read(Register::R_PC);
    let instruction = spec_mem_read_value(v, pc);
    let fetched = spec_mem_read_state(v, pc);
    let advanced = with_registers(
        fetched,
        fetched.registers.spec_write(Register::R_PC, pc.wrapping_add(1)),
    );
    match spec_opcode(instruction >> 12) {
        OpCodes::OP_BR => (spec_branch(advanced, instruction), Action::Continue),
        OpCodes::OP_ADD => (spec_add(advanced, instruction), Action::Continue),
        OpCodes::OP_LD => (spec_ld(advanced, instruction), Action::Continue),
        OpCodes::OP_ST => (spec_st(advanced, instruction), Action::Continue),
        OpCodes::OP_JSR => (spec_jsr(advanced, instruction), Action::Continue),
        OpCodes::OP_AND => (spec_and(advanced, instruction), Action::Continue),
        OpCodes::OP_LDR => (spec_ldr(advanced, instruction), Action::Continue),
        OpCodes::OP_STR => (spec_str(advanced, instruction), Action::Continue),
        OpCodes::OP_RTI => (advanced, Action::Fatal),
        OpCodes::OP_NOT => (spec_not(advanced, instruction), Action::Continue),
        OpCodes::OP_LDI => (spec_ldi(advanced, instruction), Action::Continue),
        OpCodes::OP_STI => (spec_sti(advanced, instruction), Action::Continue),
        OpCodes::OP_JMP => (spec_jmp(advanced, instruction), Action::Continue),
        OpCodes::OP_RES => (advanced, Action::Fatal),
        OpCodes::OP_LEA => (spec_lea(advanced, instruction), Action::Continue),
        OpCodes::OP_TRAP => spec_trap(advanced, instruction),
    }
}

/// The machine: address space, register file, run flag and console queues.
pub struct Vm {
    pub memory: Vec<u16>,
    pub registers: Registers,
    pub active: bool,
    pub input: Vec<u8>,
    pub output: Vec<u8>,
}

impl View for Vm {
    type V = VmView;

    open spec fn view(&self) -> VmView {
        VmView {
            memory: self.memory@,
            registers: self.registers,
            active: self.active,
            input: self.input@,
            output: self.output@,
        }
    }
}

impl Vm {
    /// The machine's invariant: its address space spans all 65536 cells.
    pub open spec fn wf(self) -> bool {
        self@.wf()
    }

    /// A fresh machine: memory and registers all zero, inactive, with empty
    /// console queues.
    pub fn new() -> (vm: Vm)
        ensures
            vm.wf(),
            forall|address: int| 0 <= address < MEMORY_SIZE ==> vm@.memory[address] == 0,
            vm@.registers == Registers::spec_init(),
            !vm@.active,
            vm@.input == Seq::<u8>::empty(),
            vm@.output == Seq::<u8>::empty(),
    {
        let mut memory: Vec<u16> = Vec::new();
        while memory.len() < MEMORY_SIZE
            invariant
                memory@.len() <= MEMORY_SIZE,
                forall|address: int| 0 <= address < memory@.len() ==> memory@[address] == 0,
            decreases MEMORY_SIZE - memory@.len(),
        {
            memory.push(0);
        }
        Vm {
            memory,
            registers: Registers::new(),
            active: false,
            input: Vec::new(),
            output: Vec::new(),
        }
    }

    /// Makes the machine ready to run a loaded image: the program counter
    /// moves to the fixed load address, the condition flags start at ZERO,
    /// and the run flag comes on.
    pub fn boot(&mut self)
        ensures
            final(self)@ == (VmView {
                registers: old(self)@.registers.spec_write(
                    Register::R_PC,
                    START_POSITION,
                ).spec_write(Register::R_COND, Flags::FL_ZRO.spec_value()),
                active: true,
                ..old(self)@
            }),
    {
        self.registers.write(Register::R_PC, START_POSITION);
        self.registers.write(Register::R_COND, Flags::FL_ZRO.value());
        self.active = true;
    }

    /// Reads the cell at `address`. A read of the keyboard status address
    /// first polls the machine's input queue, as `spec_poll` states; every
    /// other address is a plain load.
    pub fn mem_read(&mut self, address: u16) -> (value: u16)
        requires
            old(self).wf(),
        ensures
            final(self).wf(),
            final(self)@ == spec_mem_read_state(old(self)@, address),
            value == spec_mem_read_value(old(self)@, address),
    {
        if address == KEYBOARD_STATUS_ADDR {
            if self.input.len() > 0 {
                let character = self.input.remove(0);
                if character != 10 {
                    self.memory[KEYBOARD_STATUS_ADDR as usize] = 0x8000;
                    self.memory[KEYBOARD_DATA_ADDR as usize] = character as u16;
                } else {
                    self.memory[KEYBOARD_STATUS_ADDR as usize] = 0;
                }
            } else {
                self.memory[KEYBOARD_STATUS_ADDR as usize] = 0;
            }
        }
        self.memory[address as usize]
    }

    /// Stores `value` at `address` unconditionally; the mapped keyboard
    /// cells get no protection.
    pub fn mem_write(&mut self, address: u16, value: u16)
        requires
            old(self).wf(),
        ensures
            final(self).wf(),
            final(self)@ == spec_mem_write(old(self)@, address, value),
    {
        self.memory[address as usize] = value;
    }

    /// Recomputes the condition flags from the value `register` holds.
    pub fn update_flags(&mut self, register: Register)
        ensures
            final(self)@ == spec_update_flags(old(self)@, register),
    {
        let value = self.registers.read(register);
        if value == 0 {
            self.registers.write(Register::R_COND, Flags::FL_ZRO.value());
        } else if value >> 15 == 1 {
            self.registers.write(Register::R_COND, Flags::FL_NEG.value());
        } else {
            self.registers.write(Register::R_COND, Flags::FL_POS.value());
        }
    }

    /// Hands the machine one console byte that a `ReadChar` or `Prompt`
    /// action asked for: the byte lands in R0, and with `echo` it is also
    /// appended to the console output.
    pub fn provide_input(&mut self, byte: u8, echo: bool)
        ensures
            final(self)@ == (VmView {
                registers: old(self)@.registers.spec_write(Register::R_R0, byte as u16),
                output: if echo {
                    old(self)@.output.push(byte)
                } else {
                    old(self)@.output
                },
                ..old(self)@
            }),
    {
        self.registers.write(Register::R_R0, byte as u16);
        if echo {
            self.output.push(byte);
        }
    }

    /// Loads a binary object image: the first two bytes are the big-endian
    /// origin address, and each following big-endian byte pair lands at the
    /// next address, wrapping around the top of memory. An image without a
    /// full origin, or one that ends in half a word, is malformed and
    /// leaves the machine untouched.
    pub fn read_image(&mut self, data: &Vec<u8>) -> (loaded: bool)
        requires
            old(self).wf(),
        ensures
            final(self).wf(),
            loaded == (data@.len() >= 2 && data@.len() % 2 == 0),
            loaded ==> final(self)@ == (VmView {
                memory: spec_store_words(
                    old(self)@.memory,
                    be16(data@[0], data@[1]) as u16,
                    spec_image_words(data@),
                ),
                ..old(self)@
            }),
            !loaded ==> final(self)@ == old(self)@,
    {
        if data.len() < 2 || data.len() % 2 != 0 {
            return false;
        }
        let ghost words = spec_image_words(data@);
        let origin = crate::utils::swap_endian([data[0], data[1]]);
        let mut index: usize = 2;
        let mut address: u16 = origin;
        proof {
            assert(words.skip(0) =~= words);
        }
        while index < data.len()
            invariant
                self.wf(),
                data@.len() >= 2,
                data@.len() % 2 == 0,
                2 <= index <= data@.len(),
                index % 2 == 0,
                words == spec_image_words(data@),
                spec_store_words(self@.memory, address, words.skip((index - 2) as int / 2))
                    =~= spec_store_words(old(self)@.memory, origin, words),
                self@.registers == old(self)@.registers,
                self@.active == old(self)@.active,
                self@.input == old(self)@.input,
                self@.output == old(self)@.output,
            decreases data@.len() - index,
        {
            let ghost k = (index - 2) as int / 2;
            let word = crate::utils::swap_endian([data[index], data[index + 1]]);
            proof {
                assert(words.skip(k).len() > 0);
                assert(words.skip(k)[0] == words[k]);
                assert(words[k] == be16(data@[2 * k + 2], data@[2 * k + 3]) as u16);
                assert(words.skip(k).remove(0) =~= words.skip(k + 1));
            }
            self.mem_write(address, word);
            address = address.wrapping_add(1);
            index = index + 2;
        }
        proof {
            assert(words.skip((index - 2) as int / 2) =~= Seq::<u16>::empty());
        }
        true
    }

    /// Dispatches a TRAP instruction to its console routine, as `spec_trap`
    /// states, and reports what console work the embedder owes.
    pub fn trap(&mut self, instruction: u16) -> (action: Action)
        requires
            old(self).wf(),
        ensures
            final(self).wf(),
            final(self)@ == spec_trap(old(self)@, instruction).0,
            action == spec_trap(old(self)@, instruction).1,
    {
        let vector = instruction & 0xFF;
        if !(0x20 <= vector && vector <= 0x25) {
            return Action::Fatal;
        }
        let pc = self.registers.read(Register::R_PC);
        self.registers.write(Register::R_R7, pc);

        match TrapRoutine::new(vector) {
            TrapRoutine::TRAP_GETC => {
                if crate::trap_routines::get_char(self) {
                    Action::Continue
                } else {
                    Action::ReadChar
                }
            },
            TrapRoutine::TRAP_OUT => {
                crate::trap_routines::trap_out(self);
                Action::Continue
            },
            TrapRoutine::TRAP_PUTS => {
                crate::trap_routines::trap_put(self);
                Action::Continue
            },
            TrapRoutine::TRAP_IN => {
                if crate::trap_routines::trap_in(self) {
                    Action::Continue
                } else {
                    Action::Prompt
                }
            },
            TrapRoutine::TRAP_PUTSP => {
                crate::trap_routines::trap_putsp(self);
                Action::Continue
            },
            TrapRoutine::TRAP_HALT => {
                crate::trap_routines::halt(self);
                Action::Halt
            },
        }
    }

    /// Runs one instruction cycle, exactly as `spec_step` states: fetch,
    /// advance the program counter, decode, execute. The returned action
    /// tells the embedder what console work is owed before the next step;
    /// a running machine only steps while `active` holds.
    pub fn step(&mut self) -> (action: Action)
        requires
            old(self).wf(),
            old(self)@.active,
        ensures
            final(self).wf(),
            final(self)@ == spec_step(old(self)@).0,
            action == spec_step(old(self)@).1,
    {
        let pc = self.registers.read(Register::R_PC);
        let instruction = self.mem_read(pc);
        self.registers.write(Register::R_PC, pc.wrapping_add(1));

        let op = instruction >> 12;
        proof {
            assert(instruction >> 12 < 16) by (bit_vector);
        }
        match OpCodes::new(op) {
            OpCodes::OP_BR => {
                crate::instructions::branch(self, instruction);
                Action::Continue
            },
            OpCodes::OP_ADD => {
                crate::instructions::add(self, instruction);
                Action::Continue
            },
            OpCodes::OP_LD => {
                crate::instructions::ld(self, instruction);
                Action::Continue
            },
            OpCodes::OP_ST => {
                crate::instructions::st(self, instruction);
                Action::Continue
            },
            OpCodes::OP_JSR => {
                crate::instructions::jsr(self, instruction);
                Action::Continue
            },
            OpCodes::OP_AND => {
                crate::instructions::and(self, instruction);
                Action::Continue
            },
            OpCodes::OP_LDR => {
                crate::instructions::ldr(self, instruction);
                Action::Continue
            },
            OpCodes::OP_STR => {
                crate::instructions::str(self, instruction);
                Action::Continue
            },
            OpCodes::OP_RTI => Action::Fatal,
            OpCodes::OP_NOT => {
                crate::instructions::not(self, instruction);
                Action::Continue
            },
            OpCodes::OP_LDI => {
                crate::instructions::ldi(self, instruction);
                Action::Continue
            },
            OpCodes::OP_STI => {
                crate::instructions::sti(self, instruction);
                Action::Continue
            },
            OpCodes::OP_JMP => {
                crate::instructions::jmp(self, instruction);
                Action::Continue
            },
            OpCodes::OP_RES => Action::Fatal,
            OpCodes::OP_LEA => {
                crate::instructions::lea(self, instruction);
                Action::Continue
            },
            OpCodes::OP_TRAP => self.trap(instruction),
        }
    }
}

/// Law: a read of the keyboard status address yields 0 when no input is
/// pending, and with a non-line-feed byte pending it yields the status
/// word with bit 15 set while the paired data cell takes the byte; a
/// pending line feed is swallowed and reads as no input.
pub proof fn lemma_keyboard_status(v: VmView)
    requires
        v.wf(),
    ensures
        v.input.len() == 0 ==> spec_mem_read_value(v, KEYBOARD_STATUS_ADDR) == 0,
        v.input.len() > 0 && v.input[0] != 10 ==> spec_mem_read_value(v, KEYBOARD_STATUS_ADDR)
            == 0x8000,
        v.input.len() > 0 && v.input[0] != 10 ==> spec_mem_read_state(
            v,
            KEYBOARD_STATUS_ADDR,
        ).memory[KEYBOARD_DATA_ADDR as int] == v.input[0] as u16,
        v.input.len() > 0 && v.input[0] == 10 ==> spec_mem_read_value(v, KEYBOARD_STATUS_ADDR)
            == 0,
        spec_mem_read_state(v, KEYBOARD_STATUS_ADDR).input == v.input.skip(
            if v.input.len() == 0 { 0int } else { 1int },
        ),
{
    assert(spec_mem_read_state(v, KEYBOARD_STATUS_ADDR).input =~= v.input.skip(
        if v.input.len() == 0 { 0int } else { 1int },
    ));
}

} // verus!
