//! The register file: ten 16-bit storage cells addressed by a closed set of
//! identifiers (eight general-purpose registers, the program counter and the
//! condition-flags register), plus the condition-flag update rule.

use vstd::prelude::*;

verus! {

/// Identifier of one of the machine's ten registers.
#[allow(non_camel_case_types)]
#[derive(Clone, Copy, Debug, PartialEq, Eq, Structural)]
pub enum Register {
    R_R0,
    R_R1,
    R_R2,
    R_R3,
    R_R4,
    R_R5,
    R_R6,
    R_R7,
    R_PC,
    R_COND,
}

/// The register identifier encoded by `value` in an instruction field.
pub open spec fn spec_register(value: u16) -> Register
    recommends
        value < 10,
{
    if value == 0 {
        Register::R_R0
    } else if value == 1 {
        Register::R_R1
    } else if value == 2 {
        Register::R_R2
    } else if value == 3 {
        Register::R_R3
    } else if value == 4 {
        Register::R_R4
    } else if value == 5 {
        Register::R_R5
    } else if value == 6 {
        Register::R_R6
    } else if value == 7 {
        Register::R_R7
    } else if value == 8 {
        Register::R_PC
    } else {
        Register::R_COND
    }
}

impl Register {
    /// Decodes a register identifier from its numeric encoding.
    pub fn new(value: u16) -> (register: Register)
        requires
            value < 10,
        ensures
            register == spec_register(value),
    {
        match value {
            0 => Register::R_R0,
            1 => Register::R_R1,
            2 => Register::R_R2,
            3 => Register::R_R3,
            4 => Register::R_R4,
            5 => Register::R_R5,
            6 => Register::R_R6,
            7 => Register::R_R7,
            8 => Register::R_PC,
            _ => Register::R_COND,
        }
    }
}

/// The ten 16-bit cells of the register file.
#[derive(Clone, Copy, Debug, PartialEq, Eq, Structural)]
pub struct Registers {
    pub r0: u16,
    pub r1: u16,
    pub r2: u16,
    pub r3: u16,
    pub r4: u16,
    pub r5: u16,
    pub r6: u16,
    pub r7: u16,
    pub pc: u16,
    pub cond: u16,
}

impl Registers {
    /// The all-zero register file that a fresh machine starts with.
    pub open spec fn spec_init() -> Registers {
        Registers { r0: 0, r1: 0, r2: 0, r3: 0, r4: 0, r5: 0, r6: 0, r7: 0, pc: 0, cond: 0 }
    }

    /// The value held by `register`.
    pub open spec fn spec_read(self, register: Register) -> u16 {
        match register {
            Register::R_R0 => self.r0,
            Register::R_R1 => self.r1,
            Register::R_R2 => self.r2,
            Register::R_R3 => self.r3,
            Register::R_R4 => self.r4,
            Register::R_R5 => self.r5,
            Register::R_R6 => self.r6,
            Register::R_R7 => self.r7,
            Register::R_PC => self.pc,
            Register::R_COND => self.cond,
        }
    }

    /// The register file after storing `value` into `register`.
    pub open spec fn spec_write(self, register: Register, value: u16) -> Registers {
        match register {
            Register::R_R0 => Registers { r0: value, ..self },
            Register::R_R1 => Registers { r1: value, ..self },
            Register::R_R2 => Registers { r2: value, ..self },
            Register::R_R3 => Registers { r3: value, ..self },
            Register::R_R4 => Registers { r4: value, ..self },
            Register::R_R5 => Registers { r5: value, ..self },
            Register::R_R6 => Registers { r6: value, ..self },
            Register::R_R7 => Registers { r7: value, ..self },
            Register::R_PC => Registers { pc: value, ..self },
            Register::R_COND => Registers { cond: value, ..self },
        }
    }

    /// A register file with every cell zero.
    pub fn new() -> (registers: Registers)
        ensures
            registers == Registers::spec_init(),
    {
        Registers { r0: 0, r1: 0, r2: 0, r3: 0, r4: 0, r5: 0, r6: 0, r7: 0, pc: 0, cond: 0 }
    }

    /// Reads the cell named by `register`; total for every identifier.
    pub fn read(&self, register: Register) -> (value: u16)
        ensures
            value == self.spec_read(register),
    {
        match register {
            Register::R_R0 => self.r0,
            Register::R_R1 => self.r1,
            Register::R_R2 => self.r2,
            Register::R_R3 => self.r3,
            Register::R_R4 => self.r4,
            Register::R_R5 => self.r5,
            Register::R_R6 => self.r6,
            Register::R_R7 => self.r7,
            Register::R_PC => self.pc,
            Register::R_COND => self.cond,
        }
    }

    /// Stores `value` into the cell named by `register`; total for every
    /// identifier, and touches no other cell.
    pub fn write(&mut self, register: Register, value: u16)
        ensures
            *final(self) == old(self).spec_write(register, value),
    {
        match register {
            Register::R_R0 => self.r0 = value,
            Register::R_R1 => self.r1 = value,
            Register::R_R2 => self.r2 = value,
            Register::R_R3 => self.r3 = value,
            Register::R_R4 => self.r4 = value,
            Register::R_R5 => self.r5 = value,
            Register::R_R6 => self.r6 = value,
            Register::R_R7 => self.r7 = value,
            Register::R_PC => self.pc = value,
            Register::R_COND => self.cond = value,
        }
    }
}

/// The three condition flags: sign classification of the last
/// flag-significant register write.
#[allow(non_camel_case_types)]
#[derive(Clone, Copy, Debug, PartialEq, Eq, Structural)]
pub enum Flags {
    FL_POS,
    FL_ZRO,
    FL_NEG,
}

impl Flags {
    /// The one-hot bit pattern stored in the condition-flags register.
    pub open spec fn spec_value(self) -> u16 {
        match self {
            Flags::FL_POS => 1,
            Flags::FL_ZRO => 2,
            Flags::FL_NEG => 4,
        }
    }

    /// The bit pattern of this flag as stored in the condition register.
    pub fn value(self) -> (bits: u16)
        ensures
            bits == self.spec_value(),
    {
        match self {
            Flags::FL_POS => 1,
            Flags::FL_ZRO => 2,
            Flags::FL_NEG => 4,
        }
    }
}

/// The condition flag a register write recomputes: ZERO for 0, NEGATIVE when
/// bit 15 is set, POSITIVE otherwise.
pub open spec fn condition_flag(value: u16) -> Flags {
    if value == 0 {
        Flags::FL_ZRO
    } else if value >> 15 == 1 {
        Flags::FL_NEG
    } else {
        Flags::FL_POS
    }
}

} // verus!
