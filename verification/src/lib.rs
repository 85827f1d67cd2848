//! A 16-bit register machine in the LC-3 style: eight general-purpose
//! registers, a program counter, a condition-flags register, a flat
//! 65536-word address space with a memory-mapped keyboard device, and six
//! console-oriented trap routines.
//!
//! The crate holds the execution engine itself: decoding, the sixteen opcode
//! semantics, the condition-flag rule, the memory abstraction and the image
//! loader. Console and file input/output are left to the embedding program,
//! which feeds bytes into the machine's input queue and drains its output
//! buffer between steps.

pub mod instructions;
pub mod registers;
pub mod trap_routines;
pub mod utils;
pub mod vm;
