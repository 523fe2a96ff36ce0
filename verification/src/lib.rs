//! A verified simulator core for the RV32I base integer instruction set.
//!
//! The crate fetches 32-bit instruction words from a flat little-endian
//! memory image, decodes them into operation and operand fields, and
//! executes the corresponding register, memory, or control-flow effect.
//! Every step is specified against a mathematical model of the machine
//! state and proved to follow it.

use vstd::prelude::*;

pub mod alu;
pub mod cpu;
pub mod decode;
pub mod encode;
pub mod imm;
pub mod mem;
pub mod regs;

verus! {

/// A condition that aborts one execution step and is surfaced to the host.
#[derive(Clone, Copy, Debug, PartialEq, Eq, Structural)]
pub enum Fault {
    /// A memory access (fetch, load, or store) fell outside the image.
    OutOfBounds,
    /// The fetched word does not encode a recognized opcode/funct combination.
    IllegalInstruction,
}

} // verus!
