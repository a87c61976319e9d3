//! The ways in which loading or running a program can fail.

use vstd::prelude::*;

verus! {

/// A failure that the engine reports instead of carrying on.
///
/// Addresses are word addresses; sizes are counts of bytes.
#[derive(Clone, Copy, Debug, PartialEq, Eq, Structural)]
pub enum Fault {
    /// The byte found in the opcode position at the given address names no
    /// instruction.
    UnknownOpcode(u8, u16),
    /// The given address lies outside memory.
    OutOfBoundsAccess(u16),
    /// The instruction at the given address divides by zero.
    DivisionByZero(u16),
    /// A program image of `requested` bytes does not fit into `capacity`
    /// bytes of memory.
    ProgramTooLarge(usize, usize),
}

} // verus!
