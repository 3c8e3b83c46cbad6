//! The ways in which the interpreter refuses to go on.

use vstd::prelude::*;

verus! {

/// A condition that stops a tick or a load before it changes the machine.
#[derive(Clone, Copy, Debug, PartialEq, Eq, Structural)]
pub enum Fault {
    /// A return was executed while the call stack was empty.
    StackUnderflow,
    /// An instruction fetch, a sprite read or a register transfer reached
    /// outside the 4096 bytes of memory.
    MemoryOutOfRange,
    /// A program does not fit between the load address and the end of memory.
    ProgramTooLarge,
}

} // verus!
