//! The ways in which a program can end the machine.

use vstd::prelude::*;

verus! {

/// The fatal conditions that end the emulation of a program.
#[derive(Clone, Copy, Debug, PartialEq, Eq, Structural)]
pub enum Error {
    /// A fetch or a memory access fell outside the 4096 bytes of memory.
    OutOfBounds,
    /// A call was made with sixteen return addresses already on the stack.
    StackOverflow,
    /// A return was made with no return address on the stack.
    StackUnderflow,
    /// The program does not fit between the load address and the end of memory.
    RomTooLarge,
}

} // verus!
