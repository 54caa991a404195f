//! Errors reported by the interpreter.

use vstd::prelude::*;

verus! {

/// Every failure of construction or of a cycle, as a typed value.
#[derive(Debug, Clone, Copy, PartialEq, Eq, Structural)]
pub enum ChipError {
    /// The program image does not fit between the program start and the end of memory.
    ProgramTooLarge { size: usize },
    /// The word fetched at `addr` is no instruction of the base set.
    InvalidOpcode { op: u16, addr: u16 },
    /// A call was made with every return slot already in use.
    CallStackOverflow { addr: u16 },
    /// A return was made with no return address on the stack.
    CallStackUnderflow { addr: u16 },
    /// An access reached `location`, which lies past the end of memory.
    AddressOutOfRange { location: usize },
}

} // verus!
