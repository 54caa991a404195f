//! An interpreter for the classic 8-bit fantasy console instruction set:
//! memory, registers, call stack, a monochrome display, two timers and a
//! keypad, driven one instruction at a time by a host loop.

pub mod chip;
pub mod error;
pub mod input;
pub mod instruction;
pub mod laws;
pub mod model;
pub mod utils;
