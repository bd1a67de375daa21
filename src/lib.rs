//! The instruction core of an 8-bit Game-Boy-class CPU: a register file with packed
//! flags, a 64 KiB memory bus, an opcode decoder and an execution engine whose effect on
//! registers, flags, memory and the program counter is stated by `machine::Machine`.
use vstd::prelude::*;

pub mod bus;
pub mod cpu;
pub mod instruction;
pub mod laws;
pub mod machine;
pub mod registers;

verus! {

} // verus!
