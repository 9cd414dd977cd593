//! A MOS 6502 processor core: registers, a flat 64 KiB address space, the
//! documented load/store, arithmetic, logic, shift, compare, branch and jump
//! instructions, and a fetch-decode-execute loop, together with the beginning
//! of a NES bus.
//!
//! `state` gives the mathematical model of the machine, `semantics` the meaning
//! of every instruction over that model, `opcodes` the decoding table, `cpu`
//! the executable processor proved against the model, `laws` the properties
//! that hold of the instruction set as a whole, and `bus` the memory bus.

pub mod bits;
pub mod bus;
pub mod cpu;
pub mod instruction_laws;
pub mod laws;
pub mod opcodes;
pub mod semantics;
pub mod state;
