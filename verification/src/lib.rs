//! Instruction-level emulator core for a small 8-bit processor.
//!
//! The core is a fetch-decode-execute loop over a register file and a flat
//! 16-bit addressable memory.  Three data-movement/arithmetic instructions
//! and a halt instruction are implemented; every instruction updates the
//! Zero and Negative status flags from the value it writes.
//!
//! [`semantics`] gives the mathematical model of the machine: its state, the
//! effect of a single instruction, and the result of running until halt.
//! [`cpu`] is the executable processor, whose contracts are stated over that
//! model.  [`laws`] proves the general properties the core promises, such as
//! the 16-bit write round-trip and the idempotence of reset.

pub mod cpu;
pub mod laws;
pub mod semantics;
