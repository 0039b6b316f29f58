//! A cycle-accurate MOS 6502 core.
//!
//! The core executes the documented instruction set one bus cycle at a
//! time: each call to [`cpu::Cpu::clock`] consumes the data byte the host
//! supplied for the previous transaction and emits the next one, a read
//! from or a write to a 16-bit address.  The whole per-cycle behaviour is
//! captured by the specification function [`cpu::spec_clock`], and `clock`
//! is proved to implement it exactly.

pub mod bus;
pub mod cpu;
pub mod decode;
pub mod flags;
pub mod instruction;
pub mod laws;
pub mod pins;
pub mod seq_mem;
pub mod seq_stack;
