//! Execution core of an 8-bit 6502-class microprocessor: a fetch-decode-execute
//! engine over a flat 64KB memory, a small register file, and a status-flag
//! register.
//!
//! The machine's semantics are stated once, mathematically, in [`machine`]:
//! a pure step function from CPU state to CPU state. The executable engine in
//! [`cpu`] is proved to implement that step function exactly, so every
//! instruction's numeric and flag side effects are pinned down bit for bit.

pub mod basic;
pub mod cpu;
pub mod flags;
pub mod isa;
pub mod machine;
