//! An interpreter core for a classic 8-bit microprocessor instruction set.
//!
//! The crate models a 64-KiB address space with region-based write
//! protection ([`MEM`]) and a processor ([`CPU`]) that fetches, decodes and
//! executes a curated subset of the instruction set, maintaining registers
//! and status flags with machine-accurate semantics. Every instruction step
//! is specified against a mathematical small-step model, and the run loops
//! are proved to follow that model step by step.

pub mod bits;
pub mod cpu;
pub mod mem;

pub use bits::Bit;
pub use cpu::CPU;
pub use cpu::StepEvent;
pub use mem::MEM;
