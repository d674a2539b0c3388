//! An interpreter for a small accumulator/register-machine instruction set.
//!
//! The machine manipulates a list of integer accumulators, a set of labelled
//! memory cells and a stack, and branches through labelled jumps. Every
//! instruction validates all of its read-side preconditions before it writes
//! anything, so a failing instruction leaves the state exactly as it was.

pub mod base;
pub mod driver;
pub mod instructions;
pub mod laws;
pub mod model;
pub mod runtime;

pub use base::{Accumulator, Comparison, MemoryCell, Operation};
pub use driver::Runner;
pub use instructions::Instruction;
pub use runtime::{ControlFlow, RunError, RuntimeArgs};
