//! The SM83 CPU: registers, the execution context, and the instruction set.

pub mod command;
pub mod context;
pub mod instruction;
pub mod registers;
pub mod text;

pub use context::{Context, ContextState};
pub use registers::{Flags, Registers};
