//! An interpreter for a small concatenative, stack-based language.
//!
//! Programs are flat sequences of literal values and operator tokens.
//! Operators take operands from a shared data stack and, for some
//! operators, directly from the upcoming token stream ("modifiers").
//! Control flow is realised by a splice trampoline: control operators
//! synthesize quotations (code fragments) that the evaluation loop
//! splices back into the front of the pending input.
//!
//! Work that cannot be carried out here (floating-point arithmetic,
//! reading a line, printing) is surfaced to the host as a [`machine::Effect`]:
//! the evaluation loop pauses, the host performs the work, and a
//! `resume_*` method feeds the result back in.

pub mod bindings;
pub mod exec;
pub mod laws;
pub mod machine;
pub mod op;
pub mod render;
pub mod stack;
pub mod text;
pub mod types;
pub mod value;
