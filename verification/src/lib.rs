//! A verified core of a WebAssembly execution engine: a multi-module linker
//! that resolves function, table, memory and global imports transitively
//! through re-exports, and a stack-based interpreter whose operand stack keeps
//! a strict discipline of call frames and structured-block frames.
//!
//! Host (native) functions are not executed here: whenever the interpreter
//! needs one, it suspends and hands the caller a request; the caller computes
//! the answer and resumes the engine, which validates the returned values
//! before carrying on. Floating-point values are carried only as bit
//! patterns: opcodes that would compute with them trap with an
//! unsupported-instruction error.

pub mod ast;
pub mod decoder;
pub mod engine;
pub mod ins_control;
pub mod interpreter;
pub mod linker;
pub mod native_module;
pub mod error;
pub mod object;
pub mod values;
pub mod vm;
pub mod vm_global_variable;
pub mod vm_memory;
pub mod vm_table;

use vstd::prelude::*;

verus! {

} // verus!
