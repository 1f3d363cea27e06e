//! Code generation from MIR.

pub mod aggregates;
pub mod analysis;
pub mod arrays;
pub mod builtins;
pub mod bytes;
pub mod calls;
pub mod concurrency;
pub mod escape;
pub mod function;
pub mod instructions;
pub mod llvm_text;
pub mod memory;
pub mod module_text;
pub mod names;
pub mod program;
pub mod returned;
pub mod select;
pub mod strings;
pub mod stub;
pub mod terminator;
pub mod vectors;
