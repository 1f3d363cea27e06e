//! Diagnostics, derive support and textual LLVM IR generation for the BMB
//! compiler.

pub mod ast;
pub mod codegen;
pub mod derive;
pub mod diagnostics;
pub mod error;
pub mod mir;
pub mod report;
pub mod text;
