//! The object-code generator for builds without LLVM: every request fails
//! with an error saying that LLVM is not available.

use vstd::prelude::*;

use crate::mir::MirProgram;

verus! {

/// Code generation error.
#[derive(Debug)]
pub enum CodeGenError {
    /// LLVM code generation is not available in this build
    LlvmNotAvailable,
    /// An error reported by LLVM
    LlvmError(String),
}

/// The message of a code generation error.
pub open spec fn codegen_error_message(e: CodeGenError) -> Seq<char> {
    match e {
        CodeGenError::LlvmNotAvailable => "LLVM code generation is not available. Build with --features llvm"@,
        CodeGenError::LlvmError(m) => "LLVM error: "@ + m@,
    }
}

impl CodeGenError {
    /// The message of this error.
    pub fn message(&self) -> (s: String)
        ensures
            s@ == codegen_error_message(*self),
    {
        match self {
            CodeGenError::LlvmNotAvailable => "LLVM code generation is not available. Build with --features llvm".to_owned(),
            CodeGenError::LlvmError(m) => {
                let mut s = "LLVM error: ".to_owned();
                crate::text::push_str(&mut s, m.as_str());
                s
            },
        }
    }
}

/// The code generator of a build without LLVM.
pub struct CodeGen;

impl CodeGen {
    /// A code generator.
    pub fn new() -> (g: Self) {
        CodeGen
    }

    /// Compiling to an object file at `output` fails: LLVM is not
    /// available.
    pub fn compile(&self, program: &MirProgram, output: &str) -> (r: Result<(), CodeGenError>)
        ensures
            r matches Err(CodeGenError::LlvmNotAvailable),
    {
        Err(CodeGenError::LlvmNotAvailable)
    }

    /// Generating LLVM IR fails: LLVM is not available.
    pub fn generate_ir(&self, program: &MirProgram) -> (r: Result<String, CodeGenError>)
        ensures
            r matches Err(CodeGenError::LlvmNotAvailable),
    {
        Err(CodeGenError::LlvmNotAvailable)
    }
}

impl Default for CodeGen {
    /// The code generator, as `CodeGen::new` gives it.
    fn default() -> (g: Self)
        ensures
            g == CodeGen,
    {
        CodeGen::new()
    }
}

} // verus!
