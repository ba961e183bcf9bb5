use vstd::prelude::*;
use crate::shader::ShaderKind;

verus! {

/// Why the shader compilation stage failed.
#[derive(Debug, PartialEq, Eq)]
pub enum CompileError {
    /// The context would not create a shader object of this kind.
    AllocationFailed { kind: ShaderKind },
    /// The backend compiler rejected the source; `log` is its diagnostic, if any.
    CompileFailed { kind: ShaderKind, log: Option<String> },
}

impl CompileError {
    /// The kind of the shader the failure concerns.
    pub open spec fn spec_kind(&self) -> ShaderKind {
        match self {
            CompileError::AllocationFailed { kind } => *kind,
            CompileError::CompileFailed { kind, .. } => *kind,
        }
    }

    pub fn kind(&self) -> (r: ShaderKind)
        ensures
            r == self.spec_kind(),
    {
        match self {
            CompileError::AllocationFailed { kind } => *kind,
            CompileError::CompileFailed { kind, .. } => *kind,
        }
    }
}

/// Why the program link stage failed.
#[derive(Debug, PartialEq, Eq)]
pub enum LinkError {
    /// The context would not create a program object.
    AllocationFailed,
    /// The backend linker rejected the shader pair; `log` is its diagnostic, if any.
    LinkFailed { log: Option<String> },
}

} // verus!
