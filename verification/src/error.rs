//! The errors a compilation pass can fail with.

use vstd::prelude::*;

verus! {

/// Why a compilation aborted. Every variant carries the 1-based source
/// position of the offending node, populated by the upstream parser, so the
/// message can be attributed to the authoring mistake.
#[derive(Clone, Copy, Debug, PartialEq, Eq, Structural)]
pub enum CompileError {
    /// An identifier's name has no resolvable variable slot.
    UnboundIdentifier { line: usize, column: usize },
    /// A call's function name has no resolvable signature.
    UnboundFunction { line: usize, column: usize },
    /// A call against a fixed-arity signature supplied a different number of
    /// arguments than the signature requires.
    ArityMismatch { line: usize, column: usize },
}

impl CompileError {
    /// The line of the node the error is attributed to.
    pub fn line(&self) -> (r: usize)
        ensures
            r == (match *self {
                CompileError::UnboundIdentifier { line, .. } => line,
                CompileError::UnboundFunction { line, .. } => line,
                CompileError::ArityMismatch { line, .. } => line,
            }),
    {
        match self {
            CompileError::UnboundIdentifier { line, .. } => *line,
            CompileError::UnboundFunction { line, .. } => *line,
            CompileError::ArityMismatch { line, .. } => *line,
        }
    }

    /// The column of the node the error is attributed to.
    pub fn column(&self) -> (r: usize)
        ensures
            r == (match *self {
                CompileError::UnboundIdentifier { column, .. } => column,
                CompileError::UnboundFunction { column, .. } => column,
                CompileError::ArityMismatch { column, .. } => column,
            }),
    {
        match self {
            CompileError::UnboundIdentifier { column, .. } => *column,
            CompileError::UnboundFunction { column, .. } => *column,
            CompileError::ArityMismatch { column, .. } => *column,
        }
    }

    /// A short human-readable message for the formula's author.
    pub fn message(&self) -> (r: &'static str)
        ensures
            *self matches CompileError::UnboundIdentifier { .. } ==> r@ == "identifier not found"@,
            *self matches CompileError::UnboundFunction { .. } ==> r@ == "function not found"@,
            *self matches CompileError::ArityMismatch { .. } ==> r@ == "invalid num args"@,
    {
        match self {
            CompileError::UnboundIdentifier { .. } => "identifier not found",
            CompileError::UnboundFunction { .. } => "function not found",
            CompileError::ArityMismatch { .. } => "invalid num args",
        }
    }
}

} // verus!
