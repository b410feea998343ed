//! The fixed vocabulary of instructions the compiler may emit.

use vstd::prelude::*;

verus! {

/// One compiled instruction. A sequence of these is the unit of output of a
/// compilation pass; it is flat, with no labels — jumps carry relative
/// forward offsets, counted in instructions from the position immediately
/// after the jump instruction itself.
///
/// A constant is carried as the bit pattern of its 64-bit IEEE 754 value, so
/// that the instruction stream is plain data; the stack machine that executes
/// the stream reinterprets the bits. Binary operators pop two operands and
/// push one result.
#[derive(Clone, Copy, Debug, PartialEq, Eq, Structural)]
pub enum ByteCode {
    /// Push the 64-bit value with this bit pattern.
    LoadConst(u64),
    /// Push the value stored in the variable slot `index`.
    LoadItem { index: usize },
    /// Invoke the fixed-arity function `func_index`; the source position is
    /// carried for runtime diagnostics.
    Call { func_index: usize, line: usize, column: usize },
    /// Invoke the variadic function `func_index`, popping `num_args` values.
    CallVararg { func_index: usize, num_args: usize, line: usize, column: usize },
    LessThan,
    LessEqual,
    GreaterEqual,
    GreaterThan,
    Equal,
    Add,
    Sub,
    Multiply,
    Divide,
    Remainder,
    /// Skip the next `offset` instructions when the popped value is zero.
    JumpIfZero { offset: usize },
    /// Skip the next `offset` instructions unconditionally.
    Jump { offset: usize },
}

} // verus!
