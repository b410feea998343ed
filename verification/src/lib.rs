//! A compiler from a small arithmetic/boolean expression language to a flat
//! bytecode sequence for a stack-based evaluator.
//!
//! An expression tree ([`expression::Expr`]) emits its instructions into a
//! growable buffer, resolving variable and function names through an
//! [`environment::Environment`]. The exact instruction sequence produced for
//! every tree — operand order, jump offsets, argument order, and what remains
//! in the buffer on each failure — is pinned down by the spec function
//! [`expression::emit_spec`], and the emitter is verified against it.

pub mod bytecode;
pub mod environment;
pub mod error;
pub mod expression;
pub mod laws;
