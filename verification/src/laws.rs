//! The general laws of compilation and of structural equality, stated over
//! the model ([`emit_spec`], [`structurally_eq`]) that the executable
//! functions are verified against.

use vstd::prelude::*;

use crate::bytecode::ByteCode;
use crate::environment::Environment;
use crate::error::CompileError;
use crate::expression::emit_args_from;
use crate::expression::emit_spec;
use crate::expression::opcode_of;
use crate::expression::structurally_eq;
use crate::expression::EmitOutcome;
use crate::expression::Expr;

verus! {

/// Compiling a constant yields exactly one instruction, a `LoadConst`
/// carrying the constant's value, in every environment.
pub proof fn lemma_constant_round_trip(bits: u64, env: Environment)
    ensures
        emit_spec(Expr::Constant { value_bits: bits }, env) == (EmitOutcome {
            emitted: seq![ByteCode::LoadConst(bits)],
            error: None::<CompileError>,
        }),
{
}

/// A binary node emits its right operand's instructions first, then its left
/// operand's, then the single opcode of its operator — whenever both operands
/// compile.
pub proof fn lemma_binary_operand_order(e: Expr, env: Environment)
    ensures
        e matches Expr::Binary { operator, left, right } ==> {
            let r = emit_spec(*right, env);
            let l = emit_spec(*left, env);
            (r.error is None && l.error is None) ==> emit_spec(e, env) == (EmitOutcome {
                emitted: r.emitted + l.emitted + seq![opcode_of(operator)],
                error: None::<CompileError>,
            })
        },
{
}

/// A conditional whose three children all compile emits
/// `[condition] JumpIfZero(len(T) + 1) [T] Jump(len(F)) [F]`, where `T` and
/// `F` are the true and false branches' instructions: the jump taken when the
/// condition is zero skips the true branch together with its trailing jump,
/// and that trailing jump skips the false branch.
pub proof fn lemma_conditional_shape(e: Expr, env: Environment)
    ensures
        e matches Expr::Conditional { condition, when_true, when_false } ==> {
            let c = emit_spec(*condition, env);
            let t = emit_spec(*when_true, env);
            let f = emit_spec(*when_false, env);
            (c.error is None && t.error is None && f.error is None) ==> emit_spec(e, env)
                == (EmitOutcome {
                emitted: c.emitted + seq![
                    ByteCode::JumpIfZero { offset: (t.emitted.len() + 1) as usize },
                ] + t.emitted + seq![ByteCode::Jump { offset: f.emitted.len() as usize }]
                    + f.emitted,
                error: None::<CompileError>,
            })
        },
{
}

/// A call that resolves to a fixed-arity signature, and whose arguments all
/// compile, succeeds exactly when the supplied count equals the signature's
/// arity: on a mismatch it fails with `ArityMismatch` at the node's position,
/// the already-emitted argument instructions staying in place; on a match it
/// appends a single `Call` carrying the function's index and the position.
pub proof fn lemma_call_fixed_arity(e: Expr, env: Environment)
    ensures
        e matches Expr::Call { line, column, function, arguments } ==> {
            let args = emit_args_from(arguments@, env, arguments@.len() as int);
            args.error is None ==> match env.spec_function_info(function@) {
                Some((index, func)) => !(func is Vararg) ==> emit_spec(e, env) == (if arguments@.len()
                    == func.arity() {
                    EmitOutcome {
                        emitted: args.emitted + seq![
                            ByteCode::Call { func_index: index as usize, line, column },
                        ],
                        error: None::<CompileError>,
                    }
                } else {
                    EmitOutcome {
                        emitted: args.emitted,
                        error: Some(CompileError::ArityMismatch { line, column }),
                    }
                }),
                None => emit_spec(e, env) == (EmitOutcome {
                    emitted: args.emitted,
                    error: Some(CompileError::UnboundFunction { line, column }),
                }),
            }
        },
{
}

/// A call that resolves to a `Vararg` signature never fails on arity: with
/// any argument count, including zero, it succeeds and appends a single
/// `CallVararg` carrying the exact supplied count.
pub proof fn lemma_call_vararg_bypass(e: Expr, env: Environment)
    ensures
        e matches Expr::Call { line, column, function, arguments } ==> {
            let args = emit_args_from(arguments@, env, arguments@.len() as int);
            args.error is None ==> match env.spec_function_info(function@) {
                Some((index, func)) => func is Vararg ==> emit_spec(e, env) == (EmitOutcome {
                    emitted: args.emitted + seq![
                        ByteCode::CallVararg {
                            func_index: index as usize,
                            num_args: arguments@.len() as usize,
                            line,
                            column,
                        },
                    ],
                    error: None::<CompileError>,
                }),
                None => true,
            }
        },
{
}

/// An identifier whose name the environment does not resolve fails with
/// `UnboundIdentifier` at the node's position and appends no instruction.
pub proof fn lemma_unbound_identifier(line: usize, column: usize, name: String, env: Environment)
    ensures
        env.spec_index_of_item(name@) is None ==> emit_spec(
            Expr::Identifier { line, column, name },
            env,
        ) == (EmitOutcome {
            emitted: Seq::<ByteCode>::empty(),
            error: Some(CompileError::UnboundIdentifier { line, column }),
        }),
{
}

/// Compilation is deterministic: what one pass appends is a function of the
/// node and the environment alone, so compiling the same node twice against
/// the same environment — into whatever buffers — appends byte-for-byte
/// identical instruction sequences.
pub proof fn lemma_idempotent_compilation(
    e: Expr,
    env: Environment,
    before1: Seq<ByteCode>,
    before2: Seq<ByteCode>,
)
    ensures
        (before1 + emit_spec(e, env).emitted).skip(before1.len() as int) == (before2 + emit_spec(
            e,
            env,
        ).emitted).skip(before2.len() as int),
{
    assert((before1 + emit_spec(e, env).emitted).skip(before1.len() as int) =~= emit_spec(
        e,
        env,
    ).emitted);
    assert((before2 + emit_spec(e, env).emitted).skip(before2.len() as int) =~= emit_spec(
        e,
        env,
    ).emitted);
}

/// Structural equality disregards source positions: two identifiers compare
/// by their names alone, whatever positions they carry.
pub proof fn lemma_equality_ignores_position(
    l1: usize,
    c1: usize,
    n1: String,
    l2: usize,
    c2: usize,
    n2: String,
)
    ensures
        structurally_eq(
            Expr::Identifier { line: l1, column: c1, name: n1 },
            Expr::Identifier { line: l2, column: c2, name: n2 },
        ) == (n1@ == n2@),
{
}

/// Structural equality discriminates variants: a constant and an identifier
/// are never structurally equal, whatever their payloads.
pub proof fn lemma_equality_variant_discriminating(
    bits: u64,
    line: usize,
    column: usize,
    name: String,
)
    ensures
        !structurally_eq(
            Expr::Constant { value_bits: bits },
            Expr::Identifier { line, column, name },
        ),
        !structurally_eq(
            Expr::Identifier { line, column, name },
            Expr::Constant { value_bits: bits },
        ),
{
}

} // verus!
