//! The expression tree, its emission into bytecode, and structural equality.
//!
//! [`emit_spec`] is the mathematical model of one emission pass: for every
//! node and environment it gives the exact instruction sequence appended to
//! the caller's buffer and whether the pass aborts — including what has
//! already reached the buffer when it does. [`Expr::emit_bytecode`] is the
//! verified emitter, and [`Expr::values_equal`] the verified structural
//! comparison against [`structurally_eq`].

use vstd::prelude::*;

use crate::bytecode::ByteCode;
use crate::environment::Environment;
use crate::environment::Function;
use crate::error::CompileError;

verus! {

/// The operator tag of a binary node, fixed at construction.
#[derive(Clone, Copy, Debug, PartialEq, Eq, Structural)]
pub enum BinaryOperator {
    LessThan,
    LessEqual,
    GreaterEqual,
    GreaterThan,
    Equal,
    Add,
    Sub,
    Multiply,
    Divide,
    Remainder,
}

/// The opcode a binary operator compiles to.
pub open spec fn opcode_of(op: BinaryOperator) -> ByteCode {
    match op {
        BinaryOperator::LessThan => ByteCode::LessThan,
        BinaryOperator::LessEqual => ByteCode::LessEqual,
        BinaryOperator::GreaterEqual => ByteCode::GreaterEqual,
        BinaryOperator::GreaterThan => ByteCode::GreaterThan,
        BinaryOperator::Equal => ByteCode::Equal,
        BinaryOperator::Add => ByteCode::Add,
        BinaryOperator::Sub => ByteCode::Sub,
        BinaryOperator::Multiply => ByteCode::Multiply,
        BinaryOperator::Divide => ByteCode::Divide,
        BinaryOperator::Remainder => ByteCode::Remainder,
    }
}

impl BinaryOperator {
    /// The opcode this operator compiles to.
    pub fn opcode(&self) -> (r: ByteCode)
        ensures
            r == opcode_of(*self),
    {
        match self {
            BinaryOperator::LessThan => ByteCode::LessThan,
            BinaryOperator::LessEqual => ByteCode::LessEqual,
            BinaryOperator::GreaterEqual => ByteCode::GreaterEqual,
            BinaryOperator::GreaterThan => ByteCode::GreaterThan,
            BinaryOperator::Equal => ByteCode::Equal,
            BinaryOperator::Add => ByteCode::Add,
            BinaryOperator::Sub => ByteCode::Sub,
            BinaryOperator::Multiply => ByteCode::Multiply,
            BinaryOperator::Divide => ByteCode::Divide,
            BinaryOperator::Remainder => ByteCode::Remainder,
        }
    }
}

/// Exact equality of the two 64-bit values encoded by the bit patterns `a`
/// and `b` — the comparison `==` of the encoded values computes, not a
/// tolerance. The two zero encodings (all-zero, and sign bit alone) are equal
/// to each other; an encoding whose magnitude bits exceed the infinity
/// pattern (a NaN) is equal to nothing, itself included; every other value is
/// equal exactly to its own bit pattern.
pub open spec fn const_value_eq(a: u64, b: u64) -> bool {
    let mag_a = a & 0x7fff_ffff_ffff_ffff;
    let mag_b = b & 0x7fff_ffff_ffff_ffff;
    &&& mag_a <= 0x7ff0_0000_0000_0000
    &&& mag_b <= 0x7ff0_0000_0000_0000
    &&& (a == b || (mag_a == 0 && mag_b == 0))
}

/// One node of an expression tree. Each node owns its subtrees exclusively;
/// trees are immutable once built and may be compiled any number of times.
#[derive(Debug)]
pub enum Expr {
    /// A numeric literal, carried as the bit pattern of its 64-bit IEEE 754
    /// value so the tree and the emitted instruction hold plain data.
    Constant { value_bits: u64 },
    /// A variable reference; the 1-based source position is carried for
    /// diagnostics only. The name is resolved at emission time.
    Identifier { line: usize, column: usize, name: String },
    /// A function call with its arguments in source order. The argument count
    /// is checked against the resolved arity at emission time, not at
    /// construction.
    Call { line: usize, column: usize, function: String, arguments: Vec<Expr> },
    /// An application of a binary operator to two operands.
    Binary { operator: BinaryOperator, left: Box<Expr>, right: Box<Expr> },
    /// A short-circuit if/else; all three children are always present.
    Conditional { condition: Box<Expr>, when_true: Box<Expr>, when_false: Box<Expr> },
}

/// What one emission pass appends to the caller's buffer, and whether it
/// aborts. On failure, `emitted` is exactly what has reached the buffer by
/// the time the pass gives up: argument instructions emitted before a failed
/// call lookup stay, while a conditional's branches, emitted into scratch
/// buffers, never reach the caller's buffer when one of them fails.
#[verifier::ext_equal]
pub struct EmitOutcome {
    pub emitted: Seq<ByteCode>,
    pub error: Option<CompileError>,
}

/// The outcome of compiling `e` against `env`: the exact instructions
/// appended to the caller's buffer and the error, if any, the pass aborts
/// with. This is the contract every compilation result is pinned to.
pub open spec fn emit_spec(e: Expr, env: Environment) -> EmitOutcome
    decreases e, 0int,
{
    match e {
        Expr::Constant { value_bits } => EmitOutcome {
            emitted: seq![ByteCode::LoadConst(value_bits)],
            error: None,
        },
        Expr::Identifier { line, column, name } => match env.spec_index_of_item(name@) {
            Some(i) => EmitOutcome {
                emitted: seq![ByteCode::LoadItem { index: i as usize }],
                error: None,
            },
            None => EmitOutcome {
                emitted: Seq::empty(),
                error: Some(CompileError::UnboundIdentifier { line, column }),
            },
        },
        Expr::Binary { operator, left, right } => {
            // The right operand is emitted first, then the left, then the
            // opcode: this fixes the stack-pop order the executing machine
            // honours, and must not be swapped.
            let r = emit_spec(*right, env);
            if r.error is Some {
                r
            } else {
                let l = emit_spec(*left, env);
                if l.error is Some {
                    EmitOutcome { emitted: r.emitted + l.emitted, error: l.error }
                } else {
                    EmitOutcome {
                        emitted: r.emitted + l.emitted + seq![opcode_of(operator)],
                        error: None,
                    }
                }
            }
        },
        Expr::Call { line, column, function, arguments } => {
            // All arguments are emitted (in reverse order) before the name is
            // resolved and the arity checked, so they stay in the buffer on
            // either failure.
            let args = emit_args_from(arguments@, env, arguments@.len() as int);
            if args.error is Some {
                args
            } else {
                match env.spec_function_info(function@) {
                    None => EmitOutcome {
                        emitted: args.emitted,
                        error: Some(CompileError::UnboundFunction { line, column }),
                    },
                    Some((index, func)) => {
                        if func is Vararg {
                            EmitOutcome {
                                emitted: args.emitted + seq![
                                    ByteCode::CallVararg {
                                        func_index: index as usize,
                                        num_args: arguments@.len() as usize,
                                        line,
                                        column,
                                    },
                                ],
                                error: None,
                            }
                        } else if arguments@.len() == func.arity() {
                            EmitOutcome {
                                emitted: args.emitted + seq![
                                    ByteCode::Call { func_index: index as usize, line, column },
                                ],
                                error: None,
                            }
                        } else {
                            EmitOutcome {
                                emitted: args.emitted,
                                error: Some(CompileError::ArityMismatch { line, column }),
                            }
                        }
                    },
                }
            }
        },
        Expr::Conditional { condition, when_true, when_false } => {
            // Both branches are compiled into scratch buffers first, so their
            // lengths are known before the jumps that skip them are written;
            // a failure in either branch reaches the caller's buffer not at
            // all. The shape on success is
            // `[condition] JumpIfZero(len(T)+1) [T] Jump(len(F)) [F]`.
            let f = emit_spec(*when_false, env);
            if f.error is Some {
                EmitOutcome { emitted: Seq::empty(), error: f.error }
            } else {
                let t = emit_spec(*when_true, env);
                if t.error is Some {
                    EmitOutcome { emitted: Seq::empty(), error: t.error }
                } else {
                    let c = emit_spec(*condition, env);
                    if c.error is Some {
                        c
                    } else {
                        EmitOutcome {
                            emitted: c.emitted + seq![
                                ByteCode::JumpIfZero { offset: (t.emitted.len() + 1) as usize },
                            ] + t.emitted + seq![
                                ByteCode::Jump { offset: f.emitted.len() as usize },
                            ] + f.emitted,
                            error: None,
                        }
                    }
                }
            }
        },
    }
}

/// The outcome of emitting `args[k-1]`, `args[k-2]`, ..., `args[0]`, in that
/// order — a call's arguments are emitted last argument first — stopping at
/// the first failure and keeping what was emitted up to and including the
/// failing argument's own partial emission.
pub open spec fn emit_args_from(args: Seq<Expr>, env: Environment, k: int) -> EmitOutcome
    decreases args, k,
{
    if k <= 0 || k > args.len() {
        EmitOutcome { emitted: Seq::empty(), error: None }
    } else {
        let first = emit_spec(args[k - 1], env);
        if first.error is Some {
            first
        } else {
            let rest = emit_args_from(args, env, k - 1);
            EmitOutcome { emitted: first.emitted + rest.emitted, error: rest.error }
        }
    }
}

/// Deep value equality between two trees, disregarding the source positions
/// carried for diagnostics: the same variant at every corresponding position,
/// with operator tags and names equal, argument lists pairwise equal in
/// order, and constant payloads equal as the values they encode
/// ([`const_value_eq`]).
pub open spec fn structurally_eq(a: Expr, b: Expr) -> bool
    decreases a, 0int,
{
    match (a, b) {
        (Expr::Constant { value_bits: va }, Expr::Constant { value_bits: vb }) => const_value_eq(
            va,
            vb,
        ),
        (Expr::Identifier { name: na, .. }, Expr::Identifier { name: nb, .. }) => na@ == nb@,
        (
            Expr::Call { function: fa, arguments: aa, .. },
            Expr::Call { function: fb, arguments: ab, .. },
        ) => {
            &&& fa@ == fb@
            &&& aa@.len() == ab@.len()
            &&& args_eq_from(aa@, ab@, 0)
        },
        (
            Expr::Binary { operator: oa, left: la, right: ra },
            Expr::Binary { operator: ob, left: lb, right: rb },
        ) => {
            &&& oa == ob
            &&& structurally_eq(*la, *lb)
            &&& structurally_eq(*ra, *rb)
        },
        (
            Expr::Conditional { condition: ca, when_true: ta, when_false: ea },
            Expr::Conditional { condition: cb, when_true: tb, when_false: eb },
        ) => {
            &&& structurally_eq(*ca, *cb)
            &&& structurally_eq(*ta, *tb)
            &&& structurally_eq(*ea, *eb)
        },
        _ => false,
    }
}

/// Pairwise structural equality of `xs[k..]` against `ys[k..]`.
pub open spec fn args_eq_from(xs: Seq<Expr>, ys: Seq<Expr>, k: int) -> bool
    decreases xs, xs.len() - k,
{
    if k < 0 || k >= xs.len() || k >= ys.len() {
        true
    } else {
        structurally_eq(xs[k], ys[k]) && args_eq_from(xs, ys, k + 1)
    }
}

/// Appends a copy of every instruction in `src` to `dst`, in order.
fn append_all(dst: &mut Vec<ByteCode>, src: &Vec<ByteCode>)
    ensures
        final(dst)@ == old(dst)@ + src@,
{
    let ghost dst0 = dst@;
    let mut j: usize = 0;
    while j < src.len()
        invariant
            j <= src.len(),
            dst@ == dst0 + src@.subrange(0, j as int),
        decreases src.len() - j,
    {
        dst.push(src[j]);
        j = j + 1;
        proof {
            assert(dst@ =~= dst0 + src@.subrange(0, j as int));
        }
    }
    proof {
        assert(dst@ =~= dst0 + src@);
    }
}

impl Expr {
    /// Appends this node's compiled instructions to `bc`, resolving names
    /// through `env`. Exactly [`emit_spec`] of this node is appended — on
    /// success the instructions that evaluate the node, on failure whatever
    /// the model says remains — and the returned error, if any, is the
    /// model's.
    #[verifier::loop_isolation(false)]
    pub fn emit_bytecode(&self, env: &Environment, bc: &mut Vec<ByteCode>) -> (r: Result<
        (),
        CompileError,
    >)
        ensures
            final(bc)@ == old(bc)@ + emit_spec(*self, *env).emitted,
            (r is Ok) <==> (emit_spec(*self, *env).error is None),
            r matches Err(e) ==> emit_spec(*self, *env).error == Some(e),
        decreases *self,
    {
        match self {
            Expr::Constant { value_bits } => {
                bc.push(ByteCode::LoadConst(*value_bits));
                proof {
                    assert(bc@ =~= old(bc)@ + emit_spec(*self, *env).emitted);
                }
                Ok(())
            },
            Expr::Identifier { line, column, name } => {
                match env.index_of_item(name) {
                    Some(index) => {
                        bc.push(ByteCode::LoadItem { index });
                        proof {
                            assert(bc@ =~= old(bc)@ + emit_spec(*self, *env).emitted);
                        }
                        Ok(())
                    },
                    None => {
                        proof {
                            assert(bc@ =~= old(bc)@ + emit_spec(*self, *env).emitted);
                        }
                        Err(CompileError::UnboundIdentifier { line: *line, column: *column })
                    },
                }
            },
            Expr::Binary { operator, left, right } => {
                match (&**right).emit_bytecode(env, bc) {
                    Ok(()) => {},
                    Err(e) => {
                        return Err(e);
                    },
                }
                match (&**left).emit_bytecode(env, bc) {
                    Ok(()) => {},
                    Err(e) => {
                        return Err(e);
                    },
                }
                bc.push(operator.opcode());
                proof {
                    assert(bc@ =~= old(bc)@ + emit_spec(*self, *env).emitted);
                }
                Ok(())
            },
            Expr::Call { line, column, function, arguments } => {
                let ghost full = emit_args_from(arguments@, *env, arguments@.len() as int);
                let ghost bc0 = bc@;
                let ghost mut done: Seq<ByteCode> = Seq::empty();
                let mut i: usize = arguments.len();
                proof {
                    assert(bc@ =~= bc0 + done);
                    assert(full.emitted =~= done + emit_args_from(arguments@, *env, i as int).emitted);
                }
                while i > 0
                    invariant
                        i <= arguments@.len(),
                        bc@ == bc0 + done,
                        full == emit_args_from(arguments@, *env, arguments@.len() as int),
                        full.emitted == done + emit_args_from(arguments@, *env, i as int).emitted,
                        full.error == emit_args_from(arguments@, *env, i as int).error,
                    decreases i,
                {
                    i = i - 1;
                    match arguments[i].emit_bytecode(env, bc) {
                        Ok(()) => {
                            proof {
                                done = done + emit_spec(arguments@[i as int], *env).emitted;
                                assert(bc@ =~= bc0 + done);
                                assert(full.emitted =~= done + emit_args_from(
                                    arguments@,
                                    *env,
                                    i as int,
                                ).emitted);
                            }
                        },
                        Err(e) => {
                            proof {
                                assert(bc@ =~= old(bc)@ + emit_spec(*self, *env).emitted);
                            }
                            return Err(e);
                        },
                    }
                }
                proof {
                    assert(full.emitted =~= done);
                    assert(full.error is None);
                }
                match env.function_info(function) {
                    None => {
                        proof {
                            assert(bc@ =~= old(bc)@ + emit_spec(*self, *env).emitted);
                        }
                        Err(CompileError::UnboundFunction { line: *line, column: *column })
                    },
                    Some((index, func)) => {
                        match func {
                            Function::Vararg => {
                                bc.push(
                                    ByteCode::CallVararg {
                                        func_index: index,
                                        num_args: arguments.len(),
                                        line: *line,
                                        column: *column,
                                    },
                                );
                                proof {
                                    assert(bc@ =~= old(bc)@ + emit_spec(*self, *env).emitted);
                                }
                                return Ok(());
                            },
                            _ => {},
                        }
                        let expected_args = func.expected_args();
                        if arguments.len() != expected_args {
                            proof {
                                assert(bc@ =~= old(bc)@ + emit_spec(*self, *env).emitted);
                            }
                            return Err(
                                CompileError::ArityMismatch { line: *line, column: *column },
                            );
                        }
                        bc.push(
                            ByteCode::Call { func_index: index, line: *line, column: *column },
                        );
                        proof {
                            assert(bc@ =~= old(bc)@ + emit_spec(*self, *env).emitted);
                        }
                        Ok(())
                    },
                }
            },
            Expr::Conditional { condition, when_true, when_false } => {
                let mut false_path: Vec<ByteCode> = Vec::new();
                match (&**when_false).emit_bytecode(env, &mut false_path) {
                    Ok(()) => {},
                    Err(e) => {
                        proof {
                            assert(bc@ =~= old(bc)@ + emit_spec(*self, *env).emitted);
                        }
                        return Err(e);
                    },
                }
                let mut true_path: Vec<ByteCode> = Vec::new();
                match (&**when_true).emit_bytecode(env, &mut true_path) {
                    Ok(()) => {},
                    Err(e) => {
                        proof {
                            assert(bc@ =~= old(bc)@ + emit_spec(*self, *env).emitted);
                        }
                        return Err(e);
                    },
                }
                true_path.push(ByteCode::Jump { offset: false_path.len() });
                match (&**condition).emit_bytecode(env, bc) {
                    Ok(()) => {},
                    Err(e) => {
                        return Err(e);
                    },
                }
                bc.push(ByteCode::JumpIfZero { offset: true_path.len() });
                append_all(bc, &true_path);
                append_all(bc, &false_path);
                proof {
                    assert(bc@ =~= old(bc)@ + emit_spec(*self, *env).emitted);
                }
                Ok(())
            },
        }
    }

    /// Deep value comparison against another tree, disregarding source
    /// positions: exactly [`structurally_eq`]. Used for caching and
    /// deduplication of compiled expressions; never for execution.
    #[verifier::loop_isolation(false)]
    pub fn values_equal(&self, other: &Expr) -> (r: bool)
        ensures
            r == structurally_eq(*self, *other),
        decreases *self,
    {
        match (self, other) {
            (Expr::Constant { value_bits: va }, Expr::Constant { value_bits: vb }) => {
                let mag_a = *va & 0x7fff_ffff_ffff_ffff;
                let mag_b = *vb & 0x7fff_ffff_ffff_ffff;
                mag_a <= 0x7ff0_0000_0000_0000 && mag_b <= 0x7ff0_0000_0000_0000 && (*va == *vb
                    || (mag_a == 0 && mag_b == 0))
            },
            (Expr::Identifier { name: na, .. }, Expr::Identifier { name: nb, .. }) => *na == *nb,
            (
                Expr::Call { function: fa, arguments: aa, .. },
                Expr::Call { function: fb, arguments: ab, .. },
            ) => {
                if aa.len() != ab.len() {
                    return false;
                }
                let mut i: usize = 0;
                while i < aa.len()
                    invariant
                        i <= aa@.len(),
                        aa@.len() == ab@.len(),
                        args_eq_from(aa@, ab@, 0) == args_eq_from(aa@, ab@, i as int),
                    decreases aa@.len() - i,
                {
                    if !aa[i].values_equal(&ab[i]) {
                        return false;
                    }
                    i = i + 1;
                }
                *fa == *fb
            },
            (
                Expr::Binary { operator: oa, left: la, right: ra },
                Expr::Binary { operator: ob, left: lb, right: rb },
            ) => {
                *oa == *ob && (&**la).values_equal(&**lb) && (&**ra).values_equal(&**rb)
            },
            (
                Expr::Conditional { condition: ca, when_true: ta, when_false: ea },
                Expr::Conditional { condition: cb, when_true: tb, when_false: eb },
            ) => {
                (&**ca).values_equal(&**cb) && (&**ta).values_equal(&**tb) && (&**ea).values_equal(
                    &**eb,
                )
            },
            _ => false,
        }
    }
}

} // verus!
