use expr_bytecode::bytecode::ByteCode;
use expr_bytecode::environment::Environment;
use expr_bytecode::environment::Function;
use expr_bytecode::error::CompileError;
use expr_bytecode::expression::BinaryOperator;
use expr_bytecode::expression::Expr;

fn constant(v: f64) -> Expr {
    Expr::Constant { value_bits: v.to_bits() }
}

fn identifier(line: usize, column: usize, name: &str) -> Expr {
    Expr::Identifier { line, column, name: name.to_string() }
}

fn call(line: usize, column: usize, function: &str, arguments: Vec<Expr>) -> Expr {
    Expr::Call { line, column, function: function.to_string(), arguments }
}

fn env_with(items: Vec<&str>, functions: Vec<(&str, Function)>) -> Environment {
    Environment {
        items: items.into_iter().map(|s| s.to_string()).collect(),
        functions: functions.into_iter().map(|(s, f)| (s.to_string(), f)).collect(),
    }
}

fn compile(e: &Expr, env: &Environment) -> Result<Vec<ByteCode>, CompileError> {
    let mut bc = Vec::new();
    e.emit_bytecode(env, &mut bc)?;
    Ok(bc)
}

#[test]
fn constant_round_trip() {
    let env = env_with(vec![], vec![]);
    let bc = compile(&constant(5.0), &env).unwrap();
    assert_eq!(bc, vec![ByteCode::LoadConst(5.0f64.to_bits())]);
}

#[test]
fn binary_sub_operand_order() {
    let env = env_with(vec![], vec![]);
    let e = Expr::Binary {
        operator: BinaryOperator::Sub,
        left: Box::new(constant(5.0)),
        right: Box::new(constant(2.0)),
    };
    let bc = compile(&e, &env).unwrap();
    assert_eq!(
        bc,
        vec![
            ByteCode::LoadConst(2.0f64.to_bits()),
            ByteCode::LoadConst(5.0f64.to_bits()),
            ByteCode::Sub,
        ]
    );
}

#[test]
fn every_operator_maps_to_its_opcode() {
    let env = env_with(vec![], vec![]);
    let cases = vec![
        (BinaryOperator::LessThan, ByteCode::LessThan),
        (BinaryOperator::LessEqual, ByteCode::LessEqual),
        (BinaryOperator::GreaterEqual, ByteCode::GreaterEqual),
        (BinaryOperator::GreaterThan, ByteCode::GreaterThan),
        (BinaryOperator::Equal, ByteCode::Equal),
        (BinaryOperator::Add, ByteCode::Add),
        (BinaryOperator::Sub, ByteCode::Sub),
        (BinaryOperator::Multiply, ByteCode::Multiply),
        (BinaryOperator::Divide, ByteCode::Divide),
        (BinaryOperator::Remainder, ByteCode::Remainder),
    ];
    for (operator, opcode) in cases {
        let e = Expr::Binary {
            operator,
            left: Box::new(constant(1.0)),
            right: Box::new(constant(2.0)),
        };
        let bc = compile(&e, &env).unwrap();
        assert_eq!(bc.len(), 3);
        assert_eq!(bc[2], opcode);
    }
}

#[test]
fn conditional_shape() {
    // True branch: 1 instruction; false branch: 2 (a one-argument call).
    let env = env_with(vec!["x"], vec![("f", Function::Single)]);
    let e = Expr::Conditional {
        condition: Box::new(identifier(1, 1, "x")),
        when_true: Box::new(constant(1.0)),
        when_false: Box::new(call(2, 3, "f", vec![constant(7.0)])),
    };
    let bc = compile(&e, &env).unwrap();
    assert_eq!(
        bc,
        vec![
            ByteCode::LoadItem { index: 0 },
            ByteCode::JumpIfZero { offset: 2 },
            ByteCode::LoadConst(1.0f64.to_bits()),
            ByteCode::Jump { offset: 2 },
            ByteCode::LoadConst(7.0f64.to_bits()),
            ByteCode::Call { func_index: 0, line: 2, column: 3 },
        ]
    );
}

#[test]
fn nested_conditional_offsets() {
    // An inner conditional as the false branch: the outer Jump skips all of it.
    let env = env_with(vec!["x", "y"], vec![]);
    let inner = Expr::Conditional {
        condition: Box::new(identifier(1, 1, "y")),
        when_true: Box::new(constant(2.0)),
        when_false: Box::new(constant(3.0)),
    };
    let e = Expr::Conditional {
        condition: Box::new(identifier(1, 1, "x")),
        when_true: Box::new(constant(1.0)),
        when_false: Box::new(inner),
    };
    let bc = compile(&e, &env).unwrap();
    assert_eq!(
        bc,
        vec![
            ByteCode::LoadItem { index: 0 },
            ByteCode::JumpIfZero { offset: 2 },
            ByteCode::LoadConst(1.0f64.to_bits()),
            ByteCode::Jump { offset: 5 },
            ByteCode::LoadItem { index: 1 },
            ByteCode::JumpIfZero { offset: 2 },
            ByteCode::LoadConst(2.0f64.to_bits()),
            ByteCode::Jump { offset: 1 },
            ByteCode::LoadConst(3.0f64.to_bits()),
        ]
    );
}

#[test]
fn fixed_arity_mismatch_fails_at_position() {
    let env = env_with(vec![], vec![("f", Function::Double)]);
    let e = call(4, 9, "f", vec![constant(1.0), constant(2.0), constant(3.0)]);
    let mut bc = Vec::new();
    let err = e.emit_bytecode(&env, &mut bc).unwrap_err();
    assert_eq!(err, CompileError::ArityMismatch { line: 4, column: 9 });
    assert_eq!(err.line(), 4);
    assert_eq!(err.column(), 9);
    assert_eq!(err.message(), "invalid num args");
    // The argument instructions were already appended, in reverse order,
    // before the arity check ran.
    assert_eq!(
        bc,
        vec![
            ByteCode::LoadConst(3.0f64.to_bits()),
            ByteCode::LoadConst(2.0f64.to_bits()),
            ByteCode::LoadConst(1.0f64.to_bits()),
        ]
    );
}

#[test]
fn fixed_arity_match_emits_call() {
    let env = env_with(vec![], vec![("g", Function::Single), ("f", Function::Double)]);
    let e = call(4, 9, "f", vec![constant(1.0), constant(2.0)]);
    let bc = compile(&e, &env).unwrap();
    assert_eq!(
        bc,
        vec![
            ByteCode::LoadConst(2.0f64.to_bits()),
            ByteCode::LoadConst(1.0f64.to_bits()),
            ByteCode::Call { func_index: 1, line: 4, column: 9 },
        ]
    );
}

#[test]
fn triple_arity_checked() {
    let env = env_with(vec![], vec![("h", Function::Triple)]);
    let ok = call(1, 1, "h", vec![constant(1.0), constant(2.0), constant(3.0)]);
    assert_eq!(compile(&ok, &env).unwrap().len(), 4);
    let bad = call(1, 1, "h", vec![constant(1.0)]);
    assert_eq!(
        compile(&bad, &env).unwrap_err(),
        CompileError::ArityMismatch { line: 1, column: 1 }
    );
}

#[test]
fn vararg_bypasses_arity_check() {
    let env = env_with(vec![], vec![("v", Function::Vararg)]);
    for count in [0usize, 1, 3, 7] {
        let args: Vec<Expr> = (0..count).map(|k| constant(k as f64)).collect();
        let e = call(2, 5, "v", args);
        let bc = compile(&e, &env).unwrap();
        assert_eq!(bc.len(), count + 1);
        assert_eq!(
            bc[count],
            ByteCode::CallVararg { func_index: 0, num_args: count, line: 2, column: 5 }
        );
    }
}

#[test]
fn unbound_identifier_appends_nothing() {
    let env = env_with(vec!["other"], vec![]);
    let e = identifier(3, 7, "missing");
    let mut bc = Vec::new();
    let err = e.emit_bytecode(&env, &mut bc).unwrap_err();
    assert_eq!(err, CompileError::UnboundIdentifier { line: 3, column: 7 });
    assert_eq!(err.message(), "identifier not found");
    assert!(bc.is_empty());
}

#[test]
fn unbound_function_keeps_argument_instructions() {
    let env = env_with(vec![], vec![]);
    let e = call(8, 2, "nowhere", vec![constant(1.0)]);
    let mut bc = Vec::new();
    let err = e.emit_bytecode(&env, &mut bc).unwrap_err();
    assert_eq!(err, CompileError::UnboundFunction { line: 8, column: 2 });
    assert_eq!(err.message(), "function not found");
    assert_eq!(bc, vec![ByteCode::LoadConst(1.0f64.to_bits())]);
}

#[test]
fn failing_operand_leaves_partial_buffer() {
    // The right operand is emitted before the left one fails to resolve.
    let env = env_with(vec![], vec![]);
    let e = Expr::Binary {
        operator: BinaryOperator::Add,
        left: Box::new(identifier(1, 5, "missing")),
        right: Box::new(constant(2.0)),
    };
    let mut bc = Vec::new();
    let err = e.emit_bytecode(&env, &mut bc).unwrap_err();
    assert_eq!(err, CompileError::UnboundIdentifier { line: 1, column: 5 });
    assert_eq!(bc, vec![ByteCode::LoadConst(2.0f64.to_bits())]);
}

#[test]
fn failing_branch_leaves_caller_buffer_untouched() {
    // A branch failure happens in a scratch buffer and never reaches the
    // caller's buffer, whichever branch fails.
    let env = env_with(vec![], vec![]);
    let e = Expr::Conditional {
        condition: Box::new(constant(1.0)),
        when_true: Box::new(constant(2.0)),
        when_false: Box::new(identifier(6, 1, "missing")),
    };
    let mut bc = Vec::new();
    let err = e.emit_bytecode(&env, &mut bc).unwrap_err();
    assert_eq!(err, CompileError::UnboundIdentifier { line: 6, column: 1 });
    assert!(bc.is_empty());
}

#[test]
fn emission_is_append_only() {
    let env = env_with(vec![], vec![]);
    let mut bc = vec![ByteCode::Jump { offset: 99 }];
    constant(1.0).emit_bytecode(&env, &mut bc).unwrap();
    assert_eq!(
        bc,
        vec![ByteCode::Jump { offset: 99 }, ByteCode::LoadConst(1.0f64.to_bits())]
    );
}

#[test]
fn idempotent_compilation() {
    let env = env_with(vec!["x"], vec![("f", Function::Double)]);
    let e = Expr::Conditional {
        condition: Box::new(identifier(1, 1, "x")),
        when_true: Box::new(call(1, 3, "f", vec![constant(1.0), identifier(1, 6, "x")])),
        when_false: Box::new(Expr::Binary {
            operator: BinaryOperator::Multiply,
            left: Box::new(constant(4.0)),
            right: Box::new(identifier(2, 2, "x")),
        }),
    };
    let first = compile(&e, &env).unwrap();
    let second = compile(&e, &env).unwrap();
    assert_eq!(first, second);
}

#[test]
fn first_matching_entry_wins() {
    let env = env_with(vec!["x", "x"], vec![]);
    let bc = compile(&identifier(1, 1, "x"), &env).unwrap();
    assert_eq!(bc, vec![ByteCode::LoadItem { index: 0 }]);
}
