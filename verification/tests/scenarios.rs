//! Whole-body runs of the evaluator: arithmetic, branching, multi-way
//! dispatch, recursion, error surfacing and stack discipline.

use cfgvm::error::{Error, Outcome};
use cfgvm::frame::Frame;
use cfgvm::interpreter::Interpreter;
use cfgvm::ir::{BasicBlock, BinOp, Body, ConstVal, Literal, Lvalue, Operand, Rvalue, Statement, Terminator, UnOp};
use cfgvm::value::Value;

fn int_const(i: i64) -> Operand {
    Operand::Constant(Literal::Value(ConstVal::Int(i)))
}

fn bool_const(b: bool) -> Operand {
    Operand::Constant(Literal::Value(ConstVal::Bool(b)))
}

fn read(lv: Lvalue) -> Operand {
    Operand::Consume(lv)
}

fn ret_block(stmts: Vec<Statement>) -> BasicBlock {
    BasicBlock { statements: stmts, terminator: Terminator::Return }
}

fn run_one(body: Body, args: Vec<Value>) -> Outcome {
    let program = vec![body];
    let mut interpreter = Interpreter::new();
    let out = interpreter.call(&program, 0, &args, 10_000);
    assert_eq!(interpreter.value_stack.len(), 0);
    assert_eq!(interpreter.call_stack.len(), 0);
    out
}

/// `2 + 3 * 4` through nested binary-op rvalues and a single `Return`.
#[test]
fn nested_arithmetic_body() {
    let body = Body {
        arg_count: 0,
        var_count: 0,
        temp_count: 1,
        blocks: vec![ret_block(vec![
            Statement::Assign(Lvalue::Temp(0), Rvalue::BinaryOp(BinOp::Mul, int_const(3), int_const(4))),
            Statement::Assign(
                Lvalue::ReturnPointer,
                Rvalue::BinaryOp(BinOp::Add, int_const(2), read(Lvalue::Temp(0))),
            ),
        ])],
    };
    assert_eq!(run_one(body, vec![]), Outcome::Done(Ok(Value::Int(14))));
}

/// An `If` on the boolean constant `true` takes the first target.
#[test]
fn if_on_true_constant() {
    let body = Body {
        arg_count: 0,
        var_count: 0,
        temp_count: 0,
        blocks: vec![
            BasicBlock {
                statements: vec![],
                terminator: Terminator::If { cond: bool_const(true), targets: (1, 2) },
            },
            ret_block(vec![Statement::Assign(Lvalue::ReturnPointer, Rvalue::Use(int_const(1)))]),
            ret_block(vec![Statement::Assign(Lvalue::ReturnPointer, Rvalue::Use(int_const(0)))]),
        ],
    };
    assert_eq!(run_one(body, vec![]), Outcome::Done(Ok(Value::Int(1))));
}

fn factorial_body() -> Body {
    Body {
        arg_count: 1,
        var_count: 0,
        temp_count: 3,
        blocks: vec![
            BasicBlock {
                statements: vec![Statement::Assign(
                    Lvalue::Temp(0),
                    Rvalue::BinaryOp(BinOp::Eq, read(Lvalue::Arg(0)), int_const(0)),
                )],
                terminator: Terminator::If { cond: read(Lvalue::Temp(0)), targets: (1, 2) },
            },
            ret_block(vec![Statement::Assign(Lvalue::ReturnPointer, Rvalue::Use(int_const(1)))]),
            BasicBlock {
                statements: vec![Statement::Assign(
                    Lvalue::Temp(1),
                    Rvalue::BinaryOp(BinOp::Sub, read(Lvalue::Arg(0)), int_const(1)),
                )],
                terminator: Terminator::Call {
                    destination: Lvalue::Temp(2),
                    func: Operand::Constant(Literal::Item(0)),
                    args: vec![read(Lvalue::Temp(1))],
                    target: 3,
                },
            },
            ret_block(vec![Statement::Assign(
                Lvalue::ReturnPointer,
                Rvalue::BinaryOp(BinOp::Mul, read(Lvalue::Arg(0)), read(Lvalue::Temp(2))),
            )]),
        ],
    }
}

/// Recursive factorial of 5; both stacks return to depth zero afterwards.
#[test]
fn recursive_factorial() {
    assert_eq!(
        run_one(factorial_body(), vec![Value::Int(5)]),
        Outcome::Done(Ok(Value::Int(120)))
    );
}

fn switch_body(discriminant: i64) -> Body {
    Body {
        arg_count: 0,
        var_count: 1,
        temp_count: 0,
        blocks: vec![
            BasicBlock {
                statements: vec![Statement::Assign(
                    Lvalue::Var(0),
                    Rvalue::Use(int_const(discriminant)),
                )],
                terminator: Terminator::SwitchInt {
                    discr: Lvalue::Var(0),
                    values: vec![ConstVal::Int(0), ConstVal::Int(1), ConstVal::Int(2)],
                    targets: vec![1, 2, 3],
                },
            },
            ret_block(vec![Statement::Assign(Lvalue::ReturnPointer, Rvalue::Use(int_const(10)))]),
            ret_block(vec![Statement::Assign(Lvalue::ReturnPointer, Rvalue::Use(int_const(20)))]),
            ret_block(vec![Statement::Assign(Lvalue::ReturnPointer, Rvalue::Use(int_const(30)))]),
        ],
    }
}

/// A discriminant equal to the second candidate dispatches to the second
/// target's block.
#[test]
fn switch_dispatches_on_match() {
    assert_eq!(run_one(switch_body(1), vec![]), Outcome::Done(Ok(Value::Int(20))));
}

/// A discriminant matching no candidate is a `NoMatchingCase` error.
#[test]
fn switch_without_match_fails() {
    assert_eq!(
        run_one(switch_body(9), vec![]),
        Outcome::Done(Err(Error::NoMatchingCase))
    );
}

/// A floating-point literal is an unsupported construct and produces no
/// partial result: the stacks are left exactly as before the run.
#[test]
fn float_constant_is_unsupported() {
    let body = Body {
        arg_count: 0,
        var_count: 0,
        temp_count: 0,
        blocks: vec![ret_block(vec![Statement::Assign(
            Lvalue::ReturnPointer,
            Rvalue::Use(Operand::Constant(Literal::Value(ConstVal::Float))),
        )])],
    };
    assert_eq!(
        run_one(body, vec![]),
        Outcome::Done(Err(Error::UnsupportedConstruct))
    );
}

/// Running the same body on the same arguments twice yields identical
/// results.
#[test]
fn evaluation_is_repeatable() {
    let first = run_one(factorial_body(), vec![Value::Int(6)]);
    let second = run_one(factorial_body(), vec![Value::Int(6)]);
    assert_eq!(first, second);
    assert_eq!(first, Outcome::Done(Ok(Value::Int(720))));
}

/// The value stack regains its length even when frames of an enclosing
/// activation are already live.
#[test]
fn stack_length_is_preserved_under_live_frames() {
    let outer = Body { arg_count: 2, var_count: 1, temp_count: 0, blocks: vec![ret_block(vec![])] };
    let program = vec![switch_body(2)];
    let mut interpreter = Interpreter::new();
    interpreter
        .push_stack_frame(&outer, &vec![Value::Int(1), Value::Bool(false)])
        .unwrap();
    let before = interpreter.value_stack.len();
    let out = interpreter.call(&program, 0, &vec![], 10_000);
    assert_eq!(out, Outcome::Done(Ok(Value::Int(30))));
    assert_eq!(interpreter.value_stack.len(), before);
    assert_eq!(interpreter.call_stack.len(), 1);
}

/// A non-boolean `If` condition is a type mismatch.
#[test]
fn branch_on_integer_fails() {
    let body = Body {
        arg_count: 0,
        var_count: 0,
        temp_count: 0,
        blocks: vec![
            BasicBlock {
                statements: vec![],
                terminator: Terminator::If { cond: int_const(1), targets: (1, 1) },
            },
            ret_block(vec![]),
        ],
    };
    assert_eq!(run_one(body, vec![]), Outcome::Done(Err(Error::TypeMismatch)));
}

/// Calling a value that is not a function reference is a type mismatch.
#[test]
fn calling_a_non_function_fails() {
    let body = Body {
        arg_count: 0,
        var_count: 0,
        temp_count: 1,
        blocks: vec![
            BasicBlock {
                statements: vec![],
                terminator: Terminator::Call {
                    destination: Lvalue::Temp(0),
                    func: int_const(3),
                    args: vec![],
                    target: 1,
                },
            },
            ret_block(vec![]),
        ],
    };
    assert_eq!(run_one(body, vec![]), Outcome::Done(Err(Error::TypeMismatch)));
}

/// Arithmetic on a boolean operand is a type mismatch.
#[test]
fn arithmetic_on_boolean_fails() {
    let body = Body {
        arg_count: 0,
        var_count: 0,
        temp_count: 0,
        blocks: vec![ret_block(vec![Statement::Assign(
            Lvalue::ReturnPointer,
            Rvalue::BinaryOp(BinOp::Add, int_const(1), bool_const(true)),
        )])],
    };
    assert_eq!(run_one(body, vec![]), Outcome::Done(Err(Error::TypeMismatch)));
}

/// A call with the wrong number of arguments is rejected.
#[test]
fn argument_count_mismatch_is_rejected() {
    assert_eq!(
        run_one(factorial_body(), vec![]),
        Outcome::Done(Err(Error::ArgumentCountMismatch))
    );
}

/// A division by zero inside a body surfaces as its error.
#[test]
fn division_by_zero_inside_a_body() {
    let body = Body {
        arg_count: 0,
        var_count: 0,
        temp_count: 0,
        blocks: vec![ret_block(vec![Statement::Assign(
            Lvalue::ReturnPointer,
            Rvalue::BinaryOp(BinOp::Div, int_const(1), int_const(0)),
        )])],
    };
    assert_eq!(run_one(body, vec![]), Outcome::Done(Err(Error::DivisionByZero)));
}

/// An unsupported statement or terminator shape is reported, not skipped.
#[test]
fn unsupported_shapes_are_reported() {
    let stmt_body = Body {
        arg_count: 0,
        var_count: 0,
        temp_count: 0,
        blocks: vec![ret_block(vec![Statement::Unsupported])],
    };
    assert_eq!(
        run_one(stmt_body, vec![]),
        Outcome::Done(Err(Error::UnsupportedConstruct))
    );
    let term_body = Body {
        arg_count: 0,
        var_count: 0,
        temp_count: 0,
        blocks: vec![BasicBlock { statements: vec![], terminator: Terminator::Unsupported }],
    };
    assert_eq!(
        run_one(term_body, vec![]),
        Outcome::Done(Err(Error::UnsupportedConstruct))
    );
}

/// A `Drop` statement is a no-op: the dropped slot keeps its value.
#[test]
fn drop_is_a_no_op() {
    let body = Body {
        arg_count: 1,
        var_count: 0,
        temp_count: 0,
        blocks: vec![ret_block(vec![
            Statement::Drop(Lvalue::Arg(0)),
            Statement::Assign(Lvalue::ReturnPointer, Rvalue::Use(read(Lvalue::Arg(0)))),
        ])],
    };
    assert_eq!(
        run_one(body, vec![Value::Int(7)]),
        Outcome::Done(Ok(Value::Int(7)))
    );
}

/// A body that never returns exhausts its fuel budget instead of hanging.
#[test]
fn endless_loop_runs_out_of_fuel() {
    let body = Body {
        arg_count: 0,
        var_count: 0,
        temp_count: 0,
        blocks: vec![BasicBlock {
            statements: vec![],
            terminator: Terminator::Goto { target: 0 },
        }],
    };
    assert_eq!(run_one(body, vec![]), Outcome::OutOfFuel);
}

/// An unwritten return slot yields the uninitialized value.
#[test]
fn unwritten_return_slot_is_uninitialized() {
    let body = Body { arg_count: 0, var_count: 0, temp_count: 0, blocks: vec![ret_block(vec![])] };
    assert_eq!(run_one(body, vec![]), Outcome::Done(Ok(Value::Uninit)));
}

/// Popping with no frame pushed is a stack-discipline violation.
#[test]
fn pop_without_frame_underflows() {
    let mut interpreter = Interpreter::new();
    assert_eq!(interpreter.pop_stack_frame(), Err(Error::FrameStackUnderflow));
}

/// A pushed frame holds the return slot, the arguments in order, and
/// uninitialized variable and temporary slots; popping discards them.
#[test]
fn frame_layout_on_the_value_stack() {
    let body = Body { arg_count: 2, var_count: 1, temp_count: 1, blocks: vec![ret_block(vec![])] };
    let mut interpreter = Interpreter::new();
    interpreter
        .push_stack_frame(&body, &vec![Value::Int(4), Value::Bool(true)])
        .unwrap();
    assert_eq!(
        interpreter.value_stack,
        vec![
            Value::Uninit,
            Value::Int(4),
            Value::Bool(true),
            Value::Uninit,
            Value::Uninit,
        ]
    );
    assert_eq!(
        interpreter.push_stack_frame(&body, &vec![Value::Int(4)]),
        Err(Error::ArgumentCountMismatch)
    );
    assert_eq!(interpreter.value_stack.len(), 5);
    interpreter.pop_stack_frame().unwrap();
    assert_eq!(interpreter.value_stack.len(), 0);
    assert_eq!(interpreter.call_stack.len(), 0);
}

/// Frame offsets follow the fixed section order: return slot, arguments,
/// variables, temporaries.
#[test]
fn frame_offsets_partition_the_frame() {
    let frame = Frame { offset: 10, num_args: 2, num_vars: 3, num_temps: 4 };
    assert_eq!(frame.size(), 10);
    assert_eq!(frame.return_val_offset(), 10);
    assert_eq!(frame.arg_offset(0), 11);
    assert_eq!(frame.arg_offset(1), 12);
    assert_eq!(frame.var_offset(0), 13);
    assert_eq!(frame.temp_offset(0), 16);
    assert_eq!(frame.temp_offset(3), 19);
}

/// Unary operators work through a body, and an unsupported rvalue shape is
/// reported.
#[test]
fn unary_and_unsupported_rvalues() {
    let neg_body = Body {
        arg_count: 1,
        var_count: 0,
        temp_count: 0,
        blocks: vec![ret_block(vec![Statement::Assign(
            Lvalue::ReturnPointer,
            Rvalue::UnaryOp(UnOp::Neg, read(Lvalue::Arg(0))),
        )])],
    };
    assert_eq!(
        run_one(neg_body, vec![Value::Int(41)]),
        Outcome::Done(Ok(Value::Int(-41)))
    );
    let agg_body = Body {
        arg_count: 0,
        var_count: 0,
        temp_count: 0,
        blocks: vec![ret_block(vec![Statement::Assign(
            Lvalue::ReturnPointer,
            Rvalue::Unsupported,
        )])],
    };
    assert_eq!(
        run_one(agg_body, vec![]),
        Outcome::Done(Err(Error::UnsupportedConstruct))
    );
}

fn switch_with_candidates(values: Vec<ConstVal>) -> Body {
    Body {
        arg_count: 0,
        var_count: 1,
        temp_count: 0,
        blocks: vec![
            BasicBlock {
                statements: vec![Statement::Assign(Lvalue::Var(0), Rvalue::Use(int_const(1)))],
                terminator: Terminator::SwitchInt {
                    discr: Lvalue::Var(0),
                    values,
                    targets: vec![1, 2],
                },
            },
            ret_block(vec![Statement::Assign(Lvalue::ReturnPointer, Rvalue::Use(int_const(10)))]),
            ret_block(vec![Statement::Assign(Lvalue::ReturnPointer, Rvalue::Use(int_const(20)))]),
        ],
    }
}

/// Candidates are evaluated left to right and only up to the first match:
/// an unevaluable candidate before the match is an error, one after the
/// match is never reached.
#[test]
fn switch_evaluates_candidates_in_order() {
    assert_eq!(
        run_one(switch_with_candidates(vec![ConstVal::Float, ConstVal::Int(1)]), vec![]),
        Outcome::Done(Err(Error::UnsupportedConstruct))
    );
    assert_eq!(
        run_one(switch_with_candidates(vec![ConstVal::Int(1), ConstVal::Float]), vec![]),
        Outcome::Done(Ok(Value::Int(10)))
    );
}

/// The structural checker accepts the programs the other tests run and
/// rejects a jump past the last block, an undeclared slot, and a function
/// constant outside the program.
#[test]
fn structural_checks() {
    assert!(cfgvm::ir::check_program(&vec![factorial_body(), switch_body(1)]));
    let bad_jump = Body {
        arg_count: 0,
        var_count: 0,
        temp_count: 0,
        blocks: vec![BasicBlock {
            statements: vec![],
            terminator: Terminator::Goto { target: 1 },
        }],
    };
    assert!(!cfgvm::ir::check_program(&vec![bad_jump]));
    let bad_slot = Body {
        arg_count: 0,
        var_count: 0,
        temp_count: 0,
        blocks: vec![ret_block(vec![Statement::Assign(
            Lvalue::Temp(0),
            Rvalue::Use(int_const(1)),
        )])],
    };
    assert!(!cfgvm::ir::check_program(&vec![bad_slot]));
    let bad_item = Body {
        arg_count: 0,
        var_count: 0,
        temp_count: 0,
        blocks: vec![ret_block(vec![Statement::Assign(
            Lvalue::ReturnPointer,
            Rvalue::Use(Operand::Constant(Literal::Item(5))),
        )])],
    };
    assert!(!cfgvm::ir::check_program(&vec![bad_item]));
    assert!(cfgvm::ir::check_program(&vec![]));
}

/// Function references flow through slots: a callee taken from an argument
/// is invoked like one named directly.
#[test]
fn function_reference_through_a_slot() {
    let callee = Body {
        arg_count: 0,
        var_count: 0,
        temp_count: 0,
        blocks: vec![ret_block(vec![Statement::Assign(
            Lvalue::ReturnPointer,
            Rvalue::Use(int_const(99)),
        )])],
    };
    let caller = Body {
        arg_count: 1,
        var_count: 0,
        temp_count: 0,
        blocks: vec![
            BasicBlock {
                statements: vec![],
                terminator: Terminator::Call {
                    destination: Lvalue::ReturnPointer,
                    func: read(Lvalue::Arg(0)),
                    args: vec![],
                    target: 1,
                },
            },
            ret_block(vec![]),
        ],
    };
    let program = vec![callee, caller];
    let mut interpreter = Interpreter::new();
    let out = interpreter.call(&program, 1, &vec![Value::Func(0)], 10_000);
    assert_eq!(out, Outcome::Done(Ok(Value::Int(99))));
}
