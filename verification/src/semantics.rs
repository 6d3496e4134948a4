//! The specification-level semantics of the evaluator.
//!
//! These functions define, purely mathematically, what running a body must
//! yield.  One activation is modeled by its own slot sequence (return slot,
//! arguments, variables, temporaries); control flow and calls recurse on an
//! explicit fuel budget, with `Outcome::OutOfFuel` when the budget runs out
//! before a `Return`.  The executable evaluator's contract pins its result
//! to `run_body`, and the fuel-monotonicity lemmas below make the outcome
//! of a completed run independent of the budget that was chosen.

use vstd::prelude::*;
use crate::error::{Error, Outcome};
use crate::ir::{
    frame_size, lvalue_index, BasicBlock, BinOp, Body, ConstVal, Literal, Lvalue, Operand, Rvalue,
    Statement, Terminator, UnOp,
};
use crate::value::Value;

verus! {

/// The value of a literal constant: booleans and 64-bit signed integers
/// evaluate to themselves; every other constant kind is unsupported.
pub open spec fn constant_value(c: ConstVal) -> Result<Value, Error> {
    match c {
        ConstVal::Float => Err(Error::UnsupportedConstruct),
        ConstVal::Int(i) => Ok(Value::Int(i)),
        ConstVal::Uint(_) => Err(Error::UnsupportedConstruct),
        ConstVal::Str => Err(Error::UnsupportedConstruct),
        ConstVal::ByteStr => Err(Error::UnsupportedConstruct),
        ConstVal::Bool(b) => Ok(Value::Bool(b)),
        ConstVal::Struct => Err(Error::UnsupportedConstruct),
        ConstVal::Tuple => Err(Error::UnsupportedConstruct),
        ConstVal::Function => Err(Error::UnsupportedConstruct),
    }
}

/// The value of a constant operand: a literal, or a function reference.
pub open spec fn literal_value(l: Literal) -> Result<Value, Error> {
    match l {
        Literal::Value(c) => constant_value(c),
        Literal::Item(f) => Ok(Value::Func(f)),
    }
}

/// The fresh slot sequence of one activation of `body` with `args`: the
/// return slot and every variable and temporary uninitialized, the argument
/// section holding `args` in order.
pub open spec fn init_slots(body: Body, args: Seq<Value>) -> Seq<Value> {
    Seq::new(
        frame_size(body) as nat,
        |i: int|
            if 1 <= i <= args.len() {
                args[i - 1]
            } else {
                Value::Uninit
            },
    )
}

/// The value of an operand against the activation's slots: a read operand
/// is the current content of the slot it names.
pub open spec fn operand_value(body: Body, slots: Seq<Value>, op: Operand) -> Result<Value, Error> {
    match op {
        Operand::Consume(lv) => Ok(slots[lvalue_index(body, lv)]),
        Operand::Constant(l) => literal_value(l),
    }
}

/// The result of a binary operator on two 64-bit signed integers: native
/// two's-complement semantics.  Addition, subtraction, multiplication wrap
/// on overflow; comparisons yield booleans; a zero divisor and an
/// out-of-range shift amount are errors, since the host's native arithmetic
/// aborts there instead of wrapping; the one overflowing quotient
/// (`i64::MIN / -1`) wraps like the other operators.
pub open spec fn binop_value(op: BinOp, l: i64, r: i64) -> Result<Value, Error> {
    match op {
        BinOp::Add => Ok(Value::Int(l.wrapping_add(r))),
        BinOp::Sub => Ok(Value::Int(l.wrapping_sub(r))),
        BinOp::Mul => Ok(Value::Int(l.wrapping_mul(r))),
        BinOp::Div => if r == 0 {
            Err(Error::DivisionByZero)
        } else {
            match l.checked_div(r) {
                Some(q) => Ok(Value::Int(q)),
                None => Ok(Value::Int(i64::MIN)),
            }
        },
        BinOp::Rem => if r == 0 {
            Err(Error::DivisionByZero)
        } else {
            match l.checked_rem(r) {
                Some(m) => Ok(Value::Int(m)),
                None => Ok(Value::Int(0)),
            }
        },
        BinOp::BitXor => Ok(Value::Int(l ^ r)),
        BinOp::BitAnd => Ok(Value::Int(l & r)),
        BinOp::BitOr => Ok(Value::Int(l | r)),
        BinOp::Shl => if 0 <= r < 64 {
            Ok(Value::Int(l << r))
        } else {
            Err(Error::ShiftOutOfRange)
        },
        BinOp::Shr => if 0 <= r < 64 {
            Ok(Value::Int(l >> r))
        } else {
            Err(Error::ShiftOutOfRange)
        },
        BinOp::Eq => Ok(Value::Bool(l == r)),
        BinOp::Lt => Ok(Value::Bool(l < r)),
        BinOp::Le => Ok(Value::Bool(l <= r)),
        BinOp::Ne => Ok(Value::Bool(l != r)),
        BinOp::Ge => Ok(Value::Bool(l >= r)),
        BinOp::Gt => Ok(Value::Bool(l > r)),
    }
}

/// The result of a unary operator on a 64-bit signed integer: bitwise
/// complement, or two's-complement negation (which wraps on `i64::MIN`).
pub open spec fn unop_value(op: UnOp, n: i64) -> Value {
    match op {
        UnOp::Not => Value::Int(!n),
        UnOp::Neg => Value::Int((0i64).wrapping_sub(n)),
    }
}

/// The value of an rvalue against the activation's slots.  Binary and unary
/// operators demand integer operands; the left operand errors first.
pub open spec fn rvalue_value(body: Body, slots: Seq<Value>, rv: Rvalue) -> Result<Value, Error> {
    match rv {
        Rvalue::Use(op) => operand_value(body, slots, op),
        Rvalue::BinaryOp(op, a, b) => match operand_value(body, slots, a) {
            Err(e) => Err(e),
            Ok(va) => match operand_value(body, slots, b) {
                Err(e) => Err(e),
                Ok(vb) => match (va, vb) {
                    (Value::Int(l), Value::Int(r)) => binop_value(op, l, r),
                    _ => Err(Error::TypeMismatch),
                },
            },
        },
        Rvalue::UnaryOp(op, a) => match operand_value(body, slots, a) {
            Err(e) => Err(e),
            Ok(Value::Int(n)) => Ok(unop_value(op, n)),
            Ok(_) => Err(Error::TypeMismatch),
        },
        Rvalue::Unsupported => Err(Error::UnsupportedConstruct),
    }
}

/// The slots after one statement: an assignment overwrites the slot its
/// location names, whatever that slot held; dropping is a no-op.
pub open spec fn apply_statement(body: Body, slots: Seq<Value>, st: Statement) -> Result<
    Seq<Value>,
    Error,
> {
    match st {
        Statement::Assign(lv, rv) => match rvalue_value(body, slots, rv) {
            Ok(v) => Ok(slots.update(lvalue_index(body, lv), v)),
            Err(e) => Err(e),
        },
        Statement::Drop(_) => Ok(slots),
        Statement::Unsupported => Err(Error::UnsupportedConstruct),
    }
}

/// The slots after a block's statements, executed in order; the first
/// failing statement decides.
pub open spec fn run_statements(body: Body, slots: Seq<Value>, sts: Seq<Statement>) -> Result<
    Seq<Value>,
    Error,
>
    decreases sts.len(),
{
    if sts.len() == 0 {
        Ok(slots)
    } else {
        match apply_statement(body, slots, sts[0]) {
            Ok(s2) => run_statements(body, s2, sts.drop_first()),
            Err(e) => Err(e),
        }
    }
}

/// The target a multi-way branch jumps to: the one paired with the first
/// candidate structurally equal to the discriminant, `None` when no
/// candidate matches.  Candidates are evaluated left to right, so an
/// unsupported candidate before the first match is an error.
pub open spec fn switch_target(values: Seq<ConstVal>, targets: Seq<usize>, discr: Value) -> Result<
    Option<usize>,
    Error,
>
    decreases values.len(),
{
    if values.len() == 0 {
        Ok(None)
    } else {
        match constant_value(values[0]) {
            Err(e) => Err(e),
            Ok(v) => if v == discr {
                Ok(Some(targets[0]))
            } else {
                switch_target(values.drop_first(), targets.drop_first(), discr)
            },
        }
    }
}

/// The values of a call's argument operands, left to right, all evaluated
/// in the caller's activation; the first failing operand decides.
pub open spec fn operand_values(body: Body, slots: Seq<Value>, ops: Seq<Operand>) -> Result<
    Seq<Value>,
    Error,
>
    decreases ops.len(),
{
    if ops.len() == 0 {
        Ok(Seq::empty())
    } else {
        match operand_value(body, slots, ops[0]) {
            Err(e) => Err(e),
            Ok(v) => match operand_values(body, slots, ops.drop_first()) {
                Ok(rest) => Ok(seq![v] + rest),
                Err(e) => Err(e),
            },
        }
    }
}

/// The outcome of executing `body` from block `block` with the given slots.
/// Each control transfer consumes one unit of fuel; a callee activation
/// starts with the remaining budget.  Execution of one block runs its
/// statements in order and then dispatches its terminator.
pub open spec fn run_blocks(
    prog: Seq<Body>,
    body: Body,
    slots: Seq<Value>,
    block: int,
    fuel: nat,
) -> Outcome
    decreases fuel, 0int,
{
    if fuel == 0 {
        Outcome::OutOfFuel
    } else {
        let blk = body.blocks@[block];
        match run_statements(body, slots, blk.statements@) {
            Err(e) => Outcome::Done(Err(e)),
            Ok(slots2) => match blk.terminator {
                Terminator::Return => Outcome::Done(Ok(slots2[0])),
                Terminator::Goto { target } => run_blocks(
                    prog,
                    body,
                    slots2,
                    target as int,
                    (fuel - 1) as nat,
                ),
                Terminator::If { cond, targets } => match operand_value(body, slots2, cond) {
                    Err(e) => Outcome::Done(Err(e)),
                    Ok(Value::Bool(true)) => run_blocks(
                        prog,
                        body,
                        slots2,
                        targets.0 as int,
                        (fuel - 1) as nat,
                    ),
                    Ok(Value::Bool(false)) => run_blocks(
                        prog,
                        body,
                        slots2,
                        targets.1 as int,
                        (fuel - 1) as nat,
                    ),
                    Ok(_) => Outcome::Done(Err(Error::TypeMismatch)),
                },
                Terminator::SwitchInt { discr, values, targets } => {
                    let d = slots2[lvalue_index(body, discr)];
                    match switch_target(values@, targets@, d) {
                        Err(e) => Outcome::Done(Err(e)),
                        Ok(None) => Outcome::Done(Err(Error::NoMatchingCase)),
                        Ok(Some(t)) => run_blocks(prog, body, slots2, t as int, (fuel - 1) as nat),
                    }
                },
                Terminator::Call { destination, func, args, target } => {
                    match operand_value(body, slots2, func) {
                        Err(e) => Outcome::Done(Err(e)),
                        Ok(Value::Func(f)) => match operand_values(body, slots2, args@) {
                            Err(e) => Outcome::Done(Err(e)),
                            Ok(vals) => match run_body(
                                prog,
                                prog[f as int],
                                vals,
                                (fuel - 1) as nat,
                            ) {
                                Outcome::OutOfFuel => Outcome::OutOfFuel,
                                Outcome::Done(Err(e)) => Outcome::Done(Err(e)),
                                Outcome::Done(Ok(v)) => run_blocks(
                                    prog,
                                    body,
                                    slots2.update(lvalue_index(body, destination), v),
                                    target as int,
                                    (fuel - 1) as nat,
                                ),
                            },
                        },
                        Ok(_) => Outcome::Done(Err(Error::TypeMismatch)),
                    }
                },
                Terminator::Unsupported => Outcome::Done(Err(Error::UnsupportedConstruct)),
            },
        }
    }
}

/// The outcome of one complete activation of `body` on `args` within
/// `prog`: an argument-count check, a fresh frame, then execution from the
/// entry block.
pub open spec fn run_body(prog: Seq<Body>, body: Body, args: Seq<Value>, fuel: nat) -> Outcome
    decreases fuel, 1int,
{
    if args.len() != body.arg_count {
        Outcome::Done(Err(Error::ArgumentCountMismatch))
    } else {
        run_blocks(prog, body, init_slots(body, args), 0, fuel)
    }
}

/// Raising the fuel budget of a run that did not time out leaves its
/// outcome unchanged (block-level form of `lemma_run_body_fuel`).
proof fn lemma_run_blocks_fuel(
    prog: Seq<Body>,
    body: Body,
    slots: Seq<Value>,
    block: int,
    f1: nat,
    f2: nat,
)
    requires
        f1 <= f2,
        run_blocks(prog, body, slots, block, f1) != (Outcome::OutOfFuel),
    ensures
        run_blocks(prog, body, slots, block, f2) == run_blocks(prog, body, slots, block, f1),
    decreases f1, 0int,
{
    let blk = body.blocks@[block];
    match run_statements(body, slots, blk.statements@) {
        Err(_) => {},
        Ok(slots2) => match blk.terminator {
            Terminator::Return => {},
            Terminator::Goto { target } => {
                lemma_run_blocks_fuel(
                    prog,
                    body,
                    slots2,
                    target as int,
                    (f1 - 1) as nat,
                    (f2 - 1) as nat,
                );
            },
            Terminator::If { cond, targets } => {
                match operand_value(body, slots2, cond) {
                    Err(_) => {},
                    Ok(Value::Bool(true)) => {
                        lemma_run_blocks_fuel(
                            prog,
                            body,
                            slots2,
                            targets.0 as int,
                            (f1 - 1) as nat,
                            (f2 - 1) as nat,
                        );
                    },
                    Ok(Value::Bool(false)) => {
                        lemma_run_blocks_fuel(
                            prog,
                            body,
                            slots2,
                            targets.1 as int,
                            (f1 - 1) as nat,
                            (f2 - 1) as nat,
                        );
                    },
                    Ok(_) => {},
                }
            },
            Terminator::SwitchInt { discr, values, targets } => {
                match switch_target(values@, targets@, slots2[lvalue_index(body, discr)]) {
                    Ok(Some(t)) => {
                        lemma_run_blocks_fuel(
                            prog,
                            body,
                            slots2,
                            t as int,
                            (f1 - 1) as nat,
                            (f2 - 1) as nat,
                        );
                    },
                    _ => {},
                }
            },
            Terminator::Call { destination, func, args, target } => {
                match operand_value(body, slots2, func) {
                    Ok(Value::Func(f)) => {
                        match operand_values(body, slots2, args@) {
                            Ok(vals) => {
                                lemma_run_body_fuel(
                                    prog,
                                    prog[f as int],
                                    vals,
                                    (f1 - 1) as nat,
                                    (f2 - 1) as nat,
                                );
                                match run_body(prog, prog[f as int], vals, (f1 - 1) as nat) {
                                    Outcome::Done(Ok(v)) => {
                                        lemma_run_blocks_fuel(
                                            prog,
                                            body,
                                            slots2.update(lvalue_index(body, destination), v),
                                            target as int,
                                            (f1 - 1) as nat,
                                            (f2 - 1) as nat,
                                        );
                                    },
                                    _ => {},
                                }
                            },
                            Err(_) => {},
                        }
                    },
                    _ => {},
                }
            },
            Terminator::Unsupported => {},
        },
    }
}

/// Law: the fuel budget never influences a completed outcome.  A run that
/// completed (did not run out of fuel) yields the same outcome under every
/// larger budget.
pub proof fn lemma_run_body_fuel(prog: Seq<Body>, body: Body, args: Seq<Value>, f1: nat, f2: nat)
    requires
        f1 <= f2,
        run_body(prog, body, args, f1) != (Outcome::OutOfFuel),
    ensures
        run_body(prog, body, args, f2) == run_body(prog, body, args, f1),
    decreases f1, 1int,
{
    if args.len() == body.arg_count {
        lemma_run_blocks_fuel(prog, body, init_slots(body, args), 0, f1, f2);
    }
}

/// Law: evaluation is deterministic.  Two completed runs of the same body
/// on the same arguments within the same program yield identical results,
/// whatever fuel budgets they were given: there is no hidden mutable state.
pub proof fn lemma_run_deterministic(
    prog: Seq<Body>,
    body: Body,
    args: Seq<Value>,
    f1: nat,
    f2: nat,
    r1: Result<Value, Error>,
    r2: Result<Value, Error>,
)
    requires
        run_body(prog, body, args, f1) == Outcome::Done(r1),
        run_body(prog, body, args, f2) == Outcome::Done(r2),
    ensures
        r1 == r2,
{
    if f1 <= f2 {
        lemma_run_body_fuel(prog, body, args, f1, f2);
    } else {
        lemma_run_body_fuel(prog, body, args, f2, f1);
    }
}

} // verus!
