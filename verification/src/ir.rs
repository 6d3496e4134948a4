//! The control-flow-graph intermediate representation the evaluator runs.
//!
//! A body is an ordered collection of basic blocks, each a straight-line
//! sequence of statements ending in exactly one terminator.  Constructs the
//! evaluator does not model (aggregates, diverging terminators, further
//! constant kinds) are carried as explicit `Unsupported` placeholders so
//! that running into one is a recoverable error, never a silent gap.

use vstd::prelude::*;

verus! {

/// A symbolic reference to one addressable slot of the current frame.
#[derive(Clone, Copy, Debug, PartialEq, Eq, Structural)]
pub enum Lvalue {
    /// The slot the activation's result is written to.
    ReturnPointer,
    /// The `i`-th argument slot.
    Arg(usize),
    /// The `i`-th local-variable slot.
    Var(usize),
    /// The `i`-th temporary slot.
    Temp(usize),
}

/// A literal constant, by kind.  Only booleans and signed 64-bit integers
/// are evaluable; the remaining kinds are acknowledged extension points and
/// evaluate to an `UnsupportedConstruct` error.  Their payloads are not
/// carried: the evaluator rejects them before it would read one.
#[derive(Clone, Copy, Debug, PartialEq, Eq, Structural)]
pub enum ConstVal {
    Float,
    Int(i64),
    Uint(u64),
    Str,
    ByteStr,
    Bool(bool),
    Struct,
    Tuple,
    Function,
}

/// What a constant operand denotes: a literal value, or a named function
/// (by its index into the program) yielding a function reference.
#[derive(Clone, Copy, Debug, PartialEq, Eq, Structural)]
pub enum Literal {
    Value(ConstVal),
    Item(usize),
}

/// A source of a value inside an rvalue: read a location, or a constant.
#[derive(Clone, Copy, Debug, PartialEq, Eq, Structural)]
pub enum Operand {
    Consume(Lvalue),
    Constant(Literal),
}

/// A binary operator.  Arithmetic and bitwise operators yield integers,
/// comparisons yield booleans.
#[derive(Clone, Copy, Debug, PartialEq, Eq, Structural)]
pub enum BinOp {
    Add,
    Sub,
    Mul,
    Div,
    Rem,
    BitXor,
    BitAnd,
    BitOr,
    Shl,
    Shr,
    Eq,
    Lt,
    Le,
    Ne,
    Ge,
    Gt,
}

/// A unary operator on integers.
#[derive(Clone, Copy, Debug, PartialEq, Eq, Structural)]
pub enum UnOp {
    /// Bitwise complement.
    Not,
    /// Two's-complement negation.
    Neg,
}

/// An expression producing a value.
#[derive(Clone, Copy, Debug, PartialEq, Eq, Structural)]
pub enum Rvalue {
    /// The value of the operand itself.
    Use(Operand),
    BinaryOp(BinOp, Operand, Operand),
    UnaryOp(UnOp, Operand),
    /// Aggregate construction and every other rvalue kind.
    Unsupported,
}

/// A statement of a basic block.
#[derive(Clone, Copy, Debug, PartialEq, Eq, Structural)]
pub enum Statement {
    /// Evaluate the rvalue and store it at the location.
    Assign(Lvalue, Rvalue),
    /// Intentionally a no-op: destructors are not modeled.
    Drop(Lvalue),
    /// Every other statement shape.
    Unsupported,
}

/// The control transfer ending a basic block.  Block labels are indices
/// into the body's block vector.
#[derive(Debug)]
pub enum Terminator {
    /// End this activation and yield the return slot's value.
    Return,
    /// Jump unconditionally.
    Goto { target: usize },
    /// Evaluate the operand, which must be a boolean; jump to `targets.0`
    /// on true and `targets.1` on false.
    If { cond: Operand, targets: (usize, usize) },
    /// Read the location's current value and jump to the target paired with
    /// the first candidate constant structurally equal to it.  There is no
    /// implicit default arm: a fallback must be an explicit candidate.
    SwitchInt { discr: Lvalue, values: Vec<ConstVal>, targets: Vec<usize> },
    /// Evaluate `func` to a function reference, evaluate the argument
    /// operands left to right in the caller's frame, run the callee to
    /// completion, store its result at `destination`, and continue at
    /// `target`.
    Call { destination: Lvalue, func: Operand, args: Vec<Operand>, target: usize },
    /// Every other terminator shape (diverging, panicking, ...).
    Unsupported,
}

/// One basic block.
#[derive(Debug)]
pub struct BasicBlock {
    pub statements: Vec<Statement>,
    pub terminator: Terminator,
}

/// A function's executable form.  Execution starts at block 0.  A frame for
/// one activation holds `1 + arg_count + var_count + temp_count` slots.
#[derive(Debug)]
pub struct Body {
    pub arg_count: usize,
    pub var_count: usize,
    pub temp_count: usize,
    pub blocks: Vec<BasicBlock>,
}

/// The number of value-stack slots one activation of `body` occupies.
pub open spec fn frame_size(body: Body) -> int {
    1 + body.arg_count + body.var_count + body.temp_count
}

/// The offset of the slot `lv` names, counted from the start of a frame for
/// `body`: the return slot first, then arguments, variables, temporaries.
pub open spec fn lvalue_index(body: Body, lv: Lvalue) -> int {
    match lv {
        Lvalue::ReturnPointer => 0,
        Lvalue::Arg(i) => 1 + i,
        Lvalue::Var(i) => 1 + body.arg_count + i,
        Lvalue::Temp(i) => 1 + body.arg_count + body.var_count + i,
    }
}

/// A location reference stays inside the sections `body` declares.
pub open spec fn wf_lvalue(body: Body, lv: Lvalue) -> bool {
    match lv {
        Lvalue::ReturnPointer => true,
        Lvalue::Arg(i) => i < body.arg_count,
        Lvalue::Var(i) => i < body.var_count,
        Lvalue::Temp(i) => i < body.temp_count,
    }
}

/// An operand reads a declared slot, and a named function points into the
/// program (`plen` bodies).
pub open spec fn wf_operand(plen: int, body: Body, op: Operand) -> bool {
    match op {
        Operand::Consume(lv) => wf_lvalue(body, lv),
        Operand::Constant(Literal::Value(_)) => true,
        Operand::Constant(Literal::Item(f)) => f < plen,
    }
}

pub open spec fn wf_rvalue(plen: int, body: Body, rv: Rvalue) -> bool {
    match rv {
        Rvalue::Use(op) => wf_operand(plen, body, op),
        Rvalue::BinaryOp(_, a, b) => wf_operand(plen, body, a) && wf_operand(plen, body, b),
        Rvalue::UnaryOp(_, a) => wf_operand(plen, body, a),
        Rvalue::Unsupported => true,
    }
}

pub open spec fn wf_statement(plen: int, body: Body, st: Statement) -> bool {
    match st {
        Statement::Assign(lv, rv) => wf_lvalue(body, lv) && wf_rvalue(plen, body, rv),
        Statement::Drop(lv) => wf_lvalue(body, lv),
        Statement::Unsupported => true,
    }
}

pub open spec fn wf_terminator(plen: int, body: Body, t: Terminator) -> bool {
    match t {
        Terminator::Return => true,
        Terminator::Goto { target } => target < body.blocks@.len(),
        Terminator::If { cond, targets } => {
            &&& wf_operand(plen, body, cond)
            &&& targets.0 < body.blocks@.len()
            &&& targets.1 < body.blocks@.len()
        },
        Terminator::SwitchInt { discr, values, targets } => {
            &&& wf_lvalue(body, discr)
            &&& targets@.len() == values@.len()
            &&& forall|i: int|
                0 <= i < targets@.len() ==> (#[trigger] targets@[i]) < body.blocks@.len()
        },
        Terminator::Call { destination, func, args, target } => {
            &&& wf_lvalue(body, destination)
            &&& wf_operand(plen, body, func)
            &&& forall|i: int|
                0 <= i < args@.len() ==> wf_operand(plen, body, #[trigger] args@[i])
            &&& target < body.blocks@.len()
        },
        Terminator::Unsupported => true,
    }
}

pub open spec fn wf_block(plen: int, body: Body, b: BasicBlock) -> bool {
    &&& forall|i: int|
        0 <= i < b.statements@.len() ==> wf_statement(plen, body, #[trigger] b.statements@[i])
    &&& wf_terminator(plen, body, b.terminator)
}

/// A body is well formed with respect to a program of `plen` bodies: it has
/// an entry block, its frame fits the machine, every jump target is a block
/// of the body, every location reference is declared, and every named
/// function is a body of the program.  The external provider of bodies is
/// relied on for this much structure; everything the evaluator checks
/// dynamically (value kinds, matching cases, argument counts) stays a
/// runtime result.
pub open spec fn wf_body(plen: int, body: Body) -> bool {
    &&& body.blocks@.len() > 0
    &&& frame_size(body) <= usize::MAX
    &&& forall|i: int|
        0 <= i < body.blocks@.len() ==> wf_block(plen, body, #[trigger] body.blocks@[i])
}

/// Every body of the program is well formed with respect to the program.
pub open spec fn wf_program(prog: Seq<Body>) -> bool {
    forall|i: int| 0 <= i < prog.len() ==> wf_body(prog.len() as int, #[trigger] prog[i])
}

fn check_lvalue(body: &Body, lv: &Lvalue) -> (r: bool)
    ensures
        r == wf_lvalue(*body, *lv),
{
    match lv {
        Lvalue::ReturnPointer => true,
        Lvalue::Arg(i) => *i < body.arg_count,
        Lvalue::Var(i) => *i < body.var_count,
        Lvalue::Temp(i) => *i < body.temp_count,
    }
}

fn check_operand(plen: usize, body: &Body, op: &Operand) -> (r: bool)
    ensures
        r == wf_operand(plen as int, *body, *op),
{
    match op {
        Operand::Consume(lv) => check_lvalue(body, lv),
        Operand::Constant(Literal::Value(_)) => true,
        Operand::Constant(Literal::Item(f)) => *f < plen,
    }
}

fn check_rvalue(plen: usize, body: &Body, rv: &Rvalue) -> (r: bool)
    ensures
        r == wf_rvalue(plen as int, *body, *rv),
{
    match rv {
        Rvalue::Use(op) => check_operand(plen, body, op),
        Rvalue::BinaryOp(_, a, b) => check_operand(plen, body, a) && check_operand(plen, body, b),
        Rvalue::UnaryOp(_, a) => check_operand(plen, body, a),
        Rvalue::Unsupported => true,
    }
}

fn check_statement(plen: usize, body: &Body, st: &Statement) -> (r: bool)
    ensures
        r == wf_statement(plen as int, *body, *st),
{
    match st {
        Statement::Assign(lv, rv) => check_lvalue(body, lv) && check_rvalue(plen, body, rv),
        Statement::Drop(lv) => check_lvalue(body, lv),
        Statement::Unsupported => true,
    }
}

#[verifier::loop_isolation(false)]
fn check_terminator(plen: usize, body: &Body, t: &Terminator) -> (r: bool)
    ensures
        r == wf_terminator(plen as int, *body, *t),
{
    match t {
        Terminator::Return => true,
        Terminator::Goto { target } => *target < body.blocks.len(),
        Terminator::If { cond, targets } => check_operand(plen, body, cond) && targets.0
            < body.blocks.len() && targets.1 < body.blocks.len(),
        Terminator::SwitchInt { discr, values, targets } => {
            if !check_lvalue(body, discr) || targets.len() != values.len() {
                return false;
            }
            let mut i: usize = 0;
            while i < targets.len()
                invariant
                    i <= targets@.len(),
                    forall|j: int|
                        0 <= j < i ==> (#[trigger] targets@[j]) < body.blocks@.len(),
                decreases targets@.len() - i,
            {
                if !(targets[i] < body.blocks.len()) {
                    return false;
                }
                i += 1;
            }
            true
        },
        Terminator::Call { destination, func, args, target } => {
            if !check_lvalue(body, destination) || !check_operand(plen, body, func) || !(*target
                < body.blocks.len()) {
                return false;
            }
            let mut i: usize = 0;
            while i < args.len()
                invariant
                    i <= args@.len(),
                    forall|j: int|
                        0 <= j < i ==> wf_operand(plen as int, *body, #[trigger] args@[j]),
                decreases args@.len() - i,
            {
                if !check_operand(plen, body, &args[i]) {
                    return false;
                }
                i += 1;
            }
            true
        },
        Terminator::Unsupported => true,
    }
}

#[verifier::loop_isolation(false)]
fn check_block(plen: usize, body: &Body, b: &BasicBlock) -> (r: bool)
    ensures
        r == wf_block(plen as int, *body, *b),
{
    let mut i: usize = 0;
    while i < b.statements.len()
        invariant
            i <= b.statements@.len(),
            forall|j: int|
                0 <= j < i ==> wf_statement(plen as int, *body, #[trigger] b.statements@[j]),
        decreases b.statements@.len() - i,
    {
        if !check_statement(plen, body, &b.statements[i]) {
            return false;
        }
        i += 1;
    }
    check_terminator(plen, body, &b.terminator)
}

#[verifier::loop_isolation(false)]
fn check_body(plen: usize, body: &Body) -> (r: bool)
    ensures
        r == wf_body(plen as int, *body),
{
    if body.blocks.len() == 0 {
        return false;
    }
    if !(body.arg_count <= usize::MAX - 1 && body.var_count <= usize::MAX - 1 - body.arg_count
        && body.temp_count <= usize::MAX - 1 - body.arg_count - body.var_count) {
        return false;
    }
    let mut i: usize = 0;
    while i < body.blocks.len()
        invariant
            i <= body.blocks@.len(),
            forall|j: int|
                0 <= j < i ==> wf_block(plen as int, *body, #[trigger] body.blocks@[j]),
        decreases body.blocks@.len() - i,
    {
        if !check_block(plen, body, &body.blocks[i]) {
            return false;
        }
        i += 1;
    }
    true
}

/// Decides the structural well-formedness the evaluator's contract assumes
/// of a program, so that a caller holding bodies of unknown provenance can
/// establish it at run time before evaluating anything.
#[verifier::loop_isolation(false)]
pub fn check_program(program: &Vec<Body>) -> (r: bool)
    ensures
        r == wf_program(program@),
{
    let plen = program.len();
    let mut i: usize = 0;
    while i < program.len()
        invariant
            i <= program@.len(),
            forall|j: int|
                0 <= j < i ==> wf_body(program@.len() as int, #[trigger] program@[j]),
        decreases program@.len() - i,
    {
        if !check_body(plen, &program[i]) {
            return false;
        }
        i += 1;
    }
    true
}

} // verus!
