//! The control-flow executor: frames, loads and stores, expression
//! evaluation, and the fuel-bounded call loop.

use vstd::prelude::*;
use vstd::pervasive::VecAdditionalExecFns;
use crate::error::{Error, Outcome};
use crate::frame::Frame;
use crate::ir::{
    frame_size, lvalue_index, wf_block, wf_body, wf_lvalue, wf_operand, wf_program, wf_rvalue,
    wf_statement, BasicBlock, BinOp, Body, ConstVal, Literal, Lvalue, Operand, Rvalue, Statement,
    Terminator, UnOp,
};
use crate::semantics::{
    binop_value, constant_value, init_slots, operand_value, operand_values, run_blocks, run_body,
    run_statements, rvalue_value, switch_target, unop_value,
};
use crate::value::{wf_value, wf_values, Pointer, Value};

verus! {

/// The value of a literal constant.
pub fn eval_constant(const_val: &ConstVal) -> (r: Result<Value, Error>)
    ensures
        r == constant_value(*const_val),
{
    match const_val {
        ConstVal::Float => Err(Error::UnsupportedConstruct),
        ConstVal::Int(i) => Ok(Value::Int(*i)),
        ConstVal::Uint(_) => Err(Error::UnsupportedConstruct),
        ConstVal::Str => Err(Error::UnsupportedConstruct),
        ConstVal::ByteStr => Err(Error::UnsupportedConstruct),
        ConstVal::Bool(b) => Ok(Value::Bool(*b)),
        ConstVal::Struct => Err(Error::UnsupportedConstruct),
        ConstVal::Tuple => Err(Error::UnsupportedConstruct),
        ConstVal::Function => Err(Error::UnsupportedConstruct),
    }
}

/// A binary operator applied to two integer operands: wrapping
/// two's-complement arithmetic, bitwise operations, comparisons.
pub fn eval_binop(op: BinOp, l: i64, r: i64) -> (res: Result<Value, Error>)
    ensures
        res == binop_value(op, l, r),
{
    match op {
        BinOp::Add => Ok(Value::Int(l.wrapping_add(r))),
        BinOp::Sub => Ok(Value::Int(l.wrapping_sub(r))),
        BinOp::Mul => Ok(Value::Int(l.wrapping_mul(r))),
        BinOp::Div => if r == 0 {
            Err(Error::DivisionByZero)
        } else {
            match l.checked_div(r) {
                Some(q) => Ok(Value::Int(q)),
                None => Ok(Value::Int(i64::MIN)),
            }
        },
        BinOp::Rem => if r == 0 {
            Err(Error::DivisionByZero)
        } else {
            match l.checked_rem(r) {
                Some(m) => Ok(Value::Int(m)),
                None => Ok(Value::Int(0)),
            }
        },
        BinOp::BitXor => Ok(Value::Int(l ^ r)),
        BinOp::BitAnd => Ok(Value::Int(l & r)),
        BinOp::BitOr => Ok(Value::Int(l | r)),
        BinOp::Shl => if 0 <= r && r < 64 {
            Ok(Value::Int(l << r))
        } else {
            Err(Error::ShiftOutOfRange)
        },
        BinOp::Shr => if 0 <= r && r < 64 {
            Ok(Value::Int(l >> r))
        } else {
            Err(Error::ShiftOutOfRange)
        },
        BinOp::Eq => Ok(Value::Bool(l == r)),
        BinOp::Lt => Ok(Value::Bool(l < r)),
        BinOp::Le => Ok(Value::Bool(l <= r)),
        BinOp::Ne => Ok(Value::Bool(l != r)),
        BinOp::Ge => Ok(Value::Bool(l >= r)),
        BinOp::Gt => Ok(Value::Bool(l > r)),
    }
}

/// A unary operator applied to an integer operand.
pub fn eval_unop(op: UnOp, n: i64) -> (res: Value)
    ensures
        res == unop_value(op, n),
{
    match op {
        UnOp::Not => Value::Int(!n),
        UnOp::Neg => Value::Int((0i64).wrapping_sub(n)),
    }
}

/// The evaluator: one call stack of frames addressing one flat value stack.
/// Both stacks are exclusively owned; the sum of all live frames' sizes
/// equals the value stack's length throughout a run.
pub struct Interpreter {
    pub value_stack: Vec<Value>,
    pub call_stack: Vec<Frame>,
}

impl Interpreter {
    /// There is at least one live frame.
    pub open spec fn has_frame(self) -> bool {
        self.call_stack@.len() > 0
    }

    /// The current (topmost) frame; loads and stores address only this one.
    pub open spec fn top_frame(self) -> Frame {
        self.call_stack@.last()
    }

    /// The current frame exists and its slots lie within the value stack.
    pub open spec fn frame_ready(self) -> bool {
        &&& self.has_frame()
        &&& self.top_frame().in_stack(self.value_stack@.len() as int)
        &&& self.value_stack@.len() <= usize::MAX
    }

    /// The live frames partition the value stack: the first begins at slot
    /// zero, each later one begins where the one below it ends, and the
    /// topmost ends at the stack's top.  In consequence the sum of all
    /// live frames' sizes equals the value stack's length.
    pub open spec fn well_nested(self) -> bool {
        &&& forall|i: int|
            0 <= i < self.call_stack@.len() ==> (#[trigger] self.call_stack@[i]).offset == (
            if i == 0 {
                0
            } else {
                self.call_stack@[i - 1].offset + self.call_stack@[i - 1].spec_size()
            })
        &&& (self.call_stack@.len() == 0 ==> self.value_stack@.len() == 0)
        &&& (self.call_stack@.len() > 0 ==> self.top_frame().offset + self.top_frame().spec_size()
            == self.value_stack@.len())
    }

    /// The current frame's slots, as a sequence starting at its return slot.
    pub open spec fn frame_slots(self) -> Seq<Value> {
        self.value_stack@.subrange(
            self.top_frame().offset as int,
            self.top_frame().offset + self.top_frame().spec_size(),
        )
    }

    pub fn new() -> (r: Interpreter)
        ensures
            r.value_stack@.len() == 0,
            r.call_stack@.len() == 0,
            r.well_nested(),
    {
        Interpreter { value_stack: Vec::new(), call_stack: Vec::new() }
    }

    /// The value stored at a location reference.
    fn read_pointer(&self, p: Pointer) -> (v: Value)
        requires
            p matches Pointer::Stack(o) && o < self.value_stack@.len(),
        ensures
            p matches Pointer::Stack(o) && v == self.value_stack@[o as int],
    {
        match p {
            Pointer::Stack(offset) => self.value_stack[offset],
        }
    }

    /// Stores a value at a location reference, overwriting whatever the
    /// slot held.
    fn write_pointer(&mut self, p: Pointer, val: Value)
        requires
            p matches Pointer::Stack(o) && o < old(self).value_stack@.len(),
        ensures
            p matches Pointer::Stack(o) && final(self).value_stack@ == old(
                self,
            ).value_stack@.update(o as int, val),
            final(self).call_stack@ == old(self).call_stack@,
    {
        match p {
            Pointer::Stack(offset) => self.value_stack.set(offset, val),
        }
    }

    /// Maps a location of the current frame to its value-stack slot.
    fn eval_lvalue(&self, lvalue: &Lvalue, Ghost(body): Ghost<Body>) -> (p: Pointer)
        requires
            self.frame_ready(),
            self.top_frame().matches_body(body),
            wf_lvalue(body, *lvalue),
        ensures
            p matches Pointer::Stack(o) && o == self.top_frame().offset + lvalue_index(
                body,
                *lvalue,
            ),
    {
        let fi = self.call_stack.len() - 1;
        let frame = &self.call_stack[fi];
        match lvalue {
            Lvalue::ReturnPointer => Pointer::Stack(frame.return_val_offset()),
            Lvalue::Arg(i) => Pointer::Stack(frame.arg_offset(*i)),
            Lvalue::Var(i) => Pointer::Stack(frame.var_offset(*i)),
            Lvalue::Temp(i) => Pointer::Stack(frame.temp_offset(*i)),
        }
    }

    /// The current value of the slot a location names.
    fn read_lvalue(&self, lvalue: &Lvalue, Ghost(body): Ghost<Body>) -> (v: Value)
        requires
            self.frame_ready(),
            self.top_frame().matches_body(body),
            wf_lvalue(body, *lvalue),
        ensures
            v == self.frame_slots()[lvalue_index(body, *lvalue)],
    {
        self.read_pointer(self.eval_lvalue(lvalue, Ghost(body)))
    }

    /// The value of an operand: a load from the slot it names, or a
    /// constant.
    fn eval_operand(&self, op: &Operand, Ghost(body): Ghost<Body>, Ghost(plen): Ghost<int>) -> (r:
        Result<Value, Error>)
        requires
            self.frame_ready(),
            self.top_frame().matches_body(body),
            wf_operand(plen, body, *op),
            wf_values(plen, self.frame_slots()),
        ensures
            r == operand_value(body, self.frame_slots(), *op),
            r matches Ok(v) ==> wf_value(plen, v),
    {
        match op {
            Operand::Consume(lvalue) => Ok(self.read_lvalue(lvalue, Ghost(body))),
            Operand::Constant(literal) => match literal {
                Literal::Value(c) => eval_constant(c),
                Literal::Item(f) => Ok(Value::Func(*f)),
            },
        }
    }

    /// The value of an rvalue: an operand's value, or an operator applied
    /// to integer operands.
    fn eval_rvalue(&self, rvalue: &Rvalue, Ghost(body): Ghost<Body>, Ghost(plen): Ghost<int>) -> (r:
        Result<Value, Error>)
        requires
            self.frame_ready(),
            self.top_frame().matches_body(body),
            wf_rvalue(plen, body, *rvalue),
            wf_values(plen, self.frame_slots()),
        ensures
            r == rvalue_value(body, self.frame_slots(), *rvalue),
            r matches Ok(v) ==> wf_value(plen, v),
    {
        match rvalue {
            Rvalue::Use(op) => self.eval_operand(op, Ghost(body), Ghost(plen)),
            Rvalue::BinaryOp(op, a, b) => match self.eval_operand(a, Ghost(body), Ghost(plen)) {
                Err(e) => Err(e),
                Ok(va) => match self.eval_operand(b, Ghost(body), Ghost(plen)) {
                    Err(e) => Err(e),
                    Ok(vb) => match (va, vb) {
                        (Value::Int(l), Value::Int(r)) => eval_binop(*op, l, r),
                        _ => Err(Error::TypeMismatch),
                    },
                },
            },
            Rvalue::UnaryOp(op, a) => match self.eval_operand(a, Ghost(body), Ghost(plen)) {
                Err(e) => Err(e),
                Ok(Value::Int(n)) => Ok(eval_unop(*op, n)),
                Ok(_) => Err(Error::TypeMismatch),
            },
            Rvalue::Unsupported => Err(Error::UnsupportedConstruct),
        }
    }

    /// Allocates a frame for one activation of `body` atop the value stack:
    /// every slot starts uninitialized, then the argument values are copied
    /// into the argument section in order.  An argument count different
    /// from what the body declares is an error and leaves the stacks
    /// untouched.
    pub fn push_stack_frame(&mut self, body: &Body, args: &Vec<Value>) -> (r: Result<(), Error>)
        requires
            frame_size(*body) <= usize::MAX,
        ensures
            args@.len() == body.arg_count ==> {
                &&& r is Ok
                &&& final(self).call_stack@.len() == old(self).call_stack@.len() + 1
                &&& final(self).call_stack@.drop_last() == old(self).call_stack@
                &&& final(self).top_frame().offset == old(self).value_stack@.len()
                &&& final(self).top_frame().matches_body(*body)
                &&& final(self).value_stack@ == old(self).value_stack@ + init_slots(*body, args@)
            },
            args@.len() != body.arg_count ==> {
                &&& r == Err::<(), Error>(Error::ArgumentCountMismatch)
                &&& final(self).value_stack@ == old(self).value_stack@
                &&& final(self).call_stack@ == old(self).call_stack@
            },
            old(self).well_nested() ==> final(self).well_nested(),
    {
        if args.len() != body.arg_count {
            return Err(Error::ArgumentCountMismatch);
        }
        let offset = self.value_stack.len();
        let size = 1 + body.arg_count + body.var_count + body.temp_count;
        let mut n: usize = 0;
        while n < size
            invariant
                n <= size,
                size == frame_size(*body),
                self.value_stack@.len() == old(self).value_stack@.len() + n,
                self.value_stack@.subrange(0, old(self).value_stack@.len() as int) == old(
                    self,
                ).value_stack@,
                forall|k: int|
                    old(self).value_stack@.len() <= k < self.value_stack@.len() ==> self.value_stack@[k]
                        == Value::Uninit,
                self.call_stack@ == old(self).call_stack@,
            decreases size - n,
        {
            self.value_stack.push(Value::Uninit);
            n += 1;
        }
        let total = self.value_stack.len();
        let mut i: usize = 0;
        while i < args.len()
            invariant
                i <= args@.len(),
                args@.len() == body.arg_count,
                total == offset + frame_size(*body),
                offset == old(self).value_stack@.len(),
                self.value_stack@.len() == offset + frame_size(*body),
                self.value_stack@.subrange(0, offset as int) == old(self).value_stack@,
                forall|k: int|
                    0 <= k < i ==> self.value_stack@[offset + 1 + k] == args@[k],
                forall|k: int|
                    offset <= k < self.value_stack@.len() && !(offset + 1 <= k < offset + 1 + i)
                        ==> self.value_stack@[k] == Value::Uninit,
                self.call_stack@ == old(self).call_stack@,
            decreases args@.len() - i,
        {
            self.value_stack.set(offset + 1 + i, args[i]);
            i += 1;
        }
        self.call_stack.push(
            Frame {
                offset,
                num_args: body.arg_count,
                num_vars: body.var_count,
                num_temps: body.temp_count,
            },
        );
        proof {
            assert(final(self).value_stack@ =~= old(self).value_stack@ + init_slots(*body, args@));
        }
        Ok(())
    }

    /// Removes the most recently pushed frame and truncates the value
    /// stack back to that frame's base, discarding all of its slots.
    /// Popping with no frame pushed is a stack-discipline violation.
    pub fn pop_stack_frame(&mut self) -> (r: Result<(), Error>)
        ensures
            old(self).call_stack@.len() > 0 ==> {
                &&& r is Ok
                &&& final(self).call_stack@ == old(self).call_stack@.drop_last()
                &&& (old(self).top_frame().offset <= old(self).value_stack@.len()
                    ==> final(self).value_stack@ == old(self).value_stack@.subrange(
                        0,
                        old(self).top_frame().offset as int,
                    ))
            },
            old(self).call_stack@.len() == 0 ==> {
                &&& r == Err::<(), Error>(Error::FrameStackUnderflow)
                &&& final(self).value_stack@ == old(self).value_stack@
                &&& final(self).call_stack@ == old(self).call_stack@
            },
            old(self).well_nested() ==> final(self).well_nested(),
    {
        match self.call_stack.pop() {
            Some(frame) => {
                self.value_stack.truncate(frame.offset);
                Ok(())
            },
            None => Err(Error::FrameStackUnderflow),
        }
    }
}

impl Interpreter {
    /// Drives one activation of `program[func]` on `args` to completion:
    /// pushes a frame, walks basic blocks from the entry block executing
    /// statements and dispatching terminators (calls recurse on this same
    /// function), and pops the frame when a `Return` is reached, yielding
    /// the return slot's value.  Every error is surfaced in the outcome,
    /// and the stacks are always restored to their state at entry, so one
    /// failing run never poisons the next.  The outcome is exactly the
    /// specification-level `run_body` at the given fuel budget.
    #[verifier::loop_isolation(false)]
    pub fn call(&mut self, program: &Vec<Body>, func: usize, args: &Vec<Value>, fuel: u64) -> (r:
        Outcome)
        requires
            wf_program(program@),
            func < program@.len(),
            wf_values(program@.len() as int, args@),
        ensures
            r == run_body(program@, program@[func as int], args@, fuel as nat),
            final(self).value_stack@ == old(self).value_stack@,
            final(self).call_stack@ == old(self).call_stack@,
            r matches Outcome::Done(Ok(v)) ==> wf_value(program@.len() as int, v),
        decreases fuel,
    {
        let ghost plen: int = program@.len() as int;
        let ghost body_g: Body = program@[func as int];
        proof {
            assert(wf_body(plen, body_g));
        }
        let body: &Body = &program[func];
        if let Err(e) = self.push_stack_frame(body, args) {
            return Outcome::Done(Err(e));
        }
        let ghost frame0: Frame = self.top_frame();
        let ghost base: int = frame0.offset as int;
        let stack_len: usize = self.value_stack.len();
        let mut block: usize = 0;
        let mut fuel_left: u64 = fuel;
        proof {
            assert(self.frame_slots() =~= init_slots(body_g, args@));
            assert forall|k: int| 0 <= k < self.frame_slots().len() implies wf_value(
                plen,
                #[trigger] self.frame_slots()[k],
            ) by {
                if 1 <= k <= args@.len() {
                    assert(self.frame_slots()[k] == args@[k - 1]);
                }
            }
        }
        loop
            invariant
                self.call_stack@.len() == old(self).call_stack@.len() + 1,
                self.call_stack@.drop_last() == old(self).call_stack@,
                self.top_frame() == frame0,
                frame0.offset == old(self).value_stack@.len(),
                frame0.matches_body(body_g),
                self.value_stack@.len() == stack_len,
                stack_len == frame0.offset + frame_size(body_g),
                self.value_stack@.subrange(0, base) == old(self).value_stack@,
                block < body_g.blocks@.len(),
                fuel_left <= fuel,
                wf_values(plen, self.frame_slots()),
                run_blocks(program@, body_g, self.frame_slots(), block as int, fuel_left as nat)
                    == run_body(program@, body_g, args@, fuel as nat),
            decreases fuel_left,
        {
            if fuel_left == 0 {
                let _ = self.pop_stack_frame();
                return Outcome::OutOfFuel;
            }
            let bb: &BasicBlock = &body.blocks[block];
            proof {
                assert(wf_block(plen, body_g, body_g.blocks@[block as int]));
            }
            let ghost slots0: Seq<Value> = self.frame_slots();
            let stmts: &Vec<Statement> = &bb.statements;
            proof {
                assert(stmts@.skip(0) =~= stmts@);
            }
            let mut si: usize = 0;
            while si < stmts.len()
                invariant
                    si <= stmts@.len(),
                    self.call_stack@.len() == old(self).call_stack@.len() + 1,
                    self.call_stack@.drop_last() == old(self).call_stack@,
                    self.top_frame() == frame0,
                    self.value_stack@.len() == stack_len,
                    self.value_stack@.subrange(0, base) == old(self).value_stack@,
                    wf_values(plen, self.frame_slots()),
                    run_statements(body_g, slots0, stmts@) == run_statements(
                        body_g,
                        self.frame_slots(),
                        stmts@.skip(si as int),
                    ),
                decreases stmts@.len() - si,
            {
                let st: Statement = stmts[si];
                proof {
                    assert(wf_statement(plen, body_g, stmts@[si as int]));
                    assert(stmts@.skip(si as int).drop_first() =~= stmts@.skip(si as int + 1));
                }
                match st {
                    Statement::Assign(lv, rv) => {
                        let ptr = self.eval_lvalue(&lv, Ghost(body_g));
                        match self.eval_rvalue(&rv, Ghost(body_g), Ghost(plen)) {
                            Ok(v) => {
                                let ghost pre = self.frame_slots();
                                self.write_pointer(ptr, v);
                                proof {
                                    assert(self.frame_slots() =~= pre.update(
                                        lvalue_index(body_g, lv),
                                        v,
                                    ));
                                    assert(self.value_stack@.subrange(0, base) =~= old(
                                        self,
                                    ).value_stack@);
                                }
                            },
                            Err(e) => {
                                let _ = self.pop_stack_frame();
                                return Outcome::Done(Err(e));
                            },
                        }
                    },
                    Statement::Drop(_) => {
                    },
                    Statement::Unsupported => {
                        let _ = self.pop_stack_frame();
                        return Outcome::Done(Err(Error::UnsupportedConstruct));
                    },
                }
                si += 1;
            }
            proof {
                assert(stmts@.skip(stmts@.len() as int) =~= Seq::<Statement>::empty());
                assert(run_statements(body_g, slots0, stmts@) == Ok::<Seq<Value>, Error>(
                    self.frame_slots(),
                ));
            }
            let ghost slots2: Seq<Value> = self.frame_slots();
            match &bb.terminator {
                Terminator::Return => {
                    let ret = self.read_lvalue(&Lvalue::ReturnPointer, Ghost(body_g));
                    let _ = self.pop_stack_frame();
                    return Outcome::Done(Ok(ret));
                },
                Terminator::Goto { target } => {
                    block = *target;
                    fuel_left = fuel_left - 1;
                },
                Terminator::If { cond, targets } => {
                    match self.eval_operand(cond, Ghost(body_g), Ghost(plen)) {
                        Ok(Value::Bool(true)) => {
                            block = targets.0;
                            fuel_left = fuel_left - 1;
                        },
                        Ok(Value::Bool(false)) => {
                            block = targets.1;
                            fuel_left = fuel_left - 1;
                        },
                        Ok(_) => {
                            let _ = self.pop_stack_frame();
                            return Outcome::Done(Err(Error::TypeMismatch));
                        },
                        Err(e) => {
                            let _ = self.pop_stack_frame();
                            return Outcome::Done(Err(e));
                        },
                    }
                },
                Terminator::SwitchInt { discr, values, targets } => {
                    let d = self.read_lvalue(discr, Ghost(body_g));
                    match find_switch_target(values, targets, d) {
                        Err(e) => {
                            let _ = self.pop_stack_frame();
                            return Outcome::Done(Err(e));
                        },
                        Ok(None) => {
                            let _ = self.pop_stack_frame();
                            return Outcome::Done(Err(Error::NoMatchingCase));
                        },
                        Ok(Some(t)) => {
                            proof {
                                let j = choose|j: int|
                                    0 <= j < targets@.len() && targets@[j] == t;
                                assert(targets@[j] < body_g.blocks@.len());
                            }
                            block = t;
                            fuel_left = fuel_left - 1;
                        },
                    }
                },
                Terminator::Call { destination, func: callee, args: call_args, target } => {
                    match self.eval_operand(callee, Ghost(body_g), Ghost(plen)) {
                        Err(e) => {
                            let _ = self.pop_stack_frame();
                            return Outcome::Done(Err(e));
                        },
                        Ok(Value::Func(fid)) => {
                            let dptr = self.eval_lvalue(destination, Ghost(body_g));
                            let mut vals: Vec<Value> = Vec::new();
                            let mut ai: usize = 0;
                            proof {
                                assert(call_args@.skip(0) =~= call_args@);
                                assert(vals@ =~= Seq::<Value>::empty());
                                match operand_values(body_g, slots2, call_args@) {
                                    Ok(rest) => {
                                        assert(Seq::<Value>::empty() + rest =~= rest);
                                    },
                                    Err(_) => {},
                                }
                            }
                            while ai < call_args.len()
                                invariant
                                    ai <= call_args@.len(),
                                    vals@.len() == ai,
                                    wf_values(plen, vals@),
                                    self.call_stack@.len() == old(self).call_stack@.len() + 1,
                                    self.call_stack@.drop_last() == old(self).call_stack@,
                                    self.top_frame() == frame0,
                                    self.value_stack@.len() == stack_len,
                                    self.value_stack@.subrange(0, base) == old(self).value_stack@,
                                    self.frame_slots() == slots2,
                                    operand_values(body_g, slots2, call_args@) == (
                                    match operand_values(
                                        body_g,
                                        slots2,
                                        call_args@.skip(ai as int),
                                    ) {
                                        Ok(rest) => Ok::<Seq<Value>, Error>(vals@ + rest),
                                        Err(e) => Err::<Seq<Value>, Error>(e),
                                    }),
                                decreases call_args@.len() - ai,
                            {
                                proof {
                                    assert(wf_operand(plen, body_g, call_args@[ai as int]));
                                    assert(call_args@.skip(ai as int).drop_first() =~= call_args@.skip(
                                        ai as int + 1,
                                    ));
                                }
                                match self.eval_operand(
                                    &call_args[ai],
                                    Ghost(body_g),
                                    Ghost(plen),
                                ) {
                                    Err(e) => {
                                        let _ = self.pop_stack_frame();
                                        return Outcome::Done(Err(e));
                                    },
                                    Ok(v) => {
                                        let ghost old_vals = vals@;
                                        vals.push(v);
                                        proof {
                                            match operand_values(
                                                body_g,
                                                slots2,
                                                call_args@.skip(ai as int + 1),
                                            ) {
                                                Ok(rest) => {
                                                    assert(old_vals + (seq![v] + rest)
                                                        =~= old_vals.push(v) + rest);
                                                },
                                                Err(_) => {},
                                            }
                                        }
                                    },
                                }
                                ai += 1;
                            }
                            proof {
                                assert(call_args@.skip(call_args@.len() as int)
                                    =~= Seq::<Operand>::empty());
                                assert(vals@ + Seq::<Value>::empty() =~= vals@);
                                assert(operand_values(body_g, slots2, call_args@)
                                    == Ok::<Seq<Value>, Error>(vals@));
                            }
                            let sub = self.call(program, fid, &vals, fuel_left - 1);
                            match sub {
                                Outcome::OutOfFuel => {
                                    let _ = self.pop_stack_frame();
                                    return Outcome::OutOfFuel;
                                },
                                Outcome::Done(Err(e)) => {
                                    let _ = self.pop_stack_frame();
                                    return Outcome::Done(Err(e));
                                },
                                Outcome::Done(Ok(v)) => {
                                    let ghost pre = self.frame_slots();
                                    self.write_pointer(dptr, v);
                                    proof {
                                        assert(self.frame_slots() =~= pre.update(
                                            lvalue_index(body_g, *destination),
                                            v,
                                        ));
                                        assert(self.value_stack@.subrange(0, base) =~= old(
                                            self,
                                        ).value_stack@);
                                    }
                                    block = *target;
                                    fuel_left = fuel_left - 1;
                                },
                            }
                        },
                        Ok(_) => {
                            let _ = self.pop_stack_frame();
                            return Outcome::Done(Err(Error::TypeMismatch));
                        },
                    }
                },
                Terminator::Unsupported => {
                    let _ = self.pop_stack_frame();
                    return Outcome::Done(Err(Error::UnsupportedConstruct));
                },
            }
        }
    }
}

/// Linearly scans the candidate constants for the first one structurally
/// equal to the discriminant and yields the target paired with it.
fn find_switch_target(values: &Vec<ConstVal>, targets: &Vec<usize>, discr: Value) -> (r: Result<
    Option<usize>,
    Error,
>)
    requires
        values@.len() == targets@.len(),
    ensures
        r == switch_target(values@, targets@, discr),
        r matches Ok(Some(t)) ==> targets@.contains(t),
{
    let mut i: usize = 0;
    proof {
        assert(values@.skip(0) =~= values@);
        assert(targets@.skip(0) =~= targets@);
    }
    while i < values.len()
        invariant
            i <= values@.len(),
            values@.len() == targets@.len(),
            switch_target(values@, targets@, discr) == switch_target(
                values@.skip(i as int),
                targets@.skip(i as int),
                discr,
            ),
        decreases values@.len() - i,
    {
        match eval_constant(&values[i]) {
            Err(e) => {
                return Err(e);
            },
            Ok(v) => {
                if v == discr {
                    return Ok(Some(targets[i]));
                }
            },
        }
        proof {
            assert(values@.skip(i as int).drop_first() =~= values@.skip(i as int + 1));
            assert(targets@.skip(i as int).drop_first() =~= targets@.skip(i as int + 1));
        }
        i += 1;
    }
    Ok(None)
}

} // verus!
