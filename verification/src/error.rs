//! The error taxonomy and the outcome of a fuel-bounded run.

use vstd::prelude::*;
use crate::value::Value;

verus! {

/// Everything that can stop an evaluation.  Each kind is surfaced as a
/// recoverable result, so a driver can report one failing entry point and
/// go on with the next.
#[derive(Clone, Copy, Debug, PartialEq, Eq, Structural)]
pub enum Error {
    /// An IR statement, terminator, rvalue or constant kind the evaluator
    /// does not model.
    UnsupportedConstruct,
    /// A value of the wrong kind reached an operation expecting a specific
    /// kind: a non-boolean branch condition, a non-integer operand of an
    /// arithmetic operator, a non-function callee.
    TypeMismatch,
    /// A multi-way branch's discriminant matched none of its candidates.
    NoMatchingCase,
    /// A frame pop was attempted with no frame present.
    FrameStackUnderflow,
    /// A call supplied a different number of arguments than the callee
    /// declares.
    ArgumentCountMismatch,
    /// Division or remainder with a zero divisor.  The host's native
    /// arithmetic aborts here rather than wrap, so it surfaces as an error.
    DivisionByZero,
    /// A shift amount outside `0..64`.  As with a zero divisor, the host's
    /// native shift aborts on such an amount.
    ShiftOutOfRange,
}

/// What a fuel-bounded run yields: a completed evaluation (a value or an
/// error), or exhaustion of the fuel budget before completion.  The budget
/// is the verified stand-in for the host call stack that bounds a direct
/// recursive evaluator.
#[derive(Clone, Copy, Debug, PartialEq, Eq)]
pub enum Outcome {
    Done(Result<Value, Error>),
    OutOfFuel,
}

} // verus!
