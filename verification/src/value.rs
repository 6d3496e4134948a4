//! Runtime values and the locations they can occupy.

use vstd::prelude::*;

verus! {

/// A runtime value.  The union is closed and minimal: every consumer matches
/// it exhaustively, so adding a variant (heap pointers, aggregates) is a
/// compiler-enforced change at each consumption site.
#[derive(Clone, Copy, Debug, PartialEq, Eq, Structural)]
pub enum Value {
    /// A slot that has not been written yet.
    Uninit,
    /// A boolean.
    Bool(bool),
    /// A 64-bit signed integer.  Integer width is uniformly 64 bits,
    /// whatever width the source program declared.
    Int(i64),
    /// A reference to a function, as an index into the program's bodies.
    Func(usize),
}

/// A reference to an addressable location.  Only stack slots exist today;
/// the tagged form keeps the type open to further location kinds (a heap
/// slot, say) without breaking the code that matches on it.
#[derive(Clone, Copy, Debug, PartialEq, Eq, Structural)]
pub enum Pointer {
    /// An index into the global value stack.
    Stack(usize),
}

/// A value is well formed with respect to a program of `plen` bodies when
/// every function reference it holds points into that program.
pub open spec fn wf_value(plen: int, v: Value) -> bool {
    match v {
        Value::Uninit => true,
        Value::Bool(_) => true,
        Value::Int(_) => true,
        Value::Func(f) => f < plen,
    }
}

/// All values of a sequence are well formed.
pub open spec fn wf_values(plen: int, vs: Seq<Value>) -> bool {
    forall|i: int| 0 <= i < vs.len() ==> wf_value(plen, #[trigger] vs[i])
}

} // verus!
