//! One activation record of the value stack.

use vstd::prelude::*;
use crate::ir::{lvalue_index, Body, Lvalue};

verus! {

/// A stack frame: the contiguous run of value-stack slots belonging to one
/// activation, starting at `offset`.  Its layout is fixed:
///
/// - slot `0`: the return value,
/// - slots `1 ..= num_args`: the arguments, in declaration order,
/// - then one slot per local variable,
/// - then one slot per temporary.
#[derive(Clone, Copy, Debug, PartialEq, Eq, Structural)]
pub struct Frame {
    pub offset: usize,
    pub num_args: usize,
    pub num_vars: usize,
    pub num_temps: usize,
}

impl Frame {
    /// The number of slots the frame occupies.
    pub open spec fn spec_size(self) -> int {
        1 + self.num_args + self.num_vars + self.num_temps
    }

    /// The frame lies inside a value stack of length `len`.
    pub open spec fn in_stack(self, len: int) -> bool {
        self.offset + self.spec_size() <= len
    }

    /// The frame's counts are those `body` declares.
    pub open spec fn matches_body(self, body: Body) -> bool {
        &&& self.num_args == body.arg_count
        &&& self.num_vars == body.var_count
        &&& self.num_temps == body.temp_count
    }

    /// The absolute value-stack offset of the slot `lv` names.
    pub open spec fn lvalue_offset(self, body: Body, lv: Lvalue) -> int {
        self.offset + lvalue_index(body, lv)
    }

    pub fn size(&self) -> (r: usize)
        requires
            self.spec_size() <= usize::MAX,
        ensures
            r == self.spec_size(),
    {
        1 + self.num_args + self.num_vars + self.num_temps
    }

    pub fn return_val_offset(&self) -> (r: usize)
        ensures
            r == self.offset,
    {
        self.offset
    }

    pub fn arg_offset(&self, i: usize) -> (r: usize)
        requires
            i < self.num_args,
            self.offset + self.spec_size() <= usize::MAX,
        ensures
            r == self.offset + 1 + i,
    {
        self.offset + 1 + i
    }

    pub fn var_offset(&self, i: usize) -> (r: usize)
        requires
            i < self.num_vars,
            self.offset + self.spec_size() <= usize::MAX,
        ensures
            r == self.offset + 1 + self.num_args + i,
    {
        self.offset + 1 + self.num_args + i
    }

    pub fn temp_offset(&self, i: usize) -> (r: usize)
        requires
            i < self.num_temps,
            self.offset + self.spec_size() <= usize::MAX,
        ensures
            r == self.offset + 1 + self.num_args + self.num_vars + i,
    {
        self.offset + 1 + self.num_args + self.num_vars + i
    }
}

} // verus!
