//! A virtual machine for a control-flow-graph intermediate representation.
//!
//! A program is a vector of function bodies; each body is a list of basic
//! blocks made of statements and a terminator.  The evaluator drives one
//! call to completion over a single flat value stack, pushing one frame per
//! activation.  Every run is bounded by an explicit fuel budget, and its
//! outcome is pinned down exactly by a specification-level semantics.

pub mod error;
pub mod frame;
pub mod interpreter;
pub mod ir;
pub mod semantics;
pub mod value;
