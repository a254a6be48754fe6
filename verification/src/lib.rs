//! A small, verified simulator for an assembly-flavoured intermediate
//! language: width-tagged word values with explicit lifting, an
//! instruction-accurate 64-bit arithmetic library (wraparound plus
//! carry/borrow flags), a sparse word-aligned memory store, and a
//! syntax-directed translator that checks a statement program against the
//! recognized grammar forms before a step-bounded evaluator runs it.
use vstd::prelude::*;

pub mod arith;
pub mod lang;
pub mod mem;
pub mod run;
pub mod sem;
pub mod word;

verus! {

} // verus!
