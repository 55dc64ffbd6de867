//! Decision logic of a fuzzing harness that feeds one input from standard
//! input to a target and turns a fault inside the target into a process
//! abort that an external fuzzer can observe as a crash.
use vstd::prelude::*;

pub mod laws;
pub mod lifecycle;
pub mod text;

verus! {

} // verus!
