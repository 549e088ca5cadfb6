//! A line-oriented picker core: it streams candidate display lines into an
//! externally supplied interactive selector program, captures the program's
//! single selected result, and can persist that result to the system
//! clipboard through a detached owner process so the value outlives the
//! invoking process.

pub mod adapter;
pub mod candidates;
pub mod daemon;
pub mod errors;

use vstd::prelude::*;

verus! {

} // verus!
