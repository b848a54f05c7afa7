//! Constraint program and prover-side logic for a STARK statement: knowledge of a
//! four-element preimage whose Rescue-Prime digest is public.
//!
//! Field elements of the 64-bit prime field are held as canonical `u64` values.

pub mod air;
pub mod field;
pub mod hash;
pub mod options;
pub mod prover;
pub mod statement;
pub mod trace;

use vstd::prelude::*;

verus! {

/// Number of columns of the execution trace.
pub const TRACE_WIDTH: usize = 6;

/// Number of rows of the execution trace.
pub const TRACE_LENGTH: usize = 8;

} // verus!
