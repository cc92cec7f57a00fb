//! A verified core for proving, with a STARK engine, that a two-register
//! additive recurrence was run correctly.
//!
//! The crate holds the computation-specific logic: arithmetic in the
//! 128-bit prime field, the execution trace of the recurrence, and the
//! algebraic intermediate representation (transition constraints and
//! boundary assertions) that the proving engine consumes.

pub mod air;
pub mod field;
pub mod options;
pub mod prover;
pub mod trace;
