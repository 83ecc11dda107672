//! Authenticated sensor state.
//!
//! A single sensor record (temperature, location, last-update time, and a
//! category label derived from the temperature) is mutated only when an
//! update request carries a proof artifact that passes verification.
//! [`zkproof`] holds the proof-acceptance predicate; [`sensor`] holds the
//! record, the state machine that guards it, and the proofs of its laws.

pub mod sensor;
pub mod zkproof;
