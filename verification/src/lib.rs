//! A single-proposal governance primitive: a time-boxed, power-weighted vote
//! on one discrete action (a fund transfer or an account removal), gated by a
//! quorum and a deadline, followed by a one-shot execution of the approved
//! action.
//!
//! The ambient context — the current time and the calling identity — is
//! injected into every operation as an explicit parameter, so the state
//! machine is pure and can be driven with simulated clocks and identities.

pub mod account;
pub mod action;
pub mod errors;
pub mod laws;
pub mod proposal;
