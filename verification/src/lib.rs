//! A time-boxed token staking vault engine.
//!
//! Participants deposit a fungible asset into a shared pool for a fixed term
//! and accrue a proportional share of a pre-funded, continuously emitted
//! reward stream.  The engine converts elapsed time into integral reward
//! units, folds them into a per-staked-unit accumulator, and computes each
//! participant's claimable balance, all in integer-only, overflow-checked
//! fixed-point arithmetic.
//!
//! The engine is a pure state-transition library: the host that embeds it
//! supplies the current time and performs the actual custody transfers that
//! each operation decides on.

pub mod admin;
pub mod counter;
pub mod emission;
pub mod errors;
pub mod laws;
pub mod lifecycle;
pub mod math;
pub mod stake;
pub mod vault;
