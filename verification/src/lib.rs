//! Token-weighted governance over a whitelist of approved hook programs.
//!
//! A `GovernanceState` holds the whitelist singleton and the proposal store.
//! Callers open proposals for hook identifiers, vote on them with a weight
//! reported by a balance oracle while the voting window is open, and finalize
//! them once the window has elapsed; an approved hook identifier is appended
//! to the whitelist, which the market maker queries through `check_hook`.

pub mod consts;
pub mod errors;
pub mod events;
pub mod states;
pub mod engine;
pub mod laws;
