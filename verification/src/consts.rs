//! Governance configuration constants.

use vstd::prelude::*;

verus! {

/// Length of a proposal's voting window, in seconds (seven days).
pub const VOTING_WINDOW: i64 = 604800;

/// Vote threshold installed at initialization: one whole token unit of a
/// nine-decimal weighting token.
pub const DEFAULT_VOTE_THRESHOLD: u64 = 1_000_000_000;

/// Capacity of the whitelist's approved-hook set.
pub const MAX_HOOKS: usize = 10;

/// Capacity of the whitelist's registered-proposal-id set.
pub const MAX_PROPOSALS: usize = 20;

} // verus!
