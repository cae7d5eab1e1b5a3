//! Errors returned by the governance engine.

use vstd::prelude::*;

verus! {

/// Every way a governance operation can fail. Each operation aborts with no
/// state change when it returns one of these.
#[derive(Clone, Copy, Debug, PartialEq, Eq, Structural)]
pub enum WhitelistHookError {
    /// Caller is not authorized for the requested operation.
    Unauthorized,
    /// The queried hook identifier is not in the approved set.
    HookNotWhitelisted,
    /// The proposal has already been finalized.
    ProposalInactive,
    /// The voting window has elapsed, so votes are no longer accepted.
    VotingPeriodEnded,
    /// The voting window has not yet elapsed, so finalization is rejected.
    VotingPeriodActive,
    /// The presented token account is not for the weighting token.
    InvalidTokenAccount,
    /// The presented token account is not owned by the voter.
    InvalidTokenOwner,
    /// A proposal with the same id already exists.
    DuplicateProposal,
    /// The whitelist singleton has already been created.
    AlreadyInitialized,
    /// A bounded collection is full.
    CapacityExceeded,
}

} // verus!
