//! Notifications emitted by the governance engine.

use vstd::prelude::*;
use crate::states::Pubkey;

verus! {

/// Emitted by a successful finalization whose tally met the approval rule;
/// carries the approved hook and the final tallies.
#[derive(Clone, Copy, Debug, PartialEq, Eq)]
pub struct HookApproved {
    pub hook_id: Pubkey,
    pub proposal_id: u64,
    pub votes_for: u64,
    pub votes_against: u64,
}

} // verus!
