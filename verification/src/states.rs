//! Persistent governance records and their mathematical models.

use vstd::prelude::*;
use crate::consts::VOTING_WINDOW;

verus! {

/// A 32-byte account or program identifier.
#[derive(Clone, Copy, Debug, PartialEq, Eq)]
pub struct Pubkey {
    pub bytes: [u8; 32],
}

impl Pubkey {
    /// Byte-wise equality of two identifiers.
    pub fn key_eq(&self, other: &Pubkey) -> (r: bool)
        ensures
            r == (*self == *other),
    {
        broadcast use vstd::array::group_array_axioms;

        let mut i: usize = 0;
        while i < 32
            invariant
                i <= 32,
                forall|j: int| 0 <= j < i ==> self.bytes[j] == other.bytes[j],
            decreases 32 - i,
        {
            if self.bytes[i] != other.bytes[i] {
                return false;
            }
            i += 1;
        }
        proof {
            assert(self.bytes =~= other.bytes);
        }
        true
    }
}

/// What the balance oracle reads from a voter's token account: the token
/// kind it holds, the account owner, and the current balance.
#[derive(Clone, Copy, Debug, PartialEq, Eq)]
pub struct TokenAccountInfo {
    pub mint: Pubkey,
    pub owner: Pubkey,
    pub amount: u64,
}

/// One proposal record, keyed by `id`. Created by propose, mutated by vote
/// while open, closed exactly once by finalize.
#[derive(Clone, Copy, Debug, PartialEq, Eq)]
pub struct HookProposal {
    pub hook_id: Pubkey,
    pub audit_hash: [u8; 32],
    pub votes_for: u64,
    pub votes_against: u64,
    pub proposer: Pubkey,
    pub active: bool,
    pub id: u64,
    pub created_at: i64,
}

/// The whitelist singleton: governance configuration plus the approved-hook
/// set and the registered-proposal-id set.
#[derive(Debug)]
pub struct Whitelist {
    pub admin: Pubkey,
    pub hooks: Vec<Pubkey>,
    pub proposals: Vec<u64>,
    pub vote_threshold: u64,
}

/// Mathematical model of a `Whitelist`.
#[verifier::ext_equal]
pub ghost struct WhitelistView {
    pub admin: Pubkey,
    pub hooks: Seq<Pubkey>,
    pub proposals: Seq<u64>,
    pub vote_threshold: u64,
}

impl View for Whitelist {
    type V = WhitelistView;

    open spec fn view(&self) -> WhitelistView {
        WhitelistView {
            admin: self.admin,
            hooks: self.hooks@,
            proposals: self.proposals@,
            vote_threshold: self.vote_threshold,
        }
    }
}

/// The instant the proposal's voting window closes.
pub open spec fn window_end(p: HookProposal) -> int {
    p.created_at + VOTING_WINDOW
}

/// Whether the voting window has fully elapsed at time `now`.
pub open spec fn window_elapsed(p: HookProposal, now: i64) -> bool {
    now >= window_end(p)
}

/// The approval decision rule: strictly more votes for than against, and the
/// votes for reach the threshold.
pub open spec fn tally_approved(p: HookProposal, threshold: u64) -> bool {
    p.votes_for > p.votes_against && p.votes_for >= threshold
}

/// A stored proposal's timestamp leaves room to compute its window end in
/// a 64-bit signed integer.
pub open spec fn proposal_wf(p: HookProposal) -> bool {
    p.created_at <= i64::MAX - VOTING_WINDOW
}

/// Whether some stored proposal carries the id.
pub open spec fn has_proposal(s: Seq<HookProposal>, id: u64) -> bool {
    exists|i: int| 0 <= i < s.len() && s[i].id == id
}

/// The index of the stored proposal carrying the id (unique when ids are).
pub open spec fn proposal_index(s: Seq<HookProposal>, id: u64) -> int {
    choose|i: int| 0 <= i < s.len() && s[i].id == id
}

/// The stored proposal carrying the id.
pub open spec fn proposal_of(s: Seq<HookProposal>, id: u64) -> HookProposal {
    s[proposal_index(s, id)]
}

/// The ids of the stored proposals, in insertion order.
pub open spec fn ids_of(s: Seq<HookProposal>) -> Seq<u64> {
    s.map_values(|p: HookProposal| p.id)
}

/// No two stored proposals share an id.
pub open spec fn unique_ids(s: Seq<HookProposal>) -> bool {
    forall|i: int, j: int| 0 <= i < j < s.len() ==> s[i].id != s[j].id
}

} // verus!
