//! Engine-wide laws, proved over the governance model.

use vstd::prelude::*;
use crate::consts::MAX_PROPOSALS;
use crate::engine::{
    spec_balance_of, spec_check, spec_finalize, spec_propose, spec_vote, vote_fits,
    GovernanceView,
};
use crate::errors::WhitelistHookError;
use crate::events::HookApproved;
use crate::states::{
    has_proposal, proposal_index, proposal_of, tally_approved, unique_ids, window_elapsed,
    HookProposal, Pubkey, TokenAccountInfo,
};

verus! {

/// Updating one stored proposal without changing its id moves no other
/// record: a lookup finds the new record under its id and every other id
/// resolves as before.
proof fn lemma_proposal_of_update(s: Seq<HookProposal>, i: int, p: HookProposal, id: u64)
    requires
        unique_ids(s),
        0 <= i < s.len(),
        p.id == s[i].id,
        has_proposal(s, id),
    ensures
        has_proposal(s.update(i, p), id),
        proposal_of(s.update(i, p), id) == (if s[i].id == id {
            p
        } else {
            proposal_of(s, id)
        }),
{
    let s2 = s.update(i, p);
    let j = proposal_index(s, id);
    assert(0 <= j < s.len() && s[j].id == id);
    assert(s2[j].id == id);
    assert(has_proposal(s2, id));
    let j2 = proposal_index(s2, id);
    assert(0 <= j2 < s2.len() && s2[j2].id == id);
    assert(j2 == j) by {
        if j2 != j {
            if j2 != i && j != i {
                if j2 < j {
                    assert(s[j2].id != s[j].id);
                } else {
                    assert(s[j].id != s[j2].id);
                }
            } else if j2 == i {
                if j < i {
                    assert(s[j].id != s[i].id);
                } else {
                    assert(s[i].id != s[j].id);
                }
            } else {
                if j2 < i {
                    assert(s[j2].id != s[i].id);
                } else {
                    assert(s[i].id != s[j2].id);
                }
            }
        }
    }
}

/// Storing a record under a fresh id leaves every existing lookup as it
/// was.
proof fn lemma_proposal_of_push(s: Seq<HookProposal>, p: HookProposal, id: u64)
    requires
        unique_ids(s),
        !has_proposal(s, p.id),
        has_proposal(s, id),
    ensures
        has_proposal(s.push(p), id),
        proposal_of(s.push(p), id) == proposal_of(s, id),
{
    let s2 = s.push(p);
    let j = proposal_index(s, id);
    assert(0 <= j < s.len() && s[j].id == id);
    assert(s2[j].id == id);
    assert(has_proposal(s2, id));
    let j2 = proposal_index(s2, id);
    assert(0 <= j2 < s2.len() && s2[j2].id == id);
    assert(j2 == j) by {
        if j2 != j {
            if j2 == s.len() {
                assert(s2[j2] == p);
                assert(has_proposal(s, p.id));
            } else if j2 < j {
                assert(s[j2].id != s[j].id);
            } else {
                assert(s[j].id != s[j2].id);
            }
        }
    }
}

/// Closing is terminal: once a proposal's active flag is false, no engine
/// operation — another propose, any vote, another finalize, on this or any
/// other stored id — makes it true again.
pub proof fn lemma_closed_is_terminal(
    v: GovernanceView,
    id: u64,
    id2: u64,
    hook_id2: Pubkey,
    audit_hash2: [u8; 32],
    proposer2: Pubkey,
    acct: TokenAccountInfo,
    voter: Pubkey,
    vote_mint: Pubkey,
    vote_for: bool,
    now: i64,
)
    requires
        v.wf(),
        has_proposal(v.proposals, id),
        !proposal_of(v.proposals, id).active,
    ensures
        !proposal_of(
            spec_propose(v, id2, hook_id2, audit_hash2, proposer2, now).0.proposals,
            id,
        ).active,
        has_proposal(v.proposals, id2) ==> !proposal_of(
            spec_vote(v, id2, acct, voter, vote_mint, vote_for, now).0.proposals,
            id,
        ).active,
        has_proposal(v.proposals, id2) ==> !proposal_of(
            spec_finalize(v, id2, now).0.proposals,
            id,
        ).active,
{
    if !has_proposal(v.proposals, id2) && v.wl().proposals.len() < MAX_PROPOSALS {
        let p = HookProposal {
            hook_id: hook_id2,
            audit_hash: audit_hash2,
            votes_for: 0,
            votes_against: 0,
            proposer: proposer2,
            active: true,
            id: id2,
            created_at: now,
        };
        lemma_proposal_of_push(v.proposals, p, id);
    }
    if has_proposal(v.proposals, id2) {
        let idx2 = proposal_index(v.proposals, id2);
        let p2 = v.proposals[idx2];
        let rv = spec_vote(v, id2, acct, voter, vote_mint, vote_for, now).1;
        if rv is Ok {
            let w = spec_balance_of(acct, voter, vote_mint)->Ok_0;
            let p2new = if vote_for {
                HookProposal { votes_for: (p2.votes_for + w) as u64, ..p2 }
            } else {
                HookProposal { votes_against: (p2.votes_against + w) as u64, ..p2 }
            };
            lemma_proposal_of_update(v.proposals, idx2, p2new, id);
        }
        let (vf, rf) = spec_finalize(v, id2, now);
        if rf is Ok {
            lemma_proposal_of_update(v.proposals, idx2, HookProposal { active: false, ..p2 }, id);
        }
    }
}

/// A proposal id is registered exactly once: with a fresh id (and room left
/// in the registered-id set) propose succeeds, and any later propose with
/// the same id, whatever its other arguments, fails with `DuplicateProposal`
/// and changes nothing.
pub proof fn lemma_propose_exactly_once(
    v: GovernanceView,
    proposal_id: u64,
    hook_id: Pubkey,
    audit_hash: [u8; 32],
    proposer: Pubkey,
    now: i64,
    hook_id2: Pubkey,
    audit_hash2: [u8; 32],
    proposer2: Pubkey,
    now2: i64,
)
    requires
        v.wf(),
        v.initialized(),
        !has_proposal(v.proposals, proposal_id),
        v.wl().proposals.len() < MAX_PROPOSALS,
    ensures
        spec_propose(v, proposal_id, hook_id, audit_hash, proposer, now).1 == Ok::<
            (),
            WhitelistHookError,
        >(()),
        spec_propose(
            spec_propose(v, proposal_id, hook_id, audit_hash, proposer, now).0,
            proposal_id,
            hook_id2,
            audit_hash2,
            proposer2,
            now2,
        ) == (
            spec_propose(v, proposal_id, hook_id, audit_hash, proposer, now).0,
            Err::<(), WhitelistHookError>(WhitelistHookError::DuplicateProposal),
        ),
{
    let v1 = spec_propose(v, proposal_id, hook_id, audit_hash, proposer, now).0;
    assert(v1.proposals[v.proposals.len() as int].id == proposal_id);
    assert(has_proposal(v1.proposals, proposal_id));
}

/// Before the window end a vote on an open proposal moves exactly one tally,
/// by exactly the weight the oracle reports, and touches nothing else; at or
/// after the window end it fails with `VotingPeriodEnded` whatever the
/// active flag says, changing nothing.
pub proof fn lemma_vote_window(
    v: GovernanceView,
    proposal_id: u64,
    acct: TokenAccountInfo,
    voter: Pubkey,
    vote_mint: Pubkey,
    vote_for: bool,
    now: i64,
)
    requires
        v.wf(),
        has_proposal(v.proposals, proposal_id),
        spec_balance_of(acct, voter, vote_mint) is Ok,
        vote_fits(v, proposal_id, acct, voter, vote_mint, vote_for, now),
    ensures
        window_elapsed(proposal_of(v.proposals, proposal_id), now) ==> spec_vote(
            v,
            proposal_id,
            acct,
            voter,
            vote_mint,
            vote_for,
            now,
        ) == (v, Err::<(), WhitelistHookError>(WhitelistHookError::VotingPeriodEnded)),
        ({
            let p = proposal_of(v.proposals, proposal_id);
            let weight = spec_balance_of(acct, voter, vote_mint)->Ok_0;
            let (v2, r) = spec_vote(v, proposal_id, acct, voter, vote_mint, vote_for, now);
            let p2 = proposal_of(v2.proposals, proposal_id);
            !window_elapsed(p, now) && p.active ==> {
                &&& r == Ok::<(), WhitelistHookError>(())
                &&& p2.votes_for == p.votes_for + (if vote_for { weight as int } else { 0 })
                &&& p2.votes_against == p.votes_against + (
                    if vote_for { 0 } else { weight as int }
                )
                &&& p2.hook_id == p.hook_id
                &&& p2.audit_hash == p.audit_hash
                &&& p2.proposer == p.proposer
                &&& p2.active == p.active
                &&& p2.id == p.id
                &&& p2.created_at == p.created_at
                &&& v2.whitelist == v.whitelist
                &&& v2.proposals.len() == v.proposals.len()
                &&& forall|k: int|
                    0 <= k < v.proposals.len() && k != proposal_index(v.proposals, proposal_id)
                        ==> v2.proposals[k] == v.proposals[k]
            }
        }),
{
    let p = proposal_of(v.proposals, proposal_id);
    let idx = proposal_index(v.proposals, proposal_id);
    if !window_elapsed(p, now) && p.active {
        let (v2, r) = spec_vote(v, proposal_id, acct, voter, vote_mint, vote_for, now);
        assert(v2.proposals[idx].id == proposal_id);
        assert(has_proposal(v2.proposals, proposal_id));
        let idx2 = proposal_index(v2.proposals, proposal_id);
        assert(0 <= idx2 < v2.proposals.len() && v2.proposals[idx2].id == proposal_id);
        assert(idx2 == idx) by {
            if idx2 != idx {
                assert(v2.proposals[idx2] == v.proposals[idx2]);
                if idx2 < idx {
                    assert(v.proposals[idx2].id != v.proposals[idx].id);
                } else {
                    assert(v.proposals[idx].id != v.proposals[idx2].id);
                }
            }
        }
    }
}

/// Finalizing before the window end always fails with `VotingPeriodActive`,
/// whatever the active flag says, and changes nothing.
pub proof fn lemma_finalize_early(v: GovernanceView, proposal_id: u64, now: i64)
    requires
        v.wf(),
        has_proposal(v.proposals, proposal_id),
        !window_elapsed(proposal_of(v.proposals, proposal_id), now),
    ensures
        spec_finalize(v, proposal_id, now) == (
            v,
            Err::<Option<HookApproved>, WhitelistHookError>(
                WhitelistHookError::VotingPeriodActive,
            ),
        ),
{
}

/// Finalizing an already-closed proposal (every closed proposal has an
/// elapsed window) fails with `ProposalInactive` and changes nothing:
/// closing is terminal.
pub proof fn lemma_finalize_closed(v: GovernanceView, proposal_id: u64, now: i64)
    requires
        v.wf(),
        has_proposal(v.proposals, proposal_id),
        window_elapsed(proposal_of(v.proposals, proposal_id), now),
        !proposal_of(v.proposals, proposal_id).active,
    ensures
        spec_finalize(v, proposal_id, now) == (
            v,
            Err::<Option<HookApproved>, WhitelistHookError>(WhitelistHookError::ProposalInactive),
        ),
{
}

/// A tie never approves: the decision rule asks for strictly more votes for
/// than against, so finalizing a tied proposal closes it with no
/// notification and leaves the whitelist untouched.
pub proof fn lemma_tie_no_approval(v: GovernanceView, proposal_id: u64, now: i64)
    requires
        v.wf(),
        has_proposal(v.proposals, proposal_id),
        window_elapsed(proposal_of(v.proposals, proposal_id), now),
        proposal_of(v.proposals, proposal_id).active,
        proposal_of(v.proposals, proposal_id).votes_for == proposal_of(
            v.proposals,
            proposal_id,
        ).votes_against,
    ensures
        !tally_approved(proposal_of(v.proposals, proposal_id), v.wl().vote_threshold),
        spec_finalize(v, proposal_id, now).1 == Ok::<Option<HookApproved>, WhitelistHookError>(
            None,
        ),
        spec_finalize(v, proposal_id, now).0.whitelist == v.whitelist,
{
}

/// Membership reads only the approved set: two states with the same
/// approved set answer every membership query alike, whatever their open,
/// expired or closed proposals look like.
pub proof fn lemma_check_reads_hooks_only(v1: GovernanceView, v2: GovernanceView, hook_id: Pubkey)
    requires
        v1.initialized(),
        v2.initialized(),
        v1.wl().hooks == v2.wl().hooks,
    ensures
        spec_check(v1, hook_id) == spec_check(v2, hook_id),
{
}

/// The read path is stable under everything but finalize: propose and vote
/// leave the approved set untouched, so repeated membership checks with no
/// intervening finalize return identical results.
pub proof fn lemma_check_stable_without_finalize(
    v: GovernanceView,
    proposal_id: u64,
    hook_id: Pubkey,
    audit_hash: [u8; 32],
    proposer: Pubkey,
    acct: TokenAccountInfo,
    voter: Pubkey,
    vote_mint: Pubkey,
    vote_for: bool,
    now: i64,
    query: Pubkey,
)
    requires
        v.initialized(),
    ensures
        spec_check(
            spec_propose(v, proposal_id, hook_id, audit_hash, proposer, now).0,
            query,
        ) == spec_check(v, query),
        spec_check(
            spec_vote(v, proposal_id, acct, voter, vote_mint, vote_for, now).0,
            query,
        ) == spec_check(v, query),
{
}

} // verus!
