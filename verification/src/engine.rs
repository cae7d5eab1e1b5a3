//! The governance engine: an explicit store handle and the operations on it.

use vstd::prelude::*;
use crate::consts::{DEFAULT_VOTE_THRESHOLD, MAX_HOOKS, MAX_PROPOSALS, VOTING_WINDOW};
use crate::errors::WhitelistHookError;
use crate::events::HookApproved;
use crate::states::{
    has_proposal, ids_of, proposal_index, proposal_of, proposal_wf, tally_approved, unique_ids,
    window_elapsed, HookProposal, Pubkey, TokenAccountInfo, Whitelist, WhitelistView,
};

verus! {

/// The store handle every operation works through: the whitelist singleton
/// (present only after initialization) and the keyed proposal store.
pub struct GovernanceState {
    pub initialized: bool,
    pub whitelist: Whitelist,
    pub proposals: Vec<HookProposal>,
}

/// Mathematical model of the governance store: the whitelist singleton in
/// its lifecycle (uninitialized or initialized) and the stored proposals.
#[verifier::ext_equal]
pub ghost struct GovernanceView {
    pub whitelist: Option<WhitelistView>,
    pub proposals: Seq<HookProposal>,
}

impl View for GovernanceState {
    type V = GovernanceView;

    open spec fn view(&self) -> GovernanceView {
        GovernanceView {
            whitelist: if self.initialized {
                Some(self.whitelist@)
            } else {
                None
            },
            proposals: self.proposals@,
        }
    }
}

impl GovernanceView {
    /// The whitelist singleton exists.
    pub open spec fn initialized(self) -> bool {
        self.whitelist is Some
    }

    /// The whitelist singleton (meaningful only once initialized).
    pub open spec fn wl(self) -> WhitelistView {
        self.whitelist->0
    }

    /// Store invariant: proposal ids are unique keys, stored timestamps
    /// leave room for window arithmetic, the whitelist's registered-id set
    /// lists exactly the stored proposals in insertion order, both bounded
    /// collections respect their capacity, and nothing is stored before
    /// initialization.
    pub open spec fn wf(self) -> bool {
        &&& unique_ids(self.proposals)
        &&& forall|i: int|
            0 <= i < self.proposals.len() ==> proposal_wf(#[trigger] self.proposals[i])
        &&& match self.whitelist {
            Some(w) => {
                &&& w.proposals == ids_of(self.proposals)
                &&& w.hooks.len() <= MAX_HOOKS
                &&& w.proposals.len() <= MAX_PROPOSALS
            },
            None => self.proposals.len() == 0,
        }
    }
}

/// Model of initialization: creates the singleton with empty sets and the
/// default threshold, or fails when it already exists.
pub open spec fn spec_initialize(
    v: GovernanceView,
    admin: Pubkey,
) -> (GovernanceView, Result<(), WhitelistHookError>) {
    if v.initialized() {
        (v, Err(WhitelistHookError::AlreadyInitialized))
    } else {
        (
            GovernanceView {
                whitelist: Some(
                    WhitelistView {
                        admin,
                        hooks: Seq::empty(),
                        proposals: Seq::empty(),
                        vote_threshold: DEFAULT_VOTE_THRESHOLD,
                    },
                ),
                proposals: v.proposals,
            },
            Ok(()),
        )
    }
}

/// Model of the balance oracle's binding check: the account must hold the
/// expected weighting token and belong to the expected owner; only then is
/// its balance reported as the voter's weight.
pub open spec fn spec_balance_of(
    acct: TokenAccountInfo,
    expected_owner: Pubkey,
    expected_mint: Pubkey,
) -> Result<u64, WhitelistHookError> {
    if acct.mint != expected_mint {
        Err(WhitelistHookError::InvalidTokenAccount)
    } else if acct.owner != expected_owner {
        Err(WhitelistHookError::InvalidTokenOwner)
    } else {
        Ok(acct.amount)
    }
}

/// Model of propose: fails with `DuplicateProposal` when the id is already
/// stored and with `CapacityExceeded` when the registered-id set is full;
/// otherwise stores a fresh active record with zero tallies, created at
/// `now`, and registers its id.
pub open spec fn spec_propose(
    v: GovernanceView,
    proposal_id: u64,
    hook_id: Pubkey,
    audit_hash: [u8; 32],
    proposer: Pubkey,
    now: i64,
) -> (GovernanceView, Result<(), WhitelistHookError>) {
    if has_proposal(v.proposals, proposal_id) {
        (v, Err(WhitelistHookError::DuplicateProposal))
    } else if v.wl().proposals.len() >= MAX_PROPOSALS {
        (v, Err(WhitelistHookError::CapacityExceeded))
    } else {
        let p = HookProposal {
            hook_id,
            audit_hash,
            votes_for: 0,
            votes_against: 0,
            proposer,
            active: true,
            id: proposal_id,
            created_at: now,
        };
        (
            GovernanceView {
                whitelist: Some(
                    WhitelistView { proposals: v.wl().proposals.push(proposal_id), ..v.wl() },
                ),
                proposals: v.proposals.push(p),
            },
            Ok(()),
        )
    }
}

/// Model of vote: the oracle's binding check is a hard rejection first;
/// then a vote after the window has elapsed fails with `VotingPeriodEnded`
/// whatever the active flag says, a vote on a closed proposal fails with
/// `ProposalInactive`, and otherwise the reported weight is added to exactly
/// one tally of the one stored proposal carrying the id.
pub open spec fn spec_vote(
    v: GovernanceView,
    proposal_id: u64,
    acct: TokenAccountInfo,
    voter: Pubkey,
    vote_mint: Pubkey,
    vote_for: bool,
    now: i64,
) -> (GovernanceView, Result<(), WhitelistHookError>) {
    let p = proposal_of(v.proposals, proposal_id);
    match spec_balance_of(acct, voter, vote_mint) {
        Err(e) => (v, Err(e)),
        Ok(weight) => if window_elapsed(p, now) {
            (v, Err(WhitelistHookError::VotingPeriodEnded))
        } else if !p.active {
            (v, Err(WhitelistHookError::ProposalInactive))
        } else {
            let p2 = if vote_for {
                HookProposal { votes_for: (p.votes_for + weight) as u64, ..p }
            } else {
                HookProposal { votes_against: (p.votes_against + weight) as u64, ..p }
            };
            (
                GovernanceView {
                    proposals: v.proposals.update(
                        proposal_index(v.proposals, proposal_id),
                        p2,
                    ),
                    ..v
                },
                Ok(()),
            )
        },
    }
}

/// The mutated tally of a successful vote stays within the 64-bit tally
/// field; trivially true whenever the vote is rejected.
pub open spec fn vote_fits(
    v: GovernanceView,
    proposal_id: u64,
    acct: TokenAccountInfo,
    voter: Pubkey,
    vote_mint: Pubkey,
    vote_for: bool,
    now: i64,
) -> bool {
    let p = proposal_of(v.proposals, proposal_id);
    match spec_balance_of(acct, voter, vote_mint) {
        Ok(weight) => !window_elapsed(p, now) && p.active ==> (if vote_for {
            p.votes_for + weight <= u64::MAX
        } else {
            p.votes_against + weight <= u64::MAX
        }),
        Err(_) => true,
    }
}

/// Model of finalize: rejected with `VotingPeriodActive` whenever the
/// window has not fully elapsed, and with `ProposalInactive` on a closed
/// proposal. Otherwise the decision rule runs exactly once: on approval the
/// hook id is appended to the approved set (`CapacityExceeded`, with no
/// change at all, when that set is full) and a notification is returned;
/// either way the proposal is closed for good.
pub open spec fn spec_finalize(
    v: GovernanceView,
    proposal_id: u64,
    now: i64,
) -> (GovernanceView, Result<Option<HookApproved>, WhitelistHookError>) {
    let p = proposal_of(v.proposals, proposal_id);
    if !window_elapsed(p, now) {
        (v, Err(WhitelistHookError::VotingPeriodActive))
    } else if !p.active {
        (v, Err(WhitelistHookError::ProposalInactive))
    } else {
        let appr = tally_approved(p, v.wl().vote_threshold);
        if appr && v.wl().hooks.len() >= MAX_HOOKS {
            (v, Err(WhitelistHookError::CapacityExceeded))
        } else {
            let closed = HookProposal { active: false, ..p };
            let v2 = GovernanceView {
                whitelist: if appr {
                    Some(WhitelistView { hooks: v.wl().hooks.push(p.hook_id), ..v.wl() })
                } else {
                    v.whitelist
                },
                proposals: v.proposals.update(proposal_index(v.proposals, proposal_id), closed),
            };
            let ev = if appr {
                Some(
                    HookApproved {
                        hook_id: p.hook_id,
                        proposal_id,
                        votes_for: p.votes_for,
                        votes_against: p.votes_against,
                    },
                )
            } else {
                None
            };
            (v2, Ok(ev))
        }
    }
}

/// Model of membership: whether the hook id is in the approved set.
pub open spec fn spec_check(v: GovernanceView, hook_id: Pubkey) -> bool {
    v.wl().hooks.contains(hook_id)
}

impl GovernanceState {
    /// A fresh store: no whitelist singleton yet, no proposals.
    pub fn new() -> (s: GovernanceState)
        ensures
            s@ == (GovernanceView { whitelist: None, proposals: Seq::<HookProposal>::empty() }),
            s@.wf(),
    {
        let s = GovernanceState {
            initialized: false,
            whitelist: Whitelist {
                admin: Pubkey { bytes: [0u8; 32] },
                hooks: Vec::new(),
                proposals: Vec::new(),
                vote_threshold: 0,
            },
            proposals: Vec::new(),
        };
        proof {
            assert(s@ =~= (GovernanceView {
                whitelist: None,
                proposals: Seq::<HookProposal>::empty(),
            }));
        }
        s
    }

    /// Creates the whitelist singleton for `admin` with empty approved and
    /// registered sets and the default vote threshold; fails with
    /// `AlreadyInitialized` (and changes nothing) when it already exists.
    pub fn initialize_whitelist(&mut self, admin: Pubkey) -> (r: Result<(), WhitelistHookError>)
        requires
            old(self)@.wf(),
        ensures
            final(self)@.wf(),
            final(self)@ == spec_initialize(old(self)@, admin).0,
            r == spec_initialize(old(self)@, admin).1,
    {
        let ghost pre = self@;
        if self.initialized {
            return Err(WhitelistHookError::AlreadyInitialized);
        }
        self.whitelist = Whitelist {
            admin,
            hooks: Vec::new(),
            proposals: Vec::new(),
            vote_threshold: DEFAULT_VOTE_THRESHOLD,
        };
        self.initialized = true;
        proof {
            assert(self@ =~= spec_initialize(pre, admin).0);
            assert(ids_of(pre.proposals) =~= Seq::<u64>::empty());
        }
        Ok(())
    }

    /// Index of the stored proposal carrying `proposal_id`, when one exists.
    fn find_proposal_index(&self, proposal_id: u64) -> (r: Option<usize>)
        requires
            unique_ids(self@.proposals),
        ensures
            match r {
                Some(i) => has_proposal(self@.proposals, proposal_id) && i
                    == proposal_index(self@.proposals, proposal_id),
                None => !has_proposal(self@.proposals, proposal_id),
            },
    {
        let mut i: usize = 0;
        while i < self.proposals.len()
            invariant
                unique_ids(self@.proposals),
                i <= self.proposals@.len(),
                forall|j: int| 0 <= j < i ==> self.proposals@[j].id != proposal_id,
            decreases self.proposals@.len() - i,
        {
            if self.proposals[i].id == proposal_id {
                proof {
                    assert(has_proposal(self@.proposals, proposal_id));
                    let j = proposal_index(self@.proposals, proposal_id);
                    assert(0 <= j < self@.proposals.len() && self@.proposals[j].id
                        == proposal_id);
                    assert(j == i) by {
                        if j < i {
                            assert(self@.proposals[j].id != self@.proposals[i as int].id);
                        } else if i < j {
                            assert(self@.proposals[i as int].id != self@.proposals[j].id);
                        }
                    }
                }
                return Some(i);
            }
            i += 1;
        }
        None
    }

    /// Creates an active proposal record for `hook_id` under the fresh key
    /// `proposal_id`, with zero tallies and `now` as its creation time, and
    /// registers the key; fails with `DuplicateProposal` when the key is
    /// taken and with `CapacityExceeded` when the registered-id set is full,
    /// in both cases changing nothing.
    pub fn propose_hook(
        &mut self,
        proposal_id: u64,
        hook_id: Pubkey,
        audit_hash: [u8; 32],
        proposer: Pubkey,
        now: i64,
    ) -> (r: Result<(), WhitelistHookError>)
        requires
            old(self)@.wf(),
            old(self)@.initialized(),
            now <= i64::MAX - VOTING_WINDOW,
        ensures
            final(self)@.wf(),
            final(self)@ == spec_propose(
                old(self)@,
                proposal_id,
                hook_id,
                audit_hash,
                proposer,
                now,
            ).0,
            r == spec_propose(old(self)@, proposal_id, hook_id, audit_hash, proposer, now).1,
    {
        let ghost pre = self@;
        if self.find_proposal_index(proposal_id).is_some() {
            return Err(WhitelistHookError::DuplicateProposal);
        }
        if self.whitelist.proposals.len() >= MAX_PROPOSALS {
            return Err(WhitelistHookError::CapacityExceeded);
        }
        let p = HookProposal {
            hook_id,
            audit_hash,
            votes_for: 0,
            votes_against: 0,
            proposer,
            active: true,
            id: proposal_id,
            created_at: now,
        };
        self.proposals.push(p);
        self.whitelist.proposals.push(proposal_id);
        proof {
            assert(self@ =~= spec_propose(pre, proposal_id, hook_id, audit_hash, proposer, now).0);
            assert(ids_of(self@.proposals) =~= ids_of(pre.proposals).push(proposal_id));
            assert(unique_ids(self@.proposals)) by {
                assert(forall|j: int|
                    0 <= j < pre.proposals.len() ==> (#[trigger] pre.proposals[j]).id
                        != proposal_id);
            }
        }
        Ok(())
    }

    /// Adds the weight the balance oracle reports for `voter` to exactly one
    /// tally of the proposal under `proposal_id`: votes-for when `vote_for`,
    /// votes-against otherwise. The oracle's binding failures are hard
    /// rejections before any mutation; a vote at or after the window end
    /// fails with `VotingPeriodEnded` whatever the active flag says, and one
    /// on a closed proposal fails with `ProposalInactive`; nothing changes
    /// on any failure.
    pub fn vote_hook(
        &mut self,
        proposal_id: u64,
        voter_token_account: &TokenAccountInfo,
        voter: &Pubkey,
        vote_mint: &Pubkey,
        vote_for: bool,
        now: i64,
    ) -> (r: Result<(), WhitelistHookError>)
        requires
            old(self)@.wf(),
            has_proposal(old(self)@.proposals, proposal_id),
            vote_fits(
                old(self)@,
                proposal_id,
                *voter_token_account,
                *voter,
                *vote_mint,
                vote_for,
                now,
            ),
        ensures
            final(self)@.wf(),
            final(self)@ == spec_vote(
                old(self)@,
                proposal_id,
                *voter_token_account,
                *voter,
                *vote_mint,
                vote_for,
                now,
            ).0,
            r == spec_vote(
                old(self)@,
                proposal_id,
                *voter_token_account,
                *voter,
                *vote_mint,
                vote_for,
                now,
            ).1,
    {
        let ghost pre = self@;
        let idx = self.find_proposal_index(proposal_id).unwrap();
        let weight = match balance_of(voter_token_account, voter, vote_mint) {
            Ok(w) => w,
            Err(e) => {
                return Err(e);
            },
        };
        let p = self.proposals[idx];
        proof {
            assert(proposal_wf(pre.proposals[idx as int]));
        }
        if now >= p.created_at + VOTING_WINDOW {
            return Err(WhitelistHookError::VotingPeriodEnded);
        }
        if !p.active {
            return Err(WhitelistHookError::ProposalInactive);
        }
        let mut p2 = p;
        if vote_for {
            p2.votes_for = p.votes_for + weight;
        } else {
            p2.votes_against = p.votes_against + weight;
        }
        self.proposals[idx] = p2;
        proof {
            assert(self@ =~= spec_vote(
                pre,
                proposal_id,
                *voter_token_account,
                *voter,
                *vote_mint,
                vote_for,
                now,
            ).0);
            assert(ids_of(self@.proposals) =~= ids_of(pre.proposals));
        }
        Ok(())
    }

    /// Runs the decision rule exactly once, after the voting window: on
    /// approval (strictly more votes for than against, reaching the
    /// threshold) appends the hook id to the approved set and returns the
    /// notification; either way closes the proposal for good. Before the
    /// window end it fails with `VotingPeriodActive`, on a closed proposal
    /// with `ProposalInactive`, and on a full approved set with
    /// `CapacityExceeded`; nothing changes on any failure.
    pub fn finalize_proposal(&mut self, proposal_id: u64, now: i64) -> (r: Result<
        Option<HookApproved>,
        WhitelistHookError,
    >)
        requires
            old(self)@.wf(),
            old(self)@.initialized(),
            has_proposal(old(self)@.proposals, proposal_id),
        ensures
            final(self)@.wf(),
            final(self)@ == spec_finalize(old(self)@, proposal_id, now).0,
            r == spec_finalize(old(self)@, proposal_id, now).1,
    {
        let ghost pre = self@;
        let idx = self.find_proposal_index(proposal_id).unwrap();
        let p = self.proposals[idx];
        proof {
            assert(proposal_wf(pre.proposals[idx as int]));
        }
        if now < p.created_at + VOTING_WINDOW {
            return Err(WhitelistHookError::VotingPeriodActive);
        }
        if !p.active {
            return Err(WhitelistHookError::ProposalInactive);
        }
        let approved = p.votes_for > p.votes_against && p.votes_for
            >= self.whitelist.vote_threshold;
        if approved && self.whitelist.hooks.len() >= MAX_HOOKS {
            return Err(WhitelistHookError::CapacityExceeded);
        }
        if approved {
            self.whitelist.hooks.push(p.hook_id);
        }
        let mut closed = p;
        closed.active = false;
        self.proposals[idx] = closed;
        proof {
            assert(self@ =~= spec_finalize(pre, proposal_id, now).0);
            assert(ids_of(self@.proposals) =~= ids_of(pre.proposals));
        }
        if approved {
            Ok(
                Some(
                    HookApproved {
                        hook_id: p.hook_id,
                        proposal_id,
                        votes_for: p.votes_for,
                        votes_against: p.votes_against,
                    },
                ),
            )
        } else {
            Ok(None)
        }
    }

    /// Pure read for the market maker: whether `hook_id` is in the approved
    /// set. Reads nothing but the whitelist's approved set, so it is
    /// unaffected by any proposal's open or closed state.
    pub fn check_hook(&self, hook_id: &Pubkey) -> (r: bool)
        requires
            self@.initialized(),
        ensures
            r == spec_check(self@, *hook_id),
    {
        let mut i: usize = 0;
        while i < self.whitelist.hooks.len()
            invariant
                self@.initialized(),
                i <= self.whitelist.hooks@.len(),
                forall|j: int| 0 <= j < i ==> self.whitelist.hooks@[j] != *hook_id,
            decreases self.whitelist.hooks@.len() - i,
        {
            if self.whitelist.hooks[i].key_eq(hook_id) {
                return true;
            }
            i += 1;
        }
        false
    }
}

/// The balance oracle's binding check: rejects an account for the wrong
/// token kind or the wrong owner, and otherwise reports its balance as the
/// voter's weight.
pub fn balance_of(
    acct: &TokenAccountInfo,
    expected_owner: &Pubkey,
    expected_mint: &Pubkey,
) -> (r: Result<u64, WhitelistHookError>)
    ensures
        r == spec_balance_of(*acct, *expected_owner, *expected_mint),
{
    if !acct.mint.key_eq(expected_mint) {
        Err(WhitelistHookError::InvalidTokenAccount)
    } else if !acct.owner.key_eq(expected_owner) {
        Err(WhitelistHookError::InvalidTokenOwner)
    } else {
        Ok(acct.amount)
    }
}

} // verus!
