use permit_hook::consts::{DEFAULT_VOTE_THRESHOLD, MAX_HOOKS, MAX_PROPOSALS, VOTING_WINDOW};
use permit_hook::engine::{balance_of, GovernanceState};
use permit_hook::errors::WhitelistHookError;
use permit_hook::events::HookApproved;
use permit_hook::states::{HookProposal, Pubkey, TokenAccountInfo, Whitelist};

fn key(b: u8) -> Pubkey {
    Pubkey { bytes: [b; 32] }
}

fn account(mint: Pubkey, owner: Pubkey, amount: u64) -> TokenAccountInfo {
    TokenAccountInfo { mint, owner, amount }
}

/// A state with the whitelist initialized and one proposal for `hook` under
/// id 7, created at time 0.
fn one_proposal_state(hook: Pubkey) -> GovernanceState {
    let mut s = GovernanceState::new();
    s.initialize_whitelist(key(1)).unwrap();
    s.propose_hook(7, hook, [0xAB; 32], key(2), 0).unwrap();
    s
}

#[test]
fn initialize_sets_defaults() {
    let mut s = GovernanceState::new();
    assert!(!s.initialized);
    assert_eq!(s.initialize_whitelist(key(1)), Ok(()));
    assert!(s.initialized);
    assert_eq!(s.whitelist.admin, key(1));
    assert_eq!(s.whitelist.vote_threshold, DEFAULT_VOTE_THRESHOLD);
    assert!(s.whitelist.hooks.is_empty());
    assert!(s.whitelist.proposals.is_empty());
}

#[test]
fn initialize_twice_fails() {
    let mut s = GovernanceState::new();
    assert_eq!(s.initialize_whitelist(key(1)), Ok(()));
    assert_eq!(
        s.initialize_whitelist(key(9)),
        Err(WhitelistHookError::AlreadyInitialized)
    );
    // The singleton is untouched by the failed call.
    assert_eq!(s.whitelist.admin, key(1));
}

#[test]
fn propose_creates_record_and_registers_id() {
    let s = one_proposal_state(key(5));
    assert_eq!(s.proposals.len(), 1);
    let p = &s.proposals[0];
    assert_eq!(p.id, 7);
    assert_eq!(p.hook_id, key(5));
    assert_eq!(p.audit_hash, [0xAB; 32]);
    assert_eq!(p.votes_for, 0);
    assert_eq!(p.votes_against, 0);
    assert_eq!(p.proposer, key(2));
    assert!(p.active);
    assert_eq!(p.created_at, 0);
    assert_eq!(s.whitelist.proposals, vec![7]);
}

#[test]
fn propose_duplicate_id_fails() {
    let mut s = one_proposal_state(key(5));
    assert_eq!(
        s.propose_hook(7, key(6), [0; 32], key(3), 50),
        Err(WhitelistHookError::DuplicateProposal)
    );
    assert_eq!(s.proposals.len(), 1);
    assert_eq!(s.proposals[0].hook_id, key(5));
    assert_eq!(s.whitelist.proposals, vec![7]);
}

#[test]
fn propose_beyond_capacity_fails() {
    let mut s = GovernanceState::new();
    s.initialize_whitelist(key(1)).unwrap();
    for id in 0..MAX_PROPOSALS as u64 {
        assert_eq!(s.propose_hook(id, key(5), [0; 32], key(2), 0), Ok(()));
    }
    assert_eq!(
        s.propose_hook(MAX_PROPOSALS as u64, key(5), [0; 32], key(2), 0),
        Err(WhitelistHookError::CapacityExceeded)
    );
    assert_eq!(s.proposals.len(), MAX_PROPOSALS);
}

#[test]
fn vote_for_adds_oracle_weight() {
    let mut s = one_proposal_state(key(5));
    let mint = key(3);
    let voter = key(4);
    let acct = account(mint, voter, 250);
    assert_eq!(s.vote_hook(7, &acct, &voter, &mint, true, 10), Ok(()));
    assert_eq!(s.proposals[0].votes_for, 250);
    assert_eq!(s.proposals[0].votes_against, 0);
}

#[test]
fn vote_against_adds_oracle_weight() {
    let mut s = one_proposal_state(key(5));
    let mint = key(3);
    let voter = key(4);
    let acct = account(mint, voter, 99);
    assert_eq!(s.vote_hook(7, &acct, &voter, &mint, false, 10), Ok(()));
    assert_eq!(s.proposals[0].votes_for, 0);
    assert_eq!(s.proposals[0].votes_against, 99);
}

#[test]
fn repeated_votes_resample_balance() {
    let mut s = one_proposal_state(key(5));
    let mint = key(3);
    let voter = key(4);
    assert_eq!(
        s.vote_hook(7, &account(mint, voter, 100), &voter, &mint, true, 10),
        Ok(())
    );
    assert_eq!(
        s.vote_hook(7, &account(mint, voter, 40), &voter, &mint, true, 20),
        Ok(())
    );
    assert_eq!(s.proposals[0].votes_for, 140);
}

#[test]
fn vote_with_wrong_mint_fails() {
    let mut s = one_proposal_state(key(5));
    let voter = key(4);
    let acct = account(key(8), voter, 250);
    assert_eq!(
        s.vote_hook(7, &acct, &voter, &key(3), true, 10),
        Err(WhitelistHookError::InvalidTokenAccount)
    );
    assert_eq!(s.proposals[0].votes_for, 0);
    assert_eq!(s.proposals[0].votes_against, 0);
}

#[test]
fn vote_with_wrong_owner_fails() {
    let mut s = one_proposal_state(key(5));
    let mint = key(3);
    let acct = account(mint, key(8), 250);
    assert_eq!(
        s.vote_hook(7, &acct, &key(4), &mint, false, 10),
        Err(WhitelistHookError::InvalidTokenOwner)
    );
    assert_eq!(s.proposals[0].votes_for, 0);
    assert_eq!(s.proposals[0].votes_against, 0);
}

#[test]
fn vote_just_before_window_end_counts() {
    let mut s = one_proposal_state(key(5));
    let mint = key(3);
    let voter = key(4);
    let acct = account(mint, voter, 1);
    assert_eq!(
        s.vote_hook(7, &acct, &voter, &mint, true, VOTING_WINDOW - 1),
        Ok(())
    );
    assert_eq!(s.proposals[0].votes_for, 1);
}

#[test]
fn vote_at_window_end_fails() {
    let mut s = one_proposal_state(key(5));
    let mint = key(3);
    let voter = key(4);
    let acct = account(mint, voter, 1);
    assert_eq!(
        s.vote_hook(7, &acct, &voter, &mint, true, VOTING_WINDOW),
        Err(WhitelistHookError::VotingPeriodEnded)
    );
    assert_eq!(s.proposals[0].votes_for, 0);
}

#[test]
fn vote_after_window_fails_even_on_closed_proposal() {
    let mut s = one_proposal_state(key(5));
    s.finalize_proposal(7, VOTING_WINDOW).unwrap();
    assert!(!s.proposals[0].active);
    let mint = key(3);
    let voter = key(4);
    let acct = account(mint, voter, 1);
    assert_eq!(
        s.vote_hook(7, &acct, &voter, &mint, true, VOTING_WINDOW + 5),
        Err(WhitelistHookError::VotingPeriodEnded)
    );
}

#[test]
fn vote_on_inactive_proposal_within_window_fails() {
    // Not reachable through the engine (closing needs an elapsed window),
    // but the rejection order still reports the closed proposal.
    let mut s = GovernanceState::new();
    s.initialize_whitelist(key(1)).unwrap();
    s.whitelist.proposals.push(7);
    s.proposals.push(HookProposal {
        hook_id: key(5),
        audit_hash: [0; 32],
        votes_for: 0,
        votes_against: 0,
        proposer: key(2),
        active: false,
        id: 7,
        created_at: 0,
    });
    let mint = key(3);
    let voter = key(4);
    let acct = account(mint, voter, 1);
    assert_eq!(
        s.vote_hook(7, &acct, &voter, &mint, true, 10),
        Err(WhitelistHookError::ProposalInactive)
    );
}

#[test]
fn finalize_before_window_end_fails_without_mutation() {
    let mut s = one_proposal_state(key(5));
    let mint = key(3);
    let voter = key(4);
    let acct = account(mint, voter, DEFAULT_VOTE_THRESHOLD);
    s.vote_hook(7, &acct, &voter, &mint, true, 10).unwrap();
    assert_eq!(
        s.finalize_proposal(7, VOTING_WINDOW - 1),
        Err(WhitelistHookError::VotingPeriodActive)
    );
    assert!(s.proposals[0].active);
    assert_eq!(s.proposals[0].votes_for, DEFAULT_VOTE_THRESHOLD);
    assert!(s.whitelist.hooks.is_empty());
}

#[test]
fn finalize_at_threshold_approves_and_notifies() {
    let mut s = one_proposal_state(key(5));
    let mint = key(3);
    let voter = key(4);
    let acct = account(mint, voter, 1_000_000_000);
    s.vote_hook(7, &acct, &voter, &mint, true, 10).unwrap();
    let r = s.finalize_proposal(7, VOTING_WINDOW);
    assert_eq!(
        r,
        Ok(Some(HookApproved {
            hook_id: key(5),
            proposal_id: 7,
            votes_for: 1_000_000_000,
            votes_against: 0,
        }))
    );
    assert_eq!(s.whitelist.hooks, vec![key(5)]);
    assert!(!s.proposals[0].active);
    assert!(s.check_hook(&key(5)));
}

#[test]
fn finalize_one_below_threshold_closes_without_approval() {
    let mut s = one_proposal_state(key(5));
    let mint = key(3);
    let voter = key(4);
    let acct = account(mint, voter, 999_999_999);
    s.vote_hook(7, &acct, &voter, &mint, true, 10).unwrap();
    let r = s.finalize_proposal(7, VOTING_WINDOW);
    assert_eq!(r, Ok(None));
    assert!(s.whitelist.hooks.is_empty());
    assert!(!s.proposals[0].active);
    assert!(!s.check_hook(&key(5)));
}

#[test]
fn finalize_tie_never_approves() {
    let mut s = one_proposal_state(key(5));
    let mint = key(3);
    let voter = key(4);
    let acct = account(mint, voter, 2_000_000_000);
    s.vote_hook(7, &acct, &voter, &mint, true, 10).unwrap();
    s.vote_hook(7, &acct, &voter, &mint, false, 11).unwrap();
    let r = s.finalize_proposal(7, VOTING_WINDOW);
    assert_eq!(r, Ok(None));
    assert!(s.whitelist.hooks.is_empty());
    assert!(!s.proposals[0].active);
}

#[test]
fn finalize_twice_fails_and_leaves_state_unchanged() {
    let mut s = one_proposal_state(key(5));
    let mint = key(3);
    let voter = key(4);
    let acct = account(mint, voter, DEFAULT_VOTE_THRESHOLD);
    s.vote_hook(7, &acct, &voter, &mint, true, 10).unwrap();
    assert_eq!(s.finalize_proposal(7, VOTING_WINDOW).is_ok(), true);
    assert_eq!(
        s.finalize_proposal(7, VOTING_WINDOW + 100),
        Err(WhitelistHookError::ProposalInactive)
    );
    // One approval, not two, and the record is still closed.
    assert_eq!(s.whitelist.hooks, vec![key(5)]);
    assert!(!s.proposals[0].active);
}

#[test]
fn finalize_on_full_approved_set_fails() {
    let mut s = GovernanceState::new();
    s.initialize_whitelist(key(1)).unwrap();
    let mint = key(3);
    let voter = key(4);
    let acct = account(mint, voter, DEFAULT_VOTE_THRESHOLD);
    for id in 0..=MAX_HOOKS as u64 {
        s.propose_hook(id, key(100 + id as u8), [0; 32], key(2), 0)
            .unwrap();
        s.vote_hook(id, &acct, &voter, &mint, true, 10).unwrap();
    }
    for id in 0..MAX_HOOKS as u64 {
        assert!(s.finalize_proposal(id, VOTING_WINDOW).is_ok());
    }
    assert_eq!(s.whitelist.hooks.len(), MAX_HOOKS);
    assert_eq!(
        s.finalize_proposal(MAX_HOOKS as u64, VOTING_WINDOW),
        Err(WhitelistHookError::CapacityExceeded)
    );
    // The rejected finalization changed nothing: the proposal is still open.
    assert!(s.proposals[MAX_HOOKS].active);
    assert_eq!(s.whitelist.hooks.len(), MAX_HOOKS);
}

#[test]
fn check_membership_sees_only_the_approved_set() {
    let mut s = one_proposal_state(key(5));
    // A hook with an open proposal is not yet approved.
    assert!(!s.check_hook(&key(5)));
    let mint = key(3);
    let voter = key(4);
    let acct = account(mint, voter, DEFAULT_VOTE_THRESHOLD);
    s.vote_hook(7, &acct, &voter, &mint, true, 10).unwrap();
    s.finalize_proposal(7, VOTING_WINDOW).unwrap();
    assert!(s.check_hook(&key(5)));
    // Other ids stay out.
    assert!(!s.check_hook(&key(6)));
    assert!(!s.check_hook(&key(1)));
}

#[test]
fn check_membership_is_idempotent_between_finalizations() {
    let mut s = one_proposal_state(key(5));
    let first = s.check_hook(&key(5));
    let mint = key(3);
    let voter = key(4);
    let acct = account(mint, voter, 10);
    s.vote_hook(7, &acct, &voter, &mint, true, 10).unwrap();
    s.propose_hook(8, key(6), [0; 32], key(2), 0).unwrap();
    // Votes and new proposals between reads do not change the answer.
    assert_eq!(s.check_hook(&key(5)), first);
    assert_eq!(s.check_hook(&key(5)), first);
}

#[test]
fn balance_oracle_binding_checks() {
    let mint = key(3);
    let owner = key(4);
    let acct = account(mint, owner, 777);
    assert_eq!(balance_of(&acct, &owner, &mint), Ok(777));
    assert_eq!(
        balance_of(&acct, &owner, &key(9)),
        Err(WhitelistHookError::InvalidTokenAccount)
    );
    assert_eq!(
        balance_of(&acct, &key(9), &mint),
        Err(WhitelistHookError::InvalidTokenOwner)
    );
    // The mint check comes first when both bindings are wrong.
    assert_eq!(
        balance_of(&acct, &key(9), &key(8)),
        Err(WhitelistHookError::InvalidTokenAccount)
    );
}

#[test]
fn whitelist_record_is_plain_data() {
    let w = Whitelist {
        admin: key(1),
        hooks: vec![key(5)],
        proposals: vec![7],
        vote_threshold: 42,
    };
    assert_eq!(w.hooks[0], key(5));
    assert_eq!(w.proposals[0], 7);
    assert_eq!(w.vote_threshold, 42);
}
