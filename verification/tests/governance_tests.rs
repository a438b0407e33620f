use vote_app::addr::{derive_address, external_address, Address, Seed, CANONICAL_SALT};
use vote_app::contexts::{
    CloseProposal, CloseVoter, InitializeProposalCounter, PickWinner, RegisterProposal,
    RegisterVoter, Vote,
};
use vote_app::errors::VoteError;
use vote_app::handlers::governance::{
    close_proposal, close_voter, initialize_proposal_counter, pick_winner, proposal_to_vote,
    register_proposal, register_voter,
};
use vote_app::ledger::{TokenAccount, TokenEntry};
use vote_app::records::{Proposal, ProposalCounter};
use vote_app::state::GovState;

const AUTHORITY: u64 = 1;
const PROPOSER: u64 = 4;
const VOTER: u64 = 3;

fn credit_mint() -> Address {
    external_address(900)
}

fn treasury_token_addr() -> Address {
    external_address(100)
}

fn proposer_token_addr() -> Address {
    external_address(400)
}

fn voter_token_addr() -> Address {
    external_address(300)
}

fn counter_ctx() -> InitializeProposalCounter {
    InitializeProposalCounter {
        authority: AUTHORITY,
        proposal_counter_account: derive_address(Seed::ProposalCounter, CANONICAL_SALT),
    }
}

fn register_ctx(next_id: u8) -> RegisterProposal {
    RegisterProposal {
        authority: PROPOSER,
        proposal_account: derive_address(Seed::Proposal(next_id), CANONICAL_SALT),
        proposal_counter_account: derive_address(Seed::ProposalCounter, CANONICAL_SALT),
        x_mint: credit_mint(),
        proposal_token_account: proposer_token_addr(),
        treasury_token_account: treasury_token_addr(),
    }
}

fn voter_ctx(voter: u64) -> RegisterVoter {
    RegisterVoter {
        authority: voter,
        voter_account: derive_address(Seed::Voter(voter), CANONICAL_SALT),
    }
}

fn vote_ctx(voter: u64) -> Vote {
    Vote {
        voter_account: derive_address(Seed::Voter(voter), CANONICAL_SALT),
        x_mint: credit_mint(),
        voter_token_account: voter_token_addr(),
        treasury_token_account: treasury_token_addr(),
        proposal_account: derive_address(Seed::Proposal(1), CANONICAL_SALT),
        authority: voter,
    }
}

fn pick_ctx(id: u8) -> PickWinner {
    PickWinner {
        winner_account: derive_address(Seed::Winner, CANONICAL_SALT),
        proposal_account: derive_address(Seed::Proposal(id), CANONICAL_SALT),
        authority: AUTHORITY,
    }
}

/// A state with a counter, credit accounts for the treasury, the proposer
/// and the voter, and a registered voter record.
fn governance_world() -> GovState {
    let mut s = GovState::new();
    initialize_proposal_counter(&mut s, &counter_ctx(), 0).unwrap();
    s.ledger.token_accounts.push(TokenEntry {
        addr: treasury_token_addr(),
        acct: TokenAccount { owner: AUTHORITY, mint: credit_mint(), amount: 0 },
    });
    s.ledger.token_accounts.push(TokenEntry {
        addr: proposer_token_addr(),
        acct: TokenAccount { owner: PROPOSER, mint: credit_mint(), amount: 1000 },
    });
    s.ledger.token_accounts.push(TokenEntry {
        addr: voter_token_addr(),
        acct: TokenAccount { owner: VOTER, mint: credit_mint(), amount: 500 },
    });
    register_voter(&mut s, &voter_ctx(VOTER), 0).unwrap();
    s
}

/// The world above plus one proposal (id 1) with deadline 200.
fn world_with_proposal() -> GovState {
    let mut s = governance_world();
    register_proposal(&mut s, &register_ctx(1), String::from("roads"), 200, 25, 100).unwrap();
    s
}

#[test]
fn counter_initializes_to_one() {
    let mut s = GovState::new();
    initialize_proposal_counter(&mut s, &counter_ctx(), 0).unwrap();
    let c = s.counter.unwrap();
    assert_eq!(c.proposal_count, 1);
    assert_eq!(c.authority, AUTHORITY);
}

#[test]
fn counter_initializes_only_once() {
    let mut s = GovState::new();
    initialize_proposal_counter(&mut s, &counter_ctx(), 0).unwrap();
    let r = initialize_proposal_counter(&mut s, &counter_ctx(), 0);
    assert_eq!(r.unwrap_err(), VoteError::ProposalCounterAlreadyInitialized);
}

#[test]
fn register_voter_creates_blank_record() {
    let mut s = GovState::new();
    register_voter(&mut s, &voter_ctx(VOTER), 0).unwrap();
    assert_eq!(s.voters.len(), 1);
    assert_eq!(s.voters[0].voter_id, VOTER);
    assert_eq!(s.voters[0].proposal_voted, 0);
}

#[test]
fn register_voter_twice_fails() {
    let mut s = GovState::new();
    register_voter(&mut s, &voter_ctx(VOTER), 0).unwrap();
    let r = register_voter(&mut s, &voter_ctx(VOTER), 0);
    assert_eq!(r.unwrap_err(), VoteError::AddressAlreadyInUse);
}

#[test]
fn register_voter_wrong_derivation_fails() {
    let mut s = GovState::new();
    let mut ctx = voter_ctx(VOTER);
    ctx.voter_account = derive_address(Seed::Voter(VOTER + 1), CANONICAL_SALT);
    let r = register_voter(&mut s, &ctx, 0);
    assert_eq!(r.unwrap_err(), VoteError::AddressMismatch);
}

#[test]
fn register_proposal_assigns_id_and_escrows() {
    let mut s = governance_world();
    let ev = register_proposal(&mut s, &register_ctx(1), String::from("roads"), 200, 25, 100)
        .unwrap();
    assert_eq!(ev.proposal_id, 1);
    assert_eq!(ev.creator, PROPOSER);
    assert_eq!(s.proposals.len(), 1);
    assert_eq!(s.proposals[0].proposal_id, 1);
    assert_eq!(s.proposals[0].number_of_votes, 0);
    assert_eq!(s.counter.unwrap().proposal_count, 2);
    let proposer = s.ledger.token_account_of(proposer_token_addr()).unwrap();
    let treasury = s.ledger.token_account_of(treasury_token_addr()).unwrap();
    assert_eq!(proposer.amount, 975);
    assert_eq!(treasury.amount, 25);
}

#[test]
fn register_proposal_rejects_stale_deadline() {
    let mut s = governance_world();
    let r = register_proposal(&mut s, &register_ctx(1), String::from("roads"), 100, 25, 100);
    assert_eq!(r.unwrap_err(), VoteError::InvalidDeadline);
    let r2 = register_proposal(&mut s, &register_ctx(1), String::from("roads"), 100, 25, 101);
    assert_eq!(r2.unwrap_err(), VoteError::InvalidDeadline);
}

#[test]
fn register_proposal_wrong_counter_reference_fails() {
    let mut s = governance_world();
    let mut ctx = register_ctx(1);
    ctx.proposal_counter_account = external_address(555);
    let r = register_proposal(&mut s, &ctx, String::from("roads"), 200, 0, 100);
    assert_eq!(r.unwrap_err(), VoteError::AddressMismatch);
}

#[test]
fn register_proposal_without_counter_fails() {
    let mut s = GovState::new();
    let r = register_proposal(&mut s, &register_ctx(1), String::from("roads"), 200, 0, 100);
    assert_eq!(r.unwrap_err(), VoteError::AccountNotFound);
}

#[test]
fn register_proposal_insufficient_escrow_fails() {
    let mut s = governance_world();
    let r = register_proposal(&mut s, &register_ctx(1), String::from("roads"), 200, 1001, 100);
    assert_eq!(r.unwrap_err(), VoteError::InsufficientFunds);
    assert_eq!(s.proposals.len(), 0);
    assert_eq!(s.counter.unwrap().proposal_count, 1);
}

#[test]
fn register_proposal_counter_exhausted_fails() {
    let mut s = governance_world();
    s.counter = Some(ProposalCounter { proposal_count: u8::MAX, authority: AUTHORITY });
    let r = register_proposal(
        &mut s,
        &register_ctx(u8::MAX),
        String::from("roads"),
        200,
        0,
        100,
    );
    assert_eq!(r.unwrap_err(), VoteError::ProposalCounterOverflow);
}

#[test]
fn register_proposal_occupied_address_fails() {
    let mut s = world_with_proposal();
    s.counter = Some(ProposalCounter { proposal_count: 1, authority: AUTHORITY });
    let r = register_proposal(&mut s, &register_ctx(1), String::from("again"), 300, 0, 100);
    assert_eq!(r.unwrap_err(), VoteError::AddressAlreadyInUse);
}

#[test]
fn vote_marks_voter_and_increments_tally() {
    let mut s = world_with_proposal();
    let ev = proposal_to_vote(&mut s, &vote_ctx(VOTER), 1, 5, 150).unwrap();
    assert_eq!(ev.total_votes, 1);
    assert_eq!(s.proposals[0].number_of_votes, 1);
    assert_eq!(s.voters[0].proposal_voted, 1);
    let voter_acct = s.ledger.token_account_of(voter_token_addr()).unwrap();
    assert_eq!(voter_acct.amount, 495);
    let treasury = s.ledger.token_account_of(treasury_token_addr()).unwrap();
    assert_eq!(treasury.amount, 30);
}

#[test]
fn second_vote_fails_and_changes_nothing() {
    let mut s = world_with_proposal();
    proposal_to_vote(&mut s, &vote_ctx(VOTER), 1, 5, 150).unwrap();
    let r = proposal_to_vote(&mut s, &vote_ctx(VOTER), 1, 5, 151);
    assert_eq!(r.unwrap_err(), VoteError::VoterAlreadyVoted);
    assert_eq!(s.proposals[0].number_of_votes, 1);
    assert_eq!(s.voters[0].proposal_voted, 1);
    let voter_acct = s.ledger.token_account_of(voter_token_addr()).unwrap();
    assert_eq!(voter_acct.amount, 495);
}

#[test]
fn vote_at_deadline_fails_with_proposal_ended() {
    let mut s = world_with_proposal();
    let r = proposal_to_vote(&mut s, &vote_ctx(VOTER), 1, 5, 200);
    assert_eq!(r.unwrap_err(), VoteError::ProposalEnded);
    assert_eq!(s.proposals[0].number_of_votes, 0);
}

#[test]
fn vote_with_wrong_mint_fails() {
    let mut s = world_with_proposal();
    let mut ctx = vote_ctx(VOTER);
    ctx.x_mint = external_address(901);
    let r = proposal_to_vote(&mut s, &ctx, 1, 5, 150);
    assert_eq!(r.unwrap_err(), VoteError::TokenMintMismatch);
}

#[test]
fn vote_tally_overflow_fails() {
    let mut s = world_with_proposal();
    s.proposals[0].number_of_votes = u64::MAX;
    let r = proposal_to_vote(&mut s, &vote_ctx(VOTER), 1, 5, 150);
    assert_eq!(r.unwrap_err(), VoteError::ProposalVotesOverflow);
    assert_eq!(s.voters[0].proposal_voted, 0);
    let voter_acct = s.ledger.token_account_of(voter_token_addr()).unwrap();
    assert_eq!(voter_acct.amount, 500);
}

#[test]
fn pick_winner_before_deadline_fails() {
    let mut s = world_with_proposal();
    proposal_to_vote(&mut s, &vote_ctx(VOTER), 1, 5, 150).unwrap();
    let r = pick_winner(&mut s, &pick_ctx(1), 1, 199);
    assert_eq!(r.unwrap_err(), VoteError::VotingStillActive);
}

#[test]
fn pick_winner_without_votes_fails() {
    let mut s = world_with_proposal();
    let r = pick_winner(&mut s, &pick_ctx(1), 1, 200);
    assert_eq!(r.unwrap_err(), VoteError::NoVotesCast);
}

#[test]
fn pick_winner_declares_and_stores_tally() {
    let mut s = world_with_proposal();
    proposal_to_vote(&mut s, &vote_ctx(VOTER), 1, 5, 150).unwrap();
    let ev = pick_winner(&mut s, &pick_ctx(1), 1, 200).unwrap().unwrap();
    assert_eq!(ev.winning_proposal_id, 1);
    assert_eq!(ev.total_votes, 1);
    let w = s.winner.as_ref().unwrap();
    assert_eq!(w.winning_proposal_id, 1);
    assert_eq!(w.winning_votes, 1);
    assert_eq!(w.declared_at, 200);
    assert_eq!(w.proposal_info, "roads");
}

#[test]
fn pick_winner_tie_keeps_earlier_winner() {
    let mut s = world_with_proposal();
    register_proposal(&mut s, &register_ctx(2), String::from("bridges"), 200, 0, 100).unwrap();
    s.proposals[0].number_of_votes = 3;
    s.proposals[1].number_of_votes = 3;
    pick_winner(&mut s, &pick_ctx(1), 1, 200).unwrap().unwrap();
    let r = pick_winner(&mut s, &pick_ctx(2), 2, 201).unwrap();
    assert!(r.is_none());
    assert_eq!(s.winner.as_ref().unwrap().winning_proposal_id, 1);
    assert_eq!(s.winner.as_ref().unwrap().declared_at, 200);
}

#[test]
fn pick_winner_twice_same_proposal_changes_nothing() {
    let mut s = world_with_proposal();
    proposal_to_vote(&mut s, &vote_ctx(VOTER), 1, 5, 150).unwrap();
    pick_winner(&mut s, &pick_ctx(1), 1, 200).unwrap().unwrap();
    let r = pick_winner(&mut s, &pick_ctx(1), 1, 250).unwrap();
    assert!(r.is_none());
    assert_eq!(s.winner.as_ref().unwrap().declared_at, 200);
    assert_eq!(s.winner.as_ref().unwrap().winning_votes, 1);
}

#[test]
fn pick_winner_replaces_on_strict_improvement() {
    let mut s = world_with_proposal();
    register_proposal(&mut s, &register_ctx(2), String::from("bridges"), 200, 0, 100).unwrap();
    s.proposals[0].number_of_votes = 2;
    s.proposals[1].number_of_votes = 5;
    pick_winner(&mut s, &pick_ctx(1), 1, 200).unwrap().unwrap();
    let ev = pick_winner(&mut s, &pick_ctx(2), 2, 201).unwrap().unwrap();
    assert_eq!(ev.winning_proposal_id, 2);
    assert_eq!(s.winner.as_ref().unwrap().winning_votes, 5);
}

#[test]
fn close_proposal_before_deadline_fails() {
    let mut s = world_with_proposal();
    let ctx = CloseProposal {
        proposal_account: derive_address(Seed::Proposal(1), CANONICAL_SALT),
        destination: external_address(PROPOSER),
        authority: PROPOSER,
    };
    let r = close_proposal(&mut s, &ctx, 1, 150);
    assert_eq!(r.unwrap_err(), VoteError::VotingStillActive);
    assert_eq!(s.proposals.len(), 1);
}

#[test]
fn close_proposal_requires_proposal_authority() {
    let mut s = world_with_proposal();
    let ctx = CloseProposal {
        proposal_account: derive_address(Seed::Proposal(1), CANONICAL_SALT),
        destination: external_address(VOTER),
        authority: VOTER,
    };
    let r = close_proposal(&mut s, &ctx, 1, 250);
    assert_eq!(r.unwrap_err(), VoteError::UnauthorizedAccess);
}

#[test]
fn close_proposal_after_deadline_removes_record() {
    let mut s = world_with_proposal();
    let ctx = CloseProposal {
        proposal_account: derive_address(Seed::Proposal(1), CANONICAL_SALT),
        destination: external_address(PROPOSER),
        authority: PROPOSER,
    };
    let ev = close_proposal(&mut s, &ctx, 1, 200).unwrap();
    assert_eq!(ev.proposal_id, 1);
    assert_eq!(s.proposals.len(), 0);
}

#[test]
fn close_voter_removes_record_any_time() {
    let mut s = world_with_proposal();
    proposal_to_vote(&mut s, &vote_ctx(VOTER), 1, 5, 150).unwrap();
    let ctx = CloseVoter {
        voter_account: derive_address(Seed::Voter(VOTER), CANONICAL_SALT),
        authority: VOTER,
    };
    let ev = close_voter(&mut s, &ctx, 160).unwrap();
    assert_eq!(ev.voter, VOTER);
    assert_eq!(s.voters.len(), 0);
}

#[test]
fn close_missing_voter_fails() {
    let mut s = GovState::new();
    let ctx = CloseVoter {
        voter_account: derive_address(Seed::Voter(VOTER), CANONICAL_SALT),
        authority: VOTER,
    };
    let r = close_voter(&mut s, &ctx, 0);
    assert_eq!(r.unwrap_err(), VoteError::AccountNotFound);
}

#[test]
fn vote_for_unknown_proposal_fails() {
    let mut s = governance_world();
    let mut ctx = vote_ctx(VOTER);
    ctx.proposal_account = derive_address(Seed::Proposal(7), CANONICAL_SALT);
    let r = proposal_to_vote(&mut s, &ctx, 7, 5, 150);
    assert_eq!(r.unwrap_err(), VoteError::AccountNotFound);
}

#[test]
fn proposal_record_keeps_description() {
    let mut s = governance_world();
    register_proposal(&mut s, &register_ctx(1), String::from("roads"), 200, 0, 100).unwrap();
    let p: &Proposal = &s.proposals[0];
    assert_eq!(p.proposal_info, "roads");
    assert_eq!(p.deadline, 200);
    assert_eq!(p.authority, PROPOSER);
}
