//! End-to-end runs of the protocol: purchases, registration, voting and the
//! winner declaration, with the conservation checks spelled out on concrete
//! numbers.

use vote_app::addr::{derive_address, external_address, Address, Seed, CANONICAL_SALT};
use vote_app::contexts::{
    BuyTokens, CloseProposal, ConfigureTreasuryTokenAccount, InitializeProposalCounter,
    InitializeTreasury, PickWinner, RegisterProposal, RegisterVoter, Vote,
};
use vote_app::errors::VoteError;
use vote_app::handlers::governance::{
    close_proposal, initialize_proposal_counter, pick_winner, proposal_to_vote, register_proposal,
    register_voter,
};
use vote_app::handlers::treasury::{
    buy_tokens, configure_treasury_token_account, initialize_treasury,
};
use vote_app::state::GovState;

const AUTHORITY: u64 = 1;
const ALICE: u64 = 10;
const BOB: u64 = 11;
const PRICE: u64 = 100;
const CREDITS: u64 = 20;

fn credit_mint() -> Address {
    derive_address(Seed::CreditMint, CANONICAL_SALT)
}

fn treasury_token_addr() -> Address {
    external_address(1000)
}

fn token_addr_of(who: u64) -> Address {
    external_address(2000 + who)
}

fn buy_ctx(who: u64) -> BuyTokens {
    BuyTokens {
        treasury_config_account: derive_address(Seed::TreasuryConfig, CANONICAL_SALT),
        sol_vault: derive_address(Seed::SolVault, CANONICAL_SALT),
        treasury_token_account: treasury_token_addr(),
        x_mint: credit_mint(),
        buyer_token_account: token_addr_of(who),
        mint_authority: derive_address(Seed::MintAuthority, CANONICAL_SALT),
        buyer: who,
    }
}

fn register_ctx(who: u64, next_id: u8) -> RegisterProposal {
    RegisterProposal {
        authority: who,
        proposal_account: derive_address(Seed::Proposal(next_id), CANONICAL_SALT),
        proposal_counter_account: derive_address(Seed::ProposalCounter, CANONICAL_SALT),
        x_mint: credit_mint(),
        proposal_token_account: token_addr_of(who),
        treasury_token_account: treasury_token_addr(),
    }
}

fn vote_ctx(who: u64, id: u8) -> Vote {
    Vote {
        voter_account: derive_address(Seed::Voter(who), CANONICAL_SALT),
        x_mint: credit_mint(),
        voter_token_account: token_addr_of(who),
        treasury_token_account: treasury_token_addr(),
        proposal_account: derive_address(Seed::Proposal(id), CANONICAL_SALT),
        authority: who,
    }
}

/// Total credits held across every account of the credit mint.
fn credit_supply(s: &GovState) -> u128 {
    let mut total: u128 = 0;
    for e in &s.ledger.token_accounts {
        if e.acct.mint == credit_mint() {
            total += e.acct.amount as u128;
        }
    }
    total
}

/// A full world: treasury configured, counter live, Alice and Bob funded
/// with base currency, holding credit accounts and registered as voters.
fn world() -> GovState {
    let mut s = GovState::new();
    let init = InitializeTreasury {
        authority: AUTHORITY,
        treasury_config_account: derive_address(Seed::TreasuryConfig, CANONICAL_SALT),
        x_mint: credit_mint(),
        sol_vault: derive_address(Seed::SolVault, CANONICAL_SALT),
        mint_authority: derive_address(Seed::MintAuthority, CANONICAL_SALT),
    };
    initialize_treasury(&mut s, &init, PRICE, CREDITS, 0).unwrap();
    s.ledger
        .create_token_account(treasury_token_addr(), AUTHORITY, credit_mint())
        .unwrap();
    let cfg_ctx = ConfigureTreasuryTokenAccount {
        authority: AUTHORITY,
        treasury_config_account: derive_address(Seed::TreasuryConfig, CANONICAL_SALT),
        x_mint: credit_mint(),
        treasury_token_account: treasury_token_addr(),
    };
    configure_treasury_token_account(&mut s, &cfg_ctx).unwrap();
    let counter_ctx = InitializeProposalCounter {
        authority: AUTHORITY,
        proposal_counter_account: derive_address(Seed::ProposalCounter, CANONICAL_SALT),
    };
    initialize_proposal_counter(&mut s, &counter_ctx, 0).unwrap();
    for who in [ALICE, BOB] {
        s.ledger
            .create_token_account(token_addr_of(who), who, credit_mint())
            .unwrap();
        s.ledger.credit_base(external_address(who), 10 * PRICE).unwrap();
        let v = RegisterVoter {
            authority: who,
            voter_account: derive_address(Seed::Voter(who), CANONICAL_SALT),
        };
        register_voter(&mut s, &v, 0).unwrap();
    }
    s
}

#[test]
fn purchases_mint_exactly_credits_per_purchase_times_count() {
    let mut s = world();
    assert_eq!(credit_supply(&s), 0);
    buy_tokens(&mut s, &buy_ctx(ALICE), 1).unwrap();
    buy_tokens(&mut s, &buy_ctx(ALICE), 2).unwrap();
    buy_tokens(&mut s, &buy_ctx(BOB), 3).unwrap();
    assert_eq!(credit_supply(&s), 3 * CREDITS as u128);
    let vault = derive_address(Seed::SolVault, CANONICAL_SALT);
    assert_eq!(s.ledger.base_balance_of(vault), 3 * PRICE);
}

#[test]
fn counter_walks_one_two_three() {
    let mut s = world();
    buy_tokens(&mut s, &buy_ctx(ALICE), 1).unwrap();
    assert_eq!(s.counter.unwrap().proposal_count, 1);
    let ev1 = register_proposal(&mut s, &register_ctx(ALICE, 1), String::from("a"), 200, 1, 100)
        .unwrap();
    let ev2 = register_proposal(&mut s, &register_ctx(ALICE, 2), String::from("b"), 200, 1, 100)
        .unwrap();
    assert_eq!(ev1.proposal_id, 1);
    assert_eq!(ev2.proposal_id, 2);
    assert_eq!(s.counter.unwrap().proposal_count, 3);
}

#[test]
fn registration_escrow_round_trip() {
    let mut s = world();
    buy_tokens(&mut s, &buy_ctx(ALICE), 1).unwrap();
    let before_proposer = s.ledger.token_account_of(token_addr_of(ALICE)).unwrap().amount;
    let before_treasury = s.ledger.token_account_of(treasury_token_addr()).unwrap().amount;
    let before_supply = credit_supply(&s);
    let escrow = 7;
    register_proposal(&mut s, &register_ctx(ALICE, 1), String::from("a"), 200, escrow, 100)
        .unwrap();
    let after_proposer = s.ledger.token_account_of(token_addr_of(ALICE)).unwrap().amount;
    let after_treasury = s.ledger.token_account_of(treasury_token_addr()).unwrap().amount;
    assert_eq!(after_proposer, before_proposer - escrow);
    assert_eq!(after_treasury, before_treasury + escrow);
    assert_eq!(credit_supply(&s), before_supply);
}

#[test]
fn governance_never_changes_credit_supply() {
    let mut s = world();
    buy_tokens(&mut s, &buy_ctx(ALICE), 1).unwrap();
    buy_tokens(&mut s, &buy_ctx(BOB), 1).unwrap();
    let supply = credit_supply(&s);
    register_proposal(&mut s, &register_ctx(ALICE, 1), String::from("a"), 200, 5, 100).unwrap();
    assert_eq!(credit_supply(&s), supply);
    proposal_to_vote(&mut s, &vote_ctx(BOB, 1), 1, 3, 150).unwrap();
    assert_eq!(credit_supply(&s), supply);
    pick_winner(
        &mut s,
        &PickWinner {
            winner_account: derive_address(Seed::Winner, CANONICAL_SALT),
            proposal_account: derive_address(Seed::Proposal(1), CANONICAL_SALT),
            authority: AUTHORITY,
        },
        1,
        200,
    )
    .unwrap();
    assert_eq!(credit_supply(&s), supply);
    close_proposal(
        &mut s,
        &CloseProposal {
            proposal_account: derive_address(Seed::Proposal(1), CANONICAL_SALT),
            destination: external_address(ALICE),
            authority: ALICE,
        },
        1,
        200,
    )
    .unwrap();
    assert_eq!(credit_supply(&s), supply);
}

#[test]
fn vote_succeeds_before_deadline_and_tally_moves_zero_to_one() {
    let mut s = world();
    buy_tokens(&mut s, &buy_ctx(ALICE), 1).unwrap();
    register_proposal(&mut s, &register_ctx(ALICE, 1), String::from("a"), 200, 1, 100).unwrap();
    assert_eq!(s.proposals[0].number_of_votes, 0);
    assert_eq!(s.voters[1].proposal_voted, 0);
    buy_tokens(&mut s, &buy_ctx(BOB), 1).unwrap();
    let ev = proposal_to_vote(&mut s, &vote_ctx(BOB, 1), 1, 1, 100).unwrap();
    assert_eq!(ev.total_votes, 1);
    assert_eq!(s.proposals[0].number_of_votes, 1);
}

#[test]
fn winner_set_from_first_declaration() {
    let mut s = world();
    buy_tokens(&mut s, &buy_ctx(ALICE), 1).unwrap();
    register_proposal(&mut s, &register_ctx(ALICE, 1), String::from("a"), 200, 1, 100).unwrap();
    buy_tokens(&mut s, &buy_ctx(BOB), 1).unwrap();
    proposal_to_vote(&mut s, &vote_ctx(BOB, 1), 1, 1, 100).unwrap();
    assert!(s.winner.is_none());
    let ev = pick_winner(
        &mut s,
        &PickWinner {
            winner_account: derive_address(Seed::Winner, CANONICAL_SALT),
            proposal_account: derive_address(Seed::Proposal(1), CANONICAL_SALT),
            authority: AUTHORITY,
        },
        1,
        200,
    )
    .unwrap()
    .unwrap();
    assert_eq!(ev.winning_proposal_id, 1);
    let w = s.winner.as_ref().unwrap();
    assert_eq!(w.winning_proposal_id, 1);
    assert_eq!(w.winning_votes, 1);
}

#[test]
fn close_before_deadline_rejected_in_full_run() {
    let mut s = world();
    buy_tokens(&mut s, &buy_ctx(ALICE), 1).unwrap();
    register_proposal(&mut s, &register_ctx(ALICE, 1), String::from("a"), 200, 1, 100).unwrap();
    let r = close_proposal(
        &mut s,
        &CloseProposal {
            proposal_account: derive_address(Seed::Proposal(1), CANONICAL_SALT),
            destination: external_address(ALICE),
            authority: ALICE,
        },
        1,
        150,
    );
    assert_eq!(r.unwrap_err(), VoteError::VotingStillActive);
}

#[test]
fn rejected_instruction_leaves_state_untouched() {
    let mut s = world();
    buy_tokens(&mut s, &buy_ctx(ALICE), 1).unwrap();
    register_proposal(&mut s, &register_ctx(ALICE, 1), String::from("a"), 200, 1, 100).unwrap();
    let voters_before = s.voters.clone();
    let supply_before = credit_supply(&s);
    let counter_before = s.counter.unwrap().proposal_count;
    let r = proposal_to_vote(&mut s, &vote_ctx(BOB, 1), 1, 1_000_000, 150);
    assert_eq!(r.unwrap_err(), VoteError::InsufficientFunds);
    assert_eq!(s.voters, voters_before);
    assert_eq!(credit_supply(&s), supply_before);
    assert_eq!(s.counter.unwrap().proposal_count, counter_before);
    assert_eq!(s.proposals[0].number_of_votes, 0);
}
