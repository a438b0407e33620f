//! The laws of the protocol, proved over the state-machine transitions.
//!
//! Each proof function here states a property that holds of every state and
//! instruction its hypotheses admit: preservation of the structural
//! invariants, conservation of credits, one-shot voting, monotone tallies,
//! idempotent winner declaration, and the accounting of purchases and
//! escrows.

use vstd::prelude::*;
use crate::addr::{Seed, spec_derive, spec_external_address, CANONICAL_SALT};
use crate::contexts;
use crate::errors::VoteError;
use crate::handlers::governance::{
    spec_proposal_to_vote, spec_pick_winner, spec_register_proposal, current_winning_votes,
};
use crate::handlers::treasury::spec_buy_tokens;
use crate::ledger::{
    has_token, token_acct, token_at, base_balance, mint_supply, spec_mint_to,
    lemma_token_lookup_after_update, lemma_transfer_balances, lemma_transfer_preserves_supply,
    lemma_mint_to_supply, lemma_base_transfer_balances,
};
use crate::state::{
    GovView, gov_wf, has_proposal, proposal_at, proposal_of, has_voter, voter_at, voter_of,
    lemma_proposal_at_unique, lemma_proposal_update, lemma_proposal_push, lemma_proposal_remove,
    lemma_voter_update, lemma_voter_push, lemma_voter_remove,
};
use crate::step::{Instruction, spec_step};

verus! {

/// Every instruction preserves the structural invariants: whatever a caller
/// sends, a successful transition leads from a well-formed state to a
/// well-formed state.
pub proof fn lemma_step_preserves_wf(s: GovView, inst: Instruction, now: i64)
    requires
        gov_wf(s),
        spec_step(s, inst, now) is Ok,
    ensures
        gov_wf(spec_step(s, inst, now)->Ok_0),
{
    let s2 = spec_step(s, inst, now)->Ok_0;
    match inst {
        Instruction::InitializeTreasury { .. } => {},
        Instruction::ConfigureTreasuryTokenAccount { .. } => {},
        Instruction::InitializeProposalCounter { .. } => {},
        Instruction::BuyTokens { ctx } => {
            let cfg = s.treasury->0;
            let to = ctx.buyer_token_account;
            let j = token_at(s.ledger.tokens, to);
            let t = token_acct(s.ledger.tokens, to);
            assert(0 <= j < s.ledger.tokens.len() && s.ledger.tokens[j].addr == to);
            lemma_token_lookup_after_update(
                s.ledger.tokens,
                j,
                s.ledger.tokens[j],
                to,
            );
            let tokens2 = spec_mint_to(
                s.ledger.tokens,
                ctx.x_mint,
                to,
                cfg.tokens_per_purchase,
            )->Ok_0;
            assert(forall|k: int|
                0 <= k < s.ledger.tokens.len() ==> (#[trigger] tokens2[k]).addr
                    == s.ledger.tokens[k].addr);
            assert(spec_external_address(ctx.buyer) != ctx.sol_vault);
            lemma_base_transfer_balances(
                s.ledger.base,
                spec_external_address(ctx.buyer),
                ctx.sol_vault,
                cfg.sol_price,
            );
        },
        Instruction::RegisterVoter { ctx } => {
            lemma_voter_push(s.voters, crate::records::Voter { voter_id: ctx.authority, proposal_voted: 0 });
        },
        Instruction::RegisterProposal { ctx, proposal_info, deadline, token_amount } => {
            let c = s.counter->0;
            if ctx.proposal_token_account != ctx.treasury_token_account {
                lemma_transfer_balances(
                    s.ledger.tokens,
                    ctx.proposal_token_account,
                    ctx.treasury_token_account,
                    token_amount,
                );
            }
            let p = crate::records::ProposalView {
                proposal_id: c.proposal_count,
                authority: ctx.authority,
                proposal_info,
                deadline,
                number_of_votes: 0,
            };
            lemma_proposal_push(s.proposals, p);
            assert(forall|i: int|
                0 <= i < s.proposals.len() ==> #[trigger] s2.proposals[i] == s.proposals[i]);
            assert(s2.proposals[s.proposals.len() as int] == p);
        },
        Instruction::ProposalToVote { ctx, proposal_id, token_amount } => {
            if ctx.voter_token_account != ctx.treasury_token_account {
                lemma_transfer_balances(
                    s.ledger.tokens,
                    ctx.voter_token_account,
                    ctx.treasury_token_account,
                    token_amount,
                );
            }
            let vi = voter_at(s.voters, ctx.authority);
            assert(0 <= vi < s.voters.len() && s.voters[vi].voter_id == ctx.authority);
            lemma_voter_update(
                s.voters,
                vi,
                crate::records::Voter { voter_id: ctx.authority, proposal_voted: proposal_id },
            );
            let pi = proposal_at(s.proposals, proposal_id);
            let prop = proposal_of(s.proposals, proposal_id);
            assert(0 <= pi < s.proposals.len() && s.proposals[pi].proposal_id == proposal_id);
            lemma_proposal_update(
                s.proposals,
                pi,
                crate::records::ProposalView {
                    number_of_votes: (prop.number_of_votes + 1) as u64,
                    ..prop
                },
            );
            assert(forall|i: int|
                0 <= i < s2.proposals.len() ==> (#[trigger] s2.proposals[i]).proposal_id
                    == s.proposals[i].proposal_id);
        },
        Instruction::PickWinner { .. } => {},
        Instruction::CloseProposal { ctx, proposal_id } => {
            let pi = proposal_at(s.proposals, proposal_id);
            assert(0 <= pi < s.proposals.len() && s.proposals[pi].proposal_id == proposal_id);
            lemma_proposal_remove(s.proposals, pi);
            assert(forall|i: int|
                0 <= i < pi ==> #[trigger] s2.proposals[i] == s.proposals[i]);
            assert(forall|i: int|
                pi <= i < s2.proposals.len() ==> #[trigger] s2.proposals[i] == s.proposals[i + 1]);
        },
        Instruction::CloseVoter { ctx } => {
            let vi = voter_at(s.voters, ctx.authority);
            assert(0 <= vi < s.voters.len() && s.voters[vi].voter_id == ctx.authority);
            lemma_voter_remove(s.voters, vi);
        },
        Instruction::WithdrawSol { ctx, amount } => {
            let cfg = s.treasury->0;
            assert(ctx.sol_vault != spec_external_address(ctx.authority));
            lemma_base_transfer_balances(
                s.ledger.base,
                ctx.sol_vault,
                spec_external_address(ctx.authority),
                amount,
            );
        },
    }
}

/// No governance instruction creates or destroys credits: every transition
/// other than a purchase preserves the total supply of every currency.
pub proof fn lemma_governance_preserves_supply(s: GovView, inst: Instruction, now: i64, m: crate::addr::Address)
    requires
        gov_wf(s),
        spec_step(s, inst, now) is Ok,
        !(inst matches Instruction::BuyTokens { .. }),
    ensures
        mint_supply(spec_step(s, inst, now)->Ok_0.ledger.tokens, m) == mint_supply(
            s.ledger.tokens,
            m,
        ),
{
    match inst {
        Instruction::RegisterProposal { ctx, token_amount, .. } => {
            lemma_transfer_preserves_supply(
                s.ledger.tokens,
                ctx.proposal_token_account,
                ctx.treasury_token_account,
                token_amount,
                m,
            );
        },
        Instruction::ProposalToVote { ctx, token_amount, .. } => {
            lemma_transfer_preserves_supply(
                s.ledger.tokens,
                ctx.voter_token_account,
                ctx.treasury_token_account,
                token_amount,
                m,
            );
        },
        _ => {},
    }
}

/// The accounting of one purchase: the vault gains exactly the configured
/// price, the configured number of credits comes into existence (and no
/// other currency moves), and the stored configuration is untouched.
pub proof fn lemma_buy_tokens_accounting(s: GovView, ctx: contexts::BuyTokens, m: crate::addr::Address)
    requires
        gov_wf(s),
        spec_buy_tokens(s, ctx) is Ok,
    ensures
        ({
            let s2 = spec_buy_tokens(s, ctx)->Ok_0;
            let cfg = s.treasury->0;
            let vault = spec_derive(Seed::SolVault, cfg.bump);
            &&& gov_wf(s2)
            &&& s2.treasury == s.treasury
            &&& s2.proposals == s.proposals
            &&& s2.voters == s.voters
            &&& s2.winner == s.winner
            &&& mint_supply(s2.ledger.tokens, m) == mint_supply(s.ledger.tokens, m) + (if m
                == cfg.x_mint {
                cfg.tokens_per_purchase as int
            } else {
                0
            })
            &&& base_balance(s2.ledger.base, vault) == base_balance(s.ledger.base, vault)
                + cfg.sol_price
        }),
{
    let cfg = s.treasury->0;
    lemma_step_preserves_wf(s, Instruction::BuyTokens { ctx }, 0);
    lemma_mint_to_supply(
        s.ledger.tokens,
        ctx.x_mint,
        ctx.buyer_token_account,
        cfg.tokens_per_purchase,
        m,
    );
    assert(spec_external_address(ctx.buyer) != ctx.sol_vault);
    lemma_base_transfer_balances(
        s.ledger.base,
        spec_external_address(ctx.buyer),
        ctx.sol_vault,
        cfg.sol_price,
    );
}

/// The accounting of one proposal escrow: registering with `token_amount`
/// debits exactly that amount from the proposer's credit account, credits
/// exactly that amount to the treasury-held account, and neither creates nor
/// destroys credits of any currency.
pub proof fn lemma_register_proposal_escrow(
    s: GovView,
    ctx: contexts::RegisterProposal,
    proposal_info: Seq<char>,
    deadline: i64,
    token_amount: u64,
    now: i64,
    m: crate::addr::Address,
)
    requires
        gov_wf(s),
        spec_register_proposal(s, ctx, proposal_info, deadline, token_amount, now) is Ok,
        ctx.proposal_token_account != ctx.treasury_token_account,
    ensures
        ({
            let s2 = spec_register_proposal(s, ctx, proposal_info, deadline, token_amount, now)->Ok_0;
            &&& token_acct(s2.ledger.tokens, ctx.proposal_token_account).amount == token_acct(
                s.ledger.tokens,
                ctx.proposal_token_account,
            ).amount - token_amount
            &&& token_acct(s2.ledger.tokens, ctx.treasury_token_account).amount == token_acct(
                s.ledger.tokens,
                ctx.treasury_token_account,
            ).amount + token_amount
            &&& mint_supply(s2.ledger.tokens, m) == mint_supply(s.ledger.tokens, m)
        }),
{
    lemma_transfer_balances(
        s.ledger.tokens,
        ctx.proposal_token_account,
        ctx.treasury_token_account,
        token_amount,
    );
    lemma_transfer_preserves_supply(
        s.ledger.tokens,
        ctx.proposal_token_account,
        ctx.treasury_token_account,
        token_amount,
        m,
    );
}

/// A voter whose record already carries a vote is turned away with
/// `VoterAlreadyVoted`, whatever the other arguments.
pub proof fn lemma_second_vote_rejected(
    s: GovView,
    ctx: contexts::Vote,
    proposal_id: u8,
    token_amount: u64,
    now: i64,
)
    requires
        ctx.voter_account == spec_derive(Seed::Voter(ctx.authority), CANONICAL_SALT),
        has_voter(s.voters, ctx.authority),
        voter_of(s.voters, ctx.authority).proposal_voted != 0,
    ensures
        spec_proposal_to_vote(s, ctx, proposal_id, token_amount, now) == Err::<
            GovView,
            VoteError,
        >(VoteError::VoterAlreadyVoted),
{
}

/// Declaring a winner is idempotent: right after a successful declaration,
/// repeating the same call succeeds and changes nothing, because the stored
/// tally is no longer strictly below the candidate's.
pub proof fn lemma_pick_winner_idempotent(s: GovView, ctx: contexts::PickWinner, proposal_id: u8, now: i64)
    requires
        gov_wf(s),
        spec_pick_winner(s, ctx, proposal_id, now) is Ok,
    ensures
        ({
            let s1 = spec_pick_winner(s, ctx, proposal_id, now)->Ok_0;
            spec_pick_winner(s1, ctx, proposal_id, now) == Ok::<GovView, VoteError>(s1)
        }),
{
    let s1 = spec_pick_winner(s, ctx, proposal_id, now)->Ok_0;
    assert(s1.proposals == s.proposals);
}

/// A tied tally does not replace the winner: a candidate whose vote count
/// equals the stored winning tally leaves the whole state unchanged, so the
/// earliest declared winner stands.
pub proof fn lemma_pick_winner_tie_keeps_winner(
    s: GovView,
    ctx: contexts::PickWinner,
    proposal_id: u8,
    now: i64,
)
    requires
        gov_wf(s),
        spec_pick_winner(s, ctx, proposal_id, now) is Ok,
        proposal_of(s.proposals, proposal_id).number_of_votes == current_winning_votes(s),
    ensures
        spec_pick_winner(s, ctx, proposal_id, now) == Ok::<GovView, VoteError>(s),
{
}

/// The proposal counter never retreats and never changes hands: once
/// created it advances by exactly one per registered proposal and is moved
/// by nothing else.
pub proof fn lemma_counter_monotonic(s: GovView, inst: Instruction, now: i64)
    requires
        gov_wf(s),
        spec_step(s, inst, now) is Ok,
    ensures
        ({
            let s2 = spec_step(s, inst, now)->Ok_0;
            &&& s.counter matches Some(c) ==> {
                &&& s2.counter matches Some(c2)
                &&& c2.authority == c.authority
                &&& (if inst matches Instruction::RegisterProposal { .. } {
                    c2.proposal_count == c.proposal_count + 1
                } else {
                    c2.proposal_count == c.proposal_count
                })
            }
        }),
{
}

/// A cast vote is immutable: once a voter's record carries a nonzero
/// proposal id, no instruction changes it; the record can only disappear
/// when that same voter closes it.
pub proof fn lemma_cast_vote_immutable(s: GovView, inst: Instruction, now: i64, v: u64)
    requires
        gov_wf(s),
        spec_step(s, inst, now) is Ok,
        has_voter(s.voters, v),
        voter_of(s.voters, v).proposal_voted != 0,
    ensures
        ({
            let s2 = spec_step(s, inst, now)->Ok_0;
            &&& has_voter(s2.voters, v) ==> voter_of(s2.voters, v) == voter_of(s.voters, v)
            &&& !has_voter(s2.voters, v) ==> (inst matches Instruction::CloseVoter { ctx }
                && ctx.authority == v)
        }),
{
    let s2 = spec_step(s, inst, now)->Ok_0;
    match inst {
        Instruction::RegisterVoter { ctx } => {
            lemma_voter_push(
                s.voters,
                crate::records::Voter { voter_id: ctx.authority, proposal_voted: 0 },
            );
        },
        Instruction::ProposalToVote { ctx, proposal_id, token_amount } => {
            let vi = voter_at(s.voters, ctx.authority);
            assert(0 <= vi < s.voters.len() && s.voters[vi].voter_id == ctx.authority);
            lemma_voter_update(
                s.voters,
                vi,
                crate::records::Voter { voter_id: ctx.authority, proposal_voted: proposal_id },
            );
            assert(ctx.authority != v);
        },
        Instruction::CloseVoter { ctx } => {
            let vi = voter_at(s.voters, ctx.authority);
            assert(0 <= vi < s.voters.len() && s.voters[vi].voter_id == ctx.authority);
            lemma_voter_remove(s.voters, vi);
        },
        _ => {},
    }
}

/// A proposal's tally never decreases and its deadline never moves; the
/// tally grows only through a vote for that proposal cast strictly before
/// its deadline, and then by exactly one.
pub proof fn lemma_vote_count_monotonic(s: GovView, inst: Instruction, now: i64, id: u8)
    requires
        gov_wf(s),
        spec_step(s, inst, now) is Ok,
        has_proposal(s.proposals, id),
        has_proposal(spec_step(s, inst, now)->Ok_0.proposals, id),
    ensures
        ({
            let s2 = spec_step(s, inst, now)->Ok_0;
            &&& proposal_of(s2.proposals, id).deadline == proposal_of(s.proposals, id).deadline
            &&& proposal_of(s2.proposals, id).number_of_votes >= proposal_of(
                s.proposals,
                id,
            ).number_of_votes
            &&& proposal_of(s2.proposals, id).number_of_votes > proposal_of(
                s.proposals,
                id,
            ).number_of_votes ==> {
                &&& inst matches Instruction::ProposalToVote { ctx, proposal_id, token_amount }
                    && proposal_id == id
                &&& now < proposal_of(s.proposals, id).deadline
                &&& proposal_of(s2.proposals, id).number_of_votes == proposal_of(
                    s.proposals,
                    id,
                ).number_of_votes + 1
            }
        }),
{
    let s2 = spec_step(s, inst, now)->Ok_0;
    match inst {
        Instruction::RegisterProposal { ctx, proposal_info, deadline, token_amount } => {
            let c = s.counter->0;
            let p = crate::records::ProposalView {
                proposal_id: c.proposal_count,
                authority: ctx.authority,
                proposal_info,
                deadline,
                number_of_votes: 0,
            };
            lemma_proposal_push(s.proposals, p);
            assert(id != c.proposal_count);
        },
        Instruction::ProposalToVote { ctx, proposal_id, token_amount } => {
            let pi = proposal_at(s.proposals, proposal_id);
            let prop = proposal_of(s.proposals, proposal_id);
            assert(0 <= pi < s.proposals.len() && s.proposals[pi].proposal_id == proposal_id);
            lemma_proposal_update(
                s.proposals,
                pi,
                crate::records::ProposalView {
                    number_of_votes: (prop.number_of_votes + 1) as u64,
                    ..prop
                },
            );
            if id == proposal_id {
                lemma_proposal_at_unique(s2.proposals, id, pi);
            }
        },
        Instruction::CloseProposal { ctx, proposal_id } => {
            let pi = proposal_at(s.proposals, proposal_id);
            assert(0 <= pi < s.proposals.len() && s.proposals[pi].proposal_id == proposal_id);
            lemma_proposal_remove(s.proposals, pi);
            assert(id != proposal_id);
        },
        _ => {},
    }
}

/// The account checks of a vote that precede the deadline comparison.
pub open spec fn vote_gate_passes(s: GovView, ctx: contexts::Vote, proposal_id: u8) -> bool {
    &&& ctx.voter_account == spec_derive(Seed::Voter(ctx.authority), CANONICAL_SALT)
    &&& has_voter(s.voters, ctx.authority)
    &&& voter_of(s.voters, ctx.authority).proposal_voted == 0
    &&& has_token(s.ledger.tokens, ctx.voter_token_account)
    &&& token_acct(s.ledger.tokens, ctx.voter_token_account).mint == ctx.x_mint
    &&& token_acct(s.ledger.tokens, ctx.voter_token_account).owner == ctx.authority
    &&& has_token(s.ledger.tokens, ctx.treasury_token_account)
    &&& token_acct(s.ledger.tokens, ctx.treasury_token_account).mint == ctx.x_mint
    &&& ctx.proposal_account == spec_derive(Seed::Proposal(proposal_id), CANONICAL_SALT)
    &&& has_proposal(s.proposals, proposal_id)
}

/// A vote aimed at a proposal whose deadline has arrived never succeeds,
/// whatever else the caller supplies.
pub proof fn lemma_no_vote_at_or_after_deadline(
    s: GovView,
    ctx: contexts::Vote,
    proposal_id: u8,
    token_amount: u64,
    now: i64,
)
    requires
        has_proposal(s.proposals, proposal_id),
        proposal_of(s.proposals, proposal_id).deadline <= now,
    ensures
        spec_proposal_to_vote(s, ctx, proposal_id, token_amount, now) is Err,
{
}

/// A vote that passes every account check but arrives at or after the
/// deadline fails with exactly `ProposalEnded`.
pub proof fn lemma_vote_at_deadline_rejected(
    s: GovView,
    ctx: contexts::Vote,
    proposal_id: u8,
    token_amount: u64,
    now: i64,
)
    requires
        vote_gate_passes(s, ctx, proposal_id),
        proposal_of(s.proposals, proposal_id).deadline <= now,
    ensures
        spec_proposal_to_vote(s, ctx, proposal_id, token_amount, now) == Err::<
            GovView,
            VoteError,
        >(VoteError::ProposalEnded),
{
}

/// Over any run of successful purchases, the credits brought into existence
/// equal the per-purchase amount times the number of purchases, and the
/// vault gains the price times the number of purchases.
pub proof fn lemma_purchase_run_totals(states: Seq<GovView>, ctxs: Seq<contexts::BuyTokens>)
    requires
        states.len() == ctxs.len() + 1,
        gov_wf(states[0]),
        states[0].treasury is Some,
        forall|i: int| 0 <= i < ctxs.len() ==> #[trigger] spec_buy_tokens(states[i], ctxs[i])
            == Ok::<GovView, VoteError>(states[i + 1]),
    ensures
        gov_wf(states.last()),
        states.last().treasury == states[0].treasury,
        ({
            let cfg = states[0].treasury->0;
            let vault = spec_derive(Seed::SolVault, cfg.bump);
            &&& mint_supply(states.last().ledger.tokens, cfg.x_mint) == mint_supply(
                states[0].ledger.tokens,
                cfg.x_mint,
            ) + ctxs.len() * cfg.tokens_per_purchase
            &&& base_balance(states.last().ledger.base, vault) == base_balance(
                states[0].ledger.base,
                vault,
            ) + ctxs.len() * cfg.sol_price
        }),
    decreases ctxs.len(),
{
    let cfg = states[0].treasury->0;
    if ctxs.len() == 0 {
        assert(states.last() == states[0]);
    } else {
        let n = ctxs.len() as int;
        let prefix_states = states.drop_last();
        let prefix_ctxs = ctxs.drop_last();
        assert forall|i: int| 0 <= i < prefix_ctxs.len() implies #[trigger] spec_buy_tokens(
            prefix_states[i],
            prefix_ctxs[i],
        ) == Ok::<GovView, VoteError>(prefix_states[i + 1]) by {
            assert(prefix_states[i] == states[i]);
            assert(prefix_states[i + 1] == states[i + 1]);
            assert(prefix_ctxs[i] == ctxs[i]);
            assert(spec_buy_tokens(states[i], ctxs[i]) == Ok::<GovView, VoteError>(states[i + 1]));
        }
        assert(prefix_states[0] == states[0]);
        lemma_purchase_run_totals(prefix_states, prefix_ctxs);
        let sprev = states[n - 1];
        assert(prefix_states.last() == sprev);
        assert(spec_buy_tokens(sprev, ctxs[n - 1]) == Ok::<GovView, VoteError>(states[n]));
        assert(sprev.treasury == states[0].treasury);
        lemma_buy_tokens_accounting(sprev, ctxs[n - 1], cfg.x_mint);
        assert(states.last() == states[n]);
        assert(n * cfg.tokens_per_purchase == (n - 1) * cfg.tokens_per_purchase
            + cfg.tokens_per_purchase) by (nonlinear_arith);
        assert(n * cfg.sol_price == (n - 1) * cfg.sol_price + cfg.sol_price) by (nonlinear_arith);
    }
}

} // verus!
