//! The protocol as one state machine.
//!
//! `Instruction` names any inbound call with its explicit arguments, and
//! `spec_step` is its transition over the state view.  The laws that hold
//! across every instruction are stated and proved over this dispatcher.

use vstd::prelude::*;
use crate::contexts;
use crate::errors::VoteError;
use crate::handlers::governance::{
    spec_initialize_proposal_counter, spec_register_voter, spec_register_proposal,
    spec_proposal_to_vote, spec_pick_winner, spec_close_proposal, spec_close_voter,
};
use crate::handlers::treasury::{
    spec_initialize_treasury, spec_configure_treasury_token_account, spec_buy_tokens,
    spec_withdraw_sol,
};
use crate::state::GovView;

verus! {

/// One inbound instruction: the account references it names plus its
/// explicit arguments.
pub enum Instruction {
    InitializeTreasury {
        ctx: contexts::InitializeTreasury,
        sol_price: u64,
        tokens_per_purchase: u64,
    },
    ConfigureTreasuryTokenAccount { ctx: contexts::ConfigureTreasuryTokenAccount },
    InitializeProposalCounter { ctx: contexts::InitializeProposalCounter },
    BuyTokens { ctx: contexts::BuyTokens },
    RegisterVoter { ctx: contexts::RegisterVoter },
    RegisterProposal {
        ctx: contexts::RegisterProposal,
        proposal_info: Seq<char>,
        deadline: i64,
        token_amount: u64,
    },
    ProposalToVote { ctx: contexts::Vote, proposal_id: u8, token_amount: u64 },
    PickWinner { ctx: contexts::PickWinner, proposal_id: u8 },
    CloseProposal { ctx: contexts::CloseProposal, proposal_id: u8 },
    CloseVoter { ctx: contexts::CloseVoter },
    WithdrawSol { ctx: contexts::WithdrawSol, amount: u64 },
}

/// The transition of any instruction at logical time `now`: the next state on
/// success, the rejection kind otherwise.  A rejected instruction changes
/// nothing.
pub open spec fn spec_step(s: GovView, inst: Instruction, now: i64) -> Result<GovView, VoteError> {
    match inst {
        Instruction::InitializeTreasury { ctx, sol_price, tokens_per_purchase } =>
            spec_initialize_treasury(s, ctx, sol_price, tokens_per_purchase),
        Instruction::ConfigureTreasuryTokenAccount { ctx } =>
            spec_configure_treasury_token_account(s, ctx),
        Instruction::InitializeProposalCounter { ctx } => spec_initialize_proposal_counter(s, ctx),
        Instruction::BuyTokens { ctx } => spec_buy_tokens(s, ctx),
        Instruction::RegisterVoter { ctx } => spec_register_voter(s, ctx),
        Instruction::RegisterProposal { ctx, proposal_info, deadline, token_amount } =>
            spec_register_proposal(s, ctx, proposal_info, deadline, token_amount, now),
        Instruction::ProposalToVote { ctx, proposal_id, token_amount } =>
            spec_proposal_to_vote(s, ctx, proposal_id, token_amount, now),
        Instruction::PickWinner { ctx, proposal_id } => spec_pick_winner(s, ctx, proposal_id, now),
        Instruction::CloseProposal { ctx, proposal_id } =>
            spec_close_proposal(s, ctx, proposal_id, now),
        Instruction::CloseVoter { ctx } => spec_close_voter(s, ctx),
        Instruction::WithdrawSol { ctx, amount } => spec_withdraw_sol(s, ctx, amount),
    }
}

} // verus!
