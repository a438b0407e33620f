//! The account references named by each instruction.
//!
//! An inbound instruction does not carry records: it names the storage
//! locations it intends to touch, plus the identity that signed the call.
//! Every address that is supposed to come from protocol seeds is recomputed,
//! and ownership and currency identity are validated, before the handler
//! body runs; the checks follow the declaration order of the fields below,
//! and the first failing check's kind is the instruction's result.

use vstd::prelude::*;
use crate::addr::Address;

verus! {

/// References for creating the treasury configuration and the credit
/// currency.
#[derive(Clone, Copy, Debug, PartialEq, Eq, Structural)]
pub struct InitializeTreasury {
    /// The signing identity; recorded as the treasury authority.
    pub authority: u64,
    pub treasury_config_account: Address,
    pub x_mint: Address,
    pub sol_vault: Address,
    pub mint_authority: Address,
}

/// References for binding the treasury's credit-holding account.
#[derive(Clone, Copy, Debug, PartialEq, Eq, Structural)]
pub struct ConfigureTreasuryTokenAccount {
    pub authority: u64,
    pub treasury_config_account: Address,
    pub x_mint: Address,
    pub treasury_token_account: Address,
}

/// References for creating the proposal counter.
#[derive(Clone, Copy, Debug, PartialEq, Eq, Structural)]
pub struct InitializeProposalCounter {
    pub authority: u64,
    pub proposal_counter_account: Address,
}

/// References for purchasing credits from the treasury.
#[derive(Clone, Copy, Debug, PartialEq, Eq, Structural)]
pub struct BuyTokens {
    pub treasury_config_account: Address,
    pub sol_vault: Address,
    pub treasury_token_account: Address,
    pub x_mint: Address,
    pub buyer_token_account: Address,
    pub mint_authority: Address,
    /// The signing identity paying base currency and receiving credits.
    pub buyer: u64,
}

/// References for creating the caller's voter record.
#[derive(Clone, Copy, Debug, PartialEq, Eq, Structural)]
pub struct RegisterVoter {
    pub authority: u64,
    pub voter_account: Address,
}

/// References for registering a proposal.
#[derive(Clone, Copy, Debug, PartialEq, Eq, Structural)]
pub struct RegisterProposal {
    pub authority: u64,
    pub proposal_account: Address,
    pub proposal_counter_account: Address,
    pub x_mint: Address,
    /// The proposer's credit account, debited by the escrow.
    pub proposal_token_account: Address,
    /// The treasury-held credit account, credited by the escrow.
    pub treasury_token_account: Address,
}

/// References for casting a vote.
#[derive(Clone, Copy, Debug, PartialEq, Eq, Structural)]
pub struct Vote {
    pub voter_account: Address,
    pub x_mint: Address,
    /// The voter's credit account, debited by the escrow.
    pub voter_token_account: Address,
    /// The treasury-held credit account, credited by the escrow.
    pub treasury_token_account: Address,
    pub proposal_account: Address,
    pub authority: u64,
}

/// References for declaring a winner.
#[derive(Clone, Copy, Debug, PartialEq, Eq, Structural)]
pub struct PickWinner {
    pub winner_account: Address,
    pub proposal_account: Address,
    pub authority: u64,
}

/// References for destroying a proposal record after its deadline.
#[derive(Clone, Copy, Debug, PartialEq, Eq, Structural)]
pub struct CloseProposal {
    pub proposal_account: Address,
    /// Where the released storage cost is sent.
    pub destination: Address,
    pub authority: u64,
}

/// References for destroying the caller's own voter record.
#[derive(Clone, Copy, Debug, PartialEq, Eq, Structural)]
pub struct CloseVoter {
    pub voter_account: Address,
    pub authority: u64,
}

/// References for moving base currency from the vault to the authority.
#[derive(Clone, Copy, Debug, PartialEq, Eq, Structural)]
pub struct WithdrawSol {
    pub treasury_config: Address,
    pub sol_vault: Address,
    pub authority: u64,
}

} // verus!
