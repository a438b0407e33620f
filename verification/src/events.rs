//! Structured notifications returned by successful instructions.
//!
//! Each successful transition yields one notification carrying the
//! instruction kind, the principal identities involved, the amounts moved and
//! the logical timestamp.  The protocol never reads them back; they exist for
//! off-chain audit, and each handler's contract pins their fields.

use vstd::prelude::*;
use crate::addr::Address;

verus! {

/// The treasury configuration and credit currency were created.
#[derive(Clone, Copy, Debug, PartialEq, Eq, Structural)]
pub struct TreasuryInitialized {
    pub authority: u64,
    pub x_mint: Address,
    pub sol_price: u64,
    pub tokens_per_purchase: u64,
    pub timestamp: i64,
}

/// A participant purchased credits from the treasury.
#[derive(Clone, Copy, Debug, PartialEq, Eq, Structural)]
pub struct TokensPurchased {
    pub buyer: u64,
    pub sol_paid: u64,
    pub tokens_received: u64,
    pub timestamp: i64,
}

/// The authority withdrew base currency from the vault.
#[derive(Clone, Copy, Debug, PartialEq, Eq, Structural)]
pub struct SolWithdrawn {
    pub authority: u64,
    pub amount: u64,
    pub timestamp: i64,
}

/// The proposal counter was created.
#[derive(Clone, Copy, Debug, PartialEq, Eq, Structural)]
pub struct ProposalCounterInitialized {
    pub authority: u64,
    pub timestamp: i64,
}

/// A voter record was created.
#[derive(Clone, Copy, Debug, PartialEq, Eq, Structural)]
pub struct VoterRegistered {
    pub voter: u64,
    pub voter_account: Address,
    pub timestamp: i64,
}

/// A proposal was registered.
#[derive(Debug)]
pub struct ProposalCreated {
    pub proposal_id: u8,
    pub creator: u64,
    pub proposal_info: String,
    pub deadline: i64,
    pub timestamp: i64,
}

/// A vote was cast.
#[derive(Clone, Copy, Debug, PartialEq, Eq, Structural)]
pub struct VoteCast {
    pub voter: u64,
    pub proposal_id: u8,
    pub total_votes: u64,
    pub timestamp: i64,
}

/// The winner record was created or replaced by a strictly higher tally.
#[derive(Debug)]
pub struct WinnerDeclared {
    pub winning_proposal_id: u8,
    pub proposal_info: String,
    pub total_votes: u64,
    pub declared_by: u64,
    pub timestamp: i64,
}

/// A proposal record was destroyed and its storage cost released.
#[derive(Clone, Copy, Debug, PartialEq, Eq, Structural)]
pub struct ProposalClosed {
    pub proposal_id: u8,
    pub recovered_to: Address,
    pub timestamp: i64,
}

/// A voter record was destroyed and its storage cost released.
#[derive(Clone, Copy, Debug, PartialEq, Eq, Structural)]
pub struct VoterAccountClosed {
    pub voter: u64,
    /// The identity the released storage cost returns to: the voter itself.
    pub rent_recovered_to: u64,
    pub timestamp: i64,
}

} // verus!
