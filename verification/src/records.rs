//! The persisted records of the protocol.
//!
//! Each record is owned by the protocol's derived-address namespace and is
//! mutated only by the instruction handlers.  Records whose fields are plain
//! integers are used directly in specifications; records carrying a bounded
//! string have a mathematical view.

use vstd::prelude::*;

verus! {

/// The largest number of characters a proposal description may carry; record
/// layouts are fixed, so strings are length-prefixed and bounded.
pub const MAX_PROPOSAL_INFO_LEN: usize = 256;

/// The treasury configuration singleton.  `authority` is fixed at creation;
/// `treasury_token_account` is bound by a follow-up configuration call.
#[derive(Clone, Copy, Debug, PartialEq, Eq, Structural)]
pub struct TreasuryConfig {
    /// The identity permitted to perform privileged treasury operations.
    pub authority: u64,
    /// The salt under which the vault address was derived.
    pub bump: u8,
    /// Base-currency units charged per purchase.
    pub sol_price: u64,
    /// The credit currency definition's address.
    pub x_mint: crate::addr::Address,
    /// The treasury's credit-holding account, unset until configured.
    pub treasury_token_account: Option<crate::addr::Address>,
    /// Credits minted per purchase.
    pub tokens_per_purchase: u64,
}

/// The proposal counter singleton.  Starts at 1 on creation (0 is the
/// uninitialized sentinel) and advances by exactly 1 per registered proposal.
#[derive(Clone, Copy, Debug, PartialEq, Eq, Structural)]
pub struct ProposalCounter {
    /// The id the next registered proposal will receive.
    pub proposal_count: u8,
    /// The identity that created the counter.
    pub authority: u64,
}

/// A registered proposal.  `proposal_id` is assigned from the counter at
/// creation and immutable; `number_of_votes` grows only while voting is open.
#[derive(Debug)]
pub struct Proposal {
    pub proposal_id: u8,
    pub authority: u64,
    pub proposal_info: String,
    /// Logical time at which voting closes.
    pub deadline: i64,
    pub number_of_votes: u64,
}

/// The mathematical view of a proposal: the description as a character
/// sequence.
#[verifier::ext_equal]
pub struct ProposalView {
    pub proposal_id: u8,
    pub authority: u64,
    pub proposal_info: Seq<char>,
    pub deadline: i64,
    pub number_of_votes: u64,
}

impl View for Proposal {
    type V = ProposalView;

    open spec fn view(&self) -> ProposalView {
        ProposalView {
            proposal_id: self.proposal_id,
            authority: self.authority,
            proposal_info: self.proposal_info@,
            deadline: self.deadline,
            number_of_votes: self.number_of_votes,
        }
    }
}

/// A voter record, one per identity; its address is derived from the
/// identity.  `proposal_voted` moves from 0 to a proposal id exactly once.
#[derive(Clone, Copy, Debug, PartialEq, Eq, Structural)]
pub struct Voter {
    pub voter_id: u64,
    /// The id of the proposal this voter backed; 0 while no vote is cast.
    pub proposal_voted: u8,
}

/// The winner singleton, created lazily on the first declaration and replaced
/// only when a candidate's tally strictly exceeds the stored one.  It is
/// never destroyed, so it may go on naming a proposal whose record has since
/// been closed: winner tracking is independent of proposal retention.
#[derive(Debug)]
pub struct Winner {
    pub winning_proposal_id: u8,
    pub winning_votes: u64,
    pub proposal_info: String,
    /// Logical time of the declaration.
    pub declared_at: i64,
}

/// The mathematical view of the winner record.
#[verifier::ext_equal]
pub struct WinnerView {
    pub winning_proposal_id: u8,
    pub winning_votes: u64,
    pub proposal_info: Seq<char>,
    pub declared_at: i64,
}

impl View for Winner {
    type V = WinnerView;

    open spec fn view(&self) -> WinnerView {
        WinnerView {
            winning_proposal_id: self.winning_proposal_id,
            winning_votes: self.winning_votes,
            proposal_info: self.proposal_info@,
            declared_at: self.declared_at,
        }
    }
}

} // verus!
