//! The error taxonomy of the protocol.
//!
//! Every rejected instruction reports exactly one of these kinds, and each
//! handler's contract states which kind is returned on which input.  A
//! rejection is atomic: the state is left exactly as it was.

use vstd::prelude::*;

verus! {

/// One kind per distinct rejection cause.
#[derive(Clone, Copy, Debug, PartialEq, Eq, Structural)]
pub enum VoteError {
    /// The caller is not the authority recorded on the referenced record.
    UnauthorizedAccess,
    /// A referenced token account's currency does not match the expected mint.
    InvalidMint,
    /// A voter's escrow account names a different mint than the one supplied.
    TokenMintMismatch,
    /// A referenced token account's owner is not the expected identity.
    InvalidTokenAccountOwner,
    /// A supposedly derived account reference does not re-derive from its seeds.
    AddressMismatch,
    /// A referenced record or token account does not exist.
    AccountNotFound,
    /// The treasury configuration already exists, or its one-time account
    /// binding is already set.
    AlreadyInitialized,
    /// A record creation targets an address that is already occupied.
    AddressAlreadyInUse,
    /// The proposal counter singleton already exists.
    ProposalCounterAlreadyInitialized,
    /// A proposal's deadline is not strictly in the future.
    InvalidDeadline,
    /// Advancing the proposal counter would leave its representable range.
    ProposalCounterOverflow,
    /// Incrementing a proposal's tally would overflow.
    ProposalVotesOverflow,
    /// The caller's voter record already carries a vote.
    VoterAlreadyVoted,
    /// A vote arrived at or after the proposal's deadline.
    ProposalEnded,
    /// A winner declaration or proposal closure arrived before the deadline.
    VotingStillActive,
    /// A winner declaration names a proposal without any votes.
    NoVotesCast,
    /// A value movement exceeds the source balance.
    InsufficientFunds,
    /// A value movement would overflow the destination balance.
    BalanceOverflow,
}

} // verus!
