//! Governance instructions: the proposal counter, voter registration,
//! proposal registration, voting, winner declaration and record closure.

use vstd::prelude::*;
use crate::addr::{Seed, spec_derive, CANONICAL_SALT};
use crate::contexts::{
    InitializeProposalCounter, RegisterVoter, RegisterProposal, Vote, PickWinner, CloseProposal,
    CloseVoter,
};
use crate::errors::VoteError;
use crate::events::{
    ProposalCounterInitialized, VoterRegistered, ProposalCreated, VoteCast, WinnerDeclared,
    ProposalClosed, VoterAccountClosed,
};
use crate::gate::{check_derived, check_mint, check_token_owner};
use crate::ledger::{LedgerView, has_token, token_acct, spec_token_transfer};
use crate::records::{
    ProposalCounter, Proposal, ProposalView, Voter, Winner, WinnerView, MAX_PROPOSAL_INFO_LEN,
};
use crate::state::{
    GovState, GovView, gov_wf, has_proposal, proposal_at, proposal_of, has_voter, voter_at,
    voter_of, lemma_proposal_at_unique, lemma_voter_at_unique,
};

verus! {

/// The transition performed by `initialize_proposal_counter`: creates the
/// counter singleton with its count at 1 (0 is the uninitialized sentinel).
/// Fails with `ProposalCounterAlreadyInitialized` when the counter exists.
pub open spec fn spec_initialize_proposal_counter(
    s: GovView,
    ctx: InitializeProposalCounter,
) -> Result<GovView, VoteError> {
    if ctx.proposal_counter_account != spec_derive(Seed::ProposalCounter, CANONICAL_SALT) {
        Err(VoteError::AddressMismatch)
    } else if s.counter is Some {
        Err(VoteError::ProposalCounterAlreadyInitialized)
    } else {
        Ok(
            GovView {
                counter: Some(ProposalCounter { proposal_count: 1, authority: ctx.authority }),
                ..s
            },
        )
    }
}

/// Creates the proposal counter singleton.
pub fn initialize_proposal_counter(
    state: &mut GovState,
    ctx: &InitializeProposalCounter,
    now: i64,
) -> (r: Result<ProposalCounterInitialized, VoteError>)
    requires
        gov_wf(old(state)@),
    ensures
        gov_wf(final(state)@),
        ({
            let t = spec_initialize_proposal_counter(old(state)@, *ctx);
            match r {
                Ok(ev) => t matches Ok(s2) && final(state)@ == s2 && ev
                    == (ProposalCounterInitialized { authority: ctx.authority, timestamp: now }),
                Err(e) => t matches Err(e2) && e == e2 && final(state)@ == old(state)@,
            }
        }),
{
    match check_derived(ctx.proposal_counter_account, Seed::ProposalCounter, CANONICAL_SALT) {
        Err(e) => {
            return Err(e);
        },
        Ok(_) => {},
    }
    if state.counter.is_some() {
        return Err(VoteError::ProposalCounterAlreadyInitialized);
    }
    state.counter = Some(ProposalCounter { proposal_count: 1, authority: ctx.authority });
    proof {
        assert(state@ =~~= spec_initialize_proposal_counter(old(state)@, *ctx)->Ok_0);
    }
    Ok(ProposalCounterInitialized { authority: ctx.authority, timestamp: now })
}

/// The transition performed by `register_voter`: creates the caller's voter
/// record at its derived address, with no vote cast.  Fails with
/// `AddressAlreadyInUse` when the record already exists.
pub open spec fn spec_register_voter(s: GovView, ctx: RegisterVoter) -> Result<
    GovView,
    VoteError,
> {
    if ctx.voter_account != spec_derive(Seed::Voter(ctx.authority), CANONICAL_SALT) {
        Err(VoteError::AddressMismatch)
    } else if has_voter(s.voters, ctx.authority) {
        Err(VoteError::AddressAlreadyInUse)
    } else {
        Ok(
            GovView {
                voters: s.voters.push(Voter { voter_id: ctx.authority, proposal_voted: 0 }),
                ..s
            },
        )
    }
}

/// Creates the caller's voter record.
pub fn register_voter(state: &mut GovState, ctx: &RegisterVoter, now: i64) -> (r: Result<
    VoterRegistered,
    VoteError,
>)
    requires
        gov_wf(old(state)@),
    ensures
        gov_wf(final(state)@),
        ({
            let t = spec_register_voter(old(state)@, *ctx);
            match r {
                Ok(ev) => t matches Ok(s2) && final(state)@ == s2 && ev == (VoterRegistered {
                    voter: ctx.authority,
                    voter_account: ctx.voter_account,
                    timestamp: now,
                }),
                Err(e) => t matches Err(e2) && e == e2 && final(state)@ == old(state)@,
            }
        }),
{
    match check_derived(ctx.voter_account, Seed::Voter(ctx.authority), CANONICAL_SALT) {
        Err(e) => {
            return Err(e);
        },
        Ok(_) => {},
    }
    if state.find_voter(ctx.authority).is_some() {
        return Err(VoteError::AddressAlreadyInUse);
    }
    state.voters.push(Voter { voter_id: ctx.authority, proposal_voted: 0 });
    proof {
        assert(state@ =~~= spec_register_voter(old(state)@, *ctx)->Ok_0);
    }
    Ok(VoterRegistered { voter: ctx.authority, voter_account: ctx.voter_account, timestamp: now })
}

/// The transition performed by `register_proposal`: escrows `token_amount`
/// credits from the proposer into the treasury-held account, records the
/// proposal under the counter's current id, and advances the counter by one.
/// A counter reference that does not re-derive fails with `AddressMismatch`;
/// a missing counter with `AccountNotFound`.  The deadline must lie strictly
/// in the future (`InvalidDeadline`); an exhausted id space fails with
/// `ProposalCounterOverflow`.
///
/// The escrow destination is validated for the named currency only, not
/// against the treasury's configured account binding, so any credit account
/// of that currency may receive the escrow.  Tightening this to the bound
/// account is deliberately left to product review rather than decided here.
pub open spec fn spec_register_proposal(
    s: GovView,
    ctx: RegisterProposal,
    proposal_info: Seq<char>,
    deadline: i64,
    token_amount: u64,
    now: i64,
) -> Result<GovView, VoteError> {
    if ctx.proposal_counter_account != spec_derive(Seed::ProposalCounter, CANONICAL_SALT) {
        Err(VoteError::AddressMismatch)
    } else if s.counter is None {
        Err(VoteError::AccountNotFound)
    } else {
        let c = s.counter->0;
        if ctx.proposal_account != spec_derive(Seed::Proposal(c.proposal_count), CANONICAL_SALT) {
            Err(VoteError::AddressMismatch)
        } else if has_proposal(s.proposals, c.proposal_count) {
            Err(VoteError::AddressAlreadyInUse)
        } else if !has_token(s.ledger.tokens, ctx.proposal_token_account) {
            Err(VoteError::AccountNotFound)
        } else if token_acct(s.ledger.tokens, ctx.proposal_token_account).mint != ctx.x_mint {
            Err(VoteError::InvalidMint)
        } else if token_acct(s.ledger.tokens, ctx.proposal_token_account).owner != ctx.authority {
            Err(VoteError::InvalidTokenAccountOwner)
        } else if !has_token(s.ledger.tokens, ctx.treasury_token_account) {
            Err(VoteError::AccountNotFound)
        } else if token_acct(s.ledger.tokens, ctx.treasury_token_account).mint != ctx.x_mint {
            Err(VoteError::InvalidMint)
        } else if deadline <= now {
            Err(VoteError::InvalidDeadline)
        } else {
            match spec_token_transfer(
                s.ledger.tokens,
                ctx.proposal_token_account,
                ctx.treasury_token_account,
                token_amount,
            ) {
                Err(e) => Err(e),
                Ok(tokens2) => if c.proposal_count == u8::MAX {
                    Err(VoteError::ProposalCounterOverflow)
                } else {
                    Ok(
                        GovView {
                            proposals: s.proposals.push(
                                ProposalView {
                                    proposal_id: c.proposal_count,
                                    authority: ctx.authority,
                                    proposal_info,
                                    deadline,
                                    number_of_votes: 0,
                                },
                            ),
                            counter: Some(
                                ProposalCounter {
                                    proposal_count: (c.proposal_count + 1) as u8,
                                    authority: c.authority,
                                },
                            ),
                            ledger: LedgerView { tokens: tokens2, ..s.ledger },
                            ..s
                        },
                    )
                },
            }
        }
    }
}

/// Registers a proposal: escrows the offered credits, assigns the next id
/// and advances the counter.
pub fn register_proposal(
    state: &mut GovState,
    ctx: &RegisterProposal,
    proposal_info: String,
    deadline: i64,
    token_amount: u64,
    now: i64,
) -> (r: Result<ProposalCreated, VoteError>)
    requires
        gov_wf(old(state)@),
        proposal_info@.len() <= MAX_PROPOSAL_INFO_LEN,
    ensures
        gov_wf(final(state)@),
        ({
            let t = spec_register_proposal(
                old(state)@,
                *ctx,
                proposal_info@,
                deadline,
                token_amount,
                now,
            );
            match r {
                Ok(ev) => {
                    &&& t matches Ok(s2) && final(state)@ == s2
                    &&& old(state)@.counter matches Some(c) && ev.proposal_id == c.proposal_count
                    &&& ev.creator == ctx.authority
                    &&& ev.proposal_info@ == proposal_info@
                    &&& ev.deadline == deadline
                    &&& ev.timestamp == now
                },
                Err(e) => t matches Err(e2) && e == e2 && final(state)@ == old(state)@,
            }
        }),
{
    match check_derived(ctx.proposal_counter_account, Seed::ProposalCounter, CANONICAL_SALT) {
        Err(e) => {
            return Err(e);
        },
        Ok(_) => {},
    }
    let c = match state.counter {
        Some(c) => c,
        None => {
            return Err(VoteError::AccountNotFound);
        },
    };
    match check_derived(ctx.proposal_account, Seed::Proposal(c.proposal_count), CANONICAL_SALT) {
        Err(e) => {
            return Err(e);
        },
        Ok(_) => {},
    }
    if state.find_proposal(c.proposal_count).is_some() {
        return Err(VoteError::AddressAlreadyInUse);
    }
    let p_acct = match state.ledger.token_account_of(ctx.proposal_token_account) {
        Some(a) => a,
        None => {
            return Err(VoteError::AccountNotFound);
        },
    };
    match check_mint(&p_acct, ctx.x_mint, VoteError::InvalidMint) {
        Err(e) => {
            return Err(e);
        },
        Ok(_) => {},
    }
    match check_token_owner(&p_acct, ctx.authority) {
        Err(e) => {
            return Err(e);
        },
        Ok(_) => {},
    }
    let t_acct = match state.ledger.token_account_of(ctx.treasury_token_account) {
        Some(a) => a,
        None => {
            return Err(VoteError::AccountNotFound);
        },
    };
    match check_mint(&t_acct, ctx.x_mint, VoteError::InvalidMint) {
        Err(e) => {
            return Err(e);
        },
        Ok(_) => {},
    }
    if deadline <= now {
        return Err(VoteError::InvalidDeadline);
    }
    if p_acct.amount < token_amount {
        return Err(VoteError::InsufficientFunds);
    }
    if ctx.proposal_token_account != ctx.treasury_token_account && t_acct.amount > u64::MAX
        - token_amount {
        return Err(VoteError::BalanceOverflow);
    }
    if c.proposal_count == u8::MAX {
        return Err(VoteError::ProposalCounterOverflow);
    }
    let ev_info = proposal_info.clone();
    state.ledger.do_token_transfer(
        ctx.proposal_token_account,
        ctx.treasury_token_account,
        token_amount,
    );
    state.proposals.push(
        Proposal {
            proposal_id: c.proposal_count,
            authority: ctx.authority,
            proposal_info,
            deadline,
            number_of_votes: 0,
        },
    );
    state.counter = Some(
        ProposalCounter { proposal_count: c.proposal_count + 1, authority: c.authority },
    );
    proof {
        let t = spec_register_proposal(
            old(state)@,
            *ctx,
            proposal_info@,
            deadline,
            token_amount,
            now,
        );
        assert(state@ =~~= t->Ok_0);
        let s2 = state@;
        assert(forall|k: int|
            0 <= k < old(state)@.proposals.len() ==> (#[trigger] s2.proposals[k])
                == old(state)@.proposals[k]);
        assert(gov_wf(state@));
    }
    Ok(
        ProposalCreated {
            proposal_id: c.proposal_count,
            creator: ctx.authority,
            proposal_info: ev_info,
            deadline,
            timestamp: now,
        },
    )
}

/// The transition performed by `proposal_to_vote`: escrows `token_amount`
/// credits from the voter into the treasury-held account, marks the voter's
/// record with the proposal id (one-shot, `VoterAlreadyVoted` on a second
/// attempt), and increments the proposal's tally.  Voting must arrive
/// strictly before the deadline (`ProposalEnded`); an overflowing tally
/// fails with `ProposalVotesOverflow`.  The escrow amount does not weigh the
/// vote: each successful call counts exactly once.  As with registration,
/// the escrow destination is validated for the named currency only, not
/// against the treasury's configured account binding.
pub open spec fn spec_proposal_to_vote(
    s: GovView,
    ctx: Vote,
    proposal_id: u8,
    token_amount: u64,
    now: i64,
) -> Result<GovView, VoteError> {
    if ctx.voter_account != spec_derive(Seed::Voter(ctx.authority), CANONICAL_SALT) {
        Err(VoteError::AddressMismatch)
    } else if !has_voter(s.voters, ctx.authority) {
        Err(VoteError::AccountNotFound)
    } else if voter_of(s.voters, ctx.authority).proposal_voted != 0 {
        Err(VoteError::VoterAlreadyVoted)
    } else if !has_token(s.ledger.tokens, ctx.voter_token_account) {
        Err(VoteError::AccountNotFound)
    } else if token_acct(s.ledger.tokens, ctx.voter_token_account).mint != ctx.x_mint {
        Err(VoteError::TokenMintMismatch)
    } else if token_acct(s.ledger.tokens, ctx.voter_token_account).owner != ctx.authority {
        Err(VoteError::InvalidTokenAccountOwner)
    } else if !has_token(s.ledger.tokens, ctx.treasury_token_account) {
        Err(VoteError::AccountNotFound)
    } else if token_acct(s.ledger.tokens, ctx.treasury_token_account).mint != ctx.x_mint {
        Err(VoteError::InvalidMint)
    } else if ctx.proposal_account != spec_derive(Seed::Proposal(proposal_id), CANONICAL_SALT) {
        Err(VoteError::AddressMismatch)
    } else if !has_proposal(s.proposals, proposal_id) {
        Err(VoteError::AccountNotFound)
    } else {
        let prop = proposal_of(s.proposals, proposal_id);
        if prop.deadline <= now {
            Err(VoteError::ProposalEnded)
        } else {
            match spec_token_transfer(
                s.ledger.tokens,
                ctx.voter_token_account,
                ctx.treasury_token_account,
                token_amount,
            ) {
                Err(e) => Err(e),
                Ok(tokens2) => if prop.number_of_votes == u64::MAX {
                    Err(VoteError::ProposalVotesOverflow)
                } else {
                    Ok(
                        GovView {
                            voters: s.voters.update(
                                voter_at(s.voters, ctx.authority),
                                Voter { voter_id: ctx.authority, proposal_voted: proposal_id },
                            ),
                            proposals: s.proposals.update(
                                proposal_at(s.proposals, proposal_id),
                                ProposalView {
                                    number_of_votes: (prop.number_of_votes + 1) as u64,
                                    ..prop
                                },
                            ),
                            ledger: LedgerView { tokens: tokens2, ..s.ledger },
                            ..s
                        },
                    )
                },
            }
        }
    }
}

/// Casts the caller's one vote for a proposal, escrowing the offered
/// credits.
pub fn proposal_to_vote(
    state: &mut GovState,
    ctx: &Vote,
    proposal_id: u8,
    token_amount: u64,
    now: i64,
) -> (r: Result<VoteCast, VoteError>)
    requires
        gov_wf(old(state)@),
    ensures
        gov_wf(final(state)@),
        ({
            let t = spec_proposal_to_vote(old(state)@, *ctx, proposal_id, token_amount, now);
            match r {
                Ok(ev) => {
                    &&& t matches Ok(s2) && final(state)@ == s2
                    &&& ev == (VoteCast {
                        voter: ctx.authority,
                        proposal_id,
                        total_votes: (proposal_of(
                            old(state)@.proposals,
                            proposal_id,
                        ).number_of_votes + 1) as u64,
                        timestamp: now,
                    })
                },
                Err(e) => t matches Err(e2) && e == e2 && final(state)@ == old(state)@,
            }
        }),
{
    match check_derived(ctx.voter_account, Seed::Voter(ctx.authority), CANONICAL_SALT) {
        Err(e) => {
            return Err(e);
        },
        Ok(_) => {},
    }
    let vi = match state.find_voter(ctx.authority) {
        Some(i) => i,
        None => {
            return Err(VoteError::AccountNotFound);
        },
    };
    proof {
        lemma_voter_at_unique(state@.voters, ctx.authority, vi as int);
    }
    if state.voters[vi].proposal_voted != 0 {
        return Err(VoteError::VoterAlreadyVoted);
    }
    let v_acct = match state.ledger.token_account_of(ctx.voter_token_account) {
        Some(a) => a,
        None => {
            return Err(VoteError::AccountNotFound);
        },
    };
    match check_mint(&v_acct, ctx.x_mint, VoteError::TokenMintMismatch) {
        Err(e) => {
            return Err(e);
        },
        Ok(_) => {},
    }
    match check_token_owner(&v_acct, ctx.authority) {
        Err(e) => {
            return Err(e);
        },
        Ok(_) => {},
    }
    let t_acct = match state.ledger.token_account_of(ctx.treasury_token_account) {
        Some(a) => a,
        None => {
            return Err(VoteError::AccountNotFound);
        },
    };
    match check_mint(&t_acct, ctx.x_mint, VoteError::InvalidMint) {
        Err(e) => {
            return Err(e);
        },
        Ok(_) => {},
    }
    match check_derived(ctx.proposal_account, Seed::Proposal(proposal_id), CANONICAL_SALT) {
        Err(e) => {
            return Err(e);
        },
        Ok(_) => {},
    }
    let pi = match state.find_proposal(proposal_id) {
        Some(i) => i,
        None => {
            return Err(VoteError::AccountNotFound);
        },
    };
    proof {
        lemma_proposal_at_unique(state@.proposals, proposal_id, pi as int);
    }
    let deadline = state.proposals[pi].deadline;
    if deadline <= now {
        return Err(VoteError::ProposalEnded);
    }
    if v_acct.amount < token_amount {
        return Err(VoteError::InsufficientFunds);
    }
    if ctx.voter_token_account != ctx.treasury_token_account && t_acct.amount > u64::MAX
        - token_amount {
        return Err(VoteError::BalanceOverflow);
    }
    let votes = state.proposals[pi].number_of_votes;
    if votes == u64::MAX {
        return Err(VoteError::ProposalVotesOverflow);
    }
    state.ledger.do_token_transfer(
        ctx.voter_token_account,
        ctx.treasury_token_account,
        token_amount,
    );
    state.voters.set(vi, Voter { voter_id: ctx.authority, proposal_voted: proposal_id });
    let p_auth = state.proposals[pi].authority;
    let p_info = state.proposals[pi].proposal_info.clone();
    state.proposals.set(
        pi,
        Proposal {
            proposal_id,
            authority: p_auth,
            proposal_info: p_info,
            deadline,
            number_of_votes: votes + 1,
        },
    );
    proof {
        let t = spec_proposal_to_vote(old(state)@, *ctx, proposal_id, token_amount, now);
        assert(state@ =~~= t->Ok_0);
        let s2 = state@;
        assert(forall|k: int|
            0 <= k < s2.proposals.len() ==> (#[trigger] s2.proposals[k]).proposal_id == old(
                state,
            )@.proposals[k].proposal_id);
        assert(forall|k: int|
            0 <= k < s2.voters.len() ==> (#[trigger] s2.voters[k]).voter_id == old(
                state,
            )@.voters[k].voter_id);
        assert(gov_wf(state@));
    }
    Ok(VoteCast { voter: ctx.authority, proposal_id, total_votes: votes + 1, timestamp: now })
}

/// The stored winning tally: zero while no winner record exists.
pub open spec fn current_winning_votes(s: GovView) -> u64 {
    match s.winner {
        Some(w) => w.winning_votes,
        None => 0,
    }
}

/// The transition performed by `pick_winner`: after a proposal's deadline,
/// compares its tally against the stored winner and replaces the record only
/// on strict improvement, so ties keep the earliest declared winner.  Fails
/// with `VotingStillActive` before the deadline and `NoVotesCast` on a
/// voteless proposal.
pub open spec fn spec_pick_winner(s: GovView, ctx: PickWinner, proposal_id: u8, now: i64) -> Result<
    GovView,
    VoteError,
> {
    if ctx.winner_account != spec_derive(Seed::Winner, CANONICAL_SALT) {
        Err(VoteError::AddressMismatch)
    } else if ctx.proposal_account != spec_derive(Seed::Proposal(proposal_id), CANONICAL_SALT) {
        Err(VoteError::AddressMismatch)
    } else if !has_proposal(s.proposals, proposal_id) {
        Err(VoteError::AccountNotFound)
    } else {
        let prop = proposal_of(s.proposals, proposal_id);
        if now < prop.deadline {
            Err(VoteError::VotingStillActive)
        } else if prop.number_of_votes == 0 {
            Err(VoteError::NoVotesCast)
        } else if prop.number_of_votes > current_winning_votes(s) {
            Ok(
                GovView {
                    winner: Some(
                        WinnerView {
                            winning_proposal_id: proposal_id,
                            winning_votes: prop.number_of_votes,
                            proposal_info: prop.proposal_info,
                            declared_at: now,
                        },
                    ),
                    ..s
                },
            )
        } else {
            Ok(s)
        }
    }
}

/// Declares a winner if the proposal's tally strictly beats the stored one.
/// Returns the declaration event only when the record was replaced.
pub fn pick_winner(state: &mut GovState, ctx: &PickWinner, proposal_id: u8, now: i64) -> (r: Result<
    Option<WinnerDeclared>,
    VoteError,
>)
    requires
        gov_wf(old(state)@),
    ensures
        gov_wf(final(state)@),
        ({
            let t = spec_pick_winner(old(state)@, *ctx, proposal_id, now);
            match r {
                Ok(evo) => {
                    &&& t matches Ok(s2) && final(state)@ == s2
                    &&& (evo is Some <==> proposal_of(
                        old(state)@.proposals,
                        proposal_id,
                    ).number_of_votes > current_winning_votes(old(state)@))
                    &&& (evo matches Some(ev) ==> {
                        &&& ev.winning_proposal_id == proposal_id
                        &&& ev.proposal_info@ == proposal_of(
                            old(state)@.proposals,
                            proposal_id,
                        ).proposal_info
                        &&& ev.total_votes == proposal_of(
                            old(state)@.proposals,
                            proposal_id,
                        ).number_of_votes
                        &&& ev.declared_by == ctx.authority
                        &&& ev.timestamp == now
                    })
                },
                Err(e) => t matches Err(e2) && e == e2 && final(state)@ == old(state)@,
            }
        }),
{
    match check_derived(ctx.winner_account, Seed::Winner, CANONICAL_SALT) {
        Err(e) => {
            return Err(e);
        },
        Ok(_) => {},
    }
    match check_derived(ctx.proposal_account, Seed::Proposal(proposal_id), CANONICAL_SALT) {
        Err(e) => {
            return Err(e);
        },
        Ok(_) => {},
    }
    let pi = match state.find_proposal(proposal_id) {
        Some(i) => i,
        None => {
            return Err(VoteError::AccountNotFound);
        },
    };
    proof {
        lemma_proposal_at_unique(state@.proposals, proposal_id, pi as int);
    }
    let deadline = state.proposals[pi].deadline;
    if now < deadline {
        return Err(VoteError::VotingStillActive);
    }
    let votes = state.proposals[pi].number_of_votes;
    if votes == 0 {
        return Err(VoteError::NoVotesCast);
    }
    let current = match &state.winner {
        Some(w) => w.winning_votes,
        None => 0,
    };
    if votes > current {
        let info = state.proposals[pi].proposal_info.clone();
        let ev_info = info.clone();
        state.winner = Some(
            Winner {
                winning_proposal_id: proposal_id,
                winning_votes: votes,
                proposal_info: info,
                declared_at: now,
            },
        );
        proof {
            assert(state@ =~~= spec_pick_winner(old(state)@, *ctx, proposal_id, now)->Ok_0);
        }
        Ok(
            Some(
                WinnerDeclared {
                    winning_proposal_id: proposal_id,
                    proposal_info: ev_info,
                    total_votes: votes,
                    declared_by: ctx.authority,
                    timestamp: now,
                },
            ),
        )
    } else {
        proof {
            assert(state@ =~~= spec_pick_winner(old(state)@, *ctx, proposal_id, now)->Ok_0);
        }
        Ok(None)
    }
}

/// The transition performed by `close_proposal`: destroys a proposal record
/// after its deadline, releasing its storage cost to the caller-chosen
/// destination.  Only the proposal's recorded authority may close it
/// (`UnauthorizedAccess`); before the deadline the call fails with
/// `VotingStillActive`.
pub open spec fn spec_close_proposal(s: GovView, ctx: CloseProposal, proposal_id: u8, now: i64) -> Result<
    GovView,
    VoteError,
> {
    if ctx.proposal_account != spec_derive(Seed::Proposal(proposal_id), CANONICAL_SALT) {
        Err(VoteError::AddressMismatch)
    } else if !has_proposal(s.proposals, proposal_id) {
        Err(VoteError::AccountNotFound)
    } else {
        let prop = proposal_of(s.proposals, proposal_id);
        if prop.authority != ctx.authority {
            Err(VoteError::UnauthorizedAccess)
        } else if now < prop.deadline {
            Err(VoteError::VotingStillActive)
        } else {
            Ok(GovView { proposals: s.proposals.remove(proposal_at(s.proposals, proposal_id)), ..s })
        }
    }
}

/// Destroys a proposal record after its deadline.
pub fn close_proposal(
    state: &mut GovState,
    ctx: &CloseProposal,
    proposal_id: u8,
    now: i64,
) -> (r: Result<ProposalClosed, VoteError>)
    requires
        gov_wf(old(state)@),
    ensures
        gov_wf(final(state)@),
        ({
            let t = spec_close_proposal(old(state)@, *ctx, proposal_id, now);
            match r {
                Ok(ev) => t matches Ok(s2) && final(state)@ == s2 && ev == (ProposalClosed {
                    proposal_id,
                    recovered_to: ctx.destination,
                    timestamp: now,
                }),
                Err(e) => t matches Err(e2) && e == e2 && final(state)@ == old(state)@,
            }
        }),
{
    match check_derived(ctx.proposal_account, Seed::Proposal(proposal_id), CANONICAL_SALT) {
        Err(e) => {
            return Err(e);
        },
        Ok(_) => {},
    }
    let pi = match state.find_proposal(proposal_id) {
        Some(i) => i,
        None => {
            return Err(VoteError::AccountNotFound);
        },
    };
    proof {
        lemma_proposal_at_unique(state@.proposals, proposal_id, pi as int);
    }
    if state.proposals[pi].authority != ctx.authority {
        return Err(VoteError::UnauthorizedAccess);
    }
    let deadline = state.proposals[pi].deadline;
    if now < deadline {
        return Err(VoteError::VotingStillActive);
    }
    state.proposals.remove(pi);
    proof {
        let t = spec_close_proposal(old(state)@, *ctx, proposal_id, now);
        assert(state@ =~~= t->Ok_0);
        assert(gov_wf(state@));
    }
    Ok(ProposalClosed { proposal_id, recovered_to: ctx.destination, timestamp: now })
}

/// The transition performed by `close_voter`: destroys the caller's own
/// voter record unconditionally, whatever its vote state.
pub open spec fn spec_close_voter(s: GovView, ctx: CloseVoter) -> Result<GovView, VoteError> {
    if ctx.voter_account != spec_derive(Seed::Voter(ctx.authority), CANONICAL_SALT) {
        Err(VoteError::AddressMismatch)
    } else if !has_voter(s.voters, ctx.authority) {
        Err(VoteError::AccountNotFound)
    } else {
        Ok(GovView { voters: s.voters.remove(voter_at(s.voters, ctx.authority)), ..s })
    }
}

/// Destroys the caller's own voter record.
pub fn close_voter(state: &mut GovState, ctx: &CloseVoter, now: i64) -> (r: Result<
    VoterAccountClosed,
    VoteError,
>)
    requires
        gov_wf(old(state)@),
    ensures
        gov_wf(final(state)@),
        ({
            let t = spec_close_voter(old(state)@, *ctx);
            match r {
                Ok(ev) => t matches Ok(s2) && final(state)@ == s2 && ev == (VoterAccountClosed {
                    voter: ctx.authority,
                    rent_recovered_to: ctx.authority,
                    timestamp: now,
                }),
                Err(e) => t matches Err(e2) && e == e2 && final(state)@ == old(state)@,
            }
        }),
{
    match check_derived(ctx.voter_account, Seed::Voter(ctx.authority), CANONICAL_SALT) {
        Err(e) => {
            return Err(e);
        },
        Ok(_) => {},
    }
    let vi = match state.find_voter(ctx.authority) {
        Some(i) => i,
        None => {
            return Err(VoteError::AccountNotFound);
        },
    };
    proof {
        lemma_voter_at_unique(state@.voters, ctx.authority, vi as int);
    }
    state.voters.remove(vi);
    proof {
        let t = spec_close_voter(old(state)@, *ctx);
        assert(state@ =~~= t->Ok_0);
        assert(gov_wf(state@));
    }
    Ok(VoterAccountClosed { voter: ctx.authority, rent_recovered_to: ctx.authority, timestamp: now })
}

} // verus!
