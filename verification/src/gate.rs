//! The declarative constraint checks run before any mutation.
//!
//! Each predicate validates one expectation about an inbound reference and
//! returns a specific error kind, never a bare boolean, so the cause of a
//! rejection is part of the observable contract.  A handler runs its checks
//! in the declaration order of its context struct and stops at the first
//! failure, leaving the state untouched.

use vstd::prelude::*;
use crate::addr::{Address, Seed, spec_derive, derive_address};
use crate::errors::VoteError;
use crate::ledger::TokenAccount;

verus! {

/// Rejects a supposedly derived reference that does not re-derive from its
/// seeds and salt.
pub fn check_derived(supplied: Address, seed: Seed, salt: u8) -> (r: Result<(), VoteError>)
    ensures
        r is Ok <==> supplied == spec_derive(seed, salt),
        r is Err ==> r->Err_0 == VoteError::AddressMismatch,
{
    let expected = derive_address(seed, salt);
    if supplied == expected {
        Ok(())
    } else {
        Err(VoteError::AddressMismatch)
    }
}

/// Rejects a caller that is not the required authority.
pub fn check_signer(caller: u64, required: u64) -> (r: Result<(), VoteError>)
    ensures
        r is Ok <==> caller == required,
        r is Err ==> r->Err_0 == VoteError::UnauthorizedAccess,
{
    if caller == required {
        Ok(())
    } else {
        Err(VoteError::UnauthorizedAccess)
    }
}

/// Rejects a token account whose currency is not the expected mint; the
/// caller chooses which mismatch kind the context prescribes.
pub fn check_mint(acct: &TokenAccount, expected: Address, kind: VoteError) -> (r: Result<
    (),
    VoteError,
>)
    ensures
        r is Ok <==> acct.mint == expected,
        r is Err ==> r->Err_0 == kind,
{
    if acct.mint == expected {
        Ok(())
    } else {
        Err(kind)
    }
}

/// Rejects a token account not owned by the expected identity.
pub fn check_token_owner(acct: &TokenAccount, expected: u64) -> (r: Result<(), VoteError>)
    ensures
        r is Ok <==> acct.owner == expected,
        r is Err ==> r->Err_0 == VoteError::InvalidTokenAccountOwner,
{
    if acct.owner == expected {
        Ok(())
    } else {
        Err(VoteError::InvalidTokenAccountOwner)
    }
}

} // verus!
