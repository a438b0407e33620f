//! Deterministic derivation of storage addresses from semantic seeds.
//!
//! Every protocol-owned record lives at an address computed from a seed tuple
//! plus a salt byte.  The address space is partitioned: addresses controlled
//! by a private key occupy one space, derived addresses another, so a derived
//! record can never collide with a participant's own account.  Every handler
//! that receives a supposedly derived reference re-derives it from the same
//! seeds and rejects the instruction on a mismatch.

use vstd::prelude::*;

verus! {

/// Address space of accounts controlled by a private key (participants).
pub const EXTERNAL_SPACE: u8 = 0;

/// Address space of protocol-derived records.
pub const DERIVED_SPACE: u8 = 1;

/// The salt chosen when a derived record is first created.  Any salt yields a
/// valid address in this keyspace, so derivation never fails to find one; the
/// canonical choice is the highest byte.
pub const CANONICAL_SALT: u8 = 255;

/// A storage location.  `space` separates key-controlled accounts from
/// derived ones, `tag` and `index` encode the seed tuple, and `salt`
/// distinguishes addresses derived from the same seeds.
#[derive(Clone, Copy, Debug, PartialEq, Eq, Structural)]
pub struct Address {
    pub space: u8,
    pub tag: u8,
    pub index: u64,
    pub salt: u8,
}

/// A semantic seed tuple: a fixed tag plus zero or more components naming one
/// protocol-owned storage location.
#[derive(Clone, Copy, Debug, PartialEq, Eq, Structural)]
pub enum Seed {
    /// The treasury configuration singleton.
    TreasuryConfig,
    /// The credit currency definition.
    CreditMint,
    /// The vault that accumulates base-currency payments.
    SolVault,
    /// The authority permitted to mint credits.
    MintAuthority,
    /// The proposal counter singleton.
    ProposalCounter,
    /// The winner record singleton.
    Winner,
    /// The voter record of one identity.
    Voter(u64),
    /// The proposal record with one id.
    Proposal(u8),
}

/// The tag byte of a seed tuple; distinct per variant.
pub open spec fn seed_tag(seed: Seed) -> u8 {
    match seed {
        Seed::TreasuryConfig => 1,
        Seed::CreditMint => 2,
        Seed::SolVault => 3,
        Seed::MintAuthority => 4,
        Seed::ProposalCounter => 5,
        Seed::Winner => 6,
        Seed::Voter(_) => 7,
        Seed::Proposal(_) => 8,
    }
}

/// The variable component of a seed tuple; zero for the singletons.
pub open spec fn seed_index(seed: Seed) -> u64 {
    match seed {
        Seed::Voter(id) => id,
        Seed::Proposal(p) => p as u64,
        _ => 0,
    }
}

/// The address derived from a seed tuple and a salt.
pub open spec fn spec_derive(seed: Seed, salt: u8) -> Address {
    Address { space: DERIVED_SPACE, tag: seed_tag(seed), index: seed_index(seed), salt }
}

/// The address controlled by the private key of one identity.
pub open spec fn spec_external_address(id: u64) -> Address {
    Address { space: EXTERNAL_SPACE, tag: 0, index: id, salt: 0 }
}

/// Derives the canonical storage address of a seed tuple.  The derivation is
/// a pure function: the same seeds and salt always give the same address.
pub fn derive_address(seed: Seed, salt: u8) -> (a: Address)
    ensures
        a == spec_derive(seed, salt),
{
    let tag: u8 = match seed {
        Seed::TreasuryConfig => 1,
        Seed::CreditMint => 2,
        Seed::SolVault => 3,
        Seed::MintAuthority => 4,
        Seed::ProposalCounter => 5,
        Seed::Winner => 6,
        Seed::Voter(_) => 7,
        Seed::Proposal(_) => 8,
    };
    let index: u64 = match seed {
        Seed::Voter(id) => id,
        Seed::Proposal(p) => p as u64,
        _ => 0,
    };
    Address { space: DERIVED_SPACE, tag, index, salt }
}

/// The account address controlled by one identity's private key.
pub fn external_address(id: u64) -> (a: Address)
    ensures
        a == spec_external_address(id),
{
    Address { space: EXTERNAL_SPACE, tag: 0, index: id, salt: 0 }
}

/// Derivation never collides: two derivations agree only when both the seed
/// tuples and the salts agree.  In particular a different salt over the same
/// seed prefix yields a different address.
pub proof fn lemma_derive_injective(s1: Seed, salt1: u8, s2: Seed, salt2: u8)
    ensures
        spec_derive(s1, salt1) == spec_derive(s2, salt2) ==> s1 == s2 && salt1 == salt2,
{
}

/// A derived address is distinct from every address a holder of a private key
/// could control: the two address spaces are disjoint.
pub proof fn lemma_derived_not_external(seed: Seed, salt: u8, id: u64)
    ensures
        spec_derive(seed, salt) != spec_external_address(id),
{
}

} // verus!
