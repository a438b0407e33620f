//! Treasury instructions: creating and configuring the treasury, purchasing
//! credits, and withdrawing base currency from the vault.

use vstd::prelude::*;
use crate::addr::{Seed, spec_derive, spec_external_address, external_address, CANONICAL_SALT};
use crate::contexts::{InitializeTreasury, ConfigureTreasuryTokenAccount, BuyTokens, WithdrawSol};
use crate::errors::VoteError;
use crate::events::{TreasuryInitialized, TokensPurchased, SolWithdrawn};
use crate::gate::{check_derived, check_signer, check_mint, check_token_owner};
use crate::ledger::{LedgerView, has_token, token_acct, spec_base_transfer, spec_mint_to};
use crate::records::TreasuryConfig;
use crate::state::{GovState, GovView, gov_wf};

verus! {

/// The transition performed by `initialize_treasury`: creates the treasury
/// configuration bound to the signing authority, pricing one purchase at
/// `sol_price` base units for `tokens_per_purchase` credits.  Fails with
/// `AddressMismatch` when a derived reference does not re-derive, and with
/// `AlreadyInitialized` when the configuration already exists.
pub open spec fn spec_initialize_treasury(
    s: GovView,
    ctx: InitializeTreasury,
    sol_price: u64,
    tokens_per_purchase: u64,
) -> Result<GovView, VoteError> {
    if ctx.treasury_config_account != spec_derive(Seed::TreasuryConfig, CANONICAL_SALT) {
        Err(VoteError::AddressMismatch)
    } else if s.treasury is Some {
        Err(VoteError::AlreadyInitialized)
    } else if ctx.x_mint != spec_derive(Seed::CreditMint, CANONICAL_SALT) {
        Err(VoteError::AddressMismatch)
    } else if ctx.sol_vault != spec_derive(Seed::SolVault, CANONICAL_SALT) {
        Err(VoteError::AddressMismatch)
    } else if ctx.mint_authority != spec_derive(Seed::MintAuthority, CANONICAL_SALT) {
        Err(VoteError::AddressMismatch)
    } else {
        Ok(
            GovView {
                treasury: Some(
                    TreasuryConfig {
                        authority: ctx.authority,
                        bump: CANONICAL_SALT,
                        sol_price,
                        x_mint: ctx.x_mint,
                        treasury_token_account: None,
                        tokens_per_purchase,
                    },
                ),
                ..s
            },
        )
    }
}

/// Creates the treasury configuration and the credit currency definition.
pub fn initialize_treasury(
    state: &mut GovState,
    ctx: &InitializeTreasury,
    sol_price: u64,
    tokens_per_purchase: u64,
    now: i64,
) -> (r: Result<TreasuryInitialized, VoteError>)
    requires
        gov_wf(old(state)@),
    ensures
        gov_wf(final(state)@),
        ({
            let t = spec_initialize_treasury(old(state)@, *ctx, sol_price, tokens_per_purchase);
            match r {
                Ok(ev) => t matches Ok(s2) && final(state)@ == s2 && ev == (TreasuryInitialized {
                    authority: ctx.authority,
                    x_mint: ctx.x_mint,
                    sol_price,
                    tokens_per_purchase,
                    timestamp: now,
                }),
                Err(e) => t matches Err(e2) && e == e2 && final(state)@ == old(state)@,
            }
        }),
{
    match check_derived(ctx.treasury_config_account, Seed::TreasuryConfig, CANONICAL_SALT) {
        Err(e) => {
            return Err(e);
        },
        Ok(_) => {},
    }
    if state.treasury.is_some() {
        return Err(VoteError::AlreadyInitialized);
    }
    match check_derived(ctx.x_mint, Seed::CreditMint, CANONICAL_SALT) {
        Err(e) => {
            return Err(e);
        },
        Ok(_) => {},
    }
    match check_derived(ctx.sol_vault, Seed::SolVault, CANONICAL_SALT) {
        Err(e) => {
            return Err(e);
        },
        Ok(_) => {},
    }
    match check_derived(ctx.mint_authority, Seed::MintAuthority, CANONICAL_SALT) {
        Err(e) => {
            return Err(e);
        },
        Ok(_) => {},
    }
    state.treasury = Some(
        TreasuryConfig {
            authority: ctx.authority,
            bump: CANONICAL_SALT,
            sol_price,
            x_mint: ctx.x_mint,
            treasury_token_account: None,
            tokens_per_purchase,
        },
    );
    proof {
        assert(state@ =~~= spec_initialize_treasury(
            old(state)@,
            *ctx,
            sol_price,
            tokens_per_purchase,
        )->Ok_0);
    }
    Ok(
        TreasuryInitialized {
            authority: ctx.authority,
            x_mint: ctx.x_mint,
            sol_price,
            tokens_per_purchase,
            timestamp: now,
        },
    )
}

/// The transition performed by `configure_treasury_token_account`: binds the
/// treasury's credit-holding account into the configuration.  The binding is
/// one-time: once set it is never replaced, and a further configuration call
/// fails with `AlreadyInitialized`.  Only the stored authority may configure
/// (`UnauthorizedAccess`); the account must exist (`AccountNotFound`), hold
/// the credit currency (`InvalidMint`) and be owned by the authority
/// (`InvalidTokenAccountOwner`).
pub open spec fn spec_configure_treasury_token_account(
    s: GovView,
    ctx: ConfigureTreasuryTokenAccount,
) -> Result<GovView, VoteError> {
    if ctx.treasury_config_account != spec_derive(Seed::TreasuryConfig, CANONICAL_SALT) {
        Err(VoteError::AddressMismatch)
    } else if s.treasury is None {
        Err(VoteError::AccountNotFound)
    } else {
        let cfg = s.treasury->0;
        if ctx.authority != cfg.authority {
            Err(VoteError::UnauthorizedAccess)
        } else if cfg.treasury_token_account is Some {
            Err(VoteError::AlreadyInitialized)
        } else if ctx.x_mint != cfg.x_mint {
            Err(VoteError::InvalidMint)
        } else if !has_token(s.ledger.tokens, ctx.treasury_token_account) {
            Err(VoteError::AccountNotFound)
        } else {
            let acct = token_acct(s.ledger.tokens, ctx.treasury_token_account);
            if acct.mint != ctx.x_mint {
                Err(VoteError::InvalidMint)
            } else if acct.owner != ctx.authority {
                Err(VoteError::InvalidTokenAccountOwner)
            } else {
                Ok(
                    GovView {
                        treasury: Some(
                            TreasuryConfig {
                                treasury_token_account: Some(ctx.treasury_token_account),
                                ..cfg
                            },
                        ),
                        ..s
                    },
                )
            }
        }
    }
}

/// Binds the treasury's credit-holding account into the configuration, a
/// one-time operation.
pub fn configure_treasury_token_account(
    state: &mut GovState,
    ctx: &ConfigureTreasuryTokenAccount,
) -> (r: Result<(), VoteError>)
    requires
        gov_wf(old(state)@),
    ensures
        gov_wf(final(state)@),
        ({
            let t = spec_configure_treasury_token_account(old(state)@, *ctx);
            match r {
                Ok(_) => t matches Ok(s2) && final(state)@ == s2,
                Err(e) => t matches Err(e2) && e == e2 && final(state)@ == old(state)@,
            }
        }),
{
    match check_derived(ctx.treasury_config_account, Seed::TreasuryConfig, CANONICAL_SALT) {
        Err(e) => {
            return Err(e);
        },
        Ok(_) => {},
    }
    let cfg = match state.treasury {
        Some(c) => c,
        None => {
            return Err(VoteError::AccountNotFound);
        },
    };
    match check_signer(ctx.authority, cfg.authority) {
        Err(e) => {
            return Err(e);
        },
        Ok(_) => {},
    }
    if cfg.treasury_token_account.is_some() {
        return Err(VoteError::AlreadyInitialized);
    }
    if ctx.x_mint != cfg.x_mint {
        return Err(VoteError::InvalidMint);
    }
    let acct = match state.ledger.token_account_of(ctx.treasury_token_account) {
        Some(a) => a,
        None => {
            return Err(VoteError::AccountNotFound);
        },
    };
    match check_mint(&acct, ctx.x_mint, VoteError::InvalidMint) {
        Err(e) => {
            return Err(e);
        },
        Ok(_) => {},
    }
    match check_token_owner(&acct, ctx.authority) {
        Err(e) => {
            return Err(e);
        },
        Ok(_) => {},
    }
    state.treasury = Some(
        TreasuryConfig { treasury_token_account: Some(ctx.treasury_token_account), ..cfg },
    );
    proof {
        assert(state@ =~~= spec_configure_treasury_token_account(old(state)@, *ctx)->Ok_0);
    }
    Ok(())
}

/// The transition performed by `buy_tokens`: moves the configured price in
/// base currency from the buyer to the vault, then mints the configured
/// number of credits to the buyer's credit account.  The referenced
/// treasury, vault and account triple must match the stored configuration.
pub open spec fn spec_buy_tokens(s: GovView, ctx: BuyTokens) -> Result<GovView, VoteError> {
    if ctx.treasury_config_account != spec_derive(Seed::TreasuryConfig, CANONICAL_SALT) {
        Err(VoteError::AddressMismatch)
    } else if s.treasury is None {
        Err(VoteError::AccountNotFound)
    } else {
        let cfg = s.treasury->0;
        if cfg.x_mint != ctx.x_mint {
            Err(VoteError::InvalidMint)
        } else if cfg.treasury_token_account != Some(ctx.treasury_token_account) {
            Err(VoteError::InvalidTokenAccountOwner)
        } else if ctx.sol_vault != spec_derive(Seed::SolVault, cfg.bump) {
            Err(VoteError::AddressMismatch)
        } else if !has_token(s.ledger.tokens, ctx.treasury_token_account) {
            Err(VoteError::AccountNotFound)
        } else if !has_token(s.ledger.tokens, ctx.buyer_token_account) {
            Err(VoteError::AccountNotFound)
        } else {
            let buyer_acct = token_acct(s.ledger.tokens, ctx.buyer_token_account);
            if buyer_acct.owner != ctx.buyer {
                Err(VoteError::InvalidTokenAccountOwner)
            } else if buyer_acct.mint != ctx.x_mint {
                Err(VoteError::InvalidMint)
            } else if ctx.mint_authority != spec_derive(Seed::MintAuthority, CANONICAL_SALT) {
                Err(VoteError::AddressMismatch)
            } else {
                match spec_base_transfer(
                    s.ledger.base,
                    spec_external_address(ctx.buyer),
                    ctx.sol_vault,
                    cfg.sol_price,
                ) {
                    Err(e) => Err(e),
                    Ok(base2) => match spec_mint_to(
                        s.ledger.tokens,
                        ctx.x_mint,
                        ctx.buyer_token_account,
                        cfg.tokens_per_purchase,
                    ) {
                        Err(e) => Err(e),
                        Ok(tokens2) => Ok(
                            GovView { ledger: LedgerView { tokens: tokens2, base: base2 }, ..s },
                        ),
                    },
                }
            }
        }
    }
}

/// Purchases credits: pays the configured price into the vault and mints the
/// configured number of credits to the buyer.  This is the only path that
/// creates new credits.
pub fn buy_tokens(state: &mut GovState, ctx: &BuyTokens, now: i64) -> (r: Result<
    TokensPurchased,
    VoteError,
>)
    requires
        gov_wf(old(state)@),
    ensures
        gov_wf(final(state)@),
        ({
            let t = spec_buy_tokens(old(state)@, *ctx);
            match r {
                Ok(ev) => {
                    &&& t matches Ok(s2) && final(state)@ == s2
                    &&& old(state)@.treasury matches Some(cfg) && ev == (TokensPurchased {
                        buyer: ctx.buyer,
                        sol_paid: cfg.sol_price,
                        tokens_received: cfg.tokens_per_purchase,
                        timestamp: now,
                    })
                },
                Err(e) => t matches Err(e2) && e == e2 && final(state)@ == old(state)@,
            }
        }),
{
    match check_derived(ctx.treasury_config_account, Seed::TreasuryConfig, CANONICAL_SALT) {
        Err(e) => {
            return Err(e);
        },
        Ok(_) => {},
    }
    let cfg = match state.treasury {
        Some(c) => c,
        None => {
            return Err(VoteError::AccountNotFound);
        },
    };
    if cfg.x_mint != ctx.x_mint {
        return Err(VoteError::InvalidMint);
    }
    match cfg.treasury_token_account {
        Some(a) => {
            if a != ctx.treasury_token_account {
                return Err(VoteError::InvalidTokenAccountOwner);
            }
        },
        None => {
            return Err(VoteError::InvalidTokenAccountOwner);
        },
    }
    match check_derived(ctx.sol_vault, Seed::SolVault, cfg.bump) {
        Err(e) => {
            return Err(e);
        },
        Ok(_) => {},
    }
    if state.ledger.token_account_of(ctx.treasury_token_account).is_none() {
        return Err(VoteError::AccountNotFound);
    }
    let buyer_acct = match state.ledger.token_account_of(ctx.buyer_token_account) {
        Some(a) => a,
        None => {
            return Err(VoteError::AccountNotFound);
        },
    };
    match check_token_owner(&buyer_acct, ctx.buyer) {
        Err(e) => {
            return Err(e);
        },
        Ok(_) => {},
    }
    match check_mint(&buyer_acct, ctx.x_mint, VoteError::InvalidMint) {
        Err(e) => {
            return Err(e);
        },
        Ok(_) => {},
    }
    match check_derived(ctx.mint_authority, Seed::MintAuthority, CANONICAL_SALT) {
        Err(e) => {
            return Err(e);
        },
        Ok(_) => {},
    }
    let buyer_base = external_address(ctx.buyer);
    let buyer_bal = state.ledger.base_balance_of(buyer_base);
    if buyer_bal < cfg.sol_price {
        return Err(VoteError::InsufficientFunds);
    }
    let vault_bal = state.ledger.base_balance_of(ctx.sol_vault);
    if vault_bal > u64::MAX - cfg.sol_price {
        return Err(VoteError::BalanceOverflow);
    }
    if buyer_acct.amount > u64::MAX - cfg.tokens_per_purchase {
        return Err(VoteError::BalanceOverflow);
    }
    state.ledger.do_base_transfer(buyer_base, ctx.sol_vault, cfg.sol_price);
    state.ledger.do_mint_to(ctx.x_mint, ctx.buyer_token_account, cfg.tokens_per_purchase);
    proof {
        assert(state@ =~~= spec_buy_tokens(old(state)@, *ctx)->Ok_0);
    }
    Ok(
        TokensPurchased {
            buyer: ctx.buyer,
            sol_paid: cfg.sol_price,
            tokens_received: cfg.tokens_per_purchase,
            timestamp: now,
        },
    )
}

/// The transition performed by `withdraw_sol`: moves `amount` of base
/// currency from the vault to the authority.  Only the stored authority may
/// withdraw.
pub open spec fn spec_withdraw_sol(s: GovView, ctx: WithdrawSol, amount: u64) -> Result<
    GovView,
    VoteError,
> {
    if ctx.treasury_config != spec_derive(Seed::TreasuryConfig, CANONICAL_SALT) {
        Err(VoteError::AddressMismatch)
    } else if s.treasury is None {
        Err(VoteError::AccountNotFound)
    } else {
        let cfg = s.treasury->0;
        if ctx.authority != cfg.authority {
            Err(VoteError::UnauthorizedAccess)
        } else if ctx.sol_vault != spec_derive(Seed::SolVault, cfg.bump) {
            Err(VoteError::AddressMismatch)
        } else {
            match spec_base_transfer(
                s.ledger.base,
                ctx.sol_vault,
                spec_external_address(ctx.authority),
                amount,
            ) {
                Err(e) => Err(e),
                Ok(base2) => Ok(
                    GovView { ledger: LedgerView { base: base2, ..s.ledger }, ..s },
                ),
            }
        }
    }
}

/// Withdraws base currency from the vault to the authority.
pub fn withdraw_sol(state: &mut GovState, ctx: &WithdrawSol, amount: u64, now: i64) -> (r: Result<
    SolWithdrawn,
    VoteError,
>)
    requires
        gov_wf(old(state)@),
    ensures
        gov_wf(final(state)@),
        ({
            let t = spec_withdraw_sol(old(state)@, *ctx, amount);
            match r {
                Ok(ev) => t matches Ok(s2) && final(state)@ == s2 && ev == (SolWithdrawn {
                    authority: ctx.authority,
                    amount,
                    timestamp: now,
                }),
                Err(e) => t matches Err(e2) && e == e2 && final(state)@ == old(state)@,
            }
        }),
{
    match check_derived(ctx.treasury_config, Seed::TreasuryConfig, CANONICAL_SALT) {
        Err(e) => {
            return Err(e);
        },
        Ok(_) => {},
    }
    let cfg = match state.treasury {
        Some(c) => c,
        None => {
            return Err(VoteError::AccountNotFound);
        },
    };
    match check_signer(ctx.authority, cfg.authority) {
        Err(e) => {
            return Err(e);
        },
        Ok(_) => {},
    }
    match check_derived(ctx.sol_vault, Seed::SolVault, cfg.bump) {
        Err(e) => {
            return Err(e);
        },
        Ok(_) => {},
    }
    let vault_bal = state.ledger.base_balance_of(ctx.sol_vault);
    if vault_bal < amount {
        return Err(VoteError::InsufficientFunds);
    }
    let dest = external_address(ctx.authority);
    let dest_bal = state.ledger.base_balance_of(dest);
    if dest_bal > u64::MAX - amount {
        return Err(VoteError::BalanceOverflow);
    }
    state.ledger.do_base_transfer(ctx.sol_vault, dest, amount);
    proof {
        assert(state@ =~~= spec_withdraw_sol(old(state)@, *ctx, amount)->Ok_0);
    }
    Ok(SolWithdrawn { authority: ctx.authority, amount, timestamp: now })
}

} // verus!
