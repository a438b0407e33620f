use vote_app::addr::{derive_address, external_address, Address, Seed, CANONICAL_SALT};
use vote_app::contexts::{BuyTokens, ConfigureTreasuryTokenAccount, InitializeTreasury, WithdrawSol};
use vote_app::errors::VoteError;
use vote_app::handlers::treasury::{
    buy_tokens, configure_treasury_token_account, initialize_treasury, withdraw_sol,
};
use vote_app::ledger::{TokenAccount, TokenEntry};
use vote_app::state::GovState;

const AUTHORITY: u64 = 1;
const BUYER: u64 = 2;
const PRICE: u64 = 50;
const CREDITS: u64 = 10;

fn init_ctx() -> InitializeTreasury {
    InitializeTreasury {
        authority: AUTHORITY,
        treasury_config_account: derive_address(Seed::TreasuryConfig, CANONICAL_SALT),
        x_mint: derive_address(Seed::CreditMint, CANONICAL_SALT),
        sol_vault: derive_address(Seed::SolVault, CANONICAL_SALT),
        mint_authority: derive_address(Seed::MintAuthority, CANONICAL_SALT),
    }
}

fn credit_mint() -> Address {
    derive_address(Seed::CreditMint, CANONICAL_SALT)
}

fn treasury_token_addr() -> Address {
    external_address(100)
}

fn buyer_token_addr() -> Address {
    external_address(200)
}

/// A state with an initialized and configured treasury.
fn configured() -> GovState {
    let mut s = GovState::new();
    initialize_treasury(&mut s, &init_ctx(), PRICE, CREDITS, 0).unwrap();
    s.ledger
        .create_token_account(treasury_token_addr(), AUTHORITY, credit_mint())
        .unwrap();
    let ctx = ConfigureTreasuryTokenAccount {
        authority: AUTHORITY,
        treasury_config_account: derive_address(Seed::TreasuryConfig, CANONICAL_SALT),
        x_mint: credit_mint(),
        treasury_token_account: treasury_token_addr(),
    };
    configure_treasury_token_account(&mut s, &ctx).unwrap();
    s
}

fn buy_ctx() -> BuyTokens {
    BuyTokens {
        treasury_config_account: derive_address(Seed::TreasuryConfig, CANONICAL_SALT),
        sol_vault: derive_address(Seed::SolVault, CANONICAL_SALT),
        treasury_token_account: treasury_token_addr(),
        x_mint: credit_mint(),
        buyer_token_account: buyer_token_addr(),
        mint_authority: derive_address(Seed::MintAuthority, CANONICAL_SALT),
        buyer: BUYER,
    }
}

/// A configured state with a funded buyer holding a credit account.
fn with_funded_buyer(lamports: u64) -> GovState {
    let mut s = configured();
    s.ledger
        .create_token_account(buyer_token_addr(), BUYER, credit_mint())
        .unwrap();
    s.ledger.credit_base(external_address(BUYER), lamports).unwrap();
    s
}

#[test]
fn initialize_treasury_records_configuration() {
    let mut s = GovState::new();
    let ev = initialize_treasury(&mut s, &init_ctx(), PRICE, CREDITS, 7).unwrap();
    let cfg = s.treasury.unwrap();
    assert_eq!(cfg.authority, AUTHORITY);
    assert_eq!(cfg.sol_price, PRICE);
    assert_eq!(cfg.tokens_per_purchase, CREDITS);
    assert_eq!(cfg.x_mint, credit_mint());
    assert!(cfg.treasury_token_account.is_none());
    assert_eq!(ev.sol_price, PRICE);
    assert_eq!(ev.timestamp, 7);
}

#[test]
fn initialize_treasury_twice_fails() {
    let mut s = GovState::new();
    initialize_treasury(&mut s, &init_ctx(), PRICE, CREDITS, 0).unwrap();
    let r = initialize_treasury(&mut s, &init_ctx(), PRICE, CREDITS, 0);
    assert_eq!(r.unwrap_err(), VoteError::AlreadyInitialized);
}

#[test]
fn initialize_treasury_wrong_vault_fails() {
    let mut s = GovState::new();
    let mut ctx = init_ctx();
    ctx.sol_vault = external_address(9);
    let r = initialize_treasury(&mut s, &ctx, PRICE, CREDITS, 0);
    assert_eq!(r.unwrap_err(), VoteError::AddressMismatch);
}

#[test]
fn configure_requires_authority() {
    let mut s = GovState::new();
    initialize_treasury(&mut s, &init_ctx(), PRICE, CREDITS, 0).unwrap();
    s.ledger
        .create_token_account(treasury_token_addr(), AUTHORITY, credit_mint())
        .unwrap();
    let ctx = ConfigureTreasuryTokenAccount {
        authority: 99,
        treasury_config_account: derive_address(Seed::TreasuryConfig, CANONICAL_SALT),
        x_mint: credit_mint(),
        treasury_token_account: treasury_token_addr(),
    };
    let r = configure_treasury_token_account(&mut s, &ctx);
    assert_eq!(r.unwrap_err(), VoteError::UnauthorizedAccess);
}

#[test]
fn configure_rejects_wrong_mint_account() {
    let mut s = GovState::new();
    initialize_treasury(&mut s, &init_ctx(), PRICE, CREDITS, 0).unwrap();
    let other_mint = external_address(300);
    s.ledger
        .create_token_account(treasury_token_addr(), AUTHORITY, other_mint)
        .unwrap();
    let ctx = ConfigureTreasuryTokenAccount {
        authority: AUTHORITY,
        treasury_config_account: derive_address(Seed::TreasuryConfig, CANONICAL_SALT),
        x_mint: credit_mint(),
        treasury_token_account: treasury_token_addr(),
    };
    let r = configure_treasury_token_account(&mut s, &ctx);
    assert_eq!(r.unwrap_err(), VoteError::InvalidMint);
}

#[test]
fn configure_rejects_foreign_owner() {
    let mut s = GovState::new();
    initialize_treasury(&mut s, &init_ctx(), PRICE, CREDITS, 0).unwrap();
    s.ledger
        .create_token_account(treasury_token_addr(), 77, credit_mint())
        .unwrap();
    let ctx = ConfigureTreasuryTokenAccount {
        authority: AUTHORITY,
        treasury_config_account: derive_address(Seed::TreasuryConfig, CANONICAL_SALT),
        x_mint: credit_mint(),
        treasury_token_account: treasury_token_addr(),
    };
    let r = configure_treasury_token_account(&mut s, &ctx);
    assert_eq!(r.unwrap_err(), VoteError::InvalidTokenAccountOwner);
}

#[test]
fn configure_is_one_time_and_keeps_first_binding() {
    let mut s = configured();
    let other = external_address(101);
    s.ledger
        .create_token_account(other, AUTHORITY, credit_mint())
        .unwrap();
    let ctx = ConfigureTreasuryTokenAccount {
        authority: AUTHORITY,
        treasury_config_account: derive_address(Seed::TreasuryConfig, CANONICAL_SALT),
        x_mint: credit_mint(),
        treasury_token_account: other,
    };
    let r = configure_treasury_token_account(&mut s, &ctx);
    assert_eq!(r.unwrap_err(), VoteError::AlreadyInitialized);
    assert_eq!(
        s.treasury.unwrap().treasury_token_account,
        Some(treasury_token_addr())
    );
}

#[test]
fn configure_missing_account_fails() {
    let mut s = GovState::new();
    initialize_treasury(&mut s, &init_ctx(), PRICE, CREDITS, 0).unwrap();
    let ctx = ConfigureTreasuryTokenAccount {
        authority: AUTHORITY,
        treasury_config_account: derive_address(Seed::TreasuryConfig, CANONICAL_SALT),
        x_mint: credit_mint(),
        treasury_token_account: treasury_token_addr(),
    };
    let r = configure_treasury_token_account(&mut s, &ctx);
    assert_eq!(r.unwrap_err(), VoteError::AccountNotFound);
}

#[test]
fn buy_moves_price_and_mints_credits() {
    let mut s = with_funded_buyer(3 * PRICE);
    let ev = buy_tokens(&mut s, &buy_ctx(), 11).unwrap();
    assert_eq!(ev.sol_paid, PRICE);
    assert_eq!(ev.tokens_received, CREDITS);
    let vault = derive_address(Seed::SolVault, CANONICAL_SALT);
    assert_eq!(s.ledger.base_balance_of(vault), PRICE);
    assert_eq!(s.ledger.base_balance_of(external_address(BUYER)), 2 * PRICE);
    let acct = s.ledger.token_account_of(buyer_token_addr()).unwrap();
    assert_eq!(acct.amount, CREDITS);
}

#[test]
fn repeated_buys_accumulate_exact_totals() {
    let mut s = with_funded_buyer(3 * PRICE);
    for _ in 0..3 {
        buy_tokens(&mut s, &buy_ctx(), 0).unwrap();
    }
    let vault = derive_address(Seed::SolVault, CANONICAL_SALT);
    assert_eq!(s.ledger.base_balance_of(vault), 3 * PRICE);
    let acct = s.ledger.token_account_of(buyer_token_addr()).unwrap();
    assert_eq!(acct.amount, 3 * CREDITS);
    assert_eq!(s.ledger.base_balance_of(external_address(BUYER)), 0);
}

#[test]
fn buy_without_funds_fails_and_changes_nothing() {
    let mut s = with_funded_buyer(PRICE - 1);
    let r = buy_tokens(&mut s, &buy_ctx(), 0);
    assert_eq!(r.unwrap_err(), VoteError::InsufficientFunds);
    assert_eq!(s.ledger.base_balance_of(external_address(BUYER)), PRICE - 1);
    let acct = s.ledger.token_account_of(buyer_token_addr()).unwrap();
    assert_eq!(acct.amount, 0);
}

#[test]
fn buy_before_configuration_fails() {
    let mut s = GovState::new();
    initialize_treasury(&mut s, &init_ctx(), PRICE, CREDITS, 0).unwrap();
    let r = buy_tokens(&mut s, &buy_ctx(), 0);
    assert_eq!(r.unwrap_err(), VoteError::InvalidTokenAccountOwner);
}

#[test]
fn buy_with_wrong_mint_fails() {
    let mut s = configured();
    let other_mint = external_address(300);
    s.ledger
        .create_token_account(buyer_token_addr(), BUYER, other_mint)
        .unwrap();
    s.ledger.credit_base(external_address(BUYER), PRICE).unwrap();
    let mut ctx = buy_ctx();
    ctx.x_mint = other_mint;
    let r = buy_tokens(&mut s, &ctx, 0);
    assert_eq!(r.unwrap_err(), VoteError::InvalidMint);
}

#[test]
fn buy_overflowing_credit_account_fails() {
    let mut s = configured();
    s.ledger.token_accounts.push(TokenEntry {
        addr: buyer_token_addr(),
        acct: TokenAccount { owner: BUYER, mint: credit_mint(), amount: u64::MAX - CREDITS + 1 },
    });
    s.ledger.credit_base(external_address(BUYER), PRICE).unwrap();
    let r = buy_tokens(&mut s, &buy_ctx(), 0);
    assert_eq!(r.unwrap_err(), VoteError::BalanceOverflow);
    assert_eq!(s.ledger.base_balance_of(external_address(BUYER)), PRICE);
}

#[test]
fn withdraw_moves_funds_to_authority() {
    let mut s = with_funded_buyer(PRICE);
    buy_tokens(&mut s, &buy_ctx(), 0).unwrap();
    let ctx = WithdrawSol {
        treasury_config: derive_address(Seed::TreasuryConfig, CANONICAL_SALT),
        sol_vault: derive_address(Seed::SolVault, CANONICAL_SALT),
        authority: AUTHORITY,
    };
    let ev = withdraw_sol(&mut s, &ctx, 30, 5).unwrap();
    assert_eq!(ev.amount, 30);
    let vault = derive_address(Seed::SolVault, CANONICAL_SALT);
    assert_eq!(s.ledger.base_balance_of(vault), PRICE - 30);
    assert_eq!(s.ledger.base_balance_of(external_address(AUTHORITY)), 30);
}

#[test]
fn withdraw_requires_authority() {
    let mut s = with_funded_buyer(PRICE);
    buy_tokens(&mut s, &buy_ctx(), 0).unwrap();
    let ctx = WithdrawSol {
        treasury_config: derive_address(Seed::TreasuryConfig, CANONICAL_SALT),
        sol_vault: derive_address(Seed::SolVault, CANONICAL_SALT),
        authority: BUYER,
    };
    let r = withdraw_sol(&mut s, &ctx, 1, 0);
    assert_eq!(r.unwrap_err(), VoteError::UnauthorizedAccess);
}

#[test]
fn withdraw_beyond_vault_balance_fails() {
    let mut s = with_funded_buyer(PRICE);
    buy_tokens(&mut s, &buy_ctx(), 0).unwrap();
    let ctx = WithdrawSol {
        treasury_config: derive_address(Seed::TreasuryConfig, CANONICAL_SALT),
        sol_vault: derive_address(Seed::SolVault, CANONICAL_SALT),
        authority: AUTHORITY,
    };
    let r = withdraw_sol(&mut s, &ctx, PRICE + 1, 0);
    assert_eq!(r.unwrap_err(), VoteError::InsufficientFunds);
}
