//! The credit and base-currency ledger.
//!
//! The protocol sits atop a ledger that stores token accounts (typed holdings
//! of one currency) and base-currency balances.  Handlers validate every
//! movement before performing it, so the movement primitives here demand that
//! their preconditions already hold; the checked entry points (`create_token_account`,
//! `credit_base`) let an embedding environment set accounts up.
//!
//! Every movement is described exactly by a spec-level counterpart, and the
//! conservation lemmas at the end relate movements to the total supply of a
//! currency.

use vstd::prelude::*;
use crate::addr::Address;
use crate::errors::VoteError;

verus! {

/// A token account: a holding of one currency owned by one identity.
#[derive(Clone, Copy, Debug, PartialEq, Eq, Structural)]
pub struct TokenAccount {
    pub owner: u64,
    pub mint: Address,
    pub amount: u64,
}

/// A token account together with the address it lives at.
#[derive(Clone, Copy, Debug, PartialEq, Eq, Structural)]
pub struct TokenEntry {
    pub addr: Address,
    pub acct: TokenAccount,
}

/// A base-currency balance at one address.  An address without an entry holds
/// a balance of zero.
#[derive(Clone, Copy, Debug, PartialEq, Eq, Structural)]
pub struct BaseEntry {
    pub addr: Address,
    pub amount: u64,
}

/// The ledger state: token accounts and base-currency balances, each keyed by
/// address.
pub struct Ledger {
    pub token_accounts: Vec<TokenEntry>,
    pub base_accounts: Vec<BaseEntry>,
}

/// The mathematical view of a ledger.
#[verifier::ext_equal]
pub struct LedgerView {
    pub tokens: Seq<TokenEntry>,
    pub base: Seq<BaseEntry>,
}

impl View for Ledger {
    type V = LedgerView;

    open spec fn view(&self) -> LedgerView {
        LedgerView { tokens: self.token_accounts@, base: self.base_accounts@ }
    }
}

/// Whether a token account exists at `a`.
pub open spec fn has_token(s: Seq<TokenEntry>, a: Address) -> bool {
    exists|i: int| 0 <= i < s.len() && (#[trigger] s[i]).addr == a
}

/// The index of the token account at `a` (meaningful when one exists).
pub open spec fn token_at(s: Seq<TokenEntry>, a: Address) -> int {
    choose|i: int| 0 <= i < s.len() && (#[trigger] s[i]).addr == a
}

/// The token account stored at `a` (meaningful when one exists).
pub open spec fn token_acct(s: Seq<TokenEntry>, a: Address) -> TokenAccount {
    s[token_at(s, a)].acct
}

/// Each token address occurs at most once.
pub open spec fn distinct_token_addrs(s: Seq<TokenEntry>) -> bool {
    forall|i: int, j: int| 0 <= i < j < s.len() ==> (#[trigger] s[i]).addr != (#[trigger] s[j]).addr
}

/// Whether a base-currency entry exists at `a`.
pub open spec fn has_base(s: Seq<BaseEntry>, a: Address) -> bool {
    exists|i: int| 0 <= i < s.len() && (#[trigger] s[i]).addr == a
}

/// The index of the base-currency entry at `a` (meaningful when one exists).
pub open spec fn base_at(s: Seq<BaseEntry>, a: Address) -> int {
    choose|i: int| 0 <= i < s.len() && (#[trigger] s[i]).addr == a
}

/// The base-currency balance held at `a`; zero without an entry.
pub open spec fn base_balance(s: Seq<BaseEntry>, a: Address) -> u64 {
    if has_base(s, a) {
        s[base_at(s, a)].amount
    } else {
        0
    }
}

/// Each base address occurs at most once.
pub open spec fn distinct_base_addrs(s: Seq<BaseEntry>) -> bool {
    forall|i: int, j: int| 0 <= i < j < s.len() ==> (#[trigger] s[i]).addr != (#[trigger] s[j]).addr
}

/// Both address columns of a ledger are free of duplicates.
pub open spec fn ledger_wf(l: LedgerView) -> bool {
    distinct_token_addrs(l.tokens) && distinct_base_addrs(l.base)
}

/// With distinct addresses, an entry's index is the looked-up index.
pub proof fn lemma_token_at_unique(s: Seq<TokenEntry>, a: Address, i: int)
    requires
        distinct_token_addrs(s),
        0 <= i < s.len(),
        s[i].addr == a,
    ensures
        has_token(s, a),
        token_at(s, a) == i,
{
    assert(has_token(s, a));
    let j = token_at(s, a);
    if i < j {
        assert(s[i].addr != s[j].addr);
    } else if j < i {
        assert(s[j].addr != s[i].addr);
    }
}

/// With distinct addresses, a base entry's index is the looked-up index.
pub proof fn lemma_base_at_unique(s: Seq<BaseEntry>, a: Address, i: int)
    requires
        distinct_base_addrs(s),
        0 <= i < s.len(),
        s[i].addr == a,
    ensures
        has_base(s, a),
        base_at(s, a) == i,
{
    assert(has_base(s, a));
    let j = base_at(s, a);
    if i < j {
        assert(s[i].addr != s[j].addr);
    } else if j < i {
        assert(s[j].addr != s[i].addr);
    }
}

/// Replacing an entry without changing its address leaves every lookup's
/// index where it was.
pub proof fn lemma_token_lookup_after_update(s: Seq<TokenEntry>, i: int, e: TokenEntry, a: Address)
    requires
        distinct_token_addrs(s),
        0 <= i < s.len(),
        e.addr == s[i].addr,
    ensures
        distinct_token_addrs(s.update(i, e)),
        has_token(s.update(i, e), a) == has_token(s, a),
        has_token(s, a) ==> token_at(s.update(i, e), a) == token_at(s, a),
{
    let s2 = s.update(i, e);
    assert(forall|k: int| 0 <= k < s.len() ==> (#[trigger] s2[k]).addr == s[k].addr);
    if has_token(s, a) {
        let k = token_at(s, a);
        lemma_token_at_unique(s2, a, k);
    }
    if has_token(s2, a) {
        let k = token_at(s2, a);
        assert(s[k].addr == a);
    }
}

/// The balance column after writing the balance at `a`: the entry is
/// replaced when present and created otherwise.
pub open spec fn spec_set_base(s: Seq<BaseEntry>, a: Address, amount: u64) -> Seq<BaseEntry> {
    if has_base(s, a) {
        s.update(base_at(s, a), BaseEntry { addr: a, amount })
    } else {
        s.push(BaseEntry { addr: a, amount })
    }
}

/// The outcome of a base-currency transfer: debit `from`, credit `to`.  A
/// transfer to the same address moves nothing; a missing destination entry
/// is created.
pub open spec fn spec_base_transfer(s: Seq<BaseEntry>, from: Address, to: Address, amount: u64) -> Result<
    Seq<BaseEntry>,
    VoteError,
> {
    if base_balance(s, from) < amount {
        Err(VoteError::InsufficientFunds)
    } else if from == to {
        Ok(s)
    } else if base_balance(s, to) + amount > u64::MAX {
        Err(VoteError::BalanceOverflow)
    } else {
        let debited = spec_set_base(s, from, (base_balance(s, from) - amount) as u64);
        Ok(spec_set_base(debited, to, (base_balance(s, to) + amount) as u64))
    }
}

/// The outcome of a credit transfer between two token accounts.  Both must
/// exist and carry the same currency; a transfer to the same account moves
/// nothing.
pub open spec fn spec_token_transfer(s: Seq<TokenEntry>, from: Address, to: Address, amount: u64) -> Result<
    Seq<TokenEntry>,
    VoteError,
> {
    if !has_token(s, from) || !has_token(s, to) {
        Err(VoteError::AccountNotFound)
    } else if token_acct(s, from).mint != token_acct(s, to).mint {
        Err(VoteError::TokenMintMismatch)
    } else if token_acct(s, from).amount < amount {
        Err(VoteError::InsufficientFunds)
    } else if from == to {
        Ok(s)
    } else if token_acct(s, to).amount + amount > u64::MAX {
        Err(VoteError::BalanceOverflow)
    } else {
        let f = token_acct(s, from);
        let t = token_acct(s, to);
        let debited = s.update(
            token_at(s, from),
            TokenEntry { addr: from, acct: TokenAccount { amount: (f.amount - amount) as u64, ..f } },
        );
        Ok(debited.update(
            token_at(s, to),
            TokenEntry { addr: to, acct: TokenAccount { amount: (t.amount + amount) as u64, ..t } },
        ))
    }
}

/// The outcome of minting fresh credits of `mint` into the account at `to`.
pub open spec fn spec_mint_to(s: Seq<TokenEntry>, mint: Address, to: Address, amount: u64) -> Result<
    Seq<TokenEntry>,
    VoteError,
> {
    if !has_token(s, to) {
        Err(VoteError::AccountNotFound)
    } else if token_acct(s, to).mint != mint {
        Err(VoteError::InvalidMint)
    } else if token_acct(s, to).amount + amount > u64::MAX {
        Err(VoteError::BalanceOverflow)
    } else {
        let t = token_acct(s, to);
        Ok(s.update(
            token_at(s, to),
            TokenEntry { addr: to, acct: TokenAccount { amount: (t.amount + amount) as u64, ..t } },
        ))
    }
}

impl Ledger {
    /// An empty ledger.
    pub fn new() -> (l: Ledger)
        ensures
            l@.tokens.len() == 0,
            l@.base.len() == 0,
            ledger_wf(l@),
    {
        Ledger { token_accounts: Vec::new(), base_accounts: Vec::new() }
    }

    /// Finds the index of the token account at `a`.
    pub fn find_token(&self, a: Address) -> (r: Option<usize>)
        ensures
            match r {
                Some(i) => i < self@.tokens.len() && self@.tokens[i as int].addr == a && has_token(
                    self@.tokens,
                    a,
                ),
                None => !has_token(self@.tokens, a),
            },
    {
        let n = self.token_accounts.len();
        let mut i: usize = 0;
        while i < n
            invariant
                n == self@.tokens.len(),
                i <= n,
                forall|j: int| 0 <= j < i ==> (#[trigger] self@.tokens[j]).addr != a,
            decreases n - i,
        {
            if self.token_accounts[i].addr == a {
                return Some(i);
            }
            i = i + 1;
        }
        None
    }

    /// Finds the index of the base-currency entry at `a`.
    pub fn find_base(&self, a: Address) -> (r: Option<usize>)
        ensures
            match r {
                Some(i) => i < self@.base.len() && self@.base[i as int].addr == a && has_base(
                    self@.base,
                    a,
                ),
                None => !has_base(self@.base, a),
            },
    {
        let n = self.base_accounts.len();
        let mut i: usize = 0;
        while i < n
            invariant
                n == self@.base.len(),
                i <= n,
                forall|j: int| 0 <= j < i ==> (#[trigger] self@.base[j]).addr != a,
            decreases n - i,
        {
            if self.base_accounts[i].addr == a {
                return Some(i);
            }
            i = i + 1;
        }
        None
    }

    /// Reads the token account at `a`, if one exists.
    pub fn token_account_of(&self, a: Address) -> (r: Option<TokenAccount>)
        requires
            distinct_token_addrs(self@.tokens),
        ensures
            match r {
                Some(acct) => has_token(self@.tokens, a) && acct == token_acct(self@.tokens, a),
                None => !has_token(self@.tokens, a),
            },
    {
        match self.find_token(a) {
            Some(i) => {
                proof {
                    lemma_token_at_unique(self@.tokens, a, i as int);
                }
                Some(self.token_accounts[i].acct)
            },
            None => None,
        }
    }

    /// Reads the base-currency balance at `a` (zero without an entry).
    pub fn base_balance_of(&self, a: Address) -> (r: u64)
        requires
            distinct_base_addrs(self@.base),
        ensures
            r == base_balance(self@.base, a),
    {
        match self.find_base(a) {
            Some(i) => {
                proof {
                    lemma_base_at_unique(self@.base, a, i as int);
                }
                self.base_accounts[i].amount
            },
            None => 0,
        }
    }

    /// Writes the base-currency balance at `a`, creating the entry if absent.
    fn set_base_amount(&mut self, a: Address, amount: u64)
        requires
            distinct_base_addrs(old(self)@.base),
        ensures
            final(self)@.tokens == old(self)@.tokens,
            final(self)@.base == spec_set_base(old(self)@.base, a, amount),
            distinct_base_addrs(final(self)@.base),
    {
        match self.find_base(a) {
            Some(i) => {
                proof {
                    lemma_base_at_unique(self@.base, a, i as int);
                }
                self.base_accounts.set(i, BaseEntry { addr: a, amount });
                proof {
                    let s2 = final(self)@.base;
                    assert(forall|k: int|
                        0 <= k < s2.len() ==> (#[trigger] s2[k]).addr == old(self)@.base[k].addr);
                }
            },
            None => {
                self.base_accounts.push(BaseEntry { addr: a, amount });
                proof {
                    let s = old(self)@.base;
                    let s2 = final(self)@.base;
                    assert(forall|k: int| 0 <= k < s.len() ==> s2[k] == #[trigger] s[k]);
                }
            },
        }
    }

    /// Performs an already-validated base-currency transfer.
    pub fn do_base_transfer(&mut self, from: Address, to: Address, amount: u64)
        requires
            distinct_base_addrs(old(self)@.base),
            spec_base_transfer(old(self)@.base, from, to, amount) is Ok,
        ensures
            final(self)@.tokens == old(self)@.tokens,
            final(self)@.base == spec_base_transfer(old(self)@.base, from, to, amount)->Ok_0,
            distinct_base_addrs(final(self)@.base),
    {
        let from_bal = self.base_balance_of(from);
        if from == to {
            return ;
        }
        let to_bal = self.base_balance_of(to);
        self.set_base_amount(from, from_bal - amount);
        self.set_base_amount(to, to_bal + amount);
        proof {
            assert(base_balance(old(self)@.base, to) == to_bal);
        }
    }

    /// Performs an already-validated credit transfer between token accounts.
    pub fn do_token_transfer(&mut self, from: Address, to: Address, amount: u64)
        requires
            distinct_token_addrs(old(self)@.tokens),
            spec_token_transfer(old(self)@.tokens, from, to, amount) is Ok,
        ensures
            final(self)@.base == old(self)@.base,
            final(self)@.tokens == spec_token_transfer(old(self)@.tokens, from, to, amount)->Ok_0,
            distinct_token_addrs(final(self)@.tokens),
    {
        let from_i = self.find_token(from).unwrap();
        let to_i = self.find_token(to).unwrap();
        proof {
            lemma_token_at_unique(self@.tokens, from, from_i as int);
            lemma_token_at_unique(self@.tokens, to, to_i as int);
        }
        if from_i == to_i {
            return ;
        }
        let f = self.token_accounts[from_i].acct;
        let t = self.token_accounts[to_i].acct;
        self.token_accounts.set(
            from_i,
            TokenEntry {
                addr: from,
                acct: TokenAccount { owner: f.owner, mint: f.mint, amount: f.amount - amount },
            },
        );
        self.token_accounts.set(
            to_i,
            TokenEntry {
                addr: to,
                acct: TokenAccount { owner: t.owner, mint: t.mint, amount: t.amount + amount },
            },
        );
        proof {
            let s = old(self)@.tokens;
            let s2 = final(self)@.tokens;
            assert(forall|k: int|
                0 <= k < s2.len() ==> (#[trigger] s2[k]).addr == s[k].addr);
        }
    }

    /// Performs an already-validated minting of fresh credits.
    pub fn do_mint_to(&mut self, mint: Address, to: Address, amount: u64)
        requires
            distinct_token_addrs(old(self)@.tokens),
            spec_mint_to(old(self)@.tokens, mint, to, amount) is Ok,
        ensures
            final(self)@.base == old(self)@.base,
            final(self)@.tokens == spec_mint_to(old(self)@.tokens, mint, to, amount)->Ok_0,
            distinct_token_addrs(final(self)@.tokens),
    {
        let to_i = self.find_token(to).unwrap();
        proof {
            lemma_token_at_unique(self@.tokens, to, to_i as int);
        }
        let t = self.token_accounts[to_i].acct;
        self.token_accounts.set(
            to_i,
            TokenEntry {
                addr: to,
                acct: TokenAccount { owner: t.owner, mint: t.mint, amount: t.amount + amount },
            },
        );
        proof {
            let s = old(self)@.tokens;
            let s2 = final(self)@.tokens;
            assert(forall|k: int|
                0 <= k < s2.len() ==> (#[trigger] s2[k]).addr == s[k].addr);
        }
    }

    /// Creates a token account with a zero balance at an unused address.
    pub fn create_token_account(&mut self, a: Address, owner: u64, mint: Address) -> (r: Result<
        (),
        VoteError,
    >)
        requires
            distinct_token_addrs(old(self)@.tokens),
        ensures
            final(self)@.base == old(self)@.base,
            distinct_token_addrs(final(self)@.tokens),
            match r {
                Ok(_) => !has_token(old(self)@.tokens, a) && final(self)@.tokens == old(
                    self,
                )@.tokens.push(TokenEntry { addr: a, acct: TokenAccount { owner, mint, amount: 0 } }),
                Err(e) => e == VoteError::AddressAlreadyInUse && has_token(old(self)@.tokens, a)
                    && final(self)@ == old(self)@,
            },
    {
        match self.find_token(a) {
            Some(_) => Err(VoteError::AddressAlreadyInUse),
            None => {
                self.token_accounts.push(
                    TokenEntry { addr: a, acct: TokenAccount { owner, mint, amount: 0 } },
                );
                proof {
                    let s = old(self)@.tokens;
                    let s2 = final(self)@.tokens;
                    assert(forall|k: int| 0 <= k < s.len() ==> s2[k] == #[trigger] s[k]);
                }
                Ok(())
            },
        }
    }

    /// Adds base currency to an address, creating the entry if absent.  This
    /// is the environment's funding entry point; the protocol itself only
    /// moves existing base currency.
    pub fn credit_base(&mut self, a: Address, amount: u64) -> (r: Result<(), VoteError>)
        requires
            distinct_base_addrs(old(self)@.base),
        ensures
            final(self)@.tokens == old(self)@.tokens,
            distinct_base_addrs(final(self)@.base),
            match r {
                Ok(_) => base_balance(old(self)@.base, a) + amount <= u64::MAX && final(self)@.base
                    == spec_set_base(
                    old(self)@.base,
                    a,
                    (base_balance(old(self)@.base, a) + amount) as u64,
                ),
                Err(e) => e == VoteError::BalanceOverflow && base_balance(old(self)@.base, a)
                    + amount > u64::MAX && final(self)@ == old(self)@,
            },
    {
        let bal = self.base_balance_of(a);
        if bal > u64::MAX - amount {
            return Err(VoteError::BalanceOverflow);
        }
        self.set_base_amount(a, bal + amount);
        Ok(())
    }
}

/// The total amount of one currency held across all token accounts.
pub open spec fn mint_supply(s: Seq<TokenEntry>, mint: Address) -> int
    decreases s.len(),
{
    if s.len() == 0 {
        0
    } else {
        mint_supply(s.drop_last(), mint) + (if s.last().acct.mint == mint {
            s.last().acct.amount as int
        } else {
            0
        })
    }
}

/// Replacing one entry moves each currency's supply by that entry's own
/// change.
pub proof fn lemma_mint_supply_update(s: Seq<TokenEntry>, i: int, e: TokenEntry, mint: Address)
    requires
        0 <= i < s.len(),
    ensures
        mint_supply(s.update(i, e), mint) == mint_supply(s, mint) - (if s[i].acct.mint == mint {
            s[i].acct.amount as int
        } else {
            0
        }) + (if e.acct.mint == mint {
            e.acct.amount as int
        } else {
            0
        }),
    decreases s.len(),
{
    if i == s.len() - 1 {
        assert(s.update(i, e).drop_last() =~= s.drop_last());
    } else {
        assert(s.update(i, e).drop_last() =~= s.drop_last().update(i, e));
        lemma_mint_supply_update(s.drop_last(), i, e, mint);
    }
}

/// Writing one balance changes no other balance.
pub proof fn lemma_set_base(s: Seq<BaseEntry>, a: Address, amount: u64)
    requires
        distinct_base_addrs(s),
    ensures
        distinct_base_addrs(spec_set_base(s, a, amount)),
        base_balance(spec_set_base(s, a, amount), a) == amount,
        forall|b: Address| b != a ==> #[trigger] base_balance(spec_set_base(s, a, amount), b)
            == base_balance(s, b),
{
    let s2 = spec_set_base(s, a, amount);
    if has_base(s, a) {
        let k = base_at(s, a);
        assert(0 <= k < s.len() && s[k].addr == a);
        assert(forall|i: int| 0 <= i < s.len() ==> (#[trigger] s2[i]).addr == s[i].addr);
        lemma_base_at_unique(s2, a, k);
        assert forall|b: Address| b != a implies #[trigger] base_balance(s2, b) == base_balance(
            s,
            b,
        ) by {
            if has_base(s, b) {
                let i = base_at(s, b);
                assert(0 <= i < s.len() && s[i].addr == b);
                lemma_base_at_unique(s2, b, i);
                assert(i != k);
            }
            if has_base(s2, b) {
                let i = base_at(s2, b);
                assert(s[i].addr == b);
                lemma_base_at_unique(s, b, i);
            }
        }
    } else {
        assert(forall|i: int| 0 <= i < s.len() ==> s2[i] == #[trigger] s[i]);
        assert(s2[s.len() as int] == (BaseEntry { addr: a, amount }));
        assert(distinct_base_addrs(s2)) by {
            assert forall|i: int, j: int| 0 <= i < j < s2.len() implies (#[trigger] s2[i]).addr
                != (#[trigger] s2[j]).addr by {
                if j < s.len() {
                } else {
                    assert(s2[j].addr == a);
                }
            }
        }
        lemma_base_at_unique(s2, a, s.len() as int);
        assert forall|b: Address| b != a implies #[trigger] base_balance(s2, b) == base_balance(
            s,
            b,
        ) by {
            if has_base(s, b) {
                let i = base_at(s, b);
                assert(0 <= i < s.len() && s[i].addr == b);
                lemma_base_at_unique(s2, b, i);
            }
            if has_base(s2, b) {
                let i = base_at(s2, b);
                assert(i < s.len());
                assert(s[i].addr == b);
                lemma_base_at_unique(s, b, i);
            }
        }
    }
}

/// A base-currency transfer moves the two balances by exactly the amount and
/// no other.
pub proof fn lemma_base_transfer_balances(s: Seq<BaseEntry>, from: Address, to: Address, amount: u64)
    requires
        distinct_base_addrs(s),
        from != to,
        spec_base_transfer(s, from, to, amount) is Ok,
    ensures
        ({
            let s2 = spec_base_transfer(s, from, to, amount)->Ok_0;
            &&& distinct_base_addrs(s2)
            &&& base_balance(s2, from) == base_balance(s, from) - amount
            &&& base_balance(s2, to) == base_balance(s, to) + amount
        }),
        forall|b: Address| b != from && b != to ==> #[trigger] base_balance(
            spec_base_transfer(s, from, to, amount)->Ok_0,
            b,
        ) == base_balance(s, b),
{
    let debited = spec_set_base(s, from, (base_balance(s, from) - amount) as u64);
    lemma_set_base(s, from, (base_balance(s, from) - amount) as u64);
    lemma_set_base(debited, to, (base_balance(s, to) + amount) as u64);
    assert(base_balance(debited, from) == base_balance(s, from) - amount);
}

/// A credit transfer preserves the supply of every currency.
pub proof fn lemma_transfer_preserves_supply(
    s: Seq<TokenEntry>,
    from: Address,
    to: Address,
    amount: u64,
    mint: Address,
)
    requires
        distinct_token_addrs(s),
        spec_token_transfer(s, from, to, amount) is Ok,
    ensures
        mint_supply(spec_token_transfer(s, from, to, amount)->Ok_0, mint) == mint_supply(s, mint),
{
    if from != to {
        let i = token_at(s, from);
        let j = token_at(s, to);
        let f = token_acct(s, from);
        let t = token_acct(s, to);
        assert(0 <= i < s.len() && s[i].addr == from);
        assert(0 <= j < s.len() && s[j].addr == to);
        assert(i != j);
        let e1 = TokenEntry {
            addr: from,
            acct: TokenAccount { amount: (f.amount - amount) as u64, ..f },
        };
        let e2 = TokenEntry { addr: to, acct: TokenAccount { amount: (t.amount + amount) as u64, ..t } };
        let s1 = s.update(i, e1);
        lemma_mint_supply_update(s, i, e1, mint);
        lemma_mint_supply_update(s1, j, e2, mint);
        assert(s1[j] == s[j]);
    }
}

/// Minting adds to its own currency's supply and to no other.
pub proof fn lemma_mint_to_supply(
    s: Seq<TokenEntry>,
    mint: Address,
    to: Address,
    amount: u64,
    m: Address,
)
    requires
        distinct_token_addrs(s),
        spec_mint_to(s, mint, to, amount) is Ok,
    ensures
        mint_supply(spec_mint_to(s, mint, to, amount)->Ok_0, m) == mint_supply(s, m) + (if m
            == mint {
            amount as int
        } else {
            0
        }),
{
    let j = token_at(s, to);
    let t = token_acct(s, to);
    assert(0 <= j < s.len() && s[j].addr == to);
    let e = TokenEntry { addr: to, acct: TokenAccount { amount: (t.amount + amount) as u64, ..t } };
    lemma_mint_supply_update(s, j, e, m);
}

/// A token-account lookup is unchanged by a credit transfer, and the two
/// balances move by exactly the amount.
pub proof fn lemma_transfer_balances(s: Seq<TokenEntry>, from: Address, to: Address, amount: u64)
    requires
        distinct_token_addrs(s),
        from != to,
        spec_token_transfer(s, from, to, amount) is Ok,
    ensures
        ({
            let s2 = spec_token_transfer(s, from, to, amount)->Ok_0;
            &&& distinct_token_addrs(s2)
            &&& has_token(s2, from) && has_token(s2, to)
            &&& token_acct(s2, from).amount == token_acct(s, from).amount - amount
            &&& token_acct(s2, to).amount == token_acct(s, to).amount + amount
        }),
        forall|a: Address| a != from && a != to ==> #[trigger] has_token(
            spec_token_transfer(s, from, to, amount)->Ok_0,
            a,
        ) == has_token(s, a),
        forall|a: Address| a != from && a != to && has_token(s, a) ==> #[trigger] token_acct(
            spec_token_transfer(s, from, to, amount)->Ok_0,
            a,
        ) == token_acct(s, a),
{
    let i = token_at(s, from);
    let j = token_at(s, to);
    assert(0 <= i < s.len() && s[i].addr == from);
    assert(0 <= j < s.len() && s[j].addr == to);
    assert(i != j);
    let s2 = spec_token_transfer(s, from, to, amount)->Ok_0;
    assert(forall|k: int| 0 <= k < s.len() ==> (#[trigger] s2[k]).addr == s[k].addr);
    lemma_token_at_unique(s2, from, i);
    lemma_token_at_unique(s2, to, j);
    assert forall|a: Address| a != from && a != to implies #[trigger] has_token(s2, a)
        == has_token(s, a) by {
        if has_token(s, a) {
            let k = token_at(s, a);
            assert(0 <= k < s.len() && s[k].addr == a);
            lemma_token_at_unique(s2, a, k);
        }
        if has_token(s2, a) {
            let k = token_at(s2, a);
            assert(s[k].addr == a);
            lemma_token_at_unique(s, a, k);
        }
    }
    assert forall|a: Address| a != from && a != to && has_token(s, a) implies #[trigger] token_acct(
        s2,
        a,
    ) == token_acct(s, a) by {
        let k = token_at(s, a);
        assert(0 <= k < s.len() && s[k].addr == a);
        lemma_token_at_unique(s2, a, k);
        assert(k != i && k != j);
    }
}

} // verus!
