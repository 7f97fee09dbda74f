//! The ledger: its state, its errors, and the balance primitives that every
//! transaction goes through.
use crate::arith::{shift_balance, shifted, wrap_add, wrapping_add_u64};
use crate::table::{str_eq, Table};
use crate::text::canonical;
use crate::types::{Account, AccountView, LedgerState, TokenKind, fresh_account};
use vstd::prelude::*;

verus! {

/// Errors produced by the ledger.
#[derive(Debug)]
pub enum LedgerError {
    InsufficientBalance(String),
    AccountNotFound(String),
    TaskNotFound(String),
    ProviderNotFound(String),
    NodeNotFound(String),
    TokenNotFound(String),
    ContractNotFound(String),
    Forbidden(String),
    InvalidTransaction(String),
}

/// The variant of a [`LedgerError`], without its message.
#[derive(PartialEq, Eq, Structural, Clone, Copy, Debug)]
pub enum ErrorCode {
    InsufficientBalance,
    AccountNotFound,
    TaskNotFound,
    ProviderNotFound,
    NodeNotFound,
    TokenNotFound,
    ContractNotFound,
    Forbidden,
    InvalidTransaction,
}

impl LedgerError {
    /// The variant and the message of an error.
    pub open spec fn describe(self) -> (ErrorCode, Seq<char>) {
        match self {
            LedgerError::InsufficientBalance(m) => (ErrorCode::InsufficientBalance, m@),
            LedgerError::AccountNotFound(m) => (ErrorCode::AccountNotFound, m@),
            LedgerError::TaskNotFound(m) => (ErrorCode::TaskNotFound, m@),
            LedgerError::ProviderNotFound(m) => (ErrorCode::ProviderNotFound, m@),
            LedgerError::NodeNotFound(m) => (ErrorCode::NodeNotFound, m@),
            LedgerError::TokenNotFound(m) => (ErrorCode::TokenNotFound, m@),
            LedgerError::ContractNotFound(m) => (ErrorCode::ContractNotFound, m@),
            LedgerError::Forbidden(m) => (ErrorCode::Forbidden, m@),
            LedgerError::InvalidTransaction(m) => (ErrorCode::InvalidTransaction, m@),
        }
    }

    /// The variant of the error.
    pub fn code(&self) -> (c: ErrorCode)
        ensures
            c == self.describe().0,
    {
        match self {
            LedgerError::InsufficientBalance(_) => ErrorCode::InsufficientBalance,
            LedgerError::AccountNotFound(_) => ErrorCode::AccountNotFound,
            LedgerError::TaskNotFound(_) => ErrorCode::TaskNotFound,
            LedgerError::ProviderNotFound(_) => ErrorCode::ProviderNotFound,
            LedgerError::NodeNotFound(_) => ErrorCode::NodeNotFound,
            LedgerError::TokenNotFound(_) => ErrorCode::TokenNotFound,
            LedgerError::ContractNotFound(_) => ErrorCode::ContractNotFound,
            LedgerError::Forbidden(_) => ErrorCode::Forbidden,
            LedgerError::InvalidTransaction(_) => ErrorCode::InvalidTransaction,
        }
    }
}

/// An error as plain values: its variant and its message.
pub type Fault = (ErrorCode, Seq<char>);

/// `r` failed with the given variant and message.
pub open spec fn fails_with<T>(r: Result<T, LedgerError>, f: Fault) -> bool {
    r matches Err(e) && e.describe() == f
}

/// Work that follows a state change and needs floating-point arithmetic,
/// which the ledger leaves to its host.
#[derive(Debug)]
pub enum Followup {
    /// Raise the provider's throughput score to its profile and bandwidth baseline.
    RefreshProviderScore { provider_id: String },
    /// Blend an accepted proof's throughput into the provider's score.
    ThroughputSample { provider_id: String, throughput_tok_s: u64 },
    /// Recompute the average task slots per online compute node.
    RefreshAverageTasks,
    /// Recompute the node's decentralization weight.
    RefreshNodeWeight { node_id: String },
    /// Pick assignment and scheduler nodes and schedule providers for the task.
    RouteTask { task_id: String },
    /// Reschedule providers for the task.
    Reschedule { task_id: String },
}

/// The ledger: its persistent state and the follow-up work it has queued.
#[derive(Debug)]
pub struct Ledger {
    pub state: LedgerState,
    pub followups: Vec<Followup>,
}

/// The accounts of a state, as plain values.
pub open spec fn accounts_of(s: LedgerState) -> Map<Seq<char>, AccountView> {
    s.accounts@.map_values(|a: Account| a@)
}

/// The balance of `t` in an account.
pub open spec fn balance_of(a: AccountView, t: TokenKind) -> u64 {
    match t {
        TokenKind::AIA => a.aia,
        TokenKind::WORK => a.work,
        TokenKind::STOR => a.stor,
    }
}

/// The account with its balance of `t` set to `v`.
pub open spec fn with_balance(a: AccountView, t: TokenKind, v: u64) -> AccountView {
    match t {
        TokenKind::AIA => AccountView { aia: v, ..a },
        TokenKind::WORK => AccountView { work: v, ..a },
        TokenKind::STOR => AccountView { stor: v, ..a },
    }
}

/// The upper-case name of a token.
pub open spec fn token_name(t: TokenKind) -> Seq<char> {
    match t {
        TokenKind::AIA => "AIA"@,
        TokenKind::WORK => "WORK"@,
        TokenKind::STOR => "STOR"@,
    }
}

/// The message of an insufficient balance.
pub open spec fn shortfall_message(what: Seq<char>, account_id: Seq<char>) -> Seq<char> {
    what + " for account "@ + account_id
}

/// Crediting `amount` of `t` (wrapping on overflow).
pub open spec fn credit(a: AccountView, t: TokenKind, amount: u64) -> AccountView {
    with_balance(a, t, wrap_add(balance_of(a, t), amount))
}

/// Debiting `amount` of `t`: refused when the balance is short.
pub open spec fn debit(a: AccountView, t: TokenKind, amount: u64) -> Result<AccountView, Fault> {
    if balance_of(a, t) < amount {
        Err((ErrorCode::InsufficientBalance, shortfall_message(token_name(t), a.id)))
    } else {
        Ok(with_balance(a, t, (balance_of(a, t) - amount) as u64))
    }
}

/// A signed change of a balance, as `adjust_balance` applies it: refused
/// when the balance would drop below zero.
pub open spec fn adjust(a: AccountView, t: TokenKind, delta: int) -> Result<AccountView, Fault> {
    match shifted(balance_of(a, t), delta) {
        None => Err((ErrorCode::InsufficientBalance, shortfall_message(token_name(t), a.id))),
        Some(v) => Ok(with_balance(a, t, v)),
    }
}

/// The account stored under `id`, or a fresh one.
pub open spec fn account_or_fresh(m: Map<Seq<char>, AccountView>, id: Seq<char>) -> AccountView {
    if m.contains_key(id) {
        m[id]
    } else {
        fresh_account(id)
    }
}

/// The balance of a custom token, zero when the account never held it.
pub open spec fn custom_balance(custom: Map<Seq<char>, u64>, key: Seq<char>) -> u64 {
    if custom.contains_key(key) {
        custom[key]
    } else {
        0
    }
}

/// A signed change of a custom balance: the balance's entry exists
/// afterwards (at zero when it was missing), also when the change is refused.
pub open spec fn adjust_custom(a: AccountView, symbol: Seq<char>, delta: int) -> (
    AccountView,
    Option<Fault>,
) {
    let key = canonical(symbol);
    let cur = custom_balance(a.custom, key);
    match shifted(cur, delta) {
        None => (
            AccountView { custom: a.custom.insert(key, cur), ..a },
            Some((ErrorCode::InsufficientBalance, shortfall_message(symbol, a.id))),
        ),
        Some(v) => (AccountView { custom: a.custom.insert(key, v), ..a }, None),
    }
}

/// `b` is `a` with only its accounts changed.
pub open spec fn only_accounts_changed(a: LedgerState, b: LedgerState) -> bool {
    b == LedgerState { accounts: b.accounts, ..a }
}

/// The built-in token named exactly `s`, if any.
pub open spec fn builtin_token(s: Seq<char>) -> Option<TokenKind> {
    if s == "AIA"@ {
        Some(TokenKind::AIA)
    } else if s == "WORK"@ {
        Some(TokenKind::WORK)
    } else if s == "STOR"@ {
        Some(TokenKind::STOR)
    } else {
        None
    }
}

impl Ledger {
    /// The ledger's tables are well formed.
    pub open spec fn wf(&self) -> bool {
        self.state.wf()
    }

    /// A ledger over `state`, with no follow-up work queued.
    pub fn new(state: LedgerState) -> (l: Ledger)
        ensures
            l.state == state,
            l.followups@ == Seq::<Followup>::empty(),
    {
        Ledger { state, followups: Vec::new() }
    }

    /// Returns the built-in token named exactly `symbol`.
    pub fn is_builtin_symbol(symbol: &str) -> (r: Option<TokenKind>)
        ensures
            r == builtin_token(symbol@),
    {
        if str_eq(symbol, "AIA") {
            Some(TokenKind::AIA)
        } else if str_eq(symbol, "WORK") {
            Some(TokenKind::WORK)
        } else if str_eq(symbol, "STOR") {
            Some(TokenKind::STOR)
        } else {
            None
        }
    }

    /// Returns the canonical form of a symbol: trimmed, ASCII upper case.
    pub fn canonical_symbol(symbol: &str) -> (r: String)
        ensures
            r@ == canonical(symbol@),
    {
        crate::text::canonical_symbol(symbol)
    }

    proof fn lemma_accounts_insert(pre: LedgerState, post: LedgerState, k: Seq<char>, a: Account)
        requires
            post.accounts@ == pre.accounts@.insert(k, a),
        ensures
            accounts_of(post) == accounts_of(pre).insert(k, a@),
    {
        assert(accounts_of(post) =~= accounts_of(pre).insert(k, a@));
    }

    /// Returns the position of the account `id`.
    pub fn account_position(&self, id: &str) -> (r: Option<usize>)
        requires
            self.wf(),
        ensures
            r is None <==> !accounts_of(self.state).contains_key(id@),
            r matches Some(i) ==> i < self.state.accounts.key_seq().len()
                && self.state.accounts.key_seq()[i as int] == id@,
    {
        self.state.accounts.position(id)
    }

    /// Returns the position of the account `id`, creating a fresh account when missing.
    pub fn get_or_create_account(&mut self, id: &str) -> (i: usize)
        requires
            old(self).wf(),
        ensures
            final(self).wf(),
            final(self).followups == old(self).followups,
            only_accounts_changed(old(self).state, final(self).state),
            accounts_of(final(self).state) == accounts_of(old(self).state).insert(
                id@,
                account_or_fresh(accounts_of(old(self).state), id@),
            ),
            i < final(self).state.accounts.key_seq().len(),
            final(self).state.accounts.key_seq()[i as int] == id@,
    {
        match self.state.accounts.position(id) {
            Some(i) => {
                proof {
                    assert(accounts_of(self.state) =~= accounts_of(old(self).state).insert(
                        id@,
                        account_or_fresh(accounts_of(old(self).state), id@),
                    ));
                }
                i
            },
            None => {
                let a = Account::new(String::from_str(id));
                let ghost av = a;
                self.state.accounts.insert(String::from_str(id), a);
                proof {
                    Self::lemma_accounts_insert(old(self).state, self.state, id@, av);
                    let k2 = id@;
                    assert forall|k: Seq<char>| #[trigger]
                        self.state.accounts@.contains_key(k) implies self.state.accounts@[k].wf() by {
                        if k != k2 {
                            assert(old(self).state.accounts@.contains_key(k));
                        }
                    }
                }
                let r = self.state.accounts.position(id);
                r.unwrap()
            },
        }
    }

    /// Takes the account at position `i` out of the table, leaving a blank in its place.
    pub(crate) fn take_account(&mut self, i: usize) -> (a: Account)
        requires
            old(self).wf(),
            i < old(self).state.accounts.key_seq().len(),
        ensures
            a == old(self).state.accounts.value_seq()[i as int],
            a@ == accounts_of(old(self).state)[old(self).state.accounts.key_seq()[i as int]],
            a.wf(),
            final(self).wf(),
            final(self).followups == old(self).followups,
            only_accounts_changed(old(self).state, final(self).state),
            final(self).state.accounts.key_seq() == old(self).state.accounts.key_seq(),
            accounts_of(final(self).state) == accounts_of(old(self).state).insert(
                old(self).state.accounts.key_seq()[i as int],
                fresh_account(Seq::empty()),
            ),
    {
        proof {
            old(self).state.accounts.lemma_view_at(i as int);
        }
        let blank = Account::new(String::new());
        let ghost bv = blank;
        let a = self.state.accounts.replace_at(i, blank);
        proof {
            Self::lemma_accounts_insert(old(self).state, self.state, old(self).state.accounts.key_seq()[i as int], bv);
            let k2 = old(self).state.accounts.key_seq()[i as int];
            assert forall|k: Seq<char>| #[trigger]
                self.state.accounts@.contains_key(k) implies self.state.accounts@[k].wf() by {
                if k != k2 {
                    assert(old(self).state.accounts@.contains_key(k));
                }
            }
        }
        a
    }

    /// Puts `a` at position `i` of the accounts table.
    pub(crate) fn put_account(&mut self, i: usize, a: Account)
        requires
            old(self).wf(),
            a.wf(),
            i < old(self).state.accounts.key_seq().len(),
        ensures
            final(self).wf(),
            final(self).followups == old(self).followups,
            only_accounts_changed(old(self).state, final(self).state),
            final(self).state.accounts.key_seq() == old(self).state.accounts.key_seq(),
            accounts_of(final(self).state) == accounts_of(old(self).state).insert(
                old(self).state.accounts.key_seq()[i as int],
                a@,
            ),
    {
        let ghost av = a;
        let ghost k2 = old(self).state.accounts.key_seq()[i as int];
        self.state.accounts.set_at(i, a);
        proof {
            Self::lemma_accounts_insert(old(self).state, self.state, k2, av);
            assert forall|k: Seq<char>| #[trigger]
                self.state.accounts@.contains_key(k) implies self.state.accounts@[k].wf() by {
                if k != k2 {
                    assert(old(self).state.accounts@.contains_key(k));
                }
            }
        }
    }

    /// Changes the balance of `token` by `delta`; a debit beyond the balance is refused.
    /// The balance and the change are added as 128-bit numbers, so their sum must fit.
    pub fn adjust_balance(account: &mut Account, token: &TokenKind, delta: i128) -> (r: Result<
        (),
        LedgerError,
    >)
        requires
            balance_of(old(account)@, *token) + delta <= i128::MAX,
        ensures
            match adjust(old(account)@, *token, delta as int) {
                Ok(a) => r is Ok && final(account)@ == a,
                Err(f) => fails_with(r, f) && *final(account) == *old(account),
            },
            final(account).custom_tokens == old(account).custom_tokens,
    {
        let current = match token {
            TokenKind::AIA => account.aia_balance,
            TokenKind::WORK => account.work_balance,
            TokenKind::STOR => account.stor_balance,
        };
        let next = match shift_balance(current, delta) {
            Some(v) => v,
            None => {
                let name = match token {
                    TokenKind::AIA => "AIA",
                    TokenKind::WORK => "WORK",
                    TokenKind::STOR => "STOR",
                };
                let mut msg = String::from_str(name);
                msg.append(" for account ");
                msg.append(account.id.as_str());
                return Err(LedgerError::InsufficientBalance(msg));
            },
        };
        match token {
            TokenKind::AIA => account.aia_balance = next,
            TokenKind::WORK => account.work_balance = next,
            TokenKind::STOR => account.stor_balance = next,
        }
        Ok(())
    }

    /// Changes the balance of the custom token `symbol` by `delta`. The
    /// balance's entry is created (at zero) first, also when the change is refused.
    pub fn adjust_custom_balance(account: &mut Account, symbol: &str, delta: i128) -> (r: Result<
        (),
        LedgerError,
    >)
        requires
            old(account).wf(),
            custom_balance(old(account)@.custom, canonical(symbol@)) + delta <= i128::MAX,
        ensures
            final(account).wf(),
            final(account)@ == adjust_custom(old(account)@, symbol@, delta as int).0,
            match adjust_custom(old(account)@, symbol@, delta as int).1 {
                None => r is Ok,
                Some(f) => fails_with(r, f),
            },
    {
        let key = Self::canonical_symbol(symbol);
        let cur = match account.custom_tokens.get(key.as_str()) {
            Some(v) => *v,
            None => 0,
        };
        match shift_balance(cur, delta) {
            Some(next) => {
                account.custom_tokens.insert(key, next);
                Ok(())
            },
            None => {
                account.custom_tokens.insert(key, cur);
                let mut msg = String::from_str(symbol);
                msg.append(" for account ");
                msg.append(account.id.as_str());
                Err(LedgerError::InsufficientBalance(msg))
            },
        }
    }

    /// Changes the balance of the token named `symbol`: a built-in token by
    /// its exact name, otherwise a defined custom token by its canonical
    /// symbol; an undefined custom token is refused.
    pub fn adjust_named_balance(&self, account: &mut Account, symbol: &str, delta: i128) -> (r: Result<
        (),
        LedgerError,
    >)
        requires
            self.wf(),
            old(account).wf(),
            match builtin_token(symbol@) {
                Some(k) => balance_of(old(account)@, k) + delta <= i128::MAX,
                None => custom_balance(old(account)@.custom, canonical(symbol@)) + delta <= i128::MAX,
            },
        ensures
            final(account).wf(),
            match builtin_token(symbol@) {
                Some(k) => match adjust(old(account)@, k, delta as int) {
                    Ok(a) => r is Ok && final(account)@ == a,
                    Err(f) => fails_with(r, f) && *final(account) == *old(account),
                },
                None => if !self.state.token_definitions@.contains_key(canonical(symbol@)) {
                    fails_with(r, (ErrorCode::TokenNotFound, symbol@)) && *final(account) == *old(account)
                } else {
                    &&& final(account)@ == adjust_custom(old(account)@, symbol@, delta as int).0
                    &&& match adjust_custom(old(account)@, symbol@, delta as int).1 {
                        None => r is Ok,
                        Some(f) => fails_with(r, f),
                    }
                },
            },
    {
        match Self::is_builtin_symbol(symbol) {
            Some(kind) => Self::adjust_balance(account, &kind, delta),
            None => {
                let key = Self::canonical_symbol(symbol);
                if !self.state.token_definitions.contains_key(key.as_str()) {
                    return Err(LedgerError::TokenNotFound(String::from_str(symbol)));
                }
                Self::adjust_custom_balance(account, symbol, delta)
            },
        }
    }


    /// Applies `adjust_balance` to the account at position `i`.
    pub(crate) fn adjust_balance_at(&mut self, i: usize, token: TokenKind, delta: i128) -> (r: Result<
        (),
        LedgerError,
    >)
        requires
            old(self).wf(),
            i < old(self).state.accounts.key_seq().len(),
            -0x1_0000_0000_0000_0000 < delta < 0x1_0000_0000_0000_0000,
        ensures
            final(self).wf(),
            final(self).followups == old(self).followups,
            only_accounts_changed(old(self).state, final(self).state),
            final(self).state.accounts.key_seq() == old(self).state.accounts.key_seq(),
            match adjust(
                accounts_of(old(self).state)[old(self).state.accounts.key_seq()[i as int]],
                token,
                delta as int,
            ) {
                Ok(a) => r is Ok && accounts_of(final(self).state) == accounts_of(old(self).state).insert(
                    old(self).state.accounts.key_seq()[i as int],
                    a,
                ),
                Err(f) => fails_with(r, f) && accounts_of(final(self).state) == accounts_of(old(self).state),
            },
    {
        let ghost k = old(self).state.accounts.key_seq()[i as int];
        proof {
            old(self).state.accounts.lemma_view_at(i as int);
        }
        let mut a = self.take_account(i);
        let r = Self::adjust_balance(&mut a, &token, delta);
        let ghost av = a@;
        self.put_account(i, a);
        proof {
            if r is Err {
                assert(accounts_of(self.state) =~= accounts_of(old(self).state));
            } else {
                assert(accounts_of(self.state) =~= accounts_of(old(self).state).insert(k, av));
            }
        }
        r
    }

    /// Applies `adjust_custom_balance` to the account at position `i`.
    pub(crate) fn adjust_custom_at(&mut self, i: usize, symbol: &str, delta: i128) -> (r: Result<
        (),
        LedgerError,
    >)
        requires
            old(self).wf(),
            i < old(self).state.accounts.key_seq().len(),
            -0x1_0000_0000_0000_0000 < delta < 0x1_0000_0000_0000_0000,
        ensures
            final(self).wf(),
            final(self).followups == old(self).followups,
            only_accounts_changed(old(self).state, final(self).state),
            final(self).state.accounts.key_seq() == old(self).state.accounts.key_seq(),
            ({
                let out = adjust_custom(
                    accounts_of(old(self).state)[old(self).state.accounts.key_seq()[i as int]],
                    symbol@,
                    delta as int,
                );
                &&& accounts_of(final(self).state) == accounts_of(old(self).state).insert(
                    old(self).state.accounts.key_seq()[i as int],
                    out.0,
                )
                &&& match out.1 {
                    None => r is Ok,
                    Some(f) => fails_with(r, f),
                }
            }),
    {
        let ghost k = old(self).state.accounts.key_seq()[i as int];
        let mut a = self.take_account(i);
        let r = Self::adjust_custom_balance(&mut a, symbol, delta);
        let ghost av = a@;
        self.put_account(i, a);
        proof {
            assert(accounts_of(self.state) =~= accounts_of(old(self).state).insert(k, av));
        }
        r
    }

    /// Adds to the earnings, costs and stake of the account at position `i` (wrapping).
    pub(crate) fn add_totals_at(&mut self, i: usize, earnings: u64, costs: u64, stake: u64)
        requires
            old(self).wf(),
            i < old(self).state.accounts.key_seq().len(),
        ensures
            final(self).wf(),
            final(self).followups == old(self).followups,
            only_accounts_changed(old(self).state, final(self).state),
            final(self).state.accounts.key_seq() == old(self).state.accounts.key_seq(),
            ({
                let k = old(self).state.accounts.key_seq()[i as int];
                let a = accounts_of(old(self).state)[k];
                accounts_of(final(self).state) == accounts_of(old(self).state).insert(
                    k,
                    AccountView {
                        earnings: wrap_add(a.earnings, earnings),
                        costs: wrap_add(a.costs, costs),
                        stake: wrap_add(a.stake, stake),
                        ..a
                    },
                )
            }),
    {
        let mut a = self.take_account(i);
        a.total_earnings = wrapping_add_u64(a.total_earnings, earnings);
        a.total_costs = wrapping_add_u64(a.total_costs, costs);
        a.stake_balance = wrapping_add_u64(a.stake_balance, stake);
        let ghost av = a@;
        self.put_account(i, a);
        proof {
            let k = old(self).state.accounts.key_seq()[i as int];
            assert(accounts_of(self.state) =~= accounts_of(old(self).state).insert(k, av));
        }
    }
}

} // verus!
