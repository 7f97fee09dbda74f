//! Built-in token movements: mint, burn, transfer, stake, airdrop, payout.
use crate::arith::wrap_add;
use crate::ledger::{
    Fault, ErrorCode, Ledger, LedgerError, accounts_of, account_or_fresh, balance_of, credit, debit,
    fails_with, only_accounts_changed, token_name,
};
use crate::types::{AccountView, LedgerState, TokenKind, TreasuryView};
use vstd::prelude::*;

verus! {

/// Accounts after a change that only touches accounts: the new map on
/// success; on failure the error and unchanged accounts.
pub open spec fn accounts_outcome(
    pre: LedgerState,
    post: LedgerState,
    r: Result<(), LedgerError>,
    expected: Result<Map<Seq<char>, AccountView>, Fault>,
) -> bool {
    &&& only_accounts_changed(pre, post)
    &&& match expected {
        Ok(m) => r is Ok && accounts_of(post) == m,
        Err(f) => fails_with(r, f) && accounts_of(post) == accounts_of(pre),
    }
}

/// Credits `amount` of `token` to `to` (created when missing) and counts it as earnings.
pub open spec fn mint_accounts(
    m: Map<Seq<char>, AccountView>,
    to: Seq<char>,
    token: TokenKind,
    amount: u64,
) -> Map<Seq<char>, AccountView> {
    let a = credit(account_or_fresh(m, to), token, amount);
    m.insert(to, AccountView { earnings: wrap_add(a.earnings, amount), ..a })
}

/// Burns `amount` of `token` from the existing account `from`, counted as costs.
pub open spec fn burn_accounts(
    m: Map<Seq<char>, AccountView>,
    from: Seq<char>,
    token: TokenKind,
    amount: u64,
) -> Result<Map<Seq<char>, AccountView>, Fault> {
    if !m.contains_key(from) {
        Err((ErrorCode::AccountNotFound, from))
    } else {
        match debit(m[from], token, amount) {
            Err(f) => Err(f),
            Ok(a) => Ok(m.insert(from, AccountView { costs: wrap_add(a.costs, amount), ..a })),
        }
    }
}

/// Moves `amount` of `token` from the existing account `from` to `to` (created when missing).
pub open spec fn transfer_accounts(
    m: Map<Seq<char>, AccountView>,
    from: Seq<char>,
    to: Seq<char>,
    token: TokenKind,
    amount: u64,
) -> Result<Map<Seq<char>, AccountView>, Fault> {
    if !m.contains_key(from) {
        Err((ErrorCode::AccountNotFound, from))
    } else {
        match debit(m[from], token, amount) {
            Err(f) => Err(f),
            Ok(a) => {
                let m1 = m.insert(from, a);
                Ok(m1.insert(to, credit(account_or_fresh(m1, to), token, amount)))
            },
        }
    }
}

/// Moves `amount` of AIA of the existing account `owner` into its stake.
pub open spec fn stake_accounts(m: Map<Seq<char>, AccountView>, owner: Seq<char>, amount: u64) -> Result<
    Map<Seq<char>, AccountView>,
    Fault,
> {
    if !m.contains_key(owner) {
        Err((ErrorCode::AccountNotFound, owner))
    } else {
        match debit(m[owner], TokenKind::AIA, amount) {
            Err(f) => Err(f),
            Ok(a) => Ok(m.insert(owner, AccountView { stake: wrap_add(a.stake, amount), ..a })),
        }
    }
}

/// The treasury's balance of a built-in token.
pub open spec fn treasury_balance(t: TreasuryView, token: TokenKind) -> u64 {
    match token {
        TokenKind::AIA => t.aia,
        TokenKind::WORK => t.work,
        TokenKind::STOR => t.stor,
    }
}

/// The treasury with its balance of `token` set to `v`.
pub open spec fn with_treasury_balance(t: TreasuryView, token: TokenKind, v: u64) -> TreasuryView {
    match token {
        TokenKind::AIA => TreasuryView { aia: v, ..t },
        TokenKind::WORK => TreasuryView { work: v, ..t },
        TokenKind::STOR => TreasuryView { stor: v, ..t },
    }
}

/// `b` is `a` with only its accounts and its treasury changed.
pub open spec fn only_accounts_treasury_changed(a: LedgerState, b: LedgerState) -> bool {
    b == LedgerState { accounts: b.accounts, treasury: b.treasury, ..a }
}

/// The effect of `apply_mint`: Mints (or airdrops) `amount` of `token` to `to`.
pub open spec fn mint_effect(pre: Ledger, post: Ledger, r: Result<(), LedgerError>, to: Seq<char>, token: TokenKind, amount: u64) -> bool {
    &&& post.followups == pre.followups
    &&& accounts_outcome(
            pre.state,
            post.state,
            r,
            Ok(mint_accounts(accounts_of(pre.state), to, token, amount)),
        )
}

/// The effect of `apply_burn`: Burns `amount` of `token` from `from`.
pub open spec fn burn_effect(pre: Ledger, post: Ledger, r: Result<(), LedgerError>, from: Seq<char>, token: TokenKind, amount: u64) -> bool {
    &&& post.followups == pre.followups
    &&& accounts_outcome(
            pre.state,
            post.state,
            r,
            burn_accounts(accounts_of(pre.state), from, token, amount),
        )
}

/// The effect of `apply_transfer`: Transfers `amount` of `token` from `from` to `to`.
pub open spec fn transfer_effect(pre: Ledger, post: Ledger, r: Result<(), LedgerError>, from: Seq<char>, to: Seq<char>, token: TokenKind, amount: u64) -> bool {
    &&& post.followups == pre.followups
    &&& accounts_outcome(
            pre.state,
            post.state,
            r,
            transfer_accounts(accounts_of(pre.state), from, to, token, amount),
        )
}

/// The effect of `apply_stake`: Stakes `amount` of AIA of `owner`.
pub open spec fn stake_effect(pre: Ledger, post: Ledger, r: Result<(), LedgerError>, owner: Seq<char>, amount: u64) -> bool {
    &&& post.followups == pre.followups
    &&& accounts_outcome(
            pre.state,
            post.state,
            r,
            stake_accounts(accounts_of(pre.state), owner, amount),
        )
}

/// The effect of `apply_payout`: Pays `amount` of `token` out of the treasury to `to`.
pub open spec fn payout_effect(pre: Ledger, post: Ledger, r: Result<(), LedgerError>, to: Seq<char>, token: TokenKind, amount: u64) -> bool {
    &&& post.followups == pre.followups
    &&& only_accounts_treasury_changed(pre.state, post.state)
    &&& if treasury_balance(pre.state.treasury@, token) < amount {
            &&& fails_with(
                r,
                (ErrorCode::InvalidTransaction, "treasury has insufficient "@ + token_name(token)),
            )
            &&& post.state == pre.state
        } else {
            &&& r is Ok
            &&& post.state.treasury@ == with_treasury_balance(
                pre.state.treasury@,
                token,
                (treasury_balance(pre.state.treasury@, token) - amount) as u64,
            )
            &&& accounts_of(post.state) == mint_accounts(
                accounts_of(pre.state),
                to,
                token,
                amount,
            )
        }
}

impl Ledger {
    /// Mints (or airdrops) `amount` of `token` to `to`.
    pub fn apply_mint(&mut self, to: &str, token: TokenKind, amount: u64) -> (r: Result<
        (),
        LedgerError,
    >)
        requires
            old(self).wf(),
        ensures
            final(self).wf(),
            mint_effect(*old(self), *final(self), r, to@, token, amount),
    {
        let i = self.get_or_create_account(to);
        let ghost mid = self.state;
        let r = self.adjust_balance_at(i, token, amount as i128);
        if r.is_err() {
            return r;
        }
        self.add_totals_at(i, amount, 0, 0);
        proof {
            assert(accounts_of(self.state) =~= mint_accounts(
                accounts_of(old(self).state),
                to@,
                token,
                amount,
            ));
        }
        Ok(())
    }

    /// Burns `amount` of `token` from `from`.
    pub fn apply_burn(&mut self, from: &str, token: TokenKind, amount: u64) -> (r: Result<
        (),
        LedgerError,
    >)
        requires
            old(self).wf(),
        ensures
            final(self).wf(),
            burn_effect(*old(self), *final(self), r, from@, token, amount),
    {
        let i = match self.account_position(from) {
            Some(i) => i,
            None => {
                return Err(LedgerError::AccountNotFound(String::from_str(from)));
            },
        };
        let r = self.adjust_balance_at(i, token, -(amount as i128));
        if r.is_err() {
            return r;
        }
        self.add_totals_at(i, 0, amount, 0);
        proof {
            assert(accounts_of(self.state) =~= burn_accounts(
                accounts_of(old(self).state),
                from@,
                token,
                amount,
            )->Ok_0);
        }
        Ok(())
    }

    /// Transfers `amount` of `token` from `from` to `to`.
    pub fn apply_transfer(&mut self, from: &str, to: &str, token: TokenKind, amount: u64) -> (r:
        Result<(), LedgerError>)
        requires
            old(self).wf(),
        ensures
            final(self).wf(),
            transfer_effect(*old(self), *final(self), r, from@, to@, token, amount),
    {
        let i = match self.account_position(from) {
            Some(i) => i,
            None => {
                return Err(LedgerError::AccountNotFound(String::from_str(from)));
            },
        };
        let r = self.adjust_balance_at(i, token, -(amount as i128));
        if r.is_err() {
            return r;
        }
        let ghost m1 = accounts_of(self.state);
        let j = self.get_or_create_account(to);
        let r2 = self.adjust_balance_at(j, token, amount as i128);
        proof {
            assert(r2 is Ok);
            assert(accounts_of(self.state) =~= transfer_accounts(
                accounts_of(old(self).state),
                from@,
                to@,
                token,
                amount,
            )->Ok_0);
        }
        r2
    }

    /// Stakes `amount` of AIA of `owner`.
    pub fn apply_stake(&mut self, owner: &str, amount: u64) -> (r: Result<(), LedgerError>)
        requires
            old(self).wf(),
        ensures
            final(self).wf(),
            stake_effect(*old(self), *final(self), r, owner@, amount),
    {
        let i = match self.account_position(owner) {
            Some(i) => i,
            None => {
                return Err(LedgerError::AccountNotFound(String::from_str(owner)));
            },
        };
        let r = self.adjust_balance_at(i, TokenKind::AIA, -(amount as i128));
        if r.is_err() {
            return r;
        }
        self.add_totals_at(i, 0, 0, amount);
        proof {
            assert(accounts_of(self.state) =~= stake_accounts(
                accounts_of(old(self).state),
                owner@,
                amount,
            )->Ok_0);
        }
        Ok(())
    }

    /// Pays `amount` of `token` out of the treasury to `to`.
    pub fn apply_payout(&mut self, to: &str, token: TokenKind, amount: u64) -> (r: Result<
        (),
        LedgerError,
    >)
        requires
            old(self).wf(),
        ensures
            final(self).wf(),
            payout_effect(*old(self), *final(self), r, to@, token, amount),
    {
        let available = match token {
            TokenKind::AIA => self.state.treasury.aia_balance,
            TokenKind::WORK => self.state.treasury.work_balance,
            TokenKind::STOR => self.state.treasury.stor_balance,
        };
        if available < amount {
            let mut msg = String::from_str("treasury has insufficient ");
            match token {
                TokenKind::AIA => msg.append("AIA"),
                TokenKind::WORK => msg.append("WORK"),
                TokenKind::STOR => msg.append("STOR"),
            }
            return Err(LedgerError::InvalidTransaction(msg));
        }
        match token {
            TokenKind::AIA => self.state.treasury.aia_balance = available - amount,
            TokenKind::WORK => self.state.treasury.work_balance = available - amount,
            TokenKind::STOR => self.state.treasury.stor_balance = available - amount,
        }
        let ghost mid = self.state;
        let r = self.apply_mint(to, token, amount);
        proof {
            assert(accounts_of(mid) == accounts_of(old(self).state));
        }
        r
    }
}

} // verus!
