//! The treasury and custom tokens: definitions, minting, transfers,
//! deposits into and withdrawals from the treasury.
use crate::arith::{shift_balance, shifted};
use crate::ledger::{
    Fault, ErrorCode, Ledger, LedgerError, accounts_of, account_or_fresh, adjust, adjust_custom,
    builtin_token, custom_balance, fails_with,
};
use crate::text::{canonical, lemma_canonical_idempotent};
use crate::transfers::{treasury_balance, with_treasury_balance};
use crate::types::{AccountView, LedgerState, TokenDefinition, TokenKind, TreasuryView};
use vstd::prelude::*;

verus! {

/// A signed change of a treasury holding. Built-in tokens are named
/// exactly; any other symbol is a custom holding under its canonical form,
/// whose entry exists afterwards (at zero when it was missing), also when
/// the change is refused.
pub open spec fn treasury_adjust(t: TreasuryView, symbol: Seq<char>, delta: int) -> (
    TreasuryView,
    Option<Fault>,
) {
    let refused = (ErrorCode::InsufficientBalance, "treasury "@ + symbol);
    match builtin_token(symbol) {
        Some(k) => match shifted(treasury_balance(t, k), delta) {
            None => (t, Some(refused)),
            Some(v) => (with_treasury_balance(t, k, v), None),
        },
        None => {
            let key = canonical(symbol);
            let cur = custom_balance(t.custom, key);
            match shifted(cur, delta) {
                None => (TreasuryView { custom: t.custom.insert(key, cur), ..t }, Some(refused)),
                Some(v) => (TreasuryView { custom: t.custom.insert(key, v), ..t }, None),
            }
        },
    }
}

/// `b` is `a` with at most its accounts, treasury, token definitions and
/// platform tokens changed.
pub open spec fn only_token_records_changed(a: LedgerState, b: LedgerState) -> bool {
    b == LedgerState {
        accounts: b.accounts,
        treasury: b.treasury,
        token_definitions: b.token_definitions,
        platform_tokens: b.platform_tokens,
        ..a
    }
}

/// `d` is the definition made by a `CreateToken` with these fields.
pub open spec fn defines_token(
    d: TokenDefinition,
    symbol: Seq<char>,
    name: String,
    decimals: u8,
    initial_supply: u64,
    owner: String,
    platform: bool,
    contract_id: Option<String>,
    created_at: u64,
) -> bool {
    &&& d.symbol@ == symbol
    &&& d.name == name
    &&& d.decimals == decimals
    &&& d.total_supply == initial_supply as u128
    &&& d.owner == owner
    &&& d.platform == platform
    &&& d.created_at == created_at
    &&& d.contract_id == contract_id
}

/// The custom credit of `amount` of `symbol` to `to` (created when missing).
pub open spec fn custom_credit(
    m: Map<Seq<char>, AccountView>,
    to: Seq<char>,
    symbol: Seq<char>,
    amount: u64,
) -> Map<Seq<char>, AccountView> {
    m.insert(to, adjust_custom(account_or_fresh(m, to), symbol, amount as int).0)
}

/// The effect of `apply_create_token`: the token is defined; its initial
/// supply goes to the treasury for a platform token, to its owner otherwise.
pub open spec fn create_token_effect(pre: Ledger, post: Ledger, r: Result<(), LedgerError>, symbol: Seq<char>, name: String, decimals: u8, initial_supply: u64, owner: String, platform: bool, contract_id: Option<String>, timestamp: u64) -> bool {
    &&& post.followups == pre.followups
    &&& only_token_records_changed(pre.state, post.state)
    &&& ({
            let sym = canonical(symbol);
            let pre = pre.state;
            let post = post.state;
            if builtin_token(sym) is Some {
                fails_with(r, (ErrorCode::InvalidTransaction, "cannot redefine builtin token"@))
                    && post == pre
            } else if pre.token_definitions@.contains_key(sym) {
                fails_with(
                    r,
                    (ErrorCode::InvalidTransaction, "token "@ + sym + " already exists"@),
                ) && post == pre
            } else if decimals > 18 {
                fails_with(r, (ErrorCode::InvalidTransaction, "decimals must be <= 18"@))
                    && post == pre
            } else if contract_id is Some && !pre.contracts@.contains_key(
                contract_id->Some_0@,
            ) {
                fails_with(r, (ErrorCode::ContractNotFound, contract_id->Some_0@)) && post
                    == pre
            } else {
                &&& r is Ok
                &&& post.token_definitions@.dom() == pre.token_definitions@.dom().insert(sym)
                &&& forall|k: Seq<char>| #[trigger]
                    post.token_definitions@.contains_key(k) && k != sym
                        ==> post.token_definitions@[k] == pre.token_definitions@[k]
                &&& defines_token(
                    post.token_definitions@[sym],
                    sym,
                    name,
                    decimals,
                    initial_supply,
                    owner,
                    platform,
                    contract_id,
                    timestamp,
                )
                &&& if platform {
                    &&& post.platform_tokens@.dom() == pre.platform_tokens@.dom().insert(sym)
                    &&& post.treasury@ == treasury_adjust(
                        pre.treasury@,
                        sym,
                        initial_supply as int,
                    ).0
                    &&& accounts_of(post) == accounts_of(pre).insert(
                        owner@,
                        account_or_fresh(accounts_of(pre), owner@),
                    )
                } else {
                    &&& post.platform_tokens == pre.platform_tokens
                    &&& post.treasury == pre.treasury
                    &&& accounts_of(post) == custom_credit(
                        accounts_of(pre),
                        owner@,
                        sym,
                        initial_supply,
                    )
                }
            }
        })
}

/// The effect of `apply_mint_custom`: Mints `amount` of the custom token `symbol` to `to`; only the token's owner may.
pub open spec fn mint_custom_effect(pre: Ledger, post: Ledger, r: Result<(), LedgerError>, symbol: Seq<char>, to: Seq<char>, amount: u64, authority: Seq<char>) -> bool {
    &&& post.followups == pre.followups
    &&& only_token_records_changed(pre.state, post.state)
    &&& post.state.treasury == pre.state.treasury
    &&& post.state.platform_tokens == pre.state.platform_tokens
    &&& ({
            let sym = canonical(symbol);
            let pre = pre.state;
            let post = post.state;
            if !pre.token_definitions@.contains_key(sym) {
                fails_with(r, (ErrorCode::TokenNotFound, sym)) && post == pre
            } else if pre.token_definitions@[sym].owner@ != authority {
                fails_with(r, (ErrorCode::Forbidden, authority + " cannot mint "@ + sym))
                    && post == pre
            } else {
                let d = pre.token_definitions@[sym];
                &&& r is Ok
                &&& post.token_definitions@ == pre.token_definitions@.insert(
                    sym,
                    TokenDefinition {
                        total_supply: if d.total_supply + amount > u128::MAX {
                            u128::MAX
                        } else {
                            (d.total_supply + amount) as u128
                        },
                        ..d
                    },
                )
                &&& accounts_of(post) == custom_credit(accounts_of(pre), to, sym, amount)
            }
        })
}

/// The effect of `apply_transfer_custom`: Moves `amount` of the custom token `symbol` from `from` to `to`.
pub open spec fn transfer_custom_effect(pre: Ledger, post: Ledger, r: Result<(), LedgerError>, symbol: Seq<char>, from: Seq<char>, to: Seq<char>, amount: u64) -> bool {
    &&& post.followups == pre.followups
    &&& post.state == (LedgerState { accounts: post.state.accounts, ..pre.state })
    &&& ({
            let sym = canonical(symbol);
            let pre = pre.state;
            let post = post.state;
            let m = accounts_of(pre);
            if !pre.token_definitions@.contains_key(sym) {
                fails_with(r, (ErrorCode::TokenNotFound, sym)) && post == pre
            } else if !m.contains_key(from) {
                fails_with(r, (ErrorCode::AccountNotFound, from)) && post == pre
            } else {
                let out = adjust_custom(m[from], sym, -(amount as int));
                let m1 = m.insert(from, out.0);
                match out.1 {
                    Some(f) => fails_with(r, f) && accounts_of(post) == m1,
                    None => r is Ok && accounts_of(post) == custom_credit(m1, to, sym, amount),
                }
            }
        })
}

/// The effect of `apply_treasury_deposit`: Moves `amount` of a built-in or custom token from `from` into the treasury.
pub open spec fn treasury_deposit_effect(pre: Ledger, post: Ledger, r: Result<(), LedgerError>, from: Seq<char>, symbol: Seq<char>, amount: u64) -> bool {
    &&& post.followups == pre.followups
    &&& post.state == (LedgerState {
            accounts: post.state.accounts,
            treasury: post.state.treasury,
            ..pre.state
        })
    &&& ({
            let sym = canonical(symbol);
            let pre = pre.state;
            let post = post.state;
            let m = accounts_of(pre);
            match builtin_token(sym) {
                Some(k) => if !m.contains_key(from) {
                    fails_with(r, (ErrorCode::AccountNotFound, from)) && post == pre
                } else {
                    match adjust(m[from], k, -(amount as int)) {
                        Err(f) => fails_with(r, f) && accounts_of(post) == m && post.treasury
                            == pre.treasury,
                        Ok(a) => {
                            &&& r is Ok
                            &&& accounts_of(post) == m.insert(from, a)
                            &&& post.treasury@ == treasury_adjust(
                                pre.treasury@,
                                sym,
                                amount as int,
                            ).0
                        },
                    }
                },
                None => if !pre.token_definitions@.contains_key(sym) {
                    fails_with(r, (ErrorCode::TokenNotFound, sym)) && post == pre
                } else if !m.contains_key(from) {
                    fails_with(r, (ErrorCode::AccountNotFound, from)) && post == pre
                } else {
                    let out = adjust_custom(m[from], sym, -(amount as int));
                    &&& accounts_of(post) == m.insert(from, out.0)
                    &&& match out.1 {
                        Some(f) => fails_with(r, f) && post.treasury == pre.treasury,
                        None => r is Ok && post.treasury@ == treasury_adjust(
                            pre.treasury@,
                            sym,
                            amount as int,
                        ).0,
                    }
                },
            }
        })
}

/// The effect of `apply_treasury_withdraw`: `amount` of a built-in token (on
/// a staker's authority) or of a custom token (on its owner's) leaves the
/// treasury for `to`.
pub open spec fn treasury_withdraw_effect(pre: Ledger, post: Ledger, r: Result<(), LedgerError>, to: Seq<char>, symbol: Seq<char>, amount: u64, authority: Seq<char>) -> bool {
    &&& post.followups == pre.followups
    &&& post.state == (LedgerState {
            accounts: post.state.accounts,
            treasury: post.state.treasury,
            ..pre.state
        })
    &&& ({
            let sym = canonical(symbol);
            let pre = pre.state;
            let post = post.state;
            let m = accounts_of(pre);
            let out = treasury_adjust(pre.treasury@, sym, -(amount as int));
            match builtin_token(sym) {
                Some(k) => if !m.contains_key(authority) {
                    fails_with(r, (ErrorCode::AccountNotFound, authority)) && post == pre
                } else if m[authority].stake == 0 {
                    fails_with(
                        r,
                        (ErrorCode::Forbidden, "treasury withdrawal requires staker authority"@),
                    ) && post == pre
                } else {
                    match out.1 {
                        Some(f) => fails_with(r, f) && post == pre,
                        None => {
                            &&& r is Ok
                            &&& post.treasury@ == out.0
                            &&& accounts_of(post) == m.insert(
                                to,
                                crate::ledger::credit(account_or_fresh(m, to), k, amount),
                            )
                        },
                    }
                },
                None => if !pre.token_definitions@.contains_key(sym) {
                    fails_with(r, (ErrorCode::TokenNotFound, sym)) && post == pre
                } else if pre.token_definitions@[sym].owner@ != authority {
                    fails_with(
                        r,
                        (
                            ErrorCode::Forbidden,
                            authority + " cannot withdraw "@ + sym + " from treasury"@,
                        ),
                    ) && post == pre
                } else {
                    &&& post.treasury@ == out.0
                    &&& match out.1 {
                        Some(f) => fails_with(r, f) && accounts_of(post) == m,
                        None => r is Ok && accounts_of(post) == custom_credit(m, to, sym, amount),
                    }
                },
            }
        })
}

impl Ledger {
    /// Changes a treasury holding by `delta`. The holding and the change are
    /// added as 128-bit numbers, so their sum must fit.
    pub fn adjust_treasury(&mut self, symbol: &str, delta: i128) -> (r: Result<(), LedgerError>)
        requires
            old(self).wf(),
            match builtin_token(symbol@) {
                Some(k) => treasury_balance(old(self).state.treasury@, k) + delta <= i128::MAX,
                None => custom_balance(old(self).state.treasury@.custom, canonical(symbol@)) + delta
                    <= i128::MAX,
            },
        ensures
            final(self).wf(),
            final(self).followups == old(self).followups,
            final(self).state == (LedgerState { treasury: final(self).state.treasury, ..old(self).state }),
            final(self).state.treasury@ == treasury_adjust(
                old(self).state.treasury@,
                symbol@,
                delta as int,
            ).0,
            match treasury_adjust(old(self).state.treasury@, symbol@, delta as int).1 {
                None => r is Ok,
                Some(f) => fails_with(r, f),
            },
            builtin_token(symbol@) is Some && r is Err ==> final(self).state == old(self).state,
    {
        match Self::is_builtin_symbol(symbol) {
            Some(kind) => {
                let cur = match kind {
                    TokenKind::AIA => self.state.treasury.aia_balance,
                    TokenKind::WORK => self.state.treasury.work_balance,
                    TokenKind::STOR => self.state.treasury.stor_balance,
                };
                let next = match shift_balance(cur, delta) {
                    Some(v) => v,
                    None => {
                        let mut msg = String::from_str("treasury ");
                        msg.append(symbol);
                        return Err(LedgerError::InsufficientBalance(msg));
                    },
                };
                match kind {
                    TokenKind::AIA => self.state.treasury.aia_balance = next,
                    TokenKind::WORK => self.state.treasury.work_balance = next,
                    TokenKind::STOR => self.state.treasury.stor_balance = next,
                }
                Ok(())
            },
            None => {
                let key = Self::canonical_symbol(symbol);
                let cur = match self.state.treasury.custom_tokens.get(key.as_str()) {
                    Some(v) => *v,
                    None => 0,
                };
                match shift_balance(cur, delta) {
                    Some(next) => {
                        self.state.treasury.custom_tokens.insert(key, next);
                        Ok(())
                    },
                    None => {
                        self.state.treasury.custom_tokens.insert(key, cur);
                        let mut msg = String::from_str("treasury ");
                        msg.append(symbol);
                        Err(LedgerError::InsufficientBalance(msg))
                    },
                }
            },
        }
    }

    /// Credits `amount` of the custom token `symbol` to `to`, creating the account when missing.
    fn credit_custom(&mut self, to: &str, symbol: &str, amount: u64)
        requires
            old(self).wf(),
        ensures
            final(self).wf(),
            final(self).followups == old(self).followups,
            final(self).state == (LedgerState { accounts: final(self).state.accounts, ..old(self).state }),
            accounts_of(final(self).state) == custom_credit(
                accounts_of(old(self).state),
                to@,
                symbol@,
                amount,
            ),
    {
        let i = self.get_or_create_account(to);
        let _ = self.adjust_custom_at(i, symbol, amount as i128);
        proof {
            assert(accounts_of(self.state) =~= custom_credit(
                accounts_of(old(self).state),
                to@,
                symbol@,
                amount,
            ));
        }
    }

    /// Defines a custom token; its initial supply goes to the treasury for a
    /// platform token, to the owner otherwise.
    pub fn apply_create_token(
        &mut self,
        symbol: &str,
        name: &String,
        decimals: u8,
        initial_supply: u64,
        owner: &String,
        platform: bool,
        contract_id: &Option<String>,
        timestamp: u64,
    ) -> (r: Result<(), LedgerError>)
        requires
            old(self).wf(),
        ensures
            final(self).wf(),
            create_token_effect(*old(self), *final(self), r, symbol@, *name, decimals, initial_supply, *owner, platform, *contract_id, timestamp),
    {
        let sym = Self::canonical_symbol(symbol);
        proof {
            lemma_canonical_idempotent(symbol@);
        }
        if Self::is_builtin_symbol(sym.as_str()).is_some() {
            return Err(LedgerError::InvalidTransaction(String::from_str("cannot redefine builtin token")));
        }
        if self.state.token_definitions.contains_key(sym.as_str()) {
            let mut msg = String::from_str("token ");
            msg.append(sym.as_str());
            msg.append(" already exists");
            return Err(LedgerError::InvalidTransaction(msg));
        }
        if decimals > 18 {
            return Err(LedgerError::InvalidTransaction(String::from_str("decimals must be <= 18")));
        }
        match contract_id {
            Some(c) => {
                if !self.state.contracts.contains_key(c.as_str()) {
                    return Err(LedgerError::ContractNotFound(c.clone()));
                }
            },
            None => {},
        }
        let definition = TokenDefinition {
            symbol: sym.clone(),
            name: name.clone(),
            decimals,
            total_supply: initial_supply as u128,
            owner: owner.clone(),
            platform,
            created_at: timestamp,
            contract_id: contract_id.clone(),
        };
        self.state.token_definitions.insert(sym.clone(), definition);
        if platform {
            self.state.platform_tokens.insert(sym.clone(), ());
            let _ = self.adjust_treasury(sym.as_str(), initial_supply as i128);
        } else {
            self.credit_custom(owner.as_str(), sym.as_str(), initial_supply);
        }
        let ghost mid = self.state;
        self.get_or_create_account(owner.as_str());
        proof {
            if !platform {
                assert(accounts_of(mid).contains_key(owner@));
                assert(accounts_of(self.state) =~= accounts_of(mid));
            } else {
                assert(accounts_of(mid) == accounts_of(old(self).state));
            }
        }
        Ok(())
    }

    /// Mints `amount` of the custom token `symbol` to `to`; only the token's owner may.
    pub fn apply_mint_custom(&mut self, symbol: &str, to: &str, amount: u64, authority: &str) -> (r:
        Result<(), LedgerError>)
        requires
            old(self).wf(),
        ensures
            final(self).wf(),
            mint_custom_effect(*old(self), *final(self), r, symbol@, to@, amount, authority@),
    {
        let sym = Self::canonical_symbol(symbol);
        let i = match self.state.token_definitions.position(sym.as_str()) {
            Some(i) => i,
            None => {
                return Err(LedgerError::TokenNotFound(sym));
            },
        };
        let mut d = self.state.token_definitions.value_at(i).clone();
        if !crate::table::str_eq(d.owner.as_str(), authority) {
            let mut msg = String::from_str(authority);
            msg.append(" cannot mint ");
            msg.append(sym.as_str());
            return Err(LedgerError::Forbidden(msg));
        }
        d.total_supply = d.total_supply.saturating_add(amount as u128);
        self.state.token_definitions.set_at(i, d);
        self.credit_custom(to, sym.as_str(), amount);
        Ok(())
    }

    /// Moves `amount` of the custom token `symbol` from `from` to `to`.
    pub fn apply_transfer_custom(&mut self, symbol: &str, from: &str, to: &str, amount: u64) -> (r:
        Result<(), LedgerError>)
        requires
            old(self).wf(),
        ensures
            final(self).wf(),
            transfer_custom_effect(*old(self), *final(self), r, symbol@, from@, to@, amount),
    {
        let sym = Self::canonical_symbol(symbol);
        if !self.state.token_definitions.contains_key(sym.as_str()) {
            return Err(LedgerError::TokenNotFound(sym));
        }
        let i = match self.account_position(from) {
            Some(i) => i,
            None => {
                return Err(LedgerError::AccountNotFound(String::from_str(from)));
            },
        };
        let r = self.adjust_custom_at(i, sym.as_str(), -(amount as i128));
        if r.is_err() {
            return r;
        }
        self.credit_custom(to, sym.as_str(), amount);
        Ok(())
    }

    /// Moves `amount` of a built-in or custom token from `from` into the treasury.
    pub fn apply_treasury_deposit(&mut self, from: &str, symbol: &str, amount: u64) -> (r: Result<
        (),
        LedgerError,
    >)
        requires
            old(self).wf(),
        ensures
            final(self).wf(),
            treasury_deposit_effect(*old(self), *final(self), r, from@, symbol@, amount),
    {
        let sym = Self::canonical_symbol(symbol);
        match Self::is_builtin_symbol(sym.as_str()) {
            Some(kind) => {
                let i = match self.account_position(from) {
                    Some(i) => i,
                    None => {
                        return Err(LedgerError::AccountNotFound(String::from_str(from)));
                    },
                };
                let r = self.adjust_balance_at(i, kind, -(amount as i128));
                if r.is_err() {
                    return r;
                }
                let _ = self.adjust_treasury(sym.as_str(), amount as i128);
                Ok(())
            },
            None => {
                if !self.state.token_definitions.contains_key(sym.as_str()) {
                    return Err(LedgerError::TokenNotFound(sym));
                }
                let i = match self.account_position(from) {
                    Some(i) => i,
                    None => {
                        return Err(LedgerError::AccountNotFound(String::from_str(from)));
                    },
                };
                let r = self.adjust_custom_at(i, sym.as_str(), -(amount as i128));
                if r.is_err() {
                    return r;
                }
                let _ = self.adjust_treasury(sym.as_str(), amount as i128);
                Ok(())
            },
        }
    }

    /// Releases `amount` of a built-in token (on a staker's authority) or of
    /// a custom token (on its owner's authority) from the treasury to `to`.
    pub fn apply_treasury_withdraw(&mut self, to: &str, symbol: &str, amount: u64, authority: &str) -> (r:
        Result<(), LedgerError>)
        requires
            old(self).wf(),
        ensures
            final(self).wf(),
            treasury_withdraw_effect(*old(self), *final(self), r, to@, symbol@, amount, authority@),
    {
        let sym = Self::canonical_symbol(symbol);
        match Self::is_builtin_symbol(sym.as_str()) {
            Some(kind) => {
                let i = match self.account_position(authority) {
                    Some(i) => i,
                    None => {
                        return Err(LedgerError::AccountNotFound(String::from_str(authority)));
                    },
                };
                proof {
                    self.state.accounts.lemma_view_at(i as int);
                }
                if self.state.accounts.value_at(i).stake_balance == 0 {
                    return Err(
                        LedgerError::Forbidden(
                            String::from_str("treasury withdrawal requires staker authority"),
                        ),
                    );
                }
                let r = self.adjust_treasury(sym.as_str(), -(amount as i128));
                if r.is_err() {
                    return r;
                }
                let j = self.get_or_create_account(to);
                let _ = self.adjust_balance_at(j, kind, amount as i128);
                proof {
                    assert(accounts_of(self.state) =~= accounts_of(old(self).state).insert(
                        to@,
                        crate::ledger::credit(
                            account_or_fresh(accounts_of(old(self).state), to@),
                            kind,
                            amount,
                        ),
                    ));
                }
                Ok(())
            },
            None => {
                let i = match self.state.token_definitions.position(sym.as_str()) {
                    Some(i) => i,
                    None => {
                        return Err(LedgerError::TokenNotFound(sym));
                    },
                };
                if !crate::table::str_eq(
                    self.state.token_definitions.value_at(i).owner.as_str(),
                    authority,
                ) {
                    let mut msg = String::from_str(authority);
                    msg.append(" cannot withdraw ");
                    msg.append(sym.as_str());
                    msg.append(" from treasury");
                    return Err(LedgerError::Forbidden(msg));
                }
                let r = self.adjust_treasury(sym.as_str(), -(amount as i128));
                if r.is_err() {
                    return r;
                }
                self.credit_custom(to, sym.as_str(), amount);
                Ok(())
            },
        }
    }
}

} // verus!
