//! Block rewards for stakers.
use crate::arith::{bps_of, basis_points, sat_sub, wrap_add, wrapping_add_u64};
use crate::execution::current_timestamp;
use crate::ledger::{Ledger, LedgerError};
use crate::text::{decimal, write_decimal};
use crate::types::{Account, LedgerState, TokenKind, Transaction, TransactionKind};
use crate::zero_proof::{
    MIN_GAS_PRICE, build_transaction, effective_gas_limit, effective_gas_price, expected_proof,
    intrinsic_gas,
};
use vstd::prelude::*;

verus! {

/// The total stake of a list of accounts (64-bit, wrapping on overflow).
pub open spec fn stake_sum(accts: Seq<Account>) -> u64
    decreases accts.len(),
{
    if accts.len() == 0 {
        0
    } else {
        wrap_add(stake_sum(accts.drop_last()), accts.last().stake_balance)
    }
}

/// A staker's share of the pool: `pool * stake / total`, reduced to 64 bits.
pub open spec fn reward_share(pool: u64, stake: u64, total: u64) -> u64 {
    ((pool * stake / (total as int)) % 0x1_0000_0000_0000_0000) as u64
}

/// The stakers that receive a payout, with their shares, in account order:
/// accounts with stake whose share is not zero.
pub open spec fn reward_recipients(accts: Seq<Account>, pool: u64, total: u64) -> Seq<(String, u64)>
    decreases accts.len(),
{
    if accts.len() == 0 {
        Seq::empty()
    } else {
        let rest = reward_recipients(accts.drop_last(), pool, total);
        let a = accts.last();
        if a.stake_balance == 0 || reward_share(pool, a.stake_balance, total) == 0 {
            rest
        } else {
            rest.push((a.id, reward_share(pool, a.stake_balance, total)))
        }
    }
}

/// The reward pool of a block: `reward_bps` basis points of the treasury's AIA.
pub open spec fn reward_pool(s: LedgerState) -> u64 {
    bps_of(s.treasury.aia_balance, s.treasury.reward_bps)
}

/// `tx` is the block-reward payout of `share` AIA to `to`, made at `now`.
pub open spec fn is_reward_payout(tx: Transaction, to: String, share: u64, now: u64) -> bool {
    &&& tx.id@ == "block-reward-"@ + decimal(now as nat) + "-"@ + to@
    &&& tx.timestamp == now
    &&& tx.kind matches TransactionKind::Payout { to: t, token, amount, task_id } && t == to && token
        == TokenKind::AIA && amount == share && task_id@ == "block_reward"@
    &&& tx.gas_payer == Some(to)
    &&& tx.gas_price == MIN_GAS_PRICE
    &&& tx.gas_limit == intrinsic_gas(tx.kind)
    &&& tx.gas_used == intrinsic_gas(tx.kind)
    &&& tx.zero_proof matches Some(p) && expected_proof(
        tx.kind,
        tx.gas_payer,
        tx.gas_limit,
        tx.gas_price,
        p,
    )
}

/// The sum of the shares of a list of recipients.
pub open spec fn shares_total(r: Seq<(String, u64)>) -> int
    decreases r.len(),
{
    if r.len() == 0 {
        0
    } else {
        shares_total(r.drop_last()) + r.last().1
    }
}

/// The exact sum of the stakes of a list of accounts.
pub open spec fn exact_stake(accts: Seq<Account>) -> int
    decreases accts.len(),
{
    if accts.len() == 0 {
        0
    } else {
        exact_stake(accts.drop_last()) + accts.last().stake_balance
    }
}

proof fn lemma_floor_sum(a: int, b: int, t: int)
    requires
        a >= 0,
        b >= 0,
        t > 0,
    ensures
        a / t + b / t <= (a + b) / t,
{
    assert(a / t + b / t <= (a + b) / t) by (nonlinear_arith)
        requires
            a >= 0,
            b >= 0,
            t > 0,
    {
        assert(a == t * (a / t) + a % t);
        assert(b == t * (b / t) + b % t);
        assert(a + b == t * (a / t + b / t) + (a % t + b % t));
    }
}

proof fn lemma_shares_bounded(accts: Seq<Account>, pool: u64, total: u64)
    requires
        total > 0,
        exact_stake(accts) <= total,
    ensures
        shares_total(reward_recipients(accts, pool, total)) <= pool * exact_stake(accts) / (
        total as int),
    decreases accts.len(),
{
    if accts.len() > 0 {
        let rest = accts.drop_last();
        let a = accts.last();
        let s = a.stake_balance as int;
        assert(exact_stake(rest) >= 0) by {
            lemma_exact_stake_nonneg(rest);
        }
        lemma_shares_bounded(rest, pool, total);
        let x = pool * exact_stake(rest);
        let y = pool * s;
        assert(x >= 0 && y >= 0) by (nonlinear_arith)
            requires
                pool >= 0,
                exact_stake(rest) >= 0,
                s >= 0,
                x == pool * exact_stake(rest),
                y == pool * s,
        ;
        lemma_floor_sum(x, y, total as int);
        assert(pool * exact_stake(accts) == x + y) by (nonlinear_arith)
            requires
                exact_stake(accts) == exact_stake(rest) + s,
                x == pool * exact_stake(rest),
                y == pool * s,
        ;
        assert(y / (total as int) <= pool) by (nonlinear_arith)
            requires
                y == pool * s,
                s <= total,
                total > 0,
                pool >= 0,
                s >= 0,
        ;
        assert(y / (total as int) >= 0) by (nonlinear_arith)
            requires
                y >= 0,
                total > 0,
        ;
        let rr = reward_recipients(rest, pool, total);
        if s != 0 && reward_share(pool, a.stake_balance, total) != 0 {
            assert((y / (total as int)) % 0x1_0000_0000_0000_0000 == y / (total as int));
            assert(reward_share(pool, a.stake_balance, total) == y / (total as int));
            let e = (a.id, reward_share(pool, a.stake_balance, total));
            assert(rr.push(e).drop_last() =~= rr);
            assert(shares_total(rr.push(e)) == shares_total(rr) + e.1);
        }
    }
}

proof fn lemma_exact_stake_nonneg(accts: Seq<Account>)
    ensures
        exact_stake(accts) >= 0,
    decreases accts.len(),
{
    if accts.len() > 0 {
        lemma_exact_stake_nonneg(accts.drop_last());
    }
}

/// When the stakes add up without overflow, the block-reward shares add up
/// to at most the reward pool.
pub proof fn lemma_reward_shares_within_pool(accts: Seq<Account>, pool: u64)
    requires
        exact_stake(accts) > 0,
        exact_stake(accts) <= u64::MAX,
    ensures
        shares_total(reward_recipients(accts, pool, exact_stake(accts) as u64)) <= pool,
{
    let total = exact_stake(accts) as u64;
    lemma_shares_bounded(accts, pool, total);
    assert(pool * exact_stake(accts) / (total as int) == pool) by (nonlinear_arith)
        requires
            total == exact_stake(accts),
            total > 0,
    ;
}

/// The effect of `distribute_block_rewards_at`: with stake and a non-empty
/// pool, the pool leaves the treasury (saturating) and each staker with a
/// non-zero share gets a payout transaction, in account order.
pub open spec fn block_rewards_effect(pre_l: Ledger, post_l: Ledger, r: Result<Vec<Transaction>, LedgerError>, now: u64) -> bool {
    let pre = pre_l.state;
    let post = post_l.state;
    let total = stake_sum(pre.accounts.value_seq());
    let pool = reward_pool(pre);
    &&& post_l.followups == pre_l.followups
    &&& if total == 0 || pool == 0 {
        r matches Ok(v) && v@.len() == 0 && post == pre
    } else {
        let rec = reward_recipients(pre.accounts.value_seq(), pool, total);
        &&& post == (LedgerState {
            treasury: crate::types::Treasury {
                aia_balance: sat_sub(pre.treasury.aia_balance, pool),
                ..pre.treasury
            },
            ..pre
        })
        &&& r matches Ok(v) && v@.len() == rec.len() && forall|i: int|
            0 <= i < rec.len() ==> is_reward_payout(#[trigger] v@[i], rec[i].0, rec[i].1, now)
    }
}

impl Ledger {
    /// Pays stakers their share of the block reward pool, stamped `now`: the
    /// pool leaves the treasury and one payout per staker with a non-zero
    /// share is returned, in account order.
    pub fn distribute_block_rewards_at(&mut self, now: u64) -> (r: Result<Vec<Transaction>, LedgerError>)
        requires
            old(self).wf(),
        ensures
            final(self).wf(),
            block_rewards_effect(*old(self), *final(self), r, now),
    {
        let n = self.state.accounts.len();
        proof {
            self.state.accounts.lemma_lengths();
        }
        let mut total: u64 = 0;
        let mut i: usize = 0;
        while i < n
            invariant
                self.wf(),
                n == self.state.accounts.value_seq().len(),
                n == self.state.accounts.key_seq().len(),
                i <= n,
                total == stake_sum(self.state.accounts.value_seq().subrange(0, i as int)),
            decreases n - i,
        {
            let ghost s = self.state.accounts.value_seq().subrange(0, i + 1);
            proof {
                assert(s.drop_last() =~= self.state.accounts.value_seq().subrange(0, i as int));
            }
            total = wrapping_add_u64(total, self.state.accounts.value_at(i).stake_balance);
            i = i + 1;
        }
        proof {
            assert(self.state.accounts.value_seq().subrange(0, n as int)
                =~= self.state.accounts.value_seq());
        }
        if total == 0 {
            return Ok(Vec::new());
        }
        let pool = basis_points(self.state.treasury.aia_balance, self.state.treasury.reward_bps);
        if pool == 0 {
            return Ok(Vec::new());
        }
        self.state.treasury.aia_balance = self.state.treasury.aia_balance.saturating_sub(pool);
        let mut payouts: Vec<Transaction> = Vec::new();
        let ghost accts = self.state.accounts.value_seq();
        let mut j: usize = 0;
        while j < n
            invariant
                self.wf(),
                accts == self.state.accounts.value_seq(),
                n == accts.len(),
                n == self.state.accounts.key_seq().len(),
                j <= n,
                total > 0,
                payouts@.len() == reward_recipients(accts.subrange(0, j as int), pool, total).len(),
                forall|k: int|
                    0 <= k < payouts@.len() ==> is_reward_payout(
                        #[trigger] payouts@[k],
                        reward_recipients(accts.subrange(0, j as int), pool, total)[k].0,
                        reward_recipients(accts.subrange(0, j as int), pool, total)[k].1,
                        now,
                    ),
            decreases n - j,
        {
            let ghost s = accts.subrange(0, j + 1);
            let ghost before = reward_recipients(accts.subrange(0, j as int), pool, total);
            proof {
                assert(s.drop_last() =~= accts.subrange(0, j as int));
                assert(s.last() == accts[j as int]);
            }
            let account = self.state.accounts.value_at(j);
            let stake = account.stake_balance;
            if stake != 0 {
                proof {
                    assert((pool as u128) * (stake as u128) <= u64::MAX * u64::MAX) by (nonlinear_arith)
                        requires
                            pool <= u64::MAX,
                            stake <= u64::MAX,
                    ;
                }
                let wide: u128 = (pool as u128) * (stake as u128) / (total as u128);
                let share = (wide % 0x1_0000_0000_0000_0000u128) as u64;
                if share != 0 {
                    let mut id = String::from_str("block-reward-");
                    write_decimal(&mut id, now);
                    id.append("-");
                    id.append(account.id.as_str());
                    let kind = TransactionKind::Payout {
                        to: account.id.clone(),
                        token: TokenKind::AIA,
                        amount: share,
                        task_id: String::from_str("block_reward"),
                    };
                    let tx = build_transaction(
                        id,
                        now,
                        kind,
                        Some(account.id.clone()),
                        MIN_GAS_PRICE,
                        None,
                    );
                    payouts.push(tx);
                }
            }
            j = j + 1;
            proof {
                let after = reward_recipients(accts.subrange(0, j as int), pool, total);
                assert(accts.subrange(0, j as int) == s);
                assert forall|k: int| 0 <= k < payouts@.len() implies is_reward_payout(
                    #[trigger] payouts@[k],
                    after[k].0,
                    after[k].1,
                    now,
                ) by {
                    if k < before.len() {
                        assert(after[k] == before[k]);
                    }
                }
            }
        }
        proof {
            assert(accts.subrange(0, n as int) =~= accts);
        }
        Ok(payouts)
    }

    /// Pays stakers their share of the block reward pool, stamped with the clock.
    pub fn distribute_block_rewards(&mut self) -> (r: Result<Vec<Transaction>, LedgerError>)
        requires
            old(self).wf(),
        ensures
            final(self).wf(),
            exists|now: u64| block_rewards_effect(*old(self), *final(self), r, now),
    {
        let now = current_timestamp();
        self.distribute_block_rewards_at(now)
    }
}

} // verus!
