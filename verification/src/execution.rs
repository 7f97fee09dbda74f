//! Transaction execution: the zero-proof check, gas charging, and the
//! single entry point through which every transaction changes the ledger.
use crate::arith::{sat_add, sat_mul, saturating_mul_u64};
use crate::contracts::{deploy_contract_effect, execute_contract_effect};
use crate::ledger::{
    ErrorCode, Fault, Ledger, LedgerError, accounts_of, account_or_fresh, debit, fails_with,
    only_accounts_changed,
};
use crate::statement::{statement_json, zero_proof_statement};
use crate::tasks::{chat_result_effect, record_task_proof_effect, segment_receipt_effect};
use crate::text::decimal;
use crate::tokens::{
    create_token_effect, mint_custom_effect, transfer_custom_effect, treasury_deposit_effect,
    treasury_withdraw_effect,
};
use crate::transfers::{
    burn_effect, mint_effect, only_accounts_treasury_changed, payout_effect, stake_effect,
    transfer_effect,
};
use crate::types::{Block, LedgerState, TokenKind, Transaction, TransactionKind, TreasuryView, block_eqv, clone_transactions, state_copy, tx_eqv};
use crate::zero_proof::{MIN_GAS_PRICE, intrinsic_gas, intrinsic_gas_cost, proof_valid};
use vstd::prelude::*;

verus! {

/// Why a transaction's zero proof is refused, if it is.
pub open spec fn zero_proof_fault(tx: Transaction) -> Option<Fault> {
    match tx.zero_proof {
        None => Some((ErrorCode::InvalidTransaction, "missing zero proof"@)),
        Some(p) => if p.statement@ != statement_json(tx.kind, tx.gas_payer, tx.gas_limit, tx.gas_price)
            || !proof_valid(p) {
            Some((ErrorCode::InvalidTransaction, "zero proof verification failed"@))
        } else {
            None
        },
    }
}

/// Why a transaction's gas metadata is refused, if it is (before the payer is charged).
pub open spec fn gas_fault(tx: Transaction) -> Option<Fault> {
    if zero_proof_fault(tx) is Some {
        zero_proof_fault(tx)
    } else if tx.gas_limit == 0 {
        Some((ErrorCode::InvalidTransaction, "gas limit must be greater than zero"@))
    } else if tx.gas_price < MIN_GAS_PRICE {
        Some(
            (
                ErrorCode::InvalidTransaction,
                "gas price "@ + decimal(tx.gas_price as nat) + " below minimum "@ + decimal(
                    MIN_GAS_PRICE as nat,
                ),
            ),
        )
    } else if tx.gas_limit < intrinsic_gas(tx.kind) {
        Some(
            (
                ErrorCode::InvalidTransaction,
                "gas limit "@ + decimal(tx.gas_limit as nat) + " below intrinsic "@ + decimal(
                    intrinsic_gas(tx.kind) as nat,
                ),
            ),
        )
    } else if tx.gas_payer is None {
        Some((ErrorCode::InvalidTransaction, "missing gas payer"@))
    } else {
        None
    }
}

/// The fee of a transaction: its intrinsic gas at its price, capped at `u64::MAX`.
pub open spec fn gas_fee(tx: Transaction) -> u64 {
    sat_mul(intrinsic_gas(tx.kind), tx.gas_price)
}

/// The effect of `charge_gas`: the fee moves from the payer's AIA to the
/// treasury and is counted as collected gas.
#[verifier::opaque]
pub open spec fn charge_gas_effect(
    pre: Ledger,
    post: Ledger,
    r: Result<(), LedgerError>,
    tx: Transaction,
) -> bool {
    &&& post.followups == pre.followups
    &&& match gas_fault(tx) {
        Some(f) => fails_with(r, f) && post.state == pre.state,
        None => {
            let payer = tx.gas_payer->Some_0@;
            let m1 = accounts_of(pre.state).insert(
                payer,
                account_or_fresh(accounts_of(pre.state), payer),
            );
            let fee = gas_fee(tx);
            match debit(m1[payer], TokenKind::AIA, fee) {
                Err(f) => fails_with(r, f) && only_accounts_changed(pre.state, post.state)
                    && accounts_of(post.state) == m1,
                Ok(a) => {
                    &&& r is Ok
                    &&& only_accounts_treasury_changed(pre.state, post.state)
                    &&& accounts_of(post.state) == m1.insert(payer, a)
                    &&& post.state.treasury@ == (TreasuryView {
                        aia: sat_add(pre.state.treasury.aia_balance, fee),
                        gas_collected: sat_add(pre.state.treasury.gas_collected, fee),
                        ..pre.state.treasury@
                    })
                },
            }
        },
    }
}

/// The effect of a transaction's payload, before gas is charged.
#[verifier::opaque]
pub open spec fn kind_effect(pre: Ledger, post: Ledger, r: Result<(), LedgerError>, tx: Transaction) -> bool {
    match tx.kind {
        TransactionKind::Mint { to, token, amount, .. } => mint_effect(pre, post, r, to@, token, amount),
        TransactionKind::Burn { from, token, amount, .. } => burn_effect(
            pre,
            post,
            r,
            from@,
            token,
            amount,
        ),
        TransactionKind::Transfer { from, to, token, amount, .. } => transfer_effect(
            pre,
            post,
            r,
            from@,
            to@,
            token,
            amount,
        ),
        TransactionKind::Stake { owner, amount } => stake_effect(pre, post, r, owner@, amount),
        TransactionKind::Airdrop { to, token, amount, .. } => mint_effect(
            pre,
            post,
            r,
            to@,
            token,
            amount,
        ),
        TransactionKind::Payout { to, token, amount, .. } => payout_effect(
            pre,
            post,
            r,
            to@,
            token,
            amount,
        ),
        TransactionKind::SegmentReceipt {
            task_id,
            segment_id,
            provider_id,
            tokens,
            latency_ms,
            reward,
        } => segment_receipt_effect(
            pre,
            post,
            r,
            task_id,
            segment_id,
            provider_id,
            tokens,
            latency_ms,
            reward,
            tx.timestamp,
        ),
        TransactionKind::ChatResult { task_id, aggregate, contributors } => chat_result_effect(
            pre,
            post,
            r,
            task_id,
            aggregate,
            contributors,
        ),
        TransactionKind::TaskProofCommit { proof } => record_task_proof_effect(pre, post, r, proof),
        TransactionKind::DeployContract {
            owner,
            contract_id,
            name,
            code,
            metadata,
            runtime,
            program_id,
            bytecode_b64,
        } => deploy_contract_effect(
            pre,
            post,
            r,
            owner,
            contract_id,
            name,
            code,
            metadata,
            runtime,
            program_id,
            bytecode_b64,
            tx.timestamp,
        ),
        TransactionKind::ExecuteContract { contract_id, caller, method, payload } =>
            execute_contract_effect(pre, post, r, contract_id, caller, method, payload, tx.timestamp),
        TransactionKind::CreateToken {
            symbol,
            name,
            decimals,
            initial_supply,
            owner,
            platform,
            contract_id,
        } => create_token_effect(
            pre,
            post,
            r,
            symbol@,
            name,
            decimals,
            initial_supply,
            owner,
            platform,
            contract_id,
            tx.timestamp,
        ),
        TransactionKind::MintCustom { symbol, to, amount, authority } => mint_custom_effect(
            pre,
            post,
            r,
            symbol@,
            to@,
            amount,
            authority@,
        ),
        TransactionKind::TransferCustom { symbol, from, to, amount } => transfer_custom_effect(
            pre,
            post,
            r,
            symbol@,
            from@,
            to@,
            amount,
        ),
        TransactionKind::TreasuryDeposit { from, symbol, amount } => treasury_deposit_effect(
            pre,
            post,
            r,
            from@,
            symbol@,
            amount,
        ),
        TransactionKind::TreasuryWithdraw { to, symbol, amount, authority } =>
            treasury_withdraw_effect(pre, post, r, to@, symbol@, amount, authority@),
    }
}

/// The effect of `apply_transaction`. A transaction whose zero proof or gas
/// metadata is refused changes nothing: it returns its payload's own error
/// when the payload, applied to a copy of the state, is refused, and
/// otherwise the zero-proof or gas error. Any other transaction has its
/// payload's effect, and when the payload is accepted, the gas charge follows.
#[verifier::opaque]
pub open spec fn transaction_effect(
    pre: Ledger,
    post: Ledger,
    r: Result<(), LedgerError>,
    tx: Transaction,
) -> bool {
    match gas_fault(tx) {
        Some(f) => {
            &&& post == pre
            &&& exists|copy: Ledger, mid: Ledger, r1: Result<(), LedgerError>|
                #![trigger kind_effect(copy, mid, r1, tx)]
                {
                    &&& state_copy(pre.state, copy.state)
                    &&& copy.wf()
                    &&& kind_effect(copy, mid, r1, tx)
                    &&& r1 is Err ==> r == r1
                    &&& r1 is Ok ==> fails_with(r, f)
                }
        },
        None => exists|mid: Ledger, r1: Result<(), LedgerError>|
            #![trigger kind_effect(pre, mid, r1, tx)]
            {
                &&& kind_effect(pre, mid, r1, tx)
                &&& mid.wf()
                &&& r1 is Err ==> r == r1 && post == mid
                &&& r1 is Ok ==> charge_gas_effect(mid, post, r, tx)
            },
    }
}

/// `states` and `results` trace the application of `txs` in order from
/// `pre`: `results[j]` is what applying `txs[j]` to `states[j]` returned,
/// leaving `states[j + 1]`; the trace stops at the first refusal.
pub open spec fn block_run(
    pre: Ledger,
    txs: Seq<Transaction>,
    states: Seq<Ledger>,
    results: Seq<Result<(), LedgerError>>,
) -> bool {
    let k = results.len();
    &&& states.len() == k + 1
    &&& k <= txs.len()
    &&& states[0] == pre
    &&& forall|j: int|
        #![trigger results[j]]
        0 <= j < k ==> transaction_effect(states[j], states[j + 1], results[j], txs[j])
    &&& forall|j: int| #![trigger results[j]] 0 <= j < k - 1 ==> results[j] is Ok
    &&& k < txs.len() ==> k > 0 && results[k - 1] is Err
}

/// The effect of `commit_block_at`: the transactions are applied in order
/// through the ledgers `states`; the first refusal stops the block and is
/// returned, the changes before it staying in place; when all are accepted
/// they are appended as a block stamped `timestamp`.
pub open spec fn commit_effect(
    pre: Ledger,
    post: Ledger,
    txs: Seq<Transaction>,
    timestamp: u64,
    r: Result<Block, LedgerError>,
) -> bool {
    exists|states: Seq<Ledger>, results: Seq<Result<(), LedgerError>>|
        {
            &&& #[trigger] block_run(pre, txs, states, results)
            &&& match r {
                Err(e) => {
                    &&& results.len() > 0
                    &&& results.last() == Err::<(), LedgerError>(e)
                    &&& post == states.last()
                },
                Ok(b) => {
                    let mid = states.last();
                    &&& results.len() == txs.len()
                    &&& forall|j: int| #![trigger results[j]] 0 <= j < results.len() ==> results[j] is Ok
                    &&& post.followups == mid.followups
                    &&& post.state == (LedgerState { blocks: post.state.blocks, ..mid.state })
                    &&& post.state.blocks@.drop_last() == mid.state.blocks@
                    &&& post.state.blocks@.len() == mid.state.blocks@.len() + 1
                    &&& block_eqv(post.state.blocks@.last(), b)
                    &&& b.height == mid.state.blocks@.len()
                    &&& b.timestamp == timestamp
                    &&& b.transactions@.len() == txs.len()
                    &&& forall|j: int| 0 <= j < txs.len() ==> tx_eqv(#[trigger] txs[j], b.transactions@[j])
                },
            }
        }
}

/// Transactions never touch the block history, the node registry or the
/// task and node counters.
pub proof fn lemma_transaction_keeps_history(
    pre: Ledger,
    post: Ledger,
    r: Result<(), LedgerError>,
    tx: Transaction,
)
    requires
        transaction_effect(pre, post, r, tx),
    ensures
        post.state.blocks == pre.state.blocks,
        post.state.nodes == pre.state.nodes,
        post.state.next_task_id == pre.state.next_task_id,
        post.state.next_node_id == pre.state.next_node_id,
{
    reveal(transaction_effect);
    reveal(kind_effect);
    reveal(charge_gas_effect);
    if gas_fault(tx) is None {
        let (mid, r1) = choose|mid: Ledger, r1: Result<(), LedgerError>|
            {
                &&& kind_effect(pre, mid, r1, tx)
                &&& mid.wf()
                &&& r1 is Err ==> r == r1 && post == mid
                &&& r1 is Ok ==> charge_gas_effect(mid, post, r, tx)
            };
        assert(mid.state.blocks == pre.state.blocks && mid.state.nodes == pre.state.nodes
            && mid.state.next_task_id == pre.state.next_task_id && mid.state.next_node_id
            == pre.state.next_node_id);
    }
}

/// Every state of a traced block application keeps the block history and node registry.
pub proof fn lemma_block_run_keeps_history(
    pre: Ledger,
    txs: Seq<Transaction>,
    states: Seq<Ledger>,
    results: Seq<Result<(), LedgerError>>,
    j: int,
)
    requires
        block_run(pre, txs, states, results),
        0 <= j <= results.len(),
    ensures
        states[j].state.blocks == pre.state.blocks,
        states[j].state.nodes == pre.state.nodes,
    decreases j,
{
    if j > 0 {
        lemma_block_run_keeps_history(pre, txs, states, results, j - 1);
        lemma_transaction_keeps_history(states[j - 1], states[j], results[j - 1], txs[j - 1]);
    }
}

/// The current Unix time in milliseconds.
///
/// Reads `SystemTime::now()` and measures it from `UNIX_EPOCH` (zero for a
/// clock set before 1970). The clock decides the value, so nothing is
/// stated of it.
#[verifier::external_body]
pub fn current_timestamp() -> u64 {
    std::time::SystemTime::now().duration_since(std::time::UNIX_EPOCH).unwrap_or_default().as_millis() as u64
}

impl Ledger {
    /// Checks a transaction's zero proof against its payload and gas metadata.
    pub fn ensure_zero_proof(&self, tx: &Transaction) -> (r: Result<(), LedgerError>)
        ensures
            match zero_proof_fault(*tx) {
                None => r is Ok,
                Some(f) => fails_with(r, f),
            },
    {
        let proof = match &tx.zero_proof {
            Some(p) => p,
            None => {
                return Err(LedgerError::InvalidTransaction(String::from_str("missing zero proof")));
            },
        };
        let expected = zero_proof_statement(&tx.kind, &tx.gas_payer, tx.gas_limit, tx.gas_price);
        if proof.statement != expected || !proof.verify() {
            return Err(
                LedgerError::InvalidTransaction(String::from_str("zero proof verification failed")),
            );
        }
        Ok(())
    }

    /// Checks a transaction's zero proof and gas metadata: the proof must
    /// match the payload, the gas limit must be positive and cover the
    /// intrinsic gas, the price must reach the minimum, and a payer must be
    /// named.
    pub fn check_gas_metadata(&self, tx: &Transaction) -> (r: Result<(), LedgerError>)
        ensures
            match gas_fault(*tx) {
                None => r is Ok,
                Some(f) => fails_with(r, f),
            },
    {
        let checked = self.ensure_zero_proof(tx);
        if checked.is_err() {
            return checked;
        }
        if tx.gas_limit == 0 {
            return Err(
                LedgerError::InvalidTransaction(String::from_str("gas limit must be greater than zero")),
            );
        }
        if tx.gas_price < MIN_GAS_PRICE {
            let mut msg = String::from_str("gas price ");
            crate::text::write_decimal(&mut msg, tx.gas_price);
            msg.append(" below minimum ");
            crate::text::write_decimal(&mut msg, MIN_GAS_PRICE);
            return Err(LedgerError::InvalidTransaction(msg));
        }
        let intrinsic = intrinsic_gas_cost(&tx.kind);
        if tx.gas_limit < intrinsic {
            let mut msg = String::from_str("gas limit ");
            crate::text::write_decimal(&mut msg, tx.gas_limit);
            msg.append(" below intrinsic ");
            crate::text::write_decimal(&mut msg, intrinsic);
            return Err(LedgerError::InvalidTransaction(msg));
        }
        if tx.gas_payer.is_none() {
            return Err(LedgerError::InvalidTransaction(String::from_str("missing gas payer")));
        }
        Ok(())
    }

    /// Charges a transaction's gas to its payer and routes the fee to the treasury.
    #[verifier::rlimit(40)]
    pub fn charge_gas(&mut self, tx: &Transaction) -> (r: Result<(), LedgerError>)
        requires
            old(self).wf(),
        ensures
            final(self).wf(),
            charge_gas_effect(*old(self), *final(self), r, *tx),
    {
        reveal(charge_gas_effect);
        let checked = self.check_gas_metadata(tx);
        if checked.is_err() {
            return checked;
        }
        let intrinsic = intrinsic_gas_cost(&tx.kind);
        let fee = saturating_mul_u64(intrinsic, tx.gas_price);
        let payer = match &tx.gas_payer {
            Some(p) => p,
            None => {
                return Err(LedgerError::InvalidTransaction(String::from_str("missing gas payer")));
            },
        };
        let i = self.get_or_create_account(payer.as_str());
        let paid = self.adjust_balance_at(i, TokenKind::AIA, -(fee as i128));
        if paid.is_err() {
            return paid;
        }
        self.state.treasury.aia_balance = self.state.treasury.aia_balance.saturating_add(fee);
        self.state.treasury.gas_collected = self.state.treasury.gas_collected.saturating_add(fee);
        Ok(())
    }

    /// Applies a payload to the state, before gas.
    fn apply_kind(&mut self, tx: &Transaction) -> (r: Result<(), LedgerError>)
        requires
            old(self).wf(),
        ensures
            final(self).wf(),
            kind_effect(*old(self), *final(self), r, *tx),
    {
        reveal(kind_effect);
        match &tx.kind {
            TransactionKind::Mint { to, token, amount, .. } => self.apply_mint(
                to.as_str(),
                *token,
                *amount,
            ),
            TransactionKind::Burn { from, token, amount, .. } => self.apply_burn(
                from.as_str(),
                *token,
                *amount,
            ),
            TransactionKind::Transfer { from, to, token, amount, .. } => self.apply_transfer(
                from.as_str(),
                to.as_str(),
                *token,
                *amount,
            ),
            TransactionKind::Stake { owner, amount } => self.apply_stake(owner.as_str(), *amount),
            TransactionKind::Airdrop { to, token, amount, .. } => self.apply_mint(
                to.as_str(),
                *token,
                *amount,
            ),
            TransactionKind::Payout { to, token, amount, .. } => self.apply_payout(
                to.as_str(),
                *token,
                *amount,
            ),
            TransactionKind::SegmentReceipt {
                task_id,
                segment_id,
                provider_id,
                tokens,
                latency_ms,
                reward,
            } => self.apply_segment_receipt(
                task_id,
                segment_id,
                provider_id,
                *tokens,
                *latency_ms,
                *reward,
                tx.timestamp,
            ),
            TransactionKind::ChatResult { task_id, aggregate, contributors } => self.apply_chat_result(
                task_id,
                aggregate,
                contributors,
            ),
            TransactionKind::TaskProofCommit { proof } => self.record_task_proof(proof.clone()),
            TransactionKind::DeployContract {
                owner,
                contract_id,
                name,
                code,
                metadata,
                runtime,
                program_id,
                bytecode_b64,
            } => self.apply_deploy_contract(
                owner,
                contract_id,
                name,
                code,
                metadata,
                *runtime,
                program_id,
                bytecode_b64,
                tx.timestamp,
            ),
            TransactionKind::ExecuteContract { contract_id, caller, method, payload } =>
                self.apply_execute_contract(contract_id, caller, method, payload, tx.timestamp),
            TransactionKind::CreateToken {
                symbol,
                name,
                decimals,
                initial_supply,
                owner,
                platform,
                contract_id,
            } => self.apply_create_token(
                symbol.as_str(),
                name,
                *decimals,
                *initial_supply,
                owner,
                *platform,
                contract_id,
                tx.timestamp,
            ),
            TransactionKind::MintCustom { symbol, to, amount, authority } => self.apply_mint_custom(
                symbol.as_str(),
                to.as_str(),
                *amount,
                authority.as_str(),
            ),
            TransactionKind::TransferCustom { symbol, from, to, amount } =>
                self.apply_transfer_custom(symbol.as_str(), from.as_str(), to.as_str(), *amount),
            TransactionKind::TreasuryDeposit { from, symbol, amount } =>
                self.apply_treasury_deposit(from.as_str(), symbol.as_str(), *amount),
            TransactionKind::TreasuryWithdraw { to, symbol, amount, authority } =>
                self.apply_treasury_withdraw(
                    to.as_str(),
                    symbol.as_str(),
                    *amount,
                    authority.as_str(),
                ),
        }
    }

    /// Applies a transaction: its payload, then its gas charge. The payload's
    /// own error comes first: a refused payload changes nothing and charges
    /// nothing. A transaction whose zero proof or gas metadata is refused is
    /// never applied: its payload is tried on a copy of the state, and its
    /// error, if any, is returned, else the zero-proof or gas error. A
    /// refused fee debit (the payer cannot pay) leaves the payload's changes
    /// in place.
    pub fn apply_transaction(&mut self, tx: &Transaction) -> (r: Result<(), LedgerError>)
        requires
            old(self).wf(),
        ensures
            final(self).wf(),
            transaction_effect(*old(self), *final(self), r, *tx),
    {
        reveal(transaction_effect);
        let checked = self.check_gas_metadata(tx);
        if checked.is_err() {
            let mut scratch = Ledger::new(self.state.clone());
            let ghost copy = scratch;
            let tried = scratch.apply_kind(tx);
            proof {
                assert(kind_effect(copy, scratch, tried, *tx));
            }
            return match tried {
                Err(e) => Err(e),
                Ok(()) => checked,
            };
        }
        let r1 = self.apply_kind(tx);
        let ghost mid = *self;
        let ghost g1 = r1;
        match r1 {
            Err(e) => {
                let r = Err(e);
                proof {
                    assert(kind_effect(*old(self), mid, g1, *tx));
                }
                r
            },
            Ok(()) => {
                let r = self.charge_gas(tx);
                proof {
                    assert(kind_effect(*old(self), mid, g1, *tx));
                }
                r
            },
        }
    }

    /// Applies `transactions` in order and, when all are accepted, appends
    /// them as a block stamped `timestamp`; the first refusal stops the
    /// block and is returned, the changes before it staying in place.
    pub fn commit_block_at(&mut self, transactions: Vec<Transaction>, timestamp: u64) -> (r: Result<
        Block,
        LedgerError,
    >)
        requires
            old(self).wf(),
        ensures
            final(self).wf(),
            commit_effect(*old(self), *final(self), transactions@, timestamp, r),
    {
        let n = transactions.len();
        let mut i: usize = 0;
        let ghost mut states: Seq<Ledger> = seq![*self];
        let ghost mut results: Seq<Result<(), LedgerError>> = Seq::empty();
        while i < n
            invariant
                n == transactions@.len(),
                i <= n,
                self.wf(),
                results.len() == i,
                states.len() == i + 1,
                states[0] == *old(self),
                states.last() == *self,
                forall|j: int|
                    #![trigger results[j]]
                    0 <= j < i ==> transaction_effect(
                        states[j],
                        states[j + 1],
                        results[j],
                        transactions@[j],
                    ),
                forall|j: int| #![trigger results[j]] 0 <= j < i ==> results[j] is Ok,
            decreases n - i,
        {
            let ghost before = *self;
            let applied = self.apply_transaction(&transactions[i]);
            proof {
                let old_states = states;
                let old_results = results;
                states = states.push(*self);
                results = results.push(applied);
                assert forall|j: int|
                    #![trigger results[j]]
                    0 <= j < i + 1 implies transaction_effect(
                        states[j],
                        states[j + 1],
                        results[j],
                        transactions@[j],
                    ) by {
                    if j < i {
                        assert(results[j] == old_results[j]);
                        assert(states[j] == old_states[j]);
                        assert(states[j + 1] == old_states[j + 1]);
                    } else {
                        assert(states[j] == before);
                        assert(states[j + 1] == *self);
                        assert(results[j] == applied);
                    }
                }
                assert forall|j: int| #![trigger results[j]] 0 <= j < i implies results[j] is Ok by {
                    assert(results[j] == old_results[j]);
                }
            }
            match applied {
                Err(e) => {
                    proof {
                        assert(block_run(*old(self), transactions@, states, results));
                    }
                    return Err(e);
                },
                Ok(()) => {},
            }
            i = i + 1;
        }
        proof {
            assert(block_run(*old(self), transactions@, states, results));
        }
        let ghost mid = *self;
        let height = self.state.blocks.len() as u64;
        let stored = Block { height, timestamp, transactions: clone_transactions(&transactions) };
        let block = Block { height, timestamp, transactions };
        proof {
            assert forall|j: int| 0 <= j < transactions@.len() implies tx_eqv(
                #[trigger] stored.transactions@[j],
                block.transactions@[j],
            ) by {
                assert(tx_eqv(transactions@[j], stored.transactions@[j]));
            }
        }
        self.state.blocks.push(stored);
        proof {
            assert(self.state.blocks@.drop_last() =~= mid.state.blocks@);
        }
        Ok(block)
    }

    /// Applies `transactions` and appends them as a block stamped with the clock.
    pub fn commit_block(&mut self, transactions: Vec<Transaction>) -> (r: Result<Block, LedgerError>)
        requires
            old(self).wf(),
        ensures
            final(self).wf(),
            exists|now: u64| commit_effect(*old(self), *final(self), transactions@, now, r),
    {
        let now = current_timestamp();
        self.commit_block_at(transactions, now)
    }
}

} // verus!
