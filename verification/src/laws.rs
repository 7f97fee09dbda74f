//! Properties that hold across the ledger's operations.
use crate::arith::{bps_of, sat_add, wrap_add};
use crate::execution::{gas_fault, zero_proof_fault};
use crate::ledger::{account_or_fresh, balance_of, debit};
use crate::statement::statement_json;
use crate::text::{hex_digits};
use crate::transfers::{stake_accounts, transfer_accounts};
use crate::types::{AccountView, TokenKind, Transaction, TransactionKind};
use crate::zero_proof::{built_transaction, intrinsic_gas, ZERO_PROOF_SCHEME};
use crate::consensus::{
    certification_outcome, certification_run, certify_steps, certify_task_effect,
};
use crate::ledger::{accounts_of, Ledger, LedgerError};
use crate::execution::{kind_effect, transaction_effect, block_run, charge_gas_effect, commit_effect, gas_fee, lemma_block_run_keeps_history};
use crate::types::{Block, block_eqv};
use crate::transfers::{payout_effect, treasury_balance};
use crate::tasks::{other_slots, record_task_proof_effect, same_slot};
use crate::types::TaskProof;
use crate::contracts::digits_value;
use crate::registry::{register_node_effect, submit_task_effect};
use crate::text::{decimal, hex_digit};
use crate::types::{ModelProfile, Node, TaskMode};
use crate::supply::{lemma_state_listing, lemma_sum_insert, lemma_total_work_listing, total_work, work_at, work_sum};
use crate::ledger::credit;
use crate::consensus::fastest_proof;
use crate::tasks::fastest_segment;
use crate::summary::count_online;
use crate::chat::{chat_summary, plural};
use crate::types::{ChatResponse, NodeRole, TaskSegment};
use crate::tasks::record_task_proof_effect as record_effect;
use vstd::prelude::*;

verus! {

proof fn lemma_hex_digits_len(n: nat, width: nat)
    ensures
        hex_digits(n, width).len() == width,
    decreases width,
{
    if width > 0 {
        lemma_hex_digits_len(n / 16, (width - 1) as nat);
    }
}

/// Every payload costs some gas.
pub proof fn lemma_intrinsic_gas_positive(kind: TransactionKind)
    ensures
        intrinsic_gas(kind) > 0,
{
}

/// A transaction built by `build_transaction` with a gas payer passes the
/// zero-proof and gas-metadata checks that every transaction goes through
/// before it is applied.
pub proof fn lemma_built_transaction_accepted(
    tx: Transaction,
    id: String,
    timestamp: u64,
    kind: TransactionKind,
    gas_payer: Option<String>,
    gas_price: u64,
    gas_limit: Option<u64>,
)
    requires
        built_transaction(tx, id, timestamp, kind, gas_payer, gas_price, gas_limit),
        gas_payer is Some,
    ensures
        zero_proof_fault(tx) is None,
        gas_fault(tx) is None,
{
    reveal_strlit("gpang-zero-proof");
    reveal_strlit("{\"gas_limit\":");
    let p = tx.zero_proof->Some_0;
    lemma_hex_digits_len(
        crate::zero_proof::default_hash_parts(seq![p.scheme@, p.statement@]) as nat,
        16,
    );
    assert(ZERO_PROOF_SCHEME@ == "gpang-zero-proof"@);
    assert(p.scheme@.len() > 0);
    assert(p.statement@.len() > 0);
    lemma_intrinsic_gas_positive(kind);
}

/// A transaction whose signed statement no longer matches its payload or
/// gas metadata is refused: the zero proof detects tampering.
pub proof fn lemma_tampered_transaction_refused(tx: Transaction, forged: Transaction)
    requires
        forged.zero_proof == tx.zero_proof,
        zero_proof_fault(tx) is None,
        statement_json(forged.kind, forged.gas_payer, forged.gas_limit, forged.gas_price)
            != statement_json(tx.kind, tx.gas_payer, tx.gas_limit, tx.gas_price),
    ensures
        zero_proof_fault(forged) is Some,
{
}

/// The treasury fee of a payout never exceeds the payout while the fee rate
/// is at most 100%.
pub proof fn lemma_treasury_fee_bounded(amount: u64, fee_bps: u64)
    requires
        fee_bps <= 10_000,
    ensures
        bps_of(amount, fee_bps) <= amount,
{
    assert(amount * fee_bps / 10_000 <= amount) by (nonlinear_arith)
        requires
            fee_bps <= 10_000,
    ;
    assert((amount * fee_bps / 10_000) % 0x1_0000_0000_0000_0000 == amount * fee_bps / 10_000);
}

/// A transfer between two accounts moves value without creating or
/// destroying it: the two balances add up to the same total before and
/// after, as long as the receiver's balance does not overflow.
pub proof fn lemma_transfer_conserves(
    m: Map<Seq<char>, AccountView>,
    from: Seq<char>,
    to: Seq<char>,
    token: TokenKind,
    amount: u64,
)
    requires
        from != to,
        transfer_accounts(m, from, to, token, amount) is Ok,
        balance_of(account_or_fresh(m, to), token) + amount <= u64::MAX,
    ensures
        ({
            let m2 = transfer_accounts(m, from, to, token, amount)->Ok_0;
            balance_of(m2[from], token) + balance_of(m2[to], token) == balance_of(m[from], token)
                + balance_of(account_or_fresh(m, to), token)
        }),
{
    let a = debit(m[from], token, amount)->Ok_0;
    let m1 = m.insert(from, a);
    assert(account_or_fresh(m1, to) == account_or_fresh(m, to));
}

/// Staking moves AIA into the stake of the same account: its AIA and stake
/// add up to the same total, as long as the stake does not overflow.
pub proof fn lemma_stake_conserves(m: Map<Seq<char>, AccountView>, owner: Seq<char>, amount: u64)
    requires
        stake_accounts(m, owner, amount) is Ok,
        m[owner].stake + amount <= u64::MAX,
    ensures
        ({
            let m2 = stake_accounts(m, owner, amount)->Ok_0;
            m2[owner].aia + m2[owner].stake == m[owner].aia + m[owner].stake
        }),
{
}

/// A payout moves tokens from the treasury to the recipient: the treasury's
/// and the recipient's balances add up to the same total, as long as the
/// recipient's balance does not overflow.
pub proof fn lemma_payout_conserves(
    pre: Ledger,
    post: Ledger,
    r: Result<(), LedgerError>,
    to: Seq<char>,
    token: TokenKind,
    amount: u64,
)
    requires
        payout_effect(pre, post, r, to, token, amount),
        r is Ok,
        balance_of(account_or_fresh(accounts_of(pre.state), to), token) + amount <= u64::MAX,
    ensures
        treasury_balance(post.state.treasury@, token) + balance_of(accounts_of(post.state)[to], token)
            == treasury_balance(pre.state.treasury@, token) + balance_of(
            account_or_fresh(accounts_of(pre.state), to),
            token,
        ),
{
}

/// Charging gas moves the fee from the payer's AIA to the treasury and
/// counts it as collected: the payer's and the treasury's AIA add up to the
/// same total, as long as the treasury does not overflow.
pub proof fn lemma_gas_moves_fee(pre: Ledger, post: Ledger, tx: Transaction)
    requires
        charge_gas_effect(pre, post, Ok(()), tx),
        pre.state.treasury.aia_balance + gas_fee(tx) <= u64::MAX,
        pre.state.treasury.gas_collected + gas_fee(tx) <= u64::MAX,
    ensures
        ({
            let payer = tx.gas_payer->Some_0@;
            &&& accounts_of(post.state)[payer].aia + post.state.treasury.aia_balance == account_or_fresh(
                accounts_of(pre.state),
                payer,
            ).aia + pre.state.treasury.aia_balance
            &&& post.state.treasury.gas_collected == pre.state.treasury.gas_collected + gas_fee(tx)
        }),
{
    reveal(charge_gas_effect);
}

/// Committing a block that is accepted appends exactly one block, whose
/// height is the length of the history before it, and changes no block
/// that was already there.
pub proof fn lemma_committed_block_appended(
    pre: Ledger,
    post: Ledger,
    txs: Seq<Transaction>,
    timestamp: u64,
    b: Block,
)
    requires
        commit_effect(pre, post, txs, timestamp, Ok(b)),
    ensures
        post.state.blocks@.len() == pre.state.blocks@.len() + 1,
        post.state.blocks@.drop_last() == pre.state.blocks@,
        b.height == pre.state.blocks@.len(),
        b.timestamp == timestamp,
        block_eqv(post.state.blocks@.last(), b),
{
    let (states, results) = choose|states: Seq<Ledger>, results: Seq<Result<(), LedgerError>>|
        {
            &&& #[trigger] block_run(pre, txs, states, results)
            &&& match Ok::<Block, LedgerError>(b) {
                Err(e) => {
                    &&& results.len() > 0
                    &&& results.last() == Err::<(), LedgerError>(e)
                    &&& post == states.last()
                },
                Ok(b) => {
                    let mid = states.last();
                    &&& results.len() == txs.len()
                    &&& forall|j: int| #![trigger results[j]] 0 <= j < results.len() ==> results[j] is Ok
                    &&& post.followups == mid.followups
                    &&& post.state == (crate::types::LedgerState { blocks: post.state.blocks, ..mid.state })
                    &&& post.state.blocks@.drop_last() == mid.state.blocks@
                    &&& post.state.blocks@.len() == mid.state.blocks@.len() + 1
                    &&& block_eqv(post.state.blocks@.last(), b)
                    &&& b.height == mid.state.blocks@.len()
                    &&& b.timestamp == timestamp
                    &&& b.transactions@.len() == txs.len()
                    &&& forall|j: int| 0 <= j < txs.len() ==> crate::types::tx_eqv(#[trigger] txs[j], b.transactions@[j])
                },
            }
        };
    lemma_block_run_keeps_history(pre, txs, states, results, results.len() as int);
}

proof fn lemma_digit_value(d: nat)
    requires
        d < 10,
    ensures
        hex_digit(d) as nat == '0' as nat + d,
{
}

proof fn lemma_decimal_value(n: nat)
    ensures
        digits_value(decimal(n)) == n,
    decreases n,
{
    let s = decimal(n);
    lemma_digit_value(n % 10);
    if n >= 10 {
        lemma_decimal_value(n / 10);
        assert(s.drop_last() =~= decimal(n / 10));
        assert(s.last() == hex_digit(n % 10));
        assert(digits_value(s) == digits_value(s.drop_last()) * 10 + (s.last() as nat - '0' as nat) as nat);
        assert((n / 10) * 10 + n % 10 == n);
    } else {
        assert(s.drop_last() =~= Seq::<char>::empty());
        assert(s.last() == hex_digit(n));
        assert(digits_value(s) == digits_value(s.drop_last()) * 10 + (s.last() as nat - '0' as nat) as nat);
    }
}

/// Different numbers have different decimal numerals.
pub proof fn lemma_decimal_injective(a: nat, b: nat)
    requires
        a != b,
    ensures
        decimal(a) != decimal(b),
{
    lemma_decimal_value(a);
    lemma_decimal_value(b);
}

proof fn lemma_prefixed_numerals_differ(prefix: Seq<char>, a: nat, b: nat)
    requires
        a != b,
    ensures
        prefix + decimal(a) != prefix + decimal(b),
{
    lemma_decimal_injective(a, b);
    if prefix + decimal(a) == prefix + decimal(b) {
        assert(decimal(a) =~= (prefix + decimal(a)).subrange(prefix.len() as int, (prefix + decimal(a)).len() as int));
        assert(decimal(b) =~= (prefix + decimal(b)).subrange(prefix.len() as int, (prefix + decimal(b)).len() as int));
    }
}

/// `post` follows `pre` by the submission of a task that got `id`.
pub open spec fn task_submitted(pre: Ledger, post: Ledger, id: String) -> bool {
    exists|
        owner: String,
        content_hash: String,
        total_tokens: u64,
        target_profile: ModelProfile,
        providers: Vec<String>,
        preferred_region: Option<String>,
        mode: TaskMode,
        chat_prompt: Option<String>,
        now: u64,
    |
        #[trigger] submit_task_effect(
            pre,
            post,
            id,
            owner,
            content_hash,
            total_tokens,
            target_profile,
            providers,
            preferred_region,
            mode,
            chat_prompt,
            now,
        )
}

/// Two tasks submitted one after the other get different ids, while the
/// task counter does not wrap around.
pub proof fn lemma_task_ids_differ(l0: Ledger, l1: Ledger, l2: Ledger, id1: String, id2: String)
    requires
        task_submitted(l0, l1, id1),
        task_submitted(l1, l2, id2),
        l0.state.next_task_id < u64::MAX,
    ensures
        id1@ != id2@,
{
    lemma_prefixed_numerals_differ(
        "task-"@,
        l0.state.next_task_id as nat,
        l1.state.next_task_id as nat,
    );
}

/// `post` follows `pre` by the registration of a node stored as `stored`.
pub open spec fn node_registered(pre: Ledger, post: Ledger, stored: Node) -> bool {
    exists|node: Node, now: u64| #[trigger]
        register_node_effect(pre, post, Ok::<Node, LedgerError>(stored), node, now)
}

/// Two nodes registered one after the other get different ids, while the
/// node counter does not wrap around.
pub proof fn lemma_node_ids_differ(l0: Ledger, l1: Ledger, l2: Ledger, n1: Node, n2: Node)
    requires
        node_registered(l0, l1, n1),
        node_registered(l1, l2, n2),
        l0.state.next_node_id < u64::MAX,
    ensures
        n1.id@ != n2.id@,
{
    lemma_prefixed_numerals_differ(
        "node-"@,
        l0.state.next_node_id as nat,
        l1.state.next_node_id as nat,
    );
}

/// A transaction is accepted only if its zero proof matches its payload and
/// gas metadata and its gas metadata is in order; one whose proof or gas
/// metadata is refused is refused before anything changes: the ledger is
/// left exactly as it was.
pub proof fn lemma_accepted_transactions_are_checked(
    pre: Ledger,
    post: Ledger,
    r: Result<(), LedgerError>,
    tx: Transaction,
)
    requires
        transaction_effect(pre, post, r, tx),
    ensures
        r is Ok ==> gas_fault(tx) is None,
        zero_proof_fault(tx) is Some ==> r is Err && post == pre,
        gas_fault(tx) is Some ==> r is Err && post == pre,
{
    reveal(transaction_effect);
}

/// No two proofs of `s` are for the same task, segment and provider.
pub open spec fn unique_slots(s: Seq<TaskProof>) -> bool {
    forall|i: int, j: int| 0 <= i < j < s.len() ==> !same_slot(#[trigger] s[i], #[trigger] s[j])
}

proof fn lemma_other_slots(s: Seq<TaskProof>, p: TaskProof)
    ensures
        forall|k: int|
            0 <= k < other_slots(s, p).len() ==> !same_slot(#[trigger] other_slots(s, p)[k], p)
                && s.contains(other_slots(s, p)[k]),
        unique_slots(s) ==> unique_slots(other_slots(s, p)),
    decreases s.len(),
{
    if s.len() > 0 {
        let d = s.drop_last();
        lemma_other_slots(d, p);
        let o = other_slots(d, p);
        assert forall|k: int| 0 <= k < o.len() implies s.contains(#[trigger] o[k]) by {
            let i = choose|i: int| 0 <= i < d.len() && d[i] == o[k];
            assert(s[i] == o[k]);
        }
        if unique_slots(s) {
            assert(unique_slots(d)) by {
                assert forall|i: int, j: int| 0 <= i < j < d.len() implies !same_slot(
                    #[trigger] d[i],
                    #[trigger] d[j],
                ) by {
                    assert(s[i] == d[i] && s[j] == d[j]);
                }
            }
            if !same_slot(s.last(), p) {
                let o2 = o.push(s.last());
                assert forall|i: int, j: int| 0 <= i < j < o2.len() implies !same_slot(
                    #[trigger] o2[i],
                    #[trigger] o2[j],
                ) by {
                    if j == o.len() {
                        let x = choose|x: int| 0 <= x < d.len() && d[x] == o[i];
                        assert(s[x] == o[i]);
                        assert(!same_slot(s[x], s[s.len() - 1]));
                    } else {
                        assert(o2[i] == o[i] && o2[j] == o[j]);
                    }
                }
            }
        }
        if !same_slot(s.last(), p) {
            let o2 = o.push(s.last());
            assert forall|k: int| 0 <= k < o2.len() implies !same_slot(#[trigger] o2[k], p)
                && s.contains(o2[k]) by {
                if k < o.len() {
                    assert(o2[k] == o[k]);
                } else {
                    assert(s[s.len() - 1] == o2[k]);
                }
            }
        }
    }
}

/// Recording a task proof keeps at most one pending proof per task,
/// segment and provider: a new proof replaces the one it repeats.
pub proof fn lemma_recording_keeps_slots_unique(
    pre: Ledger,
    post: Ledger,
    r: Result<(), LedgerError>,
    proof: TaskProof,
)
    requires
        record_task_proof_effect(pre, post, r, proof),
        unique_slots(pre.state.pending_task_proofs@),
    ensures
        unique_slots(post.state.pending_task_proofs@),
{
    let s = pre.state.pending_task_proofs@;
    if r is Ok {
        lemma_other_slots(s, proof);
        let o = other_slots(s, proof);
        let o2 = o.push(proof);
        assert forall|i: int, j: int| 0 <= i < j < o2.len() implies !same_slot(
            #[trigger] o2[i],
            #[trigger] o2[j],
        ) by {
            if j == o.len() {
                assert(o2[i] == o[i]);
                assert(!same_slot(o[i], proof));
            } else {
                assert(o2[i] == o[i] && o2[j] == o[j]);
            }
        }
    }
}

proof fn lemma_certify_keeps(
    pre: Ledger,
    post: Ledger,
    task_id: Seq<char>,
    proofs: Seq<TaskProof>,
    reward: u64,
    now: u64,
    out: Seq<Transaction>,
)
    requires
        certify_task_effect(pre, post, task_id, proofs, reward, now, out),
    ensures
        post.state.pending_task_proofs == pre.state.pending_task_proofs,
        post.state.blocks == pre.state.blocks,
        post.state.accounts == pre.state.accounts,
        post.state.treasury == pre.state.treasury,
        post.state.network_capacity.consensus_round == pre.state.network_capacity.consensus_round,
{
    let (mid1, chat, mid2) = choose|mid1: Ledger, chat: Option<Transaction>, mid2: Ledger|
        #[trigger] certify_steps(pre, mid1, chat, mid2, post, task_id, proofs, reward, now, out);
    assert(certify_steps(pre, mid1, chat, mid2, post, task_id, proofs, reward, now, out));
}

/// A consensus round with proofs pending consumes all of them, advances
/// the round counter by one (wrapping), and leaves the block history, the
/// accounts and the treasury as they were: certificates only reach balances
/// once they are committed in a block.
pub proof fn lemma_round_consumes_pending(
    pre: Ledger,
    post: Ledger,
    rewards: Seq<u64>,
    now: u64,
    out: Seq<Transaction>,
)
    requires
        certification_outcome(pre, post, rewards, now, out),
        pre.state.pending_task_proofs@.len() > 0,
    ensures
        post.state.pending_task_proofs@.len() == 0,
        post.state.network_capacity.consensus_round == wrap_add(
            pre.state.network_capacity.consensus_round,
            1,
        ),
        post.state.blocks == pre.state.blocks,
        post.state.accounts == pre.state.accounts,
        post.state.treasury == pre.state.treasury,
{
    let (states, outs) = choose|states: Seq<Ledger>, outs: Seq<Seq<Transaction>>|
        {
            &&& #[trigger] certification_run(pre, rewards, now, states, outs)
            &&& out == crate::consensus::concat_all(outs)
            &&& post.followups == states.last().followups
            &&& post.state == (crate::types::LedgerState {
                network_capacity: crate::types::NetworkCapacity {
                    consensus_round: wrap_add(
                        states.last().state.network_capacity.consensus_round,
                        1,
                    ),
                    ..states.last().state.network_capacity
                },
                ..states.last().state
            })
        };
    lemma_run_keeps(pre, rewards, now, states, outs, outs.len() as int);
}

proof fn lemma_run_keeps(
    pre: Ledger,
    rewards: Seq<u64>,
    now: u64,
    states: Seq<Ledger>,
    outs: Seq<Seq<Transaction>>,
    j: int,
)
    requires
        certification_run(pre, rewards, now, states, outs),
        0 <= j <= outs.len(),
    ensures
        states[j].state.pending_task_proofs@.len() == 0,
        states[j].state.blocks == pre.state.blocks,
        states[j].state.accounts == pre.state.accounts,
        states[j].state.treasury == pre.state.treasury,
        states[j].state.network_capacity.consensus_round
            == pre.state.network_capacity.consensus_round,
    decreases j,
{
    if j > 0 {
        lemma_run_keeps(pre, rewards, now, states, outs, j - 1);
        let pending = pre.state.pending_task_proofs@;
        let order = crate::consensus::task_order(pending);
        let i = j - 1;
        assert(certify_task_effect(
            states[i],
            states[i + 1],
            order[i],
            crate::consensus::proofs_for_task(pending, order[i]),
            rewards[i],
            now,
            outs[i],
        ));
        lemma_certify_keeps(
            states[i],
            states[i + 1],
            order[i],
            crate::consensus::proofs_for_task(pending, order[i]),
            rewards[i],
            now,
            outs[i],
        );
    }
}

/// A transfer of WORK neither creates nor destroys WORK: whatever the
/// transaction's outcome (accepted, refused, or refused at the gas charge),
/// the WORK held by all accounts together, and by the treasury, is what it
/// was, as long as the receiver's balance does not overflow.
pub proof fn lemma_work_transfer_keeps_supply(
    pre: Ledger,
    post: Ledger,
    r: Result<(), LedgerError>,
    tx: Transaction,
)
    requires
        pre.wf(),
        post.wf(),
        transaction_effect(pre, post, r, tx),
        tx.kind matches TransactionKind::Transfer { from, to, token, amount, .. } && token
            == TokenKind::WORK && (from@ != to@ ==> account_or_fresh(accounts_of(pre.state), to@).work
            + amount <= u64::MAX),
    ensures
        total_work(post.state) == total_work(pre.state),
        post.state.treasury.work_balance == pre.state.treasury.work_balance,
{
    reveal(transaction_effect);
    reveal(kind_effect);
    reveal(charge_gas_effect);
    lemma_state_listing(pre.state);
    if gas_fault(tx) is None {
        let (mid, r1) = choose|mid: Ledger, r1: Result<(), LedgerError>|
            {
                &&& kind_effect(pre, mid, r1, tx)
                &&& mid.wf()
                &&& r1 is Err ==> r == r1 && post == mid
                &&& r1 is Ok ==> charge_gas_effect(mid, post, r, tx)
            };
        let (from, to, amount) = match tx.kind {
            TransactionKind::Transfer { from, to, amount, .. } => (from@, to@, amount),
            _ => arbitrary(),
        };
        let k0 = pre.state.accounts.key_seq();
        let m0 = accounts_of(pre.state);
        let k2 = if r1 is Ok {
            let a = debit(m0[from], TokenKind::WORK, amount)->Ok_0;
            let m1 = m0.insert(from, a);
            let k1 = lemma_sum_insert(k0, m0, from, a);
            let c = credit(account_or_fresh(m1, to), TokenKind::WORK, amount);
            assert(account_or_fresh(m1, to).work + amount <= u64::MAX);
            let k2 = lemma_sum_insert(k1, m1, to, c);
            assert(accounts_of(mid.state) == m1.insert(to, c));
            k2
        } else {
            k0
        };
        assert(work_sum(k2, accounts_of(mid.state)) == work_sum(k0, m0));
        if r1 is Err {
            lemma_total_work_listing(post.state, k2);
        } else {
            let mm = accounts_of(mid.state);
            let payer = tx.gas_payer->Some_0@;
            let aof = account_or_fresh(mm, payer);
            let m1g = mm.insert(payer, aof);
            let k3 = lemma_sum_insert(k2, mm, payer, aof);
            match debit(m1g[payer], TokenKind::AIA, gas_fee(tx)) {
                Err(_) => {
                    lemma_total_work_listing(post.state, k3);
                },
                Ok(a2) => {
                    let k4 = lemma_sum_insert(k3, m1g, payer, a2);
                    lemma_total_work_listing(post.state, k4);
                },
            }
        }
    }
}

/// A task's winning proof is its first fastest proof: it is one of the
/// task's proofs, no proof of the task is faster, and every proof before it
/// is strictly slower.
pub proof fn lemma_fastest_proof_is_first_minimum(s: Seq<TaskProof>)
    requires
        s.len() > 0,
    ensures
        0 <= fastest_proof(s) < s.len(),
        forall|i: int| 0 <= i < s.len() ==> s[fastest_proof(s)].latency_ms <= (#[trigger] s[i]).latency_ms,
        forall|i: int| 0 <= i < fastest_proof(s) ==> (#[trigger] s[i]).latency_ms > s[fastest_proof(s)].latency_ms,
    decreases s.len(),
{
    if s.len() > 1 {
        let t = s.drop_last();
        lemma_fastest_proof_is_first_minimum(t);
        let b = fastest_proof(t);
        let f = fastest_proof(s);
        let n = s.len() - 1;
        assert(t[b] == s[b]);
        assert(s[n] == s.last());
        assert forall|i: int| 0 <= i < s.len() implies s[f].latency_ms <= (#[trigger] s[i]).latency_ms by {
            if i < n {
                assert(t[i] == s[i]);
                assert(t[b].latency_ms <= t[i].latency_ms);
            }
        }
        assert forall|i: int| 0 <= i < f implies (#[trigger] s[i]).latency_ms > s[f].latency_ms by {
            assert(i < n);
            assert(t[i] == s[i]);
            assert(t[b].latency_ms <= t[i].latency_ms);
            if f == b {
                assert(t[i].latency_ms > t[b].latency_ms);
            }
        }
    }
}

/// The segment that decides a completed task's winner is its first fastest
/// segment: no segment of the task is faster, and every segment before it
/// is strictly slower.
pub proof fn lemma_fastest_segment_is_first_minimum(s: Seq<TaskSegment>)
    requires
        s.len() > 0,
    ensures
        0 <= fastest_segment(s) < s.len(),
        forall|i: int| 0 <= i < s.len() ==> s[fastest_segment(s)].latency_ms <= (#[trigger] s[i]).latency_ms,
        forall|i: int| 0 <= i < fastest_segment(s) ==> (#[trigger] s[i]).latency_ms > s[fastest_segment(s)].latency_ms,
    decreases s.len(),
{
    if s.len() > 1 {
        let t = s.drop_last();
        lemma_fastest_segment_is_first_minimum(t);
        let b = fastest_segment(t);
        let f = fastest_segment(s);
        let n = s.len() - 1;
        assert(t[b] == s[b]);
        assert(s[n] == s.last());
        assert forall|i: int| 0 <= i < s.len() implies s[f].latency_ms <= (#[trigger] s[i]).latency_ms by {
            if i < n {
                assert(t[i] == s[i]);
                assert(t[b].latency_ms <= t[i].latency_ms);
            }
        }
        assert forall|i: int| 0 <= i < f implies (#[trigger] s[i]).latency_ms > s[f].latency_ms by {
            assert(i < n);
            assert(t[i] == s[i]);
            assert(t[b].latency_ms <= t[i].latency_ms);
            if f == b {
                assert(t[i].latency_ms > t[b].latency_ms);
            }
        }
    }
}

/// The online count of a role is the number of nodes that are online and
/// have that role.
pub proof fn lemma_count_online_counts(s: Seq<Node>, role: NodeRole)
    ensures
        count_online(s, role) == s.filter(|n: Node| n.online && n.role == role).len(),
    decreases s.len(),
{
    reveal(Seq::filter);
    if s.len() > 0 {
        lemma_count_online_counts(s.drop_last(), role);
    }
}

/// A node of a role going offline lowers that role's online count by one.
pub proof fn lemma_going_offline_lowers_count(s: Seq<Node>, i: int, role: NodeRole)
    requires
        0 <= i < s.len(),
        s[i].online,
        s[i].role == role,
    ensures
        count_online(s.update(i, Node { online: false, ..s[i] }), role) + 1 == count_online(s, role),
    decreases s.len(),
{
    let u = s.update(i, Node { online: false, ..s[i] });
    if i == s.len() - 1 {
        assert(u.drop_last() =~= s.drop_last());
    } else {
        lemma_going_offline_lowers_count(s.drop_last(), i, role);
        assert(u.drop_last() =~= s.drop_last().update(i, Node { online: false, ..s[i] }));
        assert(u.last() == s.last());
    }
}

/// The provider count in a chat summary is the number of different
/// providers among the responses, however many responses each one gave.
pub proof fn lemma_chat_summary_counts_providers(s: Seq<ChatResponse>)
    requires
        s.len() > 0,
    ensures
        ({
            let p = s.map_values(|r: ChatResponse| r.provider_id@).to_set().len();
            ("Aggregated "@ + decimal(s.len()) + " chat response"@ + plural(s.len()) + " from "@
                + decimal(p) + " provider"@ + plural(p) + "."@ + "\n"@).is_prefix_of(chat_summary(s))
        }),
{
    let p = s.map_values(|r: ChatResponse| r.provider_id@).to_set().len();
    let header = "Aggregated "@ + decimal(s.len()) + " chat response"@ + plural(s.len()) + " from "@
        + decimal(p) + " provider"@ + plural(p) + "."@ + "\n"@;
    assert(chat_summary(s).subrange(0, header.len() as int) =~= header);
}

/// Responses that all come from one provider are summarized as coming
/// from one provider.
pub proof fn lemma_chat_summary_one_provider(s: Seq<ChatResponse>)
    requires
        s.len() > 0,
        forall|i: int| 0 <= i < s.len() ==> (#[trigger] s[i]).provider_id@ == s[0].provider_id@,
    ensures
        ("Aggregated "@ + decimal(s.len()) + " chat response"@ + plural(s.len()) + " from "@
            + decimal(1) + " provider"@ + "."@ + "\n"@).is_prefix_of(chat_summary(s)),
{
    let ids = s.map_values(|r: ChatResponse| r.provider_id@);
    let x = s[0].provider_id@;
    assert(ids.to_set() =~= set![x]) by {
        assert(ids[0] == x);
        assert forall|y: Seq<char>| ids.to_set().contains(y) implies y == x by {
            let j = ids.index_of(y);
            assert(ids[j] == s[j].provider_id@);
        }
    }
    assert(set![x].len() == 1);
    lemma_chat_summary_counts_providers(s);
    assert(plural(1) =~= Seq::<char>::empty());
    let header = "Aggregated "@ + decimal(s.len()) + " chat response"@ + plural(s.len()) + " from "@
        + decimal(1) + " provider"@ + "."@ + "\n"@;
    let header1 = "Aggregated "@ + decimal(s.len()) + " chat response"@ + plural(s.len()) + " from "@
        + decimal(1) + " provider"@ + plural(1) + "."@ + "\n"@;
    assert(header =~= header1);
}

/// Recording a proof replaces only the pending proof for its own task,
/// segment and provider: every other pending proof (another task, another
/// segment, or another provider) stays pending in its order, and the new
/// proof comes last.
pub proof fn lemma_recording_replaces_only_its_slot(
    pre: Ledger,
    post: Ledger,
    r: Result<(), LedgerError>,
    proof: TaskProof,
)
    requires
        record_effect(pre, post, r, proof),
        r is Ok,
    ensures
        post.state.pending_task_proofs@ == pre.state.pending_task_proofs@.filter(
            |q: TaskProof|
                !(q.task_id@ == proof.task_id@ && q.segment_id@ == proof.segment_id@ && q.provider_id@
                    == proof.provider_id@),
        ).push(proof),
{
    lemma_other_slots_filter(pre.state.pending_task_proofs@, proof);
}

proof fn lemma_other_slots_filter(s: Seq<TaskProof>, p: TaskProof)
    ensures
        other_slots(s, p) == s.filter(
            |q: TaskProof|
                !(q.task_id@ == p.task_id@ && q.segment_id@ == p.segment_id@ && q.provider_id@
                    == p.provider_id@),
        ),
    decreases s.len(),
{
    reveal(Seq::filter);
    if s.len() > 0 {
        lemma_other_slots_filter(s.drop_last(), p);
    }
}

} // verus!
