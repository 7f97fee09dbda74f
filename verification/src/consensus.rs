//! Task-proof consensus: chat results gathered from proofs, rewards for the
//! fastest proof of each task, and the certificates a round produces.
use crate::chat::{
    aggregate_chat_responses, chat_summary, provider_ids, response_providers, sorted_distinct,
    strictly_sorted, texts,
};
use crate::arith::{sat_add, sat_mul, saturating_mul_u64, wrap_add, wrapping_add_u64};
use crate::execution::{commit_effect, current_timestamp};
use crate::rewards::block_rewards_effect;
use crate::ledger::{Followup, Ledger, LedgerError};
use crate::tasks::{blank_node, blank_task};
use crate::text::{decimal, is_blank, trim, trimmed, upper, upper_string, write_decimal};
use crate::types::{
    Block, ChatResponse, LedgerState, NetworkCapacity, PricingConfig, Node, NodeRole, Task, TaskMode, TaskProof,
    TokenKind, Transaction, TransactionKind,
};
use crate::zero_proof::{build_transaction, expected_proof, intrinsic_gas, MIN_GAS_PRICE};
use vstd::prelude::*;

verus! {

/// The segment of each chat response, in order.
pub open spec fn response_segments(s: Seq<ChatResponse>) -> Seq<Seq<char>> {
    s.map_values(|c: ChatResponse| c.segment_id@)
}

/// The segment of each proof, in order.
pub open spec fn proof_segments(s: Seq<TaskProof>) -> Seq<Seq<char>> {
    s.map_values(|p: TaskProof| p.segment_id@)
}

/// A proof carries a chat answer that is not blank.
pub open spec fn chat_text_ok(p: TaskProof) -> bool {
    p.chat_response matches Some(t) && trim(t@).len() > 0
}

/// The proofs of `s` that add a chat response: each carries a non-blank
/// answer for a segment that neither `seen` nor an earlier accepted proof has.
pub open spec fn fresh_chat_proofs(seen: Seq<Seq<char>>, s: Seq<TaskProof>) -> Seq<TaskProof>
    decreases s.len(),
{
    if s.len() == 0 {
        Seq::empty()
    } else {
        let f = fresh_chat_proofs(seen, s.drop_last());
        let p = s.last();
        if chat_text_ok(p) && !seen.contains(p.segment_id@) && !proof_segments(f).contains(
            p.segment_id@,
        ) {
            f.push(p)
        } else {
            f
        }
    }
}

/// `e` is the chat response that proof `p` contributes at time `now`.
pub open spec fn chat_entry_of(p: TaskProof, now: u64, e: ChatResponse) -> bool {
    &&& e.provider_id == p.provider_id
    &&& e.node_id == p.node_id
    &&& e.segment_id == p.segment_id
    &&& e.latency_ms == p.latency_ms
    &&& e.tokens == p.tokens_processed
    &&& p.chat_response matches Some(t) && e.response_fragment@ == trim(t@)
    &&& e.submitted_at == now
}

/// `tx` is a transaction built by the ledger itself: the given id, time and
/// payer, the intrinsic gas as its limit, the minimum price and its zero proof.
pub open spec fn ledger_tx(tx: Transaction, id: Seq<char>, timestamp: u64, payer: String) -> bool {
    &&& tx.id@ == id
    &&& tx.timestamp == timestamp
    &&& tx.gas_payer == Some(payer)
    &&& tx.gas_limit == intrinsic_gas(tx.kind)
    &&& tx.gas_price == MIN_GAS_PRICE
    &&& tx.gas_used == intrinsic_gas(tx.kind)
    &&& tx.zero_proof matches Some(p) && expected_proof(
        tx.kind,
        tx.gas_payer,
        tx.gas_limit,
        tx.gas_price,
        p,
    )
}

/// The chat-result transaction of a task whose responses are now those of `t2`.
pub open spec fn chat_result_tx(tx: Transaction, task_id: Seq<char>, t2: Task, now: u64, owner: String) -> bool {
    &&& ledger_tx(tx, "chat-result-"@ + task_id + "-"@ + decimal(now as nat), now, owner)
    &&& tx.kind matches TransactionKind::ChatResult { task_id: k, aggregate, contributors } && {
        &&& k@ == task_id
        &&& t2.chat_aggregate == Some(aggregate)
        &&& strictly_sorted(texts(contributors@))
        &&& texts(contributors@).to_set() == provider_ids(t2.chat_responses@).to_set()
    }
}

/// The effect of `integrate_chat_results`.
pub open spec fn chat_integration_effect(
    pre: Ledger,
    post: Ledger,
    r: Option<Transaction>,
    task_id: Seq<char>,
    proofs: Seq<TaskProof>,
    now: u64,
) -> bool {
    let st = pre.state;
    let t = st.tasks@[task_id];
    let fresh = fresh_chat_proofs(response_segments(t.chat_responses@), proofs);
    if !st.tasks@.contains_key(task_id) || t.mode != TaskMode::Chat || fresh.len() == 0 {
        r is None && post == pre
    } else {
        let t2 = post.state.tasks@[task_id];
        let n = t.chat_responses@.len();
        let all = t2.chat_responses@;
        &&& post.followups == pre.followups
        &&& post.state == (LedgerState { tasks: post.state.tasks, ..st })
        &&& post.state.tasks@ == st.tasks@.insert(task_id, t2)
        &&& t2 == (Task {
            chat_responses: t2.chat_responses,
            chat_aggregate: t2.chat_aggregate,
            completed: true,
            ..t
        })
        &&& all.len() == n + fresh.len()
        &&& all.subrange(0, n as int) == t.chat_responses@
        &&& forall|j: int| 0 <= j < fresh.len() ==> chat_entry_of(#[trigger] fresh[j], now, all[n + j])
        &&& t2.chat_aggregate matches Some(a) && a@ == chat_summary(all)
        &&& r matches Some(tx) && chat_result_tx(tx, task_id, t2, now, t.owner)
    }
}

/// The 128-bit counter `a` plus one, capped at `u128::MAX`.
pub open spec fn sat_inc_u128(a: u128) -> u128 {
    if a < u128::MAX {
        (a + 1) as u128
    } else {
        a
    }
}

/// The effect of `apply_task_share_for_node`.
pub open spec fn task_share_effect(pre: Ledger, post: Ledger, node_id: Seq<char>, reward: u64, now: u64) -> bool {
    let st = pre.state;
    let nd = st.nodes@[node_id];
    if !st.nodes@.contains_key(node_id) || nd.role != NodeRole::Compute {
        post == pre
    } else {
        let cap = st.network_capacity;
        &&& post.state == (LedgerState {
            nodes: post.state.nodes,
            network_capacity: post.state.network_capacity,
            ..st
        })
        &&& post.state.nodes@ == st.nodes@.insert(
            node_id,
            Node {
                task_slots_granted: sat_add(nd.task_slots_granted, 1),
                task_segments_completed: sat_add(nd.task_segments_completed, 1),
                total_rewards: sat_add(nd.total_rewards, reward),
                last_reward_at: now,
                ..nd
            },
        )
        &&& post.state.network_capacity == (NetworkCapacity {
            total_task_slots: sat_inc_u128(cap.total_task_slots),
            ..cap
        })
        &&& post.followups@.len() == pre.followups@.len() + 2
        &&& post.followups@.subrange(0, pre.followups@.len() + 1int) == pre.followups@.push(
            Followup::RefreshAverageTasks,
        )
        &&& post.followups@.last() matches Followup::RefreshNodeWeight { node_id: n } && n@ == node_id
    }
}

/// The tasks of `s` in the order in which a proof first names them.
pub open spec fn task_order(s: Seq<TaskProof>) -> Seq<Seq<char>>
    decreases s.len(),
{
    if s.len() == 0 {
        Seq::empty()
    } else {
        let o = task_order(s.drop_last());
        if o.contains(s.last().task_id@) {
            o
        } else {
            o.push(s.last().task_id@)
        }
    }
}

/// The proofs of `s` for task `t`, in order.
pub open spec fn proofs_for_task(s: Seq<TaskProof>, t: Seq<char>) -> Seq<TaskProof>
    decreases s.len(),
{
    if s.len() == 0 {
        Seq::empty()
    } else if s.last().task_id@ == t {
        proofs_for_task(s.drop_last(), t).push(s.last())
    } else {
        proofs_for_task(s.drop_last(), t)
    }
}

/// The position of the first proof with the lowest latency (`s` non-empty).
pub open spec fn fastest_proof(s: Seq<TaskProof>) -> int
    decreases s.len(),
{
    if s.len() <= 1 {
        0
    } else {
        let b = fastest_proof(s.drop_last());
        if s.last().latency_ms < s[b].latency_ms {
            s.len() - 1
        } else {
            b
        }
    }
}

/// The proof that wins task `t`'s round: its first fastest proof.
pub open spec fn round_winner(s: Seq<TaskProof>, t: Seq<char>) -> TaskProof {
    let g = proofs_for_task(s, t);
    g[fastest_proof(g)]
}

/// The receipt of the winning proof's segment.
pub open spec fn receipt_tx(tx: Transaction, task_id: Seq<char>, best: TaskProof, reward: u64, now: u64, owner: String) -> bool {
    &&& ledger_tx(tx, "segment-"@ + task_id + "-"@ + best.segment_id@, now, owner)
    &&& tx.kind matches TransactionKind::SegmentReceipt {
        task_id: k,
        segment_id,
        provider_id,
        tokens,
        latency_ms,
        reward: paid,
    } && {
        &&& k@ == task_id
        &&& segment_id == best.segment_id
        &&& provider_id == best.provider_id
        &&& tokens == best.tokens_processed
        &&& latency_ms == best.latency_ms
        &&& paid == reward
    }
}

/// The payout of the winning proof's reward, in AIA, to its provider.
pub open spec fn payout_tx(tx: Transaction, task_id: Seq<char>, best: TaskProof, reward: u64, now: u64, owner: String) -> bool {
    &&& ledger_tx(tx, "payout-"@ + task_id + "-"@ + best.provider_id@, now, owner)
    &&& tx.kind matches TransactionKind::Payout { to, token, amount, task_id: k } && {
        &&& to == best.provider_id
        &&& token == TokenKind::AIA
        &&& amount == reward
        &&& k@ == task_id
    }
}

/// The effect of recording the round's winner on its task: the winner
/// becomes the task's winning provider, and a task with no segment yet is
/// queued for rescheduling.
pub open spec fn winner_effect(pre: Ledger, post: Ledger, task_id: Seq<char>, provider: String) -> bool {
    let st = pre.state;
    let t = st.tasks@[task_id];
    if !st.tasks@.contains_key(task_id) {
        post == pre
    } else {
        &&& post.state == (LedgerState { tasks: post.state.tasks, ..st })
        &&& post.state.tasks@ == st.tasks@.insert(
            task_id,
            Task { winning_provider: Some(provider), ..t },
        )
        &&& if t.segments@.len() == 0 {
            &&& post.followups@.len() == pre.followups@.len() + 1
            &&& post.followups@.drop_last() == pre.followups@
            &&& post.followups@.last() matches Followup::Reschedule { task_id: k } && k@ == task_id
        } else {
            post.followups == pre.followups
        }
    }
}

/// Who pays for the certificates of a winning proof: the provider's owner,
/// or the provider id itself when the provider is not registered.
pub open spec fn certificate_payer(st: LedgerState, best: TaskProof) -> String {
    if st.providers@.contains_key(best.provider_id@) {
        st.providers@[best.provider_id@].owner
    } else {
        best.provider_id
    }
}

/// The steps of certifying one task's proofs, through the intermediate
/// ledgers `mid1` (after the chat answers) and `mid2` (after the winner's
/// node share).
pub open spec fn certify_steps(
    pre: Ledger,
    mid1: Ledger,
    chat: Option<Transaction>,
    mid2: Ledger,
    post: Ledger,
    task_id: Seq<char>,
    proofs: Seq<TaskProof>,
    reward: u64,
    now: u64,
    out: Seq<Transaction>,
) -> bool {
    let best = proofs[fastest_proof(proofs)];
    let owner = certificate_payer(pre.state, best);
    let c: int = if chat is Some {
        1
    } else {
        0
    };
    &&& chat_integration_effect(pre, mid1, chat, task_id, proofs, now)
    &&& match best.node_id {
        Some(n) => task_share_effect(mid1, mid2, n@, reward, now),
        None => mid2 == mid1,
    }
    &&& winner_effect(mid2, post, task_id, best.provider_id)
    &&& out.len() == c + 2
    &&& chat matches Some(tx) ==> out[0] == tx
    &&& receipt_tx(out[c], task_id, best, reward, now, owner)
    &&& payout_tx(out[c + 1], task_id, best, reward, now, owner)
}

/// The effect of `certify_task`.
pub open spec fn certify_task_effect(
    pre: Ledger,
    post: Ledger,
    task_id: Seq<char>,
    proofs: Seq<TaskProof>,
    reward: u64,
    now: u64,
    out: Seq<Transaction>,
) -> bool {
    exists|mid1: Ledger, chat: Option<Transaction>, mid2: Ledger|
        #[trigger] certify_steps(pre, mid1, chat, mid2, post, task_id, proofs, reward, now, out)
}

/// The transactions of `outs`, one list after the other.
pub open spec fn concat_all(outs: Seq<Seq<Transaction>>) -> Seq<Transaction>
    decreases outs.len(),
{
    if outs.len() == 0 {
        Seq::empty()
    } else {
        concat_all(outs.drop_last()) + outs.last()
    }
}

/// A consensus round over the pending proofs of `pre`: the pending list is
/// emptied, then each task in the order of its first proof is certified in
/// turn with its reward, giving the ledgers `states` and the transactions
/// `outs`.
pub open spec fn certification_run(
    pre: Ledger,
    rewards: Seq<u64>,
    now: u64,
    states: Seq<Ledger>,
    outs: Seq<Seq<Transaction>>,
) -> bool {
    let pending = pre.state.pending_task_proofs@;
    let order = task_order(pending);
    let k = order.len();
    &&& states.len() == k + 1
    &&& outs.len() == k
    &&& states[0].followups == pre.followups
    &&& states[0].state == (LedgerState {
        pending_task_proofs: states[0].state.pending_task_proofs,
        ..pre.state
    })
    &&& states[0].state.pending_task_proofs@.len() == 0
    &&& forall|j: int|
        #![trigger outs[j]]
        0 <= j < k ==> certify_task_effect(
            states[j],
            states[j + 1],
            order[j],
            proofs_for_task(pending, order[j]),
            rewards[j],
            now,
            outs[j],
        )
}

/// What `collect_task_proof_certificates_at` does: nothing when no proof is
/// pending; otherwise a certification run whose last ledger, with the
/// consensus round advanced by one (wrapping), is the result.
pub open spec fn certification_outcome(
    pre: Ledger,
    post: Ledger,
    rewards: Seq<u64>,
    now: u64,
    out: Seq<Transaction>,
) -> bool {
    if pre.state.pending_task_proofs@.len() == 0 {
        out.len() == 0 && post == pre
    } else {
        exists|states: Seq<Ledger>, outs: Seq<Seq<Transaction>>|
            {
                &&& #[trigger] certification_run(pre, rewards, now, states, outs)
                &&& out == concat_all(outs)
                &&& post.followups == states.last().followups
                &&& post.state == (LedgerState {
                    network_capacity: NetworkCapacity {
                        consensus_round: wrap_add(
                            states.last().state.network_capacity.consensus_round,
                            1,
                        ),
                        ..states.last().state.network_capacity
                    },
                    ..states.last().state
                })
            }
    }
}

/// The price per token a provider charges for a segment: its current price,
/// raised to its base price and to one.
pub open spec fn effective_per_token(p: PricingConfig) -> u64 {
    let a = if p.current_per_token >= p.base_per_token {
        p.current_per_token
    } else {
        p.base_per_token
    };
    if a >= 1 {
        a
    } else {
        1
    }
}

/// A proof comes from the preferred region of its task, letters compared
/// without ASCII case.
pub open spec fn in_preferred_region(st: LedgerState, proof: TaskProof) -> bool {
    st.tasks@.contains_key(proof.task_id@) && match st.tasks@[proof.task_id@].preferred_region {
        Some(r) => upper(r@) == upper(proof.region@),
        None => false,
    }
}

/// The effect of `produce_block_at`: the round's certificates are
/// collected (ledger `mid1`), the block rewards distributed (ledger `mid2`),
/// and the mempool's transactions, then the certificates, then the reward
/// payouts are committed as one block stamped `now`.
pub open spec fn block_production_effect(
    pre: Ledger,
    post: Ledger,
    mempool: Seq<Transaction>,
    rewards: Seq<u64>,
    now: u64,
    r: Result<Block, LedgerError>,
) -> bool {
    exists|mid1: Ledger, certs: Seq<Transaction>, mid2: Ledger, payouts: Vec<Transaction>|
        #[trigger] production_steps(pre, mid1, certs, mid2, payouts, post, mempool, rewards, now, r)
}

/// The three steps of producing a block, through the ledgers `mid1` and `mid2`.
pub open spec fn production_steps(
    pre: Ledger,
    mid1: Ledger,
    certs: Seq<Transaction>,
    mid2: Ledger,
    payouts: Vec<Transaction>,
    post: Ledger,
    mempool: Seq<Transaction>,
    rewards: Seq<u64>,
    now: u64,
    r: Result<Block, LedgerError>,
) -> bool {
    &&& certification_outcome(pre, mid1, rewards, now, certs)
    &&& block_rewards_effect(mid1, mid2, Ok(payouts), now)
    &&& commit_effect(mid2, post, mempool + certs + payouts@, now, r)
}

/// Whether the text of `s` occurs among the strings of `v`.
pub fn contains_text(v: &Vec<String>, s: &str) -> (b: bool)
    ensures
        b == texts(v@).contains(s@),
{
    let n = v.len();
    let mut i: usize = 0;
    while i < n
        invariant
            n == v@.len(),
            i <= n,
            forall|j: int| 0 <= j < i ==> texts(v@)[j] != s@,
        decreases n - i,
    {
        if crate::table::str_eq(v[i].as_str(), s) {
            proof {
                assert(texts(v@)[i as int] == s@);
            }
            return true;
        }
        i = i + 1;
    }
    false
}

/// The segment of each chat response, as strings.
fn response_segment_ids(responses: &Vec<ChatResponse>) -> (ids: Vec<String>)
    ensures
        texts(ids@) == response_segments(responses@),
{
    let n = responses.len();
    let mut ids: Vec<String> = Vec::new();
    let mut i: usize = 0;
    while i < n
        invariant
            n == responses@.len(),
            i <= n,
            ids@.len() == i,
            forall|j: int| 0 <= j < i ==> #[trigger] texts(ids@)[j] == responses@[j].segment_id@,
        decreases n - i,
    {
        let ghost prev = ids@;
        let id = responses[i].segment_id.clone();
        ids.push(id);
        proof {
            assert forall|j: int| 0 <= j < i + 1 implies #[trigger] texts(ids@)[j]
                == responses@[j].segment_id@ by {
                if j < i {
                    assert(ids@[j] == prev[j]);
                    assert(texts(prev)[j] == prev[j]@);
                } else {
                    assert(ids@[j] == id);
                }
                assert(texts(ids@)[j] == ids@[j]@);
            }
        }
        i = i + 1;
    }
    proof {
        assert(texts(ids@) =~= response_segments(responses@));
    }
    ids
}

/// The tasks named by `pending`, in the order of their first proof.
pub fn task_order_of(pending: &Vec<TaskProof>) -> (order: Vec<String>)
    ensures
        texts(order@) == task_order(pending@),
{
    let n = pending.len();
    let mut order: Vec<String> = Vec::new();
    let mut i: usize = 0;
    proof {
        assert(texts(order@) =~= task_order(pending@.subrange(0, 0)));
    }
    while i < n
        invariant
            n == pending@.len(),
            i <= n,
            texts(order@) == task_order(pending@.subrange(0, i as int)),
        decreases n - i,
    {
        let ghost s = pending@.subrange(0, i + 1);
        proof {
            assert(s.drop_last() =~= pending@.subrange(0, i as int));
            assert(s.last() == pending@[i as int]);
        }
        let t = &pending[i].task_id;
        if !contains_text(&order, t.as_str()) {
            let ghost prev = order@;
            order.push(t.clone());
            proof {
                assert(texts(order@) =~= texts(prev).push(t@));
            }
        }
        i = i + 1;
    }
    proof {
        assert(pending@.subrange(0, n as int) =~= pending@);
    }
    order
}

/// The proofs of `pending` for task `t`, in order.
pub fn proofs_of_task(pending: &Vec<TaskProof>, t: &str) -> (v: Vec<TaskProof>)
    ensures
        v@ == proofs_for_task(pending@, t@),
{
    let n = pending.len();
    let mut v: Vec<TaskProof> = Vec::new();
    let mut i: usize = 0;
    proof {
        assert(v@ =~= proofs_for_task(pending@.subrange(0, 0), t@));
    }
    while i < n
        invariant
            n == pending@.len(),
            i <= n,
            v@ == proofs_for_task(pending@.subrange(0, i as int), t@),
        decreases n - i,
    {
        let ghost s = pending@.subrange(0, i + 1);
        proof {
            assert(s.drop_last() =~= pending@.subrange(0, i as int));
            assert(s.last() == pending@[i as int]);
        }
        if crate::table::str_eq(pending[i].task_id.as_str(), t) {
            v.push(pending[i].clone());
        }
        i = i + 1;
    }
    proof {
        assert(pending@.subrange(0, n as int) =~= pending@);
    }
    v
}

/// The position of the first proof with the lowest latency.
pub fn fastest_index(proofs: &Vec<TaskProof>) -> (b: usize)
    requires
        proofs@.len() > 0,
    ensures
        b == fastest_proof(proofs@),
        b < proofs@.len(),
        forall|i: int| 0 <= i < proofs@.len() ==> proofs@[b as int].latency_ms <= (#[trigger] proofs@[i]).latency_ms,
        forall|i: int| 0 <= i < b ==> (#[trigger] proofs@[i]).latency_ms > proofs@[b as int].latency_ms,
{
    let n = proofs.len();
    let mut best: usize = 0;
    let mut i: usize = 1;
    proof {
        assert(proofs@.subrange(0, 1).len() == 1);
    }
    while i < n
        invariant
            n == proofs@.len(),
            1 <= i <= n,
            best == fastest_proof(proofs@.subrange(0, i as int)),
            best < i,
        decreases n - i,
    {
        let ghost p = proofs@.subrange(0, i + 1);
        proof {
            assert(p.drop_last() =~= proofs@.subrange(0, i as int));
            assert(p[best as int] == proofs@[best as int]);
        }
        if proofs[i].latency_ms < proofs[best].latency_ms {
            best = i;
        }
        i = i + 1;
    }
    proof {
        assert(proofs@.subrange(0, n as int) =~= proofs@);
        crate::laws::lemma_fastest_proof_is_first_minimum(proofs@);
    }
    best
}

/// Whether `a` and `b` are equal when ASCII letters are compared without case.
pub fn eq_ignore_ascii_case(a: &str, b: &str) -> (r: bool)
    ensures
        r == (upper(a@) == upper(b@)),
{
    let ua = upper_string(a);
    let ub = upper_string(b);
    crate::table::str_eq(ua.as_str(), ub.as_str())
}

/// Every task in the order has at least one proof.
proof fn lemma_order_has_proofs(s: Seq<TaskProof>, t: Seq<char>)
    requires
        task_order(s).contains(t),
    ensures
        proofs_for_task(s, t).len() > 0,
    decreases s.len(),
{
    if s.len() > 0 {
        let o = task_order(s.drop_last());
        if o.contains(t) {
            lemma_order_has_proofs(s.drop_last(), t);
        } else {
            assert(task_order(s) == o.push(s.last().task_id@));
            let j = choose|j: int| 0 <= j < task_order(s).len() && task_order(s)[j] == t;
            if j < o.len() {
                assert(o[j] == t);
            }
        }
    }
}

proof fn lemma_fresh_step(seen: Seq<Seq<char>>, s: Seq<TaskProof>, i: int)
    requires
        0 <= i < s.len(),
    ensures
        fresh_chat_proofs(seen, s.subrange(0, i + 1)) == ({
            let f = fresh_chat_proofs(seen, s.subrange(0, i));
            let p = s[i];
            if chat_text_ok(p) && !seen.contains(p.segment_id@) && !proof_segments(f).contains(
                p.segment_id@,
            ) {
                f.push(p)
            } else {
                f
            }
        }),
{
    let t = s.subrange(0, i + 1);
    assert(t.drop_last() =~= s.subrange(0, i));
    assert(t.last() == s[i]);
}

impl Ledger {
    /// Credits a compute node with one task share: one more granted slot and
    /// completed segment, the reward added to its total (all saturating),
    /// `now` as its last reward time, and one more task slot network-wide;
    /// the new average load and the node's weight are queued for the host.
    /// A missing node or one of another role is left alone.
    pub fn apply_task_share_for_node(&mut self, node_id: &str, reward: u64, now: u64)
        requires
            old(self).wf(),
        ensures
            final(self).wf(),
            task_share_effect(*old(self), *final(self), node_id@, reward, now),
    {
        let ni = match self.state.nodes.position(node_id) {
            Some(i) => i,
            None => {
                return;
            },
        };
        proof {
            self.state.nodes.lemma_view_at(ni as int);
        }
        if self.state.nodes.value_at(ni).role != NodeRole::Compute {
            return;
        }
        let mut node = self.state.nodes.replace_at(ni, blank_node());
        node.task_slots_granted = node.task_slots_granted.saturating_add(1);
        node.task_segments_completed = node.task_segments_completed.saturating_add(1);
        node.total_rewards = node.total_rewards.saturating_add(reward);
        node.last_reward_at = now;
        let ghost nv = node;
        self.state.nodes.set_at(ni, node);
        proof {
            assert(self.state.nodes@ =~= old(self).state.nodes@.insert(node_id@, nv));
        }
        let slots = self.state.network_capacity.total_task_slots;
        if slots < u128::MAX {
            self.state.network_capacity.total_task_slots = slots + 1;
        }
        let ghost before = self.followups@;
        self.followups.push(Followup::RefreshAverageTasks);
        self.followups.push(Followup::RefreshNodeWeight { node_id: String::from_str(node_id) });
        proof {
            assert(self.followups@.subrange(0, before.len() + 1int) =~= before.push(
                Followup::RefreshAverageTasks,
            ));
        }
    }

    /// The reward of a proof's segment before its provider's stake boost:
    /// the per-token price times the tokens processed, saturating; `None`
    /// for an unknown provider.
    pub fn segment_reward_base(&self, proof: &TaskProof) -> (r: Option<u64>)
        requires
            self.wf(),
        ensures
            r == (if self.state.providers@.contains_key(proof.provider_id@) {
                Some(
                    sat_mul(
                        effective_per_token(self.state.providers@[proof.provider_id@].pricing),
                        proof.tokens_processed,
                    ),
                )
            } else {
                None::<u64>
            }),
    {
        match self.state.providers.get(proof.provider_id.as_str()) {
            Some(p) => {
                let mut per_token = p.pricing.current_per_token;
                if per_token < p.pricing.base_per_token {
                    per_token = p.pricing.base_per_token;
                }
                if per_token < 1 {
                    per_token = 1;
                }
                Some(saturating_mul_u64(per_token, proof.tokens_processed))
            },
            None => None,
        }
    }

    /// Whether a proof was produced in its task's preferred region, letters
    /// compared without ASCII case.
    pub fn prefers_region(&self, proof: &TaskProof) -> (b: bool)
        requires
            self.wf(),
        ensures
            b == in_preferred_region(self.state, *proof),
    {
        match self.state.tasks.get(proof.task_id.as_str()) {
            Some(t) => match &t.preferred_region {
                Some(r) => eq_ignore_ascii_case(r.as_str(), proof.region.as_str()),
                None => false,
            },
            None => false,
        }
    }

    /// The winning proof of each task with pending proofs, in the order of
    /// each task's first pending proof: its first proof of lowest latency.
    pub fn task_proof_winners(&self) -> (w: Vec<TaskProof>)
        ensures
            w@.len() == task_order(self.state.pending_task_proofs@).len(),
            forall|j: int|
                #![trigger w@[j]]
                0 <= j < w@.len() ==> w@[j] == round_winner(
                    self.state.pending_task_proofs@,
                    task_order(self.state.pending_task_proofs@)[j],
                ),
    {
        let pending = &self.state.pending_task_proofs;
        let order = task_order_of(pending);
        let k = order.len();
        let mut w: Vec<TaskProof> = Vec::new();
        let mut j: usize = 0;
        while j < k
            invariant
                k == order@.len(),
                texts(order@) == task_order(pending@),
                j <= k,
                w@.len() == j,
                forall|i: int|
                    #![trigger w@[i]]
                    0 <= i < j ==> w@[i] == round_winner(pending@, task_order(pending@)[i]),
            decreases k - j,
        {
            let proofs = proofs_of_task(pending, order[j].as_str());
            proof {
                assert(texts(order@)[j as int] == order@[j as int]@);
                assert(task_order(pending@)[j as int] == order@[j as int]@);
                lemma_order_has_proofs(pending@, order@[j as int]@);
            }
            let b = fastest_index(&proofs);
            w.push(proofs[b].clone());
            j = j + 1;
        }
        w
    }

    /// Closes a task-proof consensus round at time `now`, with `rewards[j]`
    /// the reward of the `j`-th task's winning proof (see
    /// `task_proof_winners`): the pending proofs are taken, each task is
    /// certified in the order of its first proof, the consensus round
    /// advances, and the certificates are returned in that order. With no
    /// pending proof nothing changes.
    pub fn collect_task_proof_certificates_at(&mut self, rewards: &Vec<u64>, now: u64) -> (out: Vec<
        Transaction,
    >)
        requires
            old(self).wf(),
            rewards@.len() == task_order(old(self).state.pending_task_proofs@).len(),
        ensures
            final(self).wf(),
            certification_outcome(*old(self), *final(self), rewards@, now, out@),
    {
        if self.state.pending_task_proofs.len() == 0 {
            return Vec::new();
        }
        let mut pending: Vec<TaskProof> = Vec::new();
        std::mem::swap(&mut pending, &mut self.state.pending_task_proofs);
        let order = task_order_of(&pending);
        let k = order.len();
        let mut out: Vec<Transaction> = Vec::new();
        let ghost mut states: Seq<Ledger> = seq![*self];
        let ghost mut outs: Seq<Seq<Transaction>> = Seq::empty();
        proof {
            assert(self.state.pending_task_proofs@ =~= Seq::<TaskProof>::empty());
            assert(concat_all(outs) =~= out@);
        }
        let mut j: usize = 0;
        while j < k
            invariant
                pending@ == old(self).state.pending_task_proofs@,
                k == order@.len(),
                texts(order@) == task_order(pending@),
                rewards@.len() == k,
                j <= k,
                self.wf(),
                states.len() == j + 1,
                outs.len() == j,
                states[0].followups == old(self).followups,
                states[0].state == (LedgerState {
                    pending_task_proofs: states[0].state.pending_task_proofs,
                    ..old(self).state
                }),
                states[0].state.pending_task_proofs@.len() == 0,
                states.last() == *self,
                out@ == concat_all(outs),
                forall|i: int|
                    #![trigger outs[i]]
                    0 <= i < j ==> certify_task_effect(
                        states[i],
                        states[i + 1],
                        task_order(pending@)[i],
                        proofs_for_task(pending@, task_order(pending@)[i]),
                        rewards@[i],
                        now,
                        outs[i],
                    ),
            decreases k - j,
        {
            let proofs = proofs_of_task(&pending, order[j].as_str());
            proof {
                assert(texts(order@)[j as int] == order@[j as int]@);
                assert(task_order(pending@)[j as int] == order@[j as int]@);
                lemma_order_has_proofs(pending@, order@[j as int]@);
            }
            let ghost before = *self;
            let mut group = self.certify_task(&order[j], &proofs, rewards[j], now);
            let ghost group_out = group@;
            out.append(&mut group);
            proof {
                let old_states = states;
                let old_outs = outs;
                states = states.push(*self);
                outs = outs.push(group_out);
                assert(outs.drop_last() =~= old_outs);
                assert forall|i: int|
                    #![trigger outs[i]]
                    0 <= i < j + 1 implies certify_task_effect(
                        states[i],
                        states[i + 1],
                        task_order(pending@)[i],
                        proofs_for_task(pending@, task_order(pending@)[i]),
                        rewards@[i],
                        now,
                        outs[i],
                    ) by {
                    if i < j {
                        assert(outs[i] == old_outs[i]);
                        assert(states[i] == old_states[i]);
                        assert(states[i + 1] == old_states[i + 1]);
                    } else {
                        assert(states[i] == before);
                        assert(states[i + 1] == *self);
                        assert(outs[i] == group_out);
                    }
                }
            }
            j = j + 1;
        }
        proof {
            assert(certification_run(*old(self), rewards@, now, states, outs));
        }
        let round = self.state.network_capacity.consensus_round;
        self.state.network_capacity.consensus_round = wrapping_add_u64(round, 1);
        out
    }

    /// Closes a task-proof consensus round stamped with the clock; see
    /// `collect_task_proof_certificates_at`.
    pub fn collect_task_proof_certificates(&mut self, rewards: &Vec<u64>) -> (out: Vec<Transaction>)
        requires
            old(self).wf(),
            rewards@.len() == task_order(old(self).state.pending_task_proofs@).len(),
        ensures
            final(self).wf(),
            exists|now: u64| certification_outcome(*old(self), *final(self), rewards@, now, out@),
    {
        let now = current_timestamp();
        self.collect_task_proof_certificates_at(rewards, now)
    }

    /// Produces the next block at time `now`: collects the round's
    /// task-proof certificates (with `rewards` as for
    /// `collect_task_proof_certificates_at`), distributes the block rewards,
    /// and commits the mempool's transactions followed by the certificates
    /// and the reward payouts.
    pub fn produce_block_at(&mut self, mempool: Vec<Transaction>, rewards: &Vec<u64>, now: u64) -> (r:
        Result<Block, LedgerError>)
        requires
            old(self).wf(),
            rewards@.len() == task_order(old(self).state.pending_task_proofs@).len(),
        ensures
            final(self).wf(),
            block_production_effect(*old(self), *final(self), mempool@, rewards@, now, r),
    {
        let mut transactions = mempool;
        let ghost pool = transactions@;
        let mut certs = self.collect_task_proof_certificates_at(rewards, now);
        let ghost mid1 = *self;
        let ghost certs_g = certs@;
        transactions.append(&mut certs);
        let paid = self.distribute_block_rewards_at(now);
        let ghost mid2 = *self;
        let mut payouts = match paid {
            Ok(v) => v,
            Err(e) => {
                proof {
                    assert(false);
                }
                return Err(e);
            },
        };
        let ghost payouts_g = payouts;
        transactions.append(&mut payouts);
        proof {
            assert(transactions@ == pool + certs_g + payouts_g@);
        }
        let r = self.commit_block_at(transactions, now);
        proof {
            assert(production_steps(
                *old(self),
                mid1,
                certs_g,
                mid2,
                payouts_g,
                *self,
                pool,
                rewards@,
                now,
                r,
            ));
        }
        r
    }

    /// Certifies one task's proofs with the reward of its winning proof:
    /// gathers their chat answers, credits the winner's node, records the
    /// winner on the task, and returns the chat result (if any), the
    /// segment receipt and the payout, paid by the winner's provider owner.
    pub fn certify_task(
        &mut self,
        task_id: &String,
        proofs: &Vec<TaskProof>,
        reward: u64,
        now: u64,
    ) -> (out: Vec<Transaction>)
        requires
            old(self).wf(),
            proofs@.len() > 0,
        ensures
            final(self).wf(),
            certify_task_effect(*old(self), *final(self), task_id@, proofs@, reward, now, out@),
    {
        let mut out: Vec<Transaction> = Vec::new();
        let chat = self.integrate_chat_results(task_id, proofs, now);
        let ghost mid1 = *self;
        let ghost chat_g = chat;
        match chat {
            Some(tx) => {
                out.push(tx);
            },
            None => {},
        }
        let b = fastest_index(proofs);
        let best = &proofs[b];
        match &best.node_id {
            Some(n) => {
                self.apply_task_share_for_node(n.as_str(), reward, now);
            },
            None => {},
        }
        let ghost mid2 = *self;
        let owner = match self.state.providers.get(best.provider_id.as_str()) {
            Some(p) => p.owner.clone(),
            None => best.provider_id.clone(),
        };
        let mut receipt_id = String::from_str("segment-");
        receipt_id.append(task_id.as_str());
        receipt_id.append("-");
        receipt_id.append(best.segment_id.as_str());
        let receipt_kind = TransactionKind::SegmentReceipt {
            task_id: task_id.clone(),
            segment_id: best.segment_id.clone(),
            provider_id: best.provider_id.clone(),
            tokens: best.tokens_processed,
            latency_ms: best.latency_ms,
            reward,
        };
        let receipt = build_transaction(
            receipt_id,
            now,
            receipt_kind,
            Some(owner.clone()),
            MIN_GAS_PRICE,
            None,
        );
        out.push(receipt);
        let mut payout_id = String::from_str("payout-");
        payout_id.append(task_id.as_str());
        payout_id.append("-");
        payout_id.append(best.provider_id.as_str());
        let payout_kind = TransactionKind::Payout {
            to: best.provider_id.clone(),
            token: TokenKind::AIA,
            amount: reward,
            task_id: task_id.clone(),
        };
        let payout = build_transaction(payout_id, now, payout_kind, Some(owner), MIN_GAS_PRICE, None);
        out.push(payout);
        match self.state.tasks.position(task_id.as_str()) {
            Some(ti) => {
                proof {
                    self.state.tasks.lemma_view_at(ti as int);
                }
                let mut task = self.state.tasks.replace_at(ti, blank_task());
                task.winning_provider = Some(best.provider_id.clone());
                let unscheduled = task.segments.len() == 0;
                let ghost tv = task;
                self.state.tasks.set_at(ti, task);
                proof {
                    assert(self.state.tasks@ =~= mid2.state.tasks@.insert(task_id@, tv));
                }
                if unscheduled {
                    self.followups.push(Followup::Reschedule { task_id: task_id.clone() });
                    proof {
                        assert(self.followups@.drop_last() =~= mid2.followups@);
                    }
                }
            },
            None => {},
        }
        proof {
            assert(mid2.state.providers == old(self).state.providers);
            assert(certify_steps(
                *old(self),
                mid1,
                chat_g,
                mid2,
                *self,
                task_id@,
                proofs@,
                reward,
                now,
                out@,
            ));
        }
        out
    }

    /// Gathers the chat answers carried by `proofs` into a chat task: each new
    /// segment with a non-blank answer becomes a response stamped `now`, the
    /// summary is rebuilt, the task completes, and a chat-result transaction
    /// paid by the task's owner is returned. Nothing changes, and nothing is
    /// returned, for a missing task, a batch task or no new answer.
    pub fn integrate_chat_results(&mut self, task_id: &String, proofs: &Vec<TaskProof>, now: u64) -> (r:
        Option<Transaction>)
        requires
            old(self).wf(),
        ensures
            final(self).wf(),
            chat_integration_effect(*old(self), *final(self), r, task_id@, proofs@, now),
    {
        let ti = match self.state.tasks.position(task_id.as_str()) {
            Some(i) => i,
            None => {
                return None;
            },
        };
        proof {
            self.state.tasks.lemma_view_at(ti as int);
        }
        let ghost t = self.state.tasks@[task_id@];
        if self.state.tasks.value_at(ti).mode != TaskMode::Chat {
            return None;
        }
        let mut seen = response_segment_ids(&self.state.tasks.value_at(ti).chat_responses);
        let ghost seen0 = texts(seen@);
        let mut entries: Vec<ChatResponse> = Vec::new();
        let n = proofs.len();
        let mut i: usize = 0;
        while i < n
            invariant
                n == proofs@.len(),
                i <= n,
                seen0 == response_segments(t.chat_responses@),
                texts(seen@) == seen0 + proof_segments(
                    fresh_chat_proofs(seen0, proofs@.subrange(0, i as int)),
                ),
                entries@.len() == fresh_chat_proofs(seen0, proofs@.subrange(0, i as int)).len(),
                forall|j: int|
                    0 <= j < entries@.len() ==> chat_entry_of(
                        #[trigger] fresh_chat_proofs(seen0, proofs@.subrange(0, i as int))[j],
                        now,
                        entries@[j],
                    ),
            decreases n - i,
        {
            proof {
                lemma_fresh_step(seen0, proofs@, i as int);
            }
            let ghost f = fresh_chat_proofs(seen0, proofs@.subrange(0, i as int));
            let p = &proofs[i];
            let accepted = match &p.chat_response {
                Some(text) => !is_blank(text.as_str()) && !contains_text(&seen, p.segment_id.as_str()),
                None => false,
            };
            proof {
                assert(texts(seen@).contains(p.segment_id@) <==> (seen0.contains(p.segment_id@)
                    || proof_segments(f).contains(p.segment_id@))) by {
                    if texts(seen@).contains(p.segment_id@) {
                        let j = choose|j: int| 0 <= j < texts(seen@).len() && texts(seen@)[j] == p.segment_id@;
                        if j < seen0.len() {
                            assert(seen0[j] == p.segment_id@);
                        } else {
                            assert(proof_segments(f)[j - seen0.len()] == p.segment_id@);
                        }
                    }
                    if seen0.contains(p.segment_id@) {
                        let j = choose|j: int| 0 <= j < seen0.len() && seen0[j] == p.segment_id@;
                        assert(texts(seen@)[j] == p.segment_id@);
                    }
                    if proof_segments(f).contains(p.segment_id@) {
                        let j = choose|j: int| 0 <= j < proof_segments(f).len() && proof_segments(f)[j] == p.segment_id@;
                        assert(texts(seen@)[seen0.len() + j] == p.segment_id@);
                    }
                }
            }
            if accepted {
                let text = match &p.chat_response {
                    Some(text) => text,
                    None => {
                        proof {
                            assert(false);
                        }
                        return None;
                    },
                };
                let ghost prev_seen = seen@;
                let ghost prev_entries = entries@;
                let segment = p.segment_id.clone();
                seen.push(segment);
                let entry = ChatResponse {
                    provider_id: p.provider_id.clone(),
                    node_id: p.node_id.clone(),
                    segment_id: p.segment_id.clone(),
                    latency_ms: p.latency_ms,
                    tokens: p.tokens_processed,
                    response_fragment: trimmed(text.as_str()),
                    submitted_at: now,
                };
                entries.push(entry);
                proof {
                    let f2 = f.push(*p);
                    assert(proof_segments(f2) =~= proof_segments(f).push(p.segment_id@));
                    assert(texts(seen@) =~= texts(prev_seen).push(p.segment_id@));
                    assert(texts(seen@) =~= seen0 + proof_segments(f2));
                    assert forall|j: int| 0 <= j < entries@.len() implies chat_entry_of(
                        #[trigger] f2[j],
                        now,
                        entries@[j],
                    ) by {
                        if j < prev_entries.len() {
                            assert(f2[j] == f[j]);
                            assert(entries@[j] == prev_entries[j]);
                        }
                    }
                }
            }
            i = i + 1;
        }
        proof {
            assert(proofs@.subrange(0, n as int) =~= proofs@);
        }
        let ghost fresh = fresh_chat_proofs(seen0, proofs@);
        if entries.len() == 0 {
            return None;
        }
        let mut task = self.state.tasks.replace_at(ti, blank_task());
        let ghost base = task.chat_responses@;
        let ghost t0 = task;
        let m = entries.len();
        let mut k: usize = 0;
        while k < m
            invariant
                m == entries@.len(),
                k <= m,
                task.chat_responses@ == base + entries@.subrange(0, k as int),
                task == (Task { chat_responses: task.chat_responses, ..t0 }),
            decreases m - k,
        {
            task.chat_responses.push(entries[k].clone());
            proof {
                assert(task.chat_responses@ =~= base + entries@.subrange(0, k + 1));
            }
            k = k + 1;
        }
        proof {
            assert(entries@.subrange(0, m as int) =~= entries@);
            assert(task.chat_responses@.subrange(0, base.len() as int) =~= base);
        }
        let aggregate = aggregate_chat_responses(&task.chat_responses);
        task.chat_aggregate = Some(aggregate.clone());
        task.completed = true;
        let ids = response_providers(&task.chat_responses);
        let contributors = sorted_distinct(&ids);
        let owner = task.owner.clone();
        let ghost t2 = task;
        self.state.tasks.set_at(ti, task);
        proof {
            assert(self.state.tasks@ =~= old(self).state.tasks@.insert(task_id@, t2));
        }
        let mut id = String::from_str("chat-result-");
        id.append(task_id.as_str());
        id.append("-");
        write_decimal(&mut id, now);
        let kind = TransactionKind::ChatResult { task_id: task_id.clone(), aggregate, contributors };
        let tx = build_transaction(id, now, kind, Some(owner), MIN_GAS_PRICE, None);
        proof {
            let all = t2.chat_responses@;
            let nb = base.len();
            assert(base == t.chat_responses@);
            assert(fresh.len() == entries@.len());
            assert forall|j: int| 0 <= j < fresh.len() implies chat_entry_of(#[trigger] fresh[j], now, all[nb + j]) by {
                assert(all[nb + j] == entries@[j]);
            }
            assert(t2 == (Task {
                chat_responses: t2.chat_responses,
                chat_aggregate: t2.chat_aggregate,
                completed: true,
                ..t
            }));
            assert(chat_result_tx(tx, task_id@, t2, now, t.owner));
        }
        Some(tx)
    }
}

} // verus!
