//! Task records: segment receipts, chat results and task-proof commitments.
use crate::arith::{bps_of, sat_add, sat_sub, basis_points};
use crate::ledger::{ErrorCode, Followup, Ledger, LedgerError, fails_with};
use crate::text::{decimal, write_decimal};
use crate::types::{
    LedgerState, ModelProfile, Node, NodeHardware, NodeMetrics, NodeRole, PricingConfig, Provider, Task,
    TaskMode, TaskProof, TaskSegment, TreasuryView,
};
use vstd::prelude::*;

verus! {

/// The position of the first segment with the lowest latency (`s` non-empty).
pub open spec fn fastest_segment(s: Seq<TaskSegment>) -> int
    decreases s.len(),
{
    if s.len() <= 1 {
        0
    } else {
        let b = fastest_segment(s.drop_last());
        if s.last().latency_ms < s[b].latency_ms {
            s.len() - 1
        } else {
            b
        }
    }
}

/// The reward a receipt records and the treasury fee taken from it: the
/// provider's low-tier discount comes off first, then the treasury fee.
pub open spec fn receipt_reward(reward: u64, discount_bps: u64, fee_bps: u64) -> (u64, u64) {
    let discounted = if discount_bps > 0 && reward * discount_bps / 10_000 > 0 {
        sat_sub(reward, bps_of(reward, discount_bps))
    } else {
        reward
    };
    let fee = bps_of(discounted, fee_bps);
    (sat_sub(discounted, fee), fee)
}

/// Every field of `p` is empty or zero.
pub open spec fn is_blank_profile(p: ModelProfile) -> bool {
    &&& p.model_id@ == Seq::<char>::empty()
    &&& p.quant@ == Seq::<char>::empty()
    &&& p.max_ctx == 0
    &&& p.vram_req_gb == 0
    &&& p.throughput_tok_s == 0
}

/// Every field of `t` is empty, zero, false or absent, and its mode is batch.
pub open spec fn is_blank_task(t: Task) -> bool {
    &&& t.id@ == Seq::<char>::empty()
    &&& t.owner@ == Seq::<char>::empty()
    &&& t.content_hash@ == Seq::<char>::empty()
    &&& t.total_tokens == 0
    &&& is_blank_profile(t.target_profile)
    &&& t.requested_providers@.len() == 0
    &&& t.segments@.len() == 0
    &&& t.created_at == 0
    &&& !t.completed
    &&& t.winning_provider is None
    &&& t.preferred_region is None
    &&& t.scheduled@.len() == 0
    &&& t.mode == TaskMode::Batch
    &&& t.chat_prompt is None
    &&& t.chat_responses@.len() == 0
    &&& t.chat_aggregate is None
    &&& t.assignment_node_id is None
    &&& t.scheduler_node_id is None
}

/// Every field of `p` is empty, zero, false or absent.
pub open spec fn is_blank_provider(p: Provider) -> bool {
    &&& p.id@ == Seq::<char>::empty()
    &&& p.owner@ == Seq::<char>::empty()
    &&& p.endpoint@ == Seq::<char>::empty()
    &&& p.region@ == Seq::<char>::empty()
    &&& p.gpu_model@ == Seq::<char>::empty()
    &&& p.vram_gb == 0
    &&& p.bandwidth_gbps == 0
    &&& !p.cuda
    &&& !p.rocm
    &&& p.reputation == 0
    &&& p.stake_boost == 0
    &&& p.low_tier_discount_bps == 0
    &&& p.pricing == (PricingConfig {
        base_per_token: 0,
        min_per_token: 0,
        max_per_token: 0,
        current_per_token: 0,
    })
    &&& p.availability@.len() == 0
    &&& p.model_profiles@.len() == 0
    &&& p.last_heartbeat is None
    &&& p.throughput_score == 0
}

/// Every field of `h` is empty or zero.
pub open spec fn is_blank_hardware(h: NodeHardware) -> bool {
    &&& h.cpu_model@ == Seq::<char>::empty()
    &&& h.cpu_cores == 0
    &&& h.cpu_threads == 0
    &&& h.memory_total_mb == 0
    &&& h.gpu_vendor@ == Seq::<char>::empty()
    &&& h.gpu_model@ == Seq::<char>::empty()
    &&& h.gpu_vram_mb == 0
    &&& h.os@ == Seq::<char>::empty()
}

/// Every reading of `m` is zero.
pub open spec fn is_blank_metrics(m: NodeMetrics) -> bool {
    m == (NodeMetrics {
        timestamp: 0,
        cpu_usage_pct: 0,
        memory_usage_pct: 0,
        gpu_usage_pct: 0,
        machine_load_one: 0,
        machine_load_five: 0,
        machine_load_fifteen: 0,
        disk_usage_pct: 0,
        disk_read_mbps: 0,
        disk_write_mbps: 0,
        network_rx_mbps: 0,
        network_tx_mbps: 0,
        gpu_memory_used_mb: 0,
        gpu_memory_total_mb: 0,
    })
}

/// Every field of `n` is empty, zero or false, and its role is compute.
pub open spec fn is_blank_node(n: Node) -> bool {
    &&& n.id@ == Seq::<char>::empty()
    &&& n.owner@ == Seq::<char>::empty()
    &&& n.region@ == Seq::<char>::empty()
    &&& is_blank_profile(n.llm_profile)
    &&& !n.online
    &&& n.reputation == 0
    &&& n.registered_at == 0
    &&& n.fingerprint@ == Seq::<char>::empty()
    &&& is_blank_hardware(n.hardware)
    &&& is_blank_metrics(n.metrics)
    &&& n.task_slots_granted == 0
    &&& n.task_segments_completed == 0
    &&& n.decentralization_weight == 0
    &&& n.role == NodeRole::Compute
    &&& n.scheduler_jobs_executed == 0
    &&& n.assignment_jobs_generated == 0
    &&& n.total_rewards == 0
    &&& n.last_reward_at == 0
}

/// A task whose fields are all empty.
pub fn blank_task() -> (t: Task)
    ensures
        is_blank_task(t),
{
    Task {
        id: String::new(),
        owner: String::new(),
        content_hash: String::new(),
        total_tokens: 0,
        target_profile: blank_profile(),
        requested_providers: Vec::new(),
        segments: Vec::new(),
        created_at: 0,
        completed: false,
        winning_provider: None,
        preferred_region: None,
        scheduled: Vec::new(),
        mode: TaskMode::Batch,
        chat_prompt: None,
        chat_responses: Vec::new(),
        chat_aggregate: None,
        assignment_node_id: None,
        scheduler_node_id: None,
    }
}

/// A model profile whose fields are all empty.
pub fn blank_profile() -> (p: ModelProfile)
    ensures
        is_blank_profile(p),
{
    ModelProfile {
        model_id: String::new(),
        quant: String::new(),
        max_ctx: 0,
        vram_req_gb: 0,
        throughput_tok_s: 0,
    }
}

/// A provider whose fields are all empty.
pub fn blank_provider() -> (p: Provider)
    ensures
        is_blank_provider(p),
{
    Provider {
        id: String::new(),
        owner: String::new(),
        endpoint: String::new(),
        region: String::new(),
        gpu_model: String::new(),
        vram_gb: 0,
        bandwidth_gbps: 0,
        cuda: false,
        rocm: false,
        reputation: 0,
        stake_boost: 0,
        low_tier_discount_bps: 0,
        pricing: PricingConfig {
            base_per_token: 0,
            min_per_token: 0,
            max_per_token: 0,
            current_per_token: 0,
        },
        availability: Vec::new(),
        model_profiles: Vec::new(),
        last_heartbeat: None,
        throughput_score: 0,
    }
}

/// Hardware whose fields are all empty.
pub fn blank_hardware() -> (h: NodeHardware)
    ensures
        is_blank_hardware(h),
{
    NodeHardware {
        cpu_model: String::new(),
        cpu_cores: 0,
        cpu_threads: 0,
        memory_total_mb: 0,
        gpu_vendor: String::new(),
        gpu_model: String::new(),
        gpu_vram_mb: 0,
        os: String::new(),
    }
}

/// Metrics whose fields are all zero.
pub fn blank_metrics() -> (m: NodeMetrics)
    ensures
        is_blank_metrics(m),
{
    NodeMetrics {
        timestamp: 0,
        cpu_usage_pct: 0,
        memory_usage_pct: 0,
        gpu_usage_pct: 0,
        machine_load_one: 0,
        machine_load_five: 0,
        machine_load_fifteen: 0,
        disk_usage_pct: 0,
        disk_read_mbps: 0,
        disk_write_mbps: 0,
        network_rx_mbps: 0,
        network_tx_mbps: 0,
        gpu_memory_used_mb: 0,
        gpu_memory_total_mb: 0,
    }
}

/// A node whose fields are all empty.
pub fn blank_node() -> (n: Node)
    ensures
        is_blank_node(n),
{
    Node {
        id: String::new(),
        owner: String::new(),
        region: String::new(),
        llm_profile: blank_profile(),
        online: false,
        reputation: 0,
        registered_at: 0,
        fingerprint: String::new(),
        hardware: blank_hardware(),
        metrics: blank_metrics(),
        task_slots_granted: 0,
        task_segments_completed: 0,
        decentralization_weight: 0,
        role: NodeRole::Compute,
        scheduler_jobs_executed: 0,
        assignment_jobs_generated: 0,
        total_rewards: 0,
        last_reward_at: 0,
    }
}

/// Two proofs are for the same task, segment and provider.
pub open spec fn same_slot(a: TaskProof, b: TaskProof) -> bool {
    a.task_id@ == b.task_id@ && a.segment_id@ == b.segment_id@ && a.provider_id@ == b.provider_id@
}

/// The proofs of `s` that are not for the slot of `p`, in order.
pub open spec fn other_slots(s: Seq<TaskProof>, p: TaskProof) -> Seq<TaskProof>
    decreases s.len(),
{
    if s.len() == 0 {
        Seq::empty()
    } else if same_slot(s.last(), p) {
        other_slots(s.drop_last(), p)
    } else {
        other_slots(s.drop_last(), p).push(s.last())
    }
}

/// The 128-bit sum of `a` and `b`, wrapping around on overflow.
pub open spec fn wrap_add_u128(a: u128, b: u128) -> u128 {
    if a + b <= u128::MAX {
        (a + b) as u128
    } else {
        (a + b - 0x1_0000_0000_0000_0000_0000_0000_0000_0000) as u128
    }
}

fn wrapping_add_u128(a: u128, b: u128) -> (r: u128)
    ensures
        r == wrap_add_u128(a, b),
{
    if a <= u128::MAX - b {
        a + b
    } else {
        a - (u128::MAX - b) - 1
    }
}

/// The effect of `apply_segment_receipt`: the segment is recorded, paid with
/// the provider's discount and the treasury fee taken off, and enough
/// segments complete the task with its fastest segment's provider winning.
pub open spec fn segment_receipt_effect(pre: Ledger, post: Ledger, r: Result<(), LedgerError>, task_id: String, segment_id: String, provider_id: String, tokens: u64, latency_ms: u64, reward: u64, timestamp: u64) -> bool {
    &&& post.followups == pre.followups
    &&& post.state == (LedgerState {
            tasks: post.state.tasks,
            treasury: post.state.treasury,
            ..pre.state
        })
    &&& ({
            let pre = pre.state;
            let post = post.state;
            if !pre.tasks@.contains_key(task_id@) {
                fails_with(r, (ErrorCode::TaskNotFound, task_id@)) && post == pre
            } else if !pre.providers@.contains_key(provider_id@) {
                fails_with(r, (ErrorCode::ProviderNotFound, provider_id@)) && post == pre
            } else {
                let t = pre.tasks@[task_id@];
                let pay = receipt_reward(
                    reward,
                    pre.providers@[provider_id@].low_tier_discount_bps,
                    pre.treasury.fee_bps,
                );
                let t2 = post.tasks@[task_id@];
                let done = t2.segments@.len() * 100_000 >= t.total_tokens;
                &&& r is Ok
                &&& post.treasury@ == (TreasuryView {
                    aia: sat_add(pre.treasury.aia_balance, pay.1),
                    ..pre.treasury@
                })
                &&& post.tasks@.dom() == pre.tasks@.dom()
                &&& forall|k: Seq<char>| #[trigger]
                    post.tasks@.contains_key(k) && k != task_id@ ==> post.tasks@[k]
                        == pre.tasks@[k]
                &&& t2.segments@ == t.segments@.push(
                    TaskSegment {
                        segment_id: segment_id,
                        provider_id: provider_id,
                        tokens,
                        latency_ms,
                        reward: pay.0,
                        submitted_at: timestamp,
                    },
                )
                &&& t2 == (Task {
                    segments: t2.segments,
                    completed: done || t.completed,
                    winning_provider: if done {
                        Some(t2.segments@[fastest_segment(t2.segments@)].provider_id)
                    } else {
                        t.winning_provider
                    },
                    ..t
                })
            }
        })
}

/// The effect of `apply_chat_result`: the task records the aggregated answer
/// and completes; the first contributor wins when no provider has won yet.
pub open spec fn chat_result_effect(pre: Ledger, post: Ledger, r: Result<(), LedgerError>, task_id: String, aggregate: String, contributors: Vec< String, >) -> bool {
    &&& post.followups == pre.followups
    &&& post.state == (LedgerState { tasks: post.state.tasks, ..pre.state })
    &&& ({
            let pre = pre.state;
            let post = post.state;
            if !pre.tasks@.contains_key(task_id@) {
                fails_with(r, (ErrorCode::TaskNotFound, task_id@)) && post == pre
            } else {
                let t = pre.tasks@[task_id@];
                &&& r is Ok
                &&& post.tasks@ == pre.tasks@.insert(
                    task_id@,
                    Task {
                        chat_aggregate: Some(aggregate),
                        completed: true,
                        winning_provider: if t.winning_provider is None {
                            if contributors@.len() > 0 {
                                Some(contributors@[0])
                            } else {
                                None
                            }
                        } else {
                            t.winning_provider
                        },
                        ..t
                    },
                )
            }
        })
}

/// The effect of `record_task_proof`: the proof replaces any pending proof
/// for its task, segment and provider, the provider's reputation and the
/// network counters rise, and the throughput sample is queued.
pub open spec fn record_task_proof_effect(pre: Ledger, post: Ledger, r: Result<(), LedgerError>, proof: TaskProof) -> bool {
    &&& post.state == (LedgerState {
            providers: post.state.providers,
            pending_task_proofs: post.state.pending_task_proofs,
            network_capacity: post.state.network_capacity,
            ..pre.state
        })
    &&& ({
            let before = pre.state;
            let after = post.state;
            let cap = before.network_capacity;
            if !before.tasks@.contains_key(proof.task_id@) {
                fails_with(r, (ErrorCode::TaskNotFound, proof.task_id@)) && after == before
                    && post.followups == pre.followups
            } else if !before.providers@.contains_key(proof.provider_id@) {
                fails_with(r, (ErrorCode::ProviderNotFound, proof.provider_id@)) && after == before
                    && post.followups == pre.followups
            } else if proof.round < cap.consensus_round {
                fails_with(
                    r,
                    (
                        ErrorCode::InvalidTransaction,
                        "stale task-proof round "@ + decimal(proof.round as nat) + " < "@
                            + decimal(cap.consensus_round as nat),
                    ),
                ) && after == before && post.followups == pre.followups
            } else {
                let p = before.providers@[proof.provider_id@];
                let bonus: u64 = if proof.tokens_processed / 1_000_000 >= 1 {
                    (proof.tokens_processed / 1_000_000) as u64
                } else {
                    1
                };
                &&& r is Ok
                &&& after.pending_task_proofs@ == other_slots(
                    before.pending_task_proofs@,
                    proof,
                ).push(proof)
                &&& after.providers@ == before.providers@.insert(
                    proof.provider_id@,
                    Provider { reputation: sat_add(p.reputation, bonus), ..p },
                )
                &&& after.network_capacity == (crate::types::NetworkCapacity {
                    tokens_processed: wrap_add_u128(
                        cap.tokens_processed,
                        proof.tokens_processed as u128,
                    ),
                    consensus_round: if proof.round > cap.consensus_round {
                        proof.round
                    } else {
                        cap.consensus_round
                    },
                    peak_observed_tokens_per_sec: if proof.throughput_tok_s
                        > cap.peak_observed_tokens_per_sec {
                        proof.throughput_tok_s
                    } else {
                        cap.peak_observed_tokens_per_sec
                    },
                    ..cap
                })
                &&& post.followups@ == pre.followups@.push(
                    Followup::ThroughputSample {
                        provider_id: proof.provider_id,
                        throughput_tok_s: proof.throughput_tok_s,
                    },
                )
            }
        })
}

impl Ledger {
    /// Computes the treasury fee portion of a segment payout.
    pub fn calculate_treasury_fee(&self, amount: u64) -> (fee: u64)
        ensures
            fee == bps_of(amount, self.state.treasury.fee_bps),
    {
        basis_points(amount, self.state.treasury.fee_bps)
    }

    /// Records a segment of a task, paid with the provider's discount and the
    /// treasury fee taken off; enough segments complete the task.
    pub fn apply_segment_receipt(
        &mut self,
        task_id: &String,
        segment_id: &String,
        provider_id: &String,
        tokens: u64,
        latency_ms: u64,
        reward: u64,
        timestamp: u64,
    ) -> (r: Result<(), LedgerError>)
        requires
            old(self).wf(),
        ensures
            final(self).wf(),
            segment_receipt_effect(*old(self), *final(self), r, *task_id, *segment_id, *provider_id, tokens, latency_ms, reward, timestamp),
    {
        let ti = match self.state.tasks.position(task_id.as_str()) {
            Some(i) => i,
            None => {
                return Err(LedgerError::TaskNotFound(task_id.clone()));
            },
        };
        let discount_bps = match self.state.providers.get(provider_id.as_str()) {
            Some(p) => p.low_tier_discount_bps,
            None => {
                return Err(LedgerError::ProviderNotFound(provider_id.clone()));
            },
        };
        let mut paid = reward;
        if discount_bps > 0 {
            proof {
                assert((reward as u128) * (discount_bps as u128) <= u64::MAX * u64::MAX)
                    by (nonlinear_arith)
                    requires
                        reward <= u64::MAX,
                        discount_bps <= u64::MAX,
                ;
            }
            let wide: u128 = (reward as u128) * (discount_bps as u128) / 10_000u128;
            if wide > 0 {
                paid = reward.saturating_sub(basis_points(reward, discount_bps));
            }
        }
        let fee = self.calculate_treasury_fee(paid);
        paid = paid.saturating_sub(fee);
        self.state.treasury.aia_balance = self.state.treasury.aia_balance.saturating_add(fee);
        let segment = TaskSegment {
            segment_id: segment_id.clone(),
            provider_id: provider_id.clone(),
            tokens,
            latency_ms,
            reward: paid,
            submitted_at: timestamp,
        };
        proof {
            self.state.tasks.lemma_view_at(ti as int);
        }
        let mut task = self.state.tasks.replace_at(ti, blank_task());
        let ghost t0 = task;
        task.segments.push(segment);
        let count = task.segments.len();
        proof {
            assert(task.segments@.len() * 100_000 <= usize::MAX * 100_000);
        }
        if (count as u128) * 100_000u128 >= task.total_tokens as u128 {
            task.completed = true;
            let mut best: usize = 0;
            let mut i: usize = 1;
            while i < count
                invariant
                    count == task.segments@.len(),
                    1 <= i <= count,
                    best == fastest_segment(task.segments@.subrange(0, i as int)),
                    best < i,
                decreases count - i,
            {
                let ghost p = task.segments@.subrange(0, i + 1);
                proof {
                    assert(p.drop_last() =~= task.segments@.subrange(0, i as int));
                    assert(p[best as int] == task.segments@[best as int]);
                }
                if task.segments[i].latency_ms < task.segments[best].latency_ms {
                    best = i;
                }
                i = i + 1;
            }
            proof {
                assert(task.segments@.subrange(0, count as int) =~= task.segments@);
            }
            task.winning_provider = Some(task.segments[best].provider_id.clone());
        }
        self.state.tasks.set_at(ti, task);
        Ok(())
    }

    /// Records the aggregated answer of a chat task and completes it; the
    /// first contributor wins when no provider has won yet.
    pub fn apply_chat_result(&mut self, task_id: &String, aggregate: &String, contributors: &Vec<
        String,
    >) -> (r: Result<(), LedgerError>)
        requires
            old(self).wf(),
        ensures
            final(self).wf(),
            chat_result_effect(*old(self), *final(self), r, *task_id, *aggregate, *contributors),
    {
        let ti = match self.state.tasks.position(task_id.as_str()) {
            Some(i) => i,
            None => {
                return Err(LedgerError::TaskNotFound(task_id.clone()));
            },
        };
        proof {
            self.state.tasks.lemma_view_at(ti as int);
        }
        let mut task = self.state.tasks.replace_at(ti, blank_task());
        task.chat_aggregate = Some(aggregate.clone());
        task.completed = true;
        if task.winning_provider.is_none() {
            if contributors.len() > 0 {
                task.winning_provider = Some(contributors[0].clone());
            }
        }
        let ghost tv = task;
        self.state.tasks.set_at(ti, task);
        proof {
            assert(self.state.tasks@ =~= old(self).state.tasks@.insert(task_id@, tv));
        }
        Ok(())
    }

    /// Accepts a task-proof commitment: it replaces any pending proof for the
    /// same task, segment and provider, raises the provider's reputation and
    /// the network counters, and queues the provider's throughput sample.
    pub fn record_task_proof(&mut self, proof: TaskProof) -> (r: Result<(), LedgerError>)
        requires
            old(self).wf(),
        ensures
            final(self).wf(),
            record_task_proof_effect(*old(self), *final(self), r, proof),
    {
        if !self.state.tasks.contains_key(proof.task_id.as_str()) {
            return Err(LedgerError::TaskNotFound(proof.task_id.clone()));
        }
        let pi = match self.state.providers.position(proof.provider_id.as_str()) {
            Some(i) => i,
            None => {
                return Err(LedgerError::ProviderNotFound(proof.provider_id.clone()));
            },
        };
        if proof.round < self.state.network_capacity.consensus_round {
            let mut msg = String::from_str("stale task-proof round ");
            write_decimal(&mut msg, proof.round);
            msg.append(" < ");
            write_decimal(&mut msg, self.state.network_capacity.consensus_round);
            return Err(LedgerError::InvalidTransaction(msg));
        }
        let mut previous: Vec<TaskProof> = Vec::new();
        std::mem::swap(&mut previous, &mut self.state.pending_task_proofs);
        let mut kept: Vec<TaskProof> = Vec::new();
        let n = previous.len();
        let mut i: usize = 0;
        while i < n
            invariant
                n == previous@.len(),
                i <= n,
                kept@ == other_slots(previous@.subrange(0, i as int), proof),
            decreases n - i,
        {
            let ghost s = previous@.subrange(0, i + 1);
            proof {
                assert(s.drop_last() =~= previous@.subrange(0, i as int));
            }
            let item = &previous[i];
            let same = crate::table::str_eq(item.task_id.as_str(), proof.task_id.as_str())
                && crate::table::str_eq(item.segment_id.as_str(), proof.segment_id.as_str())
                && crate::table::str_eq(item.provider_id.as_str(), proof.provider_id.as_str());
            if !same {
                kept.push(item.clone());
            }
            i = i + 1;
        }
        proof {
            assert(previous@.subrange(0, n as int) =~= previous@);
        }
        proof {
            self.state.providers.lemma_view_at(pi as int);
        }
        let mut provider = self.state.providers.replace_at(pi, blank_provider());
        let bonus = if proof.tokens_processed / 1_000_000 >= 1 {
            proof.tokens_processed / 1_000_000
        } else {
            1
        };
        provider.reputation = provider.reputation.saturating_add(bonus);
        let ghost pv = provider;
        self.state.providers.set_at(pi, provider);
        proof {
            assert(self.state.providers@ =~= old(self).state.providers@.insert(
                proof.provider_id@,
                pv,
            ));
        }
        self.followups.push(
            Followup::ThroughputSample {
                provider_id: proof.provider_id.clone(),
                throughput_tok_s: proof.throughput_tok_s,
            },
        );
        let cap = &mut self.state.network_capacity;
        cap.tokens_processed = wrapping_add_u128(cap.tokens_processed, proof.tokens_processed as u128);
        if proof.round > cap.consensus_round {
            cap.consensus_round = proof.round;
        }
        if proof.throughput_tok_s > cap.peak_observed_tokens_per_sec {
            cap.peak_observed_tokens_per_sec = proof.throughput_tok_s;
        }
        kept.push(proof);
        self.state.pending_task_proofs = kept;
        Ok(())
    }
}

} // verus!
