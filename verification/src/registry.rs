//! The registries of providers, nodes and tasks: registration, liveness,
//! routing and the values that the host computes for them.
use crate::arith::{sat_add, wrap_add, wrapping_add_u64};
use crate::execution::current_timestamp;
use crate::ledger::{accounts_of, fails_with, ErrorCode, Followup, Ledger, LedgerError};
use crate::tasks::{blank_node, blank_provider, blank_task};
use crate::text::{decimal, hex_digits, hex16, write_decimal};
use crate::types::{
    LedgerState, ModelProfile, Node, NodeHardware, NodeMetrics, NodeRole, Provider,
    ScheduledProvider, Task, TaskMode, state_copy,
};
use std::hash::{Hash, Hasher};
use vstd::prelude::*;

verus! {

/// The stake, in AIA, that the owner of a validator node must hold.
pub const MIN_VALIDATOR_STAKE: u64 = 100_000_000;

/// What `DefaultHasher` computes after hashing, in turn, a node's CPU model,
/// core and thread counts, memory, GPU vendor, GPU model, GPU memory and
/// operating system, and its owner.
pub uninterp spec fn default_hash_fingerprint(
    cpu_model: Seq<char>,
    cpu_cores: u32,
    cpu_threads: u32,
    memory_total_mb: u64,
    gpu_vendor: Seq<char>,
    gpu_model: Seq<char>,
    gpu_vram_mb: u64,
    os: Seq<char>,
    owner: Seq<char>,
) -> u64;

/// Hashes a hardware snapshot and its owner with the standard library's
/// default hasher.
///
/// Calls `DefaultHasher::new`, `Hash::hash` on each hardware field in
/// declaration order and then on the owner, and `Hasher::finish`. The hasher
/// starts from fixed keys, so the result depends on these values alone; the
/// contract names it.
#[verifier::external_body]
fn hardware_hash(hardware: &NodeHardware, owner: &str) -> (h: u64)
    ensures
        h == default_hash_fingerprint(
            hardware.cpu_model@,
            hardware.cpu_cores,
            hardware.cpu_threads,
            hardware.memory_total_mb,
            hardware.gpu_vendor@,
            hardware.gpu_model@,
            hardware.gpu_vram_mb,
            hardware.os@,
            owner@,
        ),
{
    let mut hasher = std::collections::hash_map::DefaultHasher::new();
    hardware.cpu_model.hash(&mut hasher);
    hardware.cpu_cores.hash(&mut hasher);
    hardware.cpu_threads.hash(&mut hasher);
    hardware.memory_total_mb.hash(&mut hasher);
    hardware.gpu_vendor.hash(&mut hasher);
    hardware.gpu_model.hash(&mut hasher);
    hardware.gpu_vram_mb.hash(&mut hasher);
    hardware.os.hash(&mut hasher);
    owner.hash(&mut hasher);
    hasher.finish()
}

/// The deterministic fingerprint of a hardware snapshot and its owner:
/// `0x` and sixteen lower-case hex digits of its hash.
pub open spec fn fingerprint(hardware: NodeHardware, owner: Seq<char>) -> Seq<char> {
    "0x"@ + hex_digits(
        default_hash_fingerprint(
            hardware.cpu_model@,
            hardware.cpu_cores,
            hardware.cpu_threads,
            hardware.memory_total_mb,
            hardware.gpu_vendor@,
            hardware.gpu_model@,
            hardware.gpu_vram_mb,
            hardware.os@,
            owner,
        ) as nat,
        16,
    )
}

/// Derives the fingerprint of a hardware snapshot and its owner.
pub fn fingerprint_for(hardware: &NodeHardware, owner: &str) -> (f: String)
    ensures
        f@ == fingerprint(*hardware, owner@),
{
    let h = hardware_hash(hardware, owner);
    let mut f = String::from_str("0x");
    let digits = hex16(h);
    f.append(digits.as_str());
    proof {
        reveal_strlit("0x");
    }
    f
}

/// The fingerprint a node registers with: the one given, when one is
/// given, otherwise the one derived from its hardware and owner.
pub fn derive_fingerprint(hardware: &NodeHardware, owner: &str, override_fp: Option<String>) -> (f: String)
    ensures
        f@ == match override_fp {
            Some(fp) => fp@,
            None => fingerprint(*hardware, owner@),
        },
{
    match override_fp {
        Some(fp) => fp,
        None => fingerprint_for(hardware, owner),
    }
}

/// The refusal of a validator whose owner stakes too little.
pub open spec fn validator_stake_message() -> Seq<char> {
    "validator nodes require at least "@ + decimal(MIN_VALIDATOR_STAKE as nat) + " AIA staked"@
}

/// The effect of `register_node_at`.
pub open spec fn register_node_effect(pre: Ledger, post: Ledger, r: Result<Node, LedgerError>, node: Node, now: u64) -> bool {
    let st = pre.state;
    let accounts = accounts_of(st);
    if node.role == NodeRole::Validator && !accounts.contains_key(node.owner@) {
        fails_with(r, (ErrorCode::AccountNotFound, node.owner@)) && post == pre
    } else if node.role == NodeRole::Validator && accounts[node.owner@].stake < MIN_VALIDATOR_STAKE {
        fails_with(r, (ErrorCode::Forbidden, validator_stake_message())) && post == pre
    } else {
        let id = "node-"@ + decimal(st.next_node_id as nat);
        &&& r matches Ok(stored) && {
            &&& stored.id@ == id
            &&& stored.registered_at == now
            &&& stored.fingerprint@ == (if node.fingerprint@.len() == 0 {
                fingerprint(node.hardware, node.owner@)
            } else {
                node.fingerprint@
            })
            &&& stored.metrics == (if node.metrics.timestamp == 0 {
                NodeMetrics { timestamp: now, ..node.metrics }
            } else {
                node.metrics
            })
            &&& stored == (Node {
                id: stored.id,
                registered_at: now,
                fingerprint: stored.fingerprint,
                metrics: stored.metrics,
                task_slots_granted: 0,
                task_segments_completed: 0,
                scheduler_jobs_executed: 0,
                assignment_jobs_generated: 0,
                total_rewards: 0,
                last_reward_at: 0,
                ..node
            })
            &&& post.state.nodes@ == st.nodes@.insert(id, stored)
            &&& post.followups@.len() == pre.followups@.len() + 2
            &&& post.followups@.subrange(0, pre.followups@.len() as int) == pre.followups@
            &&& post.followups@[pre.followups@.len() as int] matches Followup::RefreshNodeWeight {
                node_id: n,
            } && n@ == id
            &&& post.followups@.last() == Followup::RefreshAverageTasks
        }
        &&& post.state == (LedgerState {
            nodes: post.state.nodes,
            next_node_id: wrap_add(st.next_node_id, 1),
            ..st
        })
    }
}

/// The effect of `submit_task_at`.
pub open spec fn submit_task_effect(
    pre: Ledger,
    post: Ledger,
    id: String,
    owner: String,
    content_hash: String,
    total_tokens: u64,
    target_profile: ModelProfile,
    providers: Vec<String>,
    preferred_region: Option<String>,
    mode: TaskMode,
    chat_prompt: Option<String>,
    now: u64,
) -> bool {
    let st = pre.state;
    &&& id@ == "task-"@ + decimal(st.next_task_id as nat)
    &&& post.state == (LedgerState {
        tasks: post.state.tasks,
        next_task_id: wrap_add(st.next_task_id, 1),
        ..st
    })
    &&& post.state.tasks@ == st.tasks@.insert(
        id@,
        Task {
            id,
            owner,
            content_hash,
            total_tokens,
            target_profile,
            requested_providers: providers,
            segments: post.state.tasks@[id@].segments,
            created_at: now,
            completed: false,
            winning_provider: None,
            preferred_region,
            scheduled: post.state.tasks@[id@].scheduled,
            mode,
            chat_prompt,
            chat_responses: post.state.tasks@[id@].chat_responses,
            chat_aggregate: None,
            assignment_node_id: None,
            scheduler_node_id: None,
        },
    )
    &&& post.state.tasks@[id@].segments@.len() == 0
    &&& post.state.tasks@[id@].scheduled@.len() == 0
    &&& post.state.tasks@[id@].chat_responses@.len() == 0
    &&& post.followups@.len() == pre.followups@.len() + 1
    &&& post.followups@.drop_last() == pre.followups@
    &&& post.followups@.last() matches Followup::RouteTask { task_id: t } && t@ == id@
}

/// A node counter raised by one, saturating, when the node exists.
pub open spec fn bump_job(nodes: Map<Seq<char>, Node>, id: Option<String>, scheduler: bool) -> Map<
    Seq<char>,
    Node,
> {
    match id {
        Some(n) => if nodes.contains_key(n@) {
            let nd = nodes[n@];
            nodes.insert(
                n@,
                if scheduler {
                    Node { scheduler_jobs_executed: sat_add(nd.scheduler_jobs_executed, 1), ..nd }
                } else {
                    Node {
                        assignment_jobs_generated: sat_add(nd.assignment_jobs_generated, 1),
                        ..nd
                    }
                },
            )
        } else {
            nodes
        },
        None => nodes,
    }
}

/// The effect of `heartbeat_provider_at`.
pub open spec fn heartbeat_effect(pre: Ledger, post: Ledger, r: Result<(), LedgerError>, provider_id: Seq<char>, now: u64) -> bool {
    &&& post.followups == pre.followups
    &&& if !pre.state.providers@.contains_key(provider_id) {
        fails_with(r, (ErrorCode::ProviderNotFound, provider_id)) && post == pre
    } else {
        &&& r is Ok
        &&& post.state == (LedgerState { providers: post.state.providers, ..pre.state })
        &&& post.state.providers@ == pre.state.providers@.insert(
            provider_id,
            Provider { last_heartbeat: Some(now), ..pre.state.providers@[provider_id] },
        )
    }
}

/// The effect of `update_node_status_at`.
pub open spec fn node_status_effect(
    pre: Ledger,
    post: Ledger,
    r: Result<(), LedgerError>,
    node_id: Seq<char>,
    online: bool,
    metrics: Option<NodeMetrics>,
    now: u64,
) -> bool {
    let nd = pre.state.nodes@[node_id];
    &&& post.followups == pre.followups
    &&& if !pre.state.nodes@.contains_key(node_id) {
        fails_with(r, (ErrorCode::NodeNotFound, node_id)) && post == pre
    } else {
        &&& r is Ok
        &&& post.state == (LedgerState { nodes: post.state.nodes, ..pre.state })
        &&& post.state.nodes@ == pre.state.nodes@.insert(
            node_id,
            Node {
                online,
                metrics: match metrics {
                    Some(m) => if m.timestamp == 0 {
                        NodeMetrics { timestamp: now, ..m }
                    } else {
                        m
                    },
                    None => nd.metrics,
                },
                ..nd
            },
        )
    }
}

impl Ledger {
    /// A copy of the state for read-only use.
    pub fn snapshot(&self) -> (s: LedgerState)
        requires
            self.wf(),
        ensures
            s.wf(),
            state_copy(self.state, s),
    {
        self.state.clone()
    }

    /// Registers or updates a provider under its id; its throughput score is
    /// queued for the host to raise to the provider's baseline.
    pub fn upsert_provider(&mut self, provider: Provider)
        requires
            old(self).wf(),
        ensures
            final(self).wf(),
            final(self).state == (LedgerState { providers: final(self).state.providers, ..old(self).state }),
            final(self).state.providers@ == old(self).state.providers@.insert(provider.id@, provider),
            final(self).followups@.len() == old(self).followups@.len() + 1,
            final(self).followups@.drop_last() == old(self).followups@,
            final(self).followups@.last() matches Followup::RefreshProviderScore { provider_id: p }
                && p@ == provider.id@,
    {
        let id = provider.id.clone();
        let key = provider.id.clone();
        self.state.providers.insert(key, provider);
        self.followups.push(Followup::RefreshProviderScore { provider_id: id });
    }

    /// Replaces a provider's model profiles; its throughput score is queued
    /// for the host to raise to the new baseline.
    pub fn set_provider_models(&mut self, provider_id: &str, profiles: Vec<ModelProfile>) -> (r: Result<
        (),
        LedgerError,
    >)
        requires
            old(self).wf(),
        ensures
            final(self).wf(),
            !old(self).state.providers@.contains_key(provider_id@) ==> fails_with(
                r,
                (ErrorCode::ProviderNotFound, provider_id@),
            ) && *final(self) == *old(self),
            old(self).state.providers@.contains_key(provider_id@) ==> {
                &&& r is Ok
                &&& final(self).state == (LedgerState {
                    providers: final(self).state.providers,
                    ..old(self).state
                })
                &&& final(self).state.providers@ == old(self).state.providers@.insert(
                    provider_id@,
                    Provider { model_profiles: profiles, ..old(self).state.providers@[provider_id@] },
                )
                &&& final(self).followups@.len() == old(self).followups@.len() + 1
                &&& final(self).followups@.drop_last() == old(self).followups@
                &&& final(self).followups@.last() matches Followup::RefreshProviderScore {
                    provider_id: p,
                } && p@ == provider_id@
            },
    {
        let pi = match self.state.providers.position(provider_id) {
            Some(i) => i,
            None => {
                return Err(LedgerError::ProviderNotFound(String::from_str(provider_id)));
            },
        };
        proof {
            self.state.providers.lemma_view_at(pi as int);
        }
        let mut provider = self.state.providers.replace_at(pi, blank_provider());
        provider.model_profiles = profiles;
        let ghost pv = provider;
        self.state.providers.set_at(pi, provider);
        proof {
            assert(self.state.providers@ =~= old(self).state.providers@.insert(provider_id@, pv));
        }
        self.followups.push(Followup::RefreshProviderScore { provider_id: String::from_str(provider_id) });
        Ok(())
    }

    /// Stores the throughput score (a double-precision bit pattern) the host
    /// computed for a provider; returns whether the provider exists.
    pub fn record_provider_score(&mut self, provider_id: &str, score: u64) -> (found: bool)
        requires
            old(self).wf(),
        ensures
            final(self).wf(),
            found == old(self).state.providers@.contains_key(provider_id@),
            final(self).followups == old(self).followups,
            final(self).state == (LedgerState { providers: final(self).state.providers, ..old(self).state }),
            final(self).state.providers@ == if found {
                old(self).state.providers@.insert(
                    provider_id@,
                    Provider { throughput_score: score, ..old(self).state.providers@[provider_id@] },
                )
            } else {
                old(self).state.providers@
            },
    {
        match self.state.providers.position(provider_id) {
            Some(pi) => {
                proof {
                    self.state.providers.lemma_view_at(pi as int);
                }
                let mut provider = self.state.providers.replace_at(pi, blank_provider());
                provider.throughput_score = score;
                let ghost pv = provider;
                self.state.providers.set_at(pi, provider);
                proof {
                    assert(self.state.providers@ =~= old(self).state.providers@.insert(provider_id@, pv));
                }
                true
            },
            None => false,
        }
    }

    /// Registers a node at time `now` and returns the stored record. A
    /// validator's owner must have an account staking at least
    /// `MIN_VALIDATOR_STAKE`. The node gets the next `node-<n>` id, a
    /// fingerprint when it has none, `now` as its metrics time when its
    /// metrics carry none, and zeroed work counters; its weight and the
    /// network's average load are queued for the host, in that order.
    pub fn register_node_at(&mut self, node: Node, now: u64) -> (r: Result<Node, LedgerError>)
        requires
            old(self).wf(),
        ensures
            final(self).wf(),
            register_node_effect(*old(self), *final(self), r, node, now),
    {
        let mut node = node;
        let ghost input = node;
        if node.role == NodeRole::Validator {
            let ai = match self.account_position(node.owner.as_str()) {
                Some(i) => i,
                None => {
                    return Err(LedgerError::AccountNotFound(node.owner.clone()));
                },
            };
            proof {
                self.state.accounts.lemma_view_at(ai as int);
            }
            let stake = self.state.accounts.value_at(ai).stake_balance;
            if stake < MIN_VALIDATOR_STAKE {
                let mut msg = String::from_str("validator nodes require at least ");
                write_decimal(&mut msg, MIN_VALIDATOR_STAKE);
                msg.append(" AIA staked");
                return Err(LedgerError::Forbidden(msg));
            }
        }
        node.registered_at = now;
        let mut id = String::from_str("node-");
        write_decimal(&mut id, self.state.next_node_id);
        self.state.next_node_id = wrapping_add_u64(self.state.next_node_id, 1);
        node.id = id;
        if node.fingerprint.unicode_len() == 0 {
            node.fingerprint = fingerprint_for(&node.hardware, node.owner.as_str());
        }
        if node.metrics.timestamp == 0 {
            node.metrics.timestamp = now;
        }
        node.task_slots_granted = 0;
        node.task_segments_completed = 0;
        node.scheduler_jobs_executed = 0;
        node.assignment_jobs_generated = 0;
        node.total_rewards = 0;
        node.last_reward_at = 0;
        let stored = node.clone();
        let key = node.id.clone();
        let weight_id = node.id.clone();
        self.state.nodes.insert(key, stored);
        let ghost before = self.followups@;
        self.followups.push(Followup::RefreshNodeWeight { node_id: weight_id });
        self.followups.push(Followup::RefreshAverageTasks);
        proof {
            assert(self.followups@.subrange(0, before.len() as int) =~= before);
        }
        Ok(node)
    }

    /// Registers a node stamped with the clock; see `register_node_at`.
    pub fn register_node(&mut self, node: Node) -> (r: Result<Node, LedgerError>)
        requires
            old(self).wf(),
        ensures
            final(self).wf(),
            exists|now: u64| register_node_effect(*old(self), *final(self), r, node, now),
    {
        let now = current_timestamp();
        self.register_node_at(node, now)
    }

    /// Stores the decentralization weight (a double-precision bit pattern)
    /// the host computed for a node; returns whether the node exists.
    pub fn record_node_weight(&mut self, node_id: &str, weight: u64) -> (found: bool)
        requires
            old(self).wf(),
        ensures
            final(self).wf(),
            found == old(self).state.nodes@.contains_key(node_id@),
            final(self).followups == old(self).followups,
            final(self).state == (LedgerState { nodes: final(self).state.nodes, ..old(self).state }),
            final(self).state.nodes@ == if found {
                old(self).state.nodes@.insert(
                    node_id@,
                    Node { decentralization_weight: weight, ..old(self).state.nodes@[node_id@] },
                )
            } else {
                old(self).state.nodes@
            },
    {
        match self.state.nodes.position(node_id) {
            Some(ni) => {
                proof {
                    self.state.nodes.lemma_view_at(ni as int);
                }
                let mut node = self.state.nodes.replace_at(ni, blank_node());
                node.decentralization_weight = weight;
                let ghost nv = node;
                self.state.nodes.set_at(ni, node);
                proof {
                    assert(self.state.nodes@ =~= old(self).state.nodes@.insert(node_id@, nv));
                }
                true
            },
            None => false,
        }
    }

    /// Stores the average task slots per online compute node (a
    /// double-precision bit pattern) the host computed.
    pub fn record_average_tasks(&mut self, average: u64)
        ensures
            final(self).followups == old(self).followups,
            final(self).state == (LedgerState {
                network_capacity: crate::types::NetworkCapacity {
                    average_tasks_per_node: average,
                    ..old(self).state.network_capacity
                },
                ..old(self).state
            }),
    {
        self.state.network_capacity.average_tasks_per_node = average;
    }

    /// Records a task submitted at time `now` under the next `task-<n>` id
    /// and returns the id; the choice of its assignment and scheduler nodes
    /// and of its providers is queued for the host.
    pub fn submit_task_at(
        &mut self,
        owner: String,
        content_hash: String,
        total_tokens: u64,
        target_profile: ModelProfile,
        providers: Vec<String>,
        preferred_region: Option<String>,
        mode: TaskMode,
        chat_prompt: Option<String>,
        now: u64,
    ) -> (id: String)
        requires
            old(self).wf(),
        ensures
            final(self).wf(),
            submit_task_effect(
                *old(self),
                *final(self),
                id,
                owner,
                content_hash,
                total_tokens,
                target_profile,
                providers,
                preferred_region,
                mode,
                chat_prompt,
                now,
            ),
    {
        let mut id = String::from_str("task-");
        write_decimal(&mut id, self.state.next_task_id);
        self.state.next_task_id = wrapping_add_u64(self.state.next_task_id, 1);
        let task = Task {
            id: id.clone(),
            owner,
            content_hash,
            total_tokens,
            target_profile,
            requested_providers: providers,
            segments: Vec::new(),
            created_at: now,
            completed: false,
            winning_provider: None,
            preferred_region,
            scheduled: Vec::new(),
            mode,
            chat_prompt,
            chat_responses: Vec::new(),
            chat_aggregate: None,
            assignment_node_id: None,
            scheduler_node_id: None,
        };
        let ghost tv = task;
        self.state.tasks.insert(id.clone(), task);
        self.followups.push(Followup::RouteTask { task_id: id.clone() });
        proof {
            assert(self.state.tasks@[id@] == tv);
            assert(id@ == "task-"@ + decimal(old(self).state.next_task_id as nat));
            assert(self.followups@.drop_last() =~= old(self).followups@);
            assert(self.state == (LedgerState {
                tasks: self.state.tasks,
                next_task_id: wrap_add(old(self).state.next_task_id, 1),
                ..old(self).state
            }));
            assert(tv.segments@.len() == 0);
        }
        id
    }

    /// Records a task stamped with the clock; see `submit_task_at`.
    pub fn submit_task(
        &mut self,
        owner: String,
        content_hash: String,
        total_tokens: u64,
        target_profile: ModelProfile,
        providers: Vec<String>,
        preferred_region: Option<String>,
        mode: TaskMode,
        chat_prompt: Option<String>,
    ) -> (id: String)
        requires
            old(self).wf(),
        ensures
            final(self).wf(),
            exists|now: u64|
                submit_task_effect(
                    *old(self),
                    *final(self),
                    id,
                    owner,
                    content_hash,
                    total_tokens,
                    target_profile,
                    providers,
                    preferred_region,
                    mode,
                    chat_prompt,
                    now,
                ),
    {
        let now = current_timestamp();
        self.submit_task_at(
            owner,
            content_hash,
            total_tokens,
            target_profile,
            providers,
            preferred_region,
            mode,
            chat_prompt,
            now,
        )
    }

    /// Applies the routing the host chose for a task: the assignment node
    /// counts one more job generated and the scheduler node one more job
    /// executed (saturating, when they exist), and the task records both and
    /// its scheduled providers. Returns whether the task exists; a missing
    /// task changes nothing.
    pub fn route_task(
        &mut self,
        task_id: &str,
        assignment: Option<String>,
        scheduler: Option<String>,
        scheduled: Vec<ScheduledProvider>,
    ) -> (found: bool)
        requires
            old(self).wf(),
        ensures
            final(self).wf(),
            found == old(self).state.tasks@.contains_key(task_id@),
            final(self).followups == old(self).followups,
            !found ==> *final(self) == *old(self),
            found ==> {
                &&& final(self).state == (LedgerState {
                    nodes: final(self).state.nodes,
                    tasks: final(self).state.tasks,
                    ..old(self).state
                })
                &&& final(self).state.nodes@ == bump_job(
                    bump_job(old(self).state.nodes@, assignment, false),
                    scheduler,
                    true,
                )
                &&& final(self).state.tasks@ == old(self).state.tasks@.insert(
                    task_id@,
                    Task {
                        assignment_node_id: assignment,
                        scheduler_node_id: scheduler,
                        scheduled,
                        ..old(self).state.tasks@[task_id@]
                    },
                )
            },
    {
        let ti = match self.state.tasks.position(task_id) {
            Some(i) => i,
            None => {
                return false;
            },
        };
        proof {
            self.state.tasks.lemma_view_at(ti as int);
        }
        self.bump_node_job(&assignment, false);
        self.bump_node_job(&scheduler, true);
        proof {
            self.state.tasks.lemma_view_at(ti as int);
        }
        let mut task = self.state.tasks.replace_at(ti, blank_task());
        task.assignment_node_id = assignment;
        task.scheduler_node_id = scheduler;
        task.scheduled = scheduled;
        let ghost tv = task;
        self.state.tasks.set_at(ti, task);
        proof {
            assert(self.state.tasks@ =~= old(self).state.tasks@.insert(task_id@, tv));
        }
        true
    }

    fn bump_node_job(&mut self, id: &Option<String>, scheduler: bool)
        requires
            old(self).wf(),
        ensures
            final(self).wf(),
            final(self).followups == old(self).followups,
            final(self).state == (LedgerState { nodes: final(self).state.nodes, ..old(self).state }),
            final(self).state.nodes@ == bump_job(old(self).state.nodes@, *id, scheduler),
    {
        match id {
            Some(n) => match self.state.nodes.position(n.as_str()) {
                Some(ni) => {
                    proof {
                        self.state.nodes.lemma_view_at(ni as int);
                    }
                    let mut node = self.state.nodes.replace_at(ni, blank_node());
                    if scheduler {
                        node.scheduler_jobs_executed = node.scheduler_jobs_executed.saturating_add(1);
                    } else {
                        node.assignment_jobs_generated = node.assignment_jobs_generated.saturating_add(
                            1,
                        );
                    }
                    let ghost nv = node;
                    self.state.nodes.set_at(ni, node);
                    proof {
                        assert(self.state.nodes@ =~= old(self).state.nodes@.insert(n@, nv));
                    }
                },
                None => {},
            },
            None => {},
        }
    }

    /// Replaces the scheduled providers of a task with those the host
    /// computed; returns whether the task exists.
    pub fn record_schedule(&mut self, task_id: &str, scheduled: Vec<ScheduledProvider>) -> (found: bool)
        requires
            old(self).wf(),
        ensures
            final(self).wf(),
            found == old(self).state.tasks@.contains_key(task_id@),
            final(self).followups == old(self).followups,
            final(self).state == (LedgerState { tasks: final(self).state.tasks, ..old(self).state }),
            final(self).state.tasks@ == if found {
                old(self).state.tasks@.insert(
                    task_id@,
                    Task { scheduled, ..old(self).state.tasks@[task_id@] },
                )
            } else {
                old(self).state.tasks@
            },
    {
        match self.state.tasks.position(task_id) {
            Some(ti) => {
                proof {
                    self.state.tasks.lemma_view_at(ti as int);
                }
                let mut task = self.state.tasks.replace_at(ti, blank_task());
                task.scheduled = scheduled;
                let ghost tv = task;
                self.state.tasks.set_at(ti, task);
                proof {
                    assert(self.state.tasks@ =~= old(self).state.tasks@.insert(task_id@, tv));
                }
                true
            },
            None => false,
        }
    }

    /// Records a provider heartbeat at time `now`.
    pub fn heartbeat_provider_at(&mut self, provider_id: &str, now: u64) -> (r: Result<(), LedgerError>)
        requires
            old(self).wf(),
        ensures
            final(self).wf(),
            heartbeat_effect(*old(self), *final(self), r, provider_id@, now),
    {
        let pi = match self.state.providers.position(provider_id) {
            Some(i) => i,
            None => {
                return Err(LedgerError::ProviderNotFound(String::from_str(provider_id)));
            },
        };
        proof {
            self.state.providers.lemma_view_at(pi as int);
        }
        let mut provider = self.state.providers.replace_at(pi, blank_provider());
        provider.last_heartbeat = Some(now);
        let ghost pv = provider;
        self.state.providers.set_at(pi, provider);
        proof {
            assert(self.state.providers@ =~= old(self).state.providers@.insert(provider_id@, pv));
        }
        Ok(())
    }

    /// Records a provider heartbeat stamped with the clock.
    pub fn heartbeat_provider(&mut self, provider_id: &str) -> (r: Result<(), LedgerError>)
        requires
            old(self).wf(),
        ensures
            final(self).wf(),
            exists|now: u64| heartbeat_effect(*old(self), *final(self), r, provider_id@, now),
    {
        let now = current_timestamp();
        self.heartbeat_provider_at(provider_id, now)
    }

    /// Sets a node's online state at time `now`, and its metrics when a
    /// report is given (a report without a time is stamped `now`).
    pub fn update_node_status_at(
        &mut self,
        node_id: &str,
        online: bool,
        metrics: Option<NodeMetrics>,
        now: u64,
    ) -> (r: Result<(), LedgerError>)
        requires
            old(self).wf(),
        ensures
            final(self).wf(),
            node_status_effect(*old(self), *final(self), r, node_id@, online, metrics, now),
    {
        let ni = match self.state.nodes.position(node_id) {
            Some(i) => i,
            None => {
                return Err(LedgerError::NodeNotFound(String::from_str(node_id)));
            },
        };
        proof {
            self.state.nodes.lemma_view_at(ni as int);
        }
        let mut node = self.state.nodes.replace_at(ni, blank_node());
        node.online = online;
        match metrics {
            Some(m) => {
                let mut report = m;
                if report.timestamp == 0 {
                    report.timestamp = now;
                }
                node.metrics = report;
            },
            None => {},
        }
        let ghost nv = node;
        self.state.nodes.set_at(ni, node);
        proof {
            assert(self.state.nodes@ =~= old(self).state.nodes@.insert(node_id@, nv));
        }
        Ok(())
    }

    /// Sets a node's online state and metrics, stamping a report without a
    /// time with the clock; see `update_node_status_at`.
    pub fn update_node_status(&mut self, node_id: &str, online: bool, metrics: Option<NodeMetrics>) -> (r:
        Result<(), LedgerError>)
        requires
            old(self).wf(),
        ensures
            final(self).wf(),
            exists|now: u64|
                node_status_effect(*old(self), *final(self), r, node_id@, online, metrics, now),
    {
        let now = current_timestamp();
        self.update_node_status_at(node_id, online, metrics, now)
    }
}

} // verus!
