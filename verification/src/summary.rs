//! The network summary served to dashboards.
use crate::registry::MIN_VALIDATOR_STAKE;
use crate::types::{LedgerState, Node, NodeRole, Provider};
use vstd::prelude::*;

verus! {

/// Metadata for lightweight summaries of the network.
#[derive(Debug)]
pub struct NetworkSummary {
    pub block_height: u64,
    pub treasury_aia: u64,
    pub treasury_gas_collected: u64,
    pub active_providers: usize,
    pub active_nodes: usize,
    pub validators_online: usize,
    pub scheduler_nodes_online: usize,
    pub assignment_nodes_online: usize,
    pub compute_nodes_online: usize,
    pub total_tasks: usize,
    pub consensus_round: u64,
    pub target_tokens_per_sec: u64,
    pub peak_tokens_per_sec: u64,
    pub total_tokens_processed: u128,
    pub max_parallel_nodes: u64,
    pub total_task_slots: u128,
    /// Average task slots per online compute node (double-precision bit pattern).
    pub average_tasks_per_node: u64,
    pub total_contracts: usize,
    pub total_custom_tokens: usize,
    pub platform_token_count: usize,
    pub contract_events: usize,
    pub min_validator_stake: u64,
}

/// The number of providers that have sent a heartbeat.
pub open spec fn count_heard(s: Seq<Provider>) -> nat
    decreases s.len(),
{
    if s.len() == 0 {
        0
    } else {
        count_heard(s.drop_last()) + if s.last().last_heartbeat is Some {
            1nat
        } else {
            0nat
        }
    }
}

/// The number of online nodes with the given role.
pub open spec fn count_online(s: Seq<Node>, role: NodeRole) -> nat
    decreases s.len(),
{
    if s.len() == 0 {
        0
    } else {
        count_online(s.drop_last(), role) + if s.last().online && s.last().role == role {
            1nat
        } else {
            0nat
        }
    }
}

proof fn lemma_count_heard_bound(s: Seq<Provider>)
    ensures
        count_heard(s) <= s.len(),
    decreases s.len(),
{
    if s.len() > 0 {
        lemma_count_heard_bound(s.drop_last());
    }
}

proof fn lemma_count_online_bound(s: Seq<Node>, role: NodeRole)
    ensures
        count_online(s, role) <= s.len(),
    decreases s.len(),
{
    if s.len() > 0 {
        lemma_count_online_bound(s.drop_last(), role);
    }
}

/// The four online-node counts add up to the number of online nodes.
proof fn lemma_roles_partition(s: Seq<Node>)
    ensures
        count_online(s, NodeRole::Validator) + count_online(s, NodeRole::Scheduler) + count_online(
            s,
            NodeRole::Assignment,
        ) + count_online(s, NodeRole::Compute) <= s.len(),
    decreases s.len(),
{
    if s.len() > 0 {
        lemma_roles_partition(s.drop_last());
    }
}

fn count_heard_in(providers: &crate::table::Table<Provider>) -> (n: usize)
    requires
        providers.wf(),
    ensures
        n == count_heard(providers.value_seq()),
{
    let len = providers.len();
    let mut n: usize = 0;
    let mut i: usize = 0;
    while i < len
        invariant
            providers.wf(),
            len == providers.value_seq().len(),
            len == providers.key_seq().len(),
            i <= len,
            n == count_heard(providers.value_seq().subrange(0, i as int)),
        decreases len - i,
    {
        let ghost s = providers.value_seq().subrange(0, i + 1);
        proof {
            assert(s.drop_last() =~= providers.value_seq().subrange(0, i as int));
            lemma_count_heard_bound(s.drop_last());
        }
        if providers.value_at(i).last_heartbeat.is_some() {
            n = n + 1;
        }
        i = i + 1;
    }
    proof {
        assert(providers.value_seq().subrange(0, len as int) =~= providers.value_seq());
    }
    n
}

fn count_online_in(nodes: &crate::table::Table<Node>, role: NodeRole) -> (n: usize)
    requires
        nodes.wf(),
    ensures
        n == count_online(nodes.value_seq(), role),
{
    let len = nodes.len();
    let mut n: usize = 0;
    let mut i: usize = 0;
    while i < len
        invariant
            nodes.wf(),
            len == nodes.value_seq().len(),
            len == nodes.key_seq().len(),
            i <= len,
            n == count_online(nodes.value_seq().subrange(0, i as int), role),
        decreases len - i,
    {
        let ghost s = nodes.value_seq().subrange(0, i + 1);
        proof {
            assert(s.drop_last() =~= nodes.value_seq().subrange(0, i as int));
            lemma_count_online_bound(s.drop_last(), role);
        }
        let nd = nodes.value_at(i);
        if nd.online && nd.role == role {
            n = n + 1;
        }
        i = i + 1;
    }
    proof {
        assert(nodes.value_seq().subrange(0, len as int) =~= nodes.value_seq());
    }
    n
}

impl NetworkSummary {
    /// Summarizes a ledger state: history and treasury figures, providers
    /// that have sent a heartbeat, online nodes by role, record counts and
    /// the network's capacity figures.
    pub fn of(state: &LedgerState) -> (s: NetworkSummary)
        requires
            state.wf(),
        ensures
            s.block_height == state.blocks@.len(),
            s.treasury_aia == state.treasury.aia_balance,
            s.treasury_gas_collected == state.treasury.gas_collected,
            s.active_providers == count_heard(state.providers.value_seq()),
            s.validators_online == count_online(state.nodes.value_seq(), NodeRole::Validator),
            s.scheduler_nodes_online == count_online(state.nodes.value_seq(), NodeRole::Scheduler),
            s.assignment_nodes_online == count_online(state.nodes.value_seq(), NodeRole::Assignment),
            s.compute_nodes_online == count_online(state.nodes.value_seq(), NodeRole::Compute),
            s.active_nodes == s.validators_online + s.scheduler_nodes_online
                + s.assignment_nodes_online + s.compute_nodes_online,
            s.total_tasks == state.tasks@.dom().len(),
            s.consensus_round == state.network_capacity.consensus_round,
            s.target_tokens_per_sec == state.network_capacity.target_tokens_per_sec,
            s.peak_tokens_per_sec == state.network_capacity.peak_observed_tokens_per_sec,
            s.total_tokens_processed == state.network_capacity.tokens_processed,
            s.max_parallel_nodes == state.network_capacity.max_parallel_nodes,
            s.total_task_slots == state.network_capacity.total_task_slots,
            s.average_tasks_per_node == state.network_capacity.average_tasks_per_node,
            s.total_contracts == state.contracts@.dom().len(),
            s.total_custom_tokens == state.token_definitions@.dom().len(),
            s.platform_token_count == state.platform_tokens@.dom().len(),
            s.contract_events == state.contract_events@.len(),
            s.min_validator_stake == MIN_VALIDATOR_STAKE,
    {
        proof {
            state.tasks.lemma_dom();
            state.contracts.lemma_dom();
            state.token_definitions.lemma_dom();
            state.platform_tokens.lemma_dom();
            lemma_roles_partition(state.nodes.value_seq());
            state.nodes.lemma_lengths();
        }
        let node_count = state.nodes.len();
        proof {
            assert(node_count == state.nodes.value_seq().len());
        }
        let validators = count_online_in(&state.nodes, NodeRole::Validator);
        let schedulers = count_online_in(&state.nodes, NodeRole::Scheduler);
        let assigners = count_online_in(&state.nodes, NodeRole::Assignment);
        let computes = count_online_in(&state.nodes, NodeRole::Compute);
        let cap = &state.network_capacity;
        NetworkSummary {
            block_height: state.blocks.len() as u64,
            treasury_aia: state.treasury.aia_balance,
            treasury_gas_collected: state.treasury.gas_collected,
            active_providers: count_heard_in(&state.providers),
            active_nodes: validators + schedulers + assigners + computes,
            validators_online: validators,
            scheduler_nodes_online: schedulers,
            assignment_nodes_online: assigners,
            compute_nodes_online: computes,
            total_tasks: state.tasks.len(),
            consensus_round: cap.consensus_round,
            target_tokens_per_sec: cap.target_tokens_per_sec,
            peak_tokens_per_sec: cap.peak_observed_tokens_per_sec,
            total_tokens_processed: cap.tokens_processed,
            max_parallel_nodes: cap.max_parallel_nodes,
            total_task_slots: cap.total_task_slots,
            average_tasks_per_node: cap.average_tasks_per_node,
            total_contracts: state.contracts.len(),
            total_custom_tokens: state.token_definitions.len(),
            platform_token_count: state.platform_tokens.len(),
            contract_events: state.contract_events.len(),
            min_validator_stake: MIN_VALIDATOR_STAKE,
        }
    }
}

} // verus!
