//! The deterministic genesis snapshot of a local testnet.
use crate::ledger::accounts_of;
use crate::table::Table;
use crate::types::{
    Account, AccountView, AvailabilityWindow, Block, ContractEvent, LedgerState, ModelProfile,
    NetworkCapacity, Node, NodeHardware, NodeMetrics, NodeRole, PricingConfig, Provider, SmartContract,
    Task, TaskProof, TokenDefinition, Treasury, TreasuryView, block_eqv,
};
use vstd::prelude::*;

verus! {

/// An account holding the given balances, with its earnings equal to its AIA.
fn funded_account(id: &str, aia: u64, work: u64, stor: u64, stake: u64) -> (a: Account)
    ensures
        a.wf(),
        a@ == (AccountView {
            id: id@,
            aia,
            work,
            stor,
            stake,
            earnings: aia,
            costs: 0,
            custom: Map::empty(),
        }),
{
    let mut a = Account::new(String::from_str(id));
    a.aia_balance = aia;
    a.work_balance = work;
    a.stor_balance = stor;
    a.stake_balance = stake;
    a.total_earnings = aia;
    a
}

/// `p` serves `model_id` at int4 quantisation with the given context,
/// memory requirement and throughput.
pub open spec fn is_profile(p: ModelProfile, model_id: Seq<char>, max_ctx: u64, vram_req_gb: u64, throughput_tok_s: u64) -> bool {
    &&& p.model_id@ == model_id
    &&& p.quant@ == "int4"@
    &&& p.max_ctx == max_ctx
    &&& p.vram_req_gb == vram_req_gb
    &&& p.throughput_tok_s == throughput_tok_s
}

/// One availability window: every day, around the clock.
pub open spec fn always_available_windows(v: Seq<AvailabilityWindow>) -> bool {
    &&& v.len() == 1
    &&& v[0].day_of_week@ == "Mon-Sun"@
    &&& v[0].start_hour == 0
    &&& v[0].end_hour == 24
}

/// An NVIDIA machine running Linux with the given CPU, memory and GPU.
pub open spec fn is_hardware(
    h: NodeHardware,
    cpu_model: Seq<char>,
    cores: u32,
    threads: u32,
    memory_mb: u64,
    gpu_model: Seq<char>,
    vram_mb: u64,
) -> bool {
    &&& h.cpu_model@ == cpu_model
    &&& h.cpu_cores == cores
    &&& h.cpu_threads == threads
    &&& h.memory_total_mb == memory_mb
    &&& h.gpu_vendor@ == "NVIDIA"@
    &&& h.gpu_model@ == gpu_model
    &&& h.gpu_vram_mb == vram_mb
    &&& h.os@ == "Linux"@
}

fn profile(model_id: &str, max_ctx: u64, vram_req_gb: u64, throughput_tok_s: u64) -> (p: ModelProfile)
    ensures
        is_profile(p, model_id@, max_ctx, vram_req_gb, throughput_tok_s),
{
    ModelProfile {
        model_id: String::from_str(model_id),
        quant: String::from_str("int4"),
        max_ctx,
        vram_req_gb,
        throughput_tok_s,
    }
}

fn always_available() -> (v: Vec<AvailabilityWindow>)
    ensures
        always_available_windows(v@),
{
    let mut v: Vec<AvailabilityWindow> = Vec::new();
    v.push(
        AvailabilityWindow { day_of_week: String::from_str("Mon-Sun"), start_hour: 0, end_hour: 24 },
    );
    v
}

fn hardware(cpu_model: &str, cores: u32, threads: u32, memory_mb: u64, gpu_model: &str, vram_mb: u64) -> (h:
    NodeHardware)
    ensures
        is_hardware(h, cpu_model@, cores, threads, memory_mb, gpu_model@, vram_mb),
{
    NodeHardware {
        cpu_model: String::from_str(cpu_model),
        cpu_cores: cores,
        cpu_threads: threads,
        memory_total_mb: memory_mb,
        gpu_vendor: String::from_str("NVIDIA"),
        gpu_model: String::from_str(gpu_model),
        gpu_vram_mb: vram_mb,
        os: String::from_str("Linux"),
    }
}

/// A testnet node: online, a validator, registered at `timestamp`, with no
/// work recorded and a weight of one.
fn genesis_node(
    id: &str,
    owner: &str,
    region: &str,
    llm_profile: ModelProfile,
    reputation: u64,
    fingerprint: &str,
    hardware: NodeHardware,
    metrics: NodeMetrics,
) -> (n: Node)
    ensures
        n.id@ == id@,
        n.owner@ == owner@,
        n.region@ == region@,
        n.llm_profile == llm_profile,
        n.online,
        n.reputation == reputation,
        n.fingerprint@ == fingerprint@,
        n.hardware == hardware,
        n.metrics == metrics,
        n.registered_at == metrics.timestamp,
        n.task_slots_granted == 0,
        n.task_segments_completed == 0,
        n.decentralization_weight == 0x3ff0_0000_0000_0000,
        n.role == NodeRole::Validator,
        n.scheduler_jobs_executed == 0,
        n.assignment_jobs_generated == 0,
        n.total_rewards == 0,
        n.last_reward_at == 0,
{
    Node {
        id: String::from_str(id),
        owner: String::from_str(owner),
        region: String::from_str(region),
        llm_profile,
        online: true,
        reputation,
        registered_at: metrics.timestamp,
        fingerprint: String::from_str(fingerprint),
        hardware,
        metrics,
        task_slots_granted: 0,
        task_segments_completed: 0,
        decentralization_weight: 0x3ff0_0000_0000_0000,
        role: NodeRole::Validator,
        scheduler_jobs_executed: 0,
        assignment_jobs_generated: 0,
        total_rewards: 0,
        last_reward_at: 0,
    }
}

/// The funded accounts of the testnet.
pub open spec fn genesis_accounts() -> Map<Seq<char>, AccountView> {
    map![
        "foundation"@ => AccountView {
            id: "foundation"@,
            aia: 1_000_000_000_000,
            work: 500_000_000_000,
            stor: 200_000_000_000,
            stake: 0,
            earnings: 1_000_000_000_000,
            costs: 0,
            custom: Map::empty(),
        },
        "builder"@ => AccountView {
            id: "builder"@,
            aia: 250_000_000_000,
            work: 100_000_000_000,
            stor: 0,
            stake: 0,
            earnings: 250_000_000_000,
            costs: 0,
            custom: Map::empty(),
        },
        "validator-1"@ => AccountView {
            id: "validator-1"@,
            aia: 150_000_000_000,
            work: 0,
            stor: 0,
            stake: 100_000_000_000,
            earnings: 150_000_000_000,
            costs: 0,
            custom: Map::empty(),
        }
    ]
}

/// A testnet provider: its id, owner, endpoint, region, GPU, bandwidth,
/// pricing, reputation, discount, stake boost and throughput score, with
/// CUDA, available around the clock, serving `profiles` model profiles and
/// heard from at `timestamp`.
pub open spec fn genesis_provider(
    p: Provider,
    id: Seq<char>,
    endpoint: Seq<char>,
    gpu_model: Seq<char>,
    vram_gb: u64,
    bandwidth_gbps: u64,
    owner: Seq<char>,
    region: Seq<char>,
    price: u64,
    min_price: u64,
    max_price: u64,
    reputation: u64,
    discount_bps: u64,
    stake_boost: u64,
    score: u64,
    profiles: nat,
    timestamp: u64,
) -> bool {
    &&& p.id@ == id
    &&& p.owner@ == owner
    &&& p.endpoint@ == endpoint
    &&& p.gpu_model@ == gpu_model
    &&& p.vram_gb == vram_gb
    &&& p.bandwidth_gbps == bandwidth_gbps
    &&& p.region@ == region
    &&& p.pricing == PricingConfig {
        base_per_token: price,
        min_per_token: min_price,
        max_per_token: max_price,
        current_per_token: price,
    }
    &&& p.reputation == reputation
    &&& p.low_tier_discount_bps == discount_bps
    &&& p.stake_boost == stake_boost
    &&& p.throughput_score == score
    &&& p.model_profiles@.len() == profiles
    &&& always_available_windows(p.availability@)
    &&& p.last_heartbeat == Some(timestamp)
    &&& p.cuda && !p.rocm
}

/// A testnet node: its id, owner, region, reputation and fingerprint;
/// online, a validator registered at `timestamp` with a weight of one
/// (as a double), and no work or rewards recorded yet.
pub open spec fn genesis_node_record(
    n: Node,
    id: Seq<char>,
    owner: Seq<char>,
    region: Seq<char>,
    reputation: u64,
    fingerprint: Seq<char>,
    timestamp: u64,
) -> bool {
    &&& n.id@ == id
    &&& n.owner@ == owner
    &&& n.region@ == region
    &&& n.online
    &&& n.reputation == reputation
    &&& n.registered_at == timestamp
    &&& n.fingerprint@ == fingerprint
    &&& n.task_slots_granted == 0
    &&& n.task_segments_completed == 0
    &&& n.decentralization_weight == 0x3ff0_0000_0000_0000
    &&& n.role == NodeRole::Validator
    &&& n.scheduler_jobs_executed == 0
    &&& n.assignment_jobs_generated == 0
    &&& n.total_rewards == 0
    &&& n.last_reward_at == 0
}

/// `s` is the testnet genesis snapshot at `timestamp`: every field of it
/// is fixed by the timestamp alone.
pub open spec fn is_genesis(s: LedgerState, timestamp: u64) -> bool {
    &&& accounts_of(s) == genesis_accounts()
    &&& s.providers@.dom() == set!["prov-asia"@, "prov-na"@]
    &&& genesis_provider(
        s.providers@["prov-asia"@],
        "prov-asia"@,
        "http://127.0.0.1:8080"@,
        "NVIDIA H100"@,
        80,
        400,
        "foundation"@,
        "AP-SEA"@,
        10,
        6,
        18,
        980,
        0,
        0x3ff4_0000_0000_0000,
        0x4113_8800_0000_0000,
        1,
        timestamp,
    )
    &&& is_profile(s.providers@["prov-asia"@].model_profiles@[0], "qwen2.5-7b"@, 8192, 12, 320_000)
    &&& genesis_provider(
        s.providers@["prov-na"@],
        "prov-na"@,
        "http://127.0.0.1:8090"@,
        "RTX 6000 Ada"@,
        48,
        200,
        "builder"@,
        "NA-USA"@,
        7,
        5,
        15,
        870,
        250,
        0x3ff2_6666_6666_6666,
        0x4111_1700_0000_0000,
        2,
        timestamp,
    )
    &&& is_profile(s.providers@["prov-na"@].model_profiles@[0], "qwen2.5-7b"@, 8192, 12, 320_000)
    &&& is_profile(s.providers@["prov-na"@].model_profiles@[1], "qwen2.5-14b"@, 16_384, 24, 280_000)
    &&& s.nodes@.dom() == set!["node-alpha"@, "node-beta"@]
    &&& genesis_node_record(
        s.nodes@["node-alpha"@],
        "node-alpha"@,
        "foundation"@,
        "AP-SEA"@,
        990,
        "0xalpha"@,
        timestamp,
    )
    &&& is_profile(s.nodes@["node-alpha"@].llm_profile, "qwen2.5-7b"@, 8192, 12, 320_000)
    &&& is_hardware(
        s.nodes@["node-alpha"@].hardware,
        "AMD EPYC 9654"@,
        96,
        192,
        2_097_152,
        "H100"@,
        80_000,
    )
    &&& s.nodes@["node-alpha"@].metrics == (NodeMetrics {
        timestamp,
        cpu_usage_pct: 0x4148_0000,
        memory_usage_pct: 0x4220_0000,
        gpu_usage_pct: 0x4190_0000,
        machine_load_one: 0x3fc0_0000,
        machine_load_five: 0x3f8c_cccd,
        machine_load_fifteen: 0x3f66_6666,
        disk_usage_pct: 0x425c_0000,
        disk_read_mbps: 0x42f0_0000,
        disk_write_mbps: 0x42b4_0000,
        network_rx_mbps: 0x4448_0000,
        network_tx_mbps: 0x443e_0000,
        gpu_memory_used_mb: 32_000,
        gpu_memory_total_mb: 80_000,
    })
    &&& genesis_node_record(
        s.nodes@["node-beta"@],
        "node-beta"@,
        "builder"@,
        "NA-USA"@,
        905,
        "0xbeta"@,
        timestamp,
    )
    &&& is_profile(s.nodes@["node-beta"@].llm_profile, "qwen2.5-14b"@, 16_384, 24, 280_000)
    &&& is_hardware(
        s.nodes@["node-beta"@].hardware,
        "Intel Xeon Platinum 8490H"@,
        60,
        120,
        1_048_576,
        "RTX 6000 Ada"@,
        48_000,
    )
    &&& s.nodes@["node-beta"@].metrics == (NodeMetrics {
        timestamp,
        cpu_usage_pct: 0x41b0_0000,
        memory_usage_pct: 0x425c_0000,
        gpu_usage_pct: 0x41f0_0000,
        machine_load_one: 0x4000_0000,
        machine_load_five: 0x3fb3_3333,
        machine_load_fifteen: 0x3f8c_cccd,
        disk_usage_pct: 0x4274_0000,
        disk_read_mbps: 0x42a0_0000,
        disk_write_mbps: 0x4290_0000,
        network_rx_mbps: 0x43d2_0000,
        network_tx_mbps: 0x43ca_8000,
        gpu_memory_used_mb: 20_000,
        gpu_memory_total_mb: 48_000,
    })
    &&& s.tasks@ == Map::<Seq<char>, Task>::empty()
    &&& s.next_task_id == 1
    &&& s.next_node_id == 3
    &&& s.pending_task_proofs@ == Seq::<TaskProof>::empty()
    &&& s.treasury@ == (TreasuryView {
        aia: 900_000_000_000,
        work: 400_000_000_000,
        stor: 150_000_000_000,
        fee_bps: 500,
        reward_bps: 200,
        low_tier_discount_bps: 1000,
        gas_collected: 0,
        custom: Map::empty(),
    })
    &&& s.network_capacity == (NetworkCapacity {
        consensus_round: 0,
        tokens_processed: 0,
        target_tokens_per_sec: 10_000_000,
        max_parallel_nodes: 100_000_000,
        peak_observed_tokens_per_sec: 6_400_000,
        total_task_slots: 0,
        average_tasks_per_node: 0,
    })
    &&& s.blocks@.len() == 1
    &&& s.blocks@[0].height == 0
    &&& s.blocks@[0].timestamp == timestamp
    &&& s.blocks@[0].transactions@.len() == 0
    &&& s.token_definitions@ == Map::<Seq<char>, TokenDefinition>::empty()
    &&& s.contracts@ == Map::<Seq<char>, SmartContract>::empty()
    &&& s.contract_events@ == Seq::<ContractEvent>::empty()
    &&& s.platform_tokens@ == Map::<Seq<char>, ()>::empty()
    &&& s.next_contract_id == 1
}

/// Two model profiles hold the same values.
pub open spec fn profile_alike(p: ModelProfile, q: ModelProfile) -> bool {
    &&& p.model_id@ == q.model_id@
    &&& p.quant@ == q.quant@
    &&& p.max_ctx == q.max_ctx
    &&& p.vram_req_gb == q.vram_req_gb
    &&& p.throughput_tok_s == q.throughput_tok_s
}

/// Two availability windows hold the same values.
pub open spec fn window_alike(a: AvailabilityWindow, b: AvailabilityWindow) -> bool {
    &&& a.day_of_week@ == b.day_of_week@
    &&& a.start_hour == b.start_hour
    &&& a.end_hour == b.end_hour
}

/// Two providers hold the same values, their lists item by item.
pub open spec fn provider_alike(p: Provider, q: Provider) -> bool {
    &&& p.id@ == q.id@
    &&& p.owner@ == q.owner@
    &&& p.endpoint@ == q.endpoint@
    &&& p.region@ == q.region@
    &&& p.gpu_model@ == q.gpu_model@
    &&& p.vram_gb == q.vram_gb
    &&& p.bandwidth_gbps == q.bandwidth_gbps
    &&& p.cuda == q.cuda
    &&& p.rocm == q.rocm
    &&& p.reputation == q.reputation
    &&& p.stake_boost == q.stake_boost
    &&& p.low_tier_discount_bps == q.low_tier_discount_bps
    &&& p.pricing == q.pricing
    &&& p.availability@.len() == q.availability@.len()
    &&& forall|i: int|
        0 <= i < p.availability@.len() ==> window_alike(#[trigger] p.availability@[i], q.availability@[i])
    &&& p.model_profiles@.len() == q.model_profiles@.len()
    &&& forall|i: int|
        0 <= i < p.model_profiles@.len() ==> profile_alike(#[trigger] p.model_profiles@[i], q.model_profiles@[i])
    &&& p.last_heartbeat == q.last_heartbeat
    &&& p.throughput_score == q.throughput_score
}

/// Two hardware snapshots hold the same values.
pub open spec fn hardware_alike(a: NodeHardware, b: NodeHardware) -> bool {
    &&& a.cpu_model@ == b.cpu_model@
    &&& a.cpu_cores == b.cpu_cores
    &&& a.cpu_threads == b.cpu_threads
    &&& a.memory_total_mb == b.memory_total_mb
    &&& a.gpu_vendor@ == b.gpu_vendor@
    &&& a.gpu_model@ == b.gpu_model@
    &&& a.gpu_vram_mb == b.gpu_vram_mb
    &&& a.os@ == b.os@
}

/// Two nodes hold the same values.
pub open spec fn node_alike(a: Node, b: Node) -> bool {
    &&& a.id@ == b.id@
    &&& a.owner@ == b.owner@
    &&& a.region@ == b.region@
    &&& profile_alike(a.llm_profile, b.llm_profile)
    &&& a.online == b.online
    &&& a.reputation == b.reputation
    &&& a.registered_at == b.registered_at
    &&& a.fingerprint@ == b.fingerprint@
    &&& hardware_alike(a.hardware, b.hardware)
    &&& a.metrics == b.metrics
    &&& a.task_slots_granted == b.task_slots_granted
    &&& a.task_segments_completed == b.task_segments_completed
    &&& a.decentralization_weight == b.decentralization_weight
    &&& a.role == b.role
    &&& a.scheduler_jobs_executed == b.scheduler_jobs_executed
    &&& a.assignment_jobs_generated == b.assignment_jobs_generated
    &&& a.total_rewards == b.total_rewards
    &&& a.last_reward_at == b.last_reward_at
}

/// Two ledger states hold the same values in every field: accounts,
/// providers and nodes under the same keys, blocks with the same data,
/// and the same tables, counters, treasury and capacity record.
pub open spec fn states_alike(a: LedgerState, b: LedgerState) -> bool {
    &&& accounts_of(a) == accounts_of(b)
    &&& a.providers@.dom() == b.providers@.dom()
    &&& forall|k: Seq<char>| #[trigger]
        a.providers@.contains_key(k) ==> provider_alike(a.providers@[k], b.providers@[k])
    &&& a.nodes@.dom() == b.nodes@.dom()
    &&& forall|k: Seq<char>| #[trigger]
        a.nodes@.contains_key(k) ==> node_alike(a.nodes@[k], b.nodes@[k])
    &&& a.tasks@ == b.tasks@
    &&& a.blocks@.len() == b.blocks@.len()
    &&& forall|i: int| 0 <= i < a.blocks@.len() ==> block_eqv(#[trigger] a.blocks@[i], b.blocks@[i])
    &&& a.treasury@ == b.treasury@
    &&& a.next_task_id == b.next_task_id
    &&& a.next_node_id == b.next_node_id
    &&& a.pending_task_proofs@ == b.pending_task_proofs@
    &&& a.network_capacity == b.network_capacity
    &&& a.token_definitions@ == b.token_definitions@
    &&& a.contracts@ == b.contracts@
    &&& a.contract_events@ == b.contract_events@
    &&& a.platform_tokens@ == b.platform_tokens@
    &&& a.next_contract_id == b.next_contract_id
}

/// The genesis snapshot is deterministic: two snapshots taken at the same
/// time hold the same values in every field.
pub proof fn lemma_genesis_deterministic(a: LedgerState, b: LedgerState, timestamp: u64)
    requires
        is_genesis(a, timestamp),
        is_genesis(b, timestamp),
    ensures
        states_alike(a, b),
{
    let asia = "prov-asia"@;
    let na = "prov-na"@;
    assert forall|k: Seq<char>| #[trigger] a.providers@.contains_key(k) implies provider_alike(
        a.providers@[k],
        b.providers@[k],
    ) by {
        let p = a.providers@[k];
        let q = b.providers@[k];
        assert(k == asia || k == na);
        assert forall|i: int| 0 <= i < p.availability@.len() implies window_alike(
            #[trigger] p.availability@[i],
            q.availability@[i],
        ) by {
            assert(i == 0);
        }
        assert forall|i: int| 0 <= i < p.model_profiles@.len() implies profile_alike(
            #[trigger] p.model_profiles@[i],
            q.model_profiles@[i],
        ) by {
            if k == asia {
                assert(i == 0);
            } else {
                assert(i == 0 || i == 1);
            }
        }
    }
    assert forall|k: Seq<char>| #[trigger] a.nodes@.contains_key(k) implies node_alike(
        a.nodes@[k],
        b.nodes@[k],
    ) by {
        assert(k == "node-alpha"@ || k == "node-beta"@);
    }
    assert forall|i: int| 0 <= i < a.blocks@.len() implies block_eqv(#[trigger] a.blocks@[i], b.blocks@[i]) by {
        assert(i == 0);
    }
}

impl LedgerState {
    /// The deterministic testnet snapshot at `timestamp`: three funded
    /// accounts, two providers in Asia and North America, two online
    /// validator nodes, a funded treasury and the genesis block.
    pub fn testnet_genesis(timestamp: u64) -> (s: LedgerState)
        ensures
            s.wf(),
            is_genesis(s, timestamp),
    {
        let mut state = LedgerState::default();
        state.accounts.insert(
            String::from_str("foundation"),
            funded_account("foundation", 1_000_000_000_000, 500_000_000_000, 200_000_000_000, 0),
        );
        state.accounts.insert(
            String::from_str("builder"),
            funded_account("builder", 250_000_000_000, 100_000_000_000, 0, 0),
        );
        state.accounts.insert(
            String::from_str("validator-1"),
            funded_account("validator-1", 150_000_000_000, 0, 0, 100_000_000_000),
        );
        proof {
            assert(accounts_of(state) =~= genesis_accounts());
        }
        let flagship = profile("qwen2.5-7b", 8192, 12, 320_000);
        let usa = profile("qwen2.5-14b", 16_384, 24, 280_000);
        let mut na_profiles: Vec<ModelProfile> = Vec::new();
        na_profiles.push(flagship.clone());
        na_profiles.push(usa.clone());
        let mut asia_profiles: Vec<ModelProfile> = Vec::new();
        asia_profiles.push(flagship.clone());
        let asia = Provider {
            id: String::from_str("prov-asia"),
            owner: String::from_str("foundation"),
            endpoint: String::from_str("http://127.0.0.1:8080"),
            region: String::from_str("AP-SEA"),
            gpu_model: String::from_str("NVIDIA H100"),
            vram_gb: 80,
            bandwidth_gbps: 400,
            cuda: true,
            rocm: false,
            reputation: 980,
            stake_boost: 0x3ff4_0000_0000_0000,
            low_tier_discount_bps: 0,
            pricing: PricingConfig {
                base_per_token: 10,
                min_per_token: 6,
                max_per_token: 18,
                current_per_token: 10,
            },
            availability: always_available(),
            model_profiles: asia_profiles,
            last_heartbeat: Some(timestamp),
            throughput_score: 0x4113_8800_0000_0000,
        };
        let na = Provider {
            id: String::from_str("prov-na"),
            owner: String::from_str("builder"),
            endpoint: String::from_str("http://127.0.0.1:8090"),
            region: String::from_str("NA-USA"),
            gpu_model: String::from_str("RTX 6000 Ada"),
            vram_gb: 48,
            bandwidth_gbps: 200,
            cuda: true,
            rocm: false,
            reputation: 870,
            stake_boost: 0x3ff2_6666_6666_6666,
            low_tier_discount_bps: 250,
            pricing: PricingConfig {
                base_per_token: 7,
                min_per_token: 5,
                max_per_token: 15,
                current_per_token: 7,
            },
            availability: always_available(),
            model_profiles: na_profiles,
            last_heartbeat: Some(timestamp),
            throughput_score: 0x4111_1700_0000_0000,
        };
        state.providers.insert(String::from_str("prov-asia"), asia);
        state.providers.insert(String::from_str("prov-na"), na);
        let alpha = genesis_node(
            "node-alpha",
            "foundation",
            "AP-SEA",
            flagship,
            990,
            "0xalpha",
            hardware("AMD EPYC 9654", 96, 192, 2_097_152, "H100", 80_000),
            NodeMetrics {
                timestamp,
                cpu_usage_pct: 0x4148_0000,
                memory_usage_pct: 0x4220_0000,
                gpu_usage_pct: 0x4190_0000,
                machine_load_one: 0x3fc0_0000,
                machine_load_five: 0x3f8c_cccd,
                machine_load_fifteen: 0x3f66_6666,
                disk_usage_pct: 0x425c_0000,
                disk_read_mbps: 0x42f0_0000,
                disk_write_mbps: 0x42b4_0000,
                network_rx_mbps: 0x4448_0000,
                network_tx_mbps: 0x443e_0000,
                gpu_memory_used_mb: 32_000,
                gpu_memory_total_mb: 80_000,
            },
        );
        let beta = genesis_node(
            "node-beta",
            "builder",
            "NA-USA",
            usa,
            905,
            "0xbeta",
            hardware("Intel Xeon Platinum 8490H", 60, 120, 1_048_576, "RTX 6000 Ada", 48_000),
            NodeMetrics {
                timestamp,
                cpu_usage_pct: 0x41b0_0000,
                memory_usage_pct: 0x425c_0000,
                gpu_usage_pct: 0x41f0_0000,
                machine_load_one: 0x4000_0000,
                machine_load_five: 0x3fb3_3333,
                machine_load_fifteen: 0x3f8c_cccd,
                disk_usage_pct: 0x4274_0000,
                disk_read_mbps: 0x42a0_0000,
                disk_write_mbps: 0x4290_0000,
                network_rx_mbps: 0x43d2_0000,
                network_tx_mbps: 0x43ca_8000,
                gpu_memory_used_mb: 20_000,
                gpu_memory_total_mb: 48_000,
            },
        );
        state.nodes.insert(String::from_str("node-alpha"), alpha);
        state.nodes.insert(String::from_str("node-beta"), beta);
        state.next_node_id = 3;
        state.treasury = Treasury::with_balances(900_000_000_000, 400_000_000_000, 150_000_000_000);
        state.network_capacity.target_tokens_per_sec = 10_000_000;
        state.network_capacity.max_parallel_nodes = 100_000_000;
        state.network_capacity.peak_observed_tokens_per_sec = 6_400_000;
        state.blocks.push(Block { height: 0, timestamp, transactions: Vec::new() });
        proof {
            reveal_strlit("prov-asia");
            reveal_strlit("prov-na");
            reveal_strlit("node-alpha");
            reveal_strlit("node-beta");
            assert("prov-asia"@.len() != "prov-na"@.len());
            assert("node-alpha"@.len() != "node-beta"@.len());
            assert(state.providers@.dom() =~= set!["prov-asia"@, "prov-na"@]);
            assert(state.nodes@.dom() =~= set!["node-alpha"@, "node-beta"@]);
            assert(state.token_definitions@.dom() =~= Set::<Seq<char>>::empty());
            assert(state.contracts@.dom() =~= Set::<Seq<char>>::empty());
        }
        state
    }
}

} // verus!
