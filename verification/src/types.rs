//! The records kept on chain.
//!
//! Quantities that the network measures as floating-point numbers (scheduler
//! scores, load averages, utilisation percentages, stake boosts) are held
//! here as their IEEE-754 bit patterns: `u64` for double precision and `u32`
//! for single precision. The ledger stores, copies and compares them, and
//! never computes with them.
use crate::table::Table;
use vstd::prelude::*;

verus! {

/// Token denominations built into the network.
#[derive(PartialEq, Eq, Structural, Clone, Copy, Debug, Hash)]
pub enum TokenKind {
    /// The main network currency used for staking and payments.
    AIA,
    /// Reward token for compute contributions.
    WORK,
    /// Reward token for storage contributions.
    STOR,
}

/// Execution modes of a task.
#[derive(PartialEq, Eq, Structural, Clone, Copy, Debug)]
pub enum TaskMode {
    /// Throughput-oriented inference request.
    Batch,
    /// Conversational request aggregated over several nodes.
    Chat,
}

impl Default for TaskMode {
    /// The default mode is `Batch`.
    fn default() -> (m: TaskMode)
        ensures
            m == TaskMode::Batch,
    {
        TaskMode::Batch
    }
}

/// The part a node plays in the network.
#[derive(PartialEq, Eq, Structural, Clone, Copy, Debug)]
pub enum NodeRole {
    Validator,
    Scheduler,
    Assignment,
    Compute,
}

/// Where a contract runs.
#[derive(PartialEq, Eq, Structural, Clone, Copy, Debug)]
pub enum ContractRuntime {
    Native,
    Solana,
}

impl ContractRuntime {
    pub open spec fn spec_name(self) -> Seq<char> {
        match self {
            ContractRuntime::Native => "native"@,
            ContractRuntime::Solana => "solana"@,
        }
    }

    /// The lower-case name of the runtime.
    pub fn as_str(&self) -> (s: &'static str)
        ensures
            s@ == self.spec_name(),
    {
        match self {
            ContractRuntime::Native => {
                let s = "native";
                proof {
                    reveal_strlit("native");
                }
                s
            },
            ContractRuntime::Solana => {
                let s = "solana";
                proof {
                    reveal_strlit("solana");
                }
                s
            },
        }
    }
}

/// The payload of a transaction.
#[allow(inconsistent_fields)]
#[derive(Debug)]
pub enum TransactionKind {
    Mint { to: String, token: TokenKind, amount: u64, reason: Option<String> },
    Burn { from: String, token: TokenKind, amount: u64, reason: Option<String> },
    Transfer { from: String, to: String, token: TokenKind, amount: u64, memo: Option<String> },
    Stake { owner: String, amount: u64 },
    Airdrop { to: String, token: TokenKind, amount: u64, campaign: Option<String> },
    Payout { to: String, token: TokenKind, amount: u64, task_id: String },
    SegmentReceipt {
        task_id: String,
        segment_id: String,
        provider_id: String,
        tokens: u64,
        latency_ms: u64,
        reward: u64,
    },
    /// The aggregated output of a multi-node chat task.
    ChatResult { task_id: String, aggregate: String, contributors: Vec<String> },
    /// A task-proof commitment used for consensus.
    TaskProofCommit { proof: TaskProof },
    DeployContract {
        owner: String,
        contract_id: Option<String>,
        name: String,
        code: Option<String>,
        metadata: Option<String>,
        runtime: ContractRuntime,
        program_id: Option<String>,
        bytecode_b64: Option<String>,
    },
    /// `payload` is the compact JSON text of the call's arguments.
    ExecuteContract { contract_id: String, caller: String, method: String, payload: String },
    CreateToken {
        symbol: String,
        name: String,
        decimals: u8,
        initial_supply: u64,
        owner: String,
        platform: bool,
        contract_id: Option<String>,
    },
    MintCustom { symbol: String, to: String, amount: u64, authority: String },
    TransferCustom { symbol: String, from: String, to: String, amount: u64 },
    TreasuryDeposit { from: String, symbol: String, amount: u64 },
    TreasuryWithdraw { to: String, symbol: String, amount: u64, authority: String },
}

/// Two payloads carry the same data.
pub open spec fn kind_eqv(a: TransactionKind, b: TransactionKind) -> bool {
    match (a, b) {
        (
            TransactionKind::ChatResult { task_id: t1, aggregate: a1, contributors: c1 },
            TransactionKind::ChatResult { task_id: t2, aggregate: a2, contributors: c2 },
        ) => t1 == t2 && a1 == a2 && c1@ == c2@,
        _ => a == b,
    }
}

impl Clone for TransactionKind {
    fn clone(&self) -> (r: Self)
        ensures
            kind_eqv(*self, r),
    {
        match self {
            TransactionKind::Mint { to, token, amount, reason } => TransactionKind::Mint { to: to.clone(), token: *token, amount: *amount, reason: reason.clone() },
            TransactionKind::Burn { from, token, amount, reason } => TransactionKind::Burn { from: from.clone(), token: *token, amount: *amount, reason: reason.clone() },
            TransactionKind::Transfer { from, to, token, amount, memo } => TransactionKind::Transfer { from: from.clone(), to: to.clone(), token: *token, amount: *amount, memo: memo.clone() },
            TransactionKind::Stake { owner, amount } => TransactionKind::Stake { owner: owner.clone(), amount: *amount },
            TransactionKind::Airdrop { to, token, amount, campaign } => TransactionKind::Airdrop { to: to.clone(), token: *token, amount: *amount, campaign: campaign.clone() },
            TransactionKind::Payout { to, token, amount, task_id } => TransactionKind::Payout { to: to.clone(), token: *token, amount: *amount, task_id: task_id.clone() },
            TransactionKind::SegmentReceipt { task_id, segment_id, provider_id, tokens, latency_ms, reward } => TransactionKind::SegmentReceipt { task_id: task_id.clone(), segment_id: segment_id.clone(), provider_id: provider_id.clone(), tokens: *tokens, latency_ms: *latency_ms, reward: *reward },
            TransactionKind::ChatResult { task_id, aggregate, contributors } => TransactionKind::ChatResult { task_id: task_id.clone(), aggregate: aggregate.clone(), contributors: contributors.clone() },
            TransactionKind::TaskProofCommit { proof } => TransactionKind::TaskProofCommit { proof: proof.clone() },
            TransactionKind::DeployContract { owner, contract_id, name, code, metadata, runtime, program_id, bytecode_b64 } => TransactionKind::DeployContract { owner: owner.clone(), contract_id: contract_id.clone(), name: name.clone(), code: code.clone(), metadata: metadata.clone(), runtime: *runtime, program_id: program_id.clone(), bytecode_b64: bytecode_b64.clone() },
            TransactionKind::ExecuteContract { contract_id, caller, method, payload } => TransactionKind::ExecuteContract { contract_id: contract_id.clone(), caller: caller.clone(), method: method.clone(), payload: payload.clone() },
            TransactionKind::CreateToken { symbol, name, decimals, initial_supply, owner, platform, contract_id } => TransactionKind::CreateToken { symbol: symbol.clone(), name: name.clone(), decimals: *decimals, initial_supply: *initial_supply, owner: owner.clone(), platform: *platform, contract_id: contract_id.clone() },
            TransactionKind::MintCustom { symbol, to, amount, authority } => TransactionKind::MintCustom { symbol: symbol.clone(), to: to.clone(), amount: *amount, authority: authority.clone() },
            TransactionKind::TransferCustom { symbol, from, to, amount } => TransactionKind::TransferCustom { symbol: symbol.clone(), from: from.clone(), to: to.clone(), amount: *amount },
            TransactionKind::TreasuryDeposit { from, symbol, amount } => TransactionKind::TreasuryDeposit { from: from.clone(), symbol: symbol.clone(), amount: *amount },
            TransactionKind::TreasuryWithdraw { to, symbol, amount, authority } => TransactionKind::TreasuryWithdraw { to: to.clone(), symbol: symbol.clone(), amount: *amount, authority: authority.clone() },
        }
    }
}

/// A transaction together with its gas metadata and zero proof.
#[derive(Debug)]
pub struct Transaction {
    pub id: String,
    pub timestamp: u64,
    pub kind: TransactionKind,
    pub gas_payer: Option<String>,
    pub gas_limit: u64,
    pub gas_price: u64,
    pub gas_used: u64,
    pub zero_proof: Option<ZeroProof>,
}

/// Two transactions carry the same data.
pub open spec fn tx_eqv(a: Transaction, b: Transaction) -> bool {
    &&& a.id == b.id
    &&& a.timestamp == b.timestamp
    &&& kind_eqv(a.kind, b.kind)
    &&& a.gas_payer == b.gas_payer
    &&& a.gas_limit == b.gas_limit
    &&& a.gas_price == b.gas_price
    &&& a.gas_used == b.gas_used
    &&& a.zero_proof == b.zero_proof
}

impl Clone for Transaction {
    fn clone(&self) -> (r: Self)
        ensures
            tx_eqv(*self, r),
    {
        Transaction {
            id: self.id.clone(),
            timestamp: self.timestamp,
            kind: self.kind.clone(),
            gas_payer: self.gas_payer.clone(),
            gas_limit: self.gas_limit,
            gas_price: self.gas_price,
            gas_used: self.gas_used,
            zero_proof: self.zero_proof.clone(),
        }
    }
}

/// A digest that binds a statement to a proof scheme.
#[derive(Debug)]
pub struct ZeroProof {
    pub scheme: String,
    pub statement: String,
    pub digest: String,
}

impl Clone for ZeroProof {
    fn clone(&self) -> (r: Self)
        ensures
            r == *self,
    {
        ZeroProof {
            scheme: self.scheme.clone(),
            statement: self.statement.clone(),
            digest: self.digest.clone(),
        }
    }
}

/// Account level information.
#[derive(Debug)]
pub struct Account {
    pub id: String,
    pub aia_balance: u64,
    pub work_balance: u64,
    pub stor_balance: u64,
    pub stake_balance: u64,
    pub total_earnings: u64,
    pub total_costs: u64,
    /// Balances of custom tokens, by canonical symbol.
    pub custom_tokens: Table<u64>,
}

/// What an account holds, as plain values.
pub struct AccountView {
    pub id: Seq<char>,
    pub aia: u64,
    pub work: u64,
    pub stor: u64,
    pub stake: u64,
    pub earnings: u64,
    pub costs: u64,
    pub custom: Map<Seq<char>, u64>,
}

impl View for Account {
    type V = AccountView;

    open spec fn view(&self) -> AccountView {
        AccountView {
            id: self.id@,
            aia: self.aia_balance,
            work: self.work_balance,
            stor: self.stor_balance,
            stake: self.stake_balance,
            earnings: self.total_earnings,
            costs: self.total_costs,
            custom: self.custom_tokens@,
        }
    }
}

/// The account that a new identifier starts with.
pub open spec fn fresh_account(id: Seq<char>) -> AccountView {
    AccountView {
        id,
        aia: 0,
        work: 0,
        stor: 0,
        stake: 0,
        earnings: 0,
        costs: 0,
        custom: Map::empty(),
    }
}

impl Account {
    /// Every balance of an account.
    pub open spec fn wf(&self) -> bool {
        self.custom_tokens.wf()
    }

    /// A fresh account with every balance at zero.
    pub fn new(id: String) -> (a: Account)
        ensures
            a.id == id,
            a.aia_balance == 0,
            a.work_balance == 0,
            a.stor_balance == 0,
            a.stake_balance == 0,
            a.total_earnings == 0,
            a.total_costs == 0,
            a.custom_tokens@ == Map::<Seq<char>, u64>::empty(),
            a.wf(),
            a@ == fresh_account(id@),
    {
        Account {
            id,
            aia_balance: 0,
            work_balance: 0,
            stor_balance: 0,
            stake_balance: 0,
            total_earnings: 0,
            total_costs: 0,
            custom_tokens: Table::new(),
        }
    }
}

impl Clone for Account {
    /// The same balances under the same id.
    fn clone(&self) -> (r: Self)
        ensures
            r@ == self@,
            self.wf() ==> r.wf(),
    {
        let custom_tokens = self.custom_tokens.clone();
        proof {
            assert forall|i: int| 0 <= i < custom_tokens.value_seq().len() implies custom_tokens.value_seq()[i]
                == self.custom_tokens.value_seq()[i] by {
                assert(cloned::<u64>(self.custom_tokens.value_seq()[i], custom_tokens.value_seq()[i]));
            }
            assert(custom_tokens.value_seq() =~= self.custom_tokens.value_seq());
            assert(custom_tokens@ =~= self.custom_tokens@);
        }
        Account {
            id: self.id.clone(),
            aia_balance: self.aia_balance,
            work_balance: self.work_balance,
            stor_balance: self.stor_balance,
            stake_balance: self.stake_balance,
            total_earnings: self.total_earnings,
            total_costs: self.total_costs,
            custom_tokens,
        }
    }
}

/// GPU pricing envelope.
#[derive(Debug, Clone, Copy, PartialEq, Eq, Structural)]
pub struct PricingConfig {
    pub base_per_token: u64,
    pub min_per_token: u64,
    pub max_per_token: u64,
    pub current_per_token: u64,
}

/// Declares when a provider can accept work.
#[derive(Debug)]
pub struct AvailabilityWindow {
    pub day_of_week: String,
    pub start_hour: u8,
    pub end_hour: u8,
}

impl Clone for AvailabilityWindow {
    fn clone(&self) -> (r: Self)
        ensures
            r == *self,
    {
        AvailabilityWindow {
            day_of_week: self.day_of_week.clone(),
            start_hour: self.start_hour,
            end_hour: self.end_hour,
        }
    }
}

/// A model profile served by a provider or node.
#[derive(Debug)]
pub struct ModelProfile {
    pub model_id: String,
    pub quant: String,
    pub max_ctx: u64,
    pub vram_req_gb: u64,
    pub throughput_tok_s: u64,
}

impl Clone for ModelProfile {
    fn clone(&self) -> (r: Self)
        ensures
            r == *self,
    {
        ModelProfile {
            model_id: self.model_id.clone(),
            quant: self.quant.clone(),
            max_ctx: self.max_ctx,
            vram_req_gb: self.vram_req_gb,
            throughput_tok_s: self.throughput_tok_s,
        }
    }
}

/// Registered GPU provider metadata.
#[derive(Debug)]
pub struct Provider {
    pub id: String,
    pub owner: String,
    pub endpoint: String,
    pub region: String,
    pub gpu_model: String,
    pub vram_gb: u64,
    pub bandwidth_gbps: u64,
    pub cuda: bool,
    pub rocm: bool,
    pub reputation: u64,
    /// Stake boost (double-precision bit pattern).
    pub stake_boost: u64,
    pub low_tier_discount_bps: u64,
    pub pricing: PricingConfig,
    pub availability: Vec<AvailabilityWindow>,
    pub model_profiles: Vec<ModelProfile>,
    pub last_heartbeat: Option<u64>,
    /// Normalized throughput score used for scheduling (double-precision bit pattern).
    pub throughput_score: u64,
}

/// `b` holds what `a` holds: the same fields, its lists with the same items.
pub open spec fn provider_copy(a: Provider, b: Provider) -> bool {
    &&& b == Provider { availability: b.availability, model_profiles: b.model_profiles, ..a }
    &&& b.availability@ == a.availability@
    &&& b.model_profiles@ == a.model_profiles@
}

impl Clone for Provider {
    fn clone(&self) -> (r: Self)
        ensures
            provider_copy(*self, r),
    {
        let availability = self.availability.clone();
        let model_profiles = self.model_profiles.clone();
        proof {
            assert forall|i: int| 0 <= i < availability@.len() implies availability@[i]
                == self.availability@[i] by {
                assert(cloned::<AvailabilityWindow>(self.availability@[i], availability@[i]));
            }
            assert(availability@ =~= self.availability@);
            assert forall|i: int| 0 <= i < model_profiles@.len() implies model_profiles@[i]
                == self.model_profiles@[i] by {
                assert(cloned::<ModelProfile>(self.model_profiles@[i], model_profiles@[i]));
            }
            assert(model_profiles@ =~= self.model_profiles@);
        }
        Provider {
            id: self.id.clone(),
            owner: self.owner.clone(),
            endpoint: self.endpoint.clone(),
            region: self.region.clone(),
            gpu_model: self.gpu_model.clone(),
            vram_gb: self.vram_gb,
            bandwidth_gbps: self.bandwidth_gbps,
            cuda: self.cuda,
            rocm: self.rocm,
            reputation: self.reputation,
            stake_boost: self.stake_boost,
            low_tier_discount_bps: self.low_tier_discount_bps,
            pricing: self.pricing,
            availability,
            model_profiles,
            last_heartbeat: self.last_heartbeat,
            throughput_score: self.throughput_score,
        }
    }
}

/// Static hardware capabilities reported by a node when registering.
#[derive(Debug)]
pub struct NodeHardware {
    pub cpu_model: String,
    pub cpu_cores: u32,
    pub cpu_threads: u32,
    pub memory_total_mb: u64,
    pub gpu_vendor: String,
    pub gpu_model: String,
    pub gpu_vram_mb: u64,
    pub os: String,
}

impl Clone for NodeHardware {
    fn clone(&self) -> (r: Self)
        ensures
            r == *self,
    {
        NodeHardware {
            cpu_model: self.cpu_model.clone(),
            cpu_cores: self.cpu_cores,
            cpu_threads: self.cpu_threads,
            memory_total_mb: self.memory_total_mb,
            gpu_vendor: self.gpu_vendor.clone(),
            gpu_model: self.gpu_model.clone(),
            gpu_vram_mb: self.gpu_vram_mb,
            os: self.os.clone(),
        }
    }
}

/// Most recent runtime metrics reported by a node (rates, loads and
/// percentages as single-precision bit patterns).
#[derive(Debug, Clone, Copy, PartialEq, Eq, Structural)]
pub struct NodeMetrics {
    pub timestamp: u64,
    pub cpu_usage_pct: u32,
    pub memory_usage_pct: u32,
    pub gpu_usage_pct: u32,
    pub machine_load_one: u32,
    pub machine_load_five: u32,
    pub machine_load_fifteen: u32,
    pub disk_usage_pct: u32,
    pub disk_read_mbps: u32,
    pub disk_write_mbps: u32,
    pub network_rx_mbps: u32,
    pub network_tx_mbps: u32,
    pub gpu_memory_used_mb: u64,
    pub gpu_memory_total_mb: u64,
}

/// Registered node metadata.
#[derive(Debug)]
pub struct Node {
    pub id: String,
    pub owner: String,
    pub region: String,
    pub llm_profile: ModelProfile,
    pub online: bool,
    pub reputation: u64,
    pub registered_at: u64,
    pub fingerprint: String,
    pub hardware: NodeHardware,
    pub metrics: NodeMetrics,
    pub task_slots_granted: u64,
    pub task_segments_completed: u64,
    /// Decentralization weight (double-precision bit pattern).
    pub decentralization_weight: u64,
    pub role: NodeRole,
    pub scheduler_jobs_executed: u64,
    pub assignment_jobs_generated: u64,
    pub total_rewards: u64,
    pub last_reward_at: u64,
}

impl Clone for Node {
    fn clone(&self) -> (r: Self)
        ensures
            r == *self,
    {
        Node {
            id: self.id.clone(),
            owner: self.owner.clone(),
            region: self.region.clone(),
            llm_profile: self.llm_profile.clone(),
            online: self.online,
            reputation: self.reputation,
            registered_at: self.registered_at,
            fingerprint: self.fingerprint.clone(),
            hardware: self.hardware.clone(),
            metrics: self.metrics,
            task_slots_granted: self.task_slots_granted,
            task_segments_completed: self.task_segments_completed,
            decentralization_weight: self.decentralization_weight,
            role: self.role,
            scheduler_jobs_executed: self.scheduler_jobs_executed,
            assignment_jobs_generated: self.assignment_jobs_generated,
            total_rewards: self.total_rewards,
            last_reward_at: self.last_reward_at,
        }
    }
}

/// The outcome of one segment of a task.
#[derive(Debug)]
pub struct TaskSegment {
    pub segment_id: String,
    pub provider_id: String,
    pub tokens: u64,
    pub latency_ms: u64,
    pub reward: u64,
    pub submitted_at: u64,
}

impl Clone for TaskSegment {
    fn clone(&self) -> (r: Self)
        ensures
            r == *self,
    {
        TaskSegment {
            segment_id: self.segment_id.clone(),
            provider_id: self.provider_id.clone(),
            tokens: self.tokens,
            latency_ms: self.latency_ms,
            reward: self.reward,
            submitted_at: self.submitted_at,
        }
    }
}

/// A node's chat response captured for aggregation.
#[derive(Debug)]
pub struct ChatResponse {
    pub provider_id: String,
    pub node_id: Option<String>,
    pub segment_id: String,
    pub latency_ms: u64,
    pub tokens: u64,
    pub response_fragment: String,
    pub submitted_at: u64,
}

impl Clone for ChatResponse {
    fn clone(&self) -> (r: Self)
        ensures
            r == *self,
    {
        ChatResponse {
            provider_id: self.provider_id.clone(),
            node_id: self.node_id.clone(),
            segment_id: self.segment_id.clone(),
            latency_ms: self.latency_ms,
            tokens: self.tokens,
            response_fragment: self.response_fragment.clone(),
            submitted_at: self.submitted_at,
        }
    }
}

/// Task lifecycle state.
#[derive(Debug)]
pub struct Task {
    pub id: String,
    pub owner: String,
    pub content_hash: String,
    pub total_tokens: u64,
    pub target_profile: ModelProfile,
    pub requested_providers: Vec<String>,
    pub segments: Vec<TaskSegment>,
    pub created_at: u64,
    pub completed: bool,
    pub winning_provider: Option<String>,
    pub preferred_region: Option<String>,
    /// Providers recommended by the adaptive scheduler.
    pub scheduled: Vec<ScheduledProvider>,
    pub mode: TaskMode,
    pub chat_prompt: Option<String>,
    pub chat_responses: Vec<ChatResponse>,
    pub chat_aggregate: Option<String>,
    pub assignment_node_id: Option<String>,
    pub scheduler_node_id: Option<String>,
}

/// `b` holds what `a` holds: the same fields, its lists with the same items.
pub open spec fn task_copy(a: Task, b: Task) -> bool {
    &&& b == Task {
        requested_providers: b.requested_providers,
        segments: b.segments,
        scheduled: b.scheduled,
        chat_responses: b.chat_responses,
        ..a
    }
    &&& b.requested_providers@ == a.requested_providers@
    &&& b.segments@ == a.segments@
    &&& b.scheduled@ == a.scheduled@
    &&& b.chat_responses@ == a.chat_responses@
}

impl Clone for Task {
    fn clone(&self) -> (r: Self)
        ensures
            task_copy(*self, r),
    {
        let requested_providers = self.requested_providers.clone();
        let segments = self.segments.clone();
        let scheduled = self.scheduled.clone();
        let chat_responses = self.chat_responses.clone();
        proof {
            assert forall|i: int| 0 <= i < requested_providers@.len() implies requested_providers@[i]
                == self.requested_providers@[i] by {
                assert(cloned::<String>(self.requested_providers@[i], requested_providers@[i]));
            }
            assert(requested_providers@ =~= self.requested_providers@);
            assert forall|i: int| 0 <= i < segments@.len() implies segments@[i]
                == self.segments@[i] by {
                assert(cloned::<TaskSegment>(self.segments@[i], segments@[i]));
            }
            assert(segments@ =~= self.segments@);
            assert forall|i: int| 0 <= i < scheduled@.len() implies scheduled@[i]
                == self.scheduled@[i] by {
                assert(cloned::<ScheduledProvider>(self.scheduled@[i], scheduled@[i]));
            }
            assert(scheduled@ =~= self.scheduled@);
            assert forall|i: int| 0 <= i < chat_responses@.len() implies chat_responses@[i]
                == self.chat_responses@[i] by {
                assert(cloned::<ChatResponse>(self.chat_responses@[i], chat_responses@[i]));
            }
            assert(chat_responses@ =~= self.chat_responses@);
        }
        Task {
            id: self.id.clone(),
            owner: self.owner.clone(),
            content_hash: self.content_hash.clone(),
            total_tokens: self.total_tokens,
            target_profile: self.target_profile.clone(),
            requested_providers,
            segments,
            created_at: self.created_at,
            completed: self.completed,
            winning_provider: self.winning_provider.clone(),
            preferred_region: self.preferred_region.clone(),
            scheduled,
            mode: self.mode,
            chat_prompt: self.chat_prompt.clone(),
            chat_responses,
            chat_aggregate: self.chat_aggregate.clone(),
            assignment_node_id: self.assignment_node_id.clone(),
            scheduler_node_id: self.scheduler_node_id.clone(),
        }
    }
}

/// Scheduler output for a provider.
#[derive(Debug)]
pub struct ScheduledProvider {
    pub provider_id: String,
    /// Scheduler score (double-precision bit pattern).
    pub score: u64,
    pub expected_latency_ms: u64,
    pub max_tokens_per_sec: u64,
}

impl Clone for ScheduledProvider {
    fn clone(&self) -> (r: Self)
        ensures
            r == *self,
    {
        ScheduledProvider {
            provider_id: self.provider_id.clone(),
            score: self.score,
            expected_latency_ms: self.expected_latency_ms,
            max_tokens_per_sec: self.max_tokens_per_sec,
        }
    }
}

/// Treasury balances and parameters.
#[derive(Debug)]
pub struct Treasury {
    pub aia_balance: u64,
    pub work_balance: u64,
    pub stor_balance: u64,
    pub fee_bps: u64,
    pub reward_bps: u64,
    pub low_tier_discount_bps: u64,
    pub gas_collected: u64,
    /// Treasury holdings of custom tokens, by canonical symbol.
    pub custom_tokens: Table<u64>,
}

/// What the treasury holds, as plain values.
pub struct TreasuryView {
    pub aia: u64,
    pub work: u64,
    pub stor: u64,
    pub fee_bps: u64,
    pub reward_bps: u64,
    pub low_tier_discount_bps: u64,
    pub gas_collected: u64,
    pub custom: Map<Seq<char>, u64>,
}

impl View for Treasury {
    type V = TreasuryView;

    open spec fn view(&self) -> TreasuryView {
        TreasuryView {
            aia: self.aia_balance,
            work: self.work_balance,
            stor: self.stor_balance,
            fee_bps: self.fee_bps,
            reward_bps: self.reward_bps,
            low_tier_discount_bps: self.low_tier_discount_bps,
            gas_collected: self.gas_collected,
            custom: self.custom_tokens@,
        }
    }
}

impl Treasury {
    pub open spec fn wf(&self) -> bool {
        self.custom_tokens.wf()
    }

}

impl Default for Treasury {
    /// An empty treasury with the default fee, reward and discount rates.
    fn default() -> (t: Treasury)
        ensures
            t.aia_balance == 0,
            t.work_balance == 0,
            t.stor_balance == 0,
            t.fee_bps == 500,
            t.reward_bps == 200,
            t.low_tier_discount_bps == 1000,
            t.gas_collected == 0,
            t.custom_tokens@ == Map::<Seq<char>, u64>::empty(),
            t.wf(),
    {
        Treasury {
            aia_balance: 0,
            work_balance: 0,
            stor_balance: 0,
            fee_bps: 500,
            reward_bps: 200,
            low_tier_discount_bps: 1000,
            gas_collected: 0,
            custom_tokens: Table::new(),
        }
    }
}

impl Treasury {
    /// A treasury with the given balances and the default rates.
    pub fn with_balances(aia: u64, work: u64, stor: u64) -> (t: Treasury)
        ensures
            t.aia_balance == aia,
            t.work_balance == work,
            t.stor_balance == stor,
            t.fee_bps == 500,
            t.reward_bps == 200,
            t.low_tier_discount_bps == 1000,
            t.gas_collected == 0,
            t.custom_tokens@ == Map::<Seq<char>, u64>::empty(),
            t.wf(),
    {
        let base = Treasury::default();
        Treasury { aia_balance: aia, work_balance: work, stor_balance: stor, gas_collected: 0, ..base }
    }
}

/// Proof emitted by providers to take part in task-proof consensus.
#[derive(Debug)]
pub struct TaskProof {
    pub round: u64,
    pub task_id: String,
    pub segment_id: String,
    pub provider_id: String,
    pub latency_ms: u64,
    pub throughput_tok_s: u64,
    pub tokens_processed: u64,
    pub region: String,
    pub signature: String,
    pub node_id: Option<String>,
    pub output_digest: Option<String>,
    pub chat_response: Option<String>,
}

impl Clone for TaskProof {
    fn clone(&self) -> (r: Self)
        ensures
            r == *self,
    {
        TaskProof {
            round: self.round,
            task_id: self.task_id.clone(),
            segment_id: self.segment_id.clone(),
            provider_id: self.provider_id.clone(),
            latency_ms: self.latency_ms,
            throughput_tok_s: self.throughput_tok_s,
            tokens_processed: self.tokens_processed,
            region: self.region.clone(),
            signature: self.signature.clone(),
            node_id: self.node_id.clone(),
            output_digest: self.output_digest.clone(),
            chat_response: self.chat_response.clone(),
        }
    }
}

/// Aggregate metrics for the network's scalability targets.
#[derive(Debug, Clone, Copy, PartialEq, Eq, Structural)]
pub struct NetworkCapacity {
    pub consensus_round: u64,
    pub tokens_processed: u128,
    pub target_tokens_per_sec: u64,
    pub max_parallel_nodes: u64,
    pub peak_observed_tokens_per_sec: u64,
    pub total_task_slots: u128,
    /// Average granted task slots per online compute node (double-precision bit pattern).
    pub average_tasks_per_node: u64,
}

impl Default for NetworkCapacity {
    /// The initial capacity record.
    fn default() -> (c: NetworkCapacity)
        ensures
            c.consensus_round == 0,
            c.tokens_processed == 0,
            c.target_tokens_per_sec == 10_000_000,
            c.max_parallel_nodes == 100_000_000,
            c.peak_observed_tokens_per_sec == 0,
            c.total_task_slots == 0,
            c.average_tasks_per_node == 0,
    {
        NetworkCapacity {
            consensus_round: 0,
            tokens_processed: 0,
            target_tokens_per_sec: 10_000_000,
            max_parallel_nodes: 100_000_000,
            peak_observed_tokens_per_sec: 0,
            total_task_slots: 0,
            average_tasks_per_node: 0,
        }
    }
}

/// A committed block.
#[derive(Debug)]
pub struct Block {
    pub height: u64,
    pub timestamp: u64,
    pub transactions: Vec<Transaction>,
}

/// Two blocks carry the same data.
pub open spec fn block_eqv(a: Block, b: Block) -> bool {
    &&& a.height == b.height
    &&& a.timestamp == b.timestamp
    &&& a.transactions@.len() == b.transactions@.len()
    &&& forall|i: int|
        0 <= i < a.transactions@.len() ==> tx_eqv(#[trigger] a.transactions@[i], b.transactions@[i])
}

/// Clones a list of transactions.
pub fn clone_transactions(v: &Vec<Transaction>) -> (r: Vec<Transaction>)
    ensures
        r@.len() == v@.len(),
        forall|i: int| 0 <= i < v@.len() ==> tx_eqv(#[trigger] v@[i], r@[i]),
{
    let mut r: Vec<Transaction> = Vec::new();
    let mut i: usize = 0;
    while i < v.len()
        invariant
            i <= v@.len(),
            r@.len() == i,
            forall|j: int| 0 <= j < i ==> tx_eqv(#[trigger] v@[j], r@[j]),
        decreases v@.len() - i,
    {
        r.push(v[i].clone());
        i = i + 1;
    }
    r
}

impl Clone for Block {
    fn clone(&self) -> (r: Self)
        ensures
            block_eqv(*self, r),
    {
        Block {
            height: self.height,
            timestamp: self.timestamp,
            transactions: clone_transactions(&self.transactions),
        }
    }
}

/// Definition of a custom token.
#[derive(Debug)]
pub struct TokenDefinition {
    pub symbol: String,
    pub name: String,
    pub decimals: u8,
    pub total_supply: u128,
    pub owner: String,
    pub platform: bool,
    pub created_at: u64,
    pub contract_id: Option<String>,
}

impl Clone for TokenDefinition {
    fn clone(&self) -> (r: Self)
        ensures
            r == *self,
    {
        TokenDefinition {
            symbol: self.symbol.clone(),
            name: self.name.clone(),
            decimals: self.decimals,
            total_supply: self.total_supply,
            owner: self.owner.clone(),
            platform: self.platform,
            created_at: self.created_at,
            contract_id: self.contract_id.clone(),
        }
    }
}

/// A deployed smart contract.
#[derive(Debug)]
pub struct SmartContract {
    pub id: String,
    pub owner: String,
    pub name: String,
    pub code: String,
    pub code_hash: String,
    pub metadata: Option<String>,
    pub deployed_at: u64,
    pub runtime: ContractRuntime,
    pub program_id: Option<String>,
    pub bytecode_b64: Option<String>,
}

impl Clone for SmartContract {
    fn clone(&self) -> (r: Self)
        ensures
            r == *self,
    {
        SmartContract {
            id: self.id.clone(),
            owner: self.owner.clone(),
            name: self.name.clone(),
            code: self.code.clone(),
            code_hash: self.code_hash.clone(),
            metadata: self.metadata.clone(),
            deployed_at: self.deployed_at,
            runtime: self.runtime,
            program_id: self.program_id.clone(),
            bytecode_b64: self.bytecode_b64.clone(),
        }
    }
}

/// A recorded contract call; `payload` is compact JSON text.
#[derive(Debug)]
pub struct ContractEvent {
    pub id: String,
    pub contract_id: String,
    pub caller: String,
    pub method: String,
    pub payload: String,
    pub payload_hash: String,
    pub timestamp: u64,
}

impl Clone for ContractEvent {
    fn clone(&self) -> (r: Self)
        ensures
            r == *self,
    {
        ContractEvent {
            id: self.id.clone(),
            contract_id: self.contract_id.clone(),
            caller: self.caller.clone(),
            method: self.method.clone(),
            payload: self.payload.clone(),
            payload_hash: self.payload_hash.clone(),
            timestamp: self.timestamp,
        }
    }
}

/// Persistent on-chain state.
#[derive(Debug)]
pub struct LedgerState {
    pub accounts: Table<Account>,
    pub providers: Table<Provider>,
    pub nodes: Table<Node>,
    pub tasks: Table<Task>,
    pub blocks: Vec<Block>,
    pub treasury: Treasury,
    pub next_task_id: u64,
    pub next_node_id: u64,
    pub pending_task_proofs: Vec<TaskProof>,
    pub network_capacity: NetworkCapacity,
    pub token_definitions: Table<TokenDefinition>,
    pub contracts: Table<SmartContract>,
    pub contract_events: Vec<ContractEvent>,
    /// Symbols of the platform tokens (the values carry nothing).
    pub platform_tokens: Table<()>,
    pub next_contract_id: u64,
}

/// `b` holds what `a` holds: the same balances, the same records under the
/// same keys (providers and tasks with lists of the same items, blocks with
/// the same data), the same counters and parameters.
pub open spec fn state_copy(a: LedgerState, b: LedgerState) -> bool {
    &&& forall|k: Seq<char>| #[trigger]
        b.accounts@.contains_key(k) ==> b.accounts@[k]@ == a.accounts@[k]@
    &&& b.accounts@.dom() == a.accounts@.dom()
    &&& b.providers@.dom() == a.providers@.dom()
    &&& forall|k: Seq<char>| #[trigger]
        b.providers@.contains_key(k) ==> provider_copy(a.providers@[k], b.providers@[k])
    &&& b.nodes@ == a.nodes@
    &&& b.tasks@.dom() == a.tasks@.dom()
    &&& forall|k: Seq<char>| #[trigger]
        b.tasks@.contains_key(k) ==> task_copy(a.tasks@[k], b.tasks@[k])
    &&& b.blocks@.len() == a.blocks@.len()
    &&& forall|i: int| 0 <= i < a.blocks@.len() ==> block_eqv(#[trigger] a.blocks@[i], b.blocks@[i])
    &&& b.treasury@ == a.treasury@
    &&& b.next_task_id == a.next_task_id
    &&& b.next_node_id == a.next_node_id
    &&& b.pending_task_proofs@ == a.pending_task_proofs@
    &&& b.network_capacity == a.network_capacity
    &&& b.token_definitions@ == a.token_definitions@
    &&& b.contracts@ == a.contracts@
    &&& b.contract_events@ == a.contract_events@
    &&& b.platform_tokens@.dom() == a.platform_tokens@.dom()
    &&& b.next_contract_id == a.next_contract_id
}

impl Clone for Treasury {
    fn clone(&self) -> (r: Self)
        ensures
            r@ == self@,
            self.wf() ==> r.wf(),
    {
        let custom_tokens = self.custom_tokens.clone();
        proof {
            assert forall|i: int| 0 <= i < custom_tokens.value_seq().len() implies custom_tokens.value_seq()[i]
                == self.custom_tokens.value_seq()[i] by {
                assert(cloned::<u64>(self.custom_tokens.value_seq()[i], custom_tokens.value_seq()[i]));
            }
            assert(custom_tokens.value_seq() =~= self.custom_tokens.value_seq());
            assert(custom_tokens@ =~= self.custom_tokens@);
        }
        Treasury {
            aia_balance: self.aia_balance,
            work_balance: self.work_balance,
            stor_balance: self.stor_balance,
            fee_bps: self.fee_bps,
            reward_bps: self.reward_bps,
            low_tier_discount_bps: self.low_tier_discount_bps,
            gas_collected: self.gas_collected,
            custom_tokens,
        }
    }
}

impl Clone for LedgerState {
    fn clone(&self) -> (r: Self)
        ensures
            self.wf() ==> state_copy(*self, r) && r.wf(),
    {
        let accounts = self.accounts.clone();
        let providers = self.providers.clone();
        let nodes = self.nodes.clone();
        let tasks = self.tasks.clone();
        let token_definitions = self.token_definitions.clone();
        let contracts = self.contracts.clone();
        let platform_tokens = self.platform_tokens.clone();
        let pending = self.pending_task_proofs.clone();
        let events = self.contract_events.clone();
        let mut blocks: Vec<Block> = Vec::new();
        let n = self.blocks.len();
        let mut i: usize = 0;
        while i < n
            invariant
                n == self.blocks@.len(),
                i <= n,
                blocks@.len() == i,
                forall|j: int| 0 <= j < i ==> block_eqv(#[trigger] self.blocks@[j], blocks@[j]),
            decreases n - i,
        {
            blocks.push(self.blocks[i].clone());
            i = i + 1;
        }
        proof {
            assert forall|j: int| 0 <= j < pending@.len() implies pending@[j] == self.pending_task_proofs@[j] by {
                assert(cloned::<TaskProof>(self.pending_task_proofs@[j], pending@[j]));
            }
            assert(pending@ =~= self.pending_task_proofs@);
            assert forall|j: int| 0 <= j < events@.len() implies events@[j] == self.contract_events@[j] by {
                assert(cloned::<ContractEvent>(self.contract_events@[j], events@[j]));
            }
            assert(events@ =~= self.contract_events@);
            if self.wf() {
                self.accounts.lemma_lengths();
                self.providers.lemma_lengths();
                self.nodes.lemma_lengths();
                self.tasks.lemma_lengths();
                self.token_definitions.lemma_lengths();
                self.contracts.lemma_lengths();
                self.platform_tokens.lemma_lengths();
                Table::lemma_same_keys(&self.accounts, &accounts);
                Table::lemma_same_keys(&self.providers, &providers);
                Table::lemma_same_keys(&self.nodes, &nodes);
                Table::lemma_same_keys(&self.tasks, &tasks);
                Table::lemma_same_keys(&self.token_definitions, &token_definitions);
                Table::lemma_same_keys(&self.contracts, &contracts);
                Table::lemma_same_keys(&self.platform_tokens, &platform_tokens);
                assert forall|k: Seq<char>| #[trigger] accounts@.contains_key(k) implies accounts@[k]@
                    == self.accounts@[k]@ && accounts@[k].wf() by {
                    let j = self.accounts.key_seq().index_of(k);
                    assert(cloned::<Account>(self.accounts.value_seq()[j], accounts.value_seq()[j]));
                    assert(self.accounts@.contains_key(k));
                }
                assert forall|k: Seq<char>| #[trigger] providers@.contains_key(k) implies provider_copy(
                    self.providers@[k],
                    providers@[k],
                ) by {
                    let j = self.providers.key_seq().index_of(k);
                    assert(cloned::<Provider>(self.providers.value_seq()[j], providers.value_seq()[j]));
                }
                assert forall|k: Seq<char>| #[trigger] tasks@.contains_key(k) implies task_copy(
                    self.tasks@[k],
                    tasks@[k],
                ) by {
                    let j = self.tasks.key_seq().index_of(k);
                    assert(cloned::<Task>(self.tasks.value_seq()[j], tasks.value_seq()[j]));
                }
                assert forall|k: Seq<char>| #[trigger] nodes@.contains_key(k) implies nodes@[k]
                    == self.nodes@[k] by {
                    let j = self.nodes.key_seq().index_of(k);
                    assert(cloned::<Node>(self.nodes.value_seq()[j], nodes.value_seq()[j]));
                }
                assert(nodes@ =~= self.nodes@);
                assert forall|k: Seq<char>| #[trigger] token_definitions@.contains_key(k) implies token_definitions@[k]
                    == self.token_definitions@[k] by {
                    let j = self.token_definitions.key_seq().index_of(k);
                    assert(cloned::<TokenDefinition>(self.token_definitions.value_seq()[j], token_definitions.value_seq()[j]));
                }
                assert(token_definitions@ =~= self.token_definitions@);
                assert forall|k: Seq<char>| #[trigger] contracts@.contains_key(k) implies contracts@[k]
                    == self.contracts@[k] by {
                    let j = self.contracts.key_seq().index_of(k);
                    assert(cloned::<SmartContract>(self.contracts.value_seq()[j], contracts.value_seq()[j]));
                }
                assert(contracts@ =~= self.contracts@);
            }
        }
        LedgerState {
            accounts,
            providers,
            nodes,
            tasks,
            blocks,
            treasury: self.treasury.clone(),
            next_task_id: self.next_task_id,
            next_node_id: self.next_node_id,
            pending_task_proofs: pending,
            network_capacity: self.network_capacity,
            token_definitions,
            contracts,
            contract_events: events,
            platform_tokens,
            next_contract_id: self.next_contract_id,
        }
    }
}

/// The first node number handed out.
pub fn default_next_node_id() -> (n: u64)
    ensures
        n == 1,
{
    1
}

impl LedgerState {
    /// Every table of the state is well formed, and every account's
    /// custom balances too.
    pub open spec fn wf(&self) -> bool {
        &&& self.accounts.wf()
        &&& forall|k: Seq<char>| #[trigger]
            self.accounts@.contains_key(k) ==> self.accounts@[k].wf()
        &&& self.providers.wf()
        &&& self.nodes.wf()
        &&& self.tasks.wf()
        &&& self.treasury.wf()
        &&& self.token_definitions.wf()
        &&& self.contracts.wf()
        &&& self.platform_tokens.wf()
    }

}

impl Default for LedgerState {
    /// An empty ledger: no records, counters at one, default treasury.
    fn default() -> (s: LedgerState)
        ensures
            s.wf(),
            s.accounts@ == Map::<Seq<char>, Account>::empty(),
            s.providers@ == Map::<Seq<char>, Provider>::empty(),
            s.nodes@ == Map::<Seq<char>, Node>::empty(),
            s.tasks@ == Map::<Seq<char>, Task>::empty(),
            s.blocks@ == Seq::<Block>::empty(),
            s.next_task_id == 1,
            s.next_node_id == 1,
            s.pending_task_proofs@ == Seq::<TaskProof>::empty(),
            s.network_capacity.consensus_round == 0,
            s.network_capacity.tokens_processed == 0,
            s.network_capacity.target_tokens_per_sec == 10_000_000,
            s.network_capacity.max_parallel_nodes == 100_000_000,
            s.network_capacity.peak_observed_tokens_per_sec == 0,
            s.network_capacity.total_task_slots == 0,
            s.network_capacity.average_tasks_per_node == 0,
            s.token_definitions@ == Map::<Seq<char>, TokenDefinition>::empty(),
            s.contracts@ == Map::<Seq<char>, SmartContract>::empty(),
            s.contract_events@ == Seq::<ContractEvent>::empty(),
            s.platform_tokens@ == Map::<Seq<char>, ()>::empty(),
            s.next_contract_id == 1,
            s.treasury.aia_balance == 0,
            s.treasury.work_balance == 0,
            s.treasury.stor_balance == 0,
            s.treasury.fee_bps == 500,
            s.treasury.reward_bps == 200,
            s.treasury.low_tier_discount_bps == 1000,
            s.treasury.gas_collected == 0,
            s.treasury.custom_tokens@ == Map::<Seq<char>, u64>::empty(),
    {
        LedgerState {
            accounts: Table::new(),
            providers: Table::new(),
            nodes: Table::new(),
            tasks: Table::new(),
            blocks: Vec::new(),
            treasury: Treasury::default(),
            next_task_id: 1,
            next_node_id: default_next_node_id(),
            pending_task_proofs: Vec::new(),
            network_capacity: NetworkCapacity::default(),
            token_definitions: Table::new(),
            contracts: Table::new(),
            contract_events: Vec::new(),
            platform_tokens: Table::new(),
            next_contract_id: 1,
        }
    }
}

} // verus!
