use gpang_ledger::chat::{aggregate_chat_responses, truncate_chat_snippet};
use gpang_ledger::ledger::{ErrorCode, Followup, Ledger, LedgerError};
use gpang_ledger::parse::{parse_contract_runtime, parse_node_role, parse_task_mode, parse_token};
use gpang_ledger::registry::{derive_fingerprint, fingerprint_for, MIN_VALIDATOR_STAKE};
use gpang_ledger::requests::{prepare_deploy_request, prepare_task_mode};
use gpang_ledger::statement::zero_proof_statement;
use gpang_ledger::summary::NetworkSummary;
use gpang_ledger::types::{
    Account, ChatResponse, ContractRuntime, LedgerState, ModelProfile, Node, NodeHardware,
    NodeMetrics, NodeRole, PricingConfig, Provider, TaskMode, TaskProof, TokenKind, Transaction,
    TransactionKind,
};
use gpang_ledger::types::ZeroProof;
use gpang_ledger::zero_proof::{build_transaction, intrinsic_gas_cost, MIN_GAS_PRICE};

fn ledger() -> Ledger {
    Ledger::new(LedgerState::default())
}

fn tx(kind: TransactionKind, payer: &str) -> Transaction {
    build_transaction("tx-1".to_string(), 1_700_000_000, kind, Some(payer.to_string()), MIN_GAS_PRICE, None)
}

fn mint(to: &str, token: TokenKind, amount: u64) -> Transaction {
    tx(TransactionKind::Mint { to: to.to_string(), token, amount, reason: None }, to)
}

fn account<'a>(l: &'a Ledger, id: &str) -> &'a Account {
    l.state.accounts.get(id).expect("account")
}

fn message(e: &LedgerError) -> String {
    match e {
        LedgerError::InsufficientBalance(m)
        | LedgerError::AccountNotFound(m)
        | LedgerError::TaskNotFound(m)
        | LedgerError::ProviderNotFound(m)
        | LedgerError::NodeNotFound(m)
        | LedgerError::TokenNotFound(m)
        | LedgerError::ContractNotFound(m)
        | LedgerError::Forbidden(m)
        | LedgerError::InvalidTransaction(m) => m.clone(),
    }
}

fn profile() -> ModelProfile {
    ModelProfile {
        model_id: "qwen2.5-7b".to_string(),
        quant: "int4".to_string(),
        max_ctx: 8192,
        vram_req_gb: 12,
        throughput_tok_s: 220_000,
    }
}

fn provider(id: &str, owner: &str, price: u64) -> Provider {
    Provider {
        id: id.to_string(),
        owner: owner.to_string(),
        endpoint: "http://127.0.0.1:8080".to_string(),
        region: "AP-SEA".to_string(),
        gpu_model: "RTX 4090".to_string(),
        vram_gb: 24,
        bandwidth_gbps: 100,
        cuda: true,
        rocm: false,
        reputation: 10,
        stake_boost: 0,
        low_tier_discount_bps: 0,
        pricing: PricingConfig {
            base_per_token: price,
            min_per_token: 1,
            max_per_token: 100,
            current_per_token: price,
        },
        availability: Vec::new(),
        model_profiles: Vec::new(),
        last_heartbeat: None,
        throughput_score: 0,
    }
}

fn hardware() -> NodeHardware {
    NodeHardware {
        cpu_model: "EPYC".to_string(),
        cpu_cores: 8,
        cpu_threads: 16,
        memory_total_mb: 65_536,
        gpu_vendor: "NVIDIA".to_string(),
        gpu_model: "H100".to_string(),
        gpu_vram_mb: 80_000,
        os: "Linux".to_string(),
    }
}

fn metrics(timestamp: u64) -> NodeMetrics {
    NodeMetrics {
        timestamp,
        cpu_usage_pct: 0,
        memory_usage_pct: 0,
        gpu_usage_pct: 0,
        machine_load_one: 0,
        machine_load_five: 0,
        machine_load_fifteen: 0,
        disk_usage_pct: 0,
        disk_read_mbps: 0,
        disk_write_mbps: 0,
        network_rx_mbps: 0,
        network_tx_mbps: 0,
        gpu_memory_used_mb: 0,
        gpu_memory_total_mb: 0,
    }
}

fn node(owner: &str, role: NodeRole, fingerprint: &str) -> Node {
    Node {
        id: String::new(),
        owner: owner.to_string(),
        region: "AP-SEA".to_string(),
        llm_profile: profile(),
        online: true,
        reputation: 0,
        registered_at: 0,
        fingerprint: fingerprint.to_string(),
        hardware: hardware(),
        metrics: metrics(0),
        task_slots_granted: 7,
        task_segments_completed: 7,
        decentralization_weight: 0,
        role,
        scheduler_jobs_executed: 3,
        assignment_jobs_generated: 3,
        total_rewards: 99,
        last_reward_at: 5,
    }
}

fn task_proof(task: &str, segment: &str, provider: &str, latency: u64, node: Option<&str>, chat: Option<&str>) -> TaskProof {
    TaskProof {
        round: 1,
        task_id: task.to_string(),
        segment_id: segment.to_string(),
        provider_id: provider.to_string(),
        latency_ms: latency,
        throughput_tok_s: 250_000,
        tokens_processed: 100_000,
        region: "AP-SEA".to_string(),
        signature: "sig".to_string(),
        node_id: node.map(|n| n.to_string()),
        output_digest: None,
        chat_response: chat.map(|c| c.to_string()),
    }
}

fn submit(l: &mut Ledger, owner: &str, mode: TaskMode, now: u64) -> String {
    l.submit_task_at(
        owner.to_string(),
        "Qm123".to_string(),
        300_000,
        profile(),
        vec!["prov-a".to_string()],
        Some("ap-sea".to_string()),
        mode,
        None,
        now,
    )
}

#[test]
fn intrinsic_gas_matches_documented_costs() {
    let transfer = TransactionKind::Transfer {
        from: "a".to_string(),
        to: "b".to_string(),
        token: TokenKind::AIA,
        amount: 1,
        memo: None,
    };
    assert_eq!(intrinsic_gas_cost(&transfer), 25_000);
    let commit = TransactionKind::TaskProofCommit { proof: task_proof("t", "s", "p", 1, None, None) };
    assert_eq!(intrinsic_gas_cost(&commit), 55_000);
    let stake = TransactionKind::Stake { owner: "a".to_string(), amount: 1 };
    assert_eq!(intrinsic_gas_cost(&stake), 28_000);
}

#[test]
fn built_transaction_has_canonical_gas_and_valid_proof() {
    let t = tx(TransactionKind::Stake { owner: "alice".to_string(), amount: 5 }, "alice");
    assert_eq!(t.gas_limit, 28_000);
    assert_eq!(t.gas_used, 28_000);
    assert_eq!(t.gas_price, 1);
    let p = t.zero_proof.as_ref().expect("proof");
    assert_eq!(p.scheme, "gpang-zero-proof");
    assert!(p.verify());
    assert_eq!(p.digest.len(), 16);
    assert_eq!(p.digest, ZeroProof::hash(&p.scheme, &p.statement));
    let raised = build_transaction(
        "x".to_string(),
        0,
        TransactionKind::Stake { owner: "alice".to_string(), amount: 5 },
        None,
        0,
        Some(10),
    );
    assert_eq!(raised.gas_limit, 28_000);
    assert_eq!(raised.gas_price, 1);
    let kept = build_transaction(
        "x".to_string(),
        0,
        TransactionKind::Stake { owner: "alice".to_string(), amount: 5 },
        None,
        7,
        Some(90_000),
    );
    assert_eq!(kept.gas_limit, 90_000);
    assert_eq!(kept.gas_price, 7);
}

#[test]
fn statement_is_compact_sorted_json() {
    let kind = TransactionKind::Transfer {
        from: "alice".to_string(),
        to: "bob \"b\"".to_string(),
        token: TokenKind::WORK,
        amount: 42,
        memo: None,
    };
    let s = zero_proof_statement(&kind, &Some("alice".to_string()), 25_000, 1);
    assert_eq!(
        s,
        "{\"gas_limit\":25000,\"gas_payer\":\"alice\",\"gas_price\":1,\"kind\":{\"amount\":42,\"from\":\"alice\",\"memo\":null,\"to\":\"bob \\\"b\\\"\",\"token\":\"WORK\",\"type\":\"transfer\"}}"
    );
    let mut inner = serde_json::Map::new();
    inner.insert("type".to_string(), serde_json::Value::String("transfer".to_string()));
    inner.insert("token".to_string(), serde_json::Value::String("WORK".to_string()));
    inner.insert("to".to_string(), serde_json::Value::String("bob \"b\"".to_string()));
    inner.insert("memo".to_string(), serde_json::Value::Null);
    inner.insert("from".to_string(), serde_json::Value::String("alice".to_string()));
    inner.insert("amount".to_string(), serde_json::Value::from(42u64));
    let mut outer = serde_json::Map::new();
    outer.insert("kind".to_string(), serde_json::Value::Object(inner));
    outer.insert("gas_price".to_string(), serde_json::Value::from(1u64));
    outer.insert("gas_payer".to_string(), serde_json::Value::String("alice".to_string()));
    outer.insert("gas_limit".to_string(), serde_json::Value::from(25_000u64));
    let expected = serde_json::to_string(&serde_json::Value::Object(outer)).expect("json");
    assert_eq!(s, expected);
}

#[test]
fn mint_credits_and_charges_gas() {
    let mut l = ledger();
    l.apply_transaction(&mint("alice", TokenKind::AIA, 100_000)).expect("mint");
    let a = account(&l, "alice");
    assert_eq!(a.aia_balance, 100_000 - 21_000);
    assert_eq!(a.total_earnings, 100_000);
    assert_eq!(l.state.treasury.aia_balance, 21_000);
    assert_eq!(l.state.treasury.gas_collected, 21_000);
}

#[test]
fn transfer_moves_balance_and_conserves_total() {
    let mut l = ledger();
    l.apply_transaction(&mint("alice", TokenKind::WORK, 500)).ok();
    l.apply_transaction(&mint("alice", TokenKind::AIA, 100_000)).expect("mint");
    let before = account(&l, "alice").work_balance;
    let t = tx(
        TransactionKind::Transfer {
            from: "alice".to_string(),
            to: "bob".to_string(),
            token: TokenKind::WORK,
            amount: 200,
            memo: Some("rent".to_string()),
        },
        "alice",
    );
    l.apply_transaction(&t).expect("transfer");
    let alice = account(&l, "alice").work_balance;
    let bob = account(&l, "bob").work_balance;
    assert_eq!(bob, 200);
    assert_eq!(alice + bob, before);
}

#[test]
fn transfer_from_unknown_account_is_refused() {
    let mut l = ledger();
    let t = tx(
        TransactionKind::Transfer {
            from: "ghost".to_string(),
            to: "bob".to_string(),
            token: TokenKind::AIA,
            amount: 1,
            memo: None,
        },
        "ghost",
    );
    let e = l.apply_transaction(&t).unwrap_err();
    assert!(matches!(e, LedgerError::AccountNotFound(_)));
    assert_eq!(message(&e), "ghost");
    assert_eq!(e.code(), ErrorCode::AccountNotFound);
}

#[test]
fn insufficient_balance_names_token_and_account() {
    let mut l = ledger();
    l.apply_transaction(&mint("alice", TokenKind::AIA, 30_000)).expect("mint");
    let t = tx(
        TransactionKind::Burn { from: "alice".to_string(), token: TokenKind::STOR, amount: 1, reason: None },
        "alice",
    );
    let e = l.apply_transaction(&t).unwrap_err();
    assert!(matches!(e, LedgerError::InsufficientBalance(_)));
    assert_eq!(message(&e), "STOR for account alice");
}

#[test]
fn gas_shortfall_is_refused() {
    let mut l = ledger();
    let t = tx(TransactionKind::Mint { to: "bob".to_string(), token: TokenKind::WORK, amount: 5, reason: None }, "carol");
    let e = l.apply_transaction(&t).unwrap_err();
    assert_eq!(message(&e), "AIA for account carol");
}

#[test]
fn stake_moves_aia_into_stake() {
    let mut l = ledger();
    l.apply_transaction(&mint("alice", TokenKind::AIA, 200_000)).expect("mint");
    let before = account(&l, "alice").aia_balance;
    let t = tx(TransactionKind::Stake { owner: "alice".to_string(), amount: 50_000 }, "alice");
    l.apply_transaction(&t).expect("stake");
    let a = account(&l, "alice");
    assert_eq!(a.stake_balance, 50_000);
    assert_eq!(a.aia_balance + a.stake_balance + 28_000, before);
}

#[test]
fn tampered_transaction_is_refused() {
    let mut l = ledger();
    l.apply_transaction(&mint("alice", TokenKind::AIA, 100_000)).expect("mint");
    let mut t = tx(TransactionKind::Stake { owner: "alice".to_string(), amount: 10 }, "alice");
    t.kind = TransactionKind::Stake { owner: "alice".to_string(), amount: 11 };
    let e = l.apply_transaction(&t).unwrap_err();
    assert!(matches!(e, LedgerError::InvalidTransaction(_)));
    assert_eq!(message(&e), "zero proof verification failed");
    let mut u = tx(TransactionKind::Stake { owner: "alice".to_string(), amount: 10 }, "alice");
    u.zero_proof = None;
    assert_eq!(message(&l.apply_transaction(&u).unwrap_err()), "missing zero proof");
}

#[test]
fn payout_needs_treasury_funds() {
    let mut l = ledger();
    let t = tx(
        TransactionKind::Payout { to: "bob".to_string(), token: TokenKind::WORK, amount: 10, task_id: "t".to_string() },
        "bob",
    );
    let e = l.apply_transaction(&t).unwrap_err();
    assert_eq!(message(&e), "treasury has insufficient WORK");
}

#[test]
fn treasury_fee_is_five_percent_by_default() {
    let l = ledger();
    assert_eq!(l.calculate_treasury_fee(10_000), 500);
    assert_eq!(l.calculate_treasury_fee(19), 0);
}

#[test]
fn canonical_symbols_trim_and_upper_case() {
    assert_eq!(Ledger::canonical_symbol("  gpu-x "), "GPU-X");
    assert_eq!(Ledger::is_builtin_symbol("WORK"), Some(TokenKind::WORK));
    assert_eq!(Ledger::is_builtin_symbol("work"), None);
}

#[test]
fn commit_block_appends_one_block() {
    let mut l = ledger();
    let b = l.commit_block_at(vec![mint("alice", TokenKind::AIA, 100_000)], 77).expect("block");
    assert_eq!(b.height, 0);
    assert_eq!(b.timestamp, 77);
    assert_eq!(b.transactions.len(), 1);
    assert_eq!(l.state.blocks.len(), 1);
    let b2 = l.commit_block_at(Vec::new(), 78).expect("block");
    assert_eq!(b2.height, 1);
    assert_eq!(l.state.blocks.len(), 2);
}

#[test]
fn refused_transaction_stops_the_block() {
    let mut l = ledger();
    let bad = tx(
        TransactionKind::Burn { from: "nobody".to_string(), token: TokenKind::AIA, amount: 1, reason: None },
        "nobody",
    );
    let r = l.commit_block_at(vec![mint("alice", TokenKind::AIA, 100_000), bad], 5);
    assert!(matches!(r, Err(LedgerError::AccountNotFound(_))));
    assert_eq!(l.state.blocks.len(), 0);
    assert_eq!(account(&l, "alice").aia_balance, 79_000);
}

#[test]
fn validator_registration_needs_stake() {
    let mut l = ledger();
    let e = l.register_node_at(node("val", NodeRole::Validator, ""), 10).unwrap_err();
    assert!(matches!(e, LedgerError::AccountNotFound(_)));
    l.apply_transaction(&mint("val", TokenKind::AIA, 100_000)).expect("mint");
    let e = l.register_node_at(node("val", NodeRole::Validator, ""), 10).unwrap_err();
    assert!(matches!(e, LedgerError::Forbidden(_)));
    assert_eq!(message(&e), "validator nodes require at least 100000000 AIA staked");
    assert_eq!(MIN_VALIDATOR_STAKE, 100_000_000);
}

#[test]
fn node_registration_assigns_ids_and_resets_counters() {
    let mut l = ledger();
    let n1 = l.register_node_at(node("alice", NodeRole::Compute, ""), 1_000).expect("node");
    assert_eq!(n1.id, "node-1");
    assert_eq!(n1.registered_at, 1_000);
    assert_eq!(n1.metrics.timestamp, 1_000);
    assert_eq!(n1.task_slots_granted, 0);
    assert_eq!(n1.total_rewards, 0);
    assert_eq!(n1.last_reward_at, 0);
    assert_eq!(n1.fingerprint, fingerprint_for(&hardware(), "alice"));
    assert!(n1.fingerprint.starts_with("0x"));
    assert_eq!(n1.fingerprint.len(), 18);
    let n2 = l.register_node_at(node("bob", NodeRole::Compute, "0xmine"), 2_000).expect("node");
    assert_eq!(n2.id, "node-2");
    assert_eq!(n2.fingerprint, "0xmine");
    assert_eq!(l.state.next_node_id, 3);
    assert!(l.state.nodes.get("node-2").is_some());
    assert!(matches!(l.followups[0], Followup::RefreshNodeWeight { .. }));
    assert!(matches!(l.followups[1], Followup::RefreshAverageTasks));
}

#[test]
fn fingerprints_depend_on_owner() {
    assert_eq!(fingerprint_for(&hardware(), "alice"), fingerprint_for(&hardware(), "alice"));
    assert_ne!(fingerprint_for(&hardware(), "alice"), fingerprint_for(&hardware(), "bob"));
}

#[test]
fn submitted_tasks_are_numbered_and_queued_for_routing() {
    let mut l = ledger();
    let t1 = submit(&mut l, "alice", TaskMode::Batch, 9);
    let t2 = submit(&mut l, "alice", TaskMode::Chat, 10);
    assert_eq!(t1, "task-1");
    assert_eq!(t2, "task-2");
    let task = l.state.tasks.get("task-2").expect("task");
    assert_eq!(task.created_at, 10);
    assert_eq!(task.mode, TaskMode::Chat);
    assert!(!task.completed);
    assert!(matches!(&l.followups[1], Followup::RouteTask { task_id } if task_id == "task-2"));
}

#[test]
fn unknown_records_are_reported() {
    let mut l = ledger();
    assert!(matches!(l.heartbeat_provider_at("nope", 1), Err(LedgerError::ProviderNotFound(_))));
    assert!(matches!(l.update_node_status_at("nope", true, None, 1), Err(LedgerError::NodeNotFound(_))));
    assert!(matches!(l.set_provider_models("nope", Vec::new()), Err(LedgerError::ProviderNotFound(_))));
    assert!(matches!(l.record_task_proof(task_proof("t", "s", "p", 1, None, None)), Err(LedgerError::TaskNotFound(_))));
}

#[test]
fn node_status_stamps_reports_without_time() {
    let mut l = ledger();
    let n = l.register_node_at(node("alice", NodeRole::Compute, "fp"), 100).expect("node");
    l.update_node_status_at(&n.id, false, Some(metrics(0)), 555).expect("status");
    let stored = l.state.nodes.get(&n.id).expect("node");
    assert!(!stored.online);
    assert_eq!(stored.metrics.timestamp, 555);
    l.update_node_status_at(&n.id, true, Some(metrics(42)), 600).expect("status");
    assert_eq!(l.state.nodes.get(&n.id).expect("node").metrics.timestamp, 42);
}

#[test]
fn heartbeat_records_time() {
    let mut l = ledger();
    l.upsert_provider(provider("prov-a", "alice", 10));
    l.heartbeat_provider_at("prov-a", 1234).expect("heartbeat");
    assert_eq!(l.state.providers.get("prov-a").expect("provider").last_heartbeat, Some(1234));
}

#[test]
fn stale_task_proof_round_is_refused() {
    let mut l = ledger();
    l.upsert_provider(provider("prov-a", "alice", 10));
    let t = submit(&mut l, "alice", TaskMode::Batch, 1);
    l.state.network_capacity.consensus_round = 5;
    let mut p = task_proof(&t, "seg-1", "prov-a", 10, None, None);
    p.round = 4;
    let e = l.record_task_proof(p).unwrap_err();
    assert_eq!(message(&e), "stale task-proof round 4 < 5");
}

#[test]
fn recording_a_proof_replaces_the_same_slot() {
    let mut l = ledger();
    l.upsert_provider(provider("prov-a", "alice", 10));
    let t = submit(&mut l, "alice", TaskMode::Batch, 1);
    l.record_task_proof(task_proof(&t, "seg-1", "prov-a", 30, None, None)).expect("proof");
    l.record_task_proof(task_proof(&t, "seg-2", "prov-a", 20, None, None)).expect("proof");
    l.record_task_proof(task_proof(&t, "seg-1", "prov-a", 10, None, None)).expect("proof");
    assert_eq!(l.state.pending_task_proofs.len(), 2);
    assert_eq!(l.state.pending_task_proofs[0].segment_id, "seg-2");
    assert_eq!(l.state.pending_task_proofs[1].latency_ms, 10);
    assert_eq!(l.state.network_capacity.consensus_round, 1);
    assert_eq!(l.state.providers.get("prov-a").expect("p").reputation, 10 + 3 * 1);
}

#[test]
fn consensus_round_pays_the_fastest_proof() {
    let mut l = ledger();
    l.upsert_provider(provider("prov-a", "alice", 10));
    l.upsert_provider(provider("prov-b", "bob", 10));
    let n = l.register_node_at(node("bob", NodeRole::Compute, "fp"), 1).expect("node");
    let t = submit(&mut l, "carol", TaskMode::Batch, 1);
    l.record_task_proof(task_proof(&t, "seg-1", "prov-a", 300, None, None)).expect("proof");
    l.record_task_proof(task_proof(&t, "seg-2", "prov-b", 120, Some(&n.id), None)).expect("proof");
    l.record_task_proof(task_proof(&t, "seg-3", "prov-a", 120, None, None)).expect("proof");
    let winners = l.task_proof_winners();
    assert_eq!(winners.len(), 1);
    assert_eq!(winners[0].segment_id, "seg-2");
    let round = l.state.network_capacity.consensus_round;
    let out = l.collect_task_proof_certificates_at(&vec![1_000], 4242);
    assert_eq!(out.len(), 2);
    assert_eq!(out[0].id, format!("segment-{}-seg-2", t));
    assert_eq!(out[1].id, format!("payout-{}-prov-b", t));
    assert_eq!(out[0].gas_payer, Some("bob".to_string()));
    assert!(matches!(&out[1].kind, TransactionKind::Payout { amount: 1_000, token: TokenKind::AIA, .. }));
    assert!(l.state.pending_task_proofs.is_empty());
    assert_eq!(l.state.network_capacity.consensus_round, round + 1);
    let task = l.state.tasks.get(&t).expect("task");
    assert_eq!(task.winning_provider, Some("prov-b".to_string()));
    let stored = l.state.nodes.get(&n.id).expect("node");
    assert_eq!(stored.task_slots_granted, 1);
    assert_eq!(stored.total_rewards, 1_000);
    assert_eq!(stored.last_reward_at, 4242);
    assert_eq!(l.state.network_capacity.total_task_slots, 1);
    assert!(out.iter().all(|c| c.zero_proof.as_ref().map(|p| p.verify()).unwrap_or(false)));
}

#[test]
fn empty_round_changes_nothing() {
    let mut l = ledger();
    let out = l.collect_task_proof_certificates_at(&Vec::new(), 1);
    assert!(out.is_empty());
    assert_eq!(l.state.network_capacity.consensus_round, 0);
}

#[test]
fn chat_round_aggregates_answers() {
    let mut l = ledger();
    l.upsert_provider(provider("prov-a", "alice", 10));
    l.upsert_provider(provider("prov-b", "bob", 10));
    let t = submit(&mut l, "carol", TaskMode::Chat, 1);
    l.record_task_proof(task_proof(&t, "seg-1", "prov-a", 200, None, Some("  first answer "))).expect("p");
    l.record_task_proof(task_proof(&t, "seg-2", "prov-b", 100, None, Some("second"))).expect("p");
    l.record_task_proof(task_proof(&t, "seg-3", "prov-b", 50, None, Some("   "))).expect("p");
    let out = l.collect_task_proof_certificates_at(&vec![7], 99);
    assert_eq!(out.len(), 3);
    assert_eq!(out[0].id, format!("chat-result-{}-99", t));
    assert_eq!(out[0].gas_payer, Some("carol".to_string()));
    let task = l.state.tasks.get(&t).expect("task");
    assert!(task.completed);
    assert_eq!(task.chat_responses.len(), 2);
    assert_eq!(task.chat_responses[0].response_fragment, "first answer");
    assert_eq!(task.chat_responses[0].submitted_at, 99);
    let expected = "Aggregated 2 chat responses from 2 providers.\n1. [100 ms | 100000 tok | prov-b] second\n2. [200 ms | 100000 tok | prov-a] first answer";
    assert_eq!(task.chat_aggregate.as_deref(), Some(expected));
    match &out[0].kind {
        TransactionKind::ChatResult { contributors, aggregate, .. } => {
            assert_eq!(contributors, &vec!["prov-a".to_string(), "prov-b".to_string()]);
            assert_eq!(aggregate, expected);
        }
        _ => panic!("expected a chat result"),
    }
    assert_eq!(task.winning_provider, Some("prov-b".to_string()));
}

#[test]
fn chat_summary_of_one_response() {
    let r = ChatResponse {
        provider_id: "p".to_string(),
        node_id: None,
        segment_id: "s".to_string(),
        latency_ms: 5,
        tokens: 6,
        response_fragment: "hi".to_string(),
        submitted_at: 0,
    };
    assert_eq!(aggregate_chat_responses(&vec![r]), "Aggregated 1 chat response from 1 provider.\n1. [5 ms | 6 tok | p] hi");
    assert_eq!(aggregate_chat_responses(&Vec::new()), "");
}

#[test]
fn long_snippets_are_cut() {
    let long = "a".repeat(300);
    let s = truncate_chat_snippet(&long);
    assert_eq!(s.chars().count(), 241);
    assert!(s.ends_with('…'));
    assert_eq!(truncate_chat_snippet("  short "), "short");
}

#[test]
fn block_rewards_go_to_stakers() {
    let mut state = LedgerState::default();
    state.treasury.aia_balance = 1_000_000;
    let mut l = Ledger::new(state);
    l.state.accounts.insert("a".to_string(), {
        let mut a = Account::new("a".to_string());
        a.stake_balance = 300;
        a
    });
    l.state.accounts.insert("b".to_string(), {
        let mut a = Account::new("b".to_string());
        a.stake_balance = 100;
        a
    });
    let payouts = l.distribute_block_rewards_at(8).expect("rewards");
    assert_eq!(payouts.len(), 2);
    assert!(matches!(&payouts[0].kind, TransactionKind::Payout { amount: 15_000, .. }));
    assert!(matches!(&payouts[1].kind, TransactionKind::Payout { amount: 5_000, .. }));
    assert_eq!(payouts[0].id, "block-reward-8-a");
    assert_eq!(l.state.treasury.aia_balance, 1_000_000 - 20_000);
}

#[test]
fn produced_block_holds_mempool_then_certificates() {
    let mut l = ledger();
    l.upsert_provider(provider("prov-a", "alice", 10));
    let t = submit(&mut l, "alice", TaskMode::Batch, 1);
    l.apply_transaction(&mint("alice", TokenKind::AIA, 1_000_000)).expect("mint");
    l.state.treasury.aia_balance = 10_000_000;
    l.record_task_proof(task_proof(&t, "seg-1", "prov-a", 10, None, None)).expect("p");
    let block = l.produce_block_at(vec![mint("dave", TokenKind::AIA, 50_000)], &vec![500], 60).expect("block");
    assert_eq!(block.transactions.len(), 3);
    assert_eq!(block.transactions[1].id, format!("segment-{}-seg-1", t));
    assert_eq!(block.timestamp, 60);
    assert_eq!(l.state.blocks.len(), 1);
}

#[test]
fn testnet_genesis_seeds_accounts_and_infrastructure() {
    let s = LedgerState::testnet_genesis(1_000);
    assert_eq!(s.accounts.get("foundation").expect("a").aia_balance, 1_000_000_000_000);
    assert_eq!(s.accounts.get("validator-1").expect("a").stake_balance, 100_000_000_000);
    assert_eq!(s.providers.get("prov-na").expect("p").low_tier_discount_bps, 250);
    assert_eq!(f64::from_bits(s.providers.get("prov-asia").expect("p").stake_boost), 1.25);
    assert_eq!(f64::from_bits(s.providers.get("prov-na").expect("p").throughput_score), 280_000.0);
    assert_eq!(f32::from_bits(s.nodes.get("node-alpha").expect("n").metrics.cpu_usage_pct), 12.5);
    assert_eq!(s.next_node_id, 3);
    assert_eq!(s.blocks.len(), 1);
    assert_eq!(s.treasury.aia_balance, 900_000_000_000);
    assert_eq!(s.network_capacity.peak_observed_tokens_per_sec, 6_400_000);
}

#[test]
fn summary_counts_online_nodes_by_role() {
    let s = LedgerState::testnet_genesis(5);
    let sum = NetworkSummary::of(&s);
    assert_eq!(sum.block_height, 1);
    assert_eq!(sum.active_providers, 2);
    assert_eq!(sum.validators_online, 2);
    assert_eq!(sum.compute_nodes_online, 0);
    assert_eq!(sum.active_nodes, 2);
    assert_eq!(sum.total_tasks, 0);
    assert_eq!(sum.min_validator_stake, 100_000_000);
}

#[test]
fn contracts_deploy_and_record_calls() {
    let mut l = ledger();
    l.apply_transaction(&mint("alice", TokenKind::AIA, 1_000_000)).expect("mint");
    let deploy = tx(
        TransactionKind::DeployContract {
            owner: "alice".to_string(),
            contract_id: None,
            name: "counter".to_string(),
            code: Some("fn main() {}".to_string()),
            metadata: None,
            runtime: ContractRuntime::Native,
            program_id: None,
            bytecode_b64: None,
        },
        "alice",
    );
    l.apply_transaction(&deploy).expect("deploy");
    assert_eq!(l.state.contracts.len(), 1);
    let id = l.state.contracts.key_at(0).clone();
    let call = tx(
        TransactionKind::ExecuteContract {
            contract_id: id.clone(),
            caller: "alice".to_string(),
            method: "inc".to_string(),
            payload: "{\"by\":1}".to_string(),
        },
        "alice",
    );
    l.apply_transaction(&call).expect("call");
    assert_eq!(l.state.contract_events.len(), 1);
    assert_eq!(l.state.contract_events[0].method, "inc");
    let missing = tx(
        TransactionKind::ExecuteContract {
            contract_id: "contract-999".to_string(),
            caller: "alice".to_string(),
            method: "inc".to_string(),
            payload: "null".to_string(),
        },
        "alice",
    );
    assert!(matches!(l.apply_transaction(&missing), Err(LedgerError::ContractNotFound(_))));
}

#[test]
fn custom_tokens_mint_and_transfer() {
    let mut l = ledger();
    l.apply_transaction(&mint("alice", TokenKind::AIA, 1_000_000)).expect("mint");
    let create = tx(
        TransactionKind::CreateToken {
            symbol: " gpu ".to_string(),
            name: "GPU credits".to_string(),
            decimals: 2,
            initial_supply: 1_000,
            owner: "alice".to_string(),
            platform: false,
            contract_id: None,
        },
        "alice",
    );
    l.apply_transaction(&create).expect("create");
    assert!(l.state.token_definitions.get("GPU").is_some());
    let send = tx(
        TransactionKind::TransferCustom {
            symbol: "gpu".to_string(),
            from: "alice".to_string(),
            to: "bob".to_string(),
            amount: 400,
        },
        "alice",
    );
    l.apply_transaction(&send).expect("transfer");
    assert_eq!(*account(&l, "bob").custom_tokens.get("GPU").expect("balance"), 400);
    let unknown = tx(
        TransactionKind::TransferCustom {
            symbol: "nope".to_string(),
            from: "alice".to_string(),
            to: "bob".to_string(),
            amount: 1,
        },
        "alice",
    );
    assert!(matches!(l.apply_transaction(&unknown), Err(LedgerError::TokenNotFound(_))));
    let forged = tx(
        TransactionKind::MintCustom {
            symbol: "GPU".to_string(),
            to: "mallory".to_string(),
            amount: 5,
            authority: "mallory".to_string(),
        },
        "alice",
    );
    assert!(matches!(l.apply_transaction(&forged), Err(LedgerError::Forbidden(_))));
}

#[test]
fn parsers_accept_documented_names() {
    assert_eq!(parse_token("aia"), Some(TokenKind::AIA));
    assert_eq!(parse_token("gold"), None);
    assert_eq!(parse_task_mode(" Chat ").ok(), Some(TaskMode::Chat));
    assert_eq!(parse_task_mode("throughput").ok(), Some(TaskMode::Batch));
    assert_eq!(parse_task_mode(" Other ").err(), Some("other".to_string()));
    assert_eq!(parse_node_role("validator"), Some(NodeRole::Validator));
    assert_eq!(parse_node_role("edge"), None);
    assert_eq!(parse_contract_runtime("SOLANA"), Some(ContractRuntime::Solana));
}

#[test]
fn payout_moves_value_from_treasury() {
    let mut l = ledger();
    l.apply_transaction(&mint("bob", TokenKind::AIA, 100_000)).expect("mint");
    l.state.treasury.work_balance = 1_000;
    let before = l.state.treasury.work_balance + account(&l, "bob").work_balance;
    let t = tx(
        TransactionKind::Payout { to: "bob".to_string(), token: TokenKind::WORK, amount: 300, task_id: "t".to_string() },
        "bob",
    );
    l.apply_transaction(&t).expect("payout");
    assert_eq!(l.state.treasury.work_balance, 700);
    assert_eq!(l.state.treasury.work_balance + account(&l, "bob").work_balance, before);
}

#[test]
fn canonical_symbols_are_stable() {
    let once = Ledger::canonical_symbol("  mixed Case ");
    assert_eq!(once, "MIXED CASE");
    assert_eq!(Ledger::canonical_symbol(&once), once);
}

#[test]
fn digests_depend_on_the_statement() {
    let a = ZeroProof::hash("gpang-zero-proof", "{\"a\":1}");
    let b = ZeroProof::hash("gpang-zero-proof", "{\"a\":2}");
    assert_eq!(a.len(), 16);
    assert!(a.chars().all(|c| c.is_ascii_hexdigit()));
    assert_ne!(a, b);
    let p = ZeroProof::new("gpang-zero-proof".to_string(), "{\"a\":1}".to_string());
    assert_eq!(p.digest, a);
    assert!(p.verify());
}

fn deploy_kind(id: Option<&str>, runtime: ContractRuntime, code: Option<&str>, program: Option<&str>, bytecode: Option<&str>) -> TransactionKind {
    TransactionKind::DeployContract {
        owner: "alice".to_string(),
        contract_id: id.map(|s| s.to_string()),
        name: "c".to_string(),
        code: code.map(|s| s.to_string()),
        metadata: None,
        runtime,
        program_id: program.map(|s| s.to_string()),
        bytecode_b64: bytecode.map(|s| s.to_string()),
    }
}

#[test]
fn solana_deployments_need_valid_base64() {
    let mut l = ledger();
    l.apply_transaction(&mint("alice", TokenKind::AIA, 10_000_000)).expect("mint");
    let bad = tx(deploy_kind(None, ContractRuntime::Solana, None, Some(" prog "), Some("not base64!")), "alice");
    let e = l.apply_transaction(&bad).unwrap_err();
    assert_eq!(message(&e), "solana bytecode must be valid base64");
    let missing = tx(deploy_kind(None, ContractRuntime::Solana, None, None, Some("AQID")), "alice");
    assert_eq!(message(&l.apply_transaction(&missing).unwrap_err()), "solana deployments require program_id");
    let good = tx(deploy_kind(Some("sol-1"), ContractRuntime::Solana, None, Some(" prog "), Some("AQID")), "alice");
    l.apply_transaction(&good).expect("deploy");
    let c = l.state.contracts.get("sol-1").expect("contract");
    assert_eq!(c.program_id, Some("prog".to_string()));
    assert_eq!(c.code_hash.len(), 16);
    let other = tx(deploy_kind(Some("sol-2"), ContractRuntime::Solana, None, Some("prog"), Some("AQID")), "alice");
    l.apply_transaction(&other).expect("deploy");
    assert_ne!(l.state.contracts.get("sol-2").expect("c").code_hash, l.state.contracts.get("sol-1").expect("c").code_hash);
    let again = tx(deploy_kind(Some("sol-1"), ContractRuntime::Solana, None, Some("prog"), Some("AQID")), "alice");
    assert_eq!(message(&l.apply_transaction(&again).unwrap_err()), "contract sol-1 already exists");
}

#[test]
fn deploy_requests_are_checked_before_sending() {
    let r = prepare_deploy_request(ContractRuntime::Solana, None, None, None, Some(vec![1, 2, 3]), Some(" p ".to_string()))
        .expect("request");
    assert_eq!(r.bytecode, Some("AQID".to_string()));
    assert_eq!(r.program_id, Some("p".to_string()));
    let e = prepare_deploy_request(ContractRuntime::Native, None, None, None, None, None).unwrap_err();
    assert_eq!(e, "native deployments require --code or --code-path to provide source");
    let e = prepare_deploy_request(
        ContractRuntime::Native,
        Some("a".to_string()),
        Some("b".to_string()),
        None,
        None,
        None,
    )
    .unwrap_err();
    assert_eq!(e, "provide either --code or --code-path when deploying contracts");
    let n = prepare_deploy_request(ContractRuntime::Native, Some("x".to_string()), None, Some("AQID".to_string()), None, Some("p".to_string()))
        .expect("native");
    assert_eq!(n.code, Some("x".to_string()));
    assert_eq!(n.bytecode, None);
    assert_eq!(n.program_id, None);
}

#[test]
fn task_submissions_check_their_mode() {
    assert_eq!(prepare_task_mode("chat", &None).unwrap_err(), "chat mode requires --chat-prompt");
    assert_eq!(prepare_task_mode("chat", &Some("hi".to_string())).ok(), Some(TaskMode::Chat));
    assert_eq!(prepare_task_mode("fast", &None).unwrap_err(), "unsupported task mode 'fast'");
}

#[test]
fn payers_are_inferred_from_the_acting_party() {
    let mut l = ledger();
    l.upsert_provider(provider("prov-a", "alice", 10));
    let receipt = TransactionKind::SegmentReceipt {
        task_id: "t".to_string(),
        segment_id: "s".to_string(),
        provider_id: "prov-a".to_string(),
        tokens: 1,
        latency_ms: 1,
        reward: 1,
    };
    assert_eq!(l.infer_gas_payer(&receipt), "alice");
    let transfer = TransactionKind::Transfer {
        from: "bob".to_string(),
        to: "carol".to_string(),
        token: TokenKind::AIA,
        amount: 1,
        memo: None,
    };
    assert_eq!(l.infer_gas_payer(&transfer), "bob");
}

#[test]
fn clock_stamped_block_has_a_current_time() {
    let mut l = ledger();
    let b = l.commit_block(Vec::new()).expect("block");
    assert!(b.timestamp > 1_600_000_000);
}

#[test]
fn snapshot_copies_the_state() {
    let mut l = ledger();
    l.apply_transaction(&mint("alice", TokenKind::AIA, 100_000)).expect("mint");
    let s = l.snapshot();
    assert_eq!(s.accounts.get("alice").expect("a").aia_balance, 79_000);
    l.apply_transaction(&mint("alice", TokenKind::AIA, 100_000)).expect("mint");
    assert_eq!(s.accounts.get("alice").expect("a").aia_balance, 79_000);
}

#[test]
fn named_balances_resolve_builtin_and_custom_tokens() {
    let mut l = ledger();
    let mut a = Account::new("alice".to_string());
    l.adjust_named_balance(&mut a, "WORK", 50).expect("builtin");
    assert_eq!(a.work_balance, 50);
    let e = l.adjust_named_balance(&mut a, "gold", 5).unwrap_err();
    assert!(matches!(e, LedgerError::TokenNotFound(_)));
    assert_eq!(message(&e), "gold");
    l.apply_transaction(&mint("alice", TokenKind::AIA, 1_000_000)).expect("mint");
    let create = tx(
        TransactionKind::CreateToken {
            symbol: "GOLD".to_string(),
            name: "Gold".to_string(),
            decimals: 0,
            initial_supply: 0,
            owner: "alice".to_string(),
            platform: false,
            contract_id: None,
        },
        "alice",
    );
    l.apply_transaction(&create).expect("create");
    l.adjust_named_balance(&mut a, " gold ", 5).expect("custom");
    assert_eq!(*a.custom_tokens.get("GOLD").expect("gold"), 5);
    let e = l.adjust_named_balance(&mut a, "gold", -6).unwrap_err();
    assert!(matches!(e, LedgerError::InsufficientBalance(_)));
}

#[test]
fn clock_stamped_round_and_rewards() {
    let mut l = ledger();
    l.upsert_provider(provider("prov-a", "alice", 10));
    let t = submit(&mut l, "alice", TaskMode::Batch, 1);
    l.record_task_proof(task_proof(&t, "seg-1", "prov-a", 10, None, None)).expect("p");
    let out = l.collect_task_proof_certificates(&vec![42]);
    assert_eq!(out.len(), 2);
    assert!(out[0].timestamp > 1_600_000_000);
    let payouts = l.distribute_block_rewards().expect("rewards");
    assert!(payouts.is_empty());
}

#[test]
fn refused_zero_proof_changes_nothing() {
    let mut l = ledger();
    let mut t = mint("alice", TokenKind::AIA, 500_000);
    t.zero_proof = None;
    let e = l.apply_transaction(&t).unwrap_err();
    assert_eq!(message(&e), "missing zero proof");
    assert!(l.state.accounts.get("alice").is_none());
    assert_eq!(l.state.treasury.gas_collected, 0);
    let mut u = mint("bob", TokenKind::WORK, 7);
    u.gas_limit = 0;
    assert!(l.apply_transaction(&u).is_err());
    assert!(l.state.accounts.get("bob").is_none());
}

#[test]
fn large_balance_changes_follow_128_bit_arithmetic() {
    let mut a = Account::new("a".to_string());
    a.work_balance = 5;
    let e = Ledger::adjust_balance(&mut a, &TokenKind::WORK, -(1i128 << 70)).unwrap_err();
    assert_eq!(message(&e), "WORK for account a");
    assert_eq!(a.work_balance, 5);
    Ledger::adjust_balance(&mut a, &TokenKind::WORK, (1i128 << 70) + 3).expect("credit");
    assert_eq!(a.work_balance, 8);
    let mut l = ledger();
    l.adjust_treasury("STOR", (3i128 << 64) + 9).expect("treasury credit");
    assert_eq!(l.state.treasury.stor_balance, 9);
    assert!(l.adjust_treasury("STOR", -(1i128 << 66)).is_err());
    assert_eq!(l.state.treasury.stor_balance, 9);
}

#[test]
fn fingerprint_override_wins() {
    let derived = derive_fingerprint(&hardware(), "alice", None);
    assert_eq!(derived, fingerprint_for(&hardware(), "alice"));
    assert!(derived.starts_with("0x") && derived.len() == 18);
    assert_eq!(derive_fingerprint(&hardware(), "alice", Some("fp-1".to_string())), "fp-1");
}

#[test]
fn payload_error_comes_before_a_bad_zero_proof() {
    let mut l = ledger();
    let mut t = tx(
        TransactionKind::Transfer { from: "ghost".to_string(), to: "bob".to_string(), token: TokenKind::WORK, amount: 1, memo: None },
        "ghost",
    );
    t.zero_proof = None;
    let e = l.apply_transaction(&t).unwrap_err();
    assert!(matches!(e, LedgerError::AccountNotFound(_)));
    assert!(l.state.accounts.get("bob").is_none());
    assert!(l.state.accounts.get("ghost").is_none());
}

#[test]
fn genesis_is_the_same_at_the_same_time() {
    let a = LedgerState::testnet_genesis(77);
    let b = LedgerState::testnet_genesis(77);
    assert_eq!(format!("{:?}", a.providers.get("prov-na")), format!("{:?}", b.providers.get("prov-na")));
    assert_eq!(format!("{:?}", a.nodes.get("node-alpha")), format!("{:?}", b.nodes.get("node-alpha")));
    assert_eq!(a.treasury.low_tier_discount_bps, 1000);
    assert_eq!(a.treasury.low_tier_discount_bps, b.treasury.low_tier_discount_bps);
}
