//! The canonical statement that a zero proof commits to.
//!
//! A statement is compact JSON with object keys in byte order, numbers in
//! decimal and strings escaped as `serde_json` escapes them:
//! `{"gas_limit":..,"gas_payer":..,"gas_price":..,"kind":{..}}`, the payload
//! tagged by its `"type"`.
use crate::text::{decimal, json_string, write_decimal, write_json_string};
use crate::types::{ContractRuntime, TaskProof, TokenKind, TransactionKind};
use vstd::prelude::*;

verus! {

/// `null` or the JSON string of an optional text.
pub open spec fn json_opt(o: Option<String>) -> Seq<char> {
    match o {
        Some(s) => json_string(s@),
        None => "null"@,
    }
}

/// A JSON boolean.
pub open spec fn json_bool(b: bool) -> Seq<char> {
    if b {
        "true"@
    } else {
        "false"@
    }
}

/// The JSON string naming a token.
pub open spec fn json_token(t: TokenKind) -> Seq<char> {
    match t {
        TokenKind::AIA => "\"AIA\""@,
        TokenKind::WORK => "\"WORK\""@,
        TokenKind::STOR => "\"STOR\""@,
    }
}

/// The comma-separated JSON strings of a list.
pub open spec fn json_list_items(items: Seq<String>) -> Seq<char>
    decreases items.len(),
{
    if items.len() == 0 {
        Seq::empty()
    } else if items.len() == 1 {
        json_string(items[0]@)
    } else {
        json_list_items(items.drop_last()) + ","@ + json_string(items.last()@)
    }
}

/// A JSON array of strings.
pub open spec fn json_list(items: Seq<String>) -> Seq<char> {
    "["@ + json_list_items(items) + "]"@
}

pub fn write_json_opt(out: &mut String, o: &Option<String>)
    ensures
        final(out)@ == old(out)@ + json_opt(*o),
{
    match o {
        Some(s) => write_json_string(out, s.as_str()),
        None => out.append("null"),
    }
}

pub fn write_json_bool(out: &mut String, b: bool)
    ensures
        final(out)@ == old(out)@ + json_bool(b),
{
    if b {
        out.append("true");
    } else {
        out.append("false");
    }
}

pub fn write_json_token(out: &mut String, t: TokenKind)
    ensures
        final(out)@ == old(out)@ + json_token(t),
{
    match t {
        TokenKind::AIA => out.append("\"AIA\""),
        TokenKind::WORK => out.append("\"WORK\""),
        TokenKind::STOR => out.append("\"STOR\""),
    }
}

pub fn write_json_list(out: &mut String, items: &Vec<String>)
    ensures
        final(out)@ == old(out)@ + json_list(items@),
{
    let ghost start = out@;
    out.append("[");
    let ghost base = out@;
    let n = items.len();
    let mut i: usize = 0;
    while i < n
        invariant
            n == items@.len(),
            i <= n,
            base == start + "["@,
            out@ == base + json_list_items(items@.subrange(0, i as int)),
        decreases n - i,
    {
        let ghost before = out@;
        if i > 0 {
            out.append(",");
        }
        write_json_string(out, items[i].as_str());
        proof {
            let p = items@.subrange(0, i + 1);
            assert(p.drop_last() =~= items@.subrange(0, i as int));
            assert(p.last() == items@[i as int]);
            if i == 0 {
                assert(json_list_items(items@.subrange(0, 0)) =~= Seq::<char>::empty());
                assert(out@ =~= base + json_list_items(p));
            } else {
                assert(out@ =~= base + json_list_items(p));
            }
        }
        i = i + 1;
    }
    out.append("]");
    proof {
        assert(items@.subrange(0, n as int) =~= items@);
        assert(final(out)@ =~= old(out)@ + json_list(items@));
    }
}

/// The JSON object of a task proof.
pub open spec fn proof_json(p: TaskProof) -> Seq<char> {
    "{\"chat_response\":"@ + json_opt(p.chat_response) + ",\"latency_ms\":"@ + decimal(p.latency_ms as nat) + ",\"node_id\":"@ + json_opt(p.node_id) + ",\"output_digest\":"@ + json_opt(p.output_digest) + ",\"provider_id\":"@ + json_string(p.provider_id@) + ",\"region\":"@ + json_string(p.region@) + ",\"round\":"@ + decimal(p.round as nat) + ",\"segment_id\":"@ + json_string(p.segment_id@) + ",\"signature\":"@ + json_string(p.signature@) + ",\"task_id\":"@ + json_string(p.task_id@) + ",\"throughput_tok_s\":"@ + decimal(p.throughput_tok_s as nat) + ",\"tokens_processed\":"@ + decimal(p.tokens_processed as nat) + "}"@
}

pub fn proof_json_string(p: &TaskProof) -> (s: String)
    ensures
        s@ == proof_json(*p),
{
    let mut out = String::from_str("{\"chat_response\":");
            write_json_opt(&mut out, &p.chat_response);
            out.append(",\"latency_ms\":");
            write_decimal(&mut out, p.latency_ms);
            out.append(",\"node_id\":");
            write_json_opt(&mut out, &p.node_id);
            out.append(",\"output_digest\":");
            write_json_opt(&mut out, &p.output_digest);
            out.append(",\"provider_id\":");
            write_json_string(&mut out, p.provider_id.as_str());
            out.append(",\"region\":");
            write_json_string(&mut out, p.region.as_str());
            out.append(",\"round\":");
            write_decimal(&mut out, p.round);
            out.append(",\"segment_id\":");
            write_json_string(&mut out, p.segment_id.as_str());
            out.append(",\"signature\":");
            write_json_string(&mut out, p.signature.as_str());
            out.append(",\"task_id\":");
            write_json_string(&mut out, p.task_id.as_str());
            out.append(",\"throughput_tok_s\":");
            write_decimal(&mut out, p.throughput_tok_s);
            out.append(",\"tokens_processed\":");
            write_decimal(&mut out, p.tokens_processed);
            out.append("}");
            out
}

/// The JSON object of a transaction payload.
pub open spec fn kind_json(k: TransactionKind) -> Seq<char> {
    match k {
        TransactionKind::Mint { amount, reason, to, token } => "{\"amount\":"@ + decimal(amount as nat) + ",\"reason\":"@ + json_opt(reason) + ",\"to\":"@ + json_string(to@) + ",\"token\":"@ + json_token(token) + ",\"type\":\"mint\"}"@,
        TransactionKind::Burn { amount, from, reason, token } => "{\"amount\":"@ + decimal(amount as nat) + ",\"from\":"@ + json_string(from@) + ",\"reason\":"@ + json_opt(reason) + ",\"token\":"@ + json_token(token) + ",\"type\":\"burn\"}"@,
        TransactionKind::Transfer { amount, from, memo, to, token } => "{\"amount\":"@ + decimal(amount as nat) + ",\"from\":"@ + json_string(from@) + ",\"memo\":"@ + json_opt(memo) + ",\"to\":"@ + json_string(to@) + ",\"token\":"@ + json_token(token) + ",\"type\":\"transfer\"}"@,
        TransactionKind::Stake { amount, owner } => "{\"amount\":"@ + decimal(amount as nat) + ",\"owner\":"@ + json_string(owner@) + ",\"type\":\"stake\"}"@,
        TransactionKind::Airdrop { amount, campaign, to, token } => "{\"amount\":"@ + decimal(amount as nat) + ",\"campaign\":"@ + json_opt(campaign) + ",\"to\":"@ + json_string(to@) + ",\"token\":"@ + json_token(token) + ",\"type\":\"airdrop\"}"@,
        TransactionKind::Payout { amount, task_id, to, token } => "{\"amount\":"@ + decimal(amount as nat) + ",\"task_id\":"@ + json_string(task_id@) + ",\"to\":"@ + json_string(to@) + ",\"token\":"@ + json_token(token) + ",\"type\":\"payout\"}"@,
        TransactionKind::SegmentReceipt { latency_ms, provider_id, reward, segment_id, task_id, tokens } => "{\"latency_ms\":"@ + decimal(latency_ms as nat) + ",\"provider_id\":"@ + json_string(provider_id@) + ",\"reward\":"@ + decimal(reward as nat) + ",\"segment_id\":"@ + json_string(segment_id@) + ",\"task_id\":"@ + json_string(task_id@) + ",\"tokens\":"@ + decimal(tokens as nat) + ",\"type\":\"segment_receipt\"}"@,
        TransactionKind::ChatResult { aggregate, contributors, task_id } => "{\"aggregate\":"@ + json_string(aggregate@) + ",\"contributors\":"@ + json_list(contributors@) + ",\"task_id\":"@ + json_string(task_id@) + ",\"type\":\"chat_result\"}"@,
        TransactionKind::TaskProofCommit { proof } => "{\"proof\":"@ + proof_json(proof) + ",\"type\":\"task_proof_commit\"}"@,
        TransactionKind::DeployContract { bytecode_b64, code, contract_id, metadata, name, owner, program_id, runtime } => "{\"bytecode_b64\":"@ + json_opt(bytecode_b64) + ",\"code\":"@ + json_opt(code) + ",\"contract_id\":"@ + json_opt(contract_id) + ",\"metadata\":"@ + json_opt(metadata) + ",\"name\":"@ + json_string(name@) + ",\"owner\":"@ + json_string(owner@) + ",\"program_id\":"@ + json_opt(program_id) + ",\"runtime\":"@ + json_string(runtime.spec_name()) + ",\"type\":\"deploy_contract\"}"@,
        TransactionKind::ExecuteContract { caller, contract_id, method, payload } => "{\"caller\":"@ + json_string(caller@) + ",\"contract_id\":"@ + json_string(contract_id@) + ",\"method\":"@ + json_string(method@) + ",\"payload\":"@ + payload@ + ",\"type\":\"execute_contract\"}"@,
        TransactionKind::CreateToken { contract_id, decimals, initial_supply, name, owner, platform, symbol } => "{\"contract_id\":"@ + json_opt(contract_id) + ",\"decimals\":"@ + decimal(decimals as nat) + ",\"initial_supply\":"@ + decimal(initial_supply as nat) + ",\"name\":"@ + json_string(name@) + ",\"owner\":"@ + json_string(owner@) + ",\"platform\":"@ + json_bool(platform) + ",\"symbol\":"@ + json_string(symbol@) + ",\"type\":\"create_token\"}"@,
        TransactionKind::MintCustom { amount, authority, symbol, to } => "{\"amount\":"@ + decimal(amount as nat) + ",\"authority\":"@ + json_string(authority@) + ",\"symbol\":"@ + json_string(symbol@) + ",\"to\":"@ + json_string(to@) + ",\"type\":\"mint_custom\"}"@,
        TransactionKind::TransferCustom { amount, from, symbol, to } => "{\"amount\":"@ + decimal(amount as nat) + ",\"from\":"@ + json_string(from@) + ",\"symbol\":"@ + json_string(symbol@) + ",\"to\":"@ + json_string(to@) + ",\"type\":\"transfer_custom\"}"@,
        TransactionKind::TreasuryDeposit { amount, from, symbol } => "{\"amount\":"@ + decimal(amount as nat) + ",\"from\":"@ + json_string(from@) + ",\"symbol\":"@ + json_string(symbol@) + ",\"type\":\"treasury_deposit\"}"@,
        TransactionKind::TreasuryWithdraw { amount, authority, symbol, to } => "{\"amount\":"@ + decimal(amount as nat) + ",\"authority\":"@ + json_string(authority@) + ",\"symbol\":"@ + json_string(symbol@) + ",\"to\":"@ + json_string(to@) + ",\"type\":\"treasury_withdraw\"}"@,
    }
}

pub fn kind_json_string(k: &TransactionKind) -> (s: String)
    ensures
        s@ == kind_json(*k),
{
    match k {
        TransactionKind::Mint { amount, reason, to, token } => {
            let mut out = String::from_str("{\"amount\":");
            write_decimal(&mut out, *amount);
            out.append(",\"reason\":");
            write_json_opt(&mut out, reason);
            out.append(",\"to\":");
            write_json_string(&mut out, to.as_str());
            out.append(",\"token\":");
            write_json_token(&mut out, *token);
            out.append(",\"type\":\"mint\"}");
            out
        },
        TransactionKind::Burn { amount, from, reason, token } => {
            let mut out = String::from_str("{\"amount\":");
            write_decimal(&mut out, *amount);
            out.append(",\"from\":");
            write_json_string(&mut out, from.as_str());
            out.append(",\"reason\":");
            write_json_opt(&mut out, reason);
            out.append(",\"token\":");
            write_json_token(&mut out, *token);
            out.append(",\"type\":\"burn\"}");
            out
        },
        TransactionKind::Transfer { amount, from, memo, to, token } => {
            let mut out = String::from_str("{\"amount\":");
            write_decimal(&mut out, *amount);
            out.append(",\"from\":");
            write_json_string(&mut out, from.as_str());
            out.append(",\"memo\":");
            write_json_opt(&mut out, memo);
            out.append(",\"to\":");
            write_json_string(&mut out, to.as_str());
            out.append(",\"token\":");
            write_json_token(&mut out, *token);
            out.append(",\"type\":\"transfer\"}");
            out
        },
        TransactionKind::Stake { amount, owner } => {
            let mut out = String::from_str("{\"amount\":");
            write_decimal(&mut out, *amount);
            out.append(",\"owner\":");
            write_json_string(&mut out, owner.as_str());
            out.append(",\"type\":\"stake\"}");
            out
        },
        TransactionKind::Airdrop { amount, campaign, to, token } => {
            let mut out = String::from_str("{\"amount\":");
            write_decimal(&mut out, *amount);
            out.append(",\"campaign\":");
            write_json_opt(&mut out, campaign);
            out.append(",\"to\":");
            write_json_string(&mut out, to.as_str());
            out.append(",\"token\":");
            write_json_token(&mut out, *token);
            out.append(",\"type\":\"airdrop\"}");
            out
        },
        TransactionKind::Payout { amount, task_id, to, token } => {
            let mut out = String::from_str("{\"amount\":");
            write_decimal(&mut out, *amount);
            out.append(",\"task_id\":");
            write_json_string(&mut out, task_id.as_str());
            out.append(",\"to\":");
            write_json_string(&mut out, to.as_str());
            out.append(",\"token\":");
            write_json_token(&mut out, *token);
            out.append(",\"type\":\"payout\"}");
            out
        },
        TransactionKind::SegmentReceipt { latency_ms, provider_id, reward, segment_id, task_id, tokens } => {
            let mut out = String::from_str("{\"latency_ms\":");
            write_decimal(&mut out, *latency_ms);
            out.append(",\"provider_id\":");
            write_json_string(&mut out, provider_id.as_str());
            out.append(",\"reward\":");
            write_decimal(&mut out, *reward);
            out.append(",\"segment_id\":");
            write_json_string(&mut out, segment_id.as_str());
            out.append(",\"task_id\":");
            write_json_string(&mut out, task_id.as_str());
            out.append(",\"tokens\":");
            write_decimal(&mut out, *tokens);
            out.append(",\"type\":\"segment_receipt\"}");
            out
        },
        TransactionKind::ChatResult { aggregate, contributors, task_id } => {
            let mut out = String::from_str("{\"aggregate\":");
            write_json_string(&mut out, aggregate.as_str());
            out.append(",\"contributors\":");
            write_json_list(&mut out, contributors);
            out.append(",\"task_id\":");
            write_json_string(&mut out, task_id.as_str());
            out.append(",\"type\":\"chat_result\"}");
            out
        },
        TransactionKind::TaskProofCommit { proof } => {
            let mut out = String::from_str("{\"proof\":");
            let p = proof_json_string(proof);
            out.append(p.as_str());
            out.append(",\"type\":\"task_proof_commit\"}");
            out
        },
        TransactionKind::DeployContract { bytecode_b64, code, contract_id, metadata, name, owner, program_id, runtime } => {
            let mut out = String::from_str("{\"bytecode_b64\":");
            write_json_opt(&mut out, bytecode_b64);
            out.append(",\"code\":");
            write_json_opt(&mut out, code);
            out.append(",\"contract_id\":");
            write_json_opt(&mut out, contract_id);
            out.append(",\"metadata\":");
            write_json_opt(&mut out, metadata);
            out.append(",\"name\":");
            write_json_string(&mut out, name.as_str());
            out.append(",\"owner\":");
            write_json_string(&mut out, owner.as_str());
            out.append(",\"program_id\":");
            write_json_opt(&mut out, program_id);
            out.append(",\"runtime\":");
            write_json_string(&mut out, runtime.as_str());
            out.append(",\"type\":\"deploy_contract\"}");
            out
        },
        TransactionKind::ExecuteContract { caller, contract_id, method, payload } => {
            let mut out = String::from_str("{\"caller\":");
            write_json_string(&mut out, caller.as_str());
            out.append(",\"contract_id\":");
            write_json_string(&mut out, contract_id.as_str());
            out.append(",\"method\":");
            write_json_string(&mut out, method.as_str());
            out.append(",\"payload\":");
            out.append(payload.as_str());
            out.append(",\"type\":\"execute_contract\"}");
            out
        },
        TransactionKind::CreateToken { contract_id, decimals, initial_supply, name, owner, platform, symbol } => {
            let mut out = String::from_str("{\"contract_id\":");
            write_json_opt(&mut out, contract_id);
            out.append(",\"decimals\":");
            write_decimal(&mut out, *decimals as u64);
            out.append(",\"initial_supply\":");
            write_decimal(&mut out, *initial_supply);
            out.append(",\"name\":");
            write_json_string(&mut out, name.as_str());
            out.append(",\"owner\":");
            write_json_string(&mut out, owner.as_str());
            out.append(",\"platform\":");
            write_json_bool(&mut out, *platform);
            out.append(",\"symbol\":");
            write_json_string(&mut out, symbol.as_str());
            out.append(",\"type\":\"create_token\"}");
            out
        },
        TransactionKind::MintCustom { amount, authority, symbol, to } => {
            let mut out = String::from_str("{\"amount\":");
            write_decimal(&mut out, *amount);
            out.append(",\"authority\":");
            write_json_string(&mut out, authority.as_str());
            out.append(",\"symbol\":");
            write_json_string(&mut out, symbol.as_str());
            out.append(",\"to\":");
            write_json_string(&mut out, to.as_str());
            out.append(",\"type\":\"mint_custom\"}");
            out
        },
        TransactionKind::TransferCustom { amount, from, symbol, to } => {
            let mut out = String::from_str("{\"amount\":");
            write_decimal(&mut out, *amount);
            out.append(",\"from\":");
            write_json_string(&mut out, from.as_str());
            out.append(",\"symbol\":");
            write_json_string(&mut out, symbol.as_str());
            out.append(",\"to\":");
            write_json_string(&mut out, to.as_str());
            out.append(",\"type\":\"transfer_custom\"}");
            out
        },
        TransactionKind::TreasuryDeposit { amount, from, symbol } => {
            let mut out = String::from_str("{\"amount\":");
            write_decimal(&mut out, *amount);
            out.append(",\"from\":");
            write_json_string(&mut out, from.as_str());
            out.append(",\"symbol\":");
            write_json_string(&mut out, symbol.as_str());
            out.append(",\"type\":\"treasury_deposit\"}");
            out
        },
        TransactionKind::TreasuryWithdraw { amount, authority, symbol, to } => {
            let mut out = String::from_str("{\"amount\":");
            write_decimal(&mut out, *amount);
            out.append(",\"authority\":");
            write_json_string(&mut out, authority.as_str());
            out.append(",\"symbol\":");
            write_json_string(&mut out, symbol.as_str());
            out.append(",\"to\":");
            write_json_string(&mut out, to.as_str());
            out.append(",\"type\":\"treasury_withdraw\"}");
            out
        },
    }
}

/// The statement that the zero proof of a transaction commits to.
pub open spec fn statement_json(
    kind: TransactionKind,
    gas_payer: Option<String>,
    gas_limit: u64,
    gas_price: u64,
) -> Seq<char> {
    "{\"gas_limit\":"@ + decimal(gas_limit as nat) + ",\"gas_payer\":"@ + json_opt(gas_payer)
        + ",\"gas_price\":"@ + decimal(gas_price as nat) + ",\"kind\":"@ + kind_json(kind) + "}"@
}

/// Renders the statement for a payload and its gas metadata.
pub fn zero_proof_statement(
    kind: &TransactionKind,
    gas_payer: &Option<String>,
    gas_limit: u64,
    gas_price: u64,
) -> (s: String)
    ensures
        s@ == statement_json(*kind, *gas_payer, gas_limit, gas_price),
{
    let mut out = String::from_str("{\"gas_limit\":");
    write_decimal(&mut out, gas_limit);
    out.append(",\"gas_payer\":");
    write_json_opt(&mut out, gas_payer);
    out.append(",\"gas_price\":");
    write_decimal(&mut out, gas_price);
    out.append(",\"kind\":");
    let k = kind_json_string(kind);
    out.append(k.as_str());
    out.append("}");
    out
}

} // verus!
