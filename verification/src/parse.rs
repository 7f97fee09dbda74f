//! Parsing of the names that operators type for tokens, task modes, node
//! roles and contract runtimes.
use crate::ledger::{builtin_token, Ledger};
use crate::table::str_eq;
use crate::text::{lower, lower_string, trim, trimmed, upper, upper_string};
use crate::types::{ContractRuntime, NodeRole, TaskMode, TokenKind};
use vstd::prelude::*;

verus! {

/// The built-in token a name denotes, letters compared without ASCII case.
pub fn parse_token(token: &str) -> (r: Option<TokenKind>)
    ensures
        r == builtin_token(upper(token@)),
{
    let up = upper_string(token);
    Ledger::is_builtin_symbol(up.as_str())
}

/// The task mode a name denotes, after trimming and ASCII lower-casing:
/// `batch` or `throughput`, `chat` or `conversation`. Otherwise the
/// normalized name is returned as the error.
pub open spec fn task_mode_named(name: Seq<char>) -> Result<TaskMode, Seq<char>> {
    let n = lower(trim(name));
    if n == "batch"@ || n == "throughput"@ {
        Ok(TaskMode::Batch)
    } else if n == "chat"@ || n == "conversation"@ {
        Ok(TaskMode::Chat)
    } else {
        Err(n)
    }
}

/// Parses a task mode; see `task_mode_named`.
pub fn parse_task_mode(mode: &str) -> (r: Result<TaskMode, String>)
    ensures
        match r {
            Ok(m) => task_mode_named(mode@) == Ok::<TaskMode, Seq<char>>(m),
            Err(e) => task_mode_named(mode@) == Err::<TaskMode, Seq<char>>(e@),
        },
{
    let t = trimmed(mode);
    let n = lower_string(t.as_str());
    if str_eq(n.as_str(), "batch") || str_eq(n.as_str(), "throughput") {
        Ok(TaskMode::Batch)
    } else if str_eq(n.as_str(), "chat") || str_eq(n.as_str(), "conversation") {
        Ok(TaskMode::Chat)
    } else {
        Err(n)
    }
}

/// The node role a name denotes, after trimming and ASCII lower-casing.
pub open spec fn node_role_named(name: Seq<char>) -> Option<NodeRole> {
    let n = lower(trim(name));
    if n == "validator"@ {
        Some(NodeRole::Validator)
    } else if n == "scheduler"@ {
        Some(NodeRole::Scheduler)
    } else if n == "assignment"@ {
        Some(NodeRole::Assignment)
    } else if n == "compute"@ {
        Some(NodeRole::Compute)
    } else {
        None
    }
}

/// Parses a node role: `validator`, `scheduler`, `assignment` or `compute`.
pub fn parse_node_role(role: &str) -> (r: Option<NodeRole>)
    ensures
        r == node_role_named(role@),
{
    let t = trimmed(role);
    let n = lower_string(t.as_str());
    if str_eq(n.as_str(), "validator") {
        Some(NodeRole::Validator)
    } else if str_eq(n.as_str(), "scheduler") {
        Some(NodeRole::Scheduler)
    } else if str_eq(n.as_str(), "assignment") {
        Some(NodeRole::Assignment)
    } else if str_eq(n.as_str(), "compute") {
        Some(NodeRole::Compute)
    } else {
        None
    }
}

/// The contract runtime a name denotes, after trimming and ASCII lower-casing.
pub open spec fn runtime_named(name: Seq<char>) -> Option<ContractRuntime> {
    let n = lower(trim(name));
    if n == "native"@ {
        Some(ContractRuntime::Native)
    } else if n == "solana"@ {
        Some(ContractRuntime::Solana)
    } else {
        None
    }
}

/// Parses a contract runtime: `native` or `solana`.
pub fn parse_contract_runtime(runtime: &str) -> (r: Option<ContractRuntime>)
    ensures
        r == runtime_named(runtime@),
{
    let t = trimmed(runtime);
    let n = lower_string(t.as_str());
    if str_eq(n.as_str(), "native") {
        Some(ContractRuntime::Native)
    } else if str_eq(n.as_str(), "solana") {
        Some(ContractRuntime::Solana)
    } else {
        None
    }
}

} // verus!
