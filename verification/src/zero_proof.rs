//! Zero proofs, intrinsic gas and canonical transaction construction.
use crate::statement::{statement_json, zero_proof_statement};
use crate::text::{hex16, hex_digits};
use crate::types::{Transaction, TransactionKind, ZeroProof};
use std::hash::{Hash, Hasher};
use vstd::prelude::*;

verus! {

/// Scheme label of synthesized zero proofs.
pub const ZERO_PROOF_SCHEME: &'static str = "gpang-zero-proof";

/// Minimum gas price accepted by the ledger.
pub const MIN_GAS_PRICE: u64 = 1;

/// What `DefaultHasher` computes after hashing each of `parts` in turn.
pub uninterp spec fn default_hash_parts(parts: Seq<Seq<char>>) -> u64;

/// The texts of a list of string slices.
pub open spec fn part_texts(parts: Seq<&str>) -> Seq<Seq<char>> {
    parts.map_values(|p: &str| p@)
}

/// Hashes a list of strings with the standard library's default hasher.
///
/// Calls `DefaultHasher::new`, `Hash::hash` on each part in turn and
/// `Hasher::finish`. `DefaultHasher::new` always starts from the same keys,
/// so the result depends on the parts alone; the contract names it and says
/// nothing more of it.
#[verifier::external_body]
pub(crate) fn hash_parts(parts: &Vec<&str>) -> (h: u64)
    ensures
        h == default_hash_parts(part_texts(parts@)),
{
    let mut hasher = std::collections::hash_map::DefaultHasher::new();
    for part in parts.iter() {
        part.hash(&mut hasher);
    }
    hasher.finish()
}

/// The digest that binds `statement` to `scheme`: sixteen hexadecimal digits.
pub open spec fn digest_of(scheme: Seq<char>, statement: Seq<char>) -> Seq<char> {
    hex_digits(default_hash_parts(seq![scheme, statement]) as nat, 16)
}

/// A zero proof is valid when its three parts are non-empty and its digest
/// is the digest of its scheme and statement.
pub open spec fn proof_valid(p: ZeroProof) -> bool {
    &&& p.scheme@.len() > 0
    &&& p.statement@.len() > 0
    &&& p.digest@.len() > 0
    &&& digest_of(p.scheme@, p.statement@) == p.digest@
}

impl ZeroProof {
    /// Builds the proof of `statement` under `scheme`.
    pub fn new(scheme: String, statement: String) -> (p: ZeroProof)
        ensures
            p.scheme == scheme,
            p.statement == statement,
            p.digest@ == digest_of(scheme@, statement@),
    {
        let digest = Self::hash(scheme.as_str(), statement.as_str());
        ZeroProof { scheme, statement, digest }
    }

    /// The digest of `statement` under `scheme`.
    pub fn hash(scheme: &str, statement: &str) -> (d: String)
        ensures
            d@ == digest_of(scheme@, statement@),
    {
        let parts = vec![scheme, statement];
        proof {
            assert(part_texts(parts@) =~= seq![scheme@, statement@]);
        }
        hex16(hash_parts(&parts))
    }

    /// Checks the proof: its parts are non-empty and the digest matches.
    pub fn verify(&self) -> (b: bool)
        ensures
            b == proof_valid(*self),
    {
        if self.scheme.unicode_len() == 0 || self.statement.unicode_len() == 0
            || self.digest.unicode_len() == 0 {
            return false;
        }
        let expected = Self::hash(self.scheme.as_str(), self.statement.as_str());
        expected == self.digest
    }
}

/// The gas units that a payload consumes.
pub open spec fn intrinsic_gas(kind: TransactionKind) -> u64 {
    match kind {
        TransactionKind::Mint { .. } => 21_000,
        TransactionKind::Burn { .. } => 20_000,
        TransactionKind::Transfer { .. } => 25_000,
        TransactionKind::Stake { .. } => 28_000,
        TransactionKind::Airdrop { .. } => 22_000,
        TransactionKind::Payout { .. } => 24_000,
        TransactionKind::SegmentReceipt { .. } => 40_000,
        TransactionKind::ChatResult { .. } => 36_000,
        TransactionKind::TaskProofCommit { .. } => 55_000,
        TransactionKind::DeployContract { .. } => 120_000,
        TransactionKind::ExecuteContract { .. } => 65_000,
        TransactionKind::CreateToken { .. } => 110_000,
        TransactionKind::MintCustom { .. } => 42_000,
        TransactionKind::TransferCustom { .. } => 32_000,
        TransactionKind::TreasuryDeposit { .. } => 30_000,
        TransactionKind::TreasuryWithdraw { .. } => 45_000,
    }
}

/// Returns the intrinsic gas cost of a payload.
pub fn intrinsic_gas_cost(kind: &TransactionKind) -> (g: u64)
    ensures
        g == intrinsic_gas(*kind),
{
    match kind {
        TransactionKind::Mint { .. } => 21_000,
        TransactionKind::Burn { .. } => 20_000,
        TransactionKind::Transfer { .. } => 25_000,
        TransactionKind::Stake { .. } => 28_000,
        TransactionKind::Airdrop { .. } => 22_000,
        TransactionKind::Payout { .. } => 24_000,
        TransactionKind::SegmentReceipt { .. } => 40_000,
        TransactionKind::ChatResult { .. } => 36_000,
        TransactionKind::TaskProofCommit { .. } => 55_000,
        TransactionKind::DeployContract { .. } => 120_000,
        TransactionKind::ExecuteContract { .. } => 65_000,
        TransactionKind::CreateToken { .. } => 110_000,
        TransactionKind::MintCustom { .. } => 42_000,
        TransactionKind::TransferCustom { .. } => 32_000,
        TransactionKind::TreasuryDeposit { .. } => 30_000,
        TransactionKind::TreasuryWithdraw { .. } => 45_000,
    }
}

/// The zero proof that a transaction with this payload and gas metadata carries.
pub open spec fn expected_proof(
    kind: TransactionKind,
    gas_payer: Option<String>,
    gas_limit: u64,
    gas_price: u64,
    p: ZeroProof,
) -> bool {
    &&& p.scheme@ == ZERO_PROOF_SCHEME@
    &&& p.statement@ == statement_json(kind, gas_payer, gas_limit, gas_price)
    &&& p.digest@ == digest_of(p.scheme@, p.statement@)
}

/// Synthesizes the deterministic zero proof of a payload and its gas metadata.
pub fn synthesize_zero_proof(
    kind: &TransactionKind,
    gas_payer: &Option<String>,
    gas_limit: u64,
    gas_price: u64,
) -> (p: ZeroProof)
    ensures
        expected_proof(*kind, *gas_payer, gas_limit, gas_price, p),
{
    let statement = zero_proof_statement(kind, gas_payer, gas_limit, gas_price);
    ZeroProof::new(String::from_str(ZERO_PROOF_SCHEME), statement)
}

/// The gas limit a transaction is built with: the one asked for, raised to
/// the intrinsic cost.
pub open spec fn effective_gas_limit(kind: TransactionKind, gas_limit: Option<u64>) -> u64 {
    match gas_limit {
        Some(l) if l >= intrinsic_gas(kind) => l,
        _ => intrinsic_gas(kind),
    }
}

/// The gas price a transaction is built with: at least the minimum.
pub open spec fn effective_gas_price(gas_price: u64) -> u64 {
    if gas_price >= MIN_GAS_PRICE {
        gas_price
    } else {
        MIN_GAS_PRICE
    }
}

/// `tx` is the transaction that `build_transaction` makes of these parts:
/// the gas limit raised to the intrinsic cost, the price to the minimum,
/// the intrinsic gas as used, and the zero proof of payload and gas metadata.
pub open spec fn built_transaction(
    tx: Transaction,
    id: String,
    timestamp: u64,
    kind: TransactionKind,
    gas_payer: Option<String>,
    gas_price: u64,
    gas_limit: Option<u64>,
) -> bool {
    &&& tx.id == id
    &&& tx.timestamp == timestamp
    &&& tx.kind == kind
    &&& tx.gas_payer == gas_payer
    &&& tx.gas_limit == effective_gas_limit(kind, gas_limit)
    &&& tx.gas_price == effective_gas_price(gas_price)
    &&& tx.gas_used == intrinsic_gas(kind)
    &&& tx.zero_proof matches Some(p) && expected_proof(kind, gas_payer, tx.gas_limit, tx.gas_price, p)
}

/// Builds a transaction with canonical gas metadata and its zero proof.
pub fn build_transaction(
    id: String,
    timestamp: u64,
    kind: TransactionKind,
    gas_payer: Option<String>,
    gas_price: u64,
    gas_limit: Option<u64>,
) -> (tx: Transaction)
    ensures
        built_transaction(tx, id, timestamp, kind, gas_payer, gas_price, gas_limit),
{
    let intrinsic = intrinsic_gas_cost(&kind);
    let mut limit = match gas_limit {
        Some(l) => l,
        None => intrinsic,
    };
    if limit < intrinsic {
        limit = intrinsic;
    }
    let price = if gas_price >= MIN_GAS_PRICE {
        gas_price
    } else {
        MIN_GAS_PRICE
    };
    let proof = synthesize_zero_proof(&kind, &gas_payer, limit, price);
    Transaction {
        id,
        timestamp,
        kind,
        gas_payer,
        gas_limit: limit,
        gas_price: price,
        gas_used: intrinsic,
        zero_proof: Some(proof),
    }
}

} // verus!
