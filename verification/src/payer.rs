//! Who pays the gas of a transaction when its sender names nobody.
use crate::ledger::Ledger;
use crate::types::{LedgerState, TransactionKind};
use vstd::prelude::*;

verus! {

/// The owner of a provider, or the provider id itself when it is unknown.
pub open spec fn provider_payer(st: LedgerState, provider_id: Seq<char>) -> Seq<char> {
    if st.providers@.contains_key(provider_id) {
        st.providers@[provider_id].owner@
    } else {
        provider_id
    }
}

/// The party that pays for a payload by default: the account that acts or
/// receives (the recipient of a mint, airdrop or payout; the sender of a
/// burn, transfer or deposit; the staker; the owner of a deployment or new
/// token; the caller of a contract; the authority of a custom mint or
/// withdrawal), the provider's owner for receipts and task proofs, and the
/// task's owner for chat results.
pub open spec fn inferred_payer(st: LedgerState, kind: TransactionKind) -> Seq<char> {
    match kind {
        TransactionKind::Mint { to, .. } => to@,
        TransactionKind::Burn { from, .. } => from@,
        TransactionKind::Transfer { from, .. } => from@,
        TransactionKind::Stake { owner, .. } => owner@,
        TransactionKind::Airdrop { to, .. } => to@,
        TransactionKind::Payout { to, .. } => to@,
        TransactionKind::SegmentReceipt { provider_id, .. } => provider_payer(st, provider_id@),
        TransactionKind::ChatResult { task_id, .. } => if st.tasks@.contains_key(task_id@) {
            st.tasks@[task_id@].owner@
        } else {
            task_id@
        },
        TransactionKind::TaskProofCommit { proof } => provider_payer(st, proof.provider_id@),
        TransactionKind::DeployContract { owner, .. } => owner@,
        TransactionKind::ExecuteContract { caller, .. } => caller@,
        TransactionKind::CreateToken { owner, .. } => owner@,
        TransactionKind::MintCustom { authority, .. } => authority@,
        TransactionKind::TransferCustom { from, .. } => from@,
        TransactionKind::TreasuryDeposit { from, .. } => from@,
        TransactionKind::TreasuryWithdraw { authority, .. } => authority@,
    }
}

impl Ledger {
    fn provider_owner_or(&self, provider_id: &String) -> (p: String)
        requires
            self.wf(),
        ensures
            p@ == provider_payer(self.state, provider_id@),
    {
        match self.state.providers.get(provider_id.as_str()) {
            Some(p) => p.owner.clone(),
            None => provider_id.clone(),
        }
    }

    /// The gas payer of a payload submitted without one; see `inferred_payer`.
    pub fn infer_gas_payer(&self, kind: &TransactionKind) -> (p: String)
        requires
            self.wf(),
        ensures
            p@ == inferred_payer(self.state, *kind),
    {
        match kind {
            TransactionKind::Mint { to, .. } => to.clone(),
            TransactionKind::Burn { from, .. } => from.clone(),
            TransactionKind::Transfer { from, .. } => from.clone(),
            TransactionKind::Stake { owner, .. } => owner.clone(),
            TransactionKind::Airdrop { to, .. } => to.clone(),
            TransactionKind::Payout { to, .. } => to.clone(),
            TransactionKind::SegmentReceipt { provider_id, .. } => self.provider_owner_or(provider_id),
            TransactionKind::ChatResult { task_id, .. } => match self.state.tasks.get(task_id.as_str()) {
                Some(t) => t.owner.clone(),
                None => task_id.clone(),
            },
            TransactionKind::TaskProofCommit { proof } => self.provider_owner_or(&proof.provider_id),
            TransactionKind::DeployContract { owner, .. } => owner.clone(),
            TransactionKind::ExecuteContract { caller, .. } => caller.clone(),
            TransactionKind::CreateToken { owner, .. } => owner.clone(),
            TransactionKind::MintCustom { authority, .. } => authority.clone(),
            TransactionKind::TransferCustom { from, .. } => from.clone(),
            TransactionKind::TreasuryDeposit { from, .. } => from.clone(),
            TransactionKind::TreasuryWithdraw { authority, .. } => authority.clone(),
        }
    }
}

} // verus!
