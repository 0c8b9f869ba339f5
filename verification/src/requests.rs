//! The requests that can change the wallet, as values that laws speak of.

use crate::ledger::EnvView;
use crate::rules;
use crate::types::{
    Address, ContractError, KindView, ProposalCategory, TokenReply, Transfer,
};
use vstd::prelude::*;

verus! {

/// A request that can change the wallet. Each variant is one function of
/// [`AccordContract`](crate::contract::AccordContract), with its arguments.
pub enum Request {
    Initialize {
        owners: Seq<Address>,
        weights: Seq<u32>,
        threshold: u32,
        time_lock_delay: u64,
    },
    CreateProposal {
        proposer: Address,
        transfers: Seq<Transfer>,
        description: Seq<u8>,
        deadline: u64,
        category: ProposalCategory,
        token_replies: Seq<TokenReply>,
    },
    CreateAddOwner { proposer: Address, new_owner: Address, description: Seq<u8>, deadline: u64 },
    CreateSpendingLimit {
        proposer: Address,
        owner: Address,
        token: Address,
        limit: i128,
        description: Seq<u8>,
        deadline: u64,
    },
    CreateChangeWeight {
        proposer: Address,
        target_owner: Address,
        new_weight: u32,
        description: Seq<u8>,
        deadline: u64,
    },
    CreateRemoveOwner {
        proposer: Address,
        owner_to_remove: Address,
        description: Seq<u8>,
        deadline: u64,
    },
    CreateChangeThreshold {
        proposer: Address,
        new_threshold: u32,
        description: Seq<u8>,
        deadline: u64,
    },
    Approve { approver: Address, proposal_id: u64 },
    Revoke { approver: Address, proposal_id: u64 },
    Execute { executor: Address, proposal_id: u64, transfer_replies: Seq<bool> },
    CancelExpired { caller: Address, ids: Seq<u64> },
    SetMaxPct { approvers: Seq<Address>, max_pct: u32 },
    SetGuardian { approvers: Seq<Address>, new_guardian: Address },
    Freeze { guardian: Address },
    Unfreeze { approvers: Seq<Address> },
    Upgrade { approvers: Seq<Address>, new_wasm_hash: [u8; 32] },
}

/// Why a request is refused.
pub open spec fn refusal(v: EnvView, r: Request) -> Option<ContractError> {
    match r {
        Request::Initialize { owners, weights, threshold, time_lock_delay } =>
            rules::initialize_refusal(v.ledger, owners, weights, threshold),
        Request::CreateProposal {
            proposer,
            transfers,
            description,
            deadline,
            category,
            token_replies,
        } => rules::create_proposal_refusal(
            v,
            proposer,
            transfers,
            description,
            deadline,
            token_replies,
        ),
        Request::CreateAddOwner { proposer, new_owner, description, deadline } =>
            rules::create_add_owner_refusal(v, proposer, new_owner, description, deadline),
        Request::CreateSpendingLimit { proposer, owner, token, limit, description, deadline } =>
            rules::create_spending_limit_refusal(v, proposer, limit, description, deadline),
        Request::CreateChangeWeight {
            proposer,
            target_owner,
            new_weight,
            description,
            deadline,
        } => rules::create_change_weight_refusal(
            v,
            proposer,
            target_owner,
            new_weight,
            description,
            deadline,
        ),
        Request::CreateRemoveOwner { proposer, owner_to_remove, description, deadline } =>
            rules::create_remove_owner_refusal(
            v,
            proposer,
            owner_to_remove,
            description,
            deadline,
        ),
        Request::CreateChangeThreshold { proposer, new_threshold, description, deadline } =>
            rules::create_change_threshold_refusal(
            v,
            proposer,
            new_threshold,
            description,
            deadline,
        ),
        Request::Approve { approver, proposal_id } => rules::approve_refusal(
            v,
            approver,
            proposal_id,
        ),
        Request::Revoke { approver, proposal_id } => rules::revoke_refusal(
            v,
            approver,
            proposal_id,
        ),
        Request::Execute { executor, proposal_id, transfer_replies } => rules::execute_refusal(
            v,
            executor,
            proposal_id,
            transfer_replies,
        ),
        Request::CancelExpired { caller, ids } => rules::owner_refusal(v.ledger, caller),
        Request::SetMaxPct { approvers, max_pct } => rules::set_max_pct_refusal(
            v.ledger,
            approvers,
            max_pct,
        ),
        Request::SetGuardian { approvers, new_guardian } => rules::quorum_refusal(
            v.ledger,
            approvers,
        ),
        Request::Freeze { guardian } => rules::freeze_refusal(v.ledger, guardian),
        Request::Unfreeze { approvers } => rules::quorum_refusal(v.ledger, approvers),
        Request::Upgrade { approvers, new_wasm_hash } => rules::quorum_refusal(
            v.ledger,
            approvers,
        ),
    }
}

/// What a request changes, accepted or not.
pub open spec fn effect(v: EnvView, r: Request) -> EnvView {
    match r {
        Request::Initialize { owners, weights, threshold, time_lock_delay } =>
            rules::initialize_effect(v, owners, weights, threshold, time_lock_delay),
        Request::CreateProposal {
            proposer,
            transfers,
            description,
            deadline,
            category,
            token_replies,
        } => rules::filing_effect(
            v,
            refusal(v, r),
            proposer,
            KindView::Transfer(transfers),
            description,
            deadline,
            category,
        ),
        Request::CreateAddOwner { proposer, new_owner, description, deadline } =>
            rules::filing_effect(
            v,
            refusal(v, r),
            proposer,
            KindView::AddOwner(new_owner),
            description,
            deadline,
            ProposalCategory::Other,
        ),
        Request::CreateSpendingLimit { proposer, owner, token, limit, description, deadline } =>
            rules::filing_effect(
            v,
            refusal(v, r),
            proposer,
            KindView::SetSpendingLimit(owner, token, limit),
            description,
            deadline,
            ProposalCategory::Other,
        ),
        Request::CreateChangeWeight {
            proposer,
            target_owner,
            new_weight,
            description,
            deadline,
        } => rules::filing_effect(
            v,
            refusal(v, r),
            proposer,
            KindView::ChangeOwnerWeight(target_owner, new_weight),
            description,
            deadline,
            ProposalCategory::Other,
        ),
        Request::CreateRemoveOwner { proposer, owner_to_remove, description, deadline } =>
            rules::filing_effect(
            v,
            refusal(v, r),
            proposer,
            KindView::RemoveOwner(owner_to_remove),
            description,
            deadline,
            ProposalCategory::Other,
        ),
        Request::CreateChangeThreshold { proposer, new_threshold, description, deadline } =>
            rules::filing_effect(
            v,
            refusal(v, r),
            proposer,
            KindView::ChangeThreshold(new_threshold),
            description,
            deadline,
            ProposalCategory::Other,
        ),
        Request::Approve { approver, proposal_id } => rules::approve_effect(
            v,
            approver,
            proposal_id,
        ),
        Request::Revoke { approver, proposal_id } => rules::revoke_effect(
            v,
            approver,
            proposal_id,
        ),
        Request::Execute { executor, proposal_id, transfer_replies } => rules::execute_effect(
            v,
            executor,
            proposal_id,
            transfer_replies,
        ),
        Request::CancelExpired { caller, ids } => rules::cancel_expired_effect(v, caller, ids),
        Request::SetMaxPct { approvers, max_pct } => rules::set_max_pct_effect(
            v,
            approvers,
            max_pct,
        ),
        Request::SetGuardian { approvers, new_guardian } => rules::set_guardian_effect(
            v,
            approvers,
            new_guardian,
        ),
        Request::Freeze { guardian } => rules::freeze_effect(v, guardian),
        Request::Unfreeze { approvers } => rules::unfreeze_effect(v, approvers),
        Request::Upgrade { approvers, new_wasm_hash } => rules::upgrade_effect(
            v,
            approvers,
            new_wasm_hash,
        ),
    }
}

/// Whether a request files a proposal if it is accepted.
pub open spec fn files(r: Request) -> bool {
    ||| r is CreateProposal
    ||| r is CreateAddOwner
    ||| r is CreateSpendingLimit
    ||| r is CreateChangeWeight
    ||| r is CreateRemoveOwner
    ||| r is CreateChangeThreshold
}

/// Whether a request is decided by co-signers.
pub open spec fn cosigned(r: Request) -> bool {
    r is SetMaxPct || r is SetGuardian || r is Unfreeze || r is Upgrade
}

/// Who must have authorized a request for it to be accepted.
pub open spec fn signers(r: Request) -> Seq<Address> {
    match r {
        Request::Initialize { owners, .. } => owners,
        Request::CreateProposal { proposer, .. } => seq![proposer],
        Request::CreateAddOwner { proposer, .. } => seq![proposer],
        Request::CreateSpendingLimit { proposer, .. } => seq![proposer],
        Request::CreateChangeWeight { proposer, .. } => seq![proposer],
        Request::CreateRemoveOwner { proposer, .. } => seq![proposer],
        Request::CreateChangeThreshold { proposer, .. } => seq![proposer],
        Request::Approve { approver, .. } => seq![approver],
        Request::Revoke { approver, .. } => seq![approver],
        Request::Execute { executor, .. } => seq![executor],
        Request::CancelExpired { caller, .. } => seq![caller],
        Request::SetMaxPct { approvers, .. } => approvers,
        Request::SetGuardian { approvers, .. } => approvers,
        Request::Freeze { guardian } => seq![guardian],
        Request::Unfreeze { approvers } => approvers,
        Request::Upgrade { approvers, .. } => approvers,
    }
}

/// The same environment at another time.
pub open spec fn at(v: EnvView, time: u64) -> EnvView {
    EnvView { timestamp: time, ..v }
}

/// A request that is made at a time.
pub struct Step {
    pub time: u64,
    pub request: Request,
}

/// What comes of requests that are made one after the other.
pub open spec fn run(v: EnvView, steps: Seq<Step>) -> EnvView
    decreases steps.len(),
{
    if steps.len() == 0 {
        v
    } else {
        effect(at(run(v, steps.drop_last()), steps.last().time), steps.last().request)
    }
}

/// Whether no request is made before the one that comes ahead of it.
pub open spec fn in_order(steps: Seq<Step>) -> bool {
    forall|i: int, j: int|
        0 <= i <= j < steps.len() ==> (#[trigger] steps[i]).time <= (#[trigger] steps[j]).time
}

} // verus!
