//! What a call of each function of the wallet gives.

use crate::contract::AccordContract;
use crate::guarantees;
use crate::ledger;
use crate::ledger::{derive_status, EnvView, Environment, Ledger};
use crate::owners;
use crate::proposals::{check_payments, validate_token};
use crate::requests;
use crate::requests::Request;
use crate::rules;
use crate::types::{
    Address, ContractError, KindView, Proposal, ProposalCategory, ProposalStatus, ProposalView,
    SpendingKey, TokenReply, Transfer,
};
use vstd::prelude::*;

verus! {

/// A call was answered as its request is, and left what its request leaves.
pub open spec fn answered<T>(
    result: Result<T, ContractError>,
    before: EnvView,
    after: EnvView,
    r: Request,
) -> bool {
    &&& result is Ok <==> requests::refusal(before, r) is None
    &&& result matches Err(e) ==> requests::refusal(before, r) == Some(e)
    &&& after == requests::effect(before, r)
}

/// A setup is answered as its request.
pub proof fn law_initialize_call(
    env: &mut Environment,
    owners: &Vec<Address>,
    weights: &Vec<u32>,
    threshold: u32,
    time_lock_delay: u64,
    result: Result<(), ContractError>,
)
    requires
        call_ensures(
            AccordContract::initialize,
            (env, owners, weights, threshold, time_lock_delay),
            result,
        ),
    ensures
        answered(
            result,
            old(env)@,
            final(env)@,
            Request::Initialize { owners: owners@, weights: weights@, threshold, time_lock_delay },
        ),
{
}

/// A proposal of payments is answered as its request, with the id that was
/// next.
pub proof fn law_create_proposal_call(
    env: &mut Environment,
    proposer: Address,
    transfers: Vec<Transfer>,
    description: Vec<u8>,
    deadline: u64,
    category: ProposalCategory,
    token_replies: &Vec<TokenReply>,
    result: Result<u64, ContractError>,
)
    requires
        call_ensures(
            AccordContract::create_proposal,
            (env, proposer, transfers, description, deadline, category, token_replies),
            result,
        ),
    ensures
        answered(
            result,
            old(env)@,
            final(env)@,
            Request::CreateProposal {
                proposer,
                transfers: transfers@,
                description: description@,
                deadline,
                category,
                token_replies: token_replies@,
            },
        ),
        result matches Ok(id) ==> id == old(env).ledger.next_id,
{
}

/// A proposal of a new owner is answered as its request, with the id that was
/// next.
pub proof fn law_create_add_owner_proposal_call(
    env: &mut Environment,
    proposer: Address,
    new_owner: Address,
    description: Vec<u8>,
    deadline: u64,
    result: Result<u64, ContractError>,
)
    requires
        call_ensures(
            AccordContract::create_add_owner_proposal,
            (env, proposer, new_owner, description, deadline),
            result,
        ),
    ensures
        answered(
            result,
            old(env)@,
            final(env)@,
            Request::CreateAddOwner { proposer, new_owner, description: description@, deadline },
        ),
        result matches Ok(id) ==> id == old(env).ledger.next_id,
{
}

/// A proposal of a limit is answered as its request, with the id that was
/// next.
pub proof fn law_create_spending_limit_proposal_call(
    env: &mut Environment,
    proposer: Address,
    owner: Address,
    token: Address,
    limit: i128,
    description: Vec<u8>,
    deadline: u64,
    result: Result<u64, ContractError>,
)
    requires
        call_ensures(
            AccordContract::create_spending_limit_proposal,
            (env, proposer, owner, token, limit, description, deadline),
            result,
        ),
    ensures
        answered(
            result,
            old(env)@,
            final(env)@,
            Request::CreateSpendingLimit {
                proposer,
                owner,
                token,
                limit,
                description: description@,
                deadline,
            },
        ),
        result matches Ok(id) ==> id == old(env).ledger.next_id,
{
}

/// A proposal of another weight is answered as its request, with the id that was
/// next.
pub proof fn law_create_change_weight_proposal_call(
    env: &mut Environment,
    proposer: Address,
    target_owner: Address,
    new_weight: u32,
    description: Vec<u8>,
    deadline: u64,
    result: Result<u64, ContractError>,
)
    requires
        call_ensures(
            AccordContract::create_change_weight_proposal,
            (env, proposer, target_owner, new_weight, description, deadline),
            result,
        ),
    ensures
        answered(
            result,
            old(env)@,
            final(env)@,
            Request::CreateChangeWeight {
                proposer,
                target_owner,
                new_weight,
                description: description@,
                deadline,
            },
        ),
        result matches Ok(id) ==> id == old(env).ledger.next_id,
{
}

/// A proposal of a removal is answered as its request, with the id that was
/// next.
pub proof fn law_create_remove_owner_proposal_call(
    env: &mut Environment,
    proposer: Address,
    owner_to_remove: Address,
    description: Vec<u8>,
    deadline: u64,
    result: Result<u64, ContractError>,
)
    requires
        call_ensures(
            AccordContract::create_remove_owner_proposal,
            (env, proposer, owner_to_remove, description, deadline),
            result,
        ),
    ensures
        answered(
            result,
            old(env)@,
            final(env)@,
            Request::CreateRemoveOwner {
                proposer,
                owner_to_remove,
                description: description@,
                deadline,
            },
        ),
        result matches Ok(id) ==> id == old(env).ledger.next_id,
{
}

/// A proposal of another threshold is answered as its request, with the id that was
/// next.
pub proof fn law_create_change_threshold_proposal_call(
    env: &mut Environment,
    proposer: Address,
    new_threshold: u32,
    description: Vec<u8>,
    deadline: u64,
    result: Result<u64, ContractError>,
)
    requires
        call_ensures(
            AccordContract::create_change_threshold_proposal,
            (env, proposer, new_threshold, description, deadline),
            result,
        ),
    ensures
        answered(
            result,
            old(env)@,
            final(env)@,
            Request::CreateChangeThreshold {
                proposer,
                new_threshold,
                description: description@,
                deadline,
            },
        ),
        result matches Ok(id) ==> id == old(env).ledger.next_id,
{
}

/// An approval is answered as its request.
pub proof fn law_approve_call(
    env: &mut Environment,
    approver: Address,
    proposal_id: u64,
    result: Result<(), ContractError>,
)
    requires
        call_ensures(AccordContract::approve, (env, approver, proposal_id), result),
    ensures
        answered(
            result,
            old(env)@,
            final(env)@,
            Request::Approve { approver, proposal_id },
        ),
{
}

/// A revocation is answered as its request.
pub proof fn law_revoke_call(
    env: &mut Environment,
    approver: Address,
    proposal_id: u64,
    result: Result<(), ContractError>,
)
    requires
        call_ensures(AccordContract::revoke, (env, approver, proposal_id), result),
    ensures
        answered(
            result,
            old(env)@,
            final(env)@,
            Request::Revoke { approver, proposal_id },
        ),
{
}

/// An execution is answered as its request.
pub proof fn law_execute_call(
    env: &mut Environment,
    executor: Address,
    proposal_id: u64,
    transfer_replies: &Vec<bool>,
    result: Result<(), ContractError>,
)
    requires
        call_ensures(
            AccordContract::execute,
            (env, executor, proposal_id, transfer_replies),
            result,
        ),
    ensures
        answered(
            result,
            old(env)@,
            final(env)@,
            Request::Execute { executor, proposal_id, transfer_replies: transfer_replies@ },
        ),
{
}

/// A sweep is answered as its request, with the number of places of the list
/// whose ids name a proposal that ran out of time.
pub proof fn law_cancel_expired_call(
    env: &mut Environment,
    caller: Address,
    ids: &Vec<u64>,
    result: Result<u32, ContractError>,
)
    requires
        call_ensures(AccordContract::cancel_expired, (env, caller, ids), result),
    ensures
        answered(
            result,
            old(env)@,
            final(env)@,
            Request::CancelExpired { caller, ids: ids@ },
        ),
        result matches Ok(n) ==> {
            let places = guarantees::lapsed_places(
                old(env)@.ledger,
                old(env).timestamp,
                ids@,
            ).len();
            n == if places <= 0xffff_ffff {
                places as int
            } else {
                0xffff_ffff
            }
        },
{
    guarantees::law_sweep_counts_places(old(env)@.ledger, old(env).timestamp, ids@);
}

/// A change of the cap is answered as its request.
pub proof fn law_set_max_single_owner_weight_pct_call(
    env: &mut Environment,
    approvers: &Vec<Address>,
    max_pct: u32,
    result: Result<(), ContractError>,
)
    requires
        call_ensures(
            AccordContract::set_max_single_owner_weight_pct,
            (env, approvers, max_pct),
            result,
        ),
    ensures
        answered(
            result,
            old(env)@,
            final(env)@,
            Request::SetMaxPct { approvers: approvers@, max_pct },
        ),
{
}

/// The naming of a guardian is answered as its request.
pub proof fn law_set_guardian_call(
    env: &mut Environment,
    approvers: &Vec<Address>,
    new_guardian: Address,
    result: Result<(), ContractError>,
)
    requires
        call_ensures(AccordContract::set_guardian, (env, approvers, new_guardian), result),
    ensures
        answered(
            result,
            old(env)@,
            final(env)@,
            Request::SetGuardian { approvers: approvers@, new_guardian },
        ),
{
}

/// A freeze is answered as its request.
pub proof fn law_freeze_call(
    env: &mut Environment,
    guardian: Address,
    result: Result<(), ContractError>,
)
    requires
        call_ensures(AccordContract::freeze, (env, guardian), result),
    ensures
        answered(
            result,
            old(env)@,
            final(env)@,
            Request::Freeze { guardian },
        ),
{
}

/// The end of a freeze is answered as its request.
pub proof fn law_unfreeze_call(
    env: &mut Environment,
    approvers: &Vec<Address>,
    result: Result<(), ContractError>,
)
    requires
        call_ensures(AccordContract::unfreeze, (env, approvers), result),
    ensures
        answered(
            result,
            old(env)@,
            final(env)@,
            Request::Unfreeze { approvers: approvers@ },
        ),
{
}

/// A replacement of the code is answered as its request.
pub proof fn law_upgrade_call(
    env: &mut Environment,
    approvers: &Vec<Address>,
    new_wasm_hash: [u8; 32],
    result: Result<(), ContractError>,
)
    requires
        call_ensures(AccordContract::upgrade, (env, approvers, new_wasm_hash), result),
    ensures
        answered(
            result,
            old(env)@,
            final(env)@,
            Request::Upgrade { approvers: approvers@, new_wasm_hash },
        ),
{
}

/// The approvers that are given out are the owners whose approval stands, in
/// ascending order.
pub proof fn law_get_approvers_call(
    env: &Environment,
    id: u64,
    result: Result<Vec<Address>, ContractError>,
)
    requires
        call_ensures(AccordContract::get_approvers, (env, id), result),
    ensures
        env.ledger.owners is None ==> result == Err::<Vec<Address>, _>(
            ContractError::NotInitialized,
        ),
        env.ledger.owners is Some && !env.ledger.proposals@.contains_key(id) ==> result == Err::<
            Vec<Address>,
            _,
        >(ContractError::ProposalNotFound),
        env.ledger.owners is Some && env.ledger.proposals@.contains_key(id) ==> result is Ok,
        result matches Ok(list) ==> owners::ascending(list@) && forall|a: Address|
            list@.contains(a) <==> guarantees::listed(env@.ledger, a) && guarantees::stands(
                env@.ledger,
                id,
                a,
            ),
{
    if let Ok(list) = result {
        assert forall|a: Address| list@.contains(a) == (guarantees::listed(env@.ledger, a)
            && guarantees::stands(env@.ledger, id, a)) by {
            assert(list@.to_set().contains(a) == list@.contains(a));
            guarantees::law_approvers_shown(env@.ledger, id, a);
        }
    }
}

/// The version is 1.
pub proof fn law_get_version_call(
    env: &Environment,
    version: u32,
)
    requires
        call_ensures(AccordContract::get_version, (env,), version),
    ensures
        version == 1,
{
}

/// The total weight is given out as it is stored.
pub proof fn law_get_total_weight_call(
    env: &Environment,
    total: u32,
)
    requires
        call_ensures(AccordContract::get_total_weight, (env,), total),
    ensures
        total == env.ledger.total_weight,
{
}

/// The weight of an owner is given out as it is stored; others are not found.
pub proof fn law_get_owner_weight_call(
    env: &Environment,
    owner: Address,
    result: Result<u32, ContractError>,
)
    requires
        call_ensures(AccordContract::get_owner_weight, (env, owner), result),
    ensures
        !guarantees::listed(env@.ledger, owner) ==> result == Err::<u32, _>(
            ContractError::OwnerNotFound,
        ),
        guarantees::listed(env@.ledger, owner) ==> result is Ok && result->Ok_0
            == guarantees::vote(env@.ledger, owner),
{
}

/// The cap is given out as it is stored.
pub proof fn law_get_max_single_owner_weight_pct_call(
    env: &Environment,
    pct: u32,
)
    requires
        call_ensures(AccordContract::get_max_single_owner_weight_pct, (env,), pct),
    ensures
        pct == env.ledger.max_single_owner_weight_pct,
{
}

/// A proposal is given out as it is stored, with the status of the moment.
pub proof fn law_get_proposal_call(
    env: &Environment,
    id: u64,
    result: Result<Proposal, ContractError>,
)
    requires
        call_ensures(AccordContract::get_proposal, (env, id), result),
    ensures
        !env.ledger.proposals@.contains_key(id) ==> result == Err::<Proposal, _>(
            ContractError::ProposalNotFound,
        ),
        env.ledger.proposals@.contains_key(id) ==> {
            let p = env.ledger.proposals@[id]@;
            &&& result is Ok
            &&& result->Ok_0@ == (ProposalView { status: result->Ok_0.status, ..p })
            &&& result->Ok_0.status == if guarantees::decided(p) {
                p.status
            } else if env.timestamp > p.deadline {
                ProposalStatus::Expired
            } else if p.approvals >= p.quorum_weight {
                ProposalStatus::Ready
            } else {
                ProposalStatus::Pending
            }
        },
{
    if env.ledger.proposals@.contains_key(id) {
        guarantees::law_status_shown(env.ledger.proposals@[id]@, env.timestamp);
    }
}

/// Progress is the approving weight, the quorum and the total weight.
pub proof fn law_get_proposal_approval_progress_call(
    env: &Environment,
    id: u64,
    result: Result<(u32, u32, u32), ContractError>,
)
    requires
        call_ensures(AccordContract::get_proposal_approval_progress, (env, id), result),
    ensures
        !env.ledger.proposals@.contains_key(id) ==> result == Err::<(u32, u32, u32), _>(
            ContractError::ProposalNotFound,
        ),
        env.ledger.proposals@.contains_key(id) ==> result == Ok::<_, ContractError>(
            (
                env.ledger.proposals@[id].approvals,
                env.ledger.proposals@[id].quorum_weight,
                env.ledger.total_weight,
            ),
        ),
{
}

/// A page is the stored proposals from the one after `offset` on, up to `limit`
/// or 20 of them.
pub proof fn law_get_proposals_paged_call(
    env: &Environment,
    offset: u64,
    limit: u32,
    list: Vec<Proposal>,
)
    requires
        call_ensures(AccordContract::get_proposals_paged, (env, offset, limit), list),
    ensures
        list@.map_values(|p: Proposal| p@) == rules::page(
            env@.ledger,
            env.timestamp,
            offset + 1,
            rules::page_end(env@.ledger, offset, limit),
        ),
{
}

/// The owners are given out in ascending order.
pub proof fn law_get_owners_call(
    env: &Environment,
    result: Result<Vec<Address>, ContractError>,
)
    requires
        call_ensures(AccordContract::get_owners, (env,), result),
    ensures
        env.ledger.owners is None ==> result == Err::<Vec<Address>, _>(
            ContractError::NotInitialized,
        ),
        env.ledger.owners is Some ==> result is Ok,
        result matches Ok(list) ==> owners::ascending(list@) && forall|a: Address|
            list@.contains(a) <==> guarantees::listed(env@.ledger, a),
{
    if let Ok(list) = result {
        assert forall|a: Address| list@.contains(a) == guarantees::listed(env@.ledger, a) by {
            assert(list@.to_set().contains(a) == list@.contains(a));
        }
    }
}

/// A limit is given out as it is stored.
pub proof fn law_get_spending_limit_call(
    env: &Environment,
    owner: Address,
    token: Address,
    limit: Option<i128>,
)
    requires
        call_ensures(AccordContract::get_spending_limit, (env, owner, token), limit),
    ensures
        limit == if env.ledger.spending_limits@.contains_key(SpendingKey { owner, token }) {
            Some(env.ledger.spending_limits@[SpendingKey { owner, token }])
        } else {
            None
        },
{
}

/// What is left of a limit is the limit less what counts as spent.
pub proof fn law_get_remaining_spending_limit_call(
    env: &Environment,
    owner: Address,
    token: Address,
    rest: Option<i128>,
)
    requires
        call_ensures(AccordContract::get_remaining_spending_limit, (env, owner, token), rest),
    ensures
        ({
            let key = SpendingKey { owner, token };
            let left = env.ledger.spending_limits@[key] - guarantees::spent_now(
                env@.ledger,
                env.timestamp,
                owner,
                token,
            );
            &&& rest is Some <==> env.ledger.spending_limits@.contains_key(key)
            &&& rest is Some && guarantees::fits(left) ==> rest->0 == left
        }),
{
    guarantees::law_rest_shown(env@.ledger, env.timestamp, owner, token);
}

/// The threshold is given out as it is stored.
pub proof fn law_get_threshold_call(
    env: &Environment,
    result: Result<u32, ContractError>,
)
    requires
        call_ensures(AccordContract::get_threshold, (env,), result),
    ensures
        match env.ledger.threshold {
            Some(threshold) => result == Ok::<u32, ContractError>(threshold),
            None => result == Err::<u32, _>(ContractError::NotInitialized),
        },
{
}

/// The delay is given out as it is stored.
pub proof fn law_get_time_lock_delay_call(
    env: &Environment,
    delay: u64,
)
    requires
        call_ensures(AccordContract::get_time_lock_delay, (env,), delay),
    ensures
        delay == env.ledger.time_lock_delay,
{
}

/// As many proposals were filed as ids come before the next.
pub proof fn law_get_total_proposals_call(
    env: &Environment,
    count: u64,
)
    requires
        call_ensures(AccordContract::get_total_proposals, (env,), count),
    ensures
        env.ledger.next_id >= 1 ==> count + 1 == env.ledger.next_id,
{
}

/// Owners are those on the list.
pub proof fn law_is_owner_call(
    env: &Environment,
    address: Address,
    owner: bool,
)
    requires
        call_ensures(AccordContract::is_owner, (env, address), owner),
    ensures
        owner == guarantees::listed(env@.ledger, address),
{
}

/// Somebody has approved if their approval stands.
pub proof fn law_has_approved_call(
    env: &Environment,
    id: u64,
    owner: Address,
    approved: bool,
)
    requires
        call_ensures(AccordContract::has_approved, (env, id, owner), approved),
    ensures
        approved == guarantees::stands(env@.ledger, id, owner),
{
}

/// A freeze is given out as it is stored.
pub proof fn law_is_frozen_call(
    env: &Environment,
    frozen: bool,
)
    requires
        call_ensures(AccordContract::is_frozen, (env,), frozen),
    ensures
        frozen == env.ledger.frozen,
{
}

/// The guardian is given out as stored.
pub proof fn law_get_guardian_call(
    env: &Environment,
    guardian: Option<Address>,
)
    requires
        call_ensures(AccordContract::get_guardian, (env,), guardian),
    ensures
        guardian == env.ledger.guardian,
{
}

/// The weight that a decision needs is the threshold, or 0 if there is none.
pub proof fn law_get_required_quorum_weight_call(
    env: &Environment,
    weight: u32,
)
    requires
        call_ensures(AccordContract::get_required_quorum_weight, (env,), weight),
    ensures
        env.ledger.threshold is Some ==> Some(weight) == env.ledger.threshold,
        env.ledger.threshold is None ==> weight == 0,
{
}

/// The tokens to ask are those of the payments that are looked at.
pub proof fn law_tokens_to_ask_call(
    env: &Environment,
    proposer: Address,
    payments: &Vec<Transfer>,
    tokens: Vec<Address>,
)
    requires
        call_ensures(AccordContract::tokens_to_ask, (env, proposer, payments), tokens),
    ensures
        tokens@ == rules::queried_tokens(env@, proposer, payments@),
{
}

/// The payments due are those of a proposal that can be carried out.
pub proof fn law_transfers_due_call(
    env: &Environment,
    executor: Address,
    id: u64,
    due: Result<Vec<Transfer>, ContractError>,
)
    requires
        call_ensures(AccordContract::transfers_due, (env, executor, id), due),
    ensures
        due is Ok <==> rules::readiness_refusal(env@, executor, id) is None,
        due matches Err(e) ==> rules::readiness_refusal(env@, executor, id) == Some(e),
        due matches Ok(payments) ==> payments@ == match env@.ledger.proposals[id].kind {
            KindView::Transfer(transfers) => transfers,
            _ => Seq::empty(),
        },
{
}

/// Payments are checked as they are when they are proposed.
pub proof fn law_check_payments_call(
    env: &Environment,
    proposer: Address,
    payments: &Vec<Transfer>,
    replies: &Vec<TokenReply>,
    result: Result<(), ContractError>,
)
    requires
        call_ensures(check_payments, (env, proposer, payments, replies), result),
    ensures
        result is Ok <==> rules::payments_refusal(env@, proposer, payments@, replies@) is None,
        result matches Err(e) ==> rules::payments_refusal(env@, proposer, payments@, replies@)
            == Some(e),
{
}

/// A contract that did not say its decimals, its symbol and its name is no token.
pub proof fn law_validate_token_call(reply: TokenReply, result: Result<(), ContractError>)
    requires
        call_ensures(validate_token, (reply,), result),
    ensures
        reply.decimals && reply.symbol && reply.name ==> result is Ok,
        !(reply.decimals && reply.symbol && reply.name) ==> result == Err::<(), _>(
            ContractError::InvalidToken,
        ),
{
}

/// The status of a proposal is the decision, or what its deadline and its
/// approvals make of it.
pub proof fn law_derive_status_call(p: &Proposal, now: u64, status: ProposalStatus)
    requires
        call_ensures(derive_status, (p, now), status),
    ensures
        status == if p.status == ProposalStatus::Executed || p.status == ProposalStatus::Revoked {
            p.status
        } else if now > p.deadline {
            ProposalStatus::Expired
        } else if p.approvals >= p.quorum_weight {
            ProposalStatus::Ready
        } else {
            ProposalStatus::Pending
        },
{
}

/// A new ledger is empty, and a new environment holds the ledger that it is given
/// at the time that it is given, with nothing asked or told.
pub proof fn law_new_call(
    ledger: Ledger,
    host: soroban_sdk::Env,
    contract: Address,
    timestamp: u64,
    given: Ledger,
    env: Environment,
)
    requires
        call_ensures(Ledger::new, (), ledger),
        call_ensures(Environment::new, (host, contract, timestamp, given), env),
    ensures
        ledger@ == ledger::empty_ledger(),
        env@.ledger == given@,
        env@.contract == contract,
        env@.timestamp == timestamp,
        env@.auths.len() == 0,
        env@.events.len() == 0,
        env@.new_wasm is None,
{
}

/// What the laws speak of is what the ledger holds.
pub proof fn law_ledger_is_seen(l: Ledger, id: u64)
    ensures
        l@.initialized == l.initialized,
        l@.threshold == l.threshold,
        l@.owners is Some == l.owners is Some,
        l.owners matches Some(owners) ==> l@.owners == Some(owners@),
        l@.total_weight == l.total_weight,
        l@.max_single_owner_weight_pct == l.max_single_owner_weight_pct,
        l@.time_lock_delay == l.time_lock_delay,
        l@.next_id == l.next_id,
        l@.active_count == l.active_count,
        l@.guardian == l.guardian,
        l@.frozen == l.frozen,
        l@.proposals.contains_key(id) == l.proposals@.contains_key(id),
        l.proposals@.contains_key(id) ==> l@.proposals[id] == l.proposals@[id]@,
        l@.approvals == l.approvals@,
        l@.spending_limits == l.spending_limits@,
        l@.spent == l.spent@,
{
}

} // verus!
