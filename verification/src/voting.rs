//! Giving and taking back approvals.

use crate::contract::AccordContract;
use crate::ledger::{derive_status, Environment};
use crate::rules;
use crate::types::{
    Address, ContractError, Event, Proposal, ProposalApprovedEvent, ProposalRevokedEvent,
    ProposalStatus,
};
use vstd::prelude::*;

verus! {

/// The weight of an owner and the proposal that they may vote on, or why they
/// may not.
fn check_vote(env: &Environment, approver: Address, proposal_id: u64) -> (vote: Result<
    (u32, Proposal),
    ContractError,
>)
    requires
        env.wf(),
    ensures
        rules::answers(vote, rules::vote_refusal(env@, approver, proposal_id)),
        vote matches Ok(v) ==> {
            &&& v.0 == rules::weight_of(env@.ledger, approver)
            &&& v.1@ == env@.ledger.proposals[proposal_id]
            &&& v.1.id == proposal_id
        },
{
    let weight: u32 = match env.ledger.require_owner_and_weight(approver) {
        Ok(weight) => weight,
        Err(e) => {
            return Err(e);
        },
    };
    let proposal: Proposal = match env.ledger.read_proposal(proposal_id) {
        Ok(proposal) => proposal,
        Err(e) => {
            return Err(e);
        },
    };
    let status: ProposalStatus = derive_status(&proposal, env.timestamp);
    if status != ProposalStatus::Pending && status != ProposalStatus::Ready {
        return Err(ContractError::ProposalNotActive);
    }
    Ok((weight, proposal))
}

impl AccordContract {
    /// Approves a proposal. The approver must be an owner and must not have
    /// approved already.
    ///
    /// The proposal becomes `Ready` when the approving weight reaches its
    /// quorum; the first time it does, the time is recorded.
    pub fn approve(env: &mut Environment, approver: Address, proposal_id: u64) -> (result: Result<
        (),
        ContractError,
    >)
        requires
            old(env).wf(),
        ensures
            final(env).wf(),
            rules::answers(result, rules::approve_refusal(old(env)@, approver, proposal_id)),
            final(env)@ == rules::approve_effect(old(env)@, approver, proposal_id),
    {
        env.require_auth(approver);
        let (weight, mut proposal): (u32, Proposal) = match check_vote(
            env,
            approver,
            proposal_id,
        ) {
            Ok(vote) => vote,
            Err(e) => {
                return Err(e);
            },
        };
        if env.ledger.read_approval(proposal_id, approver) {
            return Err(ContractError::AlreadyApproved);
        }
        let approvals: u32 = match proposal.approvals.checked_add(weight) {
            Some(approvals) => approvals,
            None => {
                return Err(ContractError::ArithmeticError);
            },
        };
        let now: u64 = env.timestamp;
        let threshold: u32 = proposal.quorum_weight;
        proposal.approvals = approvals;
        if proposal.ready_at == 0 && approvals >= threshold {
            proposal.ready_at = now;
        }
        proposal.status = derive_status(&proposal, now);
        env.ledger.write_approval(proposal_id, approver, true);
        env.ledger.write_proposal(proposal);
        env.publish(
            Event::ProposalApproved(
                ProposalApprovedEvent { id: proposal_id, approver, approvals, threshold },
            ),
        );
        Ok(())
    }

    /// Takes back the caller's approval of a proposal that is still active. If
    /// the approving weight falls below the quorum, the proposal is `Pending`
    /// again.
    pub fn revoke(env: &mut Environment, approver: Address, proposal_id: u64) -> (result: Result<
        (),
        ContractError,
    >)
        requires
            old(env).wf(),
        ensures
            final(env).wf(),
            rules::answers(result, rules::revoke_refusal(old(env)@, approver, proposal_id)),
            final(env)@ == rules::revoke_effect(old(env)@, approver, proposal_id),
    {
        env.require_auth(approver);
        let (weight, mut proposal): (u32, Proposal) = match check_vote(
            env,
            approver,
            proposal_id,
        ) {
            Ok(vote) => vote,
            Err(e) => {
                return Err(e);
            },
        };
        if !env.ledger.read_approval(proposal_id, approver) {
            return Err(ContractError::NotApproved);
        }
        let approvals: u32 = match proposal.approvals.checked_sub(weight) {
            Some(approvals) => approvals,
            None => {
                return Err(ContractError::ArithmeticError);
            },
        };
        proposal.approvals = approvals;
        proposal.status = derive_status(&proposal, env.timestamp);
        env.ledger.write_approval(proposal_id, approver, false);
        env.ledger.write_proposal(proposal);
        env.publish(
            Event::ProposalRevoked(ProposalRevokedEvent { id: proposal_id, approver, approvals }),
        );
        Ok(())
    }
}

} // verus!
