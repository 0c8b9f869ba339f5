//! Carrying proposals out, and sweeping those that have expired.

use crate::contract::AccordContract;
use crate::ledger::{derive_status, EnvView, Environment, Ledger};
use crate::rules;
use crate::types::{
    AddOwnerExecutedEvent, Address, ChangeThresholdExecutedEvent, ContractError, Event, KindView,
    Proposal, ProposalExecutedEvent, ProposalKind, ProposalStatus,
    RemoveOwnerExecutedEvent, SetSpendingLimitExecutedEvent, SpentTracker, Transfer,
};
use vstd::prelude::*;

verus! {

impl Ledger {
    /// Whether some active proposal needs more than a total weight.
    pub fn quorum_broken(&self, now: u64, total: u32) -> (broken: bool)
        requires
            self.wf(),
        ensures
            broken == rules::breaks_quorum(self@, now, total as int),
    {
        let mut id: u64 = 1;
        while id < self.next_id
            invariant
                self.wf(),
                1 <= id,
                forall|k: u64|
                    1 <= k < id && #[trigger] rules::active_id(self@, now, k)
                        ==> self@.proposals[k].quorum_weight <= total,
            decreases self.next_id - id,
        {
            if let Some(proposal) = self.proposals.get(id) {
                let status: ProposalStatus = derive_status(proposal, now);
                if (status == ProposalStatus::Pending || status == ProposalStatus::Ready)
                    && proposal.quorum_weight > total {
                    assert(rules::active_id(self@, now, id));
                    return true;
                }
            }
            id = id + 1;
        }
        false
    }
}

/// Whether every payment of a list was made.
fn paid(transfers: &Vec<Transfer>, transfer_replies: &Vec<bool>) -> (all: bool)
    ensures
        all == rules::all_paid(transfers@, transfer_replies@),
{
    let mut i: usize = 0;
    while i < transfers.len()
        invariant
            i <= transfers@.len(),
            forall|k: int| 0 <= k < i ==> #[trigger] rules::replied_well(transfer_replies@, k),
        decreases transfers@.len() - i,
    {
        if i >= transfer_replies.len() || !transfer_replies[i] {
            assert(!rules::replied_well(transfer_replies@, i as int));
            return false;
        }
        i = i + 1;
    }
    true
}

/// A proposal that can be carried out, or why it cannot be yet.
fn check_ready(env: &Environment, executor: Address, proposal_id: u64) -> (proposal: Result<
    Proposal,
    ContractError,
>)
    requires
        env.wf(),
    ensures
        rules::answers(proposal, rules::readiness_refusal(env@, executor, proposal_id)),
        proposal matches Ok(p) ==> {
            &&& p@ == env@.ledger.proposals[proposal_id]
            &&& p.id == proposal_id
            &&& env@.ledger.proposals.contains_key(proposal_id)
        },
{
    if let Err(e) = env.ledger.require_owner_and_weight(executor) {
        return Err(e);
    }
    if let Err(e) = env.ledger.require_not_frozen() {
        return Err(e);
    }
    let proposal: Proposal = match env.ledger.read_proposal(proposal_id) {
        Ok(proposal) => proposal,
        Err(e) => {
            return Err(e);
        },
    };
    let now: u64 = env.timestamp;
    let status: ProposalStatus = derive_status(&proposal, now);
    if status == ProposalStatus::Expired {
        return Err(ContractError::ProposalExpired);
    }
    if status != ProposalStatus::Ready {
        if proposal.approvals < proposal.quorum_weight {
            return Err(ContractError::ThresholdNotMet);
        }
        return Err(ContractError::ProposalNotActive);
    }
    let delay: u64 = env.ledger.time_lock_delay;
    if delay > 0 && now < proposal.ready_at.saturating_add(delay) {
        return Err(ContractError::TimeLockActive);
    }
    Ok(proposal)
}

/// What an enactment leaves behind: everything is done and told, or nothing is.
pub open spec fn enactment_done(
    before: EnvView,
    after: EnvView,
    proposal: Proposal,
    transfer_replies: Seq<bool>,
) -> bool {
    let now = before.timestamp;
    after == if rules::enactment_refusal(before.ledger, now, proposal@, transfer_replies) is Some {
        before
    } else {
        EnvView {
            ledger: rules::enacted(before.ledger, now, proposal@),
            events: before.events + rules::enactment_events(before.ledger, proposal@),
            ..before
        }
    }
}

/// Makes the payments of a proposal count as spent.
fn enact_transfer(
    env: &mut Environment,
    proposal: &Proposal,
    transfers: &Vec<Transfer>,
    transfer_replies: &Vec<bool>,
) -> (result: Result<(), ContractError>)
    requires
        old(env).wf(),
        proposal@.kind == KindView::Transfer(transfers@),
    ensures
        final(env).wf(),
        rules::answers(
            result,
            rules::enactment_refusal(
                old(env)@.ledger,
                old(env)@.timestamp,
                proposal@,
                transfer_replies@,
            ),
        ),
        enactment_done(old(env)@, final(env)@, *proposal, transfer_replies@),
{
    let now: u64 = env.timestamp;
    if !paid(transfers, transfer_replies) {
        return Err(ContractError::TransferFailed);
    }
    if !env.ledger.record_spends(now, proposal.proposer, transfers) {
        return Err(ContractError::ArithmeticError);
    }
    assert(env@.events =~= old(env)@.events + rules::enactment_events(
        old(env)@.ledger,
        proposal@,
    ));
    Ok(())
}

/// Adds an owner with the smallest weight, unless the owner was added meanwhile
/// or the wallet has as many owners as it may.
fn enact_add_owner(
    env: &mut Environment,
    proposal: &Proposal,
    new_owner: Address,
    transfer_replies: &Vec<bool>,
) -> (result: Result<(), ContractError>)
    requires
        old(env).wf(),
        old(env).ledger.owners is Some,
        proposal@.kind == KindView::AddOwner(new_owner),
    ensures
        final(env).wf(),
        rules::answers(
            result,
            rules::enactment_refusal(
                old(env)@.ledger,
                old(env)@.timestamp,
                proposal@,
                transfer_replies@,
            ),
        ),
        enactment_done(old(env)@, final(env)@, *proposal, transfer_replies@),
{
    let mut prev_count: u32 = 0;
    if let Some(owners) = &env.ledger.owners {
        if owners.contains_key(new_owner) {
            return Err(ContractError::DuplicateOwner);
        }
        prev_count = owners.len();
        if prev_count >= rules::MAX_OWNERS {
            return Err(ContractError::InvalidOwners);
        }
    }
    let total: u32 = match env.ledger.total_weight.checked_add(rules::MIN_OWNER_WEIGHT) {
        Some(total) => total,
        None => {
            return Err(ContractError::ArithmeticError);
        },
    };
    if let Some(owners) = &mut env.ledger.owners {
        owners.set(new_owner, rules::MIN_OWNER_WEIGHT);
    }
    env.ledger.total_weight = total;
    env.publish(
        Event::AddOwnerExecuted(
            AddOwnerExecutedEvent { new_owner, owner_count: prev_count + 1 },
        ),
    );
    assert(env@.events =~= old(env)@.events + rules::enactment_events(
        old(env)@.ledger,
        proposal@,
    ));
    Ok(())
}

/// Removes an owner.
fn enact_remove_owner(
    env: &mut Environment,
    proposal: &Proposal,
    removed_owner: Address,
    transfer_replies: &Vec<bool>,
) -> (result: Result<(), ContractError>)
    requires
        old(env).wf(),
        old(env).ledger.owners is Some,
        proposal@.kind == KindView::RemoveOwner(removed_owner),
        rules::owner_count(old(env)@.ledger) > 0,
    ensures
        final(env).wf(),
        rules::answers(
            result,
            rules::enactment_refusal(
                old(env)@.ledger,
                old(env)@.timestamp,
                proposal@,
                transfer_replies@,
            ),
        ),
        enactment_done(old(env)@, final(env)@, *proposal, transfer_replies@),
{
    let mut weight: u32 = 0;
    if let Ok(w) = env.ledger.require_owner_and_weight(removed_owner) {
        weight = w;
    }
    let total: u32 = match env.ledger.total_weight.checked_sub(weight) {
        Some(total) => total,
        None => {
            return Err(ContractError::ArithmeticError);
        },
    };
    let mut prev_count: u32 = 1;
    if let Some(owners) = &mut env.ledger.owners {
        prev_count = owners.len();
        owners.remove(removed_owner);
    }
    env.ledger.total_weight = total;
    env.publish(
        Event::RemoveOwnerExecuted(
            RemoveOwnerExecutedEvent { removed_owner, owner_count: prev_count - 1 },
        ),
    );
    assert(env@.events =~= old(env)@.events + rules::enactment_events(
        old(env)@.ledger,
        proposal@,
    ));
    Ok(())
}

/// Changes the threshold.
fn enact_change_threshold(
    env: &mut Environment,
    proposal: &Proposal,
    new_threshold: u32,
    transfer_replies: &Vec<bool>,
)
    requires
        old(env).wf(),
        proposal@.kind == KindView::ChangeThreshold(new_threshold),
    ensures
        final(env).wf(),
        enactment_done(old(env)@, final(env)@, *proposal, transfer_replies@),
{
    let previous_threshold: u32 = match env.ledger.threshold {
        Some(threshold) => threshold,
        None => 0,
    };
    env.ledger.threshold = Some(new_threshold);
    env.publish(
        Event::ChangeThresholdExecuted(
            ChangeThresholdExecutedEvent { previous_threshold, new_threshold },
        ),
    );
    assert(env@.events =~= old(env)@.events + rules::enactment_events(
        old(env)@.ledger,
        proposal@,
    ));
}

/// Sets a spending limit and begins a window with nothing spent.
fn enact_set_spending_limit(
    env: &mut Environment,
    proposal: &Proposal,
    owner: Address,
    token: Address,
    limit: i128,
    transfer_replies: &Vec<bool>,
)
    requires
        old(env).wf(),
        proposal@.kind == KindView::SetSpendingLimit(owner, token, limit),
    ensures
        final(env).wf(),
        enactment_done(old(env)@, final(env)@, *proposal, transfer_replies@),
{
    let previous_limit: Option<i128> = env.ledger.read_spending_limit(owner, token);
    let now: u64 = env.timestamp;
    env.ledger.write_spending_limit(owner, token, limit);
    env.ledger.write_spent_tracker(owner, token, SpentTracker { spent: 0, epoch: now });
    env.publish(
        Event::SetSpendingLimitExecuted(
            SetSpendingLimitExecutedEvent { owner, token, previous_limit, new_limit: limit },
        ),
    );
    assert(env@.events =~= old(env)@.events + rules::enactment_events(
        old(env)@.ledger,
        proposal@,
    ));
}

/// Changes the weight of an owner, unless an active proposal could no longer
/// reach its quorum.
fn enact_change_weight(
    env: &mut Environment,
    proposal: &Proposal,
    target_owner: Address,
    new_weight: u32,
    transfer_replies: &Vec<bool>,
) -> (result: Result<(), ContractError>)
    requires
        old(env).wf(),
        old(env).ledger.owners is Some,
        proposal@.kind == KindView::ChangeOwnerWeight(target_owner, new_weight),
    ensures
        final(env).wf(),
        rules::answers(
            result,
            rules::enactment_refusal(
                old(env)@.ledger,
                old(env)@.timestamp,
                proposal@,
                transfer_replies@,
            ),
        ),
        enactment_done(old(env)@, final(env)@, *proposal, transfer_replies@),
{
    let total: u32 = match env.ledger.check_reweight(target_owner, new_weight) {
        Ok(total) => total,
        Err(e) => {
            return Err(e);
        },
    };
    if env.ledger.quorum_broken(env.timestamp, total) {
        return Err(ContractError::WouldBreakThreshold);
    }
    if let Some(owners) = &mut env.ledger.owners {
        owners.set(target_owner, new_weight);
    }
    env.ledger.total_weight = total;
    assert(env@.events =~= old(env)@.events + rules::enactment_events(
        old(env)@.ledger,
        proposal@,
    ));
    Ok(())
}

impl AccordContract {
    /// The payments that executing a proposal makes, in order, or why it cannot
    /// be executed yet. The caller makes them and hands the replies to
    /// [`AccordContract::execute`].
    pub fn transfers_due(env: &Environment, executor: Address, proposal_id: u64) -> (due: Result<
        Vec<Transfer>,
        ContractError,
    >)
        requires
            env.wf(),
        ensures
            rules::answers(due, rules::readiness_refusal(env@, executor, proposal_id)),
            due matches Ok(transfers) ==> transfers@
                == env@.ledger.proposals[proposal_id].kind.transfers(),
    {
        match check_ready(env, executor, proposal_id) {
            Ok(proposal) => Ok(proposal.kind.transfers()),
            Err(e) => Err(e),
        }
    }

    /// Executes a `Ready` proposal. For transfer proposals, `transfer_replies`
    /// says of each payment whether it was made; one that was not refuses the
    /// execution. For the other kinds, the change is applied, unless it no longer
    /// may be: nobody is added twice or as one owner too many, and a weight
    /// change must still be within its bounds. Only owners may execute.
    ///
    /// Enforces the time-lock: execution is refused until `time_lock_delay` has
    /// elapsed since the quorum was first reached.
    ///
    /// A refused execution changes nothing: an expired proposal needs no mark,
    /// since its status and the number of active proposals are derived whenever
    /// they are read.
    pub fn execute(
        env: &mut Environment,
        executor: Address,
        proposal_id: u64,
        transfer_replies: &Vec<bool>,
    ) -> (result: Result<(), ContractError>)
        requires
            old(env).wf(),
        ensures
            final(env).wf(),
            rules::answers(
                result,
                rules::execute_refusal(old(env)@, executor, proposal_id, transfer_replies@),
            ),
            final(env)@ == rules::execute_effect(
                old(env)@,
                executor,
                proposal_id,
                transfer_replies@,
            ),
    {
        let ghost v = env@;
        env.require_auth(executor);
        let mut proposal: Proposal = match check_ready(env, executor, proposal_id) {
            Ok(proposal) => proposal,
            Err(e) => {
                return Err(e);
            },
        };
        let ghost p = proposal@;
        proof {
            if let Some(owners) = &env.ledger.owners {
                owners.lemma_finite();
                assert(owners@.dom().contains(executor));
                assert(owners@.dom().len() > 0);
            }
        }
        let enacted: Result<(), ContractError> = match &proposal.kind {
            ProposalKind::Transfer(transfers) => enact_transfer(
                env,
                &proposal,
                transfers,
                transfer_replies,
            ),
            ProposalKind::AddOwner(owner) => enact_add_owner(
                env,
                &proposal,
                *owner,
                transfer_replies,
            ),
            ProposalKind::RemoveOwner(owner) => enact_remove_owner(
                env,
                &proposal,
                *owner,
                transfer_replies,
            ),
            ProposalKind::ChangeThreshold(threshold) => {
                enact_change_threshold(env, &proposal, *threshold, transfer_replies);
                Ok(())
            },
            ProposalKind::SetSpendingLimit(owner, token, limit) => {
                enact_set_spending_limit(
                    env,
                    &proposal,
                    *owner,
                    *token,
                    *limit,
                    transfer_replies,
                );
                Ok(())
            },
            ProposalKind::ChangeOwnerWeight(owner, weight) => enact_change_weight(
                env,
                &proposal,
                *owner,
                *weight,
                transfer_replies,
            ),
        };
        if let Err(e) = enacted {
            return Err(e);
        }
        let ghost mid = env@;
        let transfers: Vec<Transfer> = proposal.kind.transfers();
        let now: u64 = env.timestamp;
        proposal.status = ProposalStatus::Executed;
        env.ledger.write_proposal(proposal);
        let active: u32 = env.ledger.read_active_count(now);
        env.ledger.active_count = active;
        proof {
            assert(env@.ledger =~= rules::closed_out(mid.ledger, now, p));
        }
        env.publish(
            Event::ProposalExecuted(
                ProposalExecutedEvent { id: proposal_id, executor, transfers },
            ),
        );
        assert(env@ =~= rules::execute_effect(v, executor, proposal_id, transfer_replies@));
        Ok(())
    }

    /// Counts which of a list of ids currently derive to `Expired` and, if there
    /// are any, notes the number of active proposals afresh. Ids without a proposal, and proposals that
    /// have not expired, are skipped. Only owners may call this.
    ///
    /// Returns the number of proposals swept.
    pub fn cancel_expired(env: &mut Environment, caller: Address, ids: &Vec<u64>) -> (swept: Result<
        u32,
        ContractError,
    >)
        requires
            old(env).wf(),
        ensures
            final(env).wf(),
            rules::answers(swept, rules::owner_refusal(old(env)@.ledger, caller)),
            swept matches Ok(n) ==> n == rules::counted(
                rules::expired_among(old(env)@.ledger, old(env)@.timestamp, ids@),
            ),
            final(env)@ == rules::cancel_expired_effect(old(env)@, caller, ids@),
    {
        env.require_auth(caller);
        if let Err(e) = env.ledger.require_owner_and_weight(caller) {
            return Err(e);
        }
        let now: u64 = env.timestamp;
        let mut swept: u32 = 0;
        let mut i: usize = 0;
        let ghost s = env@.ledger;
        assert(ids@.take(0) =~= Seq::<u64>::empty());
        while i < ids.len()
            invariant
                env.wf(),
                s == env@.ledger,
                i <= ids@.len(),
                swept == rules::counted(rules::expired_among(s, now, ids@.take(i as int))),
            decreases ids@.len() - i,
        {
            proof {
                assert(ids@.take(i + 1).drop_last() =~= ids@.take(i as int));
                assert(ids@.take(i + 1).last() == ids@[i as int]);
            }
            if let Some(proposal) = env.ledger.proposals.get(ids[i]) {
                if derive_status(proposal, now) == ProposalStatus::Expired {
                    swept = swept.saturating_add(1);
                }
            }
            i = i + 1;
        }
        assert(ids@.take(i as int) =~= ids@);
        if swept > 0 {
            let active: u32 = env.ledger.read_active_count(now);
            env.ledger.active_count = active;
        }
        Ok(swept)
    }
}

} // verus!
