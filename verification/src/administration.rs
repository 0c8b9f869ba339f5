//! Decisions that co-signing owners take at once: the guardian, the freeze, the
//! largest share of one owner, and the code of the wallet.

use crate::contract::AccordContract;
use crate::ledger::{EnvView, Environment};
use crate::owners::distinct;
use crate::rules;
use crate::types::{
    duplicate, Address, ContractError, Event, FrozenEvent, GuardianSetEvent, UnfrozenEvent,
    UpgradeExecutedEvent,
};
use vstd::prelude::*;

verus! {

/// Asks the co-signers and refuses unless they are distinct owners whose weights
/// together reach the threshold. Nobody's weight counts twice.
fn require_weighted_approvers(env: &mut Environment, approvers: &Vec<Address>) -> (result: Result<
    (),
    ContractError,
>)
    requires
        old(env).wf(),
    ensures
        final(env).wf(),
        rules::answers(result, rules::quorum_refusal(old(env)@.ledger, approvers@)),
        final(env)@ == rules::cosigners_asked(old(env)@, approvers@),
{
    let ghost v = env@;
    let ghost s = env@.ledger;
    if !distinct(approvers) {
        return Err(ContractError::DuplicateOwner);
    }
    let threshold: u32 = match env.ledger.threshold {
        Some(threshold) => threshold,
        None => {
            return Err(ContractError::NotInitialized);
        },
    };
    let mut weight: u32 = 0;
    let mut i: usize = 0;
    assert(v.auths + approvers@.take(0) =~= v.auths);
    while i < approvers.len()
        invariant
            env.wf(),
            v == old(env)@,
            s == v.ledger,
            env@ == (EnvView { auths: v.auths + approvers@.take(i as int), ..v }),
            approvers@.no_duplicates(),
            s.threshold == Some(threshold),
            i <= approvers@.len(),
            weight == rules::weight_upto(s, approvers@, i as int),
            rules::tally_refusal(s, approvers@, 0) == rules::tally_refusal(
                s,
                approvers@,
                i as int,
            ),
            rules::asked_from(s, approvers@, 0) == i + rules::asked_from(
                s,
                approvers@,
                i as int,
            ),
        decreases approvers@.len() - i,
    {
        let approver: Address = approvers[i];
        proof {
            assert(approvers@.take(i + 1) =~= approvers@.take(i as int).push(approver));
            assert((v.auths + approvers@.take(i as int)).push(approver) =~= v.auths
                + approvers@.take(i + 1));
        }
        env.require_auth(approver);
        let approver_weight: u32 = match env.ledger.require_owner_and_weight(approver) {
            Ok(weight) => weight,
            Err(e) => {
                return Err(e);
            },
        };
        weight = match weight.checked_add(approver_weight) {
            Some(weight) => weight,
            None => {
                return Err(ContractError::ArithmeticError);
            },
        };
        i = i + 1;
    }
    if weight < threshold {
        return Err(ContractError::ThresholdNotMet);
    }
    Ok(())
}

impl AccordContract {
    /// Sets the largest share of the total weight, in percent, that a weight
    /// change may give one owner: from 1 to 50. It may be tightened, but never
    /// relaxed above 50: that would let a weight change grant a majority.
    pub fn set_max_single_owner_weight_pct(
        env: &mut Environment,
        approvers: &Vec<Address>,
        max_pct: u32,
    ) -> (result: Result<(), ContractError>)
        requires
            old(env).wf(),
        ensures
            final(env).wf(),
            rules::answers(
                result,
                rules::set_max_pct_refusal(old(env)@.ledger, approvers@, max_pct),
            ),
            final(env)@ == rules::set_max_pct_effect(old(env)@, approvers@, max_pct),
    {
        if max_pct == 0 || max_pct > rules::MAX_SINGLE_OWNER_WEIGHT_PCT {
            return Err(ContractError::InvalidWeight);
        }
        if let Err(e) = require_weighted_approvers(env, approvers) {
            return Err(e);
        }
        env.ledger.max_single_owner_weight_pct = max_pct;
        Ok(())
    }

    /// Names the guardian, or another one.
    pub fn set_guardian(
        env: &mut Environment,
        approvers: &Vec<Address>,
        new_guardian: Address,
    ) -> (result: Result<(), ContractError>)
        requires
            old(env).wf(),
        ensures
            final(env).wf(),
            rules::answers(result, rules::quorum_refusal(old(env)@.ledger, approvers@)),
            final(env)@ == rules::set_guardian_effect(old(env)@, approvers@, new_guardian),
    {
        if let Err(e) = require_weighted_approvers(env, approvers) {
            return Err(e);
        }
        env.ledger.guardian = Some(new_guardian);
        env.publish(Event::GuardianSet(GuardianSetEvent { guardian: new_guardian }));
        Ok(())
    }

    /// Freezes the wallet at once, which blocks new proposals and executions.
    /// Only the guardian may do so.
    pub fn freeze(env: &mut Environment, guardian: Address) -> (result: Result<(), ContractError>)
        requires
            old(env).wf(),
        ensures
            final(env).wf(),
            rules::answers(result, rules::freeze_refusal(old(env)@.ledger, guardian)),
            final(env)@ == rules::freeze_effect(old(env)@, guardian),
    {
        env.require_auth(guardian);
        let stored: Address = match env.ledger.guardian {
            Some(stored) => stored,
            None => {
                return Err(ContractError::NoGuardian);
            },
        };
        if stored != guardian {
            return Err(ContractError::Unauthorized);
        }
        env.ledger.frozen = true;
        env.publish(Event::Frozen(FrozenEvent { guardian }));
        Ok(())
    }

    /// Ends a freeze.
    pub fn unfreeze(env: &mut Environment, approvers: &Vec<Address>) -> (result: Result<
        (),
        ContractError,
    >)
        requires
            old(env).wf(),
        ensures
            final(env).wf(),
            rules::answers(result, rules::quorum_refusal(old(env)@.ledger, approvers@)),
            final(env)@ == rules::unfreeze_effect(old(env)@, approvers@),
    {
        if let Err(e) = require_weighted_approvers(env, approvers) {
            return Err(e);
        }
        env.ledger.frozen = false;
        env.publish(Event::Unfrozen(UnfrozenEvent { approvers: duplicate(approvers) }));
        Ok(())
    }

    /// Has the code of the wallet replaced; what it stores is kept. The first
    /// co-signer is named as the caller.
    ///
    /// # Arguments
    /// * `approvers` - Distinct owners whose weights together reach the
    ///   threshold. Each must authorize. Where the threshold is 0, at least one.
    /// * `new_wasm_hash` - The hash of the new code.
    pub fn upgrade(
        env: &mut Environment,
        approvers: &Vec<Address>,
        new_wasm_hash: [u8; 32],
    ) -> (result: Result<(), ContractError>)
        requires
            old(env).wf(),
            approvers@.len() > 0 || old(env)@.ledger.threshold != Some(0u32),
        ensures
            final(env).wf(),
            rules::answers(result, rules::quorum_refusal(old(env)@.ledger, approvers@)),
            final(env)@ == rules::upgrade_effect(old(env)@, approvers@, new_wasm_hash),
    {
        if let Err(e) = require_weighted_approvers(env, approvers) {
            return Err(e);
        }
        let caller: Address = approvers[0];
        env.new_wasm = Some(new_wasm_hash);
        env.publish(Event::UpgradeExecuted(UpgradeExecutedEvent { caller, new_wasm_hash }));
        Ok(())
    }
}

} // verus!
