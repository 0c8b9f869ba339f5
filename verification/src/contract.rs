//! The wallet and its setup.

use crate::ledger::{EnvView, Environment};
use crate::owners::{distinct, Owners};
use crate::rules;
use crate::types::{Address, ContractError};
use vstd::prelude::*;

verus! {

/// A wallet with several owners, who decide by weight.
///
/// Every request is answered in an [`Environment`]. A request that is refused
/// leaves the ledger as it was and tells nothing.
pub struct AccordContract;

/// A longer list of weights adds its last one to the total.
proof fn lemma_weights_total_step(weights: Seq<u32>, i: int)
    requires
        0 <= i < weights.len(),
    ensures
        rules::weights_total(weights.take(i + 1)) == rules::weights_total(weights.take(i))
            + weights[i],
{
    assert(weights.take(i + 1).drop_last() =~= weights.take(i));
}

/// A longer list of owners gives its last one a weight.
proof fn lemma_paired_step(owners: Seq<Address>, weights: Seq<u32>, i: int)
    requires
        0 <= i < owners.len(),
        owners.len() == weights.len(),
    ensures
        rules::paired(owners.take(i + 1), weights.take(i + 1)) == rules::paired(
            owners.take(i),
            weights.take(i),
        ).insert(owners[i], weights[i]),
{
    assert(owners.take(i + 1).drop_last() =~= owners.take(i));
    assert(weights.take(i + 1).drop_last() =~= weights.take(i));
}

impl AccordContract {
    /// Sets the wallet up, once: the owners with their weights, the threshold,
    /// and a time-lock delay in seconds, where 0 means no time-lock.
    ///
    /// # Arguments
    /// * `owners` - Distinct owners, at least one and at most 20. Each must
    ///   authorize.
    /// * `weights` - The weight of each owner.
    /// * `threshold` - The weight that a decision needs, at least 1 and at most
    ///   the sum of the weights.
    /// * `time_lock_delay` - How long a proposal waits after it has reached its
    ///   quorum before it can be executed.
    pub fn initialize(
        env: &mut Environment,
        owners: &Vec<Address>,
        weights: &Vec<u32>,
        threshold: u32,
        time_lock_delay: u64,
    ) -> (result: Result<(), ContractError>)
        requires
            old(env).wf(),
        ensures
            final(env).wf(),
            rules::answers(
                result,
                rules::initialize_refusal(old(env)@.ledger, owners@, weights@, threshold),
            ),
            final(env)@ == rules::initialize_effect(
                old(env)@,
                owners@,
                weights@,
                threshold,
                time_lock_delay,
            ),
    {
        let ghost v = env@;
        if env.ledger.initialized {
            return Err(ContractError::AlreadyInitialized);
        }
        let n: usize = owners.len();
        if n == 0 || n > rules::MAX_OWNERS as usize {
            return Err(ContractError::InvalidOwners);
        }
        if n != weights.len() {
            return Err(ContractError::InvalidWeightsLength);
        }
        if !distinct(owners) {
            return Err(ContractError::DuplicateOwner);
        }
        let mut list: Owners = Owners::new(&env.host);
        let mut total_weight: u32 = 0;
        let mut i: usize = 0;
        proof {
            assert(owners@.take(0) =~= Seq::<Address>::empty());
            assert(weights@.take(0) =~= Seq::<u32>::empty());
            assert(v.auths + owners@.take(0) =~= v.auths);
        }
        while i < n
            invariant
                env.wf(),
                v == old(env)@,
                n == owners@.len(),
                n == weights@.len(),
                n <= rules::MAX_OWNERS,
                i <= n,
                rules::setup_refusal(v.ledger, owners@, weights@) is None,
                env@ == (EnvView { auths: v.auths + owners@.take(i as int), ..v }),
                list.wf(),
                list@ == rules::paired(owners@.take(i as int), weights@.take(i as int)),
                total_weight == rules::weights_total(weights@.take(i as int)),
                total_weight <= i * rules::MAX_OWNER_WEIGHT,
                rules::valid_weights_from(weights@, 0) == i + rules::valid_weights_from(
                    weights@,
                    i as int,
                ),
                forall|k: int| 0 <= k < i ==> rules::is_weight(#[trigger] weights@[k]),
            decreases n - i,
        {
            let owner: Address = owners[i];
            let weight: u32 = weights[i];
            if weight < rules::MIN_OWNER_WEIGHT || weight > rules::MAX_OWNER_WEIGHT {
                assert(!rules::is_weight(weights@[i as int]));
                return Err(ContractError::InvalidWeight);
            }
            proof {
                lemma_weights_total_step(weights@, i as int);
                lemma_paired_step(owners@, weights@, i as int);
                assert(owners@.take(i + 1) =~= owners@.take(i as int).push(owner));
                assert((v.auths + owners@.take(i as int)).push(owner) =~= v.auths + owners@.take(
                    i + 1,
                ));
            }
            env.require_auth(owner);
            list.set(owner, weight);
            total_weight = total_weight + weight;
            i = i + 1;
        }
        proof {
            assert(owners@.take(n as int) =~= owners@);
            assert(weights@.take(n as int) =~= weights@);
        }
        if threshold == 0 || threshold > total_weight {
            return Err(ContractError::InvalidThreshold);
        }
        env.ledger.total_weight = total_weight;
        env.ledger.max_single_owner_weight_pct = rules::DEFAULT_MAX_SINGLE_OWNER_WEIGHT_PCT;
        env.ledger.owners = Some(list);
        env.ledger.threshold = Some(threshold);
        env.ledger.time_lock_delay = time_lock_delay;
        env.ledger.initialized = true;
        Ok(())
    }
}

} // verus!
