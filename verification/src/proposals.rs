//! Filing proposals.

use crate::contract::AccordContract;
use crate::ledger::Environment;
use crate::rules;
use crate::spending;
use crate::spending::token_totals;
use crate::types::{
    Address, ContractError, Event, KindView, Proposal, ProposalCategory, ProposalCreatedEvent,
    ProposalKind, ProposalStatus, TokenReply, Transfer,
};
use vstd::prelude::*;

verus! {

/// Refuses anyone who may not propose.
fn check_actor(env: &Environment, proposer: Address) -> (result: Result<(), ContractError>)
    requires
        env.wf(),
    ensures
        rules::answers(result, rules::actor_refusal(env@.ledger, proposer)),
{
    match env.ledger.require_owner_and_weight(proposer) {
        Ok(_) => env.ledger.require_not_frozen(),
        Err(e) => Err(e),
    }
}

/// Files and announces a proposal of an owner, and gives its id.
fn file_proposal(
    env: &mut Environment,
    proposer: Address,
    kind: ProposalKind,
    description: Vec<u8>,
    deadline: u64,
    category: ProposalCategory,
) -> (result: Result<u64, ContractError>)
    requires
        old(env).wf(),
    ensures
        final(env).wf(),
        rules::answers(
            result,
            rules::filing_refusal(
                old(env)@.ledger,
                old(env)@.timestamp,
                description@,
                deadline,
            ),
        ),
        result matches Ok(id) ==> id == old(env)@.ledger.next_id,
        final(env)@ == (if result is Ok {
            rules::filed(old(env)@, proposer, kind@, description@, deadline, category)
        } else {
            old(env)@
        }),
{
    if description.len() == 0 {
        return Err(ContractError::EmptyDescription);
    }
    if description.len() > rules::MAX_DESCRIPTION_LEN as usize {
        return Err(ContractError::DescriptionTooLong);
    }
    let now: u64 = env.timestamp;
    if deadline <= now {
        return Err(ContractError::InvalidDeadline);
    }
    if deadline - now > rules::MAX_PROPOSAL_DURATION {
        return Err(ContractError::InvalidDuration);
    }
    let active: u32 = env.ledger.read_active_count(now);
    if active >= rules::MAX_ACTIVE_PROPOSALS {
        return Err(ContractError::TooManyActiveProposals);
    }
    let threshold: u32 = match env.ledger.threshold {
        Some(threshold) => threshold,
        None => {
            return Err(ContractError::NotInitialized);
        },
    };
    let id: u64 = env.ledger.next_id;
    let next_id: u64 = match id.checked_add(1) {
        Some(next_id) => next_id,
        None => {
            return Err(ContractError::ArithmeticError);
        },
    };
    let transfers: Vec<Transfer> = kind.transfers();
    let total_weight: u32 = env.ledger.total_weight;
    env.ledger.next_id = next_id;
    env.ledger.write_proposal(
        Proposal {
            id,
            proposer,
            description,
            deadline,
            approvals: 0,
            status: ProposalStatus::Pending,
            kind,
            ready_at: 0,
            quorum_weight: threshold,
            category,
        },
    );
    env.ledger.active_count = active + 1;
    env.publish(
        Event::ProposalCreated(
            ProposalCreatedEvent {
                id,
                proposer,
                threshold,
                category,
                transfers,
                quorum_weight: threshold,
                total_weight_at_creation: total_weight,
            },
        ),
    );
    Ok(id)
}

/// Refuses a contract that does not answer as a token does.
pub fn validate_token(reply: TokenReply) -> (result: Result<(), ContractError>)
    ensures
        rules::answers(result, rules::when(!rules::is_token(reply), ContractError::InvalidToken)),
{
    if !reply.decimals || !reply.symbol || !reply.name {
        return Err(ContractError::InvalidToken);
    }
    Ok(())
}

/// Refuses payments that cannot be proposed, whatever they add up to.
pub fn check_payments(
    env: &Environment,
    proposer: Address,
    transfers: &Vec<Transfer>,
    token_replies: &Vec<TokenReply>,
) -> (result: Result<(), ContractError>)
    requires
        env.wf(),
    ensures
        rules::answers(
            result,
            rules::payments_refusal(env@, proposer, transfers@, token_replies@),
        ),
{
    if let Err(e) = check_actor(env, proposer) {
        return Err(e);
    }
    if transfers.len() == 0 || transfers.len() > rules::MAX_TRANSFERS {
        return Err(ContractError::InvalidAmount);
    }
    let mut i: usize = 0;
    while i < transfers.len()
        invariant
            i <= transfers@.len(),
            rules::payments_refusal(env@, proposer, transfers@, token_replies@)
                == rules::transfers_refusal(
                transfers@,
                token_replies@,
                env@.contract,
                i as int,
            ),
        decreases transfers@.len() - i,
    {
        if transfers[i].amount < rules::MIN_AMOUNT {
            return Err(ContractError::InvalidAmount);
        }
        if i >= token_replies.len() {
            return Err(ContractError::InvalidToken);
        }
        if let Err(e) = validate_token(token_replies[i]) {
            return Err(e);
        }
        if transfers[i].to == env.contract {
            return Err(ContractError::InvalidRecipient);
        }
        i = i + 1;
    }
    Ok(())
}

/// The total of a token among totals that name it.
fn total_in(
    transfers: &Vec<Transfer>,
    totals: &Vec<(Address, i128)>,
    token: Address,
) -> (total: i128)
    requires
        spending::totals_of(transfers@, totals@),
        spending::names_token(totals@, token),
    ensures
        total == rules::token_total(transfers@, token),
{
    let mut j: usize = 0;
    while totals[j].0 != token
        invariant
            j < totals.len(),
            spending::names_token(totals@, token),
            forall|k: int| 0 <= k < j ==> (#[trigger] totals@[k]).0 != token,
        decreases totals@.len() - j,
    {
        proof {
            let w: int = choose|w: int| 0 <= w < totals@.len() && (#[trigger] totals@[w]).0 == token;
            assert(j < w);
        }
        j = j + 1;
    }
    totals[j].1
}

/// Refuses payments that an owner's spending limits stand against.
fn check_limits(
    env: &Environment,
    owner: Address,
    transfers: &Vec<Transfer>,
    totals: &Vec<(Address, i128)>,
) -> (result: Result<(), ContractError>)
    requires
        env.wf(),
        spending::totals_of(transfers@, totals@),
    ensures
        rules::answers(
            result,
            rules::limits_refusal(env@.ledger, env@.timestamp, owner, transfers@, 0),
        ),
{
    let mut i: usize = 0;
    while i < transfers.len()
        invariant
            env.wf(),
            spending::totals_of(transfers@, totals@),
            i <= transfers@.len(),
            rules::limits_refusal(env@.ledger, env@.timestamp, owner, transfers@, 0)
                == rules::limits_refusal(
                env@.ledger,
                env@.timestamp,
                owner,
                transfers@,
                i as int,
            ),
        decreases transfers@.len() - i,
    {
        let token: Address = transfers[i].token;
        if let Some(limit) = env.ledger.read_spending_limit(owner, token) {
            let total: i128 = total_in(transfers, totals, token);
            let spent: i128 = env.ledger.effective_spent(env.timestamp, owner, token);
            match total.checked_add(spent) {
                None => {
                    return Err(ContractError::ArithmeticError);
                },
                Some(cumulative) => {
                    if cumulative > limit {
                        return Err(ContractError::SpendingLimitExceeded);
                    }
                },
            }
        }
        i = i + 1;
    }
    Ok(())
}

impl AccordContract {
    /// The tokens that must be asked for their decimals, symbol and name before
    /// an owner proposes payments: one for each payment, in order, up to the
    /// first that is refused anyway.
    pub fn tokens_to_ask(env: &Environment, proposer: Address, transfers: &Vec<Transfer>) -> (tokens:
        Vec<Address>)
        requires
            env.wf(),
        ensures
            tokens@ == rules::queried_tokens(env@, proposer, transfers@),
    {
        let mut tokens: Vec<Address> = Vec::new();
        if check_actor(env, proposer).is_err() {
            return tokens;
        }
        if transfers.len() == 0 || transfers.len() > rules::MAX_TRANSFERS {
            return tokens;
        }
        let mut i: usize = 0;
        while i < transfers.len()
            invariant
                i <= transfers@.len(),
                tokens@.len() == i,
                forall|k: int| 0 <= k < i ==> tokens@[k] == (#[trigger] transfers@[k]).token,
                rules::actor_refusal(env@.ledger, proposer) is None,
                0 < transfers@.len() <= rules::MAX_TRANSFERS,
                rules::queried_from(transfers@, env@.contract, 0) == i + rules::queried_from(
                    transfers@,
                    env@.contract,
                    i as int,
                ),
            decreases transfers@.len() - i,
        {
            if transfers[i].amount < rules::MIN_AMOUNT {
                return tokens;
            }
            tokens.push(transfers[i].token);
            if transfers[i].to == env.contract {
                return tokens;
            }
            i = i + 1;
        }
        tokens
    }

    /// Proposes one or more payments and gives the id of the proposal.
    ///
    /// # Arguments
    /// * `proposer` - The owner who proposes. Must authorize.
    /// * `transfers` - The payments, from 1 to 3, each of at least 1 of a valid
    ///   token and not to the wallet itself.
    /// * `description` - What the proposal is for, at most 300 bytes.
    /// * `deadline` - The time after which the proposal has expired.
    /// * `token_replies` - What came of asking the token of each payment. A
    ///   payment without a reply is one whose token did not answer.
    ///
    /// The payments that pass every other test must add up, per token, to what
    /// an amount can hold.
    pub fn create_proposal(
        env: &mut Environment,
        proposer: Address,
        transfers: Vec<Transfer>,
        description: Vec<u8>,
        deadline: u64,
        category: ProposalCategory,
        token_replies: &Vec<TokenReply>,
    ) -> (result: Result<u64, ContractError>)
        requires
            old(env).wf(),
            rules::payments_refusal(old(env)@, proposer, transfers@, token_replies@) is None
                ==> rules::totals_fit(transfers@),
        ensures
            final(env).wf(),
            rules::answers(
                result,
                rules::create_proposal_refusal(
                    old(env)@,
                    proposer,
                    transfers@,
                    description@,
                    deadline,
                    token_replies@,
                ),
            ),
            result matches Ok(id) ==> id == old(env)@.ledger.next_id,
            final(env)@ == rules::filing_effect(
                old(env)@,
                rules::create_proposal_refusal(
                    old(env)@,
                    proposer,
                    transfers@,
                    description@,
                    deadline,
                    token_replies@,
                ),
                proposer,
                KindView::Transfer(transfers@),
                description@,
                deadline,
                category,
            ),
    {
        env.require_auth(proposer);
        if let Err(e) = check_payments(env, proposer, &transfers, token_replies) {
            return Err(e);
        }
        let totals: Vec<(Address, i128)> = match token_totals(&transfers) {
            Some(totals) => totals,
            None => {
                return Err(ContractError::ArithmeticError);
            },
        };
        if let Err(e) = check_limits(env, proposer, &transfers, &totals) {
            return Err(e);
        }
        file_proposal(
            env,
            proposer,
            ProposalKind::Transfer(transfers),
            description,
            deadline,
            category,
        )
    }

    /// Proposes a new owner.
    pub fn create_add_owner_proposal(
        env: &mut Environment,
        proposer: Address,
        new_owner: Address,
        description: Vec<u8>,
        deadline: u64,
    ) -> (result: Result<u64, ContractError>)
        requires
            old(env).wf(),
        ensures
            final(env).wf(),
            rules::answers(
                result,
                rules::create_add_owner_refusal(
                    old(env)@,
                    proposer,
                    new_owner,
                    description@,
                    deadline,
                ),
            ),
            result matches Ok(id) ==> id == old(env)@.ledger.next_id,
            final(env)@ == rules::filing_effect(
                old(env)@,
                rules::create_add_owner_refusal(
                    old(env)@,
                    proposer,
                    new_owner,
                    description@,
                    deadline,
                ),
                proposer,
                KindView::AddOwner(new_owner),
                description@,
                deadline,
                ProposalCategory::Other,
            ),
    {
        env.require_auth(proposer);
        if let Err(e) = check_actor(env, proposer) {
            return Err(e);
        }
        match &env.ledger.owners {
            None => {
                return Err(ContractError::NotInitialized);
            },
            Some(owners) => {
                if owners.contains_key(new_owner) {
                    return Err(ContractError::DuplicateOwner);
                }
                if owners.len() >= rules::MAX_OWNERS {
                    return Err(ContractError::InvalidOwners);
                }
            },
        }
        file_proposal(
            env,
            proposer,
            ProposalKind::AddOwner(new_owner),
            description,
            deadline,
            ProposalCategory::Other,
        )
    }

    /// Proposes to set, or change, the spending limit of an owner for a token:
    /// a cap on what the owner may propose to spend of it. A limit of 0 blocks
    /// the token for the owner.
    pub fn create_spending_limit_proposal(
        env: &mut Environment,
        proposer: Address,
        owner: Address,
        token: Address,
        limit: i128,
        description: Vec<u8>,
        deadline: u64,
    ) -> (result: Result<u64, ContractError>)
        requires
            old(env).wf(),
        ensures
            final(env).wf(),
            rules::answers(
                result,
                rules::create_spending_limit_refusal(
                    old(env)@,
                    proposer,
                    limit,
                    description@,
                    deadline,
                ),
            ),
            result matches Ok(id) ==> id == old(env)@.ledger.next_id,
            final(env)@ == rules::filing_effect(
                old(env)@,
                rules::create_spending_limit_refusal(
                    old(env)@,
                    proposer,
                    limit,
                    description@,
                    deadline,
                ),
                proposer,
                KindView::SetSpendingLimit(owner, token, limit),
                description@,
                deadline,
                ProposalCategory::Other,
            ),
    {
        env.require_auth(proposer);
        if let Err(e) = check_actor(env, proposer) {
            return Err(e);
        }
        if limit < 0 {
            return Err(ContractError::InvalidAmount);
        }
        file_proposal(
            env,
            proposer,
            ProposalKind::SetSpendingLimit(owner, token, limit),
            description,
            deadline,
            ProposalCategory::Other,
        )
    }

    /// Proposes another voting weight for an owner.
    ///
    /// # Arguments
    /// * `proposer` - The owner who proposes. Must authorize.
    /// * `target_owner` - The owner whose weight is to change.
    /// * `new_weight` - From 1 to 100,000, and no more than the configured share
    ///   of the total weight that results. To take the vote away, remove the
    ///   owner.
    pub fn create_change_weight_proposal(
        env: &mut Environment,
        proposer: Address,
        target_owner: Address,
        new_weight: u32,
        description: Vec<u8>,
        deadline: u64,
    ) -> (result: Result<u64, ContractError>)
        requires
            old(env).wf(),
        ensures
            final(env).wf(),
            rules::answers(
                result,
                rules::create_change_weight_refusal(
                    old(env)@,
                    proposer,
                    target_owner,
                    new_weight,
                    description@,
                    deadline,
                ),
            ),
            result matches Ok(id) ==> id == old(env)@.ledger.next_id,
            final(env)@ == rules::filing_effect(
                old(env)@,
                rules::create_change_weight_refusal(
                    old(env)@,
                    proposer,
                    target_owner,
                    new_weight,
                    description@,
                    deadline,
                ),
                proposer,
                KindView::ChangeOwnerWeight(target_owner, new_weight),
                description@,
                deadline,
                ProposalCategory::Other,
            ),
    {
        env.require_auth(proposer);
        if let Err(e) = check_actor(env, proposer) {
            return Err(e);
        }
        if let Err(e) = env.ledger.check_reweight(target_owner, new_weight) {
            return Err(e);
        }
        file_proposal(
            env,
            proposer,
            ProposalKind::ChangeOwnerWeight(target_owner, new_weight),
            description,
            deadline,
            ProposalCategory::Other,
        )
    }

    /// Proposes to remove an owner. The weight that stays must still reach the
    /// threshold.
    pub fn create_remove_owner_proposal(
        env: &mut Environment,
        proposer: Address,
        owner_to_remove: Address,
        description: Vec<u8>,
        deadline: u64,
    ) -> (result: Result<u64, ContractError>)
        requires
            old(env).wf(),
        ensures
            final(env).wf(),
            rules::answers(
                result,
                rules::create_remove_owner_refusal(
                    old(env)@,
                    proposer,
                    owner_to_remove,
                    description@,
                    deadline,
                ),
            ),
            result matches Ok(id) ==> id == old(env)@.ledger.next_id,
            final(env)@ == rules::filing_effect(
                old(env)@,
                rules::create_remove_owner_refusal(
                    old(env)@,
                    proposer,
                    owner_to_remove,
                    description@,
                    deadline,
                ),
                proposer,
                KindView::RemoveOwner(owner_to_remove),
                description@,
                deadline,
                ProposalCategory::Other,
            ),
    {
        env.require_auth(proposer);
        if let Err(e) = check_actor(env, proposer) {
            return Err(e);
        }
        let threshold: u32 = match env.ledger.threshold {
            Some(threshold) => threshold,
            None => {
                return Err(ContractError::NotInitialized);
            },
        };
        let weight: u32 = match env.ledger.require_owner_and_weight(owner_to_remove) {
            Ok(weight) => weight,
            Err(_) => {
                return Err(ContractError::OwnerNotFound);
            },
        };
        match env.ledger.total_weight.checked_sub(weight) {
            None => {
                return Err(ContractError::ArithmeticError);
            },
            Some(rest) => {
                if rest < threshold {
                    return Err(ContractError::WouldBreakThreshold);
                }
            },
        }
        file_proposal(
            env,
            proposer,
            ProposalKind::RemoveOwner(owner_to_remove),
            description,
            deadline,
            ProposalCategory::Other,
        )
    }

    /// Proposes another threshold: at least 1 and at most the total weight.
    pub fn create_change_threshold_proposal(
        env: &mut Environment,
        proposer: Address,
        new_threshold: u32,
        description: Vec<u8>,
        deadline: u64,
    ) -> (result: Result<u64, ContractError>)
        requires
            old(env).wf(),
        ensures
            final(env).wf(),
            rules::answers(
                result,
                rules::create_change_threshold_refusal(
                    old(env)@,
                    proposer,
                    new_threshold,
                    description@,
                    deadline,
                ),
            ),
            result matches Ok(id) ==> id == old(env)@.ledger.next_id,
            final(env)@ == rules::filing_effect(
                old(env)@,
                rules::create_change_threshold_refusal(
                    old(env)@,
                    proposer,
                    new_threshold,
                    description@,
                    deadline,
                ),
                proposer,
                KindView::ChangeThreshold(new_threshold),
                description@,
                deadline,
                ProposalCategory::Other,
            ),
    {
        env.require_auth(proposer);
        if let Err(e) = check_actor(env, proposer) {
            return Err(e);
        }
        if new_threshold == 0 || new_threshold > env.ledger.total_weight {
            return Err(ContractError::InvalidThreshold);
        }
        file_proposal(
            env,
            proposer,
            ProposalKind::ChangeThreshold(new_threshold),
            description,
            deadline,
            ProposalCategory::Other,
        )
    }
}

} // verus!
