//! What can be asked of the wallet.

use crate::contract::AccordContract;
use crate::ledger::{derive_status, Environment};
use crate::owners;
use crate::rules;
use crate::types::{Address, ContractError, Proposal, ProposalView};
use vstd::prelude::*;

verus! {

impl AccordContract {
    /// The owners whose approval of a proposal stands, in ascending order.
    pub fn get_approvers(env: &Environment, proposal_id: u64) -> (result: Result<
        Vec<Address>,
        ContractError,
    >)
        requires
            env.wf(),
        ensures
            rules::answers(
                result,
                rules::or_else(
                    rules::when(env@.ledger.owners is None, ContractError::NotInitialized),
                    rules::when(
                        !env@.ledger.proposals.contains_key(proposal_id),
                        ContractError::ProposalNotFound,
                    ),
                ),
            ),
            result matches Ok(list) ==> list@.to_set() == rules::approvers_of(
                env@.ledger,
                proposal_id,
            ) && owners::ascending(list@),
    {
        let owners: Vec<Address> = match &env.ledger.owners {
            None => {
                return Err(ContractError::NotInitialized);
            },
            Some(owners) => owners.keys(),
        };
        if let Err(e) = env.ledger.read_proposal(proposal_id) {
            return Err(e);
        }
        let mut approvers: Vec<Address> = Vec::new();
        let mut i: usize = 0;
        while i < owners.len()
            invariant
                env.wf(),
                i <= owners@.len(),
                owners::ascending(owners@),
                owners::ascending(approvers@),
                forall|j: int, k: int|
                    0 <= j < approvers@.len() && i <= k < owners@.len() ==> (
                    #[trigger] approvers@[j]).precedes(#[trigger] owners@[k]),
                forall|j: int|
                    0 <= j < approvers@.len() ==> owners@.contains(#[trigger] approvers@[j])
                        && rules::approved(env@.ledger, proposal_id, approvers@[j]),
                forall|k: int|
                    0 <= k < i && rules::approved(
                        env@.ledger,
                        proposal_id,
                        #[trigger] owners@[k],
                    ) ==> approvers@.contains(owners@[k]),
            decreases owners@.len() - i,
        {
            let owner: Address = owners[i];
            let ghost before = approvers@;
            if env.ledger.read_approval(proposal_id, owner) {
                approvers.push(owner);
                proof {
                    assert(approvers@ =~= before.push(owner));
                    assert(approvers@[before.len() as int] == owner);
                    assert forall|a: Address| before.contains(a) implies approvers@.contains(a) by {
                        let w: int = choose|w: int| 0 <= w < before.len() && before[w] == a;
                        assert(approvers@[w] == a);
                    }
                    assert(owners@.contains(owners@[i as int]));
                }
            }
            i = i + 1;
        }
        proof {
            let s = env@.ledger;
            assert forall|a: Address|
                approvers@.to_set().contains(a) == rules::approvers_of(s, proposal_id).contains(
                    a,
                ) by {
                assert(owners@.to_set().contains(a) == owners@.contains(a));
                if approvers@.contains(a) {
                    let w: int = choose|w: int| 0 <= w < approvers@.len() && approvers@[w] == a;
                    assert(owners@.contains(approvers@[w]));
                }
                if rules::approvers_of(s, proposal_id).contains(a) {
                    assert(owners@.contains(a));
                    let w: int = choose|w: int| 0 <= w < owners@.len() && owners@[w] == a;
                    assert(approvers@.contains(owners@[w]));
                }
            }
            assert(approvers@.to_set() =~= rules::approvers_of(s, proposal_id));
        }
        Ok(approvers)
    }

    /// The version of the wallet.
    pub fn get_version(_env: &Environment) -> (version: u32)
        ensures
            version == rules::CONTRACT_VERSION,
    {
        rules::CONTRACT_VERSION
    }

    /// The sum of the owners' weights.
    pub fn get_total_weight(env: &Environment) -> (total: u32)
        ensures
            total == env@.ledger.total_weight,
    {
        env.ledger.total_weight
    }

    /// The voting weight of a current owner; anyone else is not found.
    pub fn get_owner_weight(env: &Environment, owner: Address) -> (result: Result<
        u32,
        ContractError,
    >)
        requires
            env.wf(),
        ensures
            rules::answers(
                result,
                rules::when(!rules::is_owner(env@.ledger, owner), ContractError::OwnerNotFound),
            ),
            result matches Ok(weight) ==> weight == rules::weight_of(env@.ledger, owner),
    {
        match env.ledger.require_owner_and_weight(owner) {
            Ok(weight) => Ok(weight),
            Err(_) => Err(ContractError::OwnerNotFound),
        }
    }

    /// The largest share of the total weight, in percent, that a weight change
    /// may give one owner.
    pub fn get_max_single_owner_weight_pct(env: &Environment) -> (pct: u32)
        ensures
            pct == env@.ledger.max_single_owner_weight_pct,
    {
        env.ledger.max_single_owner_weight_pct
    }

    /// A proposal, with its status brought up to date.
    pub fn get_proposal(env: &Environment, proposal_id: u64) -> (result: Result<
        Proposal,
        ContractError,
    >)
        requires
            env.wf(),
        ensures
            rules::answers(
                result,
                rules::when(
                    !env@.ledger.proposals.contains_key(proposal_id),
                    ContractError::ProposalNotFound,
                ),
            ),
            result matches Ok(p) ==> p@ == rules::up_to_date(
                env@.ledger.proposals[proposal_id],
                env@.timestamp,
            ),
    {
        let mut proposal: Proposal = match env.ledger.read_proposal(proposal_id) {
            Ok(proposal) => proposal,
            Err(e) => {
                return Err(e);
            },
        };
        proposal.status = derive_status(&proposal, env.timestamp);
        Ok(proposal)
    }

    /// How far a proposal has come: the approving weight gathered, the one
    /// needed, and the total weight of the owners of now.
    pub fn get_proposal_approval_progress(env: &Environment, proposal_id: u64) -> (result: Result<
        (u32, u32, u32),
        ContractError,
    >)
        requires
            env.wf(),
        ensures
            rules::answers(
                result,
                rules::when(
                    !env@.ledger.proposals.contains_key(proposal_id),
                    ContractError::ProposalNotFound,
                ),
            ),
            result matches Ok(progress) ==> {
                &&& progress.0 == env@.ledger.proposals[proposal_id].approvals
                &&& progress.1 == env@.ledger.proposals[proposal_id].quorum_weight
                &&& progress.2 == env@.ledger.total_weight
            },
    {
        match env.ledger.read_proposal(proposal_id) {
            Ok(proposal) => Ok(
                (proposal.approvals, proposal.quorum_weight, env.ledger.total_weight),
            ),
            Err(e) => Err(e),
        }
    }

    /// A page of proposals: those after the first `offset`, at most `limit` of
    /// them and never more than 20.
    pub fn get_proposals_paged(env: &Environment, offset: u64, limit: u32) -> (list: Vec<Proposal>)
        requires
            env.wf(),
            offset < u64::MAX,
            offset + rules::page_size(limit) <= u64::MAX,
        ensures
            list@.map_values(|p: Proposal| p@) == rules::page(
                env@.ledger,
                env@.timestamp,
                offset + 1,
                rules::page_end(env@.ledger, offset, limit),
            ),
    {
        let size: u32 = if limit > rules::MAX_PAGE {
            rules::MAX_PAGE
        } else {
            limit
        };
        let filed: u64 = env.ledger.next_id.saturating_sub(1);
        let start: u64 = offset + 1;
        let end: u64 = if offset + (size as u64) < filed {
            offset + size as u64
        } else {
            filed
        };
        let mut list: Vec<Proposal> = Vec::new();
        if end < start {
            assert(list@.map_values(|p: Proposal| p@) =~= Seq::<ProposalView>::empty());
            return list;
        }
        let mut id: u64 = start;
        assert(list@.map_values(|p: Proposal| p@) =~= Seq::<ProposalView>::empty());
        while id <= end
            invariant
                env.wf(),
                start <= id <= end + 1,
                end < u64::MAX,
                list@.map_values(|p: Proposal| p@) == rules::page(
                    env@.ledger,
                    env@.timestamp,
                    start as int,
                    id - 1,
                ),
            decreases end + 1 - id,
        {
            let ghost before = list@;
            if let Ok(proposal) = Self::get_proposal(env, id) {
                list.push(proposal);
                assert(list@.map_values(|p: Proposal| p@) =~= before.map_values(
                    |p: Proposal| p@,
                ).push(proposal@));
            }
            id = id + 1;
        }
        list
    }

    /// The owners, in ascending order.
    pub fn get_owners(env: &Environment) -> (result: Result<Vec<Address>, ContractError>)
        requires
            env.wf(),
        ensures
            rules::answers(
                result,
                rules::when(env@.ledger.owners is None, ContractError::NotInitialized),
            ),
            result matches Ok(list) ==> list@.to_set() == env@.ledger.owners->0.dom() && owners::ascending(
                list@,
            ),
    {
        match &env.ledger.owners {
            None => Err(ContractError::NotInitialized),
            Some(owners) => Ok(owners.keys()),
        }
    }

    /// The spending limit of an owner for a token. `None` means that the owner
    /// is not restricted.
    pub fn get_spending_limit(env: &Environment, owner: Address, token: Address) -> (limit: Option<
        i128,
    >)
        requires
            env.wf(),
        ensures
            limit == rules::limit_of(env@.ledger, owner, token),
    {
        env.ledger.read_spending_limit(owner, token)
    }

    /// What is left of an owner's spending limit for a token: the limit less
    /// what was spent in the window that is open. `None` means that the owner is
    /// not restricted.
    pub fn get_remaining_spending_limit(
        env: &Environment,
        owner: Address,
        token: Address,
    ) -> (remaining: Option<i128>)
        requires
            env.wf(),
        ensures
            remaining == rules::remaining_of(env@.ledger, env@.timestamp, owner, token),
    {
        match env.ledger.read_spending_limit(owner, token) {
            None => None,
            Some(limit) => {
                let spent: i128 = env.ledger.effective_spent(env.timestamp, owner, token);
                match limit.checked_sub(spent) {
                    Some(rest) => Some(rest),
                    None => if spent < 0 {
                        Some(i128::MAX)
                    } else {
                        Some(i128::MIN)
                    },
                }
            },
        }
    }

    /// The weight that a decision needs.
    pub fn get_threshold(env: &Environment) -> (result: Result<u32, ContractError>)
        ensures
            rules::answers(
                result,
                rules::when(env@.ledger.threshold is None, ContractError::NotInitialized),
            ),
            result matches Ok(threshold) ==> env@.ledger.threshold == Some(threshold),
    {
        match env.ledger.threshold {
            None => Err(ContractError::NotInitialized),
            Some(threshold) => Ok(threshold),
        }
    }

    /// How long a ready proposal waits before it can be executed, in seconds.
    pub fn get_time_lock_delay(env: &Environment) -> (delay: u64)
        ensures
            delay == env@.ledger.time_lock_delay,
    {
        env.ledger.time_lock_delay
    }

    /// How many proposals were ever filed.
    pub fn get_total_proposals(env: &Environment) -> (count: u64)
        ensures
            count == rules::proposals_filed(env@.ledger),
    {
        env.ledger.next_id.saturating_sub(1)
    }

    /// Whether an address is an owner.
    pub fn is_owner(env: &Environment, address: Address) -> (owner: bool)
        requires
            env.wf(),
        ensures
            owner == rules::is_owner(env@.ledger, address),
    {
        env.ledger.require_owner_and_weight(address).is_ok()
    }

    /// Whether an owner's approval of a proposal stands.
    pub fn has_approved(env: &Environment, proposal_id: u64, owner: Address) -> (approved: bool)
        requires
            env.wf(),
        ensures
            approved == rules::approved(env@.ledger, proposal_id, owner),
    {
        env.ledger.read_approval(proposal_id, owner)
    }

    /// Whether the wallet is frozen.
    pub fn is_frozen(env: &Environment) -> (frozen: bool)
        ensures
            frozen == env@.ledger.frozen,
    {
        env.ledger.frozen
    }

    /// Who may freeze the wallet, if anyone.
    pub fn get_guardian(env: &Environment) -> (guardian: Option<Address>)
        ensures
            guardian == env@.ledger.guardian,
    {
        env.ledger.guardian
    }

    /// The weight that a decision needs, or 0 before the wallet is set up.
    pub fn get_required_quorum_weight(env: &Environment) -> (weight: u32)
        ensures
            weight == (match env@.ledger.threshold {
                Some(threshold) => threshold,
                None => 0,
            }),
    {
        match env.ledger.threshold {
            Some(threshold) => threshold,
            None => 0,
        }
    }
}

} // verus!
