//! What holds of the wallet as a whole: what every request keeps, and how
//! requests bear on each other.

use crate::ledger;
use crate::ledger::{EnvView, LedgerView};
use crate::owners;
use crate::requests;
use crate::requests::{Request, Step};
use crate::rules;
use crate::spending;
use crate::types::{
    Address, ApprovalKey, ContractError, KindView, ProposalStatus, ProposalView, SpendingKey,
    SpentTracker, TokenReply, Transfer,
};
use vstd::prelude::*;

verus! {

// ---------------------------------------------------------------------------
// Refusal and authorization
// ---------------------------------------------------------------------------
/// A request that is refused leaves the ledger as it was, tells nothing and
/// replaces no code; at most it has asked for authorizations.
pub proof fn law_refused_changes_nothing(v: EnvView, r: Request)
    requires
        requests::refusal(v, r) is Some,
    ensures
        requests::effect(v, r).ledger == v.ledger,
        requests::effect(v, r).events == v.events,
        requests::effect(v, r).new_wasm == v.new_wasm,
{
}

/// A list of weights that are all good is counted to its end.
proof fn lemma_all_valid(weights: Seq<u32>, i: int)
    requires
        0 <= i <= weights.len(),
        forall|k: int| i <= k < weights.len() ==> rules::is_weight(#[trigger] weights[k]),
    ensures
        rules::valid_weights_from(weights, i) == weights.len() - i,
    decreases weights.len() - i,
{
    if i < weights.len() {
        lemma_all_valid(weights, i + 1);
    }
}

/// Co-signers who can all be counted are all asked.
proof fn lemma_all_asked(s: LedgerView, approvers: Seq<Address>, i: int)
    requires
        0 <= i <= approvers.len(),
        rules::tally_refusal(s, approvers, i) is None,
    ensures
        rules::asked_from(s, approvers, i) == approvers.len() - i,
    decreases approvers.len() - i,
{
    if i < approvers.len() {
        lemma_all_asked(s, approvers, i + 1);
    }
}

/// A request is accepted only after the authorization of everyone who must give
/// it was asked for: each of them once, in order, and nobody else.
pub proof fn law_accepted_is_authorized(v: EnvView, r: Request)
    requires
        requests::refusal(v, r) is None,
    ensures
        requests::effect(v, r).auths == v.auths + requests::signers(r),
{
    match r {
        Request::Initialize { owners, weights, threshold, time_lock_delay } => {
            lemma_all_valid(weights, 0);
            assert(owners.take(owners.len() as int) =~= owners);
        },
        _ => {
            if requests::cosigned(r) {
                lemma_all_asked(v.ledger, requests::signers(r), 0);
                let list = requests::signers(r);
                assert(list.take(list.len() as int) =~= list);
            } else {
                assert(v.auths.push(requests::signers(r)[0]) =~= v.auths + requests::signers(r));
            }
        },
    }
}

/// Co-signers who can all be counted are all owners.
proof fn lemma_counted_are_owners(s: LedgerView, approvers: Seq<Address>, i: int)
    requires
        0 <= i <= approvers.len(),
        rules::tally_refusal(s, approvers, i) is None,
    ensures
        forall|k: int|
            i <= k < approvers.len() ==> rules::is_owner(s, #[trigger] approvers[k]),
    decreases approvers.len() - i,
{
    if i < approvers.len() {
        lemma_counted_are_owners(s, approvers, i + 1);
    }
}

/// Only owners act: whoever signs a request that is accepted is an owner, but for
/// the guardian who freezes the wallet and for those who set it up.
pub proof fn law_only_owners_act(v: EnvView, r: Request, i: int)
    requires
        requests::refusal(v, r) is None,
        !(r is Initialize),
        !(r is Freeze),
        0 <= i < requests::signers(r).len(),
    ensures
        rules::is_owner(v.ledger, requests::signers(r)[i]),
{
    if requests::cosigned(r) {
        lemma_counted_are_owners(v.ledger, requests::signers(r), 0);
    }
}

// ---------------------------------------------------------------------------
// Proposals and their ids
// ---------------------------------------------------------------------------
/// Proposals are numbered from 1 without a gap, each is stored under its id, and
/// approvals are stored only for proposals that are.
pub open spec fn numbered(s: LedgerView) -> bool {
    &&& 1 <= s.next_id
    &&& forall|id: u64| #[trigger] s.proposals.contains_key(id) <==> 1 <= id < s.next_id
    &&& forall|id: u64| #[trigger] s.proposals.contains_key(id) ==> s.proposals[id].id == id
    &&& forall|key: ApprovalKey| #[trigger]
        s.approvals.contains_key(key) ==> s.proposals.contains_key(key.proposal_id)
}

/// An empty ledger is numbered.
pub proof fn law_numbered_at_first()
    ensures
        numbered(ledger::empty_ledger()),
{
}

/// Every request keeps the proposals numbered.
pub proof fn law_numbered_kept(v: EnvView, r: Request)
    requires
        numbered(v.ledger),
    ensures
        numbered(requests::effect(v, r).ledger),
{
    if requests::refusal(v, r) is Some {
        law_refused_changes_nothing(v, r);
    } else {
        match r {
            Request::Approve { approver, proposal_id } => {},
            Request::Revoke { approver, proposal_id } => {},
            Request::Execute { executor, proposal_id, transfer_replies } => {
                assert(v.ledger.proposals[proposal_id].id == proposal_id);
            },
            Request::CancelExpired { caller, ids } => {},
            _ => {
                if requests::files(r) {
                    assert(requests::effect(v, r).ledger.approvals == v.ledger.approvals);
                }
            },
        }
    }
}

/// A proposal that is filed gets the next id: ids are given one after the other.
pub proof fn law_ids_are_sequential(v: EnvView, r: Request)
    requires
        numbered(v.ledger),
    ensures
        requests::effect(v, r).ledger.next_id == v.ledger.next_id + if requests::files(r)
            && requests::refusal(v, r) is None {
            1int
        } else {
            0
        },
        requests::files(r) && requests::refusal(v, r) is None ==> {
            let p = requests::effect(v, r).ledger.proposals[v.ledger.next_id];
            &&& !v.ledger.proposals.contains_key(v.ledger.next_id)
            &&& requests::effect(v, r).ledger.proposals.contains_key(v.ledger.next_id)
            &&& p.approvals == 0
            &&& p.status == ProposalStatus::Pending
            &&& Some(p.quorum_weight) == v.ledger.threshold
        },
{
}

/// A proposal is filed only while the wallet is not frozen and fewer than 50
/// proposals are active, with a description of 1 to 300 bytes and a deadline at
/// most 90 days ahead.
pub proof fn law_filing_is_earned(v: EnvView, r: Request)
    requires
        requests::files(r),
        requests::refusal(v, r) is None,
    ensures
        ({
            let p = requests::effect(v, r).ledger.proposals[v.ledger.next_id];
            &&& !v.ledger.frozen
            &&& rules::active_proposals(v.ledger, v.timestamp) < rules::MAX_ACTIVE_PROPOSALS
            &&& 1 <= p.description.len() <= rules::MAX_DESCRIPTION_LEN
            &&& v.timestamp < p.deadline <= v.timestamp + rules::MAX_PROPOSAL_DURATION
            &&& p.proposer == requests::signers(r)[0]
        }),
{
}

/// Whether two states of a proposal agree in everything that its proposer laid
/// down, and in the quorum of the moment at which it was filed.
pub open spec fn same_terms(p: ProposalView, q: ProposalView) -> bool {
    &&& q.id == p.id
    &&& q.proposer == p.proposer
    &&& q.description == p.description
    &&& q.deadline == p.deadline
    &&& q.kind == p.kind
    &&& q.quorum_weight == p.quorum_weight
    &&& q.category == p.category
}

/// A stored proposal stays stored, and its terms never change: whatever becomes
/// of the owners, their weights and the threshold, the quorum it needs is the
/// one of the moment at which it was filed.
pub proof fn law_terms_are_fixed(v: EnvView, r: Request, id: u64)
    requires
        numbered(v.ledger),
        v.ledger.proposals.contains_key(id),
    ensures
        requests::effect(v, r).ledger.proposals.contains_key(id),
        same_terms(v.ledger.proposals[id], requests::effect(v, r).ledger.proposals[id]),
{
    match r {
        Request::Execute { executor, proposal_id, transfer_replies } => {
            let p = v.ledger.proposals[proposal_id];
            assert(v.ledger.proposals.contains_key(proposal_id) ==> p.id == proposal_id);
        },
        Request::Approve { .. } => {},
        Request::Revoke { .. } => {},
        _ => {},
    }
}

/// Every proposal that was executed had reached its quorum.
pub open spec fn executed_with_quorum(s: LedgerView) -> bool {
    forall|id: u64| #[trigger]
        s.proposals.contains_key(id) && s.proposals[id].status == ProposalStatus::Executed
            ==> s.proposals[id].approvals >= s.proposals[id].quorum_weight
}

/// Every request keeps it so that what was executed had reached its quorum.
pub proof fn law_executed_with_quorum(v: EnvView, r: Request)
    requires
        numbered(v.ledger),
        executed_with_quorum(v.ledger),
    ensures
        executed_with_quorum(requests::effect(v, r).ledger),
{
    if requests::refusal(v, r) is Some {
        law_refused_changes_nothing(v, r);
    } else {
        match r {
            Request::Approve { approver, proposal_id } => {},
            Request::Revoke { approver, proposal_id } => {},
            Request::Execute { executor, proposal_id, transfer_replies } => {
                assert(v.ledger.proposals[proposal_id].id == proposal_id);
            },
            _ => {},
        }
    }
}

/// A proposal that was executed never changes again. It can neither be voted on
/// nor executed again: an owner, and for the latter of a wallet that is not
/// frozen, is told that it is not active.
pub proof fn law_executed_is_final(v: EnvView, r: Request, id: u64)
    requires
        numbered(v.ledger),
        executed_with_quorum(v.ledger),
        v.ledger.proposals.contains_key(id),
        v.ledger.proposals[id].status == ProposalStatus::Executed,
    ensures
        requests::effect(v, r).ledger.proposals[id] == v.ledger.proposals[id],
        r matches Request::Approve { approver, proposal_id } ==> (proposal_id == id
            ==> requests::refusal(v, r) == rules::or_else(
            rules::owner_refusal(v.ledger, approver),
            Some(ContractError::ProposalNotActive),
        )),
        r matches Request::Revoke { approver, proposal_id } ==> (proposal_id == id
            ==> requests::refusal(v, r) == rules::or_else(
            rules::owner_refusal(v.ledger, approver),
            Some(ContractError::ProposalNotActive),
        )),
        r matches Request::Execute { executor, proposal_id, .. } ==> (proposal_id == id
            ==> requests::refusal(v, r) == rules::or_else(
            rules::actor_refusal(v.ledger, executor),
            Some(ContractError::ProposalNotActive),
        )),
{
}

/// A request touches at most the proposal that it names, or the one that it
/// files.
pub proof fn law_other_proposals_untouched(v: EnvView, r: Request, id: u64)
    requires
        numbered(v.ledger),
        v.ledger.proposals.contains_key(id),
        r matches Request::Approve { proposal_id, .. } ==> proposal_id != id,
        r matches Request::Revoke { proposal_id, .. } ==> proposal_id != id,
        r matches Request::Execute { proposal_id, .. } ==> proposal_id != id,
    ensures
        requests::effect(v, r).ledger.proposals[id] == v.ledger.proposals[id],
        forall|a: Address|
            rules::approved(requests::effect(v, r).ledger, id, a) == rules::approved(
                v.ledger,
                id,
                a,
            ),
{
}

// ---------------------------------------------------------------------------
// Weights
// ---------------------------------------------------------------------------
/// The sum of the weights of a list of owners.
pub open spec fn weight_sum(owners: Map<Address, u32>) -> nat
    decreases owners.dom().len(),
    when owners.dom().finite()
{
    if owners.dom().len() == 0 {
        0
    } else {
        let a = owners.dom().choose();
        owners[a] as nat + weight_sum(owners.remove(a))
    }
}

/// Taking an owner off the list takes the owner's weight off the sum.
proof fn lemma_sum_remove(owners: Map<Address, u32>, a: Address)
    requires
        owners.dom().finite(),
        owners.contains_key(a),
    ensures
        weight_sum(owners) == owners[a] + weight_sum(owners.remove(a)),
    decreases owners.dom().len(),
{
    let b = owners.dom().choose();
    assert(owners.dom().contains(b));
    if a != b {
        lemma_sum_remove(owners.remove(b), a);
        lemma_sum_remove(owners.remove(a), b);
        assert(owners.remove(b).remove(a) =~= owners.remove(a).remove(b));
    }
}

/// Giving an address a weight puts that weight in the place of the one it had.
proof fn lemma_sum_insert(owners: Map<Address, u32>, a: Address, weight: u32)
    requires
        owners.dom().finite(),
    ensures
        owners.insert(a, weight).dom().finite(),
        weight_sum(owners.insert(a, weight)) == weight_sum(owners.remove(a)) + weight,
{
    lemma_sum_remove(owners.insert(a, weight), a);
    assert(owners.insert(a, weight).remove(a) =~= owners.remove(a));
}

/// Taking off an address that is not on the list changes nothing.
proof fn lemma_remove_absent(owners: Map<Address, u32>, a: Address)
    requires
        !owners.contains_key(a),
    ensures
        owners.remove(a) == owners,
{
    assert(owners.remove(a) =~= owners);
}

/// The owners of a list hold the weights of another.
proof fn lemma_paired_sum(owners: Seq<Address>, weights: Seq<u32>)
    requires
        owners.len() == weights.len(),
        owners.no_duplicates(),
    ensures
        rules::paired(owners, weights).dom() == owners.to_set(),
        rules::paired(owners, weights).dom().finite(),
        weight_sum(rules::paired(owners, weights)) == rules::weights_total(weights),
    decreases owners.len(),
{
    if owners.len() == 0 {
        assert(rules::paired(owners, weights).dom() =~= owners.to_set());
    } else {
        let a = owners.last();
        let rest = rules::paired(owners.drop_last(), weights.drop_last());
        lemma_paired_sum(owners.drop_last(), weights.drop_last());
        assert(owners =~= owners.drop_last().push(a));
        assert(owners.to_set() =~= owners.drop_last().to_set().insert(a)) by {
            assert forall|b: Address| owners.contains(b) implies owners.drop_last().contains(b) || b
                == a by {
                let i: int = choose|i: int| 0 <= i < owners.len() && owners[i] == b;
                if i < owners.len() - 1 {
                    assert(owners.drop_last()[i] == b);
                }
            }
            assert forall|b: Address| owners.drop_last().contains(b) implies owners.contains(b) by {
                let i: int = choose|i: int|
                    0 <= i < owners.drop_last().len() && owners.drop_last()[i] == b;
                assert(owners[i] == b);
            }
            assert(owners[owners.len() - 1] == a);
        }
        assert(!rest.contains_key(a)) by {
            if owners.drop_last().contains(a) {
                let i: int = choose|i: int|
                    0 <= i < owners.drop_last().len() && owners.drop_last()[i] == a;
                assert(owners[i] == owners[owners.len() - 1]);
            }
        }
        lemma_sum_insert(rest, a, weights.last());
        lemma_remove_absent(rest, a);
        assert(rules::paired(owners, weights).dom() =~= owners.to_set());
    }
}

/// The total weight is the sum of the weights of the owners.
pub open spec fn total_matches(s: LedgerView) -> bool {
    match s.owners {
        Some(owners) => owners.dom().finite() && s.total_weight == weight_sum(owners),
        None => s.total_weight == 0,
    }
}

/// In an empty ledger the total weight is that of nobody.
pub proof fn law_total_matches_at_first()
    ensures
        total_matches(ledger::empty_ledger()),
{
}

/// Every request keeps the total weight equal to the sum of the owners' weights.
pub proof fn law_total_weight_is_the_sum(v: EnvView, r: Request)
    requires
        total_matches(v.ledger),
    ensures
        total_matches(requests::effect(v, r).ledger),
{
    if requests::refusal(v, r) is Some {
        law_refused_changes_nothing(v, r);
    } else {
        match r {
            Request::Initialize { owners, weights, threshold, time_lock_delay } => {
                lemma_paired_sum(owners, weights);
                lemma_weights_total_bound(weights);
            },
            Request::Execute { executor, proposal_id, transfer_replies } => {
                let owners = v.ledger.owners->0;
                match v.ledger.proposals[proposal_id].kind {
                    KindView::AddOwner(owner) => {
                        lemma_sum_insert(owners, owner, rules::MIN_OWNER_WEIGHT);
                        lemma_remove_absent(owners, owner);
                    },
                    KindView::RemoveOwner(owner) => {
                        if owners.contains_key(owner) {
                            lemma_sum_remove(owners, owner);
                        } else {
                            lemma_remove_absent(owners, owner);
                        }
                    },
                    KindView::ChangeOwnerWeight(target, new_weight) => {
                        lemma_sum_remove(owners, target);
                        lemma_sum_insert(owners, target, new_weight);
                    },
                    _ => {},
                }
            },
            _ => {},
        }
    }
}

/// Weights that owners may have add up to at most the largest one per owner.
proof fn lemma_weights_total_bound(weights: Seq<u32>)
    requires
        forall|i: int| 0 <= i < weights.len() ==> rules::is_weight(#[trigger] weights[i]),
    ensures
        rules::weights_total(weights) <= weights.len() * rules::MAX_OWNER_WEIGHT,
    decreases weights.len(),
{
    if weights.len() > 0 {
        assert forall|i: int| 0 <= i < weights.drop_last().len() implies rules::is_weight(
            #[trigger] weights.drop_last()[i],
        ) by {
            assert(rules::is_weight(weights[i]));
        }
        lemma_weights_total_bound(weights.drop_last());
        assert(rules::is_weight(weights[weights.len() - 1]));
        assert((weights.len() - 1) * rules::MAX_OWNER_WEIGHT + rules::MAX_OWNER_WEIGHT
            == weights.len() * rules::MAX_OWNER_WEIGHT) by (nonlinear_arith);
    }
}

/// Right after the setup, every owner on the list has the weight beside it,
/// nobody else has one, and the threshold can be reached.
pub proof fn law_setup(
    v: EnvView,
    owners: Seq<Address>,
    weights: Seq<u32>,
    threshold: u32,
    time_lock_delay: u64,
)
    requires
        rules::initialize_refusal(v.ledger, owners, weights, threshold) is None,
    ensures
        ({
            let s = rules::initialize_effect(
                v,
                owners,
                weights,
                threshold,
                time_lock_delay,
            ).ledger;
            &&& forall|i: int|
                0 <= i < owners.len() ==> rules::is_owner(s, #[trigger] owners[i])
                    && rules::weight_of(s, owners[i]) == weights[i]
            &&& forall|a: Address| #[trigger] rules::is_owner(s, a) ==> owners.contains(a)
            &&& total_matches(s)
            &&& s.threshold == Some(threshold)
            &&& 1 <= threshold <= s.total_weight
        }),
{
    lemma_paired_sum(owners, weights);
    lemma_weights_total_bound(weights);
    lemma_paired_lookup(owners, weights);
    assert forall|i: int| 0 <= i < owners.len() implies owners.to_set().contains(
        #[trigger] owners[i],
    ) by {}
}

/// The owner at a place of the list has the weight at that place.
proof fn lemma_paired_lookup(owners: Seq<Address>, weights: Seq<u32>)
    requires
        owners.len() == weights.len(),
        owners.no_duplicates(),
    ensures
        forall|i: int|
            0 <= i < owners.len() ==> rules::paired(owners, weights).contains_key(
                #[trigger] owners[i],
            ) && rules::paired(owners, weights)[owners[i]] == weights[i],
    decreases owners.len(),
{
    if owners.len() > 0 {
        lemma_paired_lookup(owners.drop_last(), weights.drop_last());
        assert forall|i: int| 0 <= i < owners.len() implies rules::paired(
            owners,
            weights,
        ).contains_key(#[trigger] owners[i]) && rules::paired(owners, weights)[owners[i]]
            == weights[i] by {
            if i < owners.len() - 1 {
                assert(owners.drop_last()[i] == owners[i]);
                assert(owners[i] != owners[owners.len() - 1]);
            }
        }
    }
}

// ---------------------------------------------------------------------------
// Approvals
// ---------------------------------------------------------------------------
/// The owners whose approval of a proposal stands, with their weights.
pub open spec fn standing(s: LedgerView, id: u64) -> Map<Address, u32> {
    Map::new(
        |a: Address| rules::is_owner(s, a) && rules::approved(s, id, a),
        |a: Address| rules::weight_of(s, a),
    )
}

/// Owners are finitely many.
pub open spec fn owners_finite(s: LedgerView) -> bool {
    s.owners matches Some(owners) ==> owners.dom().finite()
}

/// The approving weight of a proposal is the weight of the owners whose approval
/// of it stands.
pub open spec fn tallied(s: LedgerView, id: u64) -> bool {
    s.proposals[id].approvals == weight_sum(standing(s, id))
}

/// Whether a request gives another weight to an address, makes it an owner, or
/// strikes it off the list.
pub open spec fn reweighs(v: EnvView, r: Request, a: Address) -> bool {
    let after = requests::effect(v, r).ledger;
    ||| rules::is_owner(after, a) != rules::is_owner(v.ledger, a)
    ||| rules::weight_of(after, a) != rules::weight_of(v.ledger, a)
}

/// Whether a request changes the weight of someone whose approval of a proposal
/// stands.
pub open spec fn reweighs_approver(v: EnvView, r: Request, id: u64) -> bool {
    exists|a: Address| rules::approved(v.ledger, id, a) && #[trigger] reweighs(v, r, a)
}

/// Fewer owners weigh no more.
proof fn lemma_sum_monotone(some: Map<Address, u32>, all: Map<Address, u32>)
    requires
        all.dom().finite(),
        forall|a: Address| #[trigger]
            some.contains_key(a) ==> all.contains_key(a) && some[a] == all[a],
    ensures
        some.dom().finite(),
        weight_sum(some) <= weight_sum(all),
    decreases all.dom().len(),
{
    if all.dom().len() == 0 {
        assert(some =~= all);
    } else {
        let a = all.dom().choose();
        assert(all.contains_key(a));
        if some.contains_key(a) {
            lemma_sum_monotone(some.remove(a), all.remove(a));
            assert(some.dom() =~= some.remove(a).dom().insert(a));
            lemma_sum_remove(some, a);
        } else {
            lemma_sum_monotone(some, all.remove(a));
        }
    }
}

/// The owners who stand behind a proposal are among the owners.
proof fn lemma_standing(s: LedgerView, id: u64)
    requires
        owners_finite(s),
    ensures
        standing(s, id).dom().finite(),
        s.owners matches Some(owners) ==> weight_sum(standing(s, id)) <= weight_sum(owners),
{
    match s.owners {
        Some(owners) => lemma_sum_monotone(standing(s, id), owners),
        None => assert(standing(s, id) =~= Map::<Address, u32>::empty()),
    }
}

/// Every request keeps owners finitely many.
pub proof fn law_owners_stay_finite(v: EnvView, r: Request)
    requires
        owners_finite(v.ledger),
    ensures
        owners_finite(requests::effect(v, r).ledger),
{
    if requests::refusal(v, r) is Some {
        law_refused_changes_nothing(v, r);
    } else if let Request::Initialize { owners, weights, threshold, time_lock_delay } = r {
        lemma_paired_sum(owners, weights);
    }
}

/// A wallet has at most 20 owners: every request keeps it so.
pub proof fn law_owners_at_most_max(v: EnvView, r: Request)
    requires
        owners_finite(v.ledger),
        rules::owner_count(v.ledger) <= rules::MAX_OWNERS,
    ensures
        rules::owner_count(requests::effect(v, r).ledger) <= rules::MAX_OWNERS,
{
    if requests::refusal(v, r) is Some {
        law_refused_changes_nothing(v, r);
    } else {
        match r {
            Request::Initialize { owners, weights, threshold, time_lock_delay } => {
                lemma_paired_sum(owners, weights);
                owners.unique_seq_to_set();
            },
            Request::Execute { executor, proposal_id, transfer_replies } => {
                let owners = v.ledger.owners->0;
                match v.ledger.proposals[proposal_id].kind {
                    KindView::AddOwner(owner) => {
                        assert(owners.insert(owner, rules::MIN_OWNER_WEIGHT).dom()
                            =~= owners.dom().insert(owner));
                    },
                    KindView::RemoveOwner(owner) => {
                        assert(owners.remove(owner).dom() =~= owners.dom().remove(owner));
                    },
                    KindView::ChangeOwnerWeight(target, new_weight) => {
                        assert(owners.insert(target, new_weight).dom() =~= owners.dom());
                    },
                    _ => {},
                }
            },
            _ => {},
        }
    }
}

/// A proposal that is filed stands at the weight of nobody.
pub proof fn law_filed_is_tallied(v: EnvView, r: Request)
    requires
        numbered(v.ledger),
        requests::files(r),
        requests::refusal(v, r) is None,
    ensures
        tallied(requests::effect(v, r).ledger, v.ledger.next_id),
{
    let s = requests::effect(v, r).ledger;
    assert forall|a: Address| !rules::approved(s, v.ledger.next_id, a) by {
        let key = ApprovalKey { proposal_id: v.ledger.next_id, owner: a };
        assert(!v.ledger.approvals.contains_key(key));
    }
    assert(standing(s, v.ledger.next_id) =~= Map::<Address, u32>::empty());
}

/// Every request keeps the approving weight of a proposal equal to the weight of
/// the owners whose approval of it stands, except one that changes the weight of
/// such an owner.
pub proof fn law_approvals_are_tallied(v: EnvView, r: Request, id: u64)
    requires
        numbered(v.ledger),
        owners_finite(v.ledger),
        v.ledger.proposals.contains_key(id),
        tallied(v.ledger, id),
        !reweighs_approver(v, r, id),
    ensures
        tallied(requests::effect(v, r).ledger, id),
{
    let s = v.ledger;
    let after = requests::effect(v, r).ledger;
    lemma_standing(s, id);
    if requests::refusal(v, r) is Some {
        law_refused_changes_nothing(v, r);
    } else {
        match r {
            Request::Approve { approver, proposal_id } => {
                if proposal_id == id {
                    assert(standing(after, id) =~= standing(s, id).insert(
                        approver,
                        rules::weight_of(s, approver),
                    ));
                    lemma_sum_insert(standing(s, id), approver, rules::weight_of(s, approver));
                    lemma_remove_absent(standing(s, id), approver);
                } else {
                    assert(standing(after, id) =~= standing(s, id));
                }
            },
            Request::Revoke { approver, proposal_id } => {
                if proposal_id == id {
                    assert(standing(after, id) =~= standing(s, id).remove(approver));
                    lemma_sum_remove(standing(s, id), approver);
                } else {
                    assert(standing(after, id) =~= standing(s, id));
                }
            },
            _ => {
                assert(after.approvals == s.approvals);
                assert forall|a: Address|
                    #![trigger standing(after, id).dom().contains(a)]
                    #![trigger standing(s, id).dom().contains(a)]
                    standing(after, id).dom().contains(a) == standing(s, id).dom().contains(a) by {
                    assert(rules::approved(s, id, a) ==> !reweighs(v, r, a));
                }
                assert forall|a: Address| #[trigger]
                    standing(s, id).dom().contains(a) implies standing(after, id)[a] == standing(
                    s,
                    id,
                )[a] by {
                    assert(!reweighs(v, r, a));
                }
                assert(standing(after, id) =~= standing(s, id));
            },
        }
    }
}

/// The approving weight of a tallied proposal is at most the total weight of the
/// owners.
pub proof fn law_approvals_at_most_total(s: LedgerView, id: u64)
    requires
        total_matches(s),
        tallied(s, id),
    ensures
        s.proposals[id].approvals <= s.total_weight,
{
    lemma_standing(s, id);
    if s.owners is None {
        assert(standing(s, id) =~= Map::<Address, u32>::empty());
    }
}

/// Owners who all weigh 1 weigh as much as there are of them.
proof fn lemma_sum_of_ones(owners: Map<Address, u32>)
    requires
        owners.dom().finite(),
        forall|a: Address| #[trigger] owners.contains_key(a) ==> owners[a] == 1,
    ensures
        weight_sum(owners) == owners.dom().len(),
    decreases owners.dom().len(),
{
    if owners.dom().len() > 0 {
        let a = owners.dom().choose();
        assert(owners.contains_key(a));
        lemma_sum_of_ones(owners.remove(a));
    }
}

/// Where every owner weighs 1, the approving weight of a tallied proposal is at
/// most the number of owners, and equal to it once every owner has approved.
pub proof fn law_approvals_at_most_owner_count(s: LedgerView, id: u64)
    requires
        owners_finite(s),
        s.owners is Some,
        tallied(s, id),
        forall|a: Address| #[trigger] rules::is_owner(s, a) ==> rules::weight_of(s, a) == 1,
    ensures
        s.proposals[id].approvals <= rules::owner_count(s),
        (forall|a: Address| #[trigger] rules::is_owner(s, a) ==> rules::approved(s, id, a))
            ==> s.proposals[id].approvals == rules::owner_count(s),
{
    let owners = s.owners->0;
    assert forall|a: Address| #[trigger] owners.contains_key(a) implies owners[a] == 1 by {
        assert(rules::is_owner(s, a));
    }
    lemma_sum_of_ones(owners);
    lemma_standing(s, id);
    if forall|a: Address| #[trigger] rules::is_owner(s, a) ==> rules::approved(s, id, a) {
        assert forall|a: Address| owners.contains_key(a) implies #[trigger] standing(
            s,
            id,
        ).contains_key(a) by {
            assert(rules::is_owner(s, a));
        }
        assert(standing(s, id) =~= owners);
    }
}

/// Nobody approves a proposal twice: a second approval is refused as such, as
/// long as the proposal can be voted on.
pub proof fn law_no_double_approval(v: EnvView, approver: Address, id: u64, time: u64)
    requires
        rules::approve_refusal(v, approver, id) is None,
        v.timestamp <= time <= v.ledger.proposals[id].deadline,
    ensures
        rules::approve_refusal(
            requests::at(rules::approve_effect(v, approver, id), time),
            approver,
            id,
        ) == Some(ContractError::AlreadyApproved),
{
}

/// An approval can be taken back as long as the proposal can be voted on: the
/// approving weight and the approvers are then what they were, and the approval
/// can be given again but not taken back again.
pub proof fn law_revoke_undoes_approve(v: EnvView, approver: Address, id: u64, time: u64)
    requires
        rules::approve_refusal(v, approver, id) is None,
        v.timestamp <= time <= v.ledger.proposals[id].deadline,
    ensures
        ({
            let given = requests::at(rules::approve_effect(v, approver, id), time);
            let back = rules::revoke_effect(given, approver, id);
            let p = v.ledger.proposals[id];
            let q = back.ledger.proposals[id];
            &&& rules::approved(given.ledger, id, approver)
            &&& rules::revoke_refusal(given, approver, id) is None
            &&& q == (ProposalView {
                status: rules::derived_status(p, time),
                ready_at: given.ledger.proposals[id].ready_at,
                ..p
            })
            &&& !rules::approved(back.ledger, id, approver)
            &&& forall|a: Address, other: u64|
                rules::approved(back.ledger, other, a) == rules::approved(v.ledger, other, a)
            &&& rules::approvers_of(back.ledger, id) == rules::approvers_of(v.ledger, id)
            &&& rules::approve_refusal(back, approver, id) is None
            &&& rules::revoke_refusal(back, approver, id) == Some(ContractError::NotApproved)
        }),
{
    let given = requests::at(rules::approve_effect(v, approver, id), time);
    let back = rules::revoke_effect(given, approver, id);
    assert(rules::approvers_of(back.ledger, id) =~= rules::approvers_of(v.ledger, id));
}

/// An approval adds the approver to those who stand behind the proposal.
pub proof fn law_approve_adds_approver(v: EnvView, approver: Address, id: u64)
    requires
        rules::approve_refusal(v, approver, id) is None,
    ensures
        rules::approvers_of(rules::approve_effect(v, approver, id).ledger, id)
            == rules::approvers_of(v.ledger, id).insert(approver),
        !rules::approvers_of(v.ledger, id).contains(approver),
{
    assert(rules::approvers_of(rules::approve_effect(v, approver, id).ledger, id)
        =~= rules::approvers_of(v.ledger, id).insert(approver));
}

/// Taking an approval back takes the approver off those who stand behind the
/// proposal.
pub proof fn law_revoke_removes_approver(v: EnvView, approver: Address, id: u64)
    requires
        rules::revoke_refusal(v, approver, id) is None,
    ensures
        rules::approvers_of(rules::revoke_effect(v, approver, id).ledger, id)
            == rules::approvers_of(v.ledger, id).remove(approver),
        rules::approvers_of(v.ledger, id).contains(approver),
{
    assert(rules::approvers_of(rules::revoke_effect(v, approver, id).ledger, id)
        =~= rules::approvers_of(v.ledger, id).remove(approver));
}

/// After a vote a proposal is `Ready` exactly if the approving weight reaches its
/// quorum, and else `Pending`. The time at which an approval first made it
/// `Ready` is recorded, and kept from then on.
pub proof fn law_votes_move_between_pending_and_ready(v: EnvView, r: Request, id: u64)
    requires
        numbered(v.ledger),
        v.ledger.proposals.contains_key(id),
        requests::refusal(v, r) is None,
        (r matches Request::Approve { proposal_id, .. } && proposal_id == id) || (
        r matches Request::Revoke { proposal_id, .. } && proposal_id == id),
    ensures
        ({
            let p = v.ledger.proposals[id];
            let q = requests::effect(v, r).ledger.proposals[id];
            &&& q.status == if q.approvals >= q.quorum_weight {
                ProposalStatus::Ready
            } else {
                ProposalStatus::Pending
            }
            &&& p.ready_at != 0 ==> q.ready_at == p.ready_at
            &&& p.ready_at == 0 && q.ready_at != 0 ==> q.ready_at == v.timestamp && q.status
                == ProposalStatus::Ready
            &&& p.ready_at == 0 && r is Approve && q.status == ProposalStatus::Ready ==> q.ready_at
                == v.timestamp
        }),
{
}

// ---------------------------------------------------------------------------
// Active proposals and expiry
// ---------------------------------------------------------------------------
/// Ledgers that agree on which ids are active have as many active proposals.
proof fn lemma_active_same(s: LedgerView, t: LedgerView, now: u64, end: int)
    requires
        end <= u64::MAX,
        forall|id: u64|
            1 <= id < end ==> #[trigger] rules::active_id(s, now, id) == rules::active_id(
                t,
                now,
                id,
            ),
    ensures
        rules::active_before(s, now, end) == rules::active_before(t, now, end),
    decreases end,
{
    if end > 1 {
        lemma_active_same(s, t, now, end - 1);
        assert(rules::active_id(s, now, (end - 1) as u64) == rules::active_id(
            t,
            now,
            (end - 1) as u64,
        ));
    }
}

/// Where fewer ids are active, fewer proposals are.
proof fn lemma_active_fewer(s: LedgerView, now: u64, t: LedgerView, then: u64, end: int)
    requires
        end <= u64::MAX,
        forall|id: u64|
            1 <= id < end && #[trigger] rules::active_id(t, then, id) ==> rules::active_id(
                s,
                now,
                id,
            ),
    ensures
        rules::active_before(t, then, end) <= rules::active_before(s, now, end),
    decreases end,
{
    if end > 1 {
        lemma_active_fewer(s, now, t, then, end - 1);
        assert(rules::active_id(t, then, (end - 1) as u64) ==> rules::active_id(
            s,
            now,
            (end - 1) as u64,
        ));
    }
}

/// At most 50 proposals are ever active: every request keeps it so.
pub proof fn law_active_at_most_max(v: EnvView, r: Request)
    requires
        numbered(v.ledger),
        rules::active_proposals(v.ledger, v.timestamp) <= rules::MAX_ACTIVE_PROPOSALS,
    ensures
        rules::active_proposals(requests::effect(v, r).ledger, v.timestamp)
            <= rules::MAX_ACTIVE_PROPOSALS,
{
    let s = v.ledger;
    let after = requests::effect(v, r).ledger;
    let now = v.timestamp;
    if requests::refusal(v, r) is Some {
        law_refused_changes_nothing(v, r);
    } else if requests::files(r) {
        lemma_active_same(s, after, now, s.next_id as int);
    } else {
        assert forall|id: u64|
            1 <= id < s.next_id && #[trigger] rules::active_id(
                after,
                now,
                id,
            ) implies rules::active_id(s, now, id) by {
            assert(s.proposals.contains_key(id));
        }
        lemma_active_fewer(s, now, after, now, s.next_id as int);
    }
}

/// What is noted of a proposal that is filed or executed, or of a sweep that
/// finds something, is the number of proposals that are active right after.
pub proof fn law_noted_count_is_fresh(v: EnvView, r: Request)
    requires
        numbered(v.ledger),
        rules::active_proposals(v.ledger, v.timestamp) <= rules::MAX_ACTIVE_PROPOSALS,
        requests::refusal(v, r) is None,
        requests::files(r) || r is Execute || (r matches Request::CancelExpired { ids, .. }
            && rules::expired_among(v.ledger, v.timestamp, ids) > 0),
    ensures
        requests::effect(v, r).ledger.active_count == rules::active_proposals(
            requests::effect(v, r).ledger,
            v.timestamp,
        ),
{
    let s = v.ledger;
    let after = requests::effect(v, r).ledger;
    let now = v.timestamp;
    if requests::files(r) {
        lemma_active_same(s, after, now, s.next_id as int);
    } else {
        law_active_at_most_max(v, r);
        let counted = LedgerView { active_count: s.active_count, ..after };
        lemma_active_same(counted, after, now, s.next_id as int);
        if let Request::Execute { executor, proposal_id, transfer_replies } = r {
            let p = s.proposals[proposal_id];
            assert(counted =~= (LedgerView {
                proposals: s.proposals.insert(
                    p.id,
                    ProposalView { status: ProposalStatus::Executed, ..p },
                ),
                ..rules::enacted(s, now, p)
            }));
        } else {
            assert(counted =~= s);
        }
    }
}

/// What is noted is never less than the number of active proposals, nor more
/// than 50.
pub open spec fn count_sound(s: LedgerView, now: u64) -> bool {
    rules::active_proposals(s, now) <= s.active_count <= rules::MAX_ACTIVE_PROPOSALS
}

/// Every request keeps the noted number between that of the active proposals and
/// 50.
pub proof fn law_noted_count_kept(v: EnvView, r: Request)
    requires
        numbered(v.ledger),
        count_sound(v.ledger, v.timestamp),
    ensures
        count_sound(requests::effect(v, r).ledger, v.timestamp),
{
    let s = v.ledger;
    let after = requests::effect(v, r).ledger;
    let now = v.timestamp;
    law_active_at_most_max(v, r);
    if requests::refusal(v, r) is Some {
        law_refused_changes_nothing(v, r);
    } else if requests::files(r) || r is Execute || (r matches Request::CancelExpired { ids, .. }
        && rules::expired_among(s, now, ids) > 0) {
        law_noted_count_is_fresh(v, r);
    } else {
        assert(after.active_count == s.active_count);
        assert forall|id: u64|
            1 <= id < s.next_id && #[trigger] rules::active_id(
                after,
                now,
                id,
            ) implies rules::active_id(s, now, id) by {
            assert(s.proposals.contains_key(id));
        }
        lemma_active_fewer(s, now, after, now, s.next_id as int);
    }
}

/// Time alone makes no proposal active: at a later time at most as many are.
pub proof fn law_active_shrinks_with_time(s: LedgerView, now: u64, then: u64)
    requires
        now <= then,
    ensures
        rules::active_proposals(s, then) <= rules::active_proposals(s, now),
{
    lemma_active_fewer(s, now, s, then, s.next_id as int);
}

/// Executing a proposal frees the place that it took among the active ones.
pub proof fn law_execution_frees_a_place(
    v: EnvView,
    executor: Address,
    id: u64,
    transfer_replies: Seq<bool>,
)
    requires
        numbered(v.ledger),
        rules::execute_refusal(v, executor, id, transfer_replies) is None,
    ensures
        rules::active_proposals(
            rules::execute_effect(v, executor, id, transfer_replies).ledger,
            v.timestamp,
        ) + 1 == rules::active_proposals(v.ledger, v.timestamp),
{
    let s = v.ledger;
    let after = rules::execute_effect(v, executor, id, transfer_replies).ledger;
    lemma_active_one_less(s, after, v.timestamp, id, s.next_id as int);
}

/// Where one id stops being active, one proposal does.
proof fn lemma_active_one_less(s: LedgerView, t: LedgerView, now: u64, gone: u64, end: int)
    requires
        1 <= gone < end <= u64::MAX,
        rules::active_id(s, now, gone),
        !rules::active_id(t, now, gone),
        forall|id: u64|
            1 <= id < end && id != gone ==> #[trigger] rules::active_id(s, now, id)
                == rules::active_id(t, now, id),
    ensures
        rules::active_before(t, now, end) + 1 == rules::active_before(s, now, end),
    decreases end,
{
    if gone == end - 1 {
        lemma_active_same(s, t, now, end - 1);
    } else {
        lemma_active_one_less(s, t, now, gone, end - 1);
        assert(rules::active_id(s, now, (end - 1) as u64) == rules::active_id(
            t,
            now,
            (end - 1) as u64,
        ));
    }
}

/// Once its deadline has passed, a proposal that was not executed is expired,
/// however many approved it, and stays so: it does not count as active, it can
/// be neither voted on nor executed, and no request changes it.
pub proof fn law_expired_stays_expired(v: EnvView, r: Request, id: u64)
    requires
        numbered(v.ledger),
        v.ledger.proposals.contains_key(id),
        v.ledger.proposals[id].status != ProposalStatus::Executed,
        v.ledger.proposals[id].status != ProposalStatus::Revoked,
        v.timestamp > v.ledger.proposals[id].deadline,
    ensures
        rules::derived_status(v.ledger.proposals[id], v.timestamp) == ProposalStatus::Expired,
        !rules::active_id(v.ledger, v.timestamp, id),
        r matches Request::Approve { approver, proposal_id } ==> (proposal_id == id
            ==> requests::refusal(v, r) == rules::or_else(
            rules::owner_refusal(v.ledger, approver),
            Some(ContractError::ProposalNotActive),
        )),
        r matches Request::Revoke { approver, proposal_id } ==> (proposal_id == id
            ==> requests::refusal(v, r) == rules::or_else(
            rules::owner_refusal(v.ledger, approver),
            Some(ContractError::ProposalNotActive),
        )),
        r matches Request::Execute { executor, proposal_id, .. } ==> (proposal_id == id
            ==> requests::refusal(v, r) == rules::or_else(
            rules::actor_refusal(v.ledger, executor),
            Some(ContractError::ProposalExpired),
        )),
        requests::effect(v, r).ledger.proposals[id] == v.ledger.proposals[id],
{
}

/// A sweep of expired proposals changes nothing that can be asked of the wallet:
/// expiry is read off the clock.
pub proof fn law_sweep_changes_no_proposal(v: EnvView, caller: Address, ids: Seq<u64>)
    ensures
        rules::cancel_expired_effect(v, caller, ids).ledger == (LedgerView {
            active_count: rules::cancel_expired_effect(v, caller, ids).ledger.active_count,
            ..v.ledger
        }),
        rules::cancel_expired_effect(v, caller, ids).events == v.events,
{
}

// ---------------------------------------------------------------------------
// Execution
// ---------------------------------------------------------------------------
/// A proposal is executed only by an owner of a wallet that is not frozen, once
/// its quorum is reached and the time-lock has run out, and before its deadline
/// has passed; then it is `Executed`.
pub proof fn law_execution_is_earned(
    v: EnvView,
    executor: Address,
    id: u64,
    transfer_replies: Seq<bool>,
)
    requires
        numbered(v.ledger),
        rules::execute_refusal(v, executor, id, transfer_replies) is None,
    ensures
        ({
            let s = v.ledger;
            let p = s.proposals[id];
            &&& rules::is_owner(s, executor)
            &&& !s.frozen
            &&& s.proposals.contains_key(id)
            &&& p.approvals >= p.quorum_weight
            &&& v.timestamp <= p.deadline
            &&& s.time_lock_delay > 0 ==> v.timestamp >= rules::later(p.ready_at, s.time_lock_delay)
            &&& rules::execute_effect(v, executor, id, transfer_replies).ledger.proposals[id] == (
            ProposalView { status: ProposalStatus::Executed, ..p })
        }),
{
}

/// Payments are made together or not at all: if one of them failed, nothing is
/// executed.
pub proof fn law_payments_are_atomic(
    v: EnvView,
    executor: Address,
    id: u64,
    transfer_replies: Seq<bool>,
    failed: int,
)
    requires
        rules::readiness_refusal(v, executor, id) is None,
        v.ledger.proposals[id].kind is Transfer,
        0 <= failed < v.ledger.proposals[id].kind.transfers().len(),
        !rules::replied_well(transfer_replies, failed),
    ensures
        rules::execute_refusal(v, executor, id, transfer_replies) == Some(
            ContractError::TransferFailed,
        ),
        rules::execute_effect(v, executor, id, transfer_replies).ledger == v.ledger,
        rules::execute_effect(v, executor, id, transfer_replies).events == v.events,
{
}

/// The share that a weight change may give one owner is from 1 to 50 percent.
pub open spec fn cap_sound(s: LedgerView) -> bool {
    1 <= s.max_single_owner_weight_pct <= rules::MAX_SINGLE_OWNER_WEIGHT_PCT
}

/// The cap starts between 1 and 50 percent.
pub proof fn law_cap_at_first()
    ensures
        cap_sound(ledger::empty_ledger()),
{
}

/// The cap can be tightened but never goes above 50 percent.
pub proof fn law_cap_kept(v: EnvView, r: Request)
    requires
        cap_sound(v.ledger),
    ensures
        cap_sound(requests::effect(v, r).ledger),
{
}

/// Whether a proposal that changes a weight is executed.
pub open spec fn executes_reweight(v: EnvView, r: Request, target: Address, weight: u32) -> bool {
    &&& r matches Request::Execute { proposal_id, .. } && v.ledger.proposals[proposal_id].kind
        == KindView::ChangeOwnerWeight(target, weight)
    &&& requests::refusal(v, r) is None
}

/// No weight change gives one owner a strict majority of the weight that
/// results, nor a weight that owners may not have; and nobody else's changes.
pub proof fn law_weight_change_gives_no_majority(
    v: EnvView,
    r: Request,
    target: Address,
    weight: u32,
)
    requires
        cap_sound(v.ledger),
        executes_reweight(v, r, target, weight),
    ensures
        ({
            let after = requests::effect(v, r).ledger;
            &&& rules::weight_of(after, target) == weight
            &&& rules::is_weight(weight)
            &&& 2 * weight <= after.total_weight
            &&& forall|a: Address|
                a != target ==> rules::weight_of(after, a) == rules::weight_of(v.ledger, a)
        }),
{
    let total = rules::reweighted_total(v.ledger, target, weight);
    let pct = v.ledger.max_single_owner_weight_pct;
    assert(total * pct <= total * 50) by (nonlinear_arith)
        requires
            total >= 0,
            pct <= 50,
    ;
}

/// No weight change leaves an active proposal with a quorum that all owners
/// together cannot reach.
pub proof fn law_weight_change_strands_no_proposal(
    v: EnvView,
    r: Request,
    target: Address,
    weight: u32,
    id: u64,
)
    requires
        numbered(v.ledger),
        executes_reweight(v, r, target, weight),
        rules::active_id(requests::effect(v, r).ledger, v.timestamp, id),
    ensures
        requests::effect(v, r).ledger.proposals[id].quorum_weight <= requests::effect(
            v,
            r,
        ).ledger.total_weight,
{
    assert(v.ledger.proposals.contains_key(id));
    assert(rules::active_id(v.ledger, v.timestamp, id));
}

// ---------------------------------------------------------------------------
// What each request may change
// ---------------------------------------------------------------------------
/// Whether a request executes a proposal of a kind.
pub open spec fn executes(v: EnvView, r: Request) -> Option<KindView> {
    match r {
        Request::Execute { executor, proposal_id, transfer_replies } => if requests::refusal(v, r)
            is None {
            Some(v.ledger.proposals[proposal_id].kind)
        } else {
            None
        },
        _ => None,
    }
}

/// The wallet is set up once: after that its setup is refused, and it stays set
/// up.
pub proof fn law_set_up_once(v: EnvView, r: Request)
    requires
        v.ledger.initialized,
    ensures
        requests::effect(v, r).ledger.initialized,
        r is Initialize ==> requests::refusal(v, r) == Some(ContractError::AlreadyInitialized),
{
}

/// Once the wallet is set up, the threshold changes only by executing a proposal
/// to change it, and the time-lock delay never does.
pub proof fn law_threshold_changes_by_proposal(v: EnvView, r: Request)
    requires
        v.ledger.initialized,
    ensures
        requests::effect(v, r).ledger.threshold == match executes(v, r) {
            Some(KindView::ChangeThreshold(threshold)) => Some(threshold),
            _ => v.ledger.threshold,
        },
        requests::effect(v, r).ledger.time_lock_delay == v.ledger.time_lock_delay,
{
}

/// The threshold is at least 1, and so are the quorum of every proposal and every
/// threshold that is proposed.
pub open spec fn threshold_sound(s: LedgerView) -> bool {
    &&& s.threshold matches Some(threshold) ==> threshold >= 1
    &&& forall|id: u64| #[trigger]
        s.proposals.contains_key(id) ==> s.proposals[id].quorum_weight >= 1 && (
        s.proposals[id].kind matches KindView::ChangeThreshold(threshold) ==> threshold >= 1)
}

/// In an empty ledger there is no threshold yet.
pub proof fn law_threshold_sound_at_first()
    ensures
        threshold_sound(ledger::empty_ledger()),
{
}

/// Every request keeps the threshold, every quorum and every proposed threshold
/// at 1 or more.
pub proof fn law_threshold_sound_kept(v: EnvView, r: Request)
    requires
        numbered(v.ledger),
        threshold_sound(v.ledger),
    ensures
        threshold_sound(requests::effect(v, r).ledger),
{
    if requests::refusal(v, r) is Some {
        law_refused_changes_nothing(v, r);
    } else {
        match r {
            Request::Initialize { owners, weights, threshold, time_lock_delay } => {},
            Request::Approve { approver, proposal_id } => {},
            Request::Revoke { approver, proposal_id } => {},
            Request::Execute { executor, proposal_id, transfer_replies } => {
                assert(v.ledger.proposals[proposal_id].id == proposal_id);
            },
            _ => {},
        }
    }
}

/// A proposal that is filed is `Pending`: nobody has approved it, and its quorum
/// takes someone.
pub proof fn law_filed_is_pending(v: EnvView, r: Request)
    requires
        threshold_sound(v.ledger),
        requests::files(r),
        requests::refusal(v, r) is None,
    ensures
        rules::derived_status(
            requests::effect(v, r).ledger.proposals[v.ledger.next_id],
            v.timestamp,
        ) == ProposalStatus::Pending,
{
}

/// No decision is taken by nobody: co-signers who decide are at least one.
pub proof fn law_somebody_cosigns(v: EnvView, r: Request)
    requires
        threshold_sound(v.ledger),
        requests::cosigned(r),
        requests::refusal(v, r) is None,
    ensures
        requests::signers(r).len() > 0,
{
}

/// Once the wallet is set up, owners and weights change only by executing a
/// proposal that adds, removes or reweighs an owner.
pub proof fn law_owners_change_by_proposal(v: EnvView, r: Request)
    requires
        v.ledger.initialized,
    ensures
        requests::effect(v, r).ledger.owners == match executes(v, r) {
            Some(KindView::AddOwner(owner)) => Some(
                v.ledger.owners->0.insert(owner, rules::MIN_OWNER_WEIGHT),
            ),
            Some(KindView::RemoveOwner(owner)) => Some(v.ledger.owners->0.remove(owner)),
            Some(KindView::ChangeOwnerWeight(target, weight)) => Some(
                v.ledger.owners->0.insert(target, weight),
            ),
            _ => v.ledger.owners,
        },
{
}

/// A spending limit changes only by executing a proposal to set it: weights,
/// votes and payments leave it as it is.
pub proof fn law_limits_change_by_proposal(v: EnvView, r: Request, owner: Address, token: Address)
    ensures
        rules::limit_of(requests::effect(v, r).ledger, owner, token) == match executes(v, r) {
            Some(KindView::SetSpendingLimit(o, t, limit)) => if o == owner && t == token {
                Some(limit)
            } else {
                rules::limit_of(v.ledger, owner, token)
            },
            _ => rules::limit_of(v.ledger, owner, token),
        },
{
}

/// The guardian changes only by a decision of co-signers to name one.
pub proof fn law_guardian_changes_by_cosigners(v: EnvView, r: Request)
    ensures
        requests::effect(v, r).ledger.guardian == match r {
            Request::SetGuardian { approvers, new_guardian } => if requests::refusal(v, r) is None {
                Some(new_guardian)
            } else {
                v.ledger.guardian
            },
            _ => v.ledger.guardian,
        },
{
    if requests::refusal(v, r) is Some {
        law_refused_changes_nothing(v, r);
    } else {
        match r {
            Request::SetGuardian { approvers, new_guardian } => {},
            Request::Initialize { owners, weights, threshold, time_lock_delay } => {},
            Request::Execute { executor, proposal_id, transfer_replies } => {
                match v.ledger.proposals[proposal_id].kind {
                    KindView::Transfer(transfers) => {},
                    _ => {},
                }
            },
            _ => {},
        }
    }
}

/// The code changes only by a decision of co-signers to replace it.
pub proof fn law_code_changes_by_cosigners(v: EnvView, r: Request)
    ensures
        requests::effect(v, r).new_wasm == match r {
            Request::Upgrade { approvers, new_wasm_hash } => if requests::refusal(v, r) is None {
                Some(new_wasm_hash)
            } else {
                v.new_wasm
            },
            _ => v.new_wasm,
        },
{
    if requests::refusal(v, r) is Some {
        law_refused_changes_nothing(v, r);
    } else {
        match r {
            Request::Upgrade { approvers, new_wasm_hash } => {},
            Request::Initialize { owners, weights, threshold, time_lock_delay } => {},
            Request::Execute { executor, proposal_id, transfer_replies } => {},
            _ => {},
        }
    }
}

/// Replacing the code keeps everything that is stored.
pub proof fn law_upgrade_keeps_the_ledger(
    v: EnvView,
    approvers: Seq<Address>,
    new_wasm_hash: [u8; 32],
)
    ensures
        rules::upgrade_effect(v, approvers, new_wasm_hash).ledger == v.ledger,
{
}

// ---------------------------------------------------------------------------
// Freezing
// ---------------------------------------------------------------------------
/// While the wallet is frozen nothing is filed and nothing executed; an owner is
/// told why.
pub proof fn law_frozen_blocks(v: EnvView, r: Request)
    requires
        v.ledger.frozen,
        requests::files(r) || r is Execute,
    ensures
        requests::refusal(v, r) is Some,
        rules::is_owner(v.ledger, requests::signers(r)[0]) ==> requests::refusal(v, r) == Some(
            ContractError::ContractFrozen,
        ),
        requests::effect(v, r).ledger == v.ledger,
{
}

/// A freeze stands in the way of nothing but filing and executing.
pub proof fn law_frozen_blocks_nothing_else(v: EnvView, r: Request, frozen: bool)
    requires
        !requests::files(r),
        !(r is Execute),
    ensures
        requests::refusal(
            EnvView { ledger: LedgerView { frozen, ..v.ledger }, ..v },
            r,
        ) == requests::refusal(v, r),
{
    let w = EnvView { ledger: LedgerView { frozen, ..v.ledger }, ..v };
    if requests::cosigned(r) {
        lemma_tally_same(v.ledger, w.ledger, requests::signers(r), 0);
        lemma_weight_same(
            v.ledger,
            w.ledger,
            requests::signers(r),
            requests::signers(r).len() as int,
        );
    }
}

/// Ledgers with the same owners weigh co-signers the same.
proof fn lemma_weight_same(s: LedgerView, t: LedgerView, approvers: Seq<Address>, k: int)
    requires
        s.owners == t.owners,
    ensures
        rules::weight_upto(s, approvers, k) == rules::weight_upto(t, approvers, k),
    decreases k,
{
    if k > 0 {
        lemma_weight_same(s, t, approvers, k - 1);
    }
}

/// Ledgers with the same owners count co-signers the same.
proof fn lemma_tally_same(s: LedgerView, t: LedgerView, approvers: Seq<Address>, i: int)
    requires
        s.owners == t.owners,
        0 <= i,
    ensures
        rules::tally_refusal(s, approvers, i) == rules::tally_refusal(t, approvers, i),
    decreases approvers.len() - i,
{
    if i < approvers.len() {
        lemma_weight_same(s, t, approvers, i + 1);
        lemma_tally_same(s, t, approvers, i + 1);
    }
}

/// The wallet becomes frozen only by its guardian, and ends a freeze only by a
/// decision of co-signers.
pub proof fn law_freeze_and_unfreeze(v: EnvView, r: Request)
    ensures
        requests::effect(v, r).ledger.frozen == if requests::refusal(v, r) is Some {
            v.ledger.frozen
        } else if r is Freeze {
            true
        } else if r is Unfreeze {
            false
        } else {
            v.ledger.frozen
        },
        r matches Request::Freeze { guardian } ==> (requests::refusal(v, r) is None
            <==> v.ledger.guardian == Some(guardian)),
{
}

// ---------------------------------------------------------------------------
// Co-signing
// ---------------------------------------------------------------------------
/// The weight of co-signers, by the list of those who were counted.
proof fn lemma_weight_of_distinct(s: LedgerView, approvers: Seq<Address>, k: int)
    requires
        s.owners matches Some(owners) && owners.dom().finite(),
        approvers.no_duplicates(),
        0 <= k <= approvers.len(),
    ensures
        ({
            let counted = s.owners->0.restrict(approvers.take(k).to_set());
            &&& counted.dom().finite()
            &&& rules::weight_upto(s, approvers, k) == weight_sum(counted)
        }),
    decreases k,
{
    let owners = s.owners->0;
    let counted = owners.restrict(approvers.take(k).to_set());
    lemma_sum_monotone(counted, owners);
    if k == 0 {
        assert(counted =~= Map::<Address, u32>::empty());
    } else {
        let a = approvers[k - 1];
        let fewer = approvers.take(k - 1);
        let more = approvers.take(k);
        let before = owners.restrict(fewer.to_set());
        lemma_weight_of_distinct(s, approvers, k - 1);
        assert(more =~= fewer.push(a));
        assert forall|b: Address| more.contains(b) == (fewer.contains(b)
            || b == a) by {
            if more.contains(b) {
                let i: int = choose|i: int| 0 <= i < more.len() && more[i] == b;
                if i < k - 1 {
                    assert(fewer[i] == b);
                }
            }
            if fewer.contains(b) {
                let i: int = choose|i: int| 0 <= i < fewer.len() && fewer[i] == b;
                assert(more[i] == b);
            }
            assert(more[k - 1] == a);
        }
        assert(!fewer.contains(a)) by {
            if fewer.contains(a) {
                let i: int = choose|i: int| 0 <= i < fewer.len() && fewer[i] == a;
                assert(approvers[i] == approvers[k - 1]);
            }
        }
        if owners.contains_key(a) {
            assert(counted =~= before.insert(a, owners[a]));
            lemma_sum_insert(before, a, owners[a]);
            lemma_remove_absent(before, a);
        } else {
            assert(counted =~= before);
        }
    }
}

/// The list of owners that the wallet gives out names each owner once, and the
/// weights along it add up to the total weight.
pub proof fn law_listed_owners_weigh_the_total(s: LedgerView, list: Seq<Address>)
    requires
        total_matches(s),
        s.owners is Some,
        list.to_set() == s.owners->0.dom(),
        owners::ascending(list),
    ensures
        list.no_duplicates(),
        list.len() == rules::owner_count(s),
        forall|a: Address| list.contains(a) <==> rules::is_owner(s, a),
        rules::weight_upto(s, list, list.len() as int) == s.total_weight,
{
    let owners = s.owners->0;
    assert forall|i: int, j: int|
        0 <= i < list.len() && 0 <= j < list.len() && i != j implies list[i] != list[j] by {
        if i < j {
            assert(list[i].precedes(list[j]));
        } else {
            assert(list[j].precedes(list[i]));
        }
    }
    list.unique_seq_to_set();
    assert forall|a: Address| list.contains(a) == rules::is_owner(s, a) by {
        assert(list.to_set().contains(a) == list.contains(a));
    }
    assert(list.take(list.len() as int) =~= list);
    assert(owners.restrict(list.to_set()) =~= owners);
    lemma_weight_of_distinct(s, list, list.len() as int);
}

/// Co-signers decide exactly if they are distinct owners whose weights together
/// reach the threshold. No weight counts twice: together they weigh at most as
/// much as all owners do.
pub proof fn law_cosigners_decide_by_weight(s: LedgerView, approvers: Seq<Address>)
    requires
        total_matches(s),
        s.owners is Some,
    ensures
        rules::quorum_refusal(s, approvers) is None <==> {
            &&& approvers.no_duplicates()
            &&& s.threshold is Some
            &&& forall|i: int|
                0 <= i < approvers.len() ==> rules::is_owner(s, #[trigger] approvers[i])
            &&& rules::weight_upto(s, approvers, approvers.len() as int) >= s.threshold->0
        },
        approvers.no_duplicates() ==> rules::weight_upto(s, approvers, approvers.len() as int)
            <= s.total_weight,
{
    let owners = s.owners->0;
    if approvers.no_duplicates() {
        assert forall|k: int| 0 <= k <= approvers.len() implies #[trigger] rules::weight_upto(
            s,
            approvers,
            k,
        ) <= s.total_weight by {
            lemma_weight_of_distinct(s, approvers, k);
            lemma_sum_monotone(owners.restrict(approvers.take(k).to_set()), owners);
        }
        lemma_tally(s, approvers, 0);
    }
}

/// Where no sum of weights is too large to count, co-signers are counted exactly
/// if all of them are owners.
proof fn lemma_tally(s: LedgerView, approvers: Seq<Address>, i: int)
    requires
        0 <= i <= approvers.len(),
        s.owners is Some,
        forall|k: int|
            0 <= k <= approvers.len() ==> #[trigger] rules::weight_upto(s, approvers, k)
                <= u32::MAX,
    ensures
        rules::tally_refusal(s, approvers, i) is None <==> forall|k: int|
            i <= k < approvers.len() ==> rules::is_owner(s, #[trigger] approvers[k]),
    decreases approvers.len() - i,
{
    if i < approvers.len() {
        lemma_tally(s, approvers, i + 1);
        assert(rules::weight_upto(s, approvers, i + 1) <= u32::MAX);
        if rules::tally_refusal(s, approvers, i) is None {
            assert(rules::is_owner(s, approvers[i]));
        }
    }
}

// ---------------------------------------------------------------------------
// Spending
// ---------------------------------------------------------------------------
/// Every stored proposal pays amounts of at least 1, and what is recorded as
/// spent is never negative and belongs to a window that was begun.
pub open spec fn spending_sound(s: LedgerView) -> bool {
    &&& forall|id: u64, i: int|
        #![trigger s.proposals[id].kind.transfers()[i]]
        s.proposals.contains_key(id) && 0 <= i < s.proposals[id].kind.transfers().len()
            ==> s.proposals[id].kind.transfers()[i].amount >= rules::MIN_AMOUNT
    &&& forall|key: SpendingKey| #[trigger]
        s.spent.contains_key(key) ==> s.spent[key].spent >= 0 && (s.spent[key].epoch == 0
            ==> s.spent[key].spent == 0)
}

/// In an empty ledger nothing was spent.
pub proof fn law_spending_sound_at_first()
    ensures
        spending_sound(ledger::empty_ledger()),
{
}

/// Payments that can be proposed are of at least 1 of a token, and not to the
/// wallet.
proof fn lemma_payments(
    transfers: Seq<Transfer>,
    token_replies: Seq<TokenReply>,
    contract: Address,
    i: int,
)
    requires
        0 <= i,
        rules::transfers_refusal(transfers, token_replies, contract, i) is None,
    ensures
        forall|k: int|
            i <= k < transfers.len() ==> (#[trigger] transfers[k]).amount >= rules::MIN_AMOUNT
                && transfers[k].to != contract && rules::token_found(token_replies, k),
    decreases transfers.len() - i,
{
    if i < transfers.len() {
        lemma_payments(transfers, token_replies, contract, i + 1);
    }
}

/// Payments are proposed only from 1 to 3 at a time, each of at least 1 of a
/// contract that answered as a token does, and none to the wallet itself.
pub proof fn law_payments_are_vetted(
    v: EnvView,
    proposer: Address,
    transfers: Seq<Transfer>,
    description: Seq<u8>,
    deadline: u64,
    token_replies: Seq<TokenReply>,
)
    requires
        rules::create_proposal_refusal(
            v,
            proposer,
            transfers,
            description,
            deadline,
            token_replies,
        ) is None,
    ensures
        1 <= transfers.len() <= rules::MAX_TRANSFERS,
        forall|k: int|
            0 <= k < transfers.len() ==> (#[trigger] transfers[k]).amount >= rules::MIN_AMOUNT
                && transfers[k].to != v.contract && rules::token_found(token_replies, k),
{
    lemma_payments(transfers, token_replies, v.contract, 0);
}

/// Payments of at least 1 add up to no less than 0.
proof fn lemma_total_nonnegative(transfers: Seq<Transfer>, token: Address)
    requires
        forall|i: int|
            0 <= i < transfers.len() ==> (#[trigger] transfers[i]).amount >= rules::MIN_AMOUNT,
    ensures
        rules::token_total(transfers, token) >= 0,
        rules::pays_in(transfers, token) ==> rules::token_total(transfers, token) >= 1,
    decreases transfers.len(),
{
    if transfers.len() > 0 {
        let rest = transfers.drop_last();
        assert forall|i: int| 0 <= i < rest.len() implies (#[trigger] rest[i]).amount
            >= rules::MIN_AMOUNT by {
            assert(transfers[i].amount >= rules::MIN_AMOUNT);
        }
        lemma_total_nonnegative(rest, token);
        assert(transfers[transfers.len() - 1].amount >= rules::MIN_AMOUNT);
        if rules::pays_in(transfers, token) && transfers.last().token != token {
            let i: int = choose|i: int|
                0 <= i < transfers.len() && (#[trigger] transfers[i]).token == token;
            assert(rest[i].token == token);
        }
    }
}

/// Every request that is made after time 0 keeps the record of spending sound.
pub proof fn law_spending_sound_kept(v: EnvView, r: Request)
    requires
        numbered(v.ledger),
        spending_sound(v.ledger),
        v.timestamp > 0,
    ensures
        spending_sound(requests::effect(v, r).ledger),
{
    let s = v.ledger;
    let after = requests::effect(v, r).ledger;
    if requests::refusal(v, r) is Some {
        law_refused_changes_nothing(v, r);
    } else {
        match r {
            Request::CreateProposal {
                proposer,
                transfers,
                description,
                deadline,
                category,
                token_replies,
            } => {
                lemma_payments(transfers, token_replies, v.contract, 0);
            },
            Request::Execute { executor, proposal_id, transfer_replies } => {
                let p = s.proposals[proposal_id];
                assert(p.id == proposal_id);
                assert forall|key: SpendingKey| #[trigger]
                    after.spent.contains_key(key) implies after.spent[key].spent >= 0 && (
                after.spent[key].epoch == 0 ==> after.spent[key].spent == 0) by {
                    if let KindView::Transfer(transfers) = p.kind {
                        assert(p.kind.transfers() == transfers);
                        assert forall|i: int| 0 <= i < transfers.len() implies (
                        #[trigger] transfers[i]).amount >= rules::MIN_AMOUNT by {
                            assert(s.proposals[proposal_id].kind.transfers()[i].amount
                                >= rules::MIN_AMOUNT);
                        }
                        lemma_total_nonnegative(transfers, key.token);
                        if key.owner == p.proposer && rules::pays_in(transfers, key.token) {
                            let i: int = choose|i: int|
                                0 <= i < transfers.len() && (#[trigger] transfers[i]).token
                                    == key.token;
                            assert(rules::is_amount(
                                rules::spent_after(
                                    rules::tracker_of(s, p.proposer, transfers[i].token),
                                    rules::token_total(transfers, transfers[i].token),
                                    v.timestamp,
                                ),
                            ));
                        } else {
                            assert(s.spent.contains_key(key));
                        }
                    } else {
                        assert(after.spent[key] == s.spent[key] || after.spent[key].spent == 0);
                    }
                }
            },
            _ => {},
        }
    }
}

/// Limits that do not stand against a list of payments do not stand against any
/// of its tokens.
proof fn lemma_limits(
    s: LedgerView,
    now: u64,
    owner: Address,
    transfers: Seq<Transfer>,
    i: int,
    k: int,
)
    requires
        0 <= i <= k < transfers.len(),
        rules::limits_refusal(s, now, owner, transfers, i) is None,
    ensures
        rules::limit_refusal(
            s,
            now,
            owner,
            transfers[k].token,
            rules::token_total(transfers, transfers[k].token),
        ) is None,
    decreases k - i,
{
    if i < k {
        lemma_limits(s, now, owner, transfers, i + 1, k);
    }
}

/// An owner who has a spending limit for a token never gets to propose payments
/// that would take what was spent in the open window above it.
pub proof fn law_filing_respects_limits(
    v: EnvView,
    proposer: Address,
    transfers: Seq<Transfer>,
    description: Seq<u8>,
    deadline: u64,
    token_replies: Seq<TokenReply>,
    token: Address,
    limit: i128,
)
    requires
        rules::create_proposal_refusal(
            v,
            proposer,
            transfers,
            description,
            deadline,
            token_replies,
        ) is None,
        rules::limit_of(v.ledger, proposer, token) == Some(limit),
        rules::pays_in(transfers, token),
    ensures
        rules::token_total(transfers, token) + rules::spent_by(
            v.ledger,
            v.timestamp,
            proposer,
            token,
        ) <= limit,
{
    let k: int = choose|k: int|
        0 <= k < transfers.len() && (#[trigger] transfers[k]).token == token;
    lemma_limits(v.ledger, v.timestamp, proposer, transfers, 0, k);
}

/// A limit of 0 blocks a token for an owner: no payment in it can be proposed.
pub proof fn law_zero_limit_blocks(
    v: EnvView,
    proposer: Address,
    transfers: Seq<Transfer>,
    description: Seq<u8>,
    deadline: u64,
    token_replies: Seq<TokenReply>,
    token: Address,
)
    requires
        spending_sound(v.ledger),
        rules::limit_of(v.ledger, proposer, token) == Some(0i128),
        rules::pays_in(transfers, token),
    ensures
        rules::create_proposal_refusal(
            v,
            proposer,
            transfers,
            description,
            deadline,
            token_replies,
        ) is Some,
{
    if rules::create_proposal_refusal(
        v,
        proposer,
        transfers,
        description,
        deadline,
        token_replies,
    ) is None {
        lemma_payments(transfers, token_replies, v.contract, 0);
        lemma_total_nonnegative(transfers, token);
        law_filing_respects_limits(
            v,
            proposer,
            transfers,
            description,
            deadline,
            token_replies,
            token,
            0,
        );
        let key = SpendingKey { owner: proposer, token };
        assert(v.ledger.spent.contains_key(key) ==> v.ledger.spent[key].spent >= 0);
    }
}

/// An owner who has no limit for the tokens of a list of payments is not
/// restricted.
pub proof fn law_no_limit_is_no_restriction(
    s: LedgerView,
    now: u64,
    owner: Address,
    transfers: Seq<Transfer>,
    i: int,
)
    requires
        0 <= i,
        forall|k: int|
            i <= k < transfers.len() ==> rules::limit_of(s, owner, (#[trigger] transfers[k]).token)
                is None,
    ensures
        rules::limits_refusal(s, now, owner, transfers, i) is None,
    decreases transfers.len() - i,
{
    if i < transfers.len() {
        law_no_limit_is_no_restriction(s, now, owner, transfers, i + 1);
    }
}

/// Executing payments adds what they come to, token by token, to what their
/// proposer has spent in the open window; what others have spent stays. This
/// holds after time 0, the time that stands for no window.
pub proof fn law_execution_adds_to_spent(
    v: EnvView,
    executor: Address,
    id: u64,
    transfer_replies: Seq<bool>,
    owner: Address,
    token: Address,
)
    requires
        spending_sound(v.ledger),
        v.timestamp > 0,
        rules::execute_refusal(v, executor, id, transfer_replies) is None,
        v.ledger.proposals[id].kind is Transfer,
    ensures
        rules::spent_by(
            rules::execute_effect(v, executor, id, transfer_replies).ledger,
            v.timestamp,
            owner,
            token,
        ) == rules::spent_by(v.ledger, v.timestamp, owner, token) + if owner
            == v.ledger.proposals[id].proposer {
            rules::token_total(v.ledger.proposals[id].kind.transfers(), token)
        } else {
            0
        },
{
    let s = v.ledger;
    let p = s.proposals[id];
    let transfers = p.kind.transfers();
    let key = SpendingKey { owner, token };
    assert(s.spent.contains_key(key) ==> (s.spent[key].epoch == 0 ==> s.spent[key].spent == 0));
    if rules::pays_in(transfers, token) {
        let i: int = choose|i: int|
            0 <= i < transfers.len() && (#[trigger] transfers[i]).token == token;
        assert(rules::is_amount(
            rules::spent_after(
                rules::tracker_of(s, p.proposer, transfers[i].token),
                rules::token_total(transfers, transfers[i].token),
                v.timestamp,
            ),
        ));
    } else {
        spending::lemma_token_total_none(transfers, token);
    }
}

/// What an owner has spent of a token is recorded anew only by executing that
/// owner's payments in it, or by setting that limit.
pub proof fn law_spent_changes_by_proposal(v: EnvView, r: Request, owner: Address, token: Address)
    requires
        rules::tracker_of(requests::effect(v, r).ledger, owner, token) != rules::tracker_of(
            v.ledger,
            owner,
            token,
        ),
    ensures
        match executes(v, r) {
            Some(KindView::Transfer(transfers)) => rules::pays_in(transfers, token) && (r matches
                Request::Execute { proposal_id, .. }
                && v.ledger.proposals[proposal_id].proposer == owner),
            Some(KindView::SetSpendingLimit(o, t, limit)) => o == owner && t == token,
            _ => false,
        },
{
}

/// Once the window has elapsed, the whole limit is there again; and the first
/// spend after that begins a new window, in which it alone counts.
pub proof fn law_window_elapses(
    s: LedgerView,
    now: u64,
    owner: Address,
    token: Address,
    amount: i128,
)
    requires
        now > rules::later(rules::tracker_of(s, owner, token).epoch, rules::SPENDING_WINDOW),
    ensures
        rules::spent_by(s, now, owner, token) == 0,
        rules::remaining_of(s, now, owner, token) == rules::limit_of(s, owner, token),
        rules::tracker_of(s, owner, token).epoch != 0 ==> rules::tracker_after(
            rules::tracker_of(s, owner, token),
            amount as int,
            now,
        ) == (SpentTracker { spent: amount, epoch: now }),
{
}

/// Setting a limit begins a window in which nothing is spent yet, so that the
/// whole limit is there; no other limit or record changes.
pub proof fn law_setting_a_limit(
    v: EnvView,
    executor: Address,
    id: u64,
    transfer_replies: Seq<bool>,
    owner: Address,
    token: Address,
    limit: i128,
)
    requires
        rules::execute_refusal(v, executor, id, transfer_replies) is None,
        v.ledger.proposals[id].kind == KindView::SetSpendingLimit(owner, token, limit),
    ensures
        ({
            let after = rules::execute_effect(v, executor, id, transfer_replies).ledger;
            &&& rules::limit_of(after, owner, token) == Some(limit)
            &&& rules::spent_by(after, v.timestamp, owner, token) == 0
            &&& rules::remaining_of(after, v.timestamp, owner, token) == Some(limit)
            &&& forall|o: Address, t: Address|
                o != owner || t != token ==> rules::limit_of(after, o, t) == rules::limit_of(
                    v.ledger,
                    o,
                    t,
                ) && rules::tracker_of(after, o, t) == rules::tracker_of(v.ledger, o, t)
        }),
{
}

// ---------------------------------------------------------------------------
// Pages
// ---------------------------------------------------------------------------
/// A page lists the proposals of its ids one after the other, each brought up to
/// date.
pub proof fn law_page_lists_its_ids(s: LedgerView, now: u64, start: int, end: int)
    requires
        numbered(s),
        1 <= start,
        start - 1 <= end < s.next_id,
    ensures
        rules::page(s, now, start, end).len() == end - start + 1,
        forall|i: int|
            0 <= i <= end - start ==> #[trigger] rules::page(s, now, start, end)[i]
                == rules::up_to_date(s.proposals[(start + i) as u64], now),
    decreases end - start + 1,
{
    if start <= end {
        law_page_lists_its_ids(s, now, start, end - 1);
        assert(s.proposals.contains_key(end as u64));
    }
}

/// Pages that follow each other list what one page over all their ids would: no
/// proposal is left out between them and none comes twice.
pub proof fn law_pages_join(s: LedgerView, now: u64, start: int, middle: int, end: int)
    requires
        start - 1 <= middle <= end,
    ensures
        rules::page(s, now, start, middle) + rules::page(s, now, middle + 1, end) == rules::page(
            s,
            now,
            start,
            end,
        ),
    decreases end - middle,
{
    let first = rules::page(s, now, start, middle);
    if middle == end {
        assert(first + rules::page(s, now, middle + 1, end) =~= first);
    } else {
        law_pages_join(s, now, start, middle, end - 1);
        let next = rules::page(s, now, middle + 1, end - 1);
        if s.proposals.contains_key(end as u64) {
            let p = rules::up_to_date(s.proposals[end as u64], now);
            assert(first + next.push(p) =~= (first + next).push(p));
        }
    }
}

// ---------------------------------------------------------------------------
// Every state
// ---------------------------------------------------------------------------
/// A request leaves the time as it was.
proof fn lemma_time_stands(v: EnvView, r: Request)
    ensures
        requests::effect(v, r).timestamp == v.timestamp,
{
}

/// The time after some requests is that of the last one.
proof fn lemma_run_time(v: EnvView, steps: Seq<Step>)
    requires
        steps.len() > 0,
    ensures
        requests::run(v, steps).timestamp == steps.last().time,
{
    lemma_time_stands(
        requests::at(requests::run(v, steps.drop_last()), steps.last().time),
        steps.last().request,
    );
}

/// Whatever was asked of a wallet from its first day on, in whatever order, its
/// proposals are numbered, its owners at most 20, its total weight the sum of
/// theirs, its cap between 1 and 50 percent, its threshold and every quorum at
/// least 1, what was executed had its quorum, and at most 50 proposals are
/// active, which the noted number is never below.
pub proof fn law_every_state(v: EnvView, steps: Seq<Step>)
    requires
        v.ledger == ledger::empty_ledger(),
        requests::in_order(steps),
    ensures
        ({
            let w = requests::run(v, steps);
            &&& numbered(w.ledger)
            &&& owners_finite(w.ledger)
            &&& rules::owner_count(w.ledger) <= rules::MAX_OWNERS
            &&& total_matches(w.ledger)
            &&& cap_sound(w.ledger)
            &&& threshold_sound(w.ledger)
            &&& executed_with_quorum(w.ledger)
            &&& rules::active_proposals(w.ledger, w.timestamp) <= rules::MAX_ACTIVE_PROPOSALS
            &&& count_sound(w.ledger, w.timestamp)
        }),
    decreases steps.len(),
{
    if steps.len() > 0 {
        let before = requests::run(v, steps.drop_last());
        let found = requests::at(before, steps.last().time);
        let r = steps.last().request;
        assert(requests::in_order(steps.drop_last()));
        law_every_state(v, steps.drop_last());
        if steps.len() > 1 {
            lemma_run_time(v, steps.drop_last());
            assert(steps[steps.len() - 2].time <= steps[steps.len() - 1].time);
            law_active_shrinks_with_time(before.ledger, before.timestamp, found.timestamp);
        }
        lemma_time_stands(found, r);
        law_numbered_kept(found, r);
        law_owners_stay_finite(found, r);
        law_owners_at_most_max(found, r);
        law_total_weight_is_the_sum(found, r);
        law_cap_kept(found, r);
        law_threshold_sound_kept(found, r);
        law_executed_with_quorum(found, r);
        law_active_at_most_max(found, r);
        law_noted_count_kept(found, r);
    }
}

/// Whatever was asked of a wallet from its first day on, and at whatever times,
/// the total weight is the sum of the owners' weights.
pub proof fn law_total_in_every_state(v: EnvView, steps: Seq<Step>)
    requires
        v.ledger == ledger::empty_ledger(),
    ensures
        total_matches(requests::run(v, steps).ledger),
    decreases steps.len(),
{
    if steps.len() > 0 {
        law_total_in_every_state(v, steps.drop_last());
        law_total_weight_is_the_sum(
            requests::at(requests::run(v, steps.drop_last()), steps.last().time),
            steps.last().request,
        );
    }
}

} // verus!
