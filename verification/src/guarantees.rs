//! What each request and each question guarantees, in words that speak of
//! nothing but what is asked, stored and told.

use crate::laws;
use crate::ledger;
use crate::ledger::{EnvView, LedgerView};
use crate::requests;
use crate::requests::{Request, Step};
use crate::rules;
use crate::types::{
    Address, ApprovalKey, ContractError, EventView, KindView, ProposalCategory, ProposalStatus,
    ProposalView, SpendingKey, SpentTracker, TokenReply, Transfer,
};
use vstd::prelude::*;

verus! {

// ---------------------------------------------------------------------------
// Words
// ---------------------------------------------------------------------------
/// Somebody is on the list of owners.
pub open spec fn listed(s: LedgerView, a: Address) -> bool {
    s.owners is Some && s.owners->0.contains_key(a)
}

/// How much somebody's vote weighs: nothing without a place on the list.
pub open spec fn vote(s: LedgerView, a: Address) -> int {
    if listed(s, a) {
        s.owners->0[a] as int
    } else {
        0
    }
}

/// A proposal was executed or withdrawn for good.
pub open spec fn decided(p: ProposalView) -> bool {
    p.status == ProposalStatus::Executed || p.status == ProposalStatus::Revoked
}

/// A proposal can still be voted on.
pub open spec fn votable(p: ProposalView, now: u64) -> bool {
    !decided(p) && now <= p.deadline
}

/// A proposal ran out of time undecided.
pub open spec fn lapsed(p: ProposalView, now: u64) -> bool {
    !decided(p) && now > p.deadline
}

/// The ids under `end` whose proposals can still be voted on.
pub open spec fn votable_ids(s: LedgerView, now: u64, end: int) -> Set<u64> {
    Set::new(
        |id: u64|
            1 <= id < end && s.proposals.contains_key(id) && votable(s.proposals[id], now),
    )
}

/// The proposals of a wallet that can still be voted on.
pub open spec fn votable_count(s: LedgerView, now: u64) -> nat {
    votable_ids(s, now, s.next_id as int).len()
}

/// Somebody's approval of a proposal was given and not taken back.
pub open spec fn stands(s: LedgerView, id: u64, a: Address) -> bool {
    let key = ApprovalKey { proposal_id: id, owner: a };
    s.approvals.contains_key(key) && s.approvals[key] == true
}

/// The sum of a list of weights.
pub open spec fn sum(weights: Seq<u32>) -> int
    decreases weights.len(),
{
    if weights.len() == 0 {
        0
    } else {
        weights[0] + sum(weights.drop_first())
    }
}

/// What the votes of a list of people weigh together.
pub open spec fn votes(s: LedgerView, people: Seq<Address>) -> int
    decreases people.len(),
{
    if people.len() == 0 {
        0
    } else {
        vote(s, people[0]) + votes(s, people.drop_first())
    }
}

/// What a list of payments comes to in a token.
pub open spec fn paid_in(payments: Seq<Transfer>, token: Address) -> int
    decreases payments.len(),
{
    if payments.len() == 0 {
        0
    } else {
        (if payments[0].token == token {
            payments[0].amount as int
        } else {
            0
        }) + paid_in(payments.drop_first(), token)
    }
}

/// What somebody has spent of a token counts for 2,592,000 seconds (30 days) from
/// the beginning of the window; 0 stands for a window that never began.
pub open spec fn counts_now(t: SpentTracker, now: u64) -> bool {
    t.epoch != 0 && now <= t.epoch + 2_592_000
}

/// What counts as spent by somebody of a token.
pub open spec fn spent_now(s: LedgerView, now: u64, owner: Address, token: Address) -> int {
    let key = SpendingKey { owner, token };
    if s.spent.contains_key(key) && counts_now(s.spent[key], now) {
        s.spent[key].spent as int
    } else {
        0
    }
}

/// A number fits into an amount.
pub open spec fn fits(n: int) -> bool {
    -0x8000_0000_0000_0000_0000_0000_0000_0000 <= n <= 0x7fff_ffff_ffff_ffff_ffff_ffff_ffff_ffff
}

/// The first answer, or the second if there is none.
pub open spec fn or_next(
    first: Option<ContractError>,
    second: Option<ContractError>,
) -> Option<ContractError> {
    if first is Some {
        first
    } else {
        second
    }
}

// ---------------------------------------------------------------------------
// Sums
// ---------------------------------------------------------------------------
proof fn lemma_sum_last(weights: Seq<u32>)
    requires
        weights.len() > 0,
    ensures
        sum(weights) == sum(weights.drop_last()) + weights.last(),
    decreases weights.len(),
{
    reveal_with_fuel(sum, 2);
    if weights.len() > 1 {
        lemma_sum_last(weights.drop_first());
        assert(weights.drop_first().drop_last() =~= weights.drop_last().drop_first());
    }
}

/// The total of a list of weights is their sum.
pub proof fn law_total_of_weights(weights: Seq<u32>)
    ensures
        rules::weights_total(weights) == sum(weights),
    decreases weights.len(),
{
    if weights.len() > 0 {
        law_total_of_weights(weights.drop_last());
        lemma_sum_last(weights);
    }
}

proof fn lemma_votes_last(s: LedgerView, people: Seq<Address>)
    requires
        people.len() > 0,
    ensures
        votes(s, people) == votes(s, people.drop_last()) + vote(s, people.last()),
    decreases people.len(),
{
    reveal_with_fuel(votes, 2);
    if people.len() > 1 {
        lemma_votes_last(s, people.drop_first());
        assert(people.drop_first().drop_last() =~= people.drop_last().drop_first());
    }
}

/// Co-signers weigh what their votes do.
pub proof fn law_weight_of_cosigners(s: LedgerView, people: Seq<Address>, k: int)
    requires
        0 <= k <= people.len(),
    ensures
        rules::weight_upto(s, people, k) == votes(s, people.take(k)),
    decreases k,
{
    if k > 0 {
        law_weight_of_cosigners(s, people, k - 1);
        lemma_votes_last(s, people.take(k));
        assert(people.take(k).drop_last() =~= people.take(k - 1));
    }
}

proof fn lemma_paid_last(payments: Seq<Transfer>, token: Address)
    requires
        payments.len() > 0,
    ensures
        paid_in(payments, token) == paid_in(payments.drop_last(), token) + if payments.last().token
            == token {
            payments.last().amount as int
        } else {
            0
        },
    decreases payments.len(),
{
    reveal_with_fuel(paid_in, 2);
    if payments.len() > 1 {
        lemma_paid_last(payments.drop_first(), token);
        assert(payments.drop_first().drop_last() =~= payments.drop_last().drop_first());
    }
}

/// The total of a token is what the payments come to in it.
pub proof fn law_total_of_token(payments: Seq<Transfer>, token: Address)
    ensures
        rules::token_total(payments, token) == paid_in(payments, token),
    decreases payments.len(),
{
    if payments.len() > 0 {
        law_total_of_token(payments.drop_last(), token);
        lemma_paid_last(payments, token);
    }
}

proof fn lemma_votable_before(s: LedgerView, now: u64, end: int)
    requires
        end <= u64::MAX,
    ensures
        votable_ids(s, now, end).finite(),
        votable_ids(s, now, end).len() == rules::active_before(s, now, end),
    decreases end,
{
    if end <= 1 {
        assert(votable_ids(s, now, end) =~= Set::<u64>::empty());
    } else {
        let id = (end - 1) as u64;
        let fewer = votable_ids(s, now, end - 1);
        lemma_votable_before(s, now, end - 1);
        assert(!fewer.contains(id));
        if s.proposals.contains_key(id) && votable(s.proposals[id], now) {
            assert(votable_ids(s, now, end) =~= fewer.insert(id));
        } else {
            assert(votable_ids(s, now, end) =~= fewer);
        }
    }
}

/// The number of active proposals is that of the stored proposals that are
/// undecided and whose deadline has not passed.
pub proof fn law_active_are_the_votable(s: LedgerView, now: u64)
    ensures
        rules::active_proposals(s, now) == votable_count(s, now),
{
    lemma_votable_before(s, now, s.next_id as int);
}

/// The status that is shown of a proposal: a decision stays; past its deadline it
/// is `Expired`; else it is `Ready` if the approving weight reaches the quorum, and
/// `Pending` if not. Nothing else of it is changed by looking.
pub proof fn law_status_shown(p: ProposalView, now: u64)
    ensures
        decided(p) ==> rules::up_to_date(p, now) == p,
        lapsed(p, now) ==> rules::up_to_date(p, now) == (ProposalView {
            status: ProposalStatus::Expired,
            ..p
        }),
        votable(p, now) && p.approvals >= p.quorum_weight ==> rules::up_to_date(p, now) == (
        ProposalView { status: ProposalStatus::Ready, ..p }),
        votable(p, now) && p.approvals < p.quorum_weight ==> rules::up_to_date(p, now) == (
        ProposalView { status: ProposalStatus::Pending, ..p }),
        rules::derived_status(p, now) == rules::up_to_date(p, now).status,
{
}

// ---------------------------------------------------------------------------
// Setup
// ---------------------------------------------------------------------------
/// Before the setup there is nothing: no owners, no threshold, no proposals, no
/// limits, no guardian, no freeze and no delay. Ids begin at 1 and the cap is 50
/// percent.
pub proof fn law_nothing_at_first(id: u64, key: ApprovalKey, spending: SpendingKey)
    ensures
        ({
            let s = ledger::empty_ledger();
            &&& !s.initialized
            &&& s.threshold is None
            &&& s.owners is None
            &&& s.total_weight == 0
            &&& s.max_single_owner_weight_pct == 50
            &&& s.time_lock_delay == 0
            &&& s.next_id == 1
            &&& s.active_count == 0
            &&& s.guardian is None
            &&& !s.frozen
            &&& !s.proposals.contains_key(id)
            &&& !s.approvals.contains_key(key)
            &&& !s.spending_limits.contains_key(spending)
            &&& !s.spent.contains_key(spending)
        }),
{
}

/// A wallet is set up unless it was before, with 1 to 20 owners, a weight of 1 to
/// 100,000 for each, nobody listed twice, and a threshold from 1 to the sum of the
/// weights. The first of these that fails is the answer.
pub proof fn law_setup_is_answered(
    v: EnvView,
    owners: Seq<Address>,
    weights: Seq<u32>,
    threshold: u32,
)
    ensures
        rules::initialize_refusal(v.ledger, owners, weights, threshold)
            == if v.ledger.initialized {
            Some(ContractError::AlreadyInitialized)
        } else if !(1 <= owners.len() <= 20) {
            Some(ContractError::InvalidOwners)
        } else if owners.len() != weights.len() {
            Some(ContractError::InvalidWeightsLength)
        } else if exists|i: int, j: int|
            0 <= i < j < owners.len() && #[trigger] owners[i] == #[trigger] owners[j] {
            Some(ContractError::DuplicateOwner)
        } else if exists|i: int|
            0 <= i < weights.len() && !(1 <= #[trigger] weights[i] <= 100_000) {
            Some(ContractError::InvalidWeight)
        } else if !(1 <= threshold <= sum(weights)) {
            Some(ContractError::InvalidThreshold)
        } else {
            None
        },
{
    law_total_of_weights(weights);
    if exists|i: int, j: int|
        0 <= i < j < owners.len() && #[trigger] owners[i] == #[trigger] owners[j] {
        assert(!owners.no_duplicates());
    } else {
        assert(owners.no_duplicates());
    }
    assert forall|i: int| 0 <= i < weights.len() implies rules::is_weight(#[trigger] weights[i])
        == (1 <= weights[i] <= 100_000) by {}
    if exists|i: int| 0 <= i < weights.len() && !(1 <= #[trigger] weights[i] <= 100_000) {
        let i: int = choose|i: int|
            0 <= i < weights.len() && !(1 <= #[trigger] weights[i] <= 100_000);
        assert(!rules::is_weight(weights[i]));
    } else {
        assert forall|i: int| 0 <= i < weights.len() implies rules::is_weight(
            #[trigger] weights[i],
        ) by {}
    }
}

/// A setup that is accepted stores exactly what was given: each owner with the
/// weight beside them and nobody else, the sum of the weights, the threshold and
/// the delay. The cap is 50 percent, and all else stays.
pub proof fn law_setup_is_stored(
    v: EnvView,
    owners: Seq<Address>,
    weights: Seq<u32>,
    threshold: u32,
    time_lock_delay: u64,
)
    requires
        rules::initialize_refusal(v.ledger, owners, weights, threshold) is None,
    ensures
        ({
            let w = rules::initialize_effect(v, owners, weights, threshold, time_lock_delay);
            let s = w.ledger;
            &&& s.time_lock_delay == time_lock_delay
            &&& s.threshold == Some(threshold)
            &&& s.initialized
            &&& s.max_single_owner_weight_pct == 50
            &&& s.total_weight == sum(weights)
            &&& forall|i: int|
                0 <= i < owners.len() ==> listed(s, #[trigger] owners[i]) && vote(s, owners[i])
                    == weights[i]
            &&& forall|a: Address| #[trigger] listed(s, a) ==> owners.contains(a)
            &&& s == (LedgerView {
                time_lock_delay: s.time_lock_delay,
                threshold: s.threshold,
                initialized: s.initialized,
                max_single_owner_weight_pct: s.max_single_owner_weight_pct,
                total_weight: s.total_weight,
                owners: s.owners,
                ..v.ledger
            })
            &&& w.events == v.events
            &&& w.new_wasm == v.new_wasm
            &&& w.contract == v.contract
            &&& w.timestamp == v.timestamp
            &&& w.auths == v.auths + owners
        }),
{
    laws::law_setup(v, owners, weights, threshold, time_lock_delay);
    laws::law_accepted_is_authorized(
        v,
        Request::Initialize { owners, weights, threshold, time_lock_delay },
    );
    law_total_of_weights(weights);
    lemma_sum_bound(weights);
    let s = rules::initialize_effect(v, owners, weights, threshold, time_lock_delay).ledger;
    assert forall|i: int| 0 <= i < owners.len() implies listed(s, #[trigger] owners[i]) && vote(
        s,
        owners[i],
    ) == weights[i] by {
        assert(rules::is_owner(s, owners[i]));
    }
    assert forall|a: Address| #[trigger] listed(s, a) implies owners.contains(a) by {
        assert(rules::is_owner(s, a));
    }
}

proof fn lemma_sum_bound(weights: Seq<u32>)
    requires
        forall|i: int| 0 <= i < weights.len() ==> rules::is_weight(#[trigger] weights[i]),
    ensures
        0 <= sum(weights) <= 100_000 * weights.len(),
    decreases weights.len(),
{
    if weights.len() > 0 {
        let rest = weights.drop_first();
        assert forall|i: int| 0 <= i < rest.len() implies rules::is_weight(#[trigger] rest[i]) by {
            assert(rules::is_weight(weights[i + 1]));
        }
        assert(rules::is_weight(weights[0]));
        lemma_sum_bound(rest);
    }
}

/// Of a setup that is refused, owners are asked only if the list itself is good:
/// those before the first weight that is not.
pub proof fn law_refused_setup_asks(
    v: EnvView,
    owners: Seq<Address>,
    weights: Seq<u32>,
    threshold: u32,
    time_lock_delay: u64,
    k: int,
)
    requires
        rules::initialize_refusal(v.ledger, owners, weights, threshold) is Some,
    ensures
        ({
            let w = rules::initialize_effect(v, owners, weights, threshold, time_lock_delay);
            let e = rules::initialize_refusal(v.ledger, owners, weights, threshold)->0;
            &&& e != ContractError::InvalidWeight && e != ContractError::InvalidThreshold
                ==> w.auths == v.auths
            &&& e == ContractError::InvalidThreshold ==> w.auths == v.auths + owners
            &&& e == ContractError::InvalidWeight && 0 <= k < weights.len() && !(1 <= weights[k]
                <= 100_000) && (forall|i: int|
                0 <= i < k ==> 1 <= #[trigger] weights[i] <= 100_000) ==> w.auths == v.auths
                + owners.take(k)
        }),
{
    if rules::setup_refusal(v.ledger, owners, weights) is None {
        let e = rules::initialize_refusal(v.ledger, owners, weights, threshold)->0;
        if e == ContractError::InvalidThreshold {
            lemma_good_weights(weights, 0, weights.len() as int);
            assert(owners.take(owners.len() as int) =~= owners);
        } else if 0 <= k < weights.len() && !(1 <= weights[k] <= 100_000) && (forall|i: int|
            0 <= i < k ==> 1 <= #[trigger] weights[i] <= 100_000) {
            lemma_good_weights(weights, 0, k);
        }
    }
}

proof fn lemma_good_weights(weights: Seq<u32>, i: int, k: int)
    requires
        0 <= i <= k <= weights.len(),
        forall|j: int| i <= j < k ==> rules::is_weight(#[trigger] weights[j]),
        k < weights.len() ==> !rules::is_weight(weights[k]),
    ensures
        rules::valid_weights_from(weights, i) == k - i,
    decreases k - i,
{
    if i < k {
        lemma_good_weights(weights, i + 1, k);
    }
}

// ---------------------------------------------------------------------------
// Filing
// ---------------------------------------------------------------------------
/// What is said to somebody who may not act as an owner.
pub open spec fn owner_answer(s: LedgerView, a: Address) -> Option<ContractError> {
    if s.owners is None {
        Some(ContractError::NotInitialized)
    } else if !listed(s, a) {
        Some(ContractError::Unauthorized)
    } else {
        None
    }
}

/// What is said to somebody who may not propose or execute.
pub open spec fn actor_answer(s: LedgerView, a: Address) -> Option<ContractError> {
    if owner_answer(s, a) is Some {
        owner_answer(s, a)
    } else if s.frozen {
        Some(ContractError::ContractFrozen)
    } else {
        None
    }
}

/// What is said to a proposal whose description has not 1 to 300 bytes, whose
/// deadline is not ahead or more than 7,776,000 seconds (90 days) ahead, or that
/// comes while 50 can be voted on.
pub open spec fn filing_answer(
    s: LedgerView,
    now: u64,
    description: Seq<u8>,
    deadline: u64,
) -> Option<ContractError> {
    if description.len() == 0 {
        Some(ContractError::EmptyDescription)
    } else if description.len() > 300 {
        Some(ContractError::DescriptionTooLong)
    } else if deadline <= now {
        Some(ContractError::InvalidDeadline)
    } else if deadline > now + 7_776_000 {
        Some(ContractError::InvalidDuration)
    } else if votable_count(s, now) >= 50 {
        Some(ContractError::TooManyActiveProposals)
    } else if s.threshold is None {
        Some(ContractError::NotInitialized)
    } else if s.next_id == 0xffff_ffff_ffff_ffff {
        Some(ContractError::ArithmeticError)
    } else {
        None
    }
}

/// Owners and actors are told what these words say.
pub proof fn law_actors_are_answered(s: LedgerView, a: Address)
    ensures
        rules::owner_refusal(s, a) == owner_answer(s, a),
        rules::actor_refusal(s, a) == actor_answer(s, a),
        rules::is_owner(s, a) == listed(s, a),
        rules::weight_of(s, a) == vote(s, a),
{
}

/// A filing is told what these words say.
pub proof fn law_filing_is_answered(
    s: LedgerView,
    now: u64,
    description: Seq<u8>,
    deadline: u64,
)
    ensures
        rules::filing_refusal(s, now, description, deadline) == filing_answer(
            s,
            now,
            description,
            deadline,
        ),
{
    law_active_are_the_votable(s, now);
}

/// A payment that can be proposed: at least 1, of a contract that said its
/// decimals, its symbol and its name, and to somebody other than the wallet.
pub open spec fn good_payment(
    payments: Seq<Transfer>,
    replies: Seq<TokenReply>,
    contract: Address,
    i: int,
) -> bool {
    payments[i].amount >= 1 && answered(replies, i) && payments[i].to != contract
}

/// A contract said all that a token says.
pub open spec fn answered(replies: Seq<TokenReply>, i: int) -> bool {
    i < replies.len() && replies[i].decimals && replies[i].symbol && replies[i].name
}

proof fn lemma_first_bad_payment(
    payments: Seq<Transfer>,
    replies: Seq<TokenReply>,
    contract: Address,
    i: int,
    k: int,
)
    requires
        0 <= i <= k <= payments.len(),
        forall|j: int| i <= j < k ==> #[trigger] good_payment(payments, replies, contract, j),
    ensures
        rules::transfers_refusal(payments, replies, contract, i) == rules::transfers_refusal(
            payments,
            replies,
            contract,
            k,
        ),
    decreases k - i,
{
    if i < k {
        assert(good_payment(payments, replies, contract, i));
        lemma_first_bad_payment(payments, replies, contract, i + 1, k);
    }
}

/// Payments are 1 to 3. They are looked at one by one; the first that cannot be
/// proposed is the answer: for its amount, for its token or for its recipient.
pub proof fn law_payments_are_answered(
    v: EnvView,
    proposer: Address,
    payments: Seq<Transfer>,
    replies: Seq<TokenReply>,
    k: int,
)
    ensures
        ({
            let answer = rules::payments_refusal(v, proposer, payments, replies);
            &&& actor_answer(v.ledger, proposer) is Some ==> answer == actor_answer(
                v.ledger,
                proposer,
            )
            &&& actor_answer(v.ledger, proposer) is None && !(1 <= payments.len() <= 3) ==> answer
                == Some(ContractError::InvalidAmount)
            &&& actor_answer(v.ledger, proposer) is None && 1 <= payments.len() <= 3 ==> {
                &&& (forall|j: int|
                    0 <= j < payments.len() ==> #[trigger] good_payment(
                        payments,
                        replies,
                        v.contract,
                        j,
                    )) ==> answer is None
                &&& 0 <= k < payments.len() && !good_payment(payments, replies, v.contract, k) && (
                forall|j: int|
                    0 <= j < k ==> #[trigger] good_payment(payments, replies, v.contract, j))
                    ==> answer == Some(
                    if payments[k].amount < 1 {
                        ContractError::InvalidAmount
                    } else if !answered(replies, k) {
                        ContractError::InvalidToken
                    } else {
                        ContractError::InvalidRecipient
                    },
                )
            }
        }),
{
    if forall|j: int|
        0 <= j < payments.len() ==> #[trigger] good_payment(payments, replies, v.contract, j) {
        lemma_first_bad_payment(payments, replies, v.contract, 0, payments.len() as int);
    }
    if 0 <= k < payments.len() && (forall|j: int|
        0 <= j < k ==> #[trigger] good_payment(payments, replies, v.contract, j)) {
        lemma_first_bad_payment(payments, replies, v.contract, 0, k);
    }
}

/// What counts as spent by somebody of a token, with what payments would add.
pub open spec fn would_count(
    s: LedgerView,
    now: u64,
    owner: Address,
    payments: Seq<Transfer>,
    token: Address,
) -> int {
    paid_in(payments, token) + spent_now(s, now, owner, token)
}

/// Payments stay within somebody's limit for a token, if there is one.
pub open spec fn within_limit(
    s: LedgerView,
    now: u64,
    owner: Address,
    payments: Seq<Transfer>,
    token: Address,
) -> bool {
    let key = SpendingKey { owner, token };
    s.spending_limits.contains_key(key) ==> fits(would_count(s, now, owner, payments, token))
        && would_count(s, now, owner, payments, token) <= s.spending_limits[key]
}

/// What counts as spent is what was spent in the window of 30 days; a limit is
/// what was stored as such.
pub proof fn law_spent_and_limit(s: LedgerView, now: u64, owner: Address, token: Address)
    ensures
        rules::spent_by(s, now, owner, token) == spent_now(s, now, owner, token),
        rules::limit_of(s, owner, token) == if s.spending_limits.contains_key(
            SpendingKey { owner, token },
        ) {
            Some(s.spending_limits[SpendingKey { owner, token }])
        } else {
            None
        },
{
}

proof fn lemma_first_bad_limit(
    s: LedgerView,
    now: u64,
    owner: Address,
    payments: Seq<Transfer>,
    i: int,
    k: int,
)
    requires
        0 <= i <= k <= payments.len(),
        forall|j: int|
            i <= j < k ==> within_limit(s, now, owner, payments, (#[trigger] payments[j]).token),
    ensures
        rules::limits_refusal(s, now, owner, payments, i) == rules::limits_refusal(
            s,
            now,
            owner,
            payments,
            k,
        ),
    decreases k - i,
{
    if i < k {
        let token = payments[i].token;
        law_total_of_token(payments, token);
        law_spent_and_limit(s, now, owner, token);
        assert(within_limit(s, now, owner, payments, token));
        lemma_first_bad_limit(s, now, owner, payments, i + 1, k);
    }
}

/// Good payments are proposed if they stay within the limits and the filing is
/// good. The first token over its limit is the answer, then the filing's.
pub proof fn law_payments_and_limits_are_answered(
    v: EnvView,
    proposer: Address,
    payments: Seq<Transfer>,
    description: Seq<u8>,
    deadline: u64,
    replies: Seq<TokenReply>,
    k: int,
)
    ensures
        ({
            let s = v.ledger;
            let now = v.timestamp;
            let before = rules::payments_refusal(v, proposer, payments, replies);
            let answer = rules::create_proposal_refusal(
                v,
                proposer,
                payments,
                description,
                deadline,
                replies,
            );
            &&& before is Some ==> answer == before
            &&& before is None && (forall|j: int|
                0 <= j < payments.len() ==> within_limit(
                    s,
                    now,
                    proposer,
                    payments,
                    (#[trigger] payments[j]).token,
                )) ==> answer == filing_answer(s, now, description, deadline)
            &&& before is None && 0 <= k < payments.len() && !within_limit(
                s,
                now,
                proposer,
                payments,
                payments[k].token,
            ) && (forall|j: int|
                0 <= j < k ==> within_limit(
                    s,
                    now,
                    proposer,
                    payments,
                    (#[trigger] payments[j]).token,
                )) ==> answer == Some(
                if fits(would_count(s, now, proposer, payments, payments[k].token)) {
                    ContractError::SpendingLimitExceeded
                } else {
                    ContractError::ArithmeticError
                },
            )
        }),
{
    let s = v.ledger;
    let now = v.timestamp;
    law_filing_is_answered(s, now, description, deadline);
    if forall|j: int|
        0 <= j < payments.len() ==> within_limit(
            s,
            now,
            proposer,
            payments,
            (#[trigger] payments[j]).token,
        ) {
        lemma_first_bad_limit(s, now, proposer, payments, 0, payments.len() as int);
    }
    if 0 <= k < payments.len() && (forall|j: int|
        0 <= j < k ==> within_limit(
            s,
            now,
            proposer,
            payments,
            (#[trigger] payments[j]).token,
        )) {
        lemma_first_bad_limit(s, now, proposer, payments, 0, k);
        law_total_of_token(payments, payments[k].token);
        law_spent_and_limit(s, now, proposer, payments[k].token);
    }
}

/// A new owner is proposed unless there already, or unless there are 20.
pub proof fn law_addition_is_answered(
    v: EnvView,
    proposer: Address,
    new_owner: Address,
    description: Seq<u8>,
    deadline: u64,
)
    ensures
        rules::create_add_owner_refusal(v, proposer, new_owner, description, deadline)
            == if actor_answer(v.ledger, proposer) is Some {
            actor_answer(v.ledger, proposer)
        } else if listed(v.ledger, new_owner) {
            Some(ContractError::DuplicateOwner)
        } else if v.ledger.owners->0.dom().len() >= 20 {
            Some(ContractError::InvalidOwners)
        } else {
            filing_answer(v.ledger, v.timestamp, description, deadline)
        },
{
    law_filing_is_answered(v.ledger, v.timestamp, description, deadline);
}

/// A limit is proposed unless it is negative.
pub proof fn law_limit_is_answered(
    v: EnvView,
    proposer: Address,
    limit: i128,
    description: Seq<u8>,
    deadline: u64,
)
    ensures
        rules::create_spending_limit_refusal(v, proposer, limit, description, deadline)
            == if actor_answer(v.ledger, proposer) is Some {
            actor_answer(v.ledger, proposer)
        } else if limit < 0 {
            Some(ContractError::InvalidAmount)
        } else {
            filing_answer(v.ledger, v.timestamp, description, deadline)
        },
{
    law_filing_is_answered(v.ledger, v.timestamp, description, deadline);
}

/// What is said to another weight for somebody: it must be 1 to 100,000, theirs
/// must be on the list, and the weight at most the capped share of the total that
/// results.
pub open spec fn weight_answer(s: LedgerView, target: Address, weight: u32) -> Option<
    ContractError,
> {
    let total = s.total_weight - vote(s, target) + weight;
    if !(1 <= weight <= 100_000) {
        Some(ContractError::InvalidWeight)
    } else if !listed(s, target) {
        Some(ContractError::OwnerNotFound)
    } else if s.total_weight < vote(s, target) || total > 0xffff_ffff {
        Some(ContractError::ArithmeticError)
    } else if 100 * weight > s.max_single_owner_weight_pct * total {
        Some(ContractError::SingleOwnerWeightCapExceeded)
    } else {
        None
    }
}

proof fn lemma_weight_answer(s: LedgerView, target: Address, weight: u32)
    ensures
        rules::reweight_refusal(s, target, weight) == weight_answer(s, target, weight),
{
    let total = s.total_weight - vote(s, target) + weight;
    let pct = s.max_single_owner_weight_pct;
    assert(total * pct == pct * total) by (nonlinear_arith);
}

/// Another weight is proposed if the weight is good and the filing is.
pub proof fn law_weight_is_answered(
    v: EnvView,
    proposer: Address,
    target: Address,
    weight: u32,
    description: Seq<u8>,
    deadline: u64,
)
    ensures
        rules::create_change_weight_refusal(v, proposer, target, weight, description, deadline)
            == or_next(
            actor_answer(v.ledger, proposer),
            or_next(
                weight_answer(v.ledger, target, weight),
                filing_answer(v.ledger, v.timestamp, description, deadline),
            ),
        ),
{
    law_filing_is_answered(v.ledger, v.timestamp, description, deadline);
    lemma_weight_answer(v.ledger, target, weight);
}

/// A removal is filed only if the weight that stays reaches the threshold of the
/// moment; an owner of a wallet that is not frozen is told if it does not.
pub proof fn law_removal_keeps_the_threshold_in_reach(
    v: EnvView,
    proposer: Address,
    leaver: Address,
    description: Seq<u8>,
    deadline: u64,
)
    ensures
        ({
            let s = v.ledger;
            let stays = s.total_weight - vote(s, leaver);
            let answer = rules::create_remove_owner_refusal(
                v,
                proposer,
                leaver,
                description,
                deadline,
            );
            &&& answer is None ==> listed(s, leaver) && s.threshold is Some && stays
                >= s.threshold->0
            &&& answer == if actor_answer(s, proposer) is Some {
                actor_answer(s, proposer)
            } else if s.threshold is None {
                Some(ContractError::NotInitialized)
            } else if !listed(s, leaver) {
                Some(ContractError::OwnerNotFound)
            } else if stays < 0 {
                Some(ContractError::ArithmeticError)
            } else if stays < s.threshold->0 {
                Some(ContractError::WouldBreakThreshold)
            } else {
                filing_answer(s, v.timestamp, description, deadline)
            }
        }),
{
    law_filing_is_answered(v.ledger, v.timestamp, description, deadline);
}

/// Another threshold is proposed only from 1 to the total weight.
pub proof fn law_threshold_is_answered(
    v: EnvView,
    proposer: Address,
    threshold: u32,
    description: Seq<u8>,
    deadline: u64,
)
    ensures
        rules::create_change_threshold_refusal(v, proposer, threshold, description, deadline)
            == if actor_answer(v.ledger, proposer) is Some {
            actor_answer(v.ledger, proposer)
        } else if !(1 <= threshold <= v.ledger.total_weight) {
            Some(ContractError::InvalidThreshold)
        } else {
            filing_answer(v.ledger, v.timestamp, description, deadline)
        },
{
    law_filing_is_answered(v.ledger, v.timestamp, description, deadline);
}

/// What a request lays down: what is to be done, the description, the deadline
/// and the category.
pub open spec fn laid_down(r: Request) -> (KindView, Seq<u8>, u64, ProposalCategory) {
    match r {
        Request::CreateProposal { transfers, description, deadline, category, .. } => (
            KindView::Transfer(transfers),
            description,
            deadline,
            category,
        ),
        Request::CreateAddOwner { new_owner, description, deadline, .. } => (
            KindView::AddOwner(new_owner),
            description,
            deadline,
            ProposalCategory::Other,
        ),
        Request::CreateSpendingLimit { owner, token, limit, description, deadline, .. } => (
            KindView::SetSpendingLimit(owner, token, limit),
            description,
            deadline,
            ProposalCategory::Other,
        ),
        Request::CreateChangeWeight { target_owner, new_weight, description, deadline, .. } => (
            KindView::ChangeOwnerWeight(target_owner, new_weight),
            description,
            deadline,
            ProposalCategory::Other,
        ),
        Request::CreateRemoveOwner { owner_to_remove, description, deadline, .. } => (
            KindView::RemoveOwner(owner_to_remove),
            description,
            deadline,
            ProposalCategory::Other,
        ),
        Request::CreateChangeThreshold { new_threshold, description, deadline, .. } => (
            KindView::ChangeThreshold(new_threshold),
            description,
            deadline,
            ProposalCategory::Other,
        ),
        _ => (
            KindView::ChangeThreshold(0),
            Seq::empty(),
            0,
            ProposalCategory::Other,
        ),
    }
}

/// A proposal that is filed is stored under the next id with exactly what its
/// proposer laid down, with the threshold of the moment as its quorum, and with
/// no approvals. No other proposal, and nothing else that is stored, changes, but
/// for the next id and the noted number of active proposals. One event tells of
/// it, with the payments if there are any and the total weight of the moment.
pub proof fn law_filed_as_laid_down(v: EnvView, r: Request)
    requires
        requests::files(r),
        requests::refusal(v, r) is None,
    ensures
        ({
            let w = requests::effect(v, r);
            let s = w.ledger;
            let id = v.ledger.next_id;
            let p = s.proposals[id];
            let proposer = requests::signers(r)[0];
            &&& s.proposals.contains_key(id)
            &&& p.id == id
            &&& p.proposer == proposer
            &&& p.kind == laid_down(r).0
            &&& p.description == laid_down(r).1
            &&& p.deadline == laid_down(r).2
            &&& p.category == laid_down(r).3
            &&& p.ready_at == 0
            &&& p.approvals == 0
            &&& p.status == ProposalStatus::Pending
            &&& Some(p.quorum_weight) == v.ledger.threshold
            &&& s.next_id == id + 1
            &&& s.active_count == votable_count(v.ledger, v.timestamp) + 1
            &&& s == (LedgerView {
                proposals: v.ledger.proposals.insert(id, p),
                next_id: s.next_id,
                active_count: s.active_count,
                ..v.ledger
            })
            &&& w.events == v.events.push(
                EventView::ProposalCreated {
                    id,
                    proposer,
                    threshold: v.ledger.threshold->0,
                    category: laid_down(r).3,
                    transfers: match r {
                        Request::CreateProposal { transfers, .. } => transfers,
                        _ => Seq::empty(),
                    },
                    quorum_weight: v.ledger.threshold->0,
                    total_weight_at_creation: v.ledger.total_weight,
                },
            )
            &&& w.auths == v.auths.push(proposer)
            &&& w.new_wasm == v.new_wasm
            &&& w.contract == v.contract
            &&& w.timestamp == v.timestamp
        }),
{
    law_active_are_the_votable(v.ledger, v.timestamp);
}

/// Tokens are asked for the payments in order: each whose amount is good, up to
/// and with the first that goes to the wallet itself; nobody is asked for somebody
/// who may not propose, or for a list that is not of 1 to 3.
pub proof fn law_tokens_asked(v: EnvView, proposer: Address, payments: Seq<Transfer>)
    ensures
        ({
            let asked = rules::queried_tokens(v, proposer, payments);
            let n = asked.len() as int;
            if actor_answer(v.ledger, proposer) is Some || !(1 <= payments.len() <= 3) {
                n == 0
            } else {
                &&& n <= payments.len()
                &&& forall|i: int|
                    0 <= i < n ==> #[trigger] asked[i] == payments[i].token && payments[i].amount
                        >= 1
                &&& forall|i: int|
                    0 <= i < n - 1 ==> (#[trigger] payments[i]).to != v.contract
                &&& n < payments.len() ==> payments[n].amount < 1 || (n > 0 && payments[n - 1].to
                    == v.contract)
            }
        }),
{
    if actor_answer(v.ledger, proposer) is None && 1 <= payments.len() <= 3 {
        lemma_queried(payments, v.contract, 0);
    }
}

proof fn lemma_queried(payments: Seq<Transfer>, contract: Address, i: int)
    requires
        0 <= i <= payments.len(),
    ensures
        ({
            let n = i + rules::queried_from(payments, contract, i);
            &&& n <= payments.len()
            &&& forall|j: int| i <= j < n ==> (#[trigger] payments[j]).amount >= 1
            &&& forall|j: int| i <= j < n - 1 ==> (#[trigger] payments[j]).to != contract
            &&& n < payments.len() ==> payments[n].amount < 1 || (n > i && payments[n - 1].to
                == contract)
        }),
    decreases payments.len() - i,
{
    if i < payments.len() && payments[i].amount >= 1 && payments[i].to != contract {
        lemma_queried(payments, contract, i + 1);
    }
}

// ---------------------------------------------------------------------------
// Votes
// ---------------------------------------------------------------------------
/// What is said to a vote that cannot be cast.
pub open spec fn vote_answer(v: EnvView, voter: Address, id: u64) -> Option<ContractError> {
    let s = v.ledger;
    if owner_answer(s, voter) is Some {
        owner_answer(s, voter)
    } else if !s.proposals.contains_key(id) {
        Some(ContractError::ProposalNotFound)
    } else if !votable(s.proposals[id], v.timestamp) {
        Some(ContractError::ProposalNotActive)
    } else {
        None
    }
}

/// An owner approves what can be voted on and what they have not approved yet.
pub proof fn law_approval_is_answered(v: EnvView, voter: Address, id: u64)
    ensures
        rules::approve_refusal(v, voter, id) == if vote_answer(v, voter, id) is Some {
            vote_answer(v, voter, id)
        } else if stands(v.ledger, id, voter) {
            Some(ContractError::AlreadyApproved)
        } else if v.ledger.proposals[id].approvals + vote(v.ledger, voter) > 0xffff_ffff {
            Some(ContractError::ArithmeticError)
        } else {
            None
        },
{
}

/// An owner takes back what they have approved as long as it can be voted on.
pub proof fn law_revocation_is_answered(v: EnvView, voter: Address, id: u64)
    ensures
        rules::revoke_refusal(v, voter, id) == if vote_answer(v, voter, id) is Some {
            vote_answer(v, voter, id)
        } else if !stands(v.ledger, id, voter) {
            Some(ContractError::NotApproved)
        } else if v.ledger.proposals[id].approvals < vote(v.ledger, voter) {
            Some(ContractError::ArithmeticError)
        } else {
            None
        },
{
}

/// What a vote leaves of the wallet: the proposal with another approving weight
/// and the mark of the voter, and nothing else.
pub open spec fn voted(v: EnvView, w: EnvView, voter: Address, id: u64, mark: bool) -> bool {
    let key = ApprovalKey { proposal_id: id, owner: voter };
    let p = v.ledger.proposals[id];
    let q = w.ledger.proposals[id];
    &&& w.ledger == (LedgerView {
        proposals: v.ledger.proposals.insert(id, q),
        approvals: v.ledger.approvals.insert(key, mark),
        ..v.ledger
    })
    &&& q == (ProposalView { approvals: q.approvals, status: q.status, ready_at: q.ready_at, ..p })
    &&& q.status == if q.approvals >= p.quorum_weight {
        ProposalStatus::Ready
    } else {
        ProposalStatus::Pending
    }
    &&& w.auths == v.auths.push(voter)
    &&& w.new_wasm == v.new_wasm
    &&& w.contract == v.contract
    &&& w.timestamp == v.timestamp
}

/// An approval adds the voter's weight, records the time if that first reaches
/// the quorum, and is told.
pub proof fn law_approval_counts(v: EnvView, voter: Address, id: u64)
    requires
        rules::approve_refusal(v, voter, id) is None,
    ensures
        ({
            let w = rules::approve_effect(v, voter, id);
            let p = v.ledger.proposals[id];
            let q = w.ledger.proposals[id];
            &&& voted(v, w, voter, id, true)
            &&& q.approvals == p.approvals + vote(v.ledger, voter)
            &&& q.ready_at == if p.ready_at == 0 && q.approvals >= p.quorum_weight {
                v.timestamp
            } else {
                p.ready_at
            }
            &&& w.events == v.events.push(
                EventView::ProposalApproved {
                    id,
                    approver: voter,
                    approvals: q.approvals,
                    threshold: p.quorum_weight,
                },
            )
        }),
{
}

/// A revocation takes the voter's weight off, keeps the recorded time, and is
/// told.
pub proof fn law_revocation_counts(v: EnvView, voter: Address, id: u64)
    requires
        rules::revoke_refusal(v, voter, id) is None,
    ensures
        ({
            let w = rules::revoke_effect(v, voter, id);
            let p = v.ledger.proposals[id];
            let q = w.ledger.proposals[id];
            &&& voted(v, w, voter, id, false)
            &&& q.approvals == p.approvals - vote(v.ledger, voter)
            &&& q.ready_at == p.ready_at
            &&& w.events == v.events.push(
                EventView::ProposalRevoked { id, approver: voter, approvals: q.approvals },
            )
        }),
{
}

/// Whoever files, votes, executes, sweeps or freezes and is refused was asked to
/// authorize all the same, and nobody else was.
pub proof fn law_refused_was_asked(v: EnvView, r: Request)
    requires
        requests::refusal(v, r) is Some,
        !(r is Initialize),
        !requests::cosigned(r),
    ensures
        requests::effect(v, r).auths == v.auths.push(requests::signers(r)[0]),
        requests::effect(v, r).contract == v.contract,
        requests::effect(v, r).timestamp == v.timestamp,
{
}

// ---------------------------------------------------------------------------
// Execution
// ---------------------------------------------------------------------------
/// A proposal can be carried out by an owner of a wallet that is not frozen if it
/// is stored, its deadline has not passed, the quorum is reached, it is undecided,
/// and the delay since the quorum was first reached is over. The first of these
/// that fails is the answer.
pub proof fn law_readiness_is_answered(v: EnvView, executor: Address, id: u64)
    ensures
        ({
            let s = v.ledger;
            let p = s.proposals[id];
            rules::readiness_refusal(v, executor, id) == if actor_answer(s, executor) is Some {
                actor_answer(s, executor)
            } else if !s.proposals.contains_key(id) {
                Some(ContractError::ProposalNotFound)
            } else if lapsed(p, v.timestamp) {
                Some(ContractError::ProposalExpired)
            } else if p.approvals < p.quorum_weight {
                Some(ContractError::ThresholdNotMet)
            } else if decided(p) {
                Some(ContractError::ProposalNotActive)
            } else if s.time_lock_delay > 0 && v.timestamp < p.ready_at + s.time_lock_delay
                && v.timestamp < 0xffff_ffff_ffff_ffff {
                Some(ContractError::TimeLockActive)
            } else {
                None
            }
        }),
{
}

/// Somebody's payment in a token is among a list.
pub open spec fn pays(payments: Seq<Transfer>, token: Address) -> bool {
    exists|i: int| 0 <= i < payments.len() && (#[trigger] payments[i]).token == token
}

/// The amount that is on record for somebody and a token after a further spend: a
/// window that ended is forgotten.
pub open spec fn on_record(s: LedgerView, now: u64, key: SpendingKey, amount: int) -> int {
    if !s.spent.contains_key(key) || (s.spent[key].epoch != 0 && now > s.spent[key].epoch
        + 2_592_000) {
        amount
    } else {
        s.spent[key].spent + amount
    }
}

/// A payment was made: the reply to it is there and good.
pub open spec fn made(replies: Seq<bool>, i: int) -> bool {
    i < replies.len() && replies[i]
}

/// All amounts that are added up and recorded fit.
pub open spec fn records_fit(
    s: LedgerView,
    now: u64,
    payer: Address,
    payments: Seq<Transfer>,
) -> bool {
    &&& forall|k: int, token: Address|
        0 <= k <= payments.len() ==> fits(#[trigger] paid_in(payments.take(k), token))
    &&& forall|i: int|
        0 <= i < payments.len() ==> fits(
            on_record(
                s,
                now,
                SpendingKey { owner: payer, token: (#[trigger] payments[i]).token },
                paid_in(payments, payments[i].token),
            ),
        )
}

proof fn lemma_records_fit(s: LedgerView, now: u64, payer: Address, payments: Seq<Transfer>)
    ensures
        rules::spends_fit(s, now, payer, payments) == records_fit(s, now, payer, payments),
{
    assert forall|k: int, token: Address| 0 <= k <= payments.len() implies
        #[trigger] rules::token_total(payments.take(k), token) == paid_in(payments.take(k), token)
        by {
        law_total_of_token(payments.take(k), token);
    }
    assert forall|i: int| 0 <= i < payments.len() implies rules::token_total(
        payments,
        (#[trigger] payments[i]).token,
    ) == paid_in(payments, payments[i].token) by {
        law_total_of_token(payments, payments[i].token);
    }
    if rules::spends_fit(s, now, payer, payments) {
        assert forall|k: int, token: Address| 0 <= k <= payments.len() implies fits(
            #[trigger] paid_in(payments.take(k), token),
        ) by {
            assert(rules::is_amount(rules::token_total(payments.take(k), token)));
        }
        assert forall|i: int| 0 <= i < payments.len() implies fits(
            on_record(
                s,
                now,
                SpendingKey { owner: payer, token: (#[trigger] payments[i]).token },
                paid_in(payments, payments[i].token),
            ),
        ) by {
            assert(rules::is_amount(
                rules::spent_after(
                    rules::tracker_of(s, payer, payments[i].token),
                    rules::token_total(payments, payments[i].token),
                    now,
                ),
            ));
        }
    }
    if records_fit(s, now, payer, payments) {
        assert forall|k: int, token: Address| 0 <= k <= payments.len() implies rules::is_amount(
            #[trigger] rules::token_total(payments.take(k), token),
        ) by {
            assert(fits(paid_in(payments.take(k), token)));
        }
        assert forall|i: int| 0 <= i < payments.len() implies rules::is_amount(
            rules::spent_after(
                rules::tracker_of(s, payer, (#[trigger] payments[i]).token),
                rules::token_total(payments, payments[i].token),
                now,
            ),
        ) by {
            assert(fits(
                on_record(
                    s,
                    now,
                    SpendingKey { owner: payer, token: payments[i].token },
                    paid_in(payments, payments[i].token),
                ),
            ));
        }
    }
}

/// What a ready proposal does is refused for these reasons only: a payment that
/// was not made or cannot be recorded; an addition of somebody who is there, or of
/// a 21st; a weight that cannot be given, or that would leave a proposal that can
/// be voted on with a quorum above the total weight; or a total weight that cannot
/// be counted.
pub proof fn law_doing_is_answered(
    s: LedgerView,
    now: u64,
    p: ProposalView,
    replies: Seq<bool>,
)
    ensures
        rules::enactment_refusal(s, now, p, replies) == match p.kind {
            KindView::Transfer(payments) => if exists|i: int|
                0 <= i < payments.len() && !#[trigger] made(replies, i) {
                Some(ContractError::TransferFailed)
            } else if !records_fit(s, now, p.proposer, payments) {
                Some(ContractError::ArithmeticError)
            } else {
                None
            },
            KindView::AddOwner(owner) => if listed(s, owner) {
                Some(ContractError::DuplicateOwner)
            } else if s.owners is Some && s.owners->0.dom().len() >= 20 {
                Some(ContractError::InvalidOwners)
            } else if s.total_weight == 0xffff_ffff {
                Some(ContractError::ArithmeticError)
            } else {
                None
            },
            KindView::RemoveOwner(owner) => if s.total_weight < vote(s, owner) {
                Some(ContractError::ArithmeticError)
            } else {
                None
            },
            KindView::ChangeThreshold(threshold) => None,
            KindView::SetSpendingLimit(owner, token, limit) => None,
            KindView::ChangeOwnerWeight(target, weight) => if weight_answer(s, target, weight)
                is Some {
                weight_answer(s, target, weight)
            } else if exists|id: u64|
                1 <= id < s.next_id && #[trigger] s.proposals.contains_key(id) && votable(
                    s.proposals[id],
                    now,
                ) && s.proposals[id].quorum_weight > s.total_weight - vote(s, target) + weight {
                Some(ContractError::WouldBreakThreshold)
            } else {
                None
            },
        },
{
    match p.kind {
        KindView::Transfer(payments) => {
            lemma_records_fit(s, now, p.proposer, payments);
            assert forall|i: int| 0 <= i implies #[trigger] rules::replied_well(replies, i) == made(
                replies,
                i,
            ) by {}
            if rules::all_paid(payments, replies) {
                assert forall|i: int| 0 <= i < payments.len() implies #[trigger] made(
                    replies,
                    i,
                ) by {
                    assert(rules::replied_well(replies, i));
                }
            } else {
                let i: int = choose|i: int|
                    0 <= i < payments.len() && !(#[trigger] rules::replied_well(replies, i));
                assert(!made(replies, i));
            }
        },
        KindView::ChangeOwnerWeight(target, weight) => {
            lemma_weight_answer(s, target, weight);
            let total = s.total_weight - vote(s, target) + weight;
            if rules::breaks_quorum(s, now, total) {
                let id: u64 = choose|id: u64|
                    1 <= id < s.next_id && #[trigger] rules::active_id(s, now, id)
                        && s.proposals[id].quorum_weight > total;
                assert(s.proposals.contains_key(id));
            }
            if exists|id: u64|
                1 <= id < s.next_id && #[trigger] s.proposals.contains_key(id) && votable(
                    s.proposals[id],
                    now,
                ) && s.proposals[id].quorum_weight > total {
                let id: u64 = choose|id: u64|
                    1 <= id < s.next_id && #[trigger] s.proposals.contains_key(id) && votable(
                        s.proposals[id],
                        now,
                    ) && s.proposals[id].quorum_weight > total;
                assert(rules::active_id(s, now, id));
            }
        },
        _ => {},
    }
}

/// A proposal is executed exactly if it can be carried out and what it does is
/// not refused; the first refusal is the answer.
pub proof fn law_execution_is_answered(
    v: EnvView,
    executor: Address,
    id: u64,
    replies: Seq<bool>,
)
    ensures
        rules::execute_refusal(v, executor, id, replies) == or_next(
            rules::readiness_refusal(v, executor, id),
            rules::enactment_refusal(v.ledger, v.timestamp, v.ledger.proposals[id], replies),
        ),
{
}

/// The ledger that an execution leaves, but for what the proposal itself does:
/// the proposal is marked, and the number of proposals that can still be voted on
/// is noted.
pub open spec fn marked(before: LedgerView, after: LedgerView, now: u64, id: u64) -> bool {
    let p = before.proposals[id];
    &&& after.proposals == before.proposals.insert(
        id,
        ProposalView { status: ProposalStatus::Executed, ..p },
    )
    &&& after.active_count == if votable_count(after, now) <= 0xffff_ffff {
        votable_count(after, now) as int
    } else {
        0xffff_ffff
    }
    &&& after.next_id == before.next_id
    &&& after.initialized == before.initialized
    &&& after.approvals == before.approvals
    &&& after.frozen == before.frozen
    &&& after.guardian == before.guardian
    &&& after.time_lock_delay == before.time_lock_delay
    &&& after.max_single_owner_weight_pct == before.max_single_owner_weight_pct
}

/// Every execution marks its proposal, whatever it does, and asks its executor.
pub proof fn law_execution_marks(v: EnvView, executor: Address, id: u64, replies: Seq<bool>)
    requires
        laws::numbered(v.ledger),
        rules::execute_refusal(v, executor, id, replies) is None,
    ensures
        ({
            let w = rules::execute_effect(v, executor, id, replies);
            &&& marked(v.ledger, w.ledger, v.timestamp, id)
            &&& w.auths == v.auths.push(executor)
            &&& w.new_wasm == v.new_wasm
            &&& w.contract == v.contract
            &&& w.timestamp == v.timestamp
        }),
{
    let s = v.ledger;
    let p = s.proposals[id];
    let now = v.timestamp;
    let after = rules::execute_effect(v, executor, id, replies).ledger;
    let done = LedgerView {
        proposals: s.proposals.insert(p.id, ProposalView { status: ProposalStatus::Executed, ..p }),
        ..rules::enacted(s, now, p)
    };
    law_active_are_the_votable(done, now);
    assert(votable_ids(done, now, s.next_id as int) =~= votable_ids(after, now, s.next_id as int));
}

/// What was executed is told last, with its payments if it had any.
pub open spec fn told_executed(id: u64, executor: Address, payments: Seq<Transfer>) -> EventView {
    EventView::ProposalExecuted { id, executor, transfers: payments }
}

/// Payments that were made are recorded as spent by their proposer, token by
/// token: they add to what is on record in a window that counts, and else begin
/// one. Nothing else is recorded anew, and owners, weights, threshold and limits
/// stay.
pub proof fn law_payments_are_recorded(
    v: EnvView,
    executor: Address,
    id: u64,
    replies: Seq<bool>,
    payments: Seq<Transfer>,
    key: SpendingKey,
)
    requires
        rules::execute_refusal(v, executor, id, replies) is None,
        v.ledger.proposals[id].kind == KindView::Transfer(payments),
    ensures
        ({
            let s = v.ledger;
            let w = rules::execute_effect(v, executor, id, replies);
            let after = w.ledger;
            let now = v.timestamp;
            &&& key.owner == s.proposals[id].proposer && pays(payments, key.token) ==> {
                &&& after.spent.contains_key(key)
                &&& after.spent[key].spent == on_record(
                    s,
                    now,
                    key,
                    paid_in(payments, key.token),
                )
                &&& after.spent[key].epoch == if s.spent.contains_key(key) && counts_now(
                    s.spent[key],
                    now,
                ) {
                    s.spent[key].epoch
                } else {
                    now
                }
            }
            &&& !(key.owner == s.proposals[id].proposer && pays(payments, key.token)) ==> {
                &&& after.spent.contains_key(key) == s.spent.contains_key(key)
                &&& s.spent.contains_key(key) ==> after.spent[key] == s.spent[key]
            }
            &&& after.owners == s.owners
            &&& after.total_weight == s.total_weight
            &&& after.threshold == s.threshold
            &&& after.spending_limits == s.spending_limits
            &&& w.events == v.events.push(told_executed(id, executor, payments))
        }),
{
    let s = v.ledger;
    let now = v.timestamp;
    let p = s.proposals[id];
    law_total_of_token(payments, key.token);
    assert(v.events + rules::enactment_events(s, p) =~= v.events);
    assert(rules::pays_in(payments, key.token) == pays(payments, key.token));
    if pays(payments, key.token) && key.owner == p.proposer {
        let i: int = choose|i: int|
            0 <= i < payments.len() && (#[trigger] payments[i]).token == key.token;
        assert(rules::is_amount(
            rules::spent_after(
                rules::tracker_of(s, p.proposer, payments[i].token),
                rules::token_total(payments, payments[i].token),
                now,
            ),
        ));
        assert(key == (SpendingKey { owner: p.proposer, token: key.token }));
    }
}

/// An addition puts the new owner on the list with weight 1, adds 1 to the total
/// weight, and is told with the number of owners.
pub proof fn law_addition_is_done(
    v: EnvView,
    executor: Address,
    id: u64,
    replies: Seq<bool>,
    owner: Address,
)
    requires
        rules::execute_refusal(v, executor, id, replies) is None,
        v.ledger.proposals[id].kind == KindView::AddOwner(owner),
    ensures
        ({
            let s = v.ledger;
            let w = rules::execute_effect(v, executor, id, replies);
            let after = w.ledger;
            &&& !listed(s, owner)
            &&& after.owners == Some(s.owners->0.insert(owner, 1))
            &&& after.total_weight == s.total_weight + 1
            &&& after.threshold == s.threshold
            &&& after.spending_limits == s.spending_limits
            &&& after.spent == s.spent
            &&& w.events == v.events.push(
                EventView::AddOwnerExecuted {
                    new_owner: owner,
                    owner_count: (s.owners->0.dom().len() + 1) as u32,
                },
            ).push(told_executed(id, executor, Seq::empty()))
        }),
{
    let s = v.ledger;
    let p = s.proposals[id];
    let e = EventView::AddOwnerExecuted {
        new_owner: owner,
        owner_count: (s.owners->0.dom().len() + 1) as u32,
    };
    assert(v.events + seq![e] =~= v.events.push(e));
}

/// A removal strikes the owner off the list, takes their weight off the total,
/// and is told with the number of owners.
pub proof fn law_removal_is_done(
    v: EnvView,
    executor: Address,
    id: u64,
    replies: Seq<bool>,
    owner: Address,
)
    requires
        rules::execute_refusal(v, executor, id, replies) is None,
        v.ledger.proposals[id].kind == KindView::RemoveOwner(owner),
    ensures
        ({
            let s = v.ledger;
            let w = rules::execute_effect(v, executor, id, replies);
            let after = w.ledger;
            &&& after.owners == Some(s.owners->0.remove(owner))
            &&& after.total_weight == s.total_weight - vote(s, owner)
            &&& after.threshold == s.threshold
            &&& after.spending_limits == s.spending_limits
            &&& after.spent == s.spent
            &&& w.events == v.events.push(
                EventView::RemoveOwnerExecuted {
                    removed_owner: owner,
                    owner_count: (s.owners->0.dom().len() - 1) as u32,
                },
            ).push(told_executed(id, executor, Seq::empty()))
        }),
{
    let s = v.ledger;
    let e = EventView::RemoveOwnerExecuted {
        removed_owner: owner,
        owner_count: (s.owners->0.dom().len() - 1) as u32,
    };
    assert(v.events + seq![e] =~= v.events.push(e));
}

/// A change of the threshold replaces it and is told with the one before.
pub proof fn law_threshold_is_changed(
    v: EnvView,
    executor: Address,
    id: u64,
    replies: Seq<bool>,
    threshold: u32,
)
    requires
        rules::execute_refusal(v, executor, id, replies) is None,
        v.ledger.proposals[id].kind == KindView::ChangeThreshold(threshold),
    ensures
        ({
            let s = v.ledger;
            let w = rules::execute_effect(v, executor, id, replies);
            let after = w.ledger;
            &&& after.threshold == Some(threshold)
            &&& after.owners == s.owners
            &&& after.total_weight == s.total_weight
            &&& after.spending_limits == s.spending_limits
            &&& after.spent == s.spent
            &&& w.events == v.events.push(
                EventView::ChangeThresholdExecuted {
                    previous_threshold: if s.threshold is Some {
                        s.threshold->0
                    } else {
                        0
                    },
                    new_threshold: threshold,
                },
            ).push(told_executed(id, executor, Seq::empty()))
        }),
{
    let s = v.ledger;
    let e = rules::enactment_events(s, s.proposals[id])[0];
    assert(v.events + seq![e] =~= v.events.push(e));
}

/// A limit that is set is stored for that owner and token only, begins a window
/// with nothing spent, and is told with the one before.
pub proof fn law_limit_is_set(
    v: EnvView,
    executor: Address,
    id: u64,
    replies: Seq<bool>,
    owner: Address,
    token: Address,
    limit: i128,
)
    requires
        rules::execute_refusal(v, executor, id, replies) is None,
        v.ledger.proposals[id].kind == KindView::SetSpendingLimit(owner, token, limit),
    ensures
        ({
            let s = v.ledger;
            let key = SpendingKey { owner, token };
            let w = rules::execute_effect(v, executor, id, replies);
            let after = w.ledger;
            &&& after.spending_limits == s.spending_limits.insert(key, limit)
            &&& after.spent.contains_key(key)
            &&& after.spent[key].spent == 0
            &&& after.spent[key].epoch == v.timestamp
            &&& after.spent == s.spent.insert(key, after.spent[key])
            &&& after.owners == s.owners
            &&& after.total_weight == s.total_weight
            &&& after.threshold == s.threshold
            &&& w.events == v.events.push(
                EventView::SetSpendingLimitExecuted {
                    owner,
                    token,
                    previous_limit: if s.spending_limits.contains_key(key) {
                        Some(s.spending_limits[key])
                    } else {
                        None
                    },
                    new_limit: limit,
                },
            ).push(told_executed(id, executor, Seq::empty()))
        }),
{
    let s = v.ledger;
    let e = rules::enactment_events(s, s.proposals[id])[0];
    assert(v.events + seq![e] =~= v.events.push(e));
}

/// A weight that is changed is that of one owner; the total follows it, and only
/// the execution is told.
pub proof fn law_weight_is_changed(
    v: EnvView,
    executor: Address,
    id: u64,
    replies: Seq<bool>,
    target: Address,
    weight: u32,
)
    requires
        rules::execute_refusal(v, executor, id, replies) is None,
        v.ledger.proposals[id].kind == KindView::ChangeOwnerWeight(target, weight),
    ensures
        ({
            let s = v.ledger;
            let w = rules::execute_effect(v, executor, id, replies);
            let after = w.ledger;
            &&& after.owners == Some(s.owners->0.insert(target, weight))
            &&& after.total_weight == s.total_weight - vote(s, target) + weight
            &&& after.threshold == s.threshold
            &&& after.spending_limits == s.spending_limits
            &&& after.spent == s.spent
            &&& w.events == v.events.push(told_executed(id, executor, Seq::empty()))
        }),
{
    let s = v.ledger;
    assert(v.events + rules::enactment_events(s, s.proposals[id]) =~= v.events);
}

// ---------------------------------------------------------------------------
// Sweeps
// ---------------------------------------------------------------------------
/// An id names a stored proposal that ran out of time undecided.
pub open spec fn names_lapsed(s: LedgerView, now: u64, id: u64) -> bool {
    s.proposals.contains_key(id) && lapsed(s.proposals[id], now)
}

/// The places of a list whose ids name such a proposal.
pub open spec fn lapsed_places(s: LedgerView, now: u64, ids: Seq<u64>) -> Set<int> {
    Set::new(|i: int| 0 <= i < ids.len() && names_lapsed(s, now, ids[i]))
}

/// A sweep counts the places of its list whose ids name a proposal that ran out
/// of time, wherever they stand.
pub proof fn law_sweep_counts_places(s: LedgerView, now: u64, ids: Seq<u64>)
    ensures
        lapsed_places(s, now, ids).finite(),
        rules::expired_among(s, now, ids) == lapsed_places(s, now, ids).len(),
    decreases ids.len(),
{
    if ids.len() == 0 {
        assert(lapsed_places(s, now, ids) =~= Set::<int>::empty());
    } else {
        let fewer = lapsed_places(s, now, ids.drop_last());
        let n = ids.len() - 1;
        law_sweep_counts_places(s, now, ids.drop_last());
        assert(!fewer.contains(n));
        if names_lapsed(s, now, ids.last()) {
            assert(lapsed_places(s, now, ids) =~= fewer.insert(n));
        } else {
            assert(lapsed_places(s, now, ids) =~= fewer);
        }
    }
}

/// Lists that are put one after the other are swept to the sum of their numbers,
/// and a list of one id to 1 exactly if its proposal ran out of time.
pub proof fn law_sweeps_add_up(s: LedgerView, now: u64, a: Seq<u64>, b: Seq<u64>, id: u64)
    ensures
        rules::expired_among(s, now, a + b) == rules::expired_among(s, now, a)
            + rules::expired_among(s, now, b),
        rules::expired_among(s, now, seq![id]) == if names_lapsed(s, now, id) {
            1int
        } else {
            0
        },
    decreases b.len(),
{
    if b.len() == 0 {
        assert(a + b =~= a);
    } else {
        law_sweeps_add_up(s, now, a, b.drop_last(), id);
        assert((a + b).drop_last() =~= a + b.drop_last());
    }
    assert(seq![id].drop_last() =~= Seq::<u64>::empty());
    reveal_with_fuel(rules::expired_among, 2);
}

/// A number is given out as it is, as long as it fits.
pub proof fn law_counts_are_given_out(n: nat)
    ensures
        n <= 0xffff_ffff ==> rules::counted(n) == n,
        n > 0xffff_ffff ==> rules::counted(n) == 0xffff_ffff,
{
}

/// A sweep is for owners. If it finds something, the number of proposals that can
/// still be voted on is noted; nothing else changes and nothing is told.
pub proof fn law_sweep_is_noted(v: EnvView, caller: Address, ids: Seq<u64>)
    ensures
        ({
            let r = Request::CancelExpired { caller, ids };
            let w = rules::cancel_expired_effect(v, caller, ids);
            let found = exists|i: int|
                0 <= i < ids.len() && names_lapsed(v.ledger, v.timestamp, #[trigger] ids[i]);
            &&& requests::refusal(v, r) == owner_answer(v.ledger, caller)
            &&& w.ledger == (LedgerView { active_count: w.ledger.active_count, ..v.ledger })
            &&& owner_answer(v.ledger, caller) is None && found ==> w.ledger.active_count
                == rules::counted(votable_count(v.ledger, v.timestamp))
            &&& owner_answer(v.ledger, caller) is Some || !found ==> w.ledger.active_count
                == v.ledger.active_count
            &&& w.events == v.events
            &&& w.auths == v.auths.push(caller)
            &&& w.new_wasm == v.new_wasm
        }),
{
    let s = v.ledger;
    let now = v.timestamp;
    law_active_are_the_votable(s, now);
    law_sweep_counts_places(s, now, ids);
    let places = lapsed_places(s, now, ids);
    if exists|i: int| 0 <= i < ids.len() && names_lapsed(s, now, #[trigger] ids[i]) {
        let i: int = choose|i: int| 0 <= i < ids.len() && names_lapsed(s, now, #[trigger] ids[i]);
        assert(places.contains(i));
    } else {
        assert(places =~= Set::<int>::empty());
    }
}

// ---------------------------------------------------------------------------
// Co-signers and the guardian
// ---------------------------------------------------------------------------
/// Somebody on a list can be counted: an owner, whose vote and those before it
/// add up to no more than can be counted.
pub open spec fn countable(s: LedgerView, people: Seq<Address>, i: int) -> bool {
    listed(s, people[i]) && votes(s, people.take(i + 1)) <= 0xffff_ffff
}

proof fn lemma_first_uncountable(s: LedgerView, people: Seq<Address>, i: int, k: int)
    requires
        0 <= i <= k <= people.len(),
        forall|j: int| i <= j < k ==> #[trigger] countable(s, people, j),
    ensures
        rules::tally_refusal(s, people, i) == rules::tally_refusal(s, people, k),
        rules::asked_from(s, people, i) == k - i + rules::asked_from(s, people, k),
    decreases k - i,
{
    if i < k {
        assert(countable(s, people, i));
        law_weight_of_cosigners(s, people, i + 1);
        lemma_first_uncountable(s, people, i + 1, k);
    }
}

/// Of a list that names nobody twice, the first who cannot be counted is the
/// answer, and the last who is asked. If all can be counted, all are asked, and
/// their votes decide.
pub proof fn law_cosigners_are_counted(v: EnvView, people: Seq<Address>, k: int)
    requires
        people.no_duplicates(),
        v.ledger.threshold is Some,
    ensures
        ({
            let s = v.ledger;
            let answer = rules::quorum_refusal(s, people);
            let auths = rules::cosigners_asked(v, people).auths;
            &&& 0 <= k < people.len() && !countable(s, people, k) && (forall|j: int|
                0 <= j < k ==> #[trigger] countable(s, people, j)) ==> {
                &&& answer == Some(
                    if s.owners is None {
                        ContractError::NotInitialized
                    } else if !listed(s, people[k]) {
                        ContractError::Unauthorized
                    } else {
                        ContractError::ArithmeticError
                    },
                )
                &&& auths == v.auths + people.take(k + 1)
            }
            &&& (forall|j: int| 0 <= j < people.len() ==> #[trigger] countable(s, people, j)) ==> {
                &&& answer == if votes(s, people) < s.threshold->0 {
                    Some(ContractError::ThresholdNotMet)
                } else {
                    None
                }
                &&& auths == v.auths + people
            }
        }),
{
    let s = v.ledger;
    if 0 <= k < people.len() && !countable(s, people, k) && (forall|j: int|
        0 <= j < k ==> #[trigger] countable(s, people, j)) {
        lemma_first_uncountable(s, people, 0, k);
        law_weight_of_cosigners(s, people, k + 1);
    }
    if forall|j: int| 0 <= j < people.len() ==> #[trigger] countable(s, people, j) {
        lemma_first_uncountable(s, people, 0, people.len() as int);
        law_weight_of_cosigners(s, people, people.len() as int);
        assert(people.take(people.len() as int) =~= people);
    }
}

proof fn lemma_tally_to_stranger(s: LedgerView, people: Seq<Address>, i: int, k: int)
    requires
        0 <= i <= k <= people.len(),
        s.owners is Some,
        forall|j: int|
            0 <= j <= people.len() ==> #[trigger] rules::weight_upto(s, people, j) <= u32::MAX,
        forall|j: int| i <= j < k ==> listed(s, #[trigger] people[j]),
    ensures
        rules::tally_refusal(s, people, i) == rules::tally_refusal(s, people, k),
        rules::asked_from(s, people, i) == k - i + rules::asked_from(s, people, k),
    decreases k - i,
{
    if i < k {
        assert(listed(s, people[i]));
        assert(rules::weight_upto(s, people, i + 1) <= u32::MAX);
        lemma_tally_to_stranger(s, people, i + 1, k);
    }
}

/// Co-signers decide if nobody stands on their list twice, all are owners, and
/// their votes together reach the threshold. The first of these that fails is the
/// answer, in every wallet whose total weight is the sum of its owners' weights.
pub proof fn law_cosigning_is_answered(s: LedgerView, people: Seq<Address>)
    requires
        laws::total_matches(s),
        s.owners is Some,
    ensures
        rules::quorum_refusal(s, people) == if exists|i: int, j: int|
            0 <= i < j < people.len() && #[trigger] people[i] == #[trigger] people[j] {
            Some(ContractError::DuplicateOwner)
        } else if s.threshold is None {
            Some(ContractError::NotInitialized)
        } else if exists|i: int| 0 <= i < people.len() && !listed(s, #[trigger] people[i]) {
            Some(ContractError::Unauthorized)
        } else if votes(s, people) < s.threshold->0 {
            Some(ContractError::ThresholdNotMet)
        } else {
            None
        },
{
    if exists|i: int, j: int|
        0 <= i < j < people.len() && #[trigger] people[i] == #[trigger] people[j] {
        assert(!people.no_duplicates());
    } else {
        assert(people.no_duplicates());
        lemma_weights_fit(s, people);
        law_weight_of_cosigners(s, people, people.len() as int);
        assert(people.take(people.len() as int) =~= people);
        if exists|i: int| 0 <= i < people.len() && !listed(s, #[trigger] people[i]) {
            let k = first_stranger(s, people, 0);
            lemma_first_stranger(s, people, 0);
            lemma_tally_to_stranger(s, people, 0, k);
        } else {
            lemma_tally_to_stranger(s, people, 0, people.len() as int);
        }
    }
}

proof fn lemma_weights_fit(s: LedgerView, people: Seq<Address>)
    requires
        laws::total_matches(s),
        s.owners is Some,
        people.no_duplicates(),
    ensures
        forall|j: int|
            0 <= j <= people.len() ==> #[trigger] rules::weight_upto(s, people, j) <= u32::MAX,
{
    assert forall|j: int| 0 <= j <= people.len() implies #[trigger] rules::weight_upto(
        s,
        people,
        j,
    ) <= u32::MAX by {
        let fewer = people.take(j);
        assert(fewer.no_duplicates()) by {
            assert forall|a: int, b: int|
                0 <= a < fewer.len() && 0 <= b < fewer.len() && a != b implies fewer[a]
                != fewer[b] by {
                assert(people[a] != people[b]);
            }
        }
        laws::law_cosigners_decide_by_weight(s, fewer);
        law_weight_of_cosigners(s, people, j);
        law_weight_of_cosigners(s, fewer, j);
        assert(fewer.take(j) =~= fewer);
    }
}

/// The place of the first on a list, from `i` on, who is no owner.
pub open spec fn first_stranger(s: LedgerView, people: Seq<Address>, i: int) -> int
    decreases people.len() - i,
{
    if i >= people.len() || !listed(s, people[i]) {
        i
    } else {
        first_stranger(s, people, i + 1)
    }
}

proof fn lemma_first_stranger(s: LedgerView, people: Seq<Address>, i: int)
    requires
        0 <= i <= people.len(),
        exists|j: int| i <= j < people.len() && !listed(s, #[trigger] people[j]),
    ensures
        i <= first_stranger(s, people, i) < people.len(),
        !listed(s, people[first_stranger(s, people, i)]),
        forall|j: int| i <= j < first_stranger(s, people, i) ==> listed(s, #[trigger] people[j]),
    decreases people.len() - i,
{
    if listed(s, people[i]) {
        let j: int = choose|j: int| i <= j < people.len() && !listed(s, #[trigger] people[j]);
        assert(i + 1 <= j);
        lemma_first_stranger(s, people, i + 1);
    }
}

/// Co-signers who are refused were asked one by one up to the first who is no
/// owner; nobody was asked if the list has somebody twice or there is no
/// threshold.
pub proof fn law_refused_cosigners_asked(v: EnvView, people: Seq<Address>, k: int)
    requires
        laws::total_matches(v.ledger),
        v.ledger.owners is Some,
    ensures
        ({
            let w = rules::cosigners_asked(v, people);
            let twice = !people.no_duplicates();
            &&& w == (EnvView { auths: w.auths, ..v })
            &&& twice || v.ledger.threshold is None ==> w.auths == v.auths
            &&& !twice && v.ledger.threshold is Some && 0 <= k < people.len() && !listed(
                v.ledger,
                people[k],
            ) && (forall|j: int| 0 <= j < k ==> listed(v.ledger, #[trigger] people[j]))
                ==> w.auths == v.auths + people.take(k + 1)
            &&& !twice && v.ledger.threshold is Some && (forall|j: int|
                0 <= j < people.len() ==> listed(v.ledger, #[trigger] people[j])) ==> w.auths
                == v.auths + people
        }),
{
    let s = v.ledger;
    if people.no_duplicates() {
        lemma_weights_fit(s, people);
        if 0 <= k < people.len() && !listed(s, people[k]) && (forall|j: int|
            0 <= j < k ==> listed(s, #[trigger] people[j])) {
            lemma_tally_to_stranger(s, people, 0, k);
        }
        if forall|j: int| 0 <= j < people.len() ==> listed(s, #[trigger] people[j]) {
            lemma_tally_to_stranger(s, people, 0, people.len() as int);
            assert(people.take(people.len() as int) =~= people);
        }
    }
}

/// The cap is set by co-signers, to 1 up to 50 percent; anything else is refused
/// before anybody is asked. Only the cap changes, and nothing is told.
pub proof fn law_cap_is_set(v: EnvView, people: Seq<Address>, pct: u32)
    ensures
        ({
            let w = rules::set_max_pct_effect(v, people, pct);
            let answer = rules::set_max_pct_refusal(v.ledger, people, pct);
            &&& !(1 <= pct <= 50) ==> answer == Some(ContractError::InvalidWeight) && w == v
            &&& 1 <= pct <= 50 ==> answer == rules::quorum_refusal(v.ledger, people) && w == (
            EnvView {
                ledger: if answer is None {
                    LedgerView { max_single_owner_weight_pct: pct, ..v.ledger }
                } else {
                    v.ledger
                },
                ..rules::cosigners_asked(v, people)
            })
        }),
{
}

/// A guardian is named by co-signers, and that is told.
pub proof fn law_guardian_is_named(v: EnvView, people: Seq<Address>, guardian: Address)
    requires
        rules::quorum_refusal(v.ledger, people) is None,
    ensures
        rules::set_guardian_effect(v, people, guardian) == (EnvView {
            ledger: LedgerView { guardian: Some(guardian), ..v.ledger },
            events: v.events.push(EventView::GuardianSet { guardian }),
            auths: v.auths + people,
            ..v
        }),
{
    laws::law_accepted_is_authorized(
        v,
        Request::SetGuardian { approvers: people, new_guardian: guardian },
    );
}

/// A freeze is ended by co-signers, and that is told.
pub proof fn law_freeze_is_ended(v: EnvView, people: Seq<Address>)
    requires
        rules::quorum_refusal(v.ledger, people) is None,
    ensures
        rules::unfreeze_effect(v, people) == (EnvView {
            ledger: LedgerView { frozen: false, ..v.ledger },
            events: v.events.push(EventView::Unfrozen { approvers: people }),
            auths: v.auths + people,
            ..v
        }),
{
    laws::law_accepted_is_authorized(v, Request::Unfreeze { approvers: people });
}

/// The code is replaced by co-signers; nothing that is stored changes, and the
/// first of them is told as the caller.
pub proof fn law_code_is_replaced(v: EnvView, people: Seq<Address>, hash: [u8; 32])
    requires
        rules::quorum_refusal(v.ledger, people) is None,
    ensures
        rules::upgrade_effect(v, people, hash) == (EnvView {
            new_wasm: Some(hash),
            events: v.events.push(
                EventView::UpgradeExecuted { caller: people[0], new_wasm_hash: hash },
            ),
            auths: v.auths + people,
            ..v
        }),
{
    laws::law_accepted_is_authorized(
        v,
        Request::Upgrade { approvers: people, new_wasm_hash: hash },
    );
}

/// The guardian, and nobody else, freezes the wallet, and that is told.
pub proof fn law_guardian_freezes(v: EnvView, a: Address)
    ensures
        rules::freeze_refusal(v.ledger, a) == if v.ledger.guardian is None {
            Some(ContractError::NoGuardian)
        } else if v.ledger.guardian != Some(a) {
            Some(ContractError::Unauthorized)
        } else {
            None
        },
        rules::freeze_effect(v, a) == if v.ledger.guardian == Some(a) {
            EnvView {
                ledger: LedgerView { frozen: true, ..v.ledger },
                events: v.events.push(EventView::Frozen { guardian: a }),
                auths: v.auths.push(a),
                ..v
            }
        } else {
            EnvView { auths: v.auths.push(a), ..v }
        },
{
}

// ---------------------------------------------------------------------------
// Questions
// ---------------------------------------------------------------------------
/// The approvers of a proposal are the owners whose approval was given and not
/// taken back.
pub proof fn law_approvers_shown(s: LedgerView, id: u64, a: Address)
    ensures
        rules::approvers_of(s, id).contains(a) <==> listed(s, a) && stands(s, id, a),
        rules::approved(s, id, a) == stands(s, id, a),
{
}

/// What is left of a limit is the limit less what counts as spent; nothing is said
/// where there is no limit.
pub proof fn law_rest_shown(s: LedgerView, now: u64, owner: Address, token: Address)
    ensures
        ({
            let key = SpendingKey { owner, token };
            let rest = s.spending_limits[key] - spent_now(s, now, owner, token);
            let shown = rules::remaining_of(s, now, owner, token);
            &&& shown is Some <==> s.spending_limits.contains_key(key)
            &&& shown is Some && fits(rest) ==> shown->0 == rest
            &&& shown is Some && rest < 0 && !fits(rest) ==> shown == Some(i128::MIN)
            &&& shown is Some && rest > 0 && !fits(rest) ==> shown == Some(i128::MAX)
        }),
{
    law_spent_and_limit(s, now, owner, token);
}

/// As many proposals were filed as ids were given out.
pub proof fn law_filed_shown(s: LedgerView)
    requires
        s.next_id >= 1,
    ensures
        rules::proposals_filed(s) + 1 == s.next_id,
{
}

/// A page shows the stored proposals that come after the first `offset`, as many
/// as were asked for but at most 20, in the order of their ids and each with the
/// status of the moment.
pub proof fn law_page_shown(s: LedgerView, now: u64, offset: u64, limit: u32, i: int)
    requires
        laws::numbered(s),
    ensures
        ({
            let list = rules::page(
                s,
                now,
                offset + 1,
                rules::page_end(s, offset, limit),
            );
            let size: int = if limit <= 20 {
                limit as int
            } else {
                20
            };
            let rest: int = s.next_id - 1 - offset;
            let p = s.proposals[(offset + 1 + i) as u64];
            &&& list.len() == if rest <= 0 {
                0
            } else if rest < size {
                rest
            } else {
                size
            }
            &&& 0 <= i < list.len() ==> list[i] == (ProposalView { status: list[i].status, ..p })
                && list[i].status == if decided(p) {
                p.status
            } else if now > p.deadline {
                ProposalStatus::Expired
            } else if p.approvals >= p.quorum_weight {
                ProposalStatus::Ready
            } else {
                ProposalStatus::Pending
            }
        }),
{
    let start = offset + 1;
    let end = rules::page_end(s, offset, limit);
    if start - 1 <= end {
        laws::law_page_lists_its_ids(s, now, start, end);
        if 0 <= i < rules::page(s, now, start, end).len() {
            law_status_shown(s.proposals[(start + i) as u64], now);
        }
    }
}

/// A page of one id shows its proposal, if there is one.
pub proof fn law_page_of_one(s: LedgerView, now: u64, id: u64)
    ensures
        rules::page(s, now, id as int, id as int) == if s.proposals.contains_key(id) {
            seq![rules::up_to_date(s.proposals[id], now)]
        } else {
            Seq::empty()
        },
{
    reveal_with_fuel(rules::page, 2);
    assert(rules::page(s, now, id as int, id - 1) =~= Seq::<ProposalView>::empty());
}

// ---------------------------------------------------------------------------
// The window of a limit
// ---------------------------------------------------------------------------
/// None of some requests sets somebody's limit for a token.
pub open spec fn never_set(v: EnvView, steps: Seq<Step>, owner: Address, token: Address) -> bool {
    forall|i: int|
        0 <= i < steps.len() ==> !(laws::executes(
            requests::at(requests::run(v, steps.take(i)), (#[trigger] steps[i]).time),
            steps[i].request,
        ) matches Some(KindView::SetSpendingLimit(o, t, _)) && o == owner && t == token)
}

/// All of some requests are made within a span of time.
pub open spec fn within_span(steps: Seq<Step>, from: u64, to: int) -> bool {
    forall|i: int| 0 <= i < steps.len() ==> from <= (#[trigger] steps[i]).time <= to
}

proof fn lemma_window_stays(
    v: EnvView,
    steps: Seq<Step>,
    owner: Address,
    token: Address,
    limit: i128,
    begun: u64,
)
    requires
        begun > 0,
        ({
            let key = SpendingKey { owner, token };
            &&& v.ledger.spent.contains_key(key)
            &&& v.ledger.spent[key].epoch == begun
            &&& v.ledger.spending_limits.contains_key(key)
            &&& v.ledger.spending_limits[key] == limit
        }),
        within_span(steps, begun, begun + 2_592_000),
        never_set(v, steps, owner, token),
    ensures
        ({
            let key = SpendingKey { owner, token };
            let s = requests::run(v, steps).ledger;
            &&& s.spent.contains_key(key)
            &&& s.spent[key].epoch == begun
            &&& s.spending_limits.contains_key(key)
            &&& s.spending_limits[key] == limit
        }),
    decreases steps.len(),
{
    if steps.len() > 0 {
        let n = steps.len() - 1;
        let fewer = steps.drop_last();
        assert(fewer =~= steps.take(n));
        assert forall|i: int| 0 <= i < fewer.len() implies begun <= (#[trigger] fewer[i]).time
            <= begun + 2_592_000 by {
            assert(fewer[i] == steps[i]);
        }
        assert forall|i: int| 0 <= i < fewer.len() implies !(laws::executes(
            requests::at(requests::run(v, fewer.take(i)), (#[trigger] fewer[i]).time),
            fewer[i].request,
        ) matches Some(KindView::SetSpendingLimit(o, t, _)) && o == owner && t == token) by {
            assert(fewer.take(i) =~= steps.take(i));
            assert(fewer[i] == steps[i]);
        }
        lemma_window_stays(v, fewer, owner, token, limit, begun);
        let found = requests::at(requests::run(v, fewer), steps.last().time);
        let r = steps.last().request;
        assert(steps[n] == steps.last());
        lemma_window_step(found, r, owner, token);
    }
}

proof fn lemma_window_step(v: EnvView, r: Request, owner: Address, token: Address)
    requires
        ({
            let key = SpendingKey { owner, token };
            &&& v.ledger.spent.contains_key(key)
            &&& v.ledger.spent[key].epoch > 0
            &&& v.timestamp <= v.ledger.spent[key].epoch + 2_592_000
            &&& v.ledger.spending_limits.contains_key(key)
        }),
        !(laws::executes(v, r) matches Some(KindView::SetSpendingLimit(o, t, _)) && o
            == owner && t == token),
    ensures
        ({
            let key = SpendingKey { owner, token };
            let s = requests::effect(v, r).ledger;
            &&& s.spent.contains_key(key)
            &&& s.spent[key].epoch == v.ledger.spent[key].epoch
            &&& s.spending_limits.contains_key(key)
            &&& s.spending_limits[key] == v.ledger.spending_limits[key]
        }),
{
    let key = SpendingKey { owner, token };
    if requests::refusal(v, r) is Some {
        laws::law_refused_changes_nothing(v, r);
    } else if let Request::Execute { executor, proposal_id, transfer_replies } = r {
        match v.ledger.proposals[proposal_id].kind {
            KindView::Transfer(payments) => {
                law_payments_are_recorded(
                    v,
                    executor,
                    proposal_id,
                    transfer_replies,
                    payments,
                    key,
                );
            },
            KindView::SetSpendingLimit(o, t, limit) => {
                law_limit_is_set(v, executor, proposal_id, transfer_replies, o, t, limit);
            },
            _ => {},
        }
    }
}

/// Setting a limit at a time after 0 begins a window that ends 2,592,000 seconds
/// later, whatever is asked of the wallet meanwhile: spends within it count
/// against the limit but do not move its end, unless the limit is set anew. At
/// every later time nothing counts as spent, and the whole limit is there.
pub proof fn law_window_begins_with_the_limit(
    v: EnvView,
    executor: Address,
    id: u64,
    replies: Seq<bool>,
    owner: Address,
    token: Address,
    limit: i128,
    steps: Seq<Step>,
    later: u64,
)
    requires
        v.timestamp > 0,
        rules::execute_refusal(v, executor, id, replies) is None,
        v.ledger.proposals[id].kind == KindView::SetSpendingLimit(owner, token, limit),
        within_span(steps, v.timestamp, v.timestamp + 2_592_000),
        never_set(rules::execute_effect(v, executor, id, replies), steps, owner, token),
    ensures
        ({
            let s = requests::run(
                rules::execute_effect(v, executor, id, replies),
                steps,
            ).ledger;
            let key = SpendingKey { owner, token };
            &&& later > v.timestamp + 2_592_000 ==> rules::spent_by(s, later, owner, token) == 0
                && rules::remaining_of(s, later, owner, token) == Some(limit)
            &&& later <= v.timestamp + 2_592_000 ==> s.spent.contains_key(key) && rules::spent_by(
                s,
                later,
                owner,
                token,
            ) == s.spent[key].spent
        }),
{
    let w = rules::execute_effect(v, executor, id, replies);
    law_limit_is_set(v, executor, id, replies, owner, token, limit);
    lemma_window_stays(w, steps, owner, token, limit, v.timestamp);
}

/// Without a limit a window begins with the first spend after time 0, and after
/// it ended with the next one: it ends 2,592,000 seconds after that spend, whatever
/// is spent within it.
pub proof fn law_window_begins_with_a_spend(
    v: EnvView,
    executor: Address,
    id: u64,
    replies: Seq<bool>,
    payments: Seq<Transfer>,
    token: Address,
    later: u64,
)
    requires
        v.timestamp > 0,
        rules::execute_refusal(v, executor, id, replies) is None,
        v.ledger.proposals[id].kind == KindView::Transfer(payments),
        pays(payments, token),
        ({
            let key = SpendingKey { owner: v.ledger.proposals[id].proposer, token };
            !v.ledger.spent.contains_key(key) || (v.ledger.spent[key].epoch != 0 && v.timestamp
                > v.ledger.spent[key].epoch + 2_592_000)
        }),
    ensures
        ({
            let s = rules::execute_effect(v, executor, id, replies).ledger;
            rules::spent_by(s, later, v.ledger.proposals[id].proposer, token) == if later
                <= v.timestamp + 2_592_000 {
                paid_in(payments, token)
            } else {
                0
            }
        }),
{
    let key = SpendingKey { owner: v.ledger.proposals[id].proposer, token };
    law_payments_are_recorded(v, executor, id, replies, payments, key);
}

} // verus!
