//! The rules of the wallet: when a request is refused and what an accepted one
//! changes, over the mathematical state.

use crate::ledger::{EnvView, LedgerView};
use crate::types::{
    Address, ApprovalKey, ContractError, EventView, KindView, ProposalCategory, ProposalStatus,
    ProposalView, SpendingKey, SpentTracker, TokenReply, Transfer,
};
use vstd::prelude::*;

verus! {

/// The version of the wallet, bumped on each release.
pub const CONTRACT_VERSION: u32 = 1;

/// The smallest amount of a payment.
pub const MIN_AMOUNT: i128 = 1;

/// The longest description, in bytes.
pub const MAX_DESCRIPTION_LEN: u32 = 300;

/// How many proposals may be active (`Pending` or `Ready`) at once.
pub const MAX_ACTIVE_PROPOSALS: u32 = 50;

/// The most owners that a wallet may have.
pub const MAX_OWNERS: u32 = 20;

/// How many payments one proposal may make.
pub const MAX_TRANSFERS: usize = 3;

/// How many proposals one page may list.
pub const MAX_PAGE: u32 = 20;

/// The longest lifetime of a proposal, in seconds: 90 days.
pub const MAX_PROPOSAL_DURATION: u64 = 7_776_000;

/// The smallest weight of an owner.
pub const MIN_OWNER_WEIGHT: u32 = 1;

/// The largest weight of an owner.
pub const MAX_OWNER_WEIGHT: u32 = 100_000;

/// The highest share of the total weight, in percent, that a weight change may
/// ever give one owner. A strict majority would be a quorum of one.
pub const MAX_SINGLE_OWNER_WEIGHT_PCT: u32 = 50;

/// The share that a weight change may give one owner until it is tightened.
pub const DEFAULT_MAX_SINGLE_OWNER_WEIGHT_PCT: u32 = 50;

/// The spending window, in seconds: 30 days. What an owner has spent of a token
/// counts against the limit until the window that began with the first spend
/// (or with the setting of the limit) has elapsed; the first spend after that
/// begins a new window.
pub const SPENDING_WINDOW: u64 = 2_592_000;

// ---------------------------------------------------------------------------
// Answers
// ---------------------------------------------------------------------------
/// A request succeeds if there is no reason to refuse it, and else is refused
/// for that reason.
pub open spec fn answers<T>(
    result: Result<T, ContractError>,
    refusal: Option<ContractError>,
) -> bool {
    match result {
        Ok(_) => refusal is None,
        Err(e) => refusal == Some(e),
    }
}

/// The first reason, or the second where there is no first.
pub open spec fn or_else(
    first: Option<ContractError>,
    second: Option<ContractError>,
) -> Option<ContractError> {
    match first {
        Some(e) => Some(e),
        None => second,
    }
}

/// A reason that holds under a condition.
pub open spec fn when(condition: bool, reason: ContractError) -> Option<ContractError> {
    if condition {
        Some(reason)
    } else {
        None
    }
}

/// The environment after the authorization of `address` was asked for.
pub open spec fn asked(v: EnvView, address: Address) -> EnvView {
    EnvView { auths: v.auths.push(address), ..v }
}

/// The environment after `event` was published.
pub open spec fn told(v: EnvView, event: EventView) -> EnvView {
    EnvView { events: v.events.push(event), ..v }
}

// ---------------------------------------------------------------------------
// Arithmetic
// ---------------------------------------------------------------------------
/// Addition of times, which stops at the last one.
pub open spec fn later(time: u64, delay: u64) -> u64 {
    if time + delay > u64::MAX {
        u64::MAX
    } else {
        (time + delay) as u64
    }
}

/// A count as the wallet stores it, which stops at the largest number.
pub open spec fn counted(count: nat) -> u32 {
    if count > u32::MAX {
        u32::MAX
    } else {
        count as u32
    }
}

/// Whether a sum is an amount that the wallet can hold.
pub open spec fn is_amount(sum: int) -> bool {
    i128::MIN <= sum <= i128::MAX
}

// ---------------------------------------------------------------------------
// Proposals
// ---------------------------------------------------------------------------
/// The status of a proposal at a time: a terminal status stays; else the
/// deadline decides first and the quorum second.
pub open spec fn derived_status(p: ProposalView, now: u64) -> ProposalStatus {
    if p.status == ProposalStatus::Executed || p.status == ProposalStatus::Revoked {
        p.status
    } else if now > p.deadline {
        ProposalStatus::Expired
    } else if p.approvals >= p.quorum_weight {
        ProposalStatus::Ready
    } else {
        ProposalStatus::Pending
    }
}

/// Whether a proposal can still be voted on at a time.
pub open spec fn is_active(p: ProposalView, now: u64) -> bool {
    derived_status(p, now) == ProposalStatus::Pending || derived_status(p, now)
        == ProposalStatus::Ready
}

/// Whether the proposal of an id is stored and active.
pub open spec fn active_id(s: LedgerView, now: u64, id: u64) -> bool {
    s.proposals.contains_key(id) && is_active(s.proposals[id], now)
}

/// How many of the ids from 1 up to `end`, which is left out, are active.
pub open spec fn active_before(s: LedgerView, now: u64, end: int) -> nat
    decreases end,
{
    if end <= 1 {
        0
    } else {
        active_before(s, now, end - 1) + if active_id(s, now, (end - 1) as u64) {
            1nat
        } else {
            0
        }
    }
}

/// How many proposals are active.
pub open spec fn active_proposals(s: LedgerView, now: u64) -> nat {
    active_before(s, now, s.next_id as int)
}

/// A proposal as a reader sees it, with its status brought up to date.
pub open spec fn up_to_date(p: ProposalView, now: u64) -> ProposalView {
    ProposalView { status: derived_status(p, now), ..p }
}

/// Whether an owner's approval of a proposal stands.
pub open spec fn approved(s: LedgerView, proposal_id: u64, owner: Address) -> bool {
    let key = ApprovalKey { proposal_id, owner };
    s.approvals.contains_key(key) && s.approvals[key]
}

// ---------------------------------------------------------------------------
// Owners
// ---------------------------------------------------------------------------
/// Whether an address is an owner.
pub open spec fn is_owner(s: LedgerView, address: Address) -> bool {
    s.owners matches Some(owners) && owners.contains_key(address)
}

/// The weight of an owner; 0 for anyone else.
pub open spec fn weight_of(s: LedgerView, address: Address) -> u32 {
    if is_owner(s, address) {
        s.owners->0[address]
    } else {
        0
    }
}

/// The number of owners.
pub open spec fn owner_count(s: LedgerView) -> nat {
    match s.owners {
        Some(owners) => owners.dom().len(),
        None => 0,
    }
}

/// Why an address may not act as an owner.
pub open spec fn owner_refusal(s: LedgerView, address: Address) -> Option<ContractError> {
    if s.owners is None {
        Some(ContractError::NotInitialized)
    } else {
        when(!is_owner(s, address), ContractError::Unauthorized)
    }
}

/// Why an address may not propose or execute.
pub open spec fn actor_refusal(s: LedgerView, address: Address) -> Option<ContractError> {
    or_else(owner_refusal(s, address), when(s.frozen, ContractError::ContractFrozen))
}

/// Whether a weight is one that an owner may have.
pub open spec fn is_weight(weight: u32) -> bool {
    MIN_OWNER_WEIGHT <= weight <= MAX_OWNER_WEIGHT
}

/// Whether a weight is at most the configured share of a total.
pub open spec fn within_cap(s: LedgerView, weight: int, total: int) -> bool {
    weight * 100 <= total * s.max_single_owner_weight_pct
}

/// The total weight after the weight of `target` became `new_weight`.
pub open spec fn reweighted_total(s: LedgerView, target: Address, new_weight: u32) -> int {
    s.total_weight - weight_of(s, target) + new_weight
}

/// Why the weight of `target` may not become `new_weight`.
pub open spec fn reweight_refusal(s: LedgerView, target: Address, new_weight: u32) -> Option<
    ContractError,
> {
    if !is_weight(new_weight) {
        Some(ContractError::InvalidWeight)
    } else if !is_owner(s, target) {
        Some(ContractError::OwnerNotFound)
    } else if s.total_weight < weight_of(s, target) || reweighted_total(s, target, new_weight)
        > u32::MAX {
        Some(ContractError::ArithmeticError)
    } else {
        when(
            !within_cap(s, new_weight as int, reweighted_total(s, target, new_weight)),
            ContractError::SingleOwnerWeightCapExceeded,
        )
    }
}

// ---------------------------------------------------------------------------
// Spending
// ---------------------------------------------------------------------------
/// The spending limit of an owner for a token, if there is one.
pub open spec fn limit_of(s: LedgerView, owner: Address, token: Address) -> Option<i128> {
    let key = SpendingKey { owner, token };
    if s.spending_limits.contains_key(key) {
        Some(s.spending_limits[key])
    } else {
        None
    }
}

/// What was recorded of an owner's spending of a token.
pub open spec fn tracker_of(s: LedgerView, owner: Address, token: Address) -> SpentTracker {
    let key = SpendingKey { owner, token };
    if s.spent.contains_key(key) {
        s.spent[key]
    } else {
        SpentTracker { spent: 0, epoch: 0 }
    }
}

/// Whether the window of a tracker is open at a time.
pub open spec fn window_open(tracker: SpentTracker, now: u64) -> bool {
    tracker.epoch != 0 && now <= later(tracker.epoch, SPENDING_WINDOW)
}

/// What an owner has spent of a token in the window that is open, if one is.
pub open spec fn spent_by(s: LedgerView, now: u64, owner: Address, token: Address) -> i128 {
    if window_open(tracker_of(s, owner, token), now) {
        tracker_of(s, owner, token).spent
    } else {
        0
    }
}

/// The sum of the amounts that a list of payments makes in a token.
pub open spec fn token_total(transfers: Seq<Transfer>, token: Address) -> int
    decreases transfers.len(),
{
    if transfers.len() == 0 {
        0
    } else {
        token_total(transfers.drop_last(), token) + if transfers.last().token == token {
            transfers.last().amount as int
        } else {
            0
        }
    }
}

/// Whether every running total, payment by payment, is an amount.
pub open spec fn totals_fit(transfers: Seq<Transfer>) -> bool {
    forall|k: int, token: Address|
        0 <= k <= transfers.len() ==> is_amount(#[trigger] token_total(transfers.take(k), token))
}

/// Whether a list of payments makes one in a token.
pub open spec fn pays_in(transfers: Seq<Transfer>, token: Address) -> bool {
    exists|i: int| 0 <= i < transfers.len() && (#[trigger] transfers[i]).token == token
}

/// The recorded amount after a spend: it adds up while the window is open, and
/// starts again once the window has elapsed.
pub open spec fn spent_after(tracker: SpentTracker, amount: int, now: u64) -> int {
    if tracker.epoch == 0 || window_open(tracker, now) {
        tracker.spent + amount
    } else {
        amount
    }
}

/// The tracker after a spend: an open window goes on, and else the spend begins
/// one.
pub open spec fn tracker_after(tracker: SpentTracker, amount: int, now: u64) -> SpentTracker {
    SpentTracker {
        spent: spent_after(tracker, amount, now) as i128,
        epoch: if window_open(tracker, now) {
            tracker.epoch
        } else {
            now
        },
    }
}

/// What is recorded as spent after an owner made a list of payments.
pub open spec fn spends_recorded(
    s: LedgerView,
    now: u64,
    owner: Address,
    transfers: Seq<Transfer>,
) -> Map<SpendingKey, SpentTracker> {
    Map::new(
        |key: SpendingKey|
            s.spent.contains_key(key) || key.owner == owner && pays_in(transfers, key.token),
        |key: SpendingKey|
            if key.owner == owner && pays_in(transfers, key.token) {
                tracker_after(tracker_of(s, owner, key.token), token_total(transfers, key.token), now)
            } else {
                s.spent[key]
            },
    )
}

/// Whether recording the spends of a list of payments stays within what the
/// wallet can hold.
pub open spec fn spends_fit(
    s: LedgerView,
    now: u64,
    owner: Address,
    transfers: Seq<Transfer>,
) -> bool {
    &&& totals_fit(transfers)
    &&& forall|i: int|
        0 <= i < transfers.len() ==> is_amount(
            spent_after(
                tracker_of(s, owner, (#[trigger] transfers[i]).token),
                token_total(transfers, transfers[i].token),
                now,
            ),
        )
}

// ---------------------------------------------------------------------------
// Initialization
// ---------------------------------------------------------------------------
/// The sum of a list of weights.
pub open spec fn weights_total(weights: Seq<u32>) -> nat
    decreases weights.len(),
{
    if weights.len() == 0 {
        0
    } else {
        weights_total(weights.drop_last()) + weights.last() as nat
    }
}

/// The owners of a list with the weights of another.
pub open spec fn paired(owners: Seq<Address>, weights: Seq<u32>) -> Map<Address, u32>
    decreases owners.len(),
{
    if owners.len() == 0 {
        Map::empty()
    } else {
        paired(owners.drop_last(), weights.drop_last()).insert(owners.last(), weights.last())
    }
}

/// How many weights of a list, from `i` on, come before the first that no
/// owner may have.
pub open spec fn valid_weights_from(weights: Seq<u32>, i: int) -> nat
    decreases weights.len() - i,
{
    if 0 <= i < weights.len() && is_weight(weights[i]) {
        1 + valid_weights_from(weights, i + 1)
    } else {
        0
    }
}

/// Why a wallet cannot be set up, before any owner is asked.
pub open spec fn setup_refusal(
    s: LedgerView,
    owners: Seq<Address>,
    weights: Seq<u32>,
) -> Option<ContractError> {
    if s.initialized {
        Some(ContractError::AlreadyInitialized)
    } else if owners.len() == 0 || owners.len() > MAX_OWNERS {
        Some(ContractError::InvalidOwners)
    } else if owners.len() != weights.len() {
        Some(ContractError::InvalidWeightsLength)
    } else {
        when(!owners.no_duplicates(), ContractError::DuplicateOwner)
    }
}

/// Why a wallet cannot be set up.
pub open spec fn initialize_refusal(
    s: LedgerView,
    owners: Seq<Address>,
    weights: Seq<u32>,
    threshold: u32,
) -> Option<ContractError> {
    or_else(
        setup_refusal(s, owners, weights),
        if exists|i: int| 0 <= i < weights.len() && !is_weight(#[trigger] weights[i]) {
            Some(ContractError::InvalidWeight)
        } else {
            when(
                threshold == 0 || threshold > weights_total(weights),
                ContractError::InvalidThreshold,
            )
        },
    )
}

/// What setting up a wallet changes: every owner before the first unfit weight
/// is asked, and if nothing stands against it the wallet has its owners.
pub open spec fn initialize_effect(
    v: EnvView,
    owners: Seq<Address>,
    weights: Seq<u32>,
    threshold: u32,
    time_lock_delay: u64,
) -> EnvView {
    if setup_refusal(v.ledger, owners, weights) is Some {
        v
    } else {
        let auths = v.auths + owners.take(valid_weights_from(weights, 0) as int);
        if initialize_refusal(v.ledger, owners, weights, threshold) is Some {
            EnvView { auths, ..v }
        } else {
            EnvView {
                auths,
                ledger: LedgerView {
                    initialized: true,
                    threshold: Some(threshold),
                    owners: Some(paired(owners, weights)),
                    total_weight: weights_total(weights) as u32,
                    max_single_owner_weight_pct: DEFAULT_MAX_SINGLE_OWNER_WEIGHT_PCT,
                    time_lock_delay,
                    ..v.ledger
                },
                ..v
            }
        }
    }
}

// ---------------------------------------------------------------------------
// New proposals
// ---------------------------------------------------------------------------
/// Why no proposal with this description and deadline can be filed.
pub open spec fn filing_refusal(
    s: LedgerView,
    now: u64,
    description: Seq<u8>,
    deadline: u64,
) -> Option<ContractError> {
    if description.len() == 0 {
        Some(ContractError::EmptyDescription)
    } else if description.len() > MAX_DESCRIPTION_LEN {
        Some(ContractError::DescriptionTooLong)
    } else if deadline <= now {
        Some(ContractError::InvalidDeadline)
    } else if deadline - now > MAX_PROPOSAL_DURATION {
        Some(ContractError::InvalidDuration)
    } else if active_proposals(s, now) >= MAX_ACTIVE_PROPOSALS {
        Some(ContractError::TooManyActiveProposals)
    } else if s.threshold is None {
        Some(ContractError::NotInitialized)
    } else {
        when(s.next_id == u64::MAX, ContractError::ArithmeticError)
    }
}

/// The proposal that is filed: nobody has approved it, and the threshold of
/// this moment is its quorum.
pub open spec fn new_proposal(
    s: LedgerView,
    proposer: Address,
    kind: KindView,
    description: Seq<u8>,
    deadline: u64,
    category: ProposalCategory,
) -> ProposalView {
    ProposalView {
        id: s.next_id,
        proposer,
        description,
        deadline,
        approvals: 0,
        status: ProposalStatus::Pending,
        kind,
        ready_at: 0,
        quorum_weight: s.threshold->0,
        category,
    }
}

/// The environment after a proposal was filed and announced.
pub open spec fn filed(
    v: EnvView,
    proposer: Address,
    kind: KindView,
    description: Seq<u8>,
    deadline: u64,
    category: ProposalCategory,
) -> EnvView {
    let s = v.ledger;
    let p = new_proposal(s, proposer, kind, description, deadline, category);
    EnvView {
        ledger: LedgerView {
            proposals: s.proposals.insert(s.next_id, p),
            next_id: (s.next_id + 1) as u64,
            active_count: (active_proposals(s, v.timestamp) + 1) as u32,
            ..s
        },
        events: v.events.push(
            EventView::ProposalCreated {
                id: s.next_id,
                proposer,
                threshold: s.threshold->0,
                category,
                transfers: kind.transfers(),
                quorum_weight: s.threshold->0,
                total_weight_at_creation: s.total_weight,
            },
        ),
        ..v
    }
}

/// What a request to file a proposal changes: the proposer is asked, and if
/// nothing stands against it the proposal is filed.
pub open spec fn filing_effect(
    v: EnvView,
    refusal: Option<ContractError>,
    proposer: Address,
    kind: KindView,
    description: Seq<u8>,
    deadline: u64,
    category: ProposalCategory,
) -> EnvView {
    if refusal is Some {
        asked(v, proposer)
    } else {
        filed(asked(v, proposer), proposer, kind, description, deadline, category)
    }
}

/// Whether a contract that answered so is a token: it must have answered all
/// three questions.
pub open spec fn is_token(reply: TokenReply) -> bool {
    reply.decimals && reply.symbol && reply.name
}

/// Whether the token of the payment at `i` was found to be one.
pub open spec fn token_found(token_replies: Seq<TokenReply>, i: int) -> bool {
    0 <= i < token_replies.len() && is_token(token_replies[i])
}

/// Why the payments of a list, from `i` on, cannot be proposed.
pub open spec fn transfers_refusal(
    transfers: Seq<Transfer>,
    token_replies: Seq<TokenReply>,
    contract: Address,
    i: int,
) -> Option<ContractError>
    decreases transfers.len() - i,
{
    if i < 0 || i >= transfers.len() {
        None
    } else if transfers[i].amount < MIN_AMOUNT {
        Some(ContractError::InvalidAmount)
    } else if !token_found(token_replies, i) {
        Some(ContractError::InvalidToken)
    } else if transfers[i].to == contract {
        Some(ContractError::InvalidRecipient)
    } else {
        transfers_refusal(transfers, token_replies, contract, i + 1)
    }
}

/// Why an owner may not propose to spend a total of a token.
pub open spec fn limit_refusal(
    s: LedgerView,
    now: u64,
    owner: Address,
    token: Address,
    total: int,
) -> Option<ContractError> {
    match limit_of(s, owner, token) {
        None => None,
        Some(limit) => {
            let cumulative = total + spent_by(s, now, owner, token);
            if !is_amount(cumulative) {
                Some(ContractError::ArithmeticError)
            } else {
                when(cumulative > limit, ContractError::SpendingLimitExceeded)
            }
        },
    }
}

/// Why an owner's limits stand against the payments of a list, looking at the
/// tokens from that of the payment at `i` on.
pub open spec fn limits_refusal(
    s: LedgerView,
    now: u64,
    owner: Address,
    transfers: Seq<Transfer>,
    i: int,
) -> Option<ContractError>
    decreases transfers.len() - i,
{
    if i < 0 || i >= transfers.len() {
        None
    } else {
        let token = transfers[i].token;
        or_else(
            limit_refusal(s, now, owner, token, token_total(transfers, token)),
            limits_refusal(s, now, owner, transfers, i + 1),
        )
    }
}

/// Why payments cannot be proposed, before what they add up to is looked at.
pub open spec fn payments_refusal(
    v: EnvView,
    proposer: Address,
    transfers: Seq<Transfer>,
    token_replies: Seq<TokenReply>,
) -> Option<ContractError> {
    or_else(
        actor_refusal(v.ledger, proposer),
        if transfers.len() == 0 || transfers.len() > MAX_TRANSFERS {
            Some(ContractError::InvalidAmount)
        } else {
            transfers_refusal(transfers, token_replies, v.contract, 0)
        },
    )
}

/// Why a transfer proposal cannot be filed.
pub open spec fn create_proposal_refusal(
    v: EnvView,
    proposer: Address,
    transfers: Seq<Transfer>,
    description: Seq<u8>,
    deadline: u64,
    token_replies: Seq<TokenReply>,
) -> Option<ContractError> {
    or_else(
        payments_refusal(v, proposer, transfers, token_replies),
        or_else(
            limits_refusal(v.ledger, v.timestamp, proposer, transfers, 0),
            filing_refusal(v.ledger, v.timestamp, description, deadline),
        ),
    )
}

/// For how many payments of a list, from `i` on, the token is asked: it is once
/// the amount was found good, and no further payment is looked at after one to
/// the wallet itself.
pub open spec fn queried_from(transfers: Seq<Transfer>, contract: Address, i: int) -> nat
    decreases transfers.len() - i,
{
    if i < 0 || i >= transfers.len() || transfers[i].amount < MIN_AMOUNT {
        0
    } else if transfers[i].to == contract {
        1
    } else {
        1 + queried_from(transfers, contract, i + 1)
    }
}

/// The tokens that are asked before payments are proposed.
pub open spec fn queried_tokens(v: EnvView, proposer: Address, transfers: Seq<Transfer>) -> Seq<
    Address,
> {
    if actor_refusal(v.ledger, proposer) is Some || transfers.len() == 0 || transfers.len()
        > MAX_TRANSFERS {
        Seq::empty()
    } else {
        Seq::new(queried_from(transfers, v.contract, 0), |i: int| transfers[i].token)
    }
}

/// Why a proposal to add an owner cannot be filed.
pub open spec fn create_add_owner_refusal(
    v: EnvView,
    proposer: Address,
    new_owner: Address,
    description: Seq<u8>,
    deadline: u64,
) -> Option<ContractError> {
    or_else(
        actor_refusal(v.ledger, proposer),
        if is_owner(v.ledger, new_owner) {
            Some(ContractError::DuplicateOwner)
        } else if owner_count(v.ledger) >= MAX_OWNERS {
            Some(ContractError::InvalidOwners)
        } else {
            filing_refusal(v.ledger, v.timestamp, description, deadline)
        },
    )
}

/// Why a proposal to set a spending limit cannot be filed.
pub open spec fn create_spending_limit_refusal(
    v: EnvView,
    proposer: Address,
    limit: i128,
    description: Seq<u8>,
    deadline: u64,
) -> Option<ContractError> {
    or_else(
        actor_refusal(v.ledger, proposer),
        if limit < 0 {
            Some(ContractError::InvalidAmount)
        } else {
            filing_refusal(v.ledger, v.timestamp, description, deadline)
        },
    )
}

/// Why a proposal to change an owner's weight cannot be filed.
pub open spec fn create_change_weight_refusal(
    v: EnvView,
    proposer: Address,
    target_owner: Address,
    new_weight: u32,
    description: Seq<u8>,
    deadline: u64,
) -> Option<ContractError> {
    or_else(
        actor_refusal(v.ledger, proposer),
        or_else(
            reweight_refusal(v.ledger, target_owner, new_weight),
            filing_refusal(v.ledger, v.timestamp, description, deadline),
        ),
    )
}

/// Why a proposal to remove an owner cannot be filed.
pub open spec fn create_remove_owner_refusal(
    v: EnvView,
    proposer: Address,
    owner_to_remove: Address,
    description: Seq<u8>,
    deadline: u64,
) -> Option<ContractError> {
    let s = v.ledger;
    or_else(
        actor_refusal(s, proposer),
        if s.threshold is None {
            Some(ContractError::NotInitialized)
        } else if !is_owner(s, owner_to_remove) {
            Some(ContractError::OwnerNotFound)
        } else if s.total_weight < weight_of(s, owner_to_remove) {
            Some(ContractError::ArithmeticError)
        } else if s.total_weight - weight_of(s, owner_to_remove) < s.threshold->0 {
            Some(ContractError::WouldBreakThreshold)
        } else {
            filing_refusal(s, v.timestamp, description, deadline)
        },
    )
}

/// Why a proposal to change the threshold cannot be filed.
pub open spec fn create_change_threshold_refusal(
    v: EnvView,
    proposer: Address,
    new_threshold: u32,
    description: Seq<u8>,
    deadline: u64,
) -> Option<ContractError> {
    or_else(
        actor_refusal(v.ledger, proposer),
        if new_threshold == 0 || new_threshold > v.ledger.total_weight {
            Some(ContractError::InvalidThreshold)
        } else {
            filing_refusal(v.ledger, v.timestamp, description, deadline)
        },
    )
}

// ---------------------------------------------------------------------------
// Votes
// ---------------------------------------------------------------------------
/// Why an owner cannot vote on a proposal.
pub open spec fn vote_refusal(v: EnvView, approver: Address, proposal_id: u64) -> Option<
    ContractError,
> {
    let s = v.ledger;
    or_else(
        owner_refusal(s, approver),
        if !s.proposals.contains_key(proposal_id) {
            Some(ContractError::ProposalNotFound)
        } else {
            when(
                !is_active(s.proposals[proposal_id], v.timestamp),
                ContractError::ProposalNotActive,
            )
        },
    )
}

/// Why an owner cannot approve a proposal.
pub open spec fn approve_refusal(v: EnvView, approver: Address, proposal_id: u64) -> Option<
    ContractError,
> {
    let s = v.ledger;
    or_else(
        vote_refusal(v, approver, proposal_id),
        if approved(s, proposal_id, approver) {
            Some(ContractError::AlreadyApproved)
        } else {
            when(
                s.proposals[proposal_id].approvals + weight_of(s, approver) > u32::MAX,
                ContractError::ArithmeticError,
            )
        },
    )
}

/// The proposal with another approving weight; reaching the quorum for the
/// first time is recorded.
pub open spec fn with_approvals(p: ProposalView, approvals: u32, now: u64) -> ProposalView {
    up_to_date(
        ProposalView {
            approvals,
            ready_at: if p.ready_at == 0 && approvals >= p.quorum_weight {
                now
            } else {
                p.ready_at
            },
            ..p
        },
        now,
    )
}

/// What a request to approve changes.
pub open spec fn approve_effect(v: EnvView, approver: Address, proposal_id: u64) -> EnvView {
    let s = v.ledger;
    let p = s.proposals[proposal_id];
    let approvals = (p.approvals + weight_of(s, approver)) as u32;
    if approve_refusal(v, approver, proposal_id) is Some {
        asked(v, approver)
    } else {
        told(
            EnvView {
                ledger: LedgerView {
                    proposals: s.proposals.insert(
                        proposal_id,
                        with_approvals(p, approvals, v.timestamp),
                    ),
                    approvals: s.approvals.insert(
                        ApprovalKey { proposal_id, owner: approver },
                        true,
                    ),
                    ..s
                },
                ..asked(v, approver)
            },
            EventView::ProposalApproved {
                id: proposal_id,
                approver,
                approvals,
                threshold: p.quorum_weight,
            },
        )
    }
}

/// Why an owner cannot take back an approval.
pub open spec fn revoke_refusal(v: EnvView, approver: Address, proposal_id: u64) -> Option<
    ContractError,
> {
    let s = v.ledger;
    or_else(
        vote_refusal(v, approver, proposal_id),
        if !approved(s, proposal_id, approver) {
            Some(ContractError::NotApproved)
        } else {
            when(
                s.proposals[proposal_id].approvals < weight_of(s, approver),
                ContractError::ArithmeticError,
            )
        },
    )
}

/// What a request to take back an approval changes.
pub open spec fn revoke_effect(v: EnvView, approver: Address, proposal_id: u64) -> EnvView {
    let s = v.ledger;
    let p = s.proposals[proposal_id];
    let approvals = (p.approvals - weight_of(s, approver)) as u32;
    if revoke_refusal(v, approver, proposal_id) is Some {
        asked(v, approver)
    } else {
        told(
            EnvView {
                ledger: LedgerView {
                    proposals: s.proposals.insert(
                        proposal_id,
                        up_to_date(ProposalView { approvals, ..p }, v.timestamp),
                    ),
                    approvals: s.approvals.insert(
                        ApprovalKey { proposal_id, owner: approver },
                        false,
                    ),
                    ..s
                },
                ..asked(v, approver)
            },
            EventView::ProposalRevoked { id: proposal_id, approver, approvals },
        )
    }
}

// ---------------------------------------------------------------------------
// Execution
// ---------------------------------------------------------------------------
/// Why a proposal cannot be carried out yet, whatever it would do.
pub open spec fn readiness_refusal(v: EnvView, executor: Address, proposal_id: u64) -> Option<
    ContractError,
> {
    let s = v.ledger;
    let p = s.proposals[proposal_id];
    or_else(
        actor_refusal(s, executor),
        if !s.proposals.contains_key(proposal_id) {
            Some(ContractError::ProposalNotFound)
        } else if derived_status(p, v.timestamp) == ProposalStatus::Expired {
            Some(ContractError::ProposalExpired)
        } else if derived_status(p, v.timestamp) != ProposalStatus::Ready {
            if p.approvals < p.quorum_weight {
                Some(ContractError::ThresholdNotMet)
            } else {
                Some(ContractError::ProposalNotActive)
            }
        } else {
            when(
                s.time_lock_delay > 0 && v.timestamp < later(p.ready_at, s.time_lock_delay),
                ContractError::TimeLockActive,
            )
        },
    )
}

/// Whether the payment at `i` was made.
pub open spec fn replied_well(replies: Seq<bool>, i: int) -> bool {
    0 <= i < replies.len() && replies[i]
}

/// Whether every payment of a list was made.
pub open spec fn all_paid(transfers: Seq<Transfer>, transfer_replies: Seq<bool>) -> bool {
    forall|i: int| 0 <= i < transfers.len() ==> #[trigger] replied_well(transfer_replies, i)
}

/// Whether some active proposal needs more than a total weight.
pub open spec fn breaks_quorum(s: LedgerView, now: u64, total: int) -> bool {
    exists|id: u64|
        1 <= id < s.next_id && #[trigger] active_id(s, now, id) && s.proposals[id].quorum_weight
            > total
}

/// Why what a proposal does cannot be done.
pub open spec fn enactment_refusal(
    s: LedgerView,
    now: u64,
    p: ProposalView,
    transfer_replies: Seq<bool>,
) -> Option<ContractError> {
    match p.kind {
        KindView::Transfer(transfers) => if !all_paid(transfers, transfer_replies) {
            Some(ContractError::TransferFailed)
        } else {
            when(!spends_fit(s, now, p.proposer, transfers), ContractError::ArithmeticError)
        },
        KindView::AddOwner(owner) => if is_owner(s, owner) {
            Some(ContractError::DuplicateOwner)
        } else if owner_count(s) >= MAX_OWNERS {
            Some(ContractError::InvalidOwners)
        } else {
            when(s.total_weight + MIN_OWNER_WEIGHT > u32::MAX, ContractError::ArithmeticError)
        },
        KindView::RemoveOwner(owner) => when(
            s.total_weight < weight_of(s, owner),
            ContractError::ArithmeticError,
        ),
        KindView::ChangeThreshold(_) => None,
        KindView::SetSpendingLimit(_, _, _) => None,
        KindView::ChangeOwnerWeight(target, new_weight) => or_else(
            reweight_refusal(s, target, new_weight),
            when(
                breaks_quorum(s, now, reweighted_total(s, target, new_weight)),
                ContractError::WouldBreakThreshold,
            ),
        ),
    }
}

/// The ledger after what a proposal does was done.
pub open spec fn enacted(s: LedgerView, now: u64, p: ProposalView) -> LedgerView {
    match p.kind {
        KindView::Transfer(transfers) => LedgerView {
            spent: spends_recorded(s, now, p.proposer, transfers),
            ..s
        },
        KindView::AddOwner(owner) => LedgerView {
            owners: Some(s.owners->0.insert(owner, MIN_OWNER_WEIGHT)),
            total_weight: (s.total_weight + MIN_OWNER_WEIGHT) as u32,
            ..s
        },
        KindView::RemoveOwner(owner) => LedgerView {
            owners: Some(s.owners->0.remove(owner)),
            total_weight: (s.total_weight - weight_of(s, owner)) as u32,
            ..s
        },
        KindView::ChangeThreshold(threshold) => LedgerView { threshold: Some(threshold), ..s },
        KindView::SetSpendingLimit(owner, token, limit) => LedgerView {
            spending_limits: s.spending_limits.insert(SpendingKey { owner, token }, limit),
            spent: s.spent.insert(
                SpendingKey { owner, token },
                SpentTracker { spent: 0, epoch: now },
            ),
            ..s
        },
        KindView::ChangeOwnerWeight(target, new_weight) => LedgerView {
            owners: Some(s.owners->0.insert(target, new_weight)),
            total_weight: reweighted_total(s, target, new_weight) as u32,
            ..s
        },
    }
}

/// What is told of the doing of a proposal, beside that it was executed.
pub open spec fn enactment_events(s: LedgerView, p: ProposalView) -> Seq<EventView> {
    match p.kind {
        KindView::AddOwner(new_owner) => seq![
            EventView::AddOwnerExecuted { new_owner, owner_count: (owner_count(s) + 1) as u32 },
        ],
        KindView::RemoveOwner(removed_owner) => seq![
            EventView::RemoveOwnerExecuted {
                removed_owner,
                owner_count: (owner_count(s) - 1) as u32,
            },
        ],
        KindView::ChangeThreshold(new_threshold) => seq![
            EventView::ChangeThresholdExecuted {
                previous_threshold: match s.threshold {
                    Some(threshold) => threshold,
                    None => 0,
                },
                new_threshold,
            },
        ],
        KindView::SetSpendingLimit(owner, token, new_limit) => seq![
            EventView::SetSpendingLimitExecuted {
                owner,
                token,
                previous_limit: limit_of(s, owner, token),
                new_limit,
            },
        ],
        _ => Seq::empty(),
    }
}

/// The ledger with a proposal marked as executed, and the number of proposals
/// that are still active noted.
pub open spec fn closed_out(s: LedgerView, now: u64, p: ProposalView) -> LedgerView {
    let done = LedgerView {
        proposals: s.proposals.insert(
            p.id,
            ProposalView { status: ProposalStatus::Executed, ..p },
        ),
        ..s
    };
    LedgerView { active_count: counted(active_proposals(done, now)), ..done }
}

/// Why a proposal cannot be executed.
pub open spec fn execute_refusal(
    v: EnvView,
    executor: Address,
    proposal_id: u64,
    transfer_replies: Seq<bool>,
) -> Option<ContractError> {
    or_else(
        readiness_refusal(v, executor, proposal_id),
        enactment_refusal(
            v.ledger,
            v.timestamp,
            v.ledger.proposals[proposal_id],
            transfer_replies,
        ),
    )
}

/// What a request to execute a proposal changes.
pub open spec fn execute_effect(
    v: EnvView,
    executor: Address,
    proposal_id: u64,
    transfer_replies: Seq<bool>,
) -> EnvView {
    let s = v.ledger;
    let p = s.proposals[proposal_id];
    if execute_refusal(v, executor, proposal_id, transfer_replies) is Some {
        asked(v, executor)
    } else {
        EnvView {
            ledger: closed_out(enacted(s, v.timestamp, p), v.timestamp, p),
            auths: v.auths.push(executor),
            events: (v.events + enactment_events(s, p)).push(
                EventView::ProposalExecuted {
                    id: proposal_id,
                    executor,
                    transfers: p.kind.transfers(),
                },
            ),
            ..v
        }
    }
}

/// Whether the proposal of an id is stored and has expired.
pub open spec fn expired_id(s: LedgerView, now: u64, id: u64) -> bool {
    s.proposals.contains_key(id) && derived_status(s.proposals[id], now) == ProposalStatus::Expired
}

/// How many entries of a list of ids name an expired proposal.
pub open spec fn expired_among(s: LedgerView, now: u64, ids: Seq<u64>) -> nat
    decreases ids.len(),
{
    if ids.len() == 0 {
        0
    } else {
        expired_among(s, now, ids.drop_last()) + if expired_id(s, now, ids.last()) {
            1nat
        } else {
            0
        }
    }
}

/// What a sweep of expired proposals changes: if it finds any, the number of
/// active proposals is noted afresh.
pub open spec fn cancel_expired_effect(v: EnvView, caller: Address, ids: Seq<u64>) -> EnvView {
    let s = v.ledger;
    if owner_refusal(s, caller) is Some || expired_among(s, v.timestamp, ids) == 0 {
        asked(v, caller)
    } else {
        EnvView {
            ledger: LedgerView { active_count: counted(active_proposals(s, v.timestamp)), ..s },
            ..asked(v, caller)
        }
    }
}

// ---------------------------------------------------------------------------
// Administration
// ---------------------------------------------------------------------------
/// The weight of the first `k` addresses of a list.
pub open spec fn weight_upto(s: LedgerView, approvers: Seq<Address>, k: int) -> nat
    decreases k,
{
    if k <= 0 {
        0
    } else {
        weight_upto(s, approvers, k - 1) + weight_of(s, approvers[k - 1]) as nat
    }
}

/// Why the address at `i` cannot be counted as a co-signer.
pub open spec fn cosigner_refusal(s: LedgerView, approvers: Seq<Address>, i: int) -> Option<
    ContractError,
> {
    or_else(
        owner_refusal(s, approvers[i]),
        when(weight_upto(s, approvers, i + 1) > u32::MAX, ContractError::ArithmeticError),
    )
}

/// Why the addresses of a list, from `i` on, cannot be counted.
pub open spec fn tally_refusal(s: LedgerView, approvers: Seq<Address>, i: int) -> Option<
    ContractError,
>
    decreases approvers.len() - i,
{
    if i < 0 || i >= approvers.len() {
        None
    } else {
        or_else(cosigner_refusal(s, approvers, i), tally_refusal(s, approvers, i + 1))
    }
}

/// How many addresses of a list, from `i` on, are asked: those up to the first
/// that cannot be counted.
pub open spec fn asked_from(s: LedgerView, approvers: Seq<Address>, i: int) -> nat
    decreases approvers.len() - i,
{
    if i < 0 || i >= approvers.len() {
        0
    } else if cosigner_refusal(s, approvers, i) is Some {
        1
    } else {
        1 + asked_from(s, approvers, i + 1)
    }
}

/// Why a list of co-signers is not counted at all.
pub open spec fn cosigning_refusal(s: LedgerView, approvers: Seq<Address>) -> Option<
    ContractError,
> {
    if !approvers.no_duplicates() {
        Some(ContractError::DuplicateOwner)
    } else {
        when(s.threshold is None, ContractError::NotInitialized)
    }
}

/// Why a list of co-signers cannot decide: they must be distinct owners whose
/// weights together reach the threshold.
pub open spec fn quorum_refusal(s: LedgerView, approvers: Seq<Address>) -> Option<ContractError> {
    or_else(
        cosigning_refusal(s, approvers),
        or_else(
            tally_refusal(s, approvers, 0),
            when(
                weight_upto(s, approvers, approvers.len() as int) < s.threshold->0,
                ContractError::ThresholdNotMet,
            ),
        ),
    )
}

/// The environment after the co-signers were asked.
pub open spec fn cosigners_asked(v: EnvView, approvers: Seq<Address>) -> EnvView {
    if cosigning_refusal(v.ledger, approvers) is Some {
        v
    } else {
        EnvView {
            auths: v.auths + approvers.take(asked_from(v.ledger, approvers, 0) as int),
            ..v
        }
    }
}

/// Why the largest share of one owner cannot be set.
pub open spec fn set_max_pct_refusal(
    s: LedgerView,
    approvers: Seq<Address>,
    max_pct: u32,
) -> Option<ContractError> {
    if max_pct == 0 || max_pct > MAX_SINGLE_OWNER_WEIGHT_PCT {
        Some(ContractError::InvalidWeight)
    } else {
        quorum_refusal(s, approvers)
    }
}

/// What setting the largest share of one owner changes.
pub open spec fn set_max_pct_effect(
    v: EnvView,
    approvers: Seq<Address>,
    max_pct: u32,
) -> EnvView {
    if max_pct == 0 || max_pct > MAX_SINGLE_OWNER_WEIGHT_PCT {
        v
    } else if quorum_refusal(v.ledger, approvers) is Some {
        cosigners_asked(v, approvers)
    } else {
        EnvView {
            ledger: LedgerView { max_single_owner_weight_pct: max_pct, ..v.ledger },
            ..cosigners_asked(v, approvers)
        }
    }
}

/// What naming a guardian changes.
pub open spec fn set_guardian_effect(
    v: EnvView,
    approvers: Seq<Address>,
    new_guardian: Address,
) -> EnvView {
    if quorum_refusal(v.ledger, approvers) is Some {
        cosigners_asked(v, approvers)
    } else {
        told(
            EnvView {
                ledger: LedgerView { guardian: Some(new_guardian), ..v.ledger },
                ..cosigners_asked(v, approvers)
            },
            EventView::GuardianSet { guardian: new_guardian },
        )
    }
}

/// Why an address cannot freeze the wallet.
pub open spec fn freeze_refusal(s: LedgerView, guardian: Address) -> Option<ContractError> {
    match s.guardian {
        None => Some(ContractError::NoGuardian),
        Some(stored) => when(stored != guardian, ContractError::Unauthorized),
    }
}

/// What a request to freeze the wallet changes.
pub open spec fn freeze_effect(v: EnvView, guardian: Address) -> EnvView {
    if freeze_refusal(v.ledger, guardian) is Some {
        asked(v, guardian)
    } else {
        told(
            EnvView {
                ledger: LedgerView { frozen: true, ..v.ledger },
                ..asked(v, guardian)
            },
            EventView::Frozen { guardian },
        )
    }
}

/// What a request to unfreeze the wallet changes.
pub open spec fn unfreeze_effect(v: EnvView, approvers: Seq<Address>) -> EnvView {
    if quorum_refusal(v.ledger, approvers) is Some {
        cosigners_asked(v, approvers)
    } else {
        told(
            EnvView {
                ledger: LedgerView { frozen: false, ..v.ledger },
                ..cosigners_asked(v, approvers)
            },
            EventView::Unfrozen { approvers },
        )
    }
}

/// What a request to replace the code of the wallet changes.
pub open spec fn upgrade_effect(
    v: EnvView,
    approvers: Seq<Address>,
    new_wasm_hash: [u8; 32],
) -> EnvView {
    if quorum_refusal(v.ledger, approvers) is Some {
        cosigners_asked(v, approvers)
    } else {
        told(
            EnvView { new_wasm: Some(new_wasm_hash), ..cosigners_asked(v, approvers) },
            EventView::UpgradeExecuted { caller: approvers[0], new_wasm_hash },
        )
    }
}

// ---------------------------------------------------------------------------
// Questions
// ---------------------------------------------------------------------------
/// The owners whose approval of a proposal stands.
pub open spec fn approvers_of(s: LedgerView, proposal_id: u64) -> Set<Address> {
    Set::new(|a: Address| is_owner(s, a) && approved(s, proposal_id, a))
}

/// What is left of an owner's spending limit for a token, if there is one.
pub open spec fn remaining_of(s: LedgerView, now: u64, owner: Address, token: Address) -> Option<
    i128,
> {
    match limit_of(s, owner, token) {
        None => None,
        Some(limit) => {
            let rest = limit - spent_by(s, now, owner, token);
            if rest > i128::MAX {
                Some(i128::MAX)
            } else if rest < i128::MIN {
                Some(i128::MIN)
            } else {
                Some(rest as i128)
            }
        },
    }
}

/// How many proposals were ever filed.
pub open spec fn proposals_filed(s: LedgerView) -> u64 {
    if s.next_id == 0 {
        0
    } else {
        (s.next_id - 1) as u64
    }
}

/// How many ids one page spans.
pub open spec fn page_size(limit: u32) -> u32 {
    if limit > MAX_PAGE {
        MAX_PAGE
    } else {
        limit
    }
}

/// The last id of a page.
pub open spec fn page_end(s: LedgerView, offset: u64, limit: u32) -> int {
    if offset + page_size(limit) < proposals_filed(s) {
        offset + page_size(limit)
    } else {
        proposals_filed(s) as int
    }
}

/// The stored proposals with ids from `start` to `end`, in order.
pub open spec fn page(s: LedgerView, now: u64, start: int, end: int) -> Seq<ProposalView>
    decreases end - start + 1,
{
    if end < start {
        Seq::empty()
    } else {
        let before = page(s, now, start, end - 1);
        if s.proposals.contains_key(end as u64) {
            before.push(up_to_date(s.proposals[end as u64], now))
        } else {
            before
        }
    }
}

} // verus!
