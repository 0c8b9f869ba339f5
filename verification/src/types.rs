//! The values that the wallet stores, receives and publishes, each with the
//! mathematical value that contracts speak of.

use vstd::prelude::*;

verus! {

/// The identity of an account or of a contract: its kind (0 for an account, 1
/// for a contract) and its 32 identifying bytes, as two big-endian halves.
///
/// Addresses are ordered by kind, then by those bytes.
#[derive(Clone, Copy, Debug, PartialEq, Eq, Hash, Structural)]
pub struct Address {
    pub kind: u32,
    pub hi: u128,
    pub lo: u128,
}

impl Address {
    /// The order of addresses: by kind, then by the identifying bytes.
    pub open spec fn precedes(self, other: Address) -> bool {
        ||| self.kind < other.kind
        ||| self.kind == other.kind && self.hi < other.hi
        ||| self.kind == other.kind && self.hi == other.hi && self.lo < other.lo
    }
}

/// Where a proposal stands.
#[derive(Clone, Copy, Debug, PartialEq, Eq, Structural)]
pub enum ProposalStatus {
    Pending,
    Ready,
    Executed,
    Expired,
    Revoked,
}

/// One payment of a transfer proposal.
#[derive(Clone, Copy, Debug, PartialEq, Eq, Structural)]
pub struct Transfer {
    pub to: Address,
    pub token: Address,
    pub amount: i128,
}

/// What a proposal does when it is executed.
#[derive(Clone, Debug, PartialEq, Eq)]
pub enum ProposalKind {
    /// Transfer(transfers)
    Transfer(Vec<Transfer>),
    /// AddOwner(new_owner)
    AddOwner(Address),
    /// RemoveOwner(owner_to_remove)
    RemoveOwner(Address),
    /// ChangeThreshold(new_threshold)
    ChangeThreshold(u32),
    /// SetSpendingLimit(owner, token, limit): a cap on what `owner` may propose
    /// for `token`. A limit of 0 blocks that token entirely.
    SetSpendingLimit(Address, Address, i128),
    /// ChangeOwnerWeight(target_owner, new_weight): a new voting weight for an
    /// existing owner. Zero is never valid: remove the owner instead.
    ChangeOwnerWeight(Address, u32),
}

/// What came of asking a token contract for its decimals, symbol and name:
/// whether each question was answered.
#[derive(Clone, Copy, Debug, PartialEq, Eq, Structural)]
pub struct TokenReply {
    pub decimals: bool,
    pub symbol: bool,
    pub name: bool,
}

/// What an owner has spent of a token in the window that began at `epoch`; an
/// `epoch` of 0 means that no window is open.
#[derive(Clone, Copy, Debug, PartialEq, Eq, Structural)]
pub struct SpentTracker {
    pub spent: i128,
    pub epoch: u64,
}

/// Under what an approval is stored: the proposal and the owner who approved.
#[derive(Clone, Copy, Debug, PartialEq, Eq, Structural)]
pub struct ApprovalKey {
    pub proposal_id: u64,
    pub owner: Address,
}

/// Under what a spending limit and a spent amount are stored: the owner who
/// spends and the token.
#[derive(Clone, Copy, Debug, PartialEq, Eq, Structural)]
pub struct SpendingKey {
    pub owner: Address,
    pub token: Address,
}

/// What a proposal is for, as its proposer filed it.
#[derive(Clone, Copy, Debug, PartialEq, Eq, Structural)]
pub enum ProposalCategory {
    Transfer,
    Payroll,
    Grant,
    Ops,
    Other,
}

/// A stored proposal.
#[derive(Clone, Debug, PartialEq, Eq)]
pub struct Proposal {
    pub id: u64,
    pub proposer: Address,
    /// The bytes of the description.
    pub description: Vec<u8>,
    pub deadline: u64,
    /// The approving weight gathered so far.
    pub approvals: u32,
    pub status: ProposalStatus,
    pub kind: ProposalKind,
    /// When the quorum was first reached, or 0.
    pub ready_at: u64,
    /// The approving weight needed, fixed when the proposal was created.
    pub quorum_weight: u32,
    pub category: ProposalCategory,
}

#[derive(Clone, Debug, PartialEq, Eq)]
pub struct ProposalCreatedEvent {
    pub id: u64,
    pub proposer: Address,
    pub threshold: u32,
    pub category: ProposalCategory,
    pub transfers: Vec<Transfer>,
    /// The weight that this proposal must gather to become `Ready`.
    pub quorum_weight: u32,
    /// The sum of all owner weights when this proposal was created.
    pub total_weight_at_creation: u32,
}

#[derive(Clone, Debug, PartialEq, Eq)]
pub struct ProposalApprovedEvent {
    pub id: u64,
    pub approver: Address,
    pub approvals: u32,
    pub threshold: u32,
}

#[derive(Clone, Debug, PartialEq, Eq)]
pub struct ProposalRevokedEvent {
    pub id: u64,
    pub approver: Address,
    pub approvals: u32,
}

#[derive(Clone, Debug, PartialEq, Eq)]
pub struct ProposalExecutedEvent {
    pub id: u64,
    pub executor: Address,
    pub transfers: Vec<Transfer>,
}

#[derive(Clone, Debug, PartialEq, Eq)]
pub struct GuardianSetEvent {
    pub guardian: Address,
}

#[derive(Clone, Debug, PartialEq, Eq)]
pub struct FrozenEvent {
    pub guardian: Address,
}

#[derive(Clone, Debug, PartialEq, Eq)]
pub struct UnfrozenEvent {
    pub approvers: Vec<Address>,
}

#[derive(Clone, Debug, PartialEq, Eq)]
pub struct UpgradeExecutedEvent {
    pub caller: Address,
    pub new_wasm_hash: [u8; 32],
}

#[derive(Clone, Debug, PartialEq, Eq)]
pub struct AddOwnerExecutedEvent {
    pub new_owner: Address,
    pub owner_count: u32,
}

#[derive(Clone, Debug, PartialEq, Eq)]
pub struct RemoveOwnerExecutedEvent {
    pub removed_owner: Address,
    pub owner_count: u32,
}

#[derive(Clone, Debug, PartialEq, Eq)]
pub struct ChangeThresholdExecutedEvent {
    pub previous_threshold: u32,
    pub new_threshold: u32,
}

#[derive(Clone, Debug, PartialEq, Eq)]
pub struct SetSpendingLimitExecutedEvent {
    pub owner: Address,
    pub token: Address,
    pub previous_limit: Option<i128>,
    pub new_limit: i128,
}

/// What the wallet tells the outside world.
#[derive(Clone, Debug, PartialEq, Eq)]
pub enum Event {
    ProposalCreated(ProposalCreatedEvent),
    ProposalApproved(ProposalApprovedEvent),
    ProposalRevoked(ProposalRevokedEvent),
    ProposalExecuted(ProposalExecutedEvent),
    GuardianSet(GuardianSetEvent),
    Frozen(FrozenEvent),
    Unfrozen(UnfrozenEvent),
    UpgradeExecuted(UpgradeExecutedEvent),
    AddOwnerExecuted(AddOwnerExecutedEvent),
    RemoveOwnerExecuted(RemoveOwnerExecutedEvent),
    ChangeThresholdExecuted(ChangeThresholdExecutedEvent),
    SetSpendingLimitExecuted(SetSpendingLimitExecutedEvent),
}

/// Why a request was refused.
#[derive(Clone, Copy, Debug, PartialEq, Eq, Structural)]
pub enum ContractError {
    AlreadyInitialized,
    NotInitialized,
    Unauthorized,
    InvalidThreshold,
    InvalidOwners,
    ProposalNotFound,
    ProposalNotActive,
    AlreadyApproved,
    NotApproved,
    ThresholdNotMet,
    ProposalExpired,
    InvalidAmount,
    InvalidDeadline,
    InvalidToken,
    TransferFailed,
    EmptyDescription,
    DescriptionTooLong,
    TooManyActiveProposals,
    DuplicateOwner,
    ArithmeticError,
    InvalidDuration,
    InvalidRecipient,
    TimeLockActive,
    WouldBreakThreshold,
    OwnerNotFound,
    ContractFrozen,
    NoGuardian,
    SpendingLimitExceeded,
    InvalidWeight,
    InvalidWeightsLength,
    SingleOwnerWeightCapExceeded,
}

impl ContractError {
    /// The number under which an error is known outside the wallet.
    pub open spec fn number(self) -> u32 {
        match self {
            ContractError::AlreadyInitialized => 1,
            ContractError::NotInitialized => 2,
            ContractError::Unauthorized => 3,
            ContractError::InvalidThreshold => 4,
            ContractError::InvalidOwners => 5,
            ContractError::ProposalNotFound => 6,
            ContractError::ProposalNotActive => 7,
            ContractError::AlreadyApproved => 8,
            ContractError::NotApproved => 9,
            ContractError::ThresholdNotMet => 10,
            ContractError::ProposalExpired => 11,
            ContractError::InvalidAmount => 12,
            ContractError::InvalidDeadline => 13,
            ContractError::InvalidToken => 14,
            ContractError::TransferFailed => 15,
            ContractError::EmptyDescription => 16,
            ContractError::DescriptionTooLong => 17,
            ContractError::TooManyActiveProposals => 18,
            ContractError::DuplicateOwner => 19,
            ContractError::ArithmeticError => 20,
            ContractError::InvalidDuration => 21,
            ContractError::InvalidRecipient => 22,
            ContractError::TimeLockActive => 23,
            ContractError::WouldBreakThreshold => 24,
            ContractError::OwnerNotFound => 25,
            ContractError::ContractFrozen => 26,
            ContractError::NoGuardian => 27,
            ContractError::SpendingLimitExceeded => 28,
            ContractError::InvalidWeight => 29,
            ContractError::InvalidWeightsLength => 30,
            ContractError::SingleOwnerWeightCapExceeded => 31,
        }
    }

    /// The number under which this error is known outside the wallet.
    pub fn code(self) -> (code: u32)
        ensures
            code == self.number(),
    {
        match self {
            ContractError::AlreadyInitialized => 1,
            ContractError::NotInitialized => 2,
            ContractError::Unauthorized => 3,
            ContractError::InvalidThreshold => 4,
            ContractError::InvalidOwners => 5,
            ContractError::ProposalNotFound => 6,
            ContractError::ProposalNotActive => 7,
            ContractError::AlreadyApproved => 8,
            ContractError::NotApproved => 9,
            ContractError::ThresholdNotMet => 10,
            ContractError::ProposalExpired => 11,
            ContractError::InvalidAmount => 12,
            ContractError::InvalidDeadline => 13,
            ContractError::InvalidToken => 14,
            ContractError::TransferFailed => 15,
            ContractError::EmptyDescription => 16,
            ContractError::DescriptionTooLong => 17,
            ContractError::TooManyActiveProposals => 18,
            ContractError::DuplicateOwner => 19,
            ContractError::ArithmeticError => 20,
            ContractError::InvalidDuration => 21,
            ContractError::InvalidRecipient => 22,
            ContractError::TimeLockActive => 23,
            ContractError::WouldBreakThreshold => 24,
            ContractError::OwnerNotFound => 25,
            ContractError::ContractFrozen => 26,
            ContractError::NoGuardian => 27,
            ContractError::SpendingLimitExceeded => 28,
            ContractError::InvalidWeight => 29,
            ContractError::InvalidWeightsLength => 30,
            ContractError::SingleOwnerWeightCapExceeded => 31,
        }
    }
}

/// The mathematical value of a [`ProposalKind`].
#[verifier::ext_equal]
pub enum KindView {
    Transfer(Seq<Transfer>),
    AddOwner(Address),
    RemoveOwner(Address),
    ChangeThreshold(u32),
    SetSpendingLimit(Address, Address, i128),
    ChangeOwnerWeight(Address, u32),
}

impl KindView {
    /// The payments of a transfer proposal; none for the other kinds.
    pub open spec fn transfers(self) -> Seq<Transfer> {
        match self {
            KindView::Transfer(transfers) => transfers,
            _ => Seq::empty(),
        }
    }
}

/// The mathematical value of a [`Proposal`].
#[verifier::ext_equal]
pub struct ProposalView {
    pub id: u64,
    pub proposer: Address,
    pub description: Seq<u8>,
    pub deadline: u64,
    pub approvals: u32,
    pub status: ProposalStatus,
    pub kind: KindView,
    pub ready_at: u64,
    pub quorum_weight: u32,
    pub category: ProposalCategory,
}

/// The mathematical value of an [`Event`].
#[verifier::ext_equal]
pub enum EventView {
    ProposalCreated {
        id: u64,
        proposer: Address,
        threshold: u32,
        category: ProposalCategory,
        transfers: Seq<Transfer>,
        quorum_weight: u32,
        total_weight_at_creation: u32,
    },
    ProposalApproved { id: u64, approver: Address, approvals: u32, threshold: u32 },
    ProposalRevoked { id: u64, approver: Address, approvals: u32 },
    ProposalExecuted { id: u64, executor: Address, transfers: Seq<Transfer> },
    GuardianSet { guardian: Address },
    Frozen { guardian: Address },
    Unfrozen { approvers: Seq<Address> },
    UpgradeExecuted { caller: Address, new_wasm_hash: [u8; 32] },
    AddOwnerExecuted { new_owner: Address, owner_count: u32 },
    RemoveOwnerExecuted { removed_owner: Address, owner_count: u32 },
    ChangeThresholdExecuted { previous_threshold: u32, new_threshold: u32 },
    SetSpendingLimitExecuted {
        owner: Address,
        token: Address,
        previous_limit: Option<i128>,
        new_limit: i128,
    },
}

impl EventView {
    /// The topic under which an event is published.
    pub open spec fn topic(self) -> Seq<char> {
        match self {
            EventView::ProposalCreated { .. } => "created"@,
            EventView::ProposalApproved { .. } => "approved"@,
            EventView::ProposalRevoked { .. } => "revoked"@,
            EventView::ProposalExecuted { .. } => "executed"@,
            EventView::GuardianSet { .. } => "guard_set"@,
            EventView::Frozen { .. } => "frozen"@,
            EventView::Unfrozen { .. } => "unfrozen"@,
            EventView::UpgradeExecuted { .. } => "upgraded"@,
            EventView::AddOwnerExecuted { .. } => "a_own"@,
            EventView::RemoveOwnerExecuted { .. } => "r_own"@,
            EventView::ChangeThresholdExecuted { .. } => "c_thr"@,
            EventView::SetSpendingLimitExecuted { .. } => "s_lim"@,
        }
    }
}

impl View for ProposalKind {
    type V = KindView;

    open spec fn view(&self) -> KindView {
        match *self {
            ProposalKind::Transfer(transfers) => KindView::Transfer(transfers@),
            ProposalKind::AddOwner(owner) => KindView::AddOwner(owner),
            ProposalKind::RemoveOwner(owner) => KindView::RemoveOwner(owner),
            ProposalKind::ChangeThreshold(threshold) => KindView::ChangeThreshold(threshold),
            ProposalKind::SetSpendingLimit(owner, token, limit) => KindView::SetSpendingLimit(
                owner,
                token,
                limit,
            ),
            ProposalKind::ChangeOwnerWeight(owner, weight) => KindView::ChangeOwnerWeight(
                owner,
                weight,
            ),
        }
    }
}

impl View for Proposal {
    type V = ProposalView;

    open spec fn view(&self) -> ProposalView {
        ProposalView {
            id: self.id,
            proposer: self.proposer,
            description: self.description@,
            deadline: self.deadline,
            approvals: self.approvals,
            status: self.status,
            kind: self.kind@,
            ready_at: self.ready_at,
            quorum_weight: self.quorum_weight,
            category: self.category,
        }
    }
}

impl View for Event {
    type V = EventView;

    open spec fn view(&self) -> EventView {
        match *self {
            Event::ProposalCreated(e) => EventView::ProposalCreated {
                id: e.id,
                proposer: e.proposer,
                threshold: e.threshold,
                category: e.category,
                transfers: e.transfers@,
                quorum_weight: e.quorum_weight,
                total_weight_at_creation: e.total_weight_at_creation,
            },
            Event::ProposalApproved(e) => EventView::ProposalApproved {
                id: e.id,
                approver: e.approver,
                approvals: e.approvals,
                threshold: e.threshold,
            },
            Event::ProposalRevoked(e) => EventView::ProposalRevoked {
                id: e.id,
                approver: e.approver,
                approvals: e.approvals,
            },
            Event::ProposalExecuted(e) => EventView::ProposalExecuted {
                id: e.id,
                executor: e.executor,
                transfers: e.transfers@,
            },
            Event::GuardianSet(e) => EventView::GuardianSet { guardian: e.guardian },
            Event::Frozen(e) => EventView::Frozen { guardian: e.guardian },
            Event::Unfrozen(e) => EventView::Unfrozen { approvers: e.approvers@ },
            Event::UpgradeExecuted(e) => EventView::UpgradeExecuted {
                caller: e.caller,
                new_wasm_hash: e.new_wasm_hash,
            },
            Event::AddOwnerExecuted(e) => EventView::AddOwnerExecuted {
                new_owner: e.new_owner,
                owner_count: e.owner_count,
            },
            Event::RemoveOwnerExecuted(e) => EventView::RemoveOwnerExecuted {
                removed_owner: e.removed_owner,
                owner_count: e.owner_count,
            },
            Event::ChangeThresholdExecuted(e) => EventView::ChangeThresholdExecuted {
                previous_threshold: e.previous_threshold,
                new_threshold: e.new_threshold,
            },
            Event::SetSpendingLimitExecuted(e) => EventView::SetSpendingLimitExecuted {
                owner: e.owner,
                token: e.token,
                previous_limit: e.previous_limit,
                new_limit: e.new_limit,
            },
        }
    }
}

impl Event {
    /// The topic under which this event is published.
    pub fn topic(&self) -> (topic: &'static str)
        ensures
            topic@ == self@.topic(),
    {
        match self {
            Event::ProposalCreated(_) => "created",
            Event::ProposalApproved(_) => "approved",
            Event::ProposalRevoked(_) => "revoked",
            Event::ProposalExecuted(_) => "executed",
            Event::GuardianSet(_) => "guard_set",
            Event::Frozen(_) => "frozen",
            Event::Unfrozen(_) => "unfrozen",
            Event::UpgradeExecuted(_) => "upgraded",
            Event::AddOwnerExecuted(_) => "a_own",
            Event::RemoveOwnerExecuted(_) => "r_own",
            Event::ChangeThresholdExecuted(_) => "c_thr",
            Event::SetSpendingLimitExecuted(_) => "s_lim",
        }
    }
}

/// A copy of a list of values.
pub fn duplicate<T: Copy>(list: &Vec<T>) -> (copy: Vec<T>)
    ensures
        copy@ == list@,
{
    let mut copy: Vec<T> = Vec::new();
    let mut i: usize = 0;
    while i < list.len()
        invariant
            i <= list.len(),
            copy@ == list@.take(i as int),
        decreases list.len() - i,
    {
        copy.push(list[i]);
        i = i + 1;
        assert(list@.take(i as int) =~= list@.take(i - 1).push(list@[i - 1]));
    }
    assert(list@.take(i as int) =~= list@);
    copy
}

impl ProposalKind {
    /// A copy with the same contents.
    pub fn duplicate(&self) -> (copy: ProposalKind)
        ensures
            copy@ == self@,
    {
        match self {
            ProposalKind::Transfer(transfers) => ProposalKind::Transfer(duplicate(transfers)),
            ProposalKind::AddOwner(owner) => ProposalKind::AddOwner(*owner),
            ProposalKind::RemoveOwner(owner) => ProposalKind::RemoveOwner(*owner),
            ProposalKind::ChangeThreshold(threshold) => ProposalKind::ChangeThreshold(*threshold),
            ProposalKind::SetSpendingLimit(owner, token, limit) => ProposalKind::SetSpendingLimit(
                *owner,
                *token,
                *limit,
            ),
            ProposalKind::ChangeOwnerWeight(owner, weight) => ProposalKind::ChangeOwnerWeight(
                *owner,
                *weight,
            ),
        }
    }

    /// The payments of a transfer proposal; none for the other kinds.
    pub fn transfers(&self) -> (transfers: Vec<Transfer>)
        ensures
            transfers@ == self@.transfers(),
    {
        match self {
            ProposalKind::Transfer(transfers) => duplicate(transfers),
            _ => Vec::new(),
        }
    }
}

impl Proposal {
    /// A copy with the same contents.
    pub fn duplicate(&self) -> (copy: Proposal)
        ensures
            copy@ == self@,
    {
        Proposal {
            id: self.id,
            proposer: self.proposer,
            description: duplicate(&self.description),
            deadline: self.deadline,
            approvals: self.approvals,
            status: self.status,
            kind: self.kind.duplicate(),
            ready_at: self.ready_at,
            quorum_weight: self.quorum_weight,
            category: self.category,
        }
    }
}

} // verus!
