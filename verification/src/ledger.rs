//! What the wallet stores, and the environment in which it answers one request.

use crate::owners::Owners;
use crate::rules;
use crate::table::Table;
use crate::types::{
    Address, ApprovalKey, ContractError, Event, EventView, Proposal, ProposalStatus, ProposalView,
    SpendingKey, SpentTracker,
};
use vstd::prelude::*;

verus! {

/// Everything the wallet stores.
pub struct Ledger {
    /// Whether the wallet was set up.
    pub initialized: bool,
    /// The weight that a decision needs.
    pub threshold: Option<u32>,
    /// The owners and their weights.
    pub owners: Option<Owners>,
    /// The sum of the owners' weights, kept up to date with them.
    pub total_weight: u32,
    /// The share of the total weight, in percent, that a weight change may give
    /// one owner.
    pub max_single_owner_weight_pct: u32,
    /// How long a ready proposal waits before it can be executed, in seconds.
    pub time_lock_delay: u64,
    /// The id of the next proposal.
    pub next_id: u64,
    /// The number of active proposals when one was last filed, executed or swept.
    pub active_count: u32,
    /// Who may freeze the wallet.
    pub guardian: Option<Address>,
    /// Whether new proposals and executions are blocked.
    pub frozen: bool,
    /// The proposals, by id.
    pub proposals: Table<u64, Proposal>,
    /// The approvals that were given and whether they still stand.
    pub approvals: Table<ApprovalKey, bool>,
    /// The spending limits.
    pub spending_limits: Table<SpendingKey, i128>,
    /// What was spent.
    pub spent: Table<SpendingKey, SpentTracker>,
}

/// The mathematical value of a [`Ledger`].
#[verifier::ext_equal]
pub struct LedgerView {
    pub initialized: bool,
    pub threshold: Option<u32>,
    pub owners: Option<Map<Address, u32>>,
    pub total_weight: u32,
    pub max_single_owner_weight_pct: u32,
    pub time_lock_delay: u64,
    pub next_id: u64,
    pub active_count: u32,
    pub guardian: Option<Address>,
    pub frozen: bool,
    pub proposals: Map<u64, ProposalView>,
    pub approvals: Map<ApprovalKey, bool>,
    pub spending_limits: Map<SpendingKey, i128>,
    pub spent: Map<SpendingKey, SpentTracker>,
}

/// The environment in which the wallet answers one request: what it reads and
/// writes, whose authorization it asks for, and what it tells.
///
/// The authorizations asked for and the events told are recorded in order. The
/// caller obtains the former, and publishes the latter, before the changes to
/// the ledger are kept.
pub struct Environment {
    /// Where the host's maps live.
    pub host: soroban_sdk::Env,
    /// The address of the wallet itself.
    pub contract: Address,
    /// The time of the request, in seconds.
    pub timestamp: u64,
    /// What the wallet stores.
    pub ledger: Ledger,
    /// Whose authorization was asked for.
    pub auths: Vec<Address>,
    /// What was told.
    pub events: Vec<Event>,
    /// The hash of the code that is to replace that of the wallet.
    pub new_wasm: Option<[u8; 32]>,
}

/// The mathematical value of an [`Environment`].
#[verifier::ext_equal]
pub struct EnvView {
    pub contract: Address,
    pub timestamp: u64,
    pub ledger: LedgerView,
    pub auths: Seq<Address>,
    pub events: Seq<EventView>,
    pub new_wasm: Option<[u8; 32]>,
}

impl View for Ledger {
    type V = LedgerView;

    open spec fn view(&self) -> LedgerView {
        LedgerView {
            initialized: self.initialized,
            threshold: self.threshold,
            owners: match self.owners {
                Some(owners) => Some(owners@),
                None => None,
            },
            total_weight: self.total_weight,
            max_single_owner_weight_pct: self.max_single_owner_weight_pct,
            time_lock_delay: self.time_lock_delay,
            next_id: self.next_id,
            active_count: self.active_count,
            guardian: self.guardian,
            frozen: self.frozen,
            proposals: self.proposals@.map_values(|p: Proposal| p@),
            approvals: self.approvals@,
            spending_limits: self.spending_limits@,
            spent: self.spent@,
        }
    }
}

impl View for Environment {
    type V = EnvView;

    open spec fn view(&self) -> EnvView {
        EnvView {
            contract: self.contract,
            timestamp: self.timestamp,
            ledger: self.ledger@,
            auths: self.auths@,
            events: self.events@.map_values(|e: Event| e@),
            new_wasm: self.new_wasm,
        }
    }
}

/// The status of a proposal at a time.
pub fn derive_status(proposal: &Proposal, now: u64) -> (status: ProposalStatus)
    ensures
        status == rules::derived_status(proposal@, now),
{
    if proposal.status == ProposalStatus::Executed || proposal.status == ProposalStatus::Revoked {
        return proposal.status;
    }
    if now > proposal.deadline {
        return ProposalStatus::Expired;
    }
    if proposal.approvals >= proposal.quorum_weight {
        ProposalStatus::Ready
    } else {
        ProposalStatus::Pending
    }
}

impl Ledger {
    /// The tables are sound, and every proposal is stored under its id.
    pub open spec fn wf(&self) -> bool {
        &&& self.owners matches Some(owners) ==> owners.wf()
        &&& self.proposals.wf()
        &&& self.approvals.wf()
        &&& self.spending_limits.wf()
        &&& self.spent.wf()
        &&& forall|id: u64| #[trigger]
            self.proposals@.contains_key(id) ==> self.proposals@[id].id == id
    }

    /// An empty ledger, as it is before the wallet is set up.
    pub fn new() -> (ledger: Ledger)
        ensures
            ledger.wf(),
            ledger@ == empty_ledger(),
    {
        let ledger: Ledger = Ledger {
            initialized: false,
            threshold: None,
            owners: None,
            total_weight: 0,
            max_single_owner_weight_pct: rules::DEFAULT_MAX_SINGLE_OWNER_WEIGHT_PCT,
            time_lock_delay: 0,
            next_id: 1,
            active_count: 0,
            guardian: None,
            frozen: false,
            proposals: Table::new(),
            approvals: Table::new(),
            spending_limits: Table::new(),
            spent: Table::new(),
        };
        assert(ledger@.proposals =~= Map::<u64, ProposalView>::empty());
        ledger
    }

    /// The weight of an owner, or why an address may not act as one.
    pub fn require_owner_and_weight(&self, address: Address) -> (weight: Result<
        u32,
        ContractError,
    >)
        requires
            self.wf(),
        ensures
            rules::answers(weight, rules::owner_refusal(self@, address)),
            weight matches Ok(w) ==> w == rules::weight_of(self@, address),
    {
        match &self.owners {
            None => Err(ContractError::NotInitialized),
            Some(owners) => match owners.get(address) {
                None => Err(ContractError::Unauthorized),
                Some(weight) => Ok(weight),
            },
        }
    }

    /// Refuses while the wallet is frozen.
    pub fn require_not_frozen(&self) -> (result: Result<(), ContractError>)
        ensures
            rules::answers(result, rules::when(self@.frozen, ContractError::ContractFrozen)),
    {
        if self.frozen {
            return Err(ContractError::ContractFrozen);
        }
        Ok(())
    }

    /// A stored proposal.
    pub fn read_proposal(&self, id: u64) -> (proposal: Result<Proposal, ContractError>)
        requires
            self.wf(),
        ensures
            rules::answers(
                proposal,
                rules::when(!self@.proposals.contains_key(id), ContractError::ProposalNotFound),
            ),
            proposal matches Ok(p) ==> p@ == self@.proposals[id] && p.id == id,
    {
        match self.proposals.get(id) {
            None => Err(ContractError::ProposalNotFound),
            Some(proposal) => {
                let copy: Proposal = proposal.duplicate();
                assert(copy@.id == proposal@.id);
                Ok(copy)
            },
        }
    }

    /// Stores a proposal under its id.
    pub fn write_proposal(&mut self, proposal: Proposal)
        requires
            old(self).wf(),
        ensures
            final(self).wf(),
            final(self)@ == (LedgerView {
                proposals: old(self)@.proposals.insert(proposal.id, proposal@),
                ..old(self)@
            }),
    {
        let ghost before = *self;
        let id: u64 = proposal.id;
        self.proposals.set(id, proposal);
        assert(self@.proposals =~= before@.proposals.insert(id, proposal@));
    }

    /// Whether an owner's approval of a proposal stands.
    pub fn read_approval(&self, proposal_id: u64, owner: Address) -> (stands: bool)
        requires
            self.wf(),
        ensures
            stands == rules::approved(self@, proposal_id, owner),
    {
        match self.approvals.get(ApprovalKey { proposal_id, owner }) {
            None => false,
            Some(stands) => *stands,
        }
    }

    /// Stores whether an owner's approval of a proposal stands.
    pub fn write_approval(&mut self, proposal_id: u64, owner: Address, stands: bool)
        requires
            old(self).wf(),
        ensures
            final(self).wf(),
            final(self)@ == (LedgerView {
                approvals: old(self)@.approvals.insert(ApprovalKey { proposal_id, owner }, stands),
                ..old(self)@
            }),
    {
        self.approvals.set(ApprovalKey { proposal_id, owner }, stands);
    }

    /// The spending limit of an owner for a token. `None` means that there is no
    /// limit.
    pub fn read_spending_limit(&self, owner: Address, token: Address) -> (limit: Option<i128>)
        requires
            self.wf(),
        ensures
            limit == rules::limit_of(self@, owner, token),
    {
        match self.spending_limits.get(SpendingKey { owner, token }) {
            None => None,
            Some(limit) => Some(*limit),
        }
    }

    /// Stores the spending limit of an owner for a token.
    pub fn write_spending_limit(&mut self, owner: Address, token: Address, limit: i128)
        requires
            old(self).wf(),
        ensures
            final(self).wf(),
            final(self)@ == (LedgerView {
                spending_limits: old(self)@.spending_limits.insert(
                    SpendingKey { owner, token },
                    limit,
                ),
                ..old(self)@
            }),
    {
        self.spending_limits.set(SpendingKey { owner, token }, limit);
    }

    /// What was recorded of an owner's spending of a token.
    pub fn read_spent_tracker(&self, owner: Address, token: Address) -> (tracker: SpentTracker)
        requires
            self.wf(),
        ensures
            tracker == rules::tracker_of(self@, owner, token),
    {
        match self.spent.get(SpendingKey { owner, token }) {
            None => SpentTracker { spent: 0, epoch: 0 },
            Some(tracker) => *tracker,
        }
    }

    /// Records an owner's spending of a token.
    pub fn write_spent_tracker(&mut self, owner: Address, token: Address, tracker: SpentTracker)
        requires
            old(self).wf(),
        ensures
            final(self).wf(),
            final(self)@ == (LedgerView {
                spent: old(self)@.spent.insert(SpendingKey { owner, token }, tracker),
                ..old(self)@
            }),
    {
        self.spent.set(SpendingKey { owner, token }, tracker);
    }

    /// What an owner has spent of a token in the window that is open, if one is.
    pub fn effective_spent(&self, now: u64, owner: Address, token: Address) -> (spent: i128)
        requires
            self.wf(),
        ensures
            spent == rules::spent_by(self@, now, owner, token),
    {
        let tracker: SpentTracker = self.read_spent_tracker(owner, token);
        if tracker.epoch == 0 {
            return 0;
        }
        if now > tracker.epoch.saturating_add(rules::SPENDING_WINDOW) {
            return 0;
        }
        tracker.spent
    }

    /// The number of active proposals, counted afresh: what has expired or was
    /// executed does not count.
    pub fn read_active_count(&self, now: u64) -> (active: u32)
        requires
            self.wf(),
        ensures
            active == rules::counted(rules::active_proposals(self@, now)),
    {
        let mut active: u32 = 0;
        let mut id: u64 = 1;
        while id < self.next_id
            invariant
                self.wf(),
                1 <= id,
                id <= self.next_id || id == 1,
                active == rules::counted(rules::active_before(self@, now, id as int)),
            decreases self.next_id - id,
        {
            if let Some(proposal) = self.proposals.get(id) {
                let status: ProposalStatus = derive_status(proposal, now);
                if status == ProposalStatus::Pending || status == ProposalStatus::Ready {
                    active = active.saturating_add(1);
                }
            }
            id = id + 1;
        }
        active
    }

    /// Whether a weight is at most the configured share of a total.
    pub fn owner_weight_within_cap(&self, owner_weight: u32, total_weight: u32) -> (within: bool)
        ensures
            within == rules::within_cap(self@, owner_weight as int, total_weight as int),
    {
        let pct: u32 = self.max_single_owner_weight_pct;
        assert(owner_weight as u64 * 100 <= u64::MAX) by (nonlinear_arith);
        assert(total_weight as u64 * pct as u64 <= u64::MAX) by (nonlinear_arith)
            requires
                total_weight <= u32::MAX,
                pct <= u32::MAX,
        ;
        (owner_weight as u64) * 100 <= (total_weight as u64) * (pct as u64)
    }

    /// The total weight after the weight of an owner became another, or why it
    /// may not.
    pub fn check_reweight(&self, target: Address, new_weight: u32) -> (total: Result<
        u32,
        ContractError,
    >)
        requires
            self.wf(),
            self.owners is Some,
        ensures
            rules::answers(total, rules::reweight_refusal(self@, target, new_weight)),
            total matches Ok(t) ==> t == rules::reweighted_total(self@, target, new_weight),
    {
        if new_weight < rules::MIN_OWNER_WEIGHT || new_weight > rules::MAX_OWNER_WEIGHT {
            return Err(ContractError::InvalidWeight);
        }
        let old_weight: u32 = match self.require_owner_and_weight(target) {
            Ok(weight) => weight,
            Err(_) => {
                return Err(ContractError::OwnerNotFound);
            },
        };
        let rest: u32 = match self.total_weight.checked_sub(old_weight) {
            Some(rest) => rest,
            None => {
                return Err(ContractError::ArithmeticError);
            },
        };
        let total: u32 = match rest.checked_add(new_weight) {
            Some(total) => total,
            None => {
                return Err(ContractError::ArithmeticError);
            },
        };
        if !self.owner_weight_within_cap(new_weight, total) {
            return Err(ContractError::SingleOwnerWeightCapExceeded);
        }
        Ok(total)
    }
}

/// The ledger before the wallet is set up.
pub open spec fn empty_ledger() -> LedgerView {
    LedgerView {
        initialized: false,
        threshold: None,
        owners: None,
        total_weight: 0,
        max_single_owner_weight_pct: rules::DEFAULT_MAX_SINGLE_OWNER_WEIGHT_PCT,
        time_lock_delay: 0,
        next_id: 1,
        active_count: 0,
        guardian: None,
        frozen: false,
        proposals: Map::empty(),
        approvals: Map::empty(),
        spending_limits: Map::empty(),
        spent: Map::empty(),
    }
}

impl Environment {
    /// The ledger is sound.
    pub open spec fn wf(&self) -> bool {
        self.ledger.wf()
    }

    /// An environment in which nothing was asked or told yet.
    pub fn new(host: soroban_sdk::Env, contract: Address, timestamp: u64, ledger: Ledger) -> (env:
        Environment)
        requires
            ledger.wf(),
        ensures
            env.wf(),
            env@ == (EnvView {
                contract,
                timestamp,
                ledger: ledger@,
                auths: Seq::empty(),
                events: Seq::empty(),
                new_wasm: None,
            }),
    {
        let env: Environment = Environment {
            host,
            contract,
            timestamp,
            ledger,
            auths: Vec::new(),
            events: Vec::new(),
            new_wasm: None,
        };
        assert(env@.events =~= Seq::<EventView>::empty());
        env
    }

    /// Asks for the authorization of an address.
    pub fn require_auth(&mut self, address: Address)
        requires
            old(self).wf(),
        ensures
            final(self).wf(),
            final(self)@ == rules::asked(old(self)@, address),
            final(self).ledger == old(self).ledger,
    {
        self.auths.push(address);
    }

    /// Publishes an event.
    pub fn publish(&mut self, event: Event)
        requires
            old(self).wf(),
        ensures
            final(self).wf(),
            final(self)@ == rules::told(old(self)@, event@),
            final(self).ledger == old(self).ledger,
    {
        let ghost before = *self;
        self.events.push(event);
        assert(self@.events =~= before@.events.push(event@));
    }
}

} // verus!
