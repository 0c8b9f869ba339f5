//! What the wallet does, request by request, with a bank of tokens around it.

use accord::AccordContract;
use accord::ledger::{Environment, Ledger};
use accord::types::{
    AddOwnerExecutedEvent, Address, ChangeThresholdExecutedEvent, ContractError, Event, Proposal,
    ProposalCategory, ProposalCreatedEvent, ProposalKind, ProposalStatus,
    RemoveOwnerExecutedEvent, SetSpendingLimitExecutedEvent, TokenReply, Transfer,
    UpgradeExecutedEvent,
};
use soroban_sdk::testutils::EnvTestConfig;
use std::cell::RefCell;
use std::collections::HashMap;
use std::rc::Rc;

const NOW: u64 = 1_000;
const DEADLINE: u64 = NOW + 86_400;

/// The time, the tokens and who holds how much of them.
struct State {
    host: soroban_sdk::Env,
    now: u64,
    named: u128,
    balances: HashMap<Address, HashMap<Address, i128>>,
}

#[derive(Clone)]
struct World(Rc<RefCell<State>>);

impl World {
    fn new() -> World {
        let host = soroban_sdk::Env::new_with_config(EnvTestConfig {
            capture_snapshot_at_drop: false,
        });
        World(Rc::new(RefCell::new(State {
            host,
            now: 0,
            named: 0,
            balances: HashMap::new(),
        })))
    }

    fn now(&self) -> u64 {
        self.0.borrow().now
    }

    /// An address that nobody else has. Successive ones do not ascend.
    fn named(&self, kind: u32) -> Address {
        let mut state = self.0.borrow_mut();
        state.named += 1;
        let lo = state.named;
        Address { kind, hi: lo.wrapping_mul(0x9E37_79B9_7F4A_7C15_F39C_C060_5CED_C835), lo }
    }

    fn wallet(&self) -> Address {
        self.named(1)
    }

    fn issue_token(&self) -> Address {
        let token = self.named(1);
        self.0.borrow_mut().balances.insert(token, HashMap::new());
        token
    }

    fn is_token(&self, token: &Address) -> bool {
        self.0.borrow().balances.contains_key(token)
    }

    fn balance(&self, token: &Address, holder: &Address) -> i128 {
        *self.0.borrow().balances[token].get(holder).unwrap_or(&0)
    }

    fn set_balance(&self, token: &Address, holder: &Address, amount: i128) {
        self.0.borrow_mut().balances.get_mut(token).unwrap().insert(*holder, amount);
    }

    /// Pays, unless the payer has not enough.
    fn pay(&self, from: &Address, transfer: &Transfer) -> bool {
        if !self.is_token(&transfer.token) || self.balance(&transfer.token, from) < transfer.amount
        {
            return false;
        }
        let rest = self.balance(&transfer.token, from) - transfer.amount;
        self.set_balance(&transfer.token, from, rest);
        let sum = self.balance(&transfer.token, &transfer.to) + transfer.amount;
        self.set_balance(&transfer.token, &transfer.to, sum);
        true
    }
}

struct Token {
    world: World,
    address: Address,
}

impl Token {
    fn new(world: &World, address: &Address) -> Token {
        Token { world: world.clone(), address: *address }
    }

    fn balance(&self, holder: &Address) -> i128 {
        self.world.balance(&self.address, holder)
    }

    fn mint(&self, to: &Address, amount: &i128) {
        let sum = self.balance(to) + amount;
        self.world.set_balance(&self.address, to, sum);
    }
}

/// A wallet, and what its last request told.
struct Client {
    world: World,
    address: Address,
    ledger: RefCell<Option<Ledger>>,
    told: RefCell<Vec<Event>>,
}

type Answer<T> = Result<T, ContractError>;

impl Client {
    fn new(world: &World, address: &Address) -> Client {
        Client {
            world: world.clone(),
            address: *address,
            ledger: RefCell::new(Some(Ledger::new())),
            told: RefCell::new(Vec::new()),
        }
    }

    fn call<T>(&self, request: impl FnOnce(&mut Environment) -> T) -> T {
        let ledger = self.ledger.borrow_mut().take().unwrap();
        let (host, now) = {
            let state = self.world.0.borrow();
            (state.host.clone(), state.now)
        };
        let mut env = Environment::new(host, self.address, now, ledger);
        let answer = request(&mut env);
        *self.told.borrow_mut() = env.events;
        *self.ledger.borrow_mut() = Some(env.ledger);
        answer
    }

    fn events(&self) -> Vec<Event> {
        self.told.borrow().clone()
    }

    fn event(&self, topic: &str) -> Option<Event> {
        self.events().into_iter().find(|event| event.topic() == topic)
    }

    fn store(&self, proposal: Proposal) {
        self.ledger.borrow_mut().as_mut().unwrap().write_proposal(proposal);
    }

    fn try_initialize(
        &self,
        owners: &Vec<Address>,
        weights: &Vec<u32>,
        threshold: &u32,
        delay: &u64,
    ) -> Answer<()> {
        self.call(|env| AccordContract::initialize(env, owners, weights, *threshold, *delay))
    }

    fn initialize(&self, owners: &Vec<Address>, weights: &Vec<u32>, threshold: &u32, delay: &u64) {
        self.try_initialize(owners, weights, threshold, delay).unwrap()
    }

    fn try_create_proposal(
        &self,
        proposer: &Address,
        transfers: &Vec<Transfer>,
        description: &Vec<u8>,
        deadline: &u64,
        category: &ProposalCategory,
    ) -> Answer<u64> {
        self.call(|env| {
            let replies: Vec<TokenReply> = AccordContract::tokens_to_ask(env, *proposer, transfers)
                .iter()
                .map(|token| {
                    let answers = self.world.is_token(token);
                    TokenReply { decimals: answers, symbol: answers, name: answers }
                })
                .collect();
            AccordContract::create_proposal(
                env,
                *proposer,
                transfers.clone(),
                description.clone(),
                *deadline,
                *category,
                &replies,
            )
        })
    }

    fn create_proposal(
        &self,
        proposer: &Address,
        transfers: &Vec<Transfer>,
        description: &Vec<u8>,
        deadline: &u64,
        category: &ProposalCategory,
    ) -> u64 {
        self.try_create_proposal(proposer, transfers, description, deadline, category).unwrap()
    }

    fn try_create_add_owner_proposal(
        &self,
        proposer: &Address,
        new_owner: &Address,
        description: &Vec<u8>,
        deadline: &u64,
    ) -> Answer<u64> {
        self.call(|env| {
            AccordContract::create_add_owner_proposal(
                env,
                *proposer,
                *new_owner,
                description.clone(),
                *deadline,
            )
        })
    }

    fn create_add_owner_proposal(
        &self,
        proposer: &Address,
        new_owner: &Address,
        description: &Vec<u8>,
        deadline: &u64,
    ) -> u64 {
        self.try_create_add_owner_proposal(proposer, new_owner, description, deadline).unwrap()
    }

    fn create_spending_limit_proposal(
        &self,
        proposer: &Address,
        owner: &Address,
        token: &Address,
        limit: &i128,
        description: &Vec<u8>,
        deadline: &u64,
    ) -> u64 {
        self.call(|env| {
            AccordContract::create_spending_limit_proposal(
                env,
                *proposer,
                *owner,
                *token,
                *limit,
                description.clone(),
                *deadline,
            )
        })
        .unwrap()
    }

    fn try_create_change_weight_proposal(
        &self,
        proposer: &Address,
        target_owner: &Address,
        new_weight: &u32,
        description: &Vec<u8>,
        deadline: &u64,
    ) -> Answer<u64> {
        self.call(|env| {
            AccordContract::create_change_weight_proposal(
                env,
                *proposer,
                *target_owner,
                *new_weight,
                description.clone(),
                *deadline,
            )
        })
    }

    fn create_change_weight_proposal(
        &self,
        proposer: &Address,
        target_owner: &Address,
        new_weight: &u32,
        description: &Vec<u8>,
        deadline: &u64,
    ) -> u64 {
        self.try_create_change_weight_proposal(
            proposer,
            target_owner,
            new_weight,
            description,
            deadline,
        )
        .unwrap()
    }

    fn try_create_remove_owner_proposal(
        &self,
        proposer: &Address,
        owner_to_remove: &Address,
        description: &Vec<u8>,
        deadline: &u64,
    ) -> Answer<u64> {
        self.call(|env| {
            AccordContract::create_remove_owner_proposal(
                env,
                *proposer,
                *owner_to_remove,
                description.clone(),
                *deadline,
            )
        })
    }

    fn create_remove_owner_proposal(
        &self,
        proposer: &Address,
        owner_to_remove: &Address,
        description: &Vec<u8>,
        deadline: &u64,
    ) -> u64 {
        self.try_create_remove_owner_proposal(proposer, owner_to_remove, description, deadline)
            .unwrap()
    }

    fn try_create_change_threshold_proposal(
        &self,
        proposer: &Address,
        new_threshold: &u32,
        description: &Vec<u8>,
        deadline: &u64,
    ) -> Answer<u64> {
        self.call(|env| {
            AccordContract::create_change_threshold_proposal(
                env,
                *proposer,
                *new_threshold,
                description.clone(),
                *deadline,
            )
        })
    }

    fn create_change_threshold_proposal(
        &self,
        proposer: &Address,
        new_threshold: &u32,
        description: &Vec<u8>,
        deadline: &u64,
    ) -> u64 {
        self.try_create_change_threshold_proposal(proposer, new_threshold, description, deadline)
            .unwrap()
    }

    fn try_approve(&self, approver: &Address, id: &u64) -> Answer<()> {
        self.call(|env| AccordContract::approve(env, *approver, *id))
    }

    fn approve(&self, approver: &Address, id: &u64) {
        self.try_approve(approver, id).unwrap()
    }

    fn try_revoke(&self, approver: &Address, id: &u64) -> Answer<()> {
        self.call(|env| AccordContract::revoke(env, *approver, *id))
    }

    fn revoke(&self, approver: &Address, id: &u64) {
        self.try_revoke(approver, id).unwrap()
    }

    /// Makes the payments that are due and executes; if that is refused, the
    /// payments are undone.
    fn try_execute(&self, executor: &Address, id: &u64) -> Answer<()> {
        self.call(|env| {
            let saved = self.world.0.borrow().balances.clone();
            let mut replies: Vec<bool> = Vec::new();
            if let Ok(transfers) = AccordContract::transfers_due(env, *executor, *id) {
                for transfer in transfers.iter() {
                    replies.push(self.world.pay(&self.address, transfer));
                }
            }
            let answer = AccordContract::execute(env, *executor, *id, &replies);
            if answer.is_err() {
                self.world.0.borrow_mut().balances = saved;
            }
            answer
        })
    }

    fn execute(&self, executor: &Address, id: &u64) {
        self.try_execute(executor, id).unwrap()
    }

    fn try_cancel_expired(&self, caller: &Address, ids: &Vec<u64>) -> Answer<u32> {
        self.call(|env| AccordContract::cancel_expired(env, *caller, ids))
    }

    fn cancel_expired(&self, caller: &Address, ids: &Vec<u64>) -> u32 {
        self.try_cancel_expired(caller, ids).unwrap()
    }

    fn try_set_max_single_owner_weight_pct(&self, approvers: &Vec<Address>, pct: &u32) -> Answer<()> {
        self.call(|env| AccordContract::set_max_single_owner_weight_pct(env, approvers, *pct))
    }

    fn set_max_single_owner_weight_pct(&self, approvers: &Vec<Address>, pct: &u32) {
        self.try_set_max_single_owner_weight_pct(approvers, pct).unwrap()
    }

    fn set_guardian(&self, approvers: &Vec<Address>, guardian: &Address) {
        self.call(|env| AccordContract::set_guardian(env, approvers, *guardian)).unwrap()
    }

    fn try_upgrade(&self, approvers: &Vec<Address>, hash: &[u8; 32]) -> Answer<()> {
        self.call(|env| AccordContract::upgrade(env, approvers, *hash))
    }

    fn upgrade(&self, approvers: &Vec<Address>, hash: &[u8; 32]) {
        self.try_upgrade(approvers, hash).unwrap()
    }

    fn try_get_approvers(&self, id: &u64) -> Answer<Vec<Address>> {
        self.call(|env| AccordContract::get_approvers(env, *id))
    }

    fn get_approvers(&self, id: &u64) -> Vec<Address> {
        self.try_get_approvers(id).unwrap()
    }

    fn get_version(&self) -> u32 {
        self.call(|env| AccordContract::get_version(env))
    }

    fn get_total_weight(&self) -> u32 {
        self.call(|env| AccordContract::get_total_weight(env))
    }

    fn get_owner_weight(&self, owner: &Address) -> u32 {
        self.call(|env| AccordContract::get_owner_weight(env, *owner)).unwrap()
    }

    fn get_max_single_owner_weight_pct(&self) -> u32 {
        self.call(|env| AccordContract::get_max_single_owner_weight_pct(env))
    }

    fn get_proposal(&self, id: &u64) -> Proposal {
        self.call(|env| AccordContract::get_proposal(env, *id)).unwrap()
    }

    fn try_get_proposal_approval_progress(&self, id: &u64) -> Answer<(u32, u32, u32)> {
        self.call(|env| AccordContract::get_proposal_approval_progress(env, *id))
    }

    fn get_proposal_approval_progress(&self, id: &u64) -> (u32, u32, u32) {
        self.try_get_proposal_approval_progress(id).unwrap()
    }

    fn get_proposals_paged(&self, offset: &u64, limit: &u32) -> Vec<Proposal> {
        self.call(|env| AccordContract::get_proposals_paged(env, *offset, *limit))
    }

    fn get_owners(&self) -> Vec<Address> {
        self.call(|env| AccordContract::get_owners(env)).unwrap()
    }

    fn get_spending_limit(&self, owner: &Address, token: &Address) -> Option<i128> {
        self.call(|env| AccordContract::get_spending_limit(env, *owner, *token))
    }

    fn get_remaining_spending_limit(&self, owner: &Address, token: &Address) -> Option<i128> {
        self.call(|env| AccordContract::get_remaining_spending_limit(env, *owner, *token))
    }

    fn get_threshold(&self) -> u32 {
        self.call(|env| AccordContract::get_threshold(env)).unwrap()
    }

    fn get_time_lock_delay(&self) -> u64 {
        self.call(|env| AccordContract::get_time_lock_delay(env))
    }

    fn get_total_proposals(&self) -> u64 {
        self.call(|env| AccordContract::get_total_proposals(env))
    }

    fn is_owner(&self, address: &Address) -> bool {
        self.call(|env| AccordContract::is_owner(env, *address))
    }

    fn has_approved(&self, id: &u64, owner: &Address) -> bool {
        self.call(|env| AccordContract::has_approved(env, *id, *owner))
    }

    fn get_required_quorum_weight(&self) -> u32 {
        self.call(|env| AccordContract::get_required_quorum_weight(env))
    }
}

fn set_timestamp(world: &World, time: u64) {
    world.0.borrow_mut().now = time;
}

fn someone(world: &World) -> Address {
    world.named(0)
}

fn text(s: &str) -> Vec<u8> {
    s.as_bytes().to_vec()
}

fn t(to: &Address, amount: i128, token: &Address) -> Vec<Transfer> {
    vec![Transfer { to: *to, token: *token, amount }]
}

/// A wallet of three owners of weight 1 with a funded token and no time-lock,
/// and someone who is no owner.
fn setup(threshold: u32) -> (World, Client, Address, Address, Address, Address, Token) {
    setup_with_timelock(threshold, 0)
}

fn setup_with_timelock(
    threshold: u32,
    time_lock_delay: u64,
) -> (World, Client, Address, Address, Address, Address, Token) {
    let env = World::new();
    set_timestamp(&env, NOW);

    let owner_a = someone(&env);
    let owner_b = someone(&env);
    let owner_c = someone(&env);
    let non_owner = someone(&env);

    let token_id = env.issue_token();
    let token_client = Token::new(&env, &token_id);

    let contract_id = env.wallet();
    let client = Client::new(&env, &contract_id);
    let owners = vec![owner_a, owner_b, owner_c];
    client.initialize(&owners, &vec![1, 1, 1], &threshold, &time_lock_delay);

    token_client.mint(&contract_id, &1_000_000_000_000_i128);

    (env, client, owner_a, owner_b, owner_c, non_owner, token_client)
}

#[test]
fn initialize_sets_owners_and_threshold() {
    let (_, client, owner_a, owner_b, owner_c, _, _) = setup(2);
    let owners = client.get_owners();
    assert_eq!(owners.len(), 3);
    assert!(owners.contains(&owner_a));
    assert!(owners.contains(&owner_b));
    assert!(owners.contains(&owner_c));
    assert_eq!(client.get_threshold(), 2);
}

#[test]
fn initialize_accepts_maximum_owners() {
    let env = World::new();
    let contract_id = env.wallet();
    let client = Client::new(&env, &contract_id);

    // Generate exactly 20 unique addresses (MAX_OWNERS)
    let mut owners = Vec::new();
    for _ in 0..20 {
        owners.push(someone(&env));
    }

    // Initialize should succeed
    let mut weights = Vec::new();
    for _ in 0..owners.len() {
        weights.push(1);
    }
    client.initialize(&owners, &weights, &1, &0);

    // Verify all 20 owners were stored
    let stored_owners = client.get_owners();
    assert_eq!(stored_owners.len(), 20);
}

#[test]
fn initialize_rejects_second_call() {
    let (_, client, owner_a, owner_b, owner_c, _, _) = setup(2);
    let mut owners = Vec::new();
    owners.push(owner_a);
    owners.push(owner_b);
    owners.push(owner_c);
    let mut weights = Vec::new();
    for _ in 0..owners.len() {
        weights.push(1);
    }
    assert_eq!(
        client.try_initialize(&owners, &weights, &2, &0),
        Err(ContractError::AlreadyInitialized)
    );
}

#[test]
fn initialize_rejects_threshold_zero() {
    let env = World::new();
    let contract_id = env.wallet();
    let client = Client::new(&env, &contract_id);
    let mut owners = Vec::new();
    owners.push(someone(&env));
    let mut weights = Vec::new();
    for _ in 0..owners.len() {
        weights.push(1);
    }
    assert_eq!(
        client.try_initialize(&owners, &weights, &0, &0),
        Err(ContractError::InvalidThreshold)
    );
}

#[test]
fn initialize_rejects_threshold_above_count() {
    let env = World::new();
    let contract_id = env.wallet();
    let client = Client::new(&env, &contract_id);
    let mut owners = Vec::new();
    owners.push(someone(&env));
    let mut weights = Vec::new();
    for _ in 0..owners.len() {
        weights.push(1);
    }
    assert_eq!(
        client.try_initialize(&owners, &weights, &2, &0),
        Err(ContractError::InvalidThreshold)
    );
}

/// The threshold is an absolute weight value, not a count of owners. Validate
/// that initialize rejects a threshold that exceeds the sum of all owner weights
/// even when there are enough owners to satisfy a count-based check.
///
/// Setup: 3 owners each with weight 2 -> total_weight = 6.
/// A threshold of 7 must be rejected because 7 > 6, even though 7 <= MAX_OWNERS.
#[test]
fn initialize_rejects_threshold_above_total_weight() {
    let env = World::new();
    set_timestamp(&env, NOW);
    let contract_id = env.wallet();
    let client = Client::new(&env, &contract_id);

    let mut owners = Vec::new();
    owners.push(someone(&env));
    owners.push(someone(&env));
    owners.push(someone(&env));
    // Each weight = 2, total_weight = 6.
    let mut weights = Vec::new();
    weights.push(2_u32);
    weights.push(2_u32);
    weights.push(2_u32);

    // threshold 7 > total_weight 6 - must be rejected.
    assert_eq!(
        client.try_initialize(&owners, &weights, &7, &0),
        Err(ContractError::InvalidThreshold)
    );

    // threshold 6 == total_weight 6 - must be accepted (unanimity).
    client.initialize(&owners, &weights, &6, &0);
    assert_eq!(client.get_threshold(), 6);
}

/// Adding a new owner increases total_weight but does NOT automatically change
/// the threshold. A proposal created before the addition and one created after
/// must both carry the same quorum_weight (the unchanged threshold), confirming
/// the absolute-weight model is not percentage-based.
#[test]
fn quorum_weight_unchanged_when_owner_added() {
    let (env, client, owner_a, owner_b, owner_c, non_owner, token_client) = setup(2);

    // threshold = 2, total_weight = 3 (3 owners x weight 1).
    assert_eq!(client.get_threshold(), 2);
    assert_eq!(client.get_total_weight(), 3);

    let id_before = client.create_proposal(
        &owner_a,
        &t(&someone(&env), 1_000_000, &token_client.address),
        &text("Before add"),
        &DEADLINE,
        &ProposalCategory::Transfer,
    );
    assert_eq!(client.get_proposal(&id_before).quorum_weight, 2);

    // Propose and execute adding non_owner as a fourth owner (weight 1).
    let add_id = client.create_add_owner_proposal(
        &owner_a,
        &non_owner,
        &text("Add fourth owner"),
        &DEADLINE,
    );
    client.approve(&owner_a, &add_id);
    client.approve(&owner_b, &add_id);
    client.execute(&owner_c, &add_id);

    // total_weight is now 4, but threshold is still 2.
    assert_eq!(client.get_total_weight(), 4);
    assert_eq!(client.get_threshold(), 2);

    let id_after = client.create_proposal(
        &owner_a,
        &t(&someone(&env), 1_000_000, &token_client.address),
        &text("After add"),
        &DEADLINE,
        &ProposalCategory::Transfer,
    );
    // quorum_weight must be the same on both proposals - threshold did not change.
    assert_eq!(client.get_proposal(&id_after).quorum_weight, 2);
    assert_eq!(
        client.get_proposal(&id_before).quorum_weight,
        client.get_proposal(&id_after).quorum_weight,
    );
}

/// Removing an owner reduces total_weight. If the remaining weight would drop
/// below the current threshold, the removal proposal must be rejected.
/// If it stays >= threshold, it must be accepted.
#[test]
fn remove_owner_rejected_when_remaining_weight_below_threshold() {
    // 3 owners: A weight 3, B weight 1, C weight 1 -> total_weight = 5, threshold = 4.
    let env = World::new();
    set_timestamp(&env, NOW);

    let owner_a = someone(&env);
    let owner_b = someone(&env);
    let owner_c = someone(&env);

    let token_id = env.issue_token();
    let token_sac = Token::new(&env, &token_id);
    let contract_id = env.wallet();
    let client = Client::new(&env, &contract_id);

    let mut owners = Vec::new();
    owners.push(owner_a);
    owners.push(owner_b);
    owners.push(owner_c);
    let mut weights = Vec::new();
    weights.push(3_u32);
    weights.push(1_u32);
    weights.push(1_u32);
    // threshold = 4; total_weight = 5.
    client.initialize(&owners, &weights, &4, &0);
    token_sac.mint(&contract_id, &1_000_000_000_000_i128);

    // Removing owner_a (weight 3) would leave total_weight = 2, which is < threshold 4.
    assert_eq!(
        client.try_create_remove_owner_proposal(
            &owner_b,
            &owner_a,
            &text("Remove heavy owner"),
            &DEADLINE,
        ),
        Err(ContractError::WouldBreakThreshold)
    );

    // Removing owner_c (weight 1) would leave total_weight = 4 == threshold 4 - allowed.
    let remove_id = client.create_remove_owner_proposal(
        &owner_a,
        &owner_c,
        &text("Remove light owner"),
        &DEADLINE,
    );
    assert!(remove_id > 0);
}

/// A change-threshold proposal must be rejected if the new threshold would
/// exceed the current total_weight, and accepted when it is within range.
#[test]
fn change_threshold_proposal_validates_against_total_weight() {
    // 3 owners each weight 1 -> total_weight = 3, threshold = 2.
    let (env, client, owner_a, owner_b, owner_c, _, token_client) = setup(2);

    // Proposing a threshold of 4 > total_weight 3 must fail.
    assert_eq!(
        client.try_create_change_threshold_proposal(
            &owner_a,
            &4,
            &text("Too high"),
            &DEADLINE,
        ),
        Err(ContractError::InvalidThreshold)
    );

    // Proposing a threshold equal to total_weight (unanimity) must succeed.
    let change_id = client.create_change_threshold_proposal(
        &owner_a,
        &3,
        &text("Unanimity"),
        &DEADLINE,
    );
    client.approve(&owner_a, &change_id);
    client.approve(&owner_b, &change_id);
    client.execute(&owner_c, &change_id);
    assert_eq!(client.get_threshold(), 3);

    // A proposal created after the change must carry the new quorum_weight.
    let id = client.create_proposal(
        &owner_a,
        &t(&someone(&env), 1_000_000, &token_client.address),
        &text("After threshold change"),
        &DEADLINE,
        &ProposalCategory::Transfer,
    );
    assert_eq!(client.get_proposal(&id).quorum_weight, 3);
}

#[test]
fn initialize_rejects_duplicate_owners() {
    let env = World::new();
    let contract_id = env.wallet();
    let client = Client::new(&env, &contract_id);
    let dup = someone(&env);
    let mut owners = Vec::new();
    owners.push(dup);
    owners.push(dup);
    let mut weights = Vec::new();
    for _ in 0..owners.len() {
        weights.push(1);
    }
    assert_eq!(
        client.try_initialize(&owners, &weights, &1, &0),
        Err(ContractError::DuplicateOwner)
    );
}

#[test]
fn initialize_stores_time_lock_delay() {
    let (_, client, _, _, _, _, _) = setup_with_timelock(2, 7200);
    assert_eq!(client.get_time_lock_delay(), 7200);
}

#[test]
fn create_proposal_returns_sequential_ids() {
    let (env, client, owner_a, _, _, _, token_client) = setup(2);
    let id1 = client.create_proposal(
        &owner_a,
        &t(&someone(&env), 1_000_000, &token_client.address),
        &text("First"),
        &DEADLINE,
        &ProposalCategory::Transfer,
    );
    let id2 = client.create_proposal(
        &owner_a,
        &t(&someone(&env), 2_000_000, &token_client.address),
        &text("Second"),
        &DEADLINE,
        &ProposalCategory::Transfer,
    );
    assert_eq!(id1, 1);
    assert_eq!(id2, 2);
    assert_eq!(client.get_total_proposals(), 2);
}

#[test]
fn create_proposal_rejects_non_owner() {
    let (env, client, _, _, _, non_owner, token_client) = setup(2);
    assert_eq!(
        client.try_create_proposal(
            &non_owner,
            &t(&someone(&env), 1_000_000, &token_client.address),
            &text("Unauthorized"),
            &DEADLINE,
            &ProposalCategory::Transfer,
        ),
        Err(ContractError::Unauthorized)
    );
}

#[test]
fn create_proposal_rejects_zero_amount() {
    let (env, client, owner_a, _, _, _, token_client) = setup(2);
    assert_eq!(
        client.try_create_proposal(
            &owner_a,
            &t(&someone(&env), 0, &token_client.address),
            &text("Zero"),
            &DEADLINE,
            &ProposalCategory::Transfer,
        ),
        Err(ContractError::InvalidAmount)
    );
}

#[test]
fn create_proposal_rejects_past_deadline() {
    let (env, client, owner_a, _, _, _, token_client) = setup(2);
    assert_eq!(
        client.try_create_proposal(
            &owner_a,
            &t(&someone(&env), 1_000_000, &token_client.address),
            &text("Stale"),
            &(NOW - 1),
            &ProposalCategory::Transfer,
        ),
        Err(ContractError::InvalidDeadline)
    );
}

#[test]
fn create_proposal_rejects_empty_description() {
    let (env, client, owner_a, _, _, _, token_client) = setup(2);
    assert_eq!(
        client.try_create_proposal(
            &owner_a,
            &t(&someone(&env), 1_000_000, &token_client.address),
            &text(""),
            &DEADLINE,
            &ProposalCategory::Transfer,
        ),
        Err(ContractError::EmptyDescription)
    );
}

#[test]
fn create_proposal_rejects_invalid_token() {
    let (env, client, owner_a, _, _, _, _) = setup(2);
    let invalid_token = someone(&env);
    assert_eq!(
        client.try_create_proposal(
            &owner_a,
            &t(&someone(&env), 1_000_000, &invalid_token),
            &text("Bad token"),
            &DEADLINE,
            &ProposalCategory::Transfer,
        ),
        Err(ContractError::InvalidToken)
    );
}

#[test]
fn create_proposal_accepts_valid_token() {
    let (env, client, owner_a, _, _, _, token_client) = setup(2);
    let id = client.create_proposal(
        &owner_a,
        &t(&someone(&env), 1_000_000, &token_client.address),
        &text("Valid token"),
        &DEADLINE,
        &ProposalCategory::Transfer,
    );
    assert!(id > 0);
}

#[test]
fn description_boundary() {
    let (env, client, owner_a, _, _, _, token_client) = setup(2);
    let recipient = someone(&env);

    // Test exact boundary: 300 characters should succeed
    let description_300 = "a".repeat(300);
    let result_300 = client.try_create_proposal(
        &owner_a,
        &t(&recipient, 1_000_000, &token_client.address),
        &text(&description_300),
        &DEADLINE,
        &ProposalCategory::Transfer,
    );
    assert!(result_300.is_ok());

    // Test over boundary: 301 characters should fail
    let description_301 = "a".repeat(301);
    assert_eq!(
        client.try_create_proposal(
            &owner_a,
            &t(&recipient, 1_000_000, &token_client.address),
            &text(&description_301),
            &DEADLINE,
            &ProposalCategory::Transfer,
        ),
        Err(ContractError::DescriptionTooLong)
    );
}

#[test]
fn create_proposal_emits_created_event() {
    let (env, client, owner_a, _, _, _, token_client) = setup(2);
    let recipient = someone(&env);
    let amount: i128 = 5_000_000;
    let _id = client.create_proposal(
        &owner_a,
        &t(&recipient, amount, &token_client.address),
        &text("Grant"),
        &DEADLINE,
        &ProposalCategory::Transfer,
    );

    // Verify at least one event was emitted by this contract.
    let contract_events = client.events();
    assert!(
        !contract_events.is_empty(),
        "expected a 'created' event to be emitted"
    );
}

#[test]
fn create_proposal_rejects_contract_as_recipient() {
    let (_, client, owner_a, _, _, _, token_client) = setup(2);
    assert_eq!(
        client.try_create_proposal(
            &owner_a,
            &t(&client.address, 1_000_000, &token_client.address),
            &text("Self-send"),
            &DEADLINE,
            &ProposalCategory::Transfer,
        ),
        Err(ContractError::InvalidRecipient)
    );
}

#[test]
fn create_proposal_stores_payroll_category() {
    let (env, client, owner_a, _, _, _, token_client) = setup(2);
    let id = client.create_proposal(
        &owner_a,
        &t(&someone(&env), 1_000_000, &token_client.address),
        &text("Monthly salaries"),
        &DEADLINE,
        &ProposalCategory::Payroll,
    );
    assert_eq!(client.get_proposal(&id).category, ProposalCategory::Payroll);
}

#[test]
fn create_proposal_stores_grant_category() {
    let (env, client, owner_a, _, _, _, token_client) = setup(2);
    let id = client.create_proposal(
        &owner_a,
        &t(&someone(&env), 1_000_000, &token_client.address),
        &text("Developer grant"),
        &DEADLINE,
        &ProposalCategory::Grant,
    );
    assert_eq!(client.get_proposal(&id).category, ProposalCategory::Grant);
}

#[test]
fn create_proposal_category_in_event() {
    let (env, client, owner_a, _, _, _, token_client) = setup(2);
    let recipient = someone(&env);
    let _id = client.create_proposal(
        &owner_a,
        &t(&recipient, 1_000_000, &token_client.address),
        &text("Ops budget"),
        &DEADLINE,
        &ProposalCategory::Ops,
    );

    let contract_events = client.events();
    assert!(!contract_events.is_empty());

    // The first event is the ProposalCreatedEvent; check its category field.
    let event: ProposalCreatedEvent = match &contract_events[0] {
        Event::ProposalCreated(event) => event.clone(),
        _ => panic!("expected a created event"),
    };
    assert_eq!(event.category, ProposalCategory::Ops);
}

#[test]
fn approve_increments_count_and_sets_flag() {
    let (env, client, owner_a, owner_b, _, _, token_client) = setup(3);
    let id = client.create_proposal(
        &owner_a,
        &t(&someone(&env), 1_000_000, &token_client.address),
        &text("Pay"),
        &DEADLINE,
        &ProposalCategory::Transfer,
    );
    client.approve(&owner_a, &id);
    assert_eq!(client.get_proposal(&id).approvals, 1);
    assert!(client.has_approved(&id, &owner_a));
    client.approve(&owner_b, &id);
    assert_eq!(client.get_proposal(&id).approvals, 2);
}

#[test]
fn get_proposal_approval_progress_returns_live_counts_and_total_owner_weight() {
    let (env, client, owner_a, owner_b, _, _, token_client) = setup(2);
    let id = client.create_proposal(
        &owner_a,
        &t(&someone(&env), 1_000_000, &token_client.address),
        &text("Progress"),
        &DEADLINE,
        &ProposalCategory::Transfer,
    );

    let progress = client.get_proposal_approval_progress(&id);
    assert_eq!(progress, (0, 2, 3));

    client.approve(&owner_a, &id);
    let progress = client.get_proposal_approval_progress(&id);
    assert_eq!(progress, (1, 2, 3));

    client.approve(&owner_b, &id);
    let progress = client.get_proposal_approval_progress(&id);
    assert_eq!(progress, (2, 2, 3));
    assert_eq!(client.get_proposal(&id).status, ProposalStatus::Ready);
}

#[test]
fn get_proposal_approval_progress_rejects_missing_proposal() {
    let (_, client, _, _, _, _, _) = setup(2);
    assert_eq!(client.try_get_proposal_approval_progress(&999), Err(ContractError::ProposalNotFound));
}

#[test]
fn approve_transitions_pending_to_ready() {
    let (env, client, owner_a, owner_b, _, _, token_client) = setup(2);
    let id = client.create_proposal(
        &owner_a,
        &t(&someone(&env), 1_000_000, &token_client.address),
        &text("Pay"),
        &DEADLINE,
        &ProposalCategory::Transfer,
    );
    client.approve(&owner_a, &id);
    assert_eq!(client.get_proposal(&id).status, ProposalStatus::Pending);
    client.approve(&owner_b, &id);
    assert_eq!(client.get_proposal(&id).status, ProposalStatus::Ready);
}

#[test]
fn approve_rejects_double_approve() {
    let (env, client, owner_a, _, _, _, token_client) = setup(2);
    let id = client.create_proposal(
        &owner_a,
        &t(&someone(&env), 1_000_000, &token_client.address),
        &text("Pay"),
        &DEADLINE,
        &ProposalCategory::Transfer,
    );
    client.approve(&owner_a, &id);
    assert_eq!(
        client.try_approve(&owner_a, &id),
        Err(ContractError::AlreadyApproved)
    );
}

#[test]
fn approve_rejects_non_owner() {
    let (env, client, owner_a, _, _, non_owner, token_client) = setup(2);
    let id = client.create_proposal(
        &owner_a,
        &t(&someone(&env), 1_000_000, &token_client.address),
        &text("Pay"),
        &DEADLINE,
        &ProposalCategory::Transfer,
    );
    assert_eq!(
        client.try_approve(&non_owner, &id),
        Err(ContractError::Unauthorized)
    );
}

#[test]
fn approve_returns_arithmetic_error_on_overflow() {
    let (env, client, owner_a, owner_b, _, _, token_client) = setup(2);
    let id = 1_u64;
    let proposal = Proposal {
        id,
        proposer: owner_a,
        description: text("Overflow approvals"),
        deadline: DEADLINE,
        approvals: u32::MAX,
        status: ProposalStatus::Pending,
        kind: ProposalKind::Transfer(t(&someone(&env), 1_000_000_i128, &token_client.address)),
        ready_at: 0,
        quorum_weight: 2,
        category: ProposalCategory::Transfer,
    };

    client.store(proposal);

    assert_eq!(
        client.try_approve(&owner_b, &id),
        Err(ContractError::ArithmeticError)
    );
}

#[test]
fn revoke_decrements_count_and_clears_flag() {
    let (env, client, owner_a, _, _, _, token_client) = setup(2);
    let id = client.create_proposal(
        &owner_a,
        &t(&someone(&env), 1_000_000, &token_client.address),
        &text("Pay"),
        &DEADLINE,
        &ProposalCategory::Transfer,
    );
    client.approve(&owner_a, &id);
    client.revoke(&owner_a, &id);
    assert_eq!(client.get_proposal(&id).approvals, 0);
    assert!(!client.has_approved(&id, &owner_a));
}

#[test]
fn revoke_transitions_ready_back_to_pending() {
    let (env, client, owner_a, owner_b, _, _, token_client) = setup(2);
    let id = client.create_proposal(
        &owner_a,
        &t(&someone(&env), 1_000_000, &token_client.address),
        &text("Pay"),
        &DEADLINE,
        &ProposalCategory::Transfer,
    );
    client.approve(&owner_a, &id);
    client.approve(&owner_b, &id);
    assert_eq!(client.get_proposal(&id).status, ProposalStatus::Ready);
    client.revoke(&owner_a, &id);
    assert_eq!(client.get_proposal(&id).status, ProposalStatus::Pending);
}

#[test]
fn revoke_rejects_when_not_previously_approved() {
    let (env, client, owner_a, _, _, _, token_client) = setup(2);
    let id = client.create_proposal(
        &owner_a,
        &t(&someone(&env), 1_000_000, &token_client.address),
        &text("Pay"),
        &DEADLINE,
        &ProposalCategory::Transfer,
    );
    assert_eq!(
        client.try_revoke(&owner_a, &id),
        Err(ContractError::NotApproved)
    );
}

#[test]
fn revoke_allows_reapprove() {
    let (env, client, owner_a, _, _, _, token_client) = setup(2);
    let id = client.create_proposal(
        &owner_a,
        &t(&someone(&env), 1_000_000, &token_client.address),
        &text("Pay"),
        &DEADLINE,
        &ProposalCategory::Transfer,
    );
    client.approve(&owner_a, &id);
    client.revoke(&owner_a, &id);
    // Re-approve - should succeed
    client.approve(&owner_a, &id);
    assert_eq!(client.get_proposal(&id).approvals, 1);
}

#[test]
fn revoke_and_reapprove_cycles_ready_pending_ready() {
    let (env, client, owner_a, owner_b, _, _, token_client) = setup(2);
    let id = client.create_proposal(
        &owner_a,
        &t(&someone(&env), 1_000_000, &token_client.address),
        &text("Pay"),
        &DEADLINE,
        &ProposalCategory::Transfer,
    );

    // Stage 1: Approved -> Ready
    client.approve(&owner_a, &id);
    client.approve(&owner_b, &id);
    assert_eq!(client.get_proposal(&id).status, ProposalStatus::Ready);
    assert_eq!(client.get_proposal(&id).approvals, 2);
    assert!(client.has_approved(&id, &owner_a));

    // Stage 2: Revoked -> Pending
    client.revoke(&owner_a, &id);
    assert_eq!(client.get_proposal(&id).status, ProposalStatus::Pending);
    assert_eq!(client.get_proposal(&id).approvals, 1);
    assert!(!client.has_approved(&id, &owner_a));

    // Stage 3: Re-approved -> Ready
    client.approve(&owner_a, &id);
    assert_eq!(client.get_proposal(&id).status, ProposalStatus::Ready);
    assert_eq!(client.get_proposal(&id).approvals, 2);
    assert!(client.has_approved(&id, &owner_a));
}

#[test]
fn has_approved_returns_false_after_revoke() {
    let (env, client, owner_a, _, _, _, token_client) = setup(2);
    let id = client.create_proposal(
        &owner_a,
        &t(&someone(&env), 1_000_000, &token_client.address),
        &text("Pay"),
        &DEADLINE,
        &ProposalCategory::Transfer,
    );
    client.approve(&owner_a, &id);
    assert!(client.has_approved(&id, &owner_a));
    client.revoke(&owner_a, &id);
    assert!(!client.has_approved(&id, &owner_a));
}

#[test]
fn execute_transfers_tokens_to_recipient() {
    let (env, client, owner_a, owner_b, owner_c, _, token_client) = setup(2);
    let recipient = someone(&env);
    let amount: i128 = 50_000_000;
    let id = client.create_proposal(
        &owner_a,
        &t(&recipient, amount, &token_client.address),
        &text("Bonus"),
        &DEADLINE,
        &ProposalCategory::Transfer,
    );
    client.approve(&owner_a, &id);
    client.approve(&owner_b, &id);
    client.approve(&owner_c, &id);
    client.execute(&owner_c, &id);
    assert_eq!(token_client.balance(&recipient), amount);
    assert_eq!(client.get_proposal(&id).status, ProposalStatus::Executed);
}

#[test]
fn execute_rejects_when_threshold_not_met() {
    let (env, client, owner_a, _, _, _, token_client) = setup(2);
    let id = client.create_proposal(
        &owner_a,
        &t(&someone(&env), 1_000_000, &token_client.address),
        &text("Short"),
        &DEADLINE,
        &ProposalCategory::Transfer,
    );
    client.approve(&owner_a, &id); // only 1 of 2
    assert_eq!(
        client.try_execute(&owner_a, &id),
        Err(ContractError::ThresholdNotMet)
    );
}

#[test]
fn execute_rejects_non_owner() {
    let (env, client, owner_a, owner_b, _, non_owner, token_client) = setup(2);
    let id = client.create_proposal(
        &owner_a,
        &t(&someone(&env), 1_000_000, &token_client.address),
        &text("Pay"),
        &DEADLINE,
        &ProposalCategory::Transfer,
    );
    client.approve(&owner_a, &id);
    client.approve(&owner_b, &id);
    assert_eq!(
        client.try_execute(&non_owner, &id),
        Err(ContractError::Unauthorized)
    );
}

#[test]
fn execute_rejects_already_executed() {
    let (env, client, owner_a, owner_b, owner_c, _, token_client) = setup(2);
    let id = client.create_proposal(
        &owner_a,
        &t(&someone(&env), 1_000_000, &token_client.address),
        &text("Pay"),
        &DEADLINE,
        &ProposalCategory::Transfer,
    );
    client.approve(&owner_a, &id);
    client.approve(&owner_b, &id);
    client.execute(&owner_c, &id);
    assert_eq!(
        client.try_execute(&owner_a, &id),
        Err(ContractError::ProposalNotActive)
    );
}

#[test]
fn execute_emits_executed_event() {
    let (env, client, owner_a, owner_b, _, _, token_client) = setup(2);
    let recipient = someone(&env);
    let amount: i128 = 10_000_000;
    let id = client.create_proposal(
        &owner_a,
        &t(&recipient, amount, &token_client.address),
        &text("Event"),
        &DEADLINE,
        &ProposalCategory::Transfer,
    );
    client.approve(&owner_a, &id);
    client.approve(&owner_b, &id);
    client.execute(&owner_a, &id);

    let contract_events = client.events();
    assert!(
        !contract_events.is_empty(),
        "expected an 'executed' event to be emitted"
    );
}

#[test]
fn proposal_shows_expired_after_deadline() {
    let (env, client, owner_a, _, _, _, token_client) = setup(2);
    let deadline = NOW + 3_600;
    let id = client.create_proposal(
        &owner_a,
        &t(&someone(&env), 1_000_000, &token_client.address),
        &text("Short window"),
        &deadline,
        &ProposalCategory::Transfer,
    );
    set_timestamp(&env, deadline + 1);
    assert_eq!(client.get_proposal(&id).status, ProposalStatus::Expired);
}

#[test]
fn approve_rejects_expired_proposal() {
    let (env, client, owner_a, owner_b, _, _, token_client) = setup(2);
    let deadline = NOW + 3_600;
    let id = client.create_proposal(
        &owner_a,
        &t(&someone(&env), 1_000_000, &token_client.address),
        &text("Expiring"),
        &deadline,
        &ProposalCategory::Transfer,
    );
    set_timestamp(&env, deadline + 1);
    assert_eq!(
        client.try_approve(&owner_b, &id),
        Err(ContractError::ProposalNotActive)
    );
}

#[test]
fn execute_rejects_expired_even_if_approved() {
    let (env, client, owner_a, owner_b, _, _, token_client) = setup(2);
    let deadline = NOW + 3_600;
    let id = client.create_proposal(
        &owner_a,
        &t(&someone(&env), 1_000_000, &token_client.address),
        &text("Approved but expired"),
        &deadline,
        &ProposalCategory::Transfer,
    );
    client.approve(&owner_a, &id);
    client.approve(&owner_b, &id);
    set_timestamp(&env, deadline + 1);
    assert_eq!(
        client.try_execute(&owner_a, &id),
        Err(ContractError::ProposalExpired)
    );
}

#[test]
fn expired_status_takes_priority_over_ready() {
    let (env, client, owner_a, owner_b, _, _, token_client) = setup(2);
    let deadline = NOW + 3_600;
    let id = client.create_proposal(
        &owner_a,
        &t(&someone(&env), 1_000_000, &token_client.address),
        &text("Ready then expired"),
        &deadline,
        &ProposalCategory::Transfer,
    );

    // Two owners approve to meet the threshold of 2 while still before the deadline.
    client.approve(&owner_a, &id);
    client.approve(&owner_b, &id);
    assert_eq!(client.get_proposal(&id).status, ProposalStatus::Ready);

    // Once the deadline passes, Expired must take priority over Ready.
    set_timestamp(&env, deadline + 1);
    assert_eq!(client.get_proposal(&id).status, ProposalStatus::Expired);
}

#[test]
fn get_version_returns_current_version() {
    let (_, client, _, _, _, _, _) = setup(2);
    assert_eq!(client.get_version(), 1);
}

/// The view function must return the same quorum weight that gets stored on a
/// proposal created immediately afterwards.
#[test]
fn get_required_quorum_weight_matches_newly_created_proposal() {
    let (env, client, owner_a, _, _, _, token_client) = setup(2);

    // Read the view before creating any proposal.
    let reported = client.get_required_quorum_weight();

    // Create a proposal and check its stored quorum_weight.
    let id = client.create_proposal(
        &owner_a,
        &t(&someone(&env), 1_000_000, &token_client.address),
        &text("Quorum match test"),
        &DEADLINE,
        &ProposalCategory::Transfer,
    );
    let proposal = client.get_proposal(&id);

    assert_eq!(
        reported,
        proposal.quorum_weight,
        "get_required_quorum_weight() must equal the quorum_weight stored on the next created proposal"
    );
}

/// The view function must reflect the updated threshold after a
/// change-threshold proposal is executed.
#[test]
fn get_required_quorum_weight_updates_after_threshold_change() {
    let (env, client, owner_a, owner_b, owner_c, _, token_client) = setup(2);

    // Initial threshold is 2.
    assert_eq!(client.get_required_quorum_weight(), 2);

    // Propose and execute a threshold change to 3.
    let change_id = client.create_change_threshold_proposal(
        &owner_a,
        &3,
        &text("Raise threshold to 3"),
        &DEADLINE,
    );
    client.approve(&owner_a, &change_id);
    client.approve(&owner_b, &change_id);
    client.execute(&owner_c, &change_id);

    // View must now reflect the new threshold.
    assert_eq!(
        client.get_required_quorum_weight(),
        3,
        "get_required_quorum_weight() must return the updated threshold after a change"
    );

    // A proposal created now must also carry the updated quorum weight.
    let id = client.create_proposal(
        &owner_a,
        &t(&someone(&env), 1_000_000, &token_client.address),
        &text("Post-change proposal"),
        &DEADLINE,
        &ProposalCategory::Transfer,
    );
    assert_eq!(client.get_proposal(&id).quorum_weight, 3);
}

#[test]
fn is_owner_returns_correct_results() {
    let (_, client, owner_a, _, _, non_owner, _) = setup(2);
    assert!(client.is_owner(&owner_a));
    assert!(!client.is_owner(&non_owner));
}

#[test]
fn get_proposals_paged_returns_correct_window() {
    let (env, client, owner_a, _, _, _, token_client) = setup(2);
    for _ in 0..5_u32 {
        client.create_proposal(
            &owner_a,
            &t(&someone(&env), 1_000_000, &token_client.address),
            &text("Batch"),
            &DEADLINE,
            &ProposalCategory::Transfer,
        );
    }
    let page1 = client.get_proposals_paged(&0, &3);
    assert_eq!(page1.len(), 3);
    assert_eq!(page1.get(0).unwrap().id, 1);
    let page2 = client.get_proposals_paged(&3, &3);
    assert_eq!(page2.len(), 2);
    assert_eq!(page2.get(0).unwrap().id, 4);
}

#[test]
fn get_proposals_paged_returns_empty_beyond_offset() {
    let (env, client, owner_a, _, _, _, token_client) = setup(2);
    for _ in 0..3_u32 {
        client.create_proposal(
            &owner_a,
            &t(&someone(&env), 1_000_000, &token_client.address),
            &text("Test"),
            &DEADLINE,
            &ProposalCategory::Transfer,
        );
    }
    let page = client.get_proposals_paged(&10, &5);
    assert_eq!(page.len(), 0);
}

#[test]
fn get_total_proposals_counts_all_ever_created() {
    let (env, client, owner_a, owner_b, owner_c, _, token_client) = setup(1);
    // Create 3 proposals
    let id1 = client.create_proposal(
        &owner_a,
        &t(&someone(&env), 1_000_000, &token_client.address),
        &text("Proposal 1"),
        &DEADLINE,
        &ProposalCategory::Transfer,
    );
    let id2 = client.create_proposal(
        &owner_a,
        &t(&someone(&env), 1_000_000, &token_client.address),
        &text("Proposal 2"),
        &DEADLINE,
        &ProposalCategory::Transfer,
    );
    let _id3 = client.create_proposal(
        &owner_a,
        &t(&someone(&env), 1_000_000, &token_client.address),
        &text("Proposal 3"),
        &DEADLINE,
        &ProposalCategory::Transfer,
    );

    // Execute 2 of them
    client.approve(&owner_a, &id1);
    client.execute(&owner_b, &id1);
    client.approve(&owner_a, &id2);
    client.execute(&owner_c, &id2);

    // Check total count is still 3
    assert_eq!(client.get_total_proposals(), 3);
}

#[test]
fn full_lifecycle_2of3() {
    let (env, client, owner_a, owner_b, owner_c, _, token_client) = setup(2);
    let recipient = someone(&env);
    let amount: i128 = 100_000_000;

    let id = client.create_proposal(
        &owner_a,
        &t(&recipient, amount, &token_client.address),
        &text("Full lifecycle"),
        &DEADLINE,
        &ProposalCategory::Transfer,
    );
    assert_eq!(client.get_proposal(&id).status, ProposalStatus::Pending);

    client.approve(&owner_a, &id);
    assert_eq!(client.get_proposal(&id).status, ProposalStatus::Pending);

    client.approve(&owner_b, &id);
    assert_eq!(client.get_proposal(&id).status, ProposalStatus::Ready);

    let before = token_client.balance(&recipient);
    client.execute(&owner_c, &id);
    assert_eq!(token_client.balance(&recipient) - before, amount);
    assert_eq!(client.get_proposal(&id).status, ProposalStatus::Executed);
}

#[test]
fn full_lifecycle_5of5() {
    let env = World::new();
    set_timestamp(&env, NOW);

    let owner_a = someone(&env);
    let owner_b = someone(&env);
    let owner_c = someone(&env);
    let owner_d = someone(&env);
    let owner_e = someone(&env);
    let recipient = someone(&env);

    let token_id = env.issue_token();
    let token_client = Token::new(&env, &token_id);
    let token_sac = Token::new(&env, &token_id);

    let contract_id = env.wallet();
    let client = Client::new(&env, &contract_id);

    let mut owners = Vec::new();
    owners.push(owner_a);
    owners.push(owner_b);
    owners.push(owner_c);

    owners.push(owner_d);
    owners.push(owner_e);
    let mut weights = Vec::new();
    for _ in 0..owners.len() {
        weights.push(1);
    }
    client.initialize(&owners, &weights, &5, &0);

    // Fund the multisig contract so it can pay out proposals.
    token_sac.mint(&contract_id, &1_000_000_000_000_i128);

    let amount: i128 = 100_000_000;

    let id = client.create_proposal(
        &owner_a,
        &t(&recipient, amount, &token_client.address),
        &text("Full lifecycle 5of5"),
        &DEADLINE,
        &ProposalCategory::Transfer,
    );
    assert_eq!(client.get_proposal(&id).status, ProposalStatus::Pending);

    client.approve(&owner_a, &id);
    assert_eq!(client.get_proposal(&id).status, ProposalStatus::Pending);

    client.approve(&owner_b, &id);
    assert_eq!(client.get_proposal(&id).status, ProposalStatus::Pending);

    client.approve(&owner_c, &id);
    assert_eq!(client.get_proposal(&id).status, ProposalStatus::Pending);

    client.approve(&owner_d, &id);
    assert_eq!(client.get_proposal(&id).status, ProposalStatus::Pending);

    client.approve(&owner_e, &id);
    assert_eq!(client.get_proposal(&id).status, ProposalStatus::Ready);

    let before = token_client.balance(&recipient);
    client.execute(&owner_a, &id);
    assert_eq!(token_client.balance(&recipient) - before, amount);
    assert_eq!(client.get_proposal(&id).status, ProposalStatus::Executed);
}

#[test]
fn execute_fails_when_balance_insufficient() {
    let env = World::new();
    set_timestamp(&env, NOW);

    let owner_a = someone(&env);
    let owner_b = someone(&env);
    let owner_c = someone(&env);
    let recipient = someone(&env);

    let token_id = env.issue_token();
    let token_client = Token::new(&env, &token_id);

    let contract_id = env.wallet();
    let client = Client::new(&env, &contract_id);

    let mut owners = Vec::new();
    owners.push(owner_a);
    owners.push(owner_b);
    owners.push(owner_c);

    let mut weights = Vec::new();
    for _ in 0..owners.len() {
        weights.push(1);
    }
    client.initialize(&owners, &weights, &2, &0);

    // Do not mint any tokens to the contract - balance is zero.

    let amount: i128 = 1_000_000;
    let id = client.create_proposal(
        &owner_a,
        &t(&recipient, amount, &token_client.address),
        &text("Insufficient balance"),
        &DEADLINE,
        &ProposalCategory::Transfer,
    );

    client.approve(&owner_a, &id);
    client.approve(&owner_b, &id);

    // Execute should fail because the contract has no funds.
    assert_eq!(
        client.try_execute(&owner_a, &id),
        Err(ContractError::TransferFailed)
    );
}

#[test]
fn create_proposal_rejects_at_limit() {
    let (env, client, owner_a, _, _, _, token_client) = setup(2);
    let recipient = someone(&env);

    // Create exactly 50 proposals (MAX_ACTIVE_PROPOSALS).
    for i in 0..50 {
        client.create_proposal(
            &owner_a,
            &t(&recipient, 1_000_000, &token_client.address),
            &text(&format!("Proposal {}", i)),
            &DEADLINE,
            &ProposalCategory::Transfer,
        );
    }

    // The 51st proposal should be rejected with TooManyActiveProposals.
    assert_eq!(
        client.try_create_proposal(
            &owner_a,
            &t(&recipient, 1_000_000, &token_client.address),
            &text("51st proposal"),
            &DEADLINE,
            &ProposalCategory::Transfer,
        ),
        Err(ContractError::TooManyActiveProposals)
    );
}

#[test]
fn create_proposal_rejects_deadline_at_now() {
    let (env, client, owner_a, _, _, _, token_client) = setup(2);
    // A deadline equal to the current ledger timestamp must be rejected, because
    // the contract uses `deadline <= now` as the invalid-deadline guard.
    assert_eq!(
        client.try_create_proposal(
            &owner_a,
            &t(&someone(&env), 1_000_000, &token_client.address),
            &text("Deadline at now"),
            &NOW, // exactly the current timestamp
            &ProposalCategory::Transfer,
        ),
        Err(ContractError::InvalidDeadline)
    );
}

#[test]
fn get_approvers_returns_only_approved_addresses() {
    let (env, client, owner_a, owner_b, owner_c, _, token_client) = setup(3);
    let id = client.create_proposal(
        &owner_a,
        &t(&someone(&env), 1_000_000, &token_client.address),
        &text("Pay"),
        &DEADLINE,
        &ProposalCategory::Transfer,
    );
    client.approve(&owner_a, &id);
    client.approve(&owner_b, &id);

    let approvers = client.get_approvers(&id);
    assert_eq!(approvers.len(), 2);
    assert!(approvers.contains(&owner_a));
    assert!(approvers.contains(&owner_b));
    assert!(!approvers.contains(&owner_c));
}

#[test]
fn get_approvers_returns_empty_when_none_have_approved() {
    let (env, client, owner_a, _, _, _, token_client) = setup(2);
    let id = client.create_proposal(
        &owner_a,
        &t(&someone(&env), 1_000_000, &token_client.address),
        &text("Pay"),
        &DEADLINE,
        &ProposalCategory::Transfer,
    );

    let approvers = client.get_approvers(&id);
    assert_eq!(approvers.len(), 0);
}

#[test]
fn get_approvers_excludes_revoked_approval() {
    let (env, client, owner_a, owner_b, _, _, token_client) = setup(3);
    let id = client.create_proposal(
        &owner_a,
        &t(&someone(&env), 1_000_000, &token_client.address),
        &text("Pay"),
        &DEADLINE,
        &ProposalCategory::Transfer,
    );
    client.approve(&owner_a, &id);
    client.approve(&owner_b, &id);
    client.revoke(&owner_a, &id);

    let approvers = client.get_approvers(&id);
    assert_eq!(approvers.len(), 1);
    assert!(!approvers.contains(&owner_a));
    assert!(approvers.contains(&owner_b));
}

#[test]
fn get_approvers_rejects_unknown_proposal() {
    let (_, client, _, _, _, _, _) = setup(2);
    assert_eq!(
        client.try_get_approvers(&999),
        Err(ContractError::ProposalNotFound)
    );
}

#[test]
fn upgrade_rejects_non_owner() {
    let (env, client, _, _, _, non_owner, _) = setup(2);
    let dummy_hash: [u8; 32] = [0u8; 32];
    let mut approvers = Vec::new();
    approvers.push(non_owner);
    approvers.push(someone(&env)); // another non-owner to reach len >= threshold
    assert_eq!(
        client.try_upgrade(&approvers, &dummy_hash),
        Err(ContractError::Unauthorized)
    );
}

#[test]
fn upgrade_rejects_below_threshold() {
    let (_, client, owner_a, _, _, _, _) = setup(2);
    let dummy_hash: [u8; 32] = [0u8; 32];
    // Only 1 approver, but threshold is 2.
    let mut approvers = Vec::new();
    approvers.push(owner_a);
    assert_eq!(
        client.try_upgrade(&approvers, &dummy_hash),
        Err(ContractError::ThresholdNotMet)
    );
}

#[test]
fn upgrade_rejects_duplicate_approver() {
    let (_, client, owner_a, _, _, _, _) = setup(2);
    let dummy_hash: [u8; 32] = [0u8; 32];
    // Pass owner_a twice to try to satisfy a threshold-of-2 with one real owner.
    let mut approvers = Vec::new();
    approvers.push(owner_a);
    approvers.push(owner_a);
    assert_eq!(
        client.try_upgrade(&approvers, &dummy_hash),
        Err(ContractError::DuplicateOwner)
    );
}

#[test]
fn upgrade_succeeds_with_threshold_many_owners() {
    let (_, client, owner_a, owner_b, _, _, _) = setup(2);
    // Provide exactly `threshold` (2) distinct registered owners.
    let dummy_hash: [u8; 32] = [0u8; 32];
    let mut approvers = Vec::new();
    approvers.push(owner_a);
    approvers.push(owner_b);
    assert_eq!(client.try_upgrade(&approvers, &dummy_hash), Ok(()));
}

#[test]
fn upgrade_emits_event() {
    let (_, client, owner_a, owner_b, _, _, _) = setup(2);
    // The hash of empty code.
    let dummy_hash: [u8; 32] = [
        0xe3, 0xb0, 0xc4, 0x42, 0x98, 0xfc, 0x1c, 0x14, 0x9a, 0xfb, 0xf4, 0xc8, 0x99, 0x6f, 0xb9,
        0x24, 0x27, 0xae, 0x41, 0xe4, 0x64, 0x9b, 0x93, 0x4c, 0xa4, 0x95, 0x99, 0x1b, 0x78, 0x52,
        0xb8, 0x55,
    ];
    let mut approvers = Vec::new();
    approvers.push(owner_a);
    approvers.push(owner_b);

    client.upgrade(&approvers, &dummy_hash);

    let upgraded_event = client.event("upgraded");
    let event: UpgradeExecutedEvent = match upgraded_event {
        Some(Event::UpgradeExecuted(event)) => event,
        _ => panic!("expected an 'upgraded' event to be emitted"),
    };
    assert_eq!(event.caller, owner_a);
    assert_eq!(event.new_wasm_hash, dummy_hash);
}

#[test]
fn active_count_stays_accurate_after_execute() {
    let (env, client, owner_a, owner_b, owner_c, _, token_client) = setup(2);
    let recipient = someone(&env);

    // Fill up the active slots
    for _ in 0..50 {
        client.create_proposal(
            &owner_a,
            &t(&recipient, 1_000_000, &token_client.address),
            &text("Fill"),
            &DEADLINE,
            &ProposalCategory::Transfer,
        );
    }

    // 51st proposal should fail
    assert_eq!(
        client.try_create_proposal(
            &owner_a,
            &t(&recipient, 1_000_000, &token_client.address),
            &text("Overflow"),
            &DEADLINE,
            &ProposalCategory::Transfer,
        ),
        Err(ContractError::TooManyActiveProposals)
    );

    // Approve and execute 2 proposals
    client.approve(&owner_a, &1);
    client.approve(&owner_b, &1);
    client.execute(&owner_c, &1);
    assert_eq!(client.get_proposal(&1).status, ProposalStatus::Executed);

    client.approve(&owner_a, &2);
    client.approve(&owner_b, &2);
    client.execute(&owner_c, &2);
    assert_eq!(client.get_proposal(&2).status, ProposalStatus::Executed);

    // Now we should be able to create 2 more proposals
    let id51 = client.create_proposal(
        &owner_a,
        &t(&recipient, 1_000_000, &token_client.address),
        &text("New 1"),
        &DEADLINE,
        &ProposalCategory::Transfer,
    );
    let id52 = client.create_proposal(
        &owner_a,
        &t(&recipient, 1_000_000, &token_client.address),
        &text("New 2"),
        &DEADLINE,
        &ProposalCategory::Transfer,
    );
    assert_eq!(id51, 51);
    assert_eq!(id52, 52);

    // And the 53rd should fail again
    assert_eq!(
        client.try_create_proposal(
            &owner_a,
            &t(&recipient, 1_000_000, &token_client.address),
            &text("Overflow 2"),
            &DEADLINE,
            &ProposalCategory::Transfer,
        ),
        Err(ContractError::TooManyActiveProposals)
    );
}

#[test]
fn active_count_stays_accurate_after_expire() {
    let (env, client, owner_a, _, _, _, token_client) = setup(2);
    let recipient = someone(&env);

    let short_deadline = NOW + 1_000;
    let long_deadline = NOW + 10_000;

    // Create 2 proposals with a short deadline
    client.create_proposal(
        &owner_a,
        &t(&recipient, 1_000_000_i128, &token_client.address),
        &text("Short 1"),
        &short_deadline,
        &ProposalCategory::Transfer,
    );
    client.create_proposal(
        &owner_a,
        &t(&recipient, 1_000_000_i128, &token_client.address),
        &text("Short 2"),
        &short_deadline,
        &ProposalCategory::Transfer,
    );

    // Create 48 proposals with a long deadline
    for _ in 2..50 {
        client.create_proposal(
            &owner_a,
            &t(&recipient, 1_000_000_i128, &token_client.address),
            &text("Long"),
            &long_deadline,
            &ProposalCategory::Transfer,
        );
    }

    // 51st proposal should fail
    assert_eq!(
        client.try_create_proposal(
            &owner_a,
            &t(&recipient, 1_000_000_i128, &token_client.address),
            &text("Overflow"),
            &long_deadline,
            &ProposalCategory::Transfer
        ),
        Err(ContractError::TooManyActiveProposals)
    );

    // Advance time past the short deadline
    set_timestamp(&env, short_deadline + 1);

    // Calling execute on expired proposals returns ProposalExpired and frees the active slot.
    assert_eq!(
        client.try_execute(&owner_a, &1),
        Err(ContractError::ProposalExpired)
    );
    assert_eq!(client.get_proposal(&1).status, ProposalStatus::Expired);
    assert_eq!(
        client.try_execute(&owner_a, &2),
        Err(ContractError::ProposalExpired)
    );
    assert_eq!(client.get_proposal(&2).status, ProposalStatus::Expired);

    // Now we should be able to create 2 more proposals
    let id51 = client.create_proposal(
        &owner_a,
        &t(&recipient, 1_000_000_i128, &token_client.address),
        &text("New 1"),
        &long_deadline,
        &ProposalCategory::Transfer,
    );
    let id52 = client.create_proposal(
        &owner_a,
        &t(&recipient, 1_000_000_i128, &token_client.address),
        &text("New 2"),
        &long_deadline,
        &ProposalCategory::Transfer,
    );
    assert_eq!(id51, 51);
    assert_eq!(id52, 52);

    // And the 53rd should fail again
    assert_eq!(
        client.try_create_proposal(
            &owner_a,
            &t(&recipient, 1_000_000_i128, &token_client.address),
            &text("Overflow 2"),
            &long_deadline,
            &ProposalCategory::Transfer
        ),
        Err(ContractError::TooManyActiveProposals)
    );
}

#[test]
fn active_count_stays_accurate_mixed() {
    let (env, client, owner_a, owner_b, owner_c, _, token_client) = setup(2);
    let recipient = someone(&env);

    let short_deadline = NOW + 1_000;
    let long_deadline = NOW + 10_000;

    // Create 1 short deadline
    client.create_proposal(
        &owner_a,
        &t(&recipient, 1_000_000_i128, &token_client.address),
        &text("Short 1"),
        &short_deadline,
        &ProposalCategory::Transfer,
    );

    // Create 49 long deadline
    for _ in 1..50 {
        client.create_proposal(
            &owner_a,
            &t(&recipient, 1_000_000_i128, &token_client.address),
            &text("Long"),
            &long_deadline,
            &ProposalCategory::Transfer,
        );
    }

    // 51st proposal should fail
    assert_eq!(
        client.try_create_proposal(
            &owner_a,
            &t(&recipient, 1_000_000_i128, &token_client.address),
            &text("Overflow"),
            &long_deadline,
            &ProposalCategory::Transfer
        ),
        Err(ContractError::TooManyActiveProposals)
    );

    // Execute proposal 2 (long deadline) - frees one active slot.
    client.approve(&owner_a, &2);
    client.approve(&owner_b, &2);
    client.execute(&owner_c, &2);
    assert_eq!(client.get_proposal(&2).status, ProposalStatus::Executed);

    // Create 1 new proposal (long deadline)
    let id51 = client.create_proposal(
        &owner_a,
        &t(&recipient, 1_000_000_i128, &token_client.address),
        &text("New 1"),
        &long_deadline,
        &ProposalCategory::Transfer,
    );
    assert_eq!(id51, 51);

    // Advance time past the short deadline
    set_timestamp(&env, short_deadline + 1);

    // Calling execute on expired proposal 1 returns ProposalExpired and frees its active slot.
    assert_eq!(
        client.try_execute(&owner_a, &1),
        Err(ContractError::ProposalExpired)
    );
    assert_eq!(client.get_proposal(&1).status, ProposalStatus::Expired);

    // Create 1 new proposal (long deadline)
    let id52 = client.create_proposal(
        &owner_a,
        &t(&recipient, 1_000_000_i128, &token_client.address),
        &text("New 2"),
        &long_deadline,
        &ProposalCategory::Transfer,
    );
    assert_eq!(id52, 52);

    // 53rd proposal should fail
    assert_eq!(
        client.try_create_proposal(
            &owner_a,
            &t(&recipient, 1_000_000_i128, &token_client.address),
            &text("Overflow 2"),
            &long_deadline,
            &ProposalCategory::Transfer
        ),
        Err(ContractError::TooManyActiveProposals)
    );
}

#[test]
fn cancel_expired_sweeps_two_expired_proposals() {
    let (env, client, owner_a, _, _, _, token_client) = setup(1);
    let recipient = someone(&env);

    let id1 = client.create_proposal(
        &owner_a,
        &t(&recipient, 1_000_000_i128, &token_client.address),
        &text("p1"),
        &DEADLINE,
        &ProposalCategory::Transfer,
    );
    let id2 = client.create_proposal(
        &owner_a,
        &t(&recipient, 1_000_000_i128, &token_client.address),
        &text("p2"),
        &DEADLINE,
        &ProposalCategory::Transfer,
    );

    set_timestamp(&env, DEADLINE + 1);

    let mut ids = Vec::new();
    ids.push(id1);
    ids.push(id2);
    let swept = client.cancel_expired(&owner_a, &ids);

    assert_eq!(swept, 2);
    assert_eq!(client.get_proposal(&id1).status, ProposalStatus::Expired);
    assert_eq!(client.get_proposal(&id2).status, ProposalStatus::Expired);
}

#[test]
fn cancel_expired_skips_non_expired_proposal() {
    let long_deadline = DEADLINE + 86_400;
    let (env, client, owner_a, _, _, _, token_client) = setup(1);
    let recipient = someone(&env);

    let id1 = client.create_proposal(
        &owner_a,
        &t(&recipient, 1_000_000_i128, &token_client.address),
        &text("short"),
        &DEADLINE,
        &ProposalCategory::Transfer,
    );
    let id2 = client.create_proposal(
        &owner_a,
        &t(&recipient, 1_000_000_i128, &token_client.address),
        &text("long"),
        &long_deadline,
        &ProposalCategory::Transfer,
    );

    set_timestamp(&env, DEADLINE + 1);

    let mut ids = Vec::new();
    ids.push(id1);
    ids.push(id2);
    let swept = client.cancel_expired(&owner_a, &ids);

    assert_eq!(swept, 1);
    assert_eq!(client.get_proposal(&id2).status, ProposalStatus::Pending);
}

#[test]
fn cancel_expired_skips_nonexistent_id() {
    let (env, client, owner_a, _, _, _, token_client) = setup(1);
    let recipient = someone(&env);

    let id1 = client.create_proposal(
        &owner_a,
        &t(&recipient, 1_000_000_i128, &token_client.address),
        &text("real"),
        &DEADLINE,
        &ProposalCategory::Transfer,
    );

    set_timestamp(&env, DEADLINE + 1);

    let mut ids = Vec::new();
    ids.push(id1);
    ids.push(999_u64);
    let swept = client.cancel_expired(&owner_a, &ids);

    assert_eq!(swept, 1);
}

#[test]
fn cancel_expired_rejects_non_owner() {
    let (env, client, owner_a, _, _, non_owner, token_client) = setup(1);
    let recipient = someone(&env);

    client.create_proposal(
        &owner_a,
        &t(&recipient, 1_000_000_i128, &token_client.address),
        &text("x"),
        &DEADLINE,
        &ProposalCategory::Transfer,
    );

    set_timestamp(&env, DEADLINE + 1);

    let mut ids = Vec::new();
    ids.push(1_u64);

    assert_eq!(
        client.try_cancel_expired(&non_owner, &ids),
        Err(ContractError::Unauthorized)
    );
}

#[test]
fn cancel_expired_unblocks_active_cap() {
    let (env, client, owner_a, _, _, _, token_client) = setup(1);
    let recipient = someone(&env);

    for _ in 0..50 {
        client.create_proposal(
            &owner_a,
            &t(&recipient, 1_000_000_i128, &token_client.address),
            &text("fill"),
            &DEADLINE,
            &ProposalCategory::Transfer,
        );
    }

    assert_eq!(
        client.try_create_proposal(
            &owner_a,
            &t(&recipient, 1_000_000_i128, &token_client.address),
            &text("over"),
            &DEADLINE,
            &ProposalCategory::Transfer
        ),
        Err(ContractError::TooManyActiveProposals)
    );

    set_timestamp(&env, DEADLINE + 1);

    let mut ids = Vec::new();
    for i in 1_u64..=50 {
        ids.push(i);
    }
    let swept = client.cancel_expired(&owner_a, &ids);
    assert_eq!(swept, 50);

    let new_id = client.create_proposal(
        &owner_a,
        &t(&recipient, 1_000_000_i128, &token_client.address),
        &text("new"),
        &(DEADLINE + 86_400),
        &ProposalCategory::Transfer,
    );
    assert_eq!(new_id, 51);
}

#[test]
fn add_owner_full_lifecycle() {
    let (_, client, owner_a, owner_b, owner_c, non_owner, _) = setup(2);

    // The future owner is not part of the set yet.
    assert!(!client.is_owner(&non_owner));

    let id = client.create_add_owner_proposal(
        &owner_a,
        &non_owner,
        &text("Add a fourth owner"),
        &DEADLINE,
    );
    assert_eq!(client.get_proposal(&id).status, ProposalStatus::Pending);

    client.approve(&owner_a, &id);
    client.approve(&owner_b, &id);
    assert_eq!(client.get_proposal(&id).status, ProposalStatus::Ready);

    client.execute(&owner_c, &id);
    assert_eq!(client.get_proposal(&id).status, ProposalStatus::Executed);

    // The new owner now appears in the owner set.
    let owners = client.get_owners();
    assert_eq!(owners.len(), 4);
    assert!(owners.contains(&non_owner));
    assert!(client.is_owner(&non_owner));
}

#[test]
fn create_add_owner_proposal_rejects_existing_owner() {
    let (_, client, owner_a, owner_b, _, _, _) = setup(2);

    // owner_b is already an owner, so proposing to add them is rejected.
    assert_eq!(
        client.try_create_add_owner_proposal(
            &owner_a,
            &owner_b,
            &text("Re-add an existing owner"),
            &DEADLINE,
        ),
        Err(ContractError::DuplicateOwner)
    );
}

#[test]
fn create_add_owner_proposal_rejects_at_max_owners() {
    let env = World::new();
    set_timestamp(&env, NOW);

    let contract_id = env.wallet();
    let client = Client::new(&env, &contract_id);

    // Initialize with exactly MAX_OWNERS (20) owners.
    let mut owners = Vec::new();
    let first_owner = someone(&env);
    owners.push(first_owner);
    for _ in 1..20 {
        owners.push(someone(&env));
    }
    let mut weights = Vec::new();
    for _ in 0..owners.len() {
        weights.push(1);
    }
    client.initialize(&owners, &weights, &1, &0);
    assert_eq!(client.get_owners().len(), 20);

    // Adding a 21st owner would exceed the cap.
    let new_owner = someone(&env);
    assert_eq!(
        client.try_create_add_owner_proposal(
            &first_owner,
            &new_owner,
            &text("Exceed the owner cap"),
            &DEADLINE,
        ),
        Err(ContractError::InvalidOwners)
    );
}

#[test]
fn spending_limit_full_lifecycle() {
    let (env, client, owner_a, owner_b, owner_c, _, token_client) = setup(2);
    let limit: i128 = 1_000_000;

    // No limit initially: unrestricted.
    assert_eq!(
        client.get_spending_limit(&owner_a, &token_client.address),
        None
    );

    // Set a limit for owner_a via the multisig flow: propose, approve, execute.
    let id = client.create_spending_limit_proposal(
        &owner_a,
        &owner_a,
        &token_client.address,
        &limit,
        &text("Cap owner_a at 1,000,000"),
        &DEADLINE,
    );
    client.approve(&owner_a, &id);
    client.approve(&owner_b, &id);
    client.execute(&owner_c, &id);

    assert_eq!(
        client.get_spending_limit(&owner_a, &token_client.address),
        Some(limit)
    );

    // A proposal at the limit succeeds.
    let within = client.create_proposal(
        &owner_a,
        &t(&someone(&env), limit, &token_client.address),
        &text("Within limit"),
        &DEADLINE,
        &ProposalCategory::Transfer,
    );
    assert!(within > 0);

    // A proposal over the limit is rejected.
    assert_eq!(
        client.try_create_proposal(
            &owner_a,
            &t(&someone(&env), limit + 1, &token_client.address),
            &text("Over limit"),
            &DEADLINE,
            &ProposalCategory::Transfer,
        ),
        Err(ContractError::SpendingLimitExceeded)
    );
}

#[test]
fn proposer_without_limit_is_unrestricted() {
    let (env, client, owner_a, _, _, _, token_client) = setup(2);

    // No limit configured for owner_a, so a large amount is allowed.
    let id = client.create_proposal(
        &owner_a,
        &t(&someone(&env), 1_000_000_000, &token_client.address),
        &text("Large amount, no limit"),
        &DEADLINE,
        &ProposalCategory::Transfer,
    );
    assert_eq!(id, 1);
}

#[test]
fn spending_limit_cumulative_across_multiple_proposals() {
    let (env, client, owner_a, owner_b, owner_c, _, token_client) = setup(2);
    let limit: i128 = 10_000_000;

    // Set a spending limit of 10M for owner_a.
    let limit_id = client.create_spending_limit_proposal(
        &owner_a,
        &owner_a,
        &token_client.address,
        &limit,
        &text("Set 10M limit"),
        &DEADLINE,
    );
    client.approve(&owner_a, &limit_id);
    client.approve(&owner_b, &limit_id);
    client.execute(&owner_c, &limit_id);

    // First proposal of 6M succeeds (under 10M).
    let id1 = client.create_proposal(
        &owner_a,
        &t(&someone(&env), 6_000_000, &token_client.address),
        &text("First 6M"),
        &DEADLINE,
        &ProposalCategory::Transfer,
    );
    assert!(id1 > 0);

    // Execute the first proposal so the 6M counts as spent.
    client.approve(&owner_a, &id1);
    client.approve(&owner_b, &id1);
    client.execute(&owner_c, &id1);

    // Second proposal of 5M would push cumulative to 11M > 10M -> rejected.
    assert_eq!(
        client.try_create_proposal(
            &owner_a,
            &t(&someone(&env), 5_000_000, &token_client.address),
            &text("Second 5M"),
            &DEADLINE,
            &ProposalCategory::Transfer,
        ),
        Err(ContractError::SpendingLimitExceeded)
    );

    // Third proposal of 4M succeeds (6M + 4M = 10M, exactly at the limit).
    let id3 = client.create_proposal(
        &owner_a,
        &t(&someone(&env), 4_000_000, &token_client.address),
        &text("Third 4M"),
        &DEADLINE,
        &ProposalCategory::Transfer,
    );
    assert!(id3 > 0);

    // The remaining limit should now show 4M (not yet executed).
    let remaining = client.get_remaining_spending_limit(&owner_a, &token_client.address);
    assert_eq!(remaining, Some(4_000_000));

    // Execute the third proposal.
    client.approve(&owner_a, &id3);
    client.approve(&owner_b, &id3);
    client.execute(&owner_c, &id3);

    // Remaining should now be 0.
    let remaining = client.get_remaining_spending_limit(&owner_a, &token_client.address);
    assert_eq!(remaining, Some(0));
}

#[test]
fn spending_limit_cumulative_with_same_token_multi_transfer() {
    let (env, client, owner_a, owner_b, owner_c, _, token_client) = setup(2);
    let limit: i128 = 10_000_000;

    let limit_id = client.create_spending_limit_proposal(
        &owner_a,
        &owner_a,
        &token_client.address,
        &limit,
        &text("Set limit"),
        &DEADLINE,
    );
    client.approve(&owner_a, &limit_id);
    client.approve(&owner_b, &limit_id);
    client.execute(&owner_c, &limit_id);

    // A multi-transfer proposal with two transfers of the same token - totals are aggregated.
    let recipient1 = someone(&env);
    let recipient2 = someone(&env);
    let mut transfers = Vec::new();
    transfers.push(Transfer {
        to: recipient1,
        token: token_client.address,
        amount: 6_000_000,
    });
    transfers.push(Transfer {
        to: recipient2,
        token: token_client.address,
        amount: 5_000_000,
    });
    // 6M + 5M = 11M, exceeding the 10M limit.
    assert_eq!(
        client.try_create_proposal(
            &owner_a,
            &transfers,
            &text("Multi-transfer over limit"),
            &DEADLINE,
            &ProposalCategory::Transfer,
        ),
        Err(ContractError::SpendingLimitExceeded)
    );
}

#[test]
fn spending_limit_different_tokens_independent() {
    let (env, client, owner_a, owner_b, owner_c, _, token_client) = setup(2);

    let token_id2 = env.issue_token();
    let token2_client = Token::new(&env, &token_id2);

    // Set limit on first token only.
    let limit_id = client.create_spending_limit_proposal(
        &owner_a,
        &owner_a,
        &token_client.address,
        &1_000_000,
        &text("Limit token 1"),
        &DEADLINE,
    );
    client.approve(&owner_a, &limit_id);
    client.approve(&owner_b, &limit_id);
    client.execute(&owner_c, &limit_id);

    // Spend on token 1 (900k).
    let id1 = client.create_proposal(
        &owner_a,
        &t(&someone(&env), 900_000, &token_client.address),
        &text("Use token 1"),
        &DEADLINE,
        &ProposalCategory::Transfer,
    );
    client.approve(&owner_a, &id1);
    client.approve(&owner_b, &id1);
    client.execute(&owner_c, &id1);

    // Remaining on token 1: 100k.
    assert_eq!(
        client.get_remaining_spending_limit(&owner_a, &token_client.address),
        Some(100_000)
    );

    // Token 2 has no limit - unrestricted.
    assert_eq!(
        client.get_remaining_spending_limit(&owner_a, &token2_client.address),
        None,
    );

    // Large proposal on token 2 (unrestricted) succeeds.
    let id2 = client.create_proposal(
        &owner_a,
        &t(&someone(&env), 999_999_999, &token2_client.address),
        &text("Large token 2"),
        &DEADLINE,
        &ProposalCategory::Transfer,
    );
    assert!(id2 > 0);
}

#[test]
fn get_remaining_spending_limit_no_limit() {
    let (_, client, owner_a, _, _, _, token_client) = setup(2);
    assert_eq!(
        client.get_remaining_spending_limit(&owner_a, &token_client.address),
        None,
    );
}

#[test]
fn spending_limit_window_expiry_resets_cumulative() {
    let (env, client, owner_a, owner_b, owner_c, _, token_client) = setup(2);
    let limit: i128 = 10_000_000;

    let limit_id = client.create_spending_limit_proposal(
        &owner_a,
        &owner_a,
        &token_client.address,
        &limit,
        &text("Set limit"),
        &DEADLINE,
    );
    client.approve(&owner_a, &limit_id);
    client.approve(&owner_b, &limit_id);
    client.execute(&owner_c, &limit_id);

    // Spend 6M.
    let id1 = client.create_proposal(
        &owner_a,
        &t(&someone(&env), 6_000_000, &token_client.address),
        &text("Spend 6M"),
        &DEADLINE,
        &ProposalCategory::Transfer,
    );
    client.approve(&owner_a, &id1);
    client.approve(&owner_b, &id1);
    client.execute(&owner_c, &id1);

    assert_eq!(
        client.get_remaining_spending_limit(&owner_a, &token_client.address),
        Some(4_000_000)
    );

    // Advance time past the spending window.
    // SPENDING_WINDOW is 2_592_000 (30 days). We are at NOW (1_000) after execute.
    // Setting epoch + window expiry: move past NOW + 2_592_000.
    set_timestamp(&env, NOW + 2_592_001);

    // After window expiry, the spent should reset.
    // But first, the spend tracker epoch was set to NOW (1_000) via SetSpendingLimit execute.
    // NOW is 1_000, NOW + SPENDING_WINDOW = 2_593_000. We advanced to 2_593_001.
    assert_eq!(
        client.get_remaining_spending_limit(&owner_a, &token_client.address),
        Some(limit),
    );

    // New spending after window reset also works.
    let far_deadline = NOW + 2_592_000 + 86_400;
    let id2 = client.create_proposal(
        &owner_a,
        &t(&someone(&env), 5_000_000, &token_client.address),
        &text("New window spend"),
        &far_deadline,
        &ProposalCategory::Transfer,
    );
    assert!(id2 > 0);
}

#[test]
fn change_weight_full_lifecycle() {
    let (_, client, owner_a, owner_b, owner_c, _, _) = setup(2);

    // Owner A (default weight 1) and Owner B (default weight 1).
    assert_eq!(client.get_total_weight(), 3);

    let id = client.create_change_weight_proposal(
        &owner_a,
        &owner_b,
        &2,
        &text("Change owner_b weight to 2"),
        &DEADLINE,
    );
    assert_eq!(client.get_proposal(&id).status, ProposalStatus::Pending);

    client.approve(&owner_a, &id);
    client.approve(&owner_b, &id);
    assert_eq!(client.get_proposal(&id).status, ProposalStatus::Ready);

    client.execute(&owner_c, &id);
    assert_eq!(client.get_proposal(&id).status, ProposalStatus::Executed);

    // Total weight should be: old(3) - old_owner_b_weight(1) + new_owner_b_weight(2) = 4.
    assert_eq!(client.get_total_weight(), 4);
}

#[test]
fn change_weight_with_active_proposals_passes_invariant_check() {
    let env = World::new();
    set_timestamp(&env, NOW);

    let owner_a = someone(&env);
    let owner_b = someone(&env);
    let owner_c = someone(&env);
    let recipient = someone(&env);

    let token_id = env.issue_token();
    let token_client = Token::new(&env, &token_id);
    let token_sac = Token::new(&env, &token_id);

    let contract_id = env.wallet();
    let client = Client::new(&env, &contract_id);

    let mut owners = Vec::new();
    owners.push(owner_a);
    owners.push(owner_b);
    owners.push(owner_c);

    let mut weights = Vec::new();
    weights.push(1);
    weights.push(1);
    weights.push(1);
    client.initialize(&owners, &weights, &2, &0);
    token_sac.mint(&contract_id, &1_000_000_000_000_i128);

    let transfer_id = client.create_proposal(
        &owner_a,
        &t(&recipient, 1_000_000, &token_client.address),
        &text("Active while weight changes"),
        &DEADLINE,
        &ProposalCategory::Transfer,
    );
    client.approve(&owner_a, &transfer_id);

    // Change Owner A's weight from 1 to 2. New total = 3 - 1 + 2 = 4.
    // Active proposal has quorum=2. 2 <= 4, so the invariant check passes.
    let weight_id = client.create_change_weight_proposal(
        &owner_b,
        &owner_a,
        &2,
        &text("Increase owner_a weight"),
        &DEADLINE,
    );
    client.approve(&owner_b, &weight_id);
    client.approve(&owner_c, &weight_id);
    client.execute(&owner_c, &weight_id);

    assert_eq!(
        client.get_proposal(&weight_id).status,
        ProposalStatus::Executed
    );
    assert_eq!(client.get_total_weight(), 4);

    // The transfer proposal is still viable.
    client.approve(&owner_b, &transfer_id);
    assert_eq!(
        client.get_proposal(&transfer_id).status,
        ProposalStatus::Ready
    );
}

#[test]
fn change_weight_rejects_non_existent_owner() {
    let (env, client, owner_a, _, _, _, _) = setup(2);
    let non_owner = someone(&env);

    assert_eq!(
        client.try_create_change_weight_proposal(
            &owner_a,
            &non_owner,
            &5,
            &text("Change non-owner weight"),
            &DEADLINE,
        ),
        Err(ContractError::OwnerNotFound)
    );
}

#[test]
fn change_weight_rejects_invalid_weight() {
    let (_, client, owner_a, owner_b, _, _, _) = setup(2);

    assert_eq!(
        client.try_create_change_weight_proposal(
            &owner_a,
            &owner_b,
            &0,
            &text("Weight zero"),
            &DEADLINE,
        ),
        Err(ContractError::InvalidWeight)
    );

    assert_eq!(
        client.try_create_change_weight_proposal(
            &owner_a,
            &owner_b,
            &100_001,
            &text("Weight too high"),
            &DEADLINE,
        ),
        Err(ContractError::InvalidWeight)
    );
}

#[test]
fn change_weight_rejects_zero_at_creation_and_execution() {
    let (_, client, owner_a, owner_b, owner_c, _, _) = setup(1);

    assert_eq!(
        client.try_create_change_weight_proposal(
            &owner_a,
            &owner_b,
            &0,
            &text("Zero is removal"),
            &DEADLINE,
        ),
        Err(ContractError::InvalidWeight)
    );

    // Simulate an old or malformed stored proposal: execute must independently
    // reject zero rather than creating a listed but non-voting owner.
    let proposal = Proposal {
        id: 999,
        proposer: owner_a,
        description: text("Malformed zero weight"),
        deadline: DEADLINE,
        approvals: 1,
        status: ProposalStatus::Ready,
        kind: ProposalKind::ChangeOwnerWeight(owner_b, 0),
        ready_at: NOW,
        quorum_weight: 1,
        category: ProposalCategory::Other,
    };
    client.store(proposal);
    assert_eq!(
        client.try_execute(&owner_c, &999),
        Err(ContractError::InvalidWeight)
    );
    assert_eq!(client.get_total_weight(), 3);
}

#[test]
fn change_weight_enforces_single_owner_cap_at_creation_and_execution() {
    let env = World::new();
    set_timestamp(&env, NOW);
    let contract_id = env.wallet();
    let client = Client::new(&env, &contract_id);
    let a = someone(&env);
    let b = someone(&env);
    let c = someone(&env);
    let mut owners = Vec::new();
    owners.push(a);
    owners.push(b);
    owners.push(c);
    let mut weights = Vec::new();
    weights.push(2);
    weights.push(2);
    weights.push(2);
    client.initialize(&owners, &weights, &1, &0);

    // 5 / 9 exceeds the default 50% cap; 4 / 8 is exactly at the cap.
    assert_eq!(
        client.try_create_change_weight_proposal(&a, &a, &5, &text("Over cap"), &DEADLINE),
        Err(ContractError::SingleOwnerWeightCapExceeded)
    );
    let pending = client.create_change_weight_proposal(&a, &a, &4, &text("At cap"), &DEADLINE);

    // Reduce B first. The pending A=4 change now yields 4 / 7, so it must fail
    // when executed even though it was valid when created (4 / 8).
    let reduce_b =
        client.create_change_weight_proposal(&a, &b, &1, &text("Reduce B"), &DEADLINE);
    client.approve(&a, &reduce_b);
    client.execute(&c, &reduce_b);
    client.approve(&a, &pending);
    assert_eq!(
        client.try_execute(&c, &pending),
        Err(ContractError::SingleOwnerWeightCapExceeded)
    );
}

#[test]
fn concentrated_weight_can_authorize_sensitive_action_once() {
    let env = World::new();
    set_timestamp(&env, NOW);
    let contract_id = env.wallet();
    let client = Client::new(&env, &contract_id);
    let heavy = someone(&env);
    let b = someone(&env);
    let c = someone(&env);
    let mut owners = Vec::new();
    owners.push(heavy);
    owners.push(b);
    owners.push(c);
    let mut weights = Vec::new();
    weights.push(3);
    weights.push(1);
    weights.push(1);
    client.initialize(&owners, &weights, &3, &0);
    let mut approvers = Vec::new();
    approvers.push(heavy);
    client.set_guardian(&approvers, &someone(&env));
}

#[test]
fn max_single_owner_weight_cap_is_configurable_but_never_allows_a_majority() {
    let (_, client, owner_a, owner_b, _, _, _) = setup(2);
    assert_eq!(client.get_max_single_owner_weight_pct(), 50);
    let mut approvers = Vec::new();
    approvers.push(owner_a);
    approvers.push(owner_b);
    client.set_max_single_owner_weight_pct(&approvers, &40);
    assert_eq!(client.get_max_single_owner_weight_pct(), 40);
    assert_eq!(
        client.try_set_max_single_owner_weight_pct(&approvers, &51),
        Err(ContractError::InvalidWeight)
    );
}

/// Verifies that `ProposalCreatedEvent` captures `quorum_weight` and
/// `total_weight_at_creation` at the moment of creation, and that those
/// recorded values are unaffected by weight changes made afterwards.
#[test]
fn test_proposal_created_event_snapshots_weights() {
    // 3 owners each with weight 1, threshold 2 -> total_weight = 3.
    let (env, client, owner_a, owner_b, owner_c, _, token_client) = setup(2);

    let recipient = someone(&env);
    let _id = client.create_proposal(
        &owner_a,
        &t(&recipient, 1_000_000, &token_client.address),
        &text("Snapshot test"),
        &DEADLINE,
        &ProposalCategory::Transfer,
    );

    // Capture the ProposalCreatedEvent emitted by the creation call.
    let contract_events = client.events();
    assert!(!contract_events.is_empty(), "expected a created event");

    let event: ProposalCreatedEvent = match &contract_events[0] {
        Event::ProposalCreated(event) => event.clone(),
        _ => panic!("expected a created event"),
    };

    // At creation: threshold = 2, total_weight = 3.
    assert_eq!(event.quorum_weight, 2, "quorum_weight should equal the threshold at creation");
    assert_eq!(event.total_weight_at_creation, 3, "total_weight_at_creation should equal the sum of all owner weights at creation");

    // Remove owner_c, reducing the live total weight to 2.
    let remove_id = client.create_remove_owner_proposal(
        &owner_a,
        &owner_c,
        &text("Remove owner_c"),
        &DEADLINE,
    );
    client.approve(&owner_a, &remove_id);
    client.approve(&owner_b, &remove_id);
    client.execute(&owner_b, &remove_id);

    // Live total weight is now 2.
    assert_eq!(client.get_total_weight(), 2, "total weight after removal should be 2");

    // The captured event must still reflect the values from creation time.
    assert_eq!(event.quorum_weight, 2, "historical quorum_weight must be unchanged after owner removal");
    assert_eq!(event.total_weight_at_creation, 3, "historical total_weight_at_creation must be unchanged after owner removal");
}

#[test]
fn multi_transfer_success() {
    let (env, client, owner_a, owner_b, owner_c, _, token_client) = setup(2);
    let recipient1 = someone(&env);
    let recipient2 = someone(&env);
    let amount1: i128 = 50_000_000;
    let amount2: i128 = 30_000_000;

    let mut transfers = Vec::new();
    transfers.push(Transfer {
        to: recipient1,
        token: token_client.address,
        amount: amount1,
    });
    transfers.push(Transfer {
        to: recipient2,
        token: token_client.address,
        amount: amount2,
    });

    let id = client.create_proposal(
        &owner_a,
        &transfers,
        &text("Multi-transfer"),
        &DEADLINE,
        &ProposalCategory::Transfer,
    );

    client.approve(&owner_a, &id);
    client.approve(&owner_b, &id);

    let before1 = token_client.balance(&recipient1);
    let before2 = token_client.balance(&recipient2);

    client.execute(&owner_c, &id);

    assert_eq!(token_client.balance(&recipient1) - before1, amount1);
    assert_eq!(token_client.balance(&recipient2) - before2, amount2);
    assert_eq!(client.get_proposal(&id).status, ProposalStatus::Executed);
}

#[test]
fn multi_transfer_failure_atomic() {
    let (env, client, owner_a, owner_b, owner_c, _, token_client) = setup(2);
    let recipient1 = someone(&env);
    let recipient2 = someone(&env);
    let recipient3 = someone(&env);
    let amount: i128 = 10_000_000;

    let token_id2 = env.issue_token();
    let token2_client = Token::new(&env, &token_id2);

    // Contract has no balance for token2, so the second transfer will fail.

    let mut transfers = Vec::new();
    transfers.push(Transfer {
        to: recipient1,
        token: token_client.address,
        amount,
    });
    transfers.push(Transfer {
        to: recipient2,
        token: token2_client.address,
        amount,
    });
    transfers.push(Transfer {
        to: recipient3,
        token: token_client.address,
        amount,
    });

    let id = client.create_proposal(
        &owner_a,
        &transfers,
        &text("Atomic failure"),
        &DEADLINE,
        &ProposalCategory::Transfer,
    );

    client.approve(&owner_a, &id);
    client.approve(&owner_b, &id);

    let before1 = token_client.balance(&recipient1);
    let before2 = token_client.balance(&recipient2);
    let before3 = token_client.balance(&recipient3);
    let before_contract = token_client.balance(&client.address);

    assert_eq!(
        client.try_execute(&owner_c, &id),
        Err(ContractError::TransferFailed)
    );

    // Balances must remain unchanged after the failed atomic execution.
    assert_eq!(token_client.balance(&recipient1), before1);
    assert_eq!(token_client.balance(&recipient2), before2);
    assert_eq!(token_client.balance(&recipient3), before3);
    assert_eq!(token_client.balance(&client.address), before_contract);
}

#[test]
fn create_proposal_rejects_invalid_transfer_count() {
    let (env, client, owner_a, _, _, _, token_client) = setup(2);

    // Empty transfer list should be rejected.
    let empty: Vec<Transfer> = Vec::new();
    assert_eq!(
        client.try_create_proposal(
            &owner_a,
            &empty,
            &text("Empty transfers"),
            &DEADLINE,
            &ProposalCategory::Transfer,
        ),
        Err(ContractError::InvalidAmount)
    );

    // More than 3 transfers should be rejected.
    let mut too_many = Vec::new();
    for _ in 0..4 {
        too_many.push(Transfer {
            to: someone(&env),
            token: token_client.address,
            amount: 1_000_000,
        });
    }
    assert_eq!(
        client.try_create_proposal(
            &owner_a,
            &too_many,
            &text("Too many transfers"),
            &DEADLINE,
            &ProposalCategory::Transfer,
        ),
        Err(ContractError::InvalidAmount)
    );

    // Exactly 1 and 3 should succeed (boundary check).
    let mut one = Vec::new();
    one.push(Transfer {
        to: someone(&env),
        token: token_client.address,
        amount: 1_000_000,
    });
    assert!(client
        .try_create_proposal(
            &owner_a,
            &one,
            &text("One transfer"),
            &DEADLINE,
            &ProposalCategory::Transfer,
        )
        .is_ok());

    let mut three = Vec::new();
    for _ in 0..3 {
        three.push(Transfer {
            to: someone(&env),
            token: token_client.address,
            amount: 1_000_000,
        });
    }
    assert!(client
        .try_create_proposal(
            &owner_a,
            &three,
            &text("Three transfers"),
            &DEADLINE,
            &ProposalCategory::Transfer,
        )
        .is_ok());
}

#[test]
fn execute_success_with_weighted_votes() {
    let env = World::new();
    set_timestamp(&env, NOW);

    let owner_a = someone(&env);
    let owner_b = someone(&env);
    let owner_c = someone(&env);
    let recipient = someone(&env);

    let token_id = env.issue_token();
    let token_client = Token::new(&env, &token_id);
    let token_sac = Token::new(&env, &token_id);

    let contract_id = env.wallet();
    let client = Client::new(&env, &contract_id);

    let mut owners = Vec::new();
    owners.push(owner_a);
    owners.push(owner_b);
    owners.push(owner_c);

    // Initialize with unequal weights: Owner A has weight 3, B and C have 1.
    // Threshold (quorum weight) is 3.
    let mut weights = Vec::new();
    weights.push(3);
    weights.push(1);
    weights.push(1);
    client.initialize(&owners, &weights, &3, &0);

    // Fund the multisig contract.
    token_sac.mint(&contract_id, &1_000_000_000_000_i128);

    let amount: i128 = 100_000_000;
    let id = client.create_proposal(
        &owner_a,
        &t(&recipient, amount, &token_client.address),
        &text("Weighted transfer"),
        &DEADLINE,
        &ProposalCategory::Transfer,
    );

    assert_eq!(client.get_proposal(&id).status, ProposalStatus::Pending);

    // Approve with Owner A (weight 3). This alone meets the quorum threshold of 3.
    client.approve(&owner_a, &id);
    assert_eq!(client.get_proposal(&id).status, ProposalStatus::Ready);

    let before = token_client.balance(&recipient);
    // Execute should succeed with only 1 approver.
    client.execute(&owner_a, &id);
    assert_eq!(token_client.balance(&recipient) - before, amount);
    assert_eq!(client.get_proposal(&id).status, ProposalStatus::Executed);
}

#[test]
fn execute_rejected_with_insufficient_weighted_votes() {
    let env = World::new();
    set_timestamp(&env, NOW);

    let owner_a = someone(&env);
    let owner_b = someone(&env);
    let owner_c = someone(&env);
    let recipient = someone(&env);

    let token_id = env.issue_token();
    let token_client = Token::new(&env, &token_id);
    let token_sac = Token::new(&env, &token_id);

    let contract_id = env.wallet();
    let client = Client::new(&env, &contract_id);

    let mut owners = Vec::new();
    owners.push(owner_a);
    owners.push(owner_b);
    owners.push(owner_c);

    // Initialize with weights: Owner A has weight 1, B has 1, C has 3.
    // Threshold (quorum weight) is 3.
    let mut weights = Vec::new();
    weights.push(1);
    weights.push(1);
    weights.push(3);
    client.initialize(&owners, &weights, &3, &0);

    // Fund the multisig contract.
    token_sac.mint(&contract_id, &1_000_000_000_000_i128);

    let amount: i128 = 100_000_000;
    let id = client.create_proposal(
        &owner_a,
        &t(&recipient, amount, &token_client.address),
        &text("Insufficient weighted transfer"),
        &DEADLINE,
        &ProposalCategory::Transfer,
    );

    assert_eq!(client.get_proposal(&id).status, ProposalStatus::Pending);

    // Approve with Owner A (weight 1) and Owner B (weight 1).
    // Flat approval count is 2, but cumulative weight is 2, which is less than quorum 3.
    client.approve(&owner_a, &id);
    client.approve(&owner_b, &id);
    assert_eq!(client.get_proposal(&id).status, ProposalStatus::Pending);

    // Execute should fail with ThresholdNotMet.
    assert_eq!(
        client.try_execute(&owner_c, &id),
        Err(ContractError::ThresholdNotMet)
    );
}

#[test]
fn weighted_proposal_ready_via_weighted_approval_expires_and_is_swept() {
    let env = World::new();
    set_timestamp(&env, NOW);

    let owner_a = someone(&env);
    let owner_b = someone(&env);
    let owner_c = someone(&env);

    let token_id = env.issue_token();
    let token_client = Token::new(&env, &token_id);
    let token_sac = Token::new(&env, &token_id);

    let contract_id = env.wallet();
    let client = Client::new(&env, &contract_id);

    let mut owners = Vec::new();
    owners.push(owner_a);
    owners.push(owner_b);
    owners.push(owner_c);

    // Owner A has weight 3; B and C have weight 1. Threshold = 3.
    let mut weights = Vec::new();
    weights.push(3);
    weights.push(1);
    weights.push(1);
    client.initialize(&owners, &weights, &3, &0);
    token_sac.mint(&contract_id, &1_000_000_000_000_i128);

    let short_deadline = NOW + 100;
    let id = client.create_proposal(
        &owner_a,
        &t(&someone(&env), 1_000_000, &token_client.address),
        &text("Weighted, will expire"),
        &short_deadline,
        &ProposalCategory::Transfer,
    );

    // Owner A (weight 3) alone meets quorum 3 -> Ready.
    client.approve(&owner_a, &id);
    assert_eq!(client.get_proposal(&id).status, ProposalStatus::Ready);

    // Advance past deadline without executing -> Expired.
    set_timestamp(&env, short_deadline + 1);
    assert_eq!(client.get_proposal(&id).status, ProposalStatus::Expired);

    // cancel_expired sweeps it and decrements active count.
    let mut ids = Vec::new();
    ids.push(id);
    let swept = client.cancel_expired(&owner_a, &ids);
    assert_eq!(swept, 1);
}

#[test]
fn weighted_proposal_insufficient_weight_expires_not_counted_active() {
    let env = World::new();
    set_timestamp(&env, NOW);

    let owner_a = someone(&env);
    let owner_b = someone(&env);
    let owner_c = someone(&env);

    let token_id = env.issue_token();
    let token_client = Token::new(&env, &token_id);
    let token_sac = Token::new(&env, &token_id);

    let contract_id = env.wallet();
    let client = Client::new(&env, &contract_id);

    let mut owners = Vec::new();
    owners.push(owner_a);
    owners.push(owner_b);
    owners.push(owner_c);

    // C has weight 3; A and B have weight 1. Threshold = 3.
    let mut weights = Vec::new();
    weights.push(1);
    weights.push(1);
    weights.push(3);
    client.initialize(&owners, &weights, &3, &0);
    token_sac.mint(&contract_id, &1_000_000_000_000_i128);

    let short_deadline = NOW + 100;
    let id = client.create_proposal(
        &owner_a,
        &t(&someone(&env), 1_000_000, &token_client.address),
        &text("Needs weight 3, has 2"),
        &short_deadline,
        &ProposalCategory::Transfer,
    );

    // A + B approve (1+1=2). Below quorum 3 -> stays Pending.
    client.approve(&owner_a, &id);
    client.approve(&owner_b, &id);
    assert_eq!(client.get_proposal(&id).status, ProposalStatus::Pending);

    // Advance past deadline -> Expired.
    set_timestamp(&env, short_deadline + 1);
    assert_eq!(client.get_proposal(&id).status, ProposalStatus::Expired);

    // Sweep and confirm.
    let mut ids = Vec::new();
    ids.push(id);
    let swept = client.cancel_expired(&owner_a, &ids);
    assert_eq!(swept, 1);
}

#[test]
fn weighted_active_count_sequence_execute_expire_sweep() {
    let env = World::new();
    set_timestamp(&env, NOW);

    let owner_a = someone(&env);
    let owner_b = someone(&env);
    let owner_c = someone(&env);

    let token_id = env.issue_token();
    let token_client = Token::new(&env, &token_id);
    let token_sac = Token::new(&env, &token_id);

    let contract_id = env.wallet();
    let client = Client::new(&env, &contract_id);

    let mut owners = Vec::new();
    owners.push(owner_a);
    owners.push(owner_b);
    owners.push(owner_c);

    // A=3, B=1, C=1. Threshold=2. Total=5.
    let mut weights = Vec::new();
    weights.push(3);
    weights.push(1);
    weights.push(1);
    client.initialize(&owners, &weights, &2, &0);
    token_sac.mint(&contract_id, &1_000_000_000_000_i128);

    let short_deadline = NOW + 200;
    let long_deadline = NOW + 10_000;

    // P1: A approves (3) -> Ready, then execute.
    let p1 = client.create_proposal(
        &owner_a,
        &t(&someone(&env), 1_000_000, &token_client.address),
        &text("P1-execute"),
        &long_deadline,
        &ProposalCategory::Transfer,
    );
    client.approve(&owner_a, &p1);
    assert_eq!(client.get_proposal(&p1).status, ProposalStatus::Ready);
    client.execute(&owner_a, &p1);
    assert_eq!(client.get_proposal(&p1).status, ProposalStatus::Executed);

    // P2: B+C approve (1+1=2) -> Ready, then expires.
    let p2 = client.create_proposal(
        &owner_b,
        &t(&someone(&env), 1_000_000, &token_client.address),
        &text("P2-expire"),
        &short_deadline,
        &ProposalCategory::Transfer,
    );
    client.approve(&owner_b, &p2);
    client.approve(&owner_c, &p2);
    assert_eq!(client.get_proposal(&p2).status, ProposalStatus::Ready);

    // P3: A approves (3) -> Ready, then execute.
    let p3 = client.create_proposal(
        &owner_a,
        &t(&someone(&env), 1_000_000, &token_client.address),
        &text("P3-execute"),
        &long_deadline,
        &ProposalCategory::Transfer,
    );
    client.approve(&owner_a, &p3);
    assert_eq!(client.get_proposal(&p3).status, ProposalStatus::Ready);
    client.execute(&owner_a, &p3);
    assert_eq!(client.get_proposal(&p3).status, ProposalStatus::Executed);

    // Advance past short deadline - P2 expires.
    set_timestamp(&env, short_deadline + 1);
    assert_eq!(client.get_proposal(&p2).status, ProposalStatus::Expired);

    // Sweep P2.
    let mut ids = Vec::new();
    ids.push(p2);
    let swept = client.cancel_expired(&owner_a, &ids);
    assert_eq!(swept, 1);

    // All proposals are now terminal; a fresh proposal should work.
    let p4 = client.create_proposal(
        &owner_a,
        &t(&someone(&env), 1_000_000, &token_client.address),
        &text("P4-fresh"),
        &long_deadline,
        &ProposalCategory::Transfer,
    );
    assert!(p4 > 0);
}

#[test]
fn add_owner_execute_emits_add_owner_event() {
    let (_, client, owner_a, owner_b, owner_c, new_owner, _) = setup(2);

    let id = client.create_add_owner_proposal(
        &owner_a,
        &new_owner,
        &text("Add new owner"),
        &DEADLINE,
    );
    client.approve(&owner_a, &id);
    client.approve(&owner_b, &id);
    client.execute(&owner_c, &id);

    let a_own_event = client.event("a_own");
    assert!(a_own_event.is_some(), "expected an 'a_own' event");

    let event: AddOwnerExecutedEvent = match a_own_event.unwrap() {
        Event::AddOwnerExecuted(event) => event,
        _ => panic!("the topic belongs to another event"),
    };
    assert_eq!(event.new_owner, new_owner);
    assert_eq!(event.owner_count, 4);
}

#[test]
fn remove_owner_execute_emits_remove_owner_event() {
    let (_, client, owner_a, owner_b, owner_c, _, _) = setup(2);

    let id = client.create_remove_owner_proposal(
        &owner_a,
        &owner_c,
        &text("Remove owner_c"),
        &DEADLINE,
    );
    client.approve(&owner_a, &id);
    client.approve(&owner_b, &id);
    client.execute(&owner_c, &id);

    let r_own_event = client.event("r_own");
    assert!(r_own_event.is_some(), "expected an 'r_own' event");

    let event: RemoveOwnerExecutedEvent = match r_own_event.unwrap() {
        Event::RemoveOwnerExecuted(event) => event,
        _ => panic!("the topic belongs to another event"),
    };
    assert_eq!(event.removed_owner, owner_c);
    assert_eq!(event.owner_count, 2);
}

#[test]
fn change_threshold_execute_emits_change_threshold_event() {
    let (_, client, owner_a, owner_b, owner_c, _, _) = setup(3);

    let id = client.create_change_threshold_proposal(
        &owner_a,
        &2,
        &text("Lower threshold to 2"),
        &DEADLINE,
    );
    client.approve(&owner_a, &id);
    client.approve(&owner_b, &id);
    client.approve(&owner_c, &id);
    client.execute(&owner_c, &id);

    let c_thr_event = client.event("c_thr");
    assert!(c_thr_event.is_some(), "expected a 'c_thr' event");

    let event: ChangeThresholdExecutedEvent = match c_thr_event.unwrap() {
        Event::ChangeThresholdExecuted(event) => event,
        _ => panic!("the topic belongs to another event"),
    };
    assert_eq!(event.previous_threshold, 3);
    assert_eq!(event.new_threshold, 2);
}

#[test]
fn set_spending_limit_execute_emits_spending_limit_event() {
    let (_, client, owner_a, owner_b, owner_c, _, token_client) = setup(2);

    // First set a limit (no previous limit).
    let id1 = client.create_spending_limit_proposal(
        &owner_a,
        &owner_a,
        &token_client.address,
        &1_000_000,
        &text("Set limit"),
        &DEADLINE,
    );
    client.approve(&owner_a, &id1);
    client.approve(&owner_b, &id1);
    client.execute(&owner_c, &id1);

    let s_lim_event = client.event("s_lim");
    assert!(s_lim_event.is_some(), "expected an 's_lim' event");

    let event: SetSpendingLimitExecutedEvent = match s_lim_event.unwrap() {
        Event::SetSpendingLimitExecuted(event) => event,
        _ => panic!("the topic belongs to another event"),
    };
    assert_eq!(event.owner, owner_a);
    assert_eq!(event.token, token_client.address);
    assert_eq!(event.previous_limit, None);
    assert_eq!(event.new_limit, 1_000_000);

    // Change the limit again - now there is a previous limit.
    let id2 = client.create_spending_limit_proposal(
        &owner_c,
        &owner_a,
        &token_client.address,
        &2_000_000,
        &text("Update limit"),
        &DEADLINE,
    );
    client.approve(&owner_a, &id2);
    client.approve(&owner_b, &id2);
    client.execute(&owner_c, &id2);

    let latest = client.events().into_iter().filter(|event| event.topic() == "s_lim").last();
    let event2: SetSpendingLimitExecutedEvent = match latest {
        Some(Event::SetSpendingLimitExecuted(event)) => event,
        _ => panic!("expected a second 's_lim' event"),
    };
    assert_eq!(event2.previous_limit, Some(1_000_000));
    assert_eq!(event2.new_limit, 2_000_000);
}

#[test]
fn spending_limit_independent_of_voting_weight() {
    let env = World::new();

    let owner_a = someone(&env);
    let owner_b = someone(&env);
    let owner_c = someone(&env);

    let token_contract = env.issue_token();
    let token_client = Token::new(&env, &token_contract);
    let token_admin = Token::new(&env, &token_contract);

    // Mint tokens to the contract
    let contract_id = env.wallet();
    token_admin.mint(&contract_id, &10_000_000);

    let client = Client::new(&env, &contract_id);
    client.initialize(
        &vec![owner_a, owner_b, owner_c],
        &vec![1, 5, 1], // owner_a has weight 1, owner_b has weight 5
        &2,
        &0,
    );

    // Set identical spending limit of 1000 for both owner_a and owner_b
    let limit_a_id = client.create_spending_limit_proposal(
        &owner_c,
        &owner_a,
        &token_client.address,
        &1000,
        &text("Limit A"),
        &(env.now() + 1000),
    );
    client.approve(&owner_b, &limit_a_id);
    client.execute(&owner_a, &limit_a_id);

    let limit_b_id = client.create_spending_limit_proposal(
        &owner_c,
        &owner_b,
        &token_client.address,
        &1000,
        &text("Limit B"),
        &(env.now() + 1000),
    );
    client.approve(&owner_b, &limit_b_id);
    client.execute(&owner_a, &limit_b_id);

    // Both should be able to create a proposal for exactly 1000
    let ok_id_a = client.create_proposal(
        &owner_a,
        &t(&owner_c, 1000, &token_client.address),
        &text("Transfer A OK"),
        &(env.now() + 1000),
        &ProposalCategory::Transfer,
    );
    assert!(ok_id_a > 0);

    let ok_id_b = client.create_proposal(
        &owner_b,
        &t(&owner_c, 1000, &token_client.address),
        &text("Transfer B OK"),
        &(env.now() + 1000),
        &ProposalCategory::Transfer,
    );
    assert!(ok_id_b > 0);

    // But neither should be able to create one for 1001 (limit exceeded)
    let err_a = client.try_create_proposal(
        &owner_a,
        &t(&owner_c, 1001, &token_client.address), // 1001 > 1000 limit
        &text("Transfer A Err"),
        &(env.now() + 1000),
        &ProposalCategory::Transfer,
    );
    assert_eq!(err_a, Err(ContractError::SpendingLimitExceeded));

    let err_b = client.try_create_proposal(
        &owner_b,
        &t(&owner_c, 1001, &token_client.address), // 1001 > 1000 limit
        &text("Transfer B Err"),
        &(env.now() + 1000),
        &ProposalCategory::Transfer,
    );
    assert_eq!(err_b, Err(ContractError::SpendingLimitExceeded));
}

#[test]
fn changing_weight_does_not_affect_spending_limit() {
    let env = World::new();

    let owner_a = someone(&env);
    let owner_b = someone(&env);
    let owner_c = someone(&env);

    let token_contract = env.issue_token();
    let token_client = Token::new(&env, &token_contract);

    let contract_id = env.wallet();
    let client = Client::new(&env, &contract_id);
    client.initialize(
        &vec![owner_a, owner_b, owner_c],
        &vec![1, 1, 1], // all weights 1 initially
        &2,
        &0,
    );

    // Set spending limit of 5000 for owner_a
    let limit_id = client.create_spending_limit_proposal(
        &owner_b,
        &owner_a,
        &token_client.address,
        &5000,
        &text("Limit A"),
        &(env.now() + 1000),
    );
    client.approve(&owner_a, &limit_id);
    client.approve(&owner_b, &limit_id);
    client.execute(&owner_c, &limit_id);

    assert_eq!(
        client.get_spending_limit(&owner_a, &token_client.address),
        Some(5000)
    );

    // Now change owner_a's weight to 2
    let weight_id = client.create_change_weight_proposal(
        &owner_b,
        &owner_a,
        &2,
        &text("Weight A to 2"),
        &(env.now() + 1000),
    );
    client.approve(&owner_a, &weight_id);
    client.approve(&owner_b, &weight_id);
    client.execute(&owner_c, &weight_id);

    // Spending limit should still be 5000
    assert_eq!(
        client.get_spending_limit(&owner_a, &token_client.address),
        Some(5000)
    );

    // Now change the spending limit to 10000
    let limit_id_2 = client.create_spending_limit_proposal(
        &owner_b,
        &owner_a,
        &token_client.address,
        &10000,
        &text("Limit A to 10000"),
        &(env.now() + 1000),
    );
    client.approve(&owner_a, &limit_id_2);
    client.approve(&owner_b, &limit_id_2);
    client.execute(&owner_c, &limit_id_2);

    assert_eq!(
        client.get_spending_limit(&owner_a, &token_client.address),
        Some(10000)
    );
}

/// Numbers that look random and are the same in every run.
struct Draw(u64);

impl Draw {
    fn next(&mut self, bound: u64) -> u64 {
        self.0 = self.0.wrapping_mul(6364136223846793005).wrapping_add(1442695040888963407);
        (self.0 >> 33) % bound
    }
}

/// A proposal's approval count never exceeds the number of owners: after every
/// owner approved once it equals that number, and a repeat is refused.
#[test]
fn approval_count_never_exceeds_owner_count() {
    for owner_count in 1u32..=20 {
        for threshold_seed in 1u32..=20 {
            let threshold = (threshold_seed - 1) % owner_count + 1;

            let env = World::new();
            set_timestamp(&env, NOW);
            let contract_id = env.wallet();
            let client = Client::new(&env, &contract_id);
            let token_client = Token::new(&env, &env.issue_token());

            let owners: Vec<Address> = (0..owner_count).map(|_| someone(&env)).collect();
            let weights = vec![1u32; owner_count as usize];
            client.initialize(&owners, &weights, &threshold, &0);
            token_client.mint(&contract_id, &1_000_000_000_000_i128);

            let id = client.create_proposal(
                &owners[0],
                &t(&someone(&env), 1_000_000, &token_client.address),
                &text("invariant proposal"),
                &DEADLINE,
                &ProposalCategory::Transfer,
            );
            for owner in owners.iter() {
                client.approve(owner, &id);
            }

            let proposal = client.get_proposal(&id);
            assert_eq!(proposal.approvals, owner_count);
            assert!(proposal.approvals <= owner_count);
            assert_eq!(client.try_approve(&owners[0], &id), Err(ContractError::AlreadyApproved));
        }
    }
}

/// Across valid owner additions, removals and weight changes, the cached total
/// equals the weights observable for every current owner.
#[test]
fn total_weight_matches_all_current_owner_weights() {
    for case in 0..64u64 {
        let mut draw = Draw(case);
        let env = World::new();
        set_timestamp(&env, NOW);
        let contract_id = env.wallet();
        let client = Client::new(&env, &contract_id);

        let mut owners: Vec<Address> = (0..3).map(|_| someone(&env)).collect();
        let mut model_weights: Vec<u32> = vec![1, 1, 1];
        client.initialize(&owners, &vec![1, 1, 1], &1, &0);

        for _ in 0..(1 + draw.next(20)) {
            let kind = draw.next(3);
            let seed = 1 + draw.next(10) as u32;
            let proposer = owners[0];
            match kind {
                0 if owners.len() < 20 => {
                    let new_owner = someone(&env);
                    let id = client.create_add_owner_proposal(
                        &proposer,
                        &new_owner,
                        &text("fuzz add"),
                        &DEADLINE,
                    );
                    client.approve(&proposer, &id);
                    client.execute(&proposer, &id);
                    owners.push(new_owner);
                    model_weights.push(1);
                }
                1 if owners.len() > 2 => {
                    let index = (seed as usize) % owners.len();
                    let id = client.create_remove_owner_proposal(
                        &proposer,
                        &owners[index],
                        &text("fuzz remove"),
                        &DEADLINE,
                    );
                    client.approve(&proposer, &id);
                    client.execute(&proposer, &id);
                    owners.remove(index);
                    model_weights.remove(index);
                }
                2 => {
                    let index = (seed as usize) % owners.len();
                    let new_weight = seed % 10 + 1;
                    let total: u32 = model_weights.iter().sum();
                    let resulting_total = total - model_weights[index] + new_weight;
                    if new_weight * 100 <= resulting_total * 50 {
                        let id = client.create_change_weight_proposal(
                            &proposer,
                            &owners[index],
                            &new_weight,
                            &text("fuzz weight"),
                            &DEADLINE,
                        );
                        client.approve(&proposer, &id);
                        client.execute(&proposer, &id);
                        model_weights[index] = new_weight;
                    }
                }
                _ => {}
            }

            let mut observed_total = 0u32;
            for owner in owners.iter() {
                observed_total += client.get_owner_weight(owner);
            }
            assert_eq!(observed_total, client.get_total_weight());
        }
    }
}

#[test]
fn active_count_never_exceeds_max() {
    for case in 0..32u64 {
        let mut draw = Draw(case);
        let owner_count = 1 + draw.next(5) as u32;
        let threshold_seed = 1 + draw.next(5) as u32;
        let threshold = (threshold_seed - 1) % owner_count + 1;

        let env = World::new();
        set_timestamp(&env, NOW);
        let contract_id = env.wallet();
        let client = Client::new(&env, &contract_id);
        let token_client = Token::new(&env, &env.issue_token());

        let owners: Vec<Address> = (0..owner_count).map(|_| someone(&env)).collect();
        let weights = vec![1u32; owner_count as usize];
        client.initialize(&owners, &weights, &threshold, &0);
        token_client.mint(&contract_id, &1_000_000_000_000_i128);

        let owner = owners[0];
        let mut active = 0;
        for _ in 0..(1 + draw.next(65)) {
            let amount = 1 + draw.next(999_999_999) as i128;
            let deadline = NOW + 1 + draw.next(7_776_000);
            let result = client.try_create_proposal(
                &owner,
                &t(&someone(&env), amount, &token_client.address),
                &text("fuzz test proposal"),
                &deadline,
                &ProposalCategory::Transfer,
            );
            if result.is_ok() {
                active += 1;
            } else {
                assert_eq!(result.unwrap_err(), ContractError::TooManyActiveProposals);
            }
            assert!(active <= 50);
        }
    }
}

#[test]
fn proposal_approval_weight_never_exceeds_total_weight() {
    for case in 0..32u64 {
        let mut draw = Draw(case);
        let owner_count = 1 + draw.next(8) as u32;
        let threshold_seed = 1 + draw.next(8) as u32;
        let threshold = (threshold_seed - 1) % owner_count + 1;

        let env = World::new();
        set_timestamp(&env, NOW);
        let contract_id = env.wallet();
        let client = Client::new(&env, &contract_id);
        let token_client = Token::new(&env, &env.issue_token());

        let owners: Vec<Address> = (0..owner_count).map(|_| someone(&env)).collect();
        let weights: Vec<u32> =
            (0..owner_count).map(|_| 1 + draw.next(100_000) as u32).collect();
        client.initialize(&owners, &weights, &threshold, &0);
        token_client.mint(&contract_id, &1_000_000_000_000_i128);

        let total_weight = client.get_total_weight();
        let id = client.create_proposal(
            &owners[0],
            &t(&someone(&env), 1_000_000, &token_client.address),
            &text("weight bound test proposal"),
            &DEADLINE,
            &ProposalCategory::Transfer,
        );

        for _ in 0..(1 + draw.next(30)) {
            let owner = owners[draw.next(8) as usize % owner_count as usize];
            if draw.next(2) == 0 {
                let _ = client.try_approve(&owner, &id);
            } else {
                let _ = client.try_revoke(&owner, &id);
            }
            let proposal = client.get_proposal(&id);
            assert!(proposal.approvals <= total_weight);
        }
    }
}
