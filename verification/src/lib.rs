//! A wallet with several owners who decide by weight: payments and changes to
//! the wallet itself are proposed, approved and executed.
//!
//! [`rules`] says when each request is refused and what an accepted one changes;
//! the functions of [`AccordContract`] are proved to do exactly that. [`laws`]
//! proves what holds of the wallet as a whole, [`guarantees`] what each request
//! comes to in terms of what is stored and told, and [`calls`] that the functions
//! give just that.

pub mod administration;
pub mod calls;
pub mod contract;
pub mod execution;
pub mod guarantees;
pub mod laws;
pub mod ledger;
pub mod owners;
pub mod proposals;
pub mod queries;
pub mod requests;
pub mod rules;
pub mod spending;
pub mod table;
pub mod types;
pub mod voting;

pub use contract::AccordContract;
pub use ledger::{Environment, Ledger};
pub use types::{
    AddOwnerExecutedEvent, Address, ChangeThresholdExecutedEvent, ContractError, Event,
    FrozenEvent, GuardianSetEvent, Proposal, ProposalApprovedEvent, ProposalCategory,
    ProposalCreatedEvent, ProposalExecutedEvent, ProposalKind, ProposalRevokedEvent,
    ProposalStatus, RemoveOwnerExecutedEvent, SetSpendingLimitExecutedEvent, SpentTracker,
    TokenReply, Transfer, UnfrozenEvent, UpgradeExecutedEvent,
};
