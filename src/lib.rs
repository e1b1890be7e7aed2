//! A governance engine: governors, proposals with a lifecycle, and a ledger of
//! weighted votes whose running tallies are kept exact and free of overflow.
//!
//! Each operation of `instructions` takes the records it touches, gathered in
//! a context of `accounts`, and the current time where it records one. It
//! either succeeds or fails with a `GovernanceError` and changes nothing.
pub mod accounts;
pub mod error;
pub mod instructions;
pub mod ledger;
pub mod state;
pub mod tally;
pub mod vote_side;

pub use accounts::{
    ActivateProposal, CancelProposal, CreateGovernor, CreateProposal, CreateProposalMeta, NewVote,
    QueueProposal, SetGovernanceParams, SetVote,
};
pub use error::GovernanceError;
pub use instructions::{
    activate_proposal, cancel_proposal, create_governor, create_proposal, create_proposal_meta,
    new_vote, queue_proposal, set_electorate, set_governance_params, set_vote,
};
pub use state::{
    GovernanceParameters, Governor, Proposal, ProposalAccountMeta, ProposalInstruction,
    ProposalMeta, Pubkey, Vote,
};
pub use vote_side::{ProposalState, VoteSide};
