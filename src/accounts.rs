use vstd::prelude::*;

use crate::state::{Governor, Proposal, Pubkey, Vote};

verus! {

/// The records and identities that creating a governor involves.
#[derive(Debug, Clone, Copy)]
pub struct CreateGovernor {
    /// The authority that owns the new governor.
    pub base: Pubkey,
}

/// The records and identities that creating a proposal involves.
#[derive(Debug, Clone, Copy)]
pub struct CreateProposal {
    pub proposer: Pubkey,
    pub governor: Governor,
    /// The address of `governor`.
    pub governor_key: Pubkey,
}

/// The records that activating a proposal involves.
#[derive(Debug, Clone)]
pub struct ActivateProposal {
    pub proposal: Proposal,
    pub governor: Governor,
    /// The address of `governor`.
    pub governor_key: Pubkey,
}

/// The record and the caller that cancelling a proposal involves.
#[derive(Debug, Clone)]
pub struct CancelProposal {
    pub proposal: Proposal,
    /// The identity that signed the cancellation.
    pub proposer: Pubkey,
}

/// The records that queuing a proposal involves.
#[derive(Debug, Clone)]
pub struct QueueProposal {
    pub proposal: Proposal,
    /// The address of the governor the proposal must belong to.
    pub governor_key: Pubkey,
    /// The address of the transaction record that will execute the batch.
    pub transaction: Pubkey,
}

/// The identities that registering a vote involves.
#[derive(Debug, Clone, Copy)]
pub struct NewVote {
    /// The identity that pays for the new record.
    pub voter: Pubkey,
    /// The address of the proposal voted on.
    pub proposal: Pubkey,
}

/// The records that casting a vote involves.
#[derive(Debug, Clone)]
pub struct SetVote {
    pub vote: Vote,
    pub proposal: Proposal,
    /// The address of `proposal`.
    pub proposal_key: Pubkey,
}

/// The governor whose parameters or electorate change.
#[derive(Debug, Clone, Copy)]
pub struct SetGovernanceParams {
    pub governor: Governor,
}

/// The identities that attaching metadata to a proposal involves.
#[derive(Debug, Clone, Copy)]
pub struct CreateProposalMeta {
    pub proposer: Pubkey,
    /// The address of the proposal described.
    pub proposal: Pubkey,
}

} // verus!
