use vstd::prelude::*;

verus! {

/// Every way an operation of the engine can fail.
///
/// Some kinds are declared for guards that the lifecycle does not enforce yet
/// (a proposal must be a draft, voting delay, records not found); no operation
/// returns them.
#[derive(Debug, Clone, Copy, PartialEq, Eq, Structural)]
pub enum GovernanceError {
    /// A vote side encoded as a byte outside `0..=3`.
    InvalidVoteSide,
    GovernorNotFound,
    VotingDelayNotMet,
    ProposalNotDraft,
    ProposalNotActive,
    /// A checked addition or subtraction left the range of its type.
    Overflow,
    /// A governor was created with a negative timelock delay.
    InvalidTimelockDelay,
    ProposalNotFound,
    VoteNotFound,
    /// The caller is not the identity the operation requires.
    Unauthorized,
    /// A record does not belong to the record it was presented with.
    AccountMismatch,
}

impl GovernanceError {
    /// The human-readable message of each error kind.
    pub fn message(&self) -> (r: String) {
        match self {
            GovernanceError::InvalidVoteSide => "Invalid vote side.".to_string(),
            GovernanceError::GovernorNotFound => "The governor does not match the current one.".to_string(),
            GovernanceError::VotingDelayNotMet => "The proposal cannot be activated since it has not yet passed the voting delay.".to_string(),
            GovernanceError::ProposalNotDraft => "Only drafts can be canceled.".to_string(),
            GovernanceError::ProposalNotActive => "The proposal must be active.".to_string(),
            GovernanceError::Overflow => "Overflow error.".to_string(),
            GovernanceError::InvalidTimelockDelay => "Invalid timelock delay.".to_string(),
            GovernanceError::ProposalNotFound => "Proposal not found.".to_string(),
            GovernanceError::VoteNotFound => "Vote not found.".to_string(),
            GovernanceError::Unauthorized => "The caller is not authorized for this action.".to_string(),
            GovernanceError::AccountMismatch => "A record does not belong to the given parent.".to_string(),
        }
    }
}

} // verus!
