use vstd::prelude::*;

use crate::error::GovernanceError;

verus! {

/// The side of a vote. Stored as a byte: `Pending` 0, `Against` 1, `For` 2,
/// `Abstain` 3.
#[derive(Debug, Clone, Copy, PartialEq, Eq, Structural)]
pub enum VoteSide {
    Pending,
    Against,
    For,
    Abstain,
}

/// The byte that encodes a side.
pub open spec fn side_code(side: VoteSide) -> u8 {
    match side {
        VoteSide::Pending => 0,
        VoteSide::Against => 1,
        VoteSide::For => 2,
        VoteSide::Abstain => 3,
    }
}

/// Whether a byte encodes a side.
pub open spec fn is_side_code(b: u8) -> bool {
    b <= 3
}

/// The side that a byte encodes, or `InvalidVoteSide` for a byte above 3.
pub open spec fn decode_side(b: u8) -> Result<VoteSide, GovernanceError> {
    if b == 0 {
        Ok(VoteSide::Pending)
    } else if b == 1 {
        Ok(VoteSide::Against)
    } else if b == 2 {
        Ok(VoteSide::For)
    } else if b == 3 {
        Ok(VoteSide::Abstain)
    } else {
        Err(GovernanceError::InvalidVoteSide)
    }
}

impl VoteSide {
    pub fn to_u8(self) -> (r: u8)
        ensures
            r == side_code(self),
    {
        match self {
            VoteSide::Pending => 0,
            VoteSide::Against => 1,
            VoteSide::For => 2,
            VoteSide::Abstain => 3,
        }
    }

    /// Decodes a side; any byte above 3 is rejected with `InvalidVoteSide`.
    pub fn from_u8(value: u8) -> (r: Result<VoteSide, GovernanceError>)
        ensures
            r == decode_side(value),
            is_side_code(value) <==> r is Ok,
            r matches Ok(side) ==> side_code(side) == value,
    {
        match value {
            0 => Ok(VoteSide::Pending),
            1 => Ok(VoteSide::Against),
            2 => Ok(VoteSide::For),
            3 => Ok(VoteSide::Abstain),
            _ => Err(GovernanceError::InvalidVoteSide),
        }
    }
}

impl Default for VoteSide {
    fn default() -> (r: VoteSide)
        ensures
            r == VoteSide::Pending,
    {
        VoteSide::Pending
    }
}

impl From<VoteSide> for u8 {
    fn from(side: VoteSide) -> (r: u8) {
        side.to_u8()
    }
}

impl vstd::std_specs::convert::FromSpecImpl<VoteSide> for u8 {
    open spec fn obeys_from_spec() -> bool {
        true
    }

    open spec fn from_spec(side: VoteSide) -> u8 {
        side_code(side)
    }
}

impl TryFrom<u8> for VoteSide {
    type Error = GovernanceError;

    fn try_from(value: u8) -> (r: Result<VoteSide, GovernanceError>) {
        VoteSide::from_u8(value)
    }
}

impl vstd::std_specs::convert::TryFromSpecImpl<u8> for VoteSide {
    open spec fn obeys_try_from_spec() -> bool {
        true
    }

    open spec fn try_from_spec(value: u8) -> Result<VoteSide, GovernanceError> {
        decode_side(value)
    }
}

/// The state of a proposal. Only the timestamps and tallies are stored;
/// `Defeated` and `Succeeded` are derived from them.
#[derive(Debug, Clone, Copy, PartialEq, Eq, Structural)]
pub enum ProposalState {
    Draft,
    Active,
    Canceled,
    Defeated,
    Succeeded,
    Queued,
}

impl Default for ProposalState {
    fn default() -> (r: ProposalState)
        ensures
            r == ProposalState::Draft,
    {
        ProposalState::Draft
    }
}

} // verus!
