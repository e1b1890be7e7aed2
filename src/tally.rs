use vstd::prelude::*;

use crate::error::GovernanceError;
use crate::state::Proposal;
use crate::vote_side::{side_code, ProposalState, VoteSide};

verus! {

/// The running tally of the side encoded by `code`: `against_votes` for 1,
/// `for_votes` for 2, `abstain_votes` for 3, and 0 for any other byte.
pub open spec fn tally(p: Proposal, code: u8) -> int {
    if code == 1 {
        p.against_votes as int
    } else if code == 2 {
        p.for_votes as int
    } else if code == 3 {
        p.abstain_votes as int
    } else {
        0
    }
}

/// What a vote on side `side` with weight `weight` contributes to the tally of
/// `code`: its weight where the sides agree and count, else nothing.
pub open spec fn weight_on(side: u8, weight: u64, code: u8) -> int {
    if side == code && 1 <= code <= 3 {
        weight as int
    } else {
        0
    }
}

/// `p` with the tally of `code` moved by `delta`; `p` itself for a code that
/// has no tally.
pub open spec fn shifted(p: Proposal, code: u8, delta: int) -> Proposal {
    if code == 1 {
        Proposal { against_votes: (p.against_votes + delta) as u64, ..p }
    } else if code == 2 {
        Proposal { for_votes: (p.for_votes + delta) as u64, ..p }
    } else if code == 3 {
        Proposal { abstain_votes: (p.abstain_votes + delta) as u64, ..p }
    } else {
        p
    }
}

/// Whether taking a vote's weight off its side stays at or above zero.
pub open spec fn can_subtract(p: Proposal, side: u8, weight: u64) -> bool {
    tally(p, side) - weight_on(side, weight, side) >= 0
}

/// Whether adding a vote's weight to its side stays within `u64`.
pub open spec fn can_add(p: Proposal, side: u8, weight: u64) -> bool {
    tally(p, side) + weight_on(side, weight, side) <= u64::MAX
}

/// The proposal after a vote's old contribution is taken off.
pub open spec fn withdrawn(p: Proposal, old_side: u8, old_weight: u64) -> Proposal {
    shifted(p, old_side, -weight_on(old_side, old_weight, old_side))
}

/// Whether a vote moving from `(old_side, old_weight)` to `(side, weight)`
/// keeps every tally within `0..=u64::MAX`: first when the old weight is
/// taken off, then when the new weight is added.
pub open spec fn cast_ok(p: Proposal, old_side: u8, old_weight: u64, side: u8, weight: u64) -> bool {
    can_subtract(p, old_side, old_weight) && can_add(
        withdrawn(p, old_side, old_weight),
        side,
        weight,
    )
}

/// The proposal after a vote moves from `(old_side, old_weight)` to
/// `(side, weight)`.
pub open spec fn cast_result(
    p: Proposal,
    old_side: u8,
    old_weight: u64,
    side: u8,
    weight: u64,
) -> Proposal {
    let q = withdrawn(p, old_side, old_weight);
    shifted(q, side, weight_on(side, weight, side))
}

/// The sum of the three tallies, without overflow.
pub open spec fn total_votes(p: Proposal) -> int {
    p.for_votes + p.against_votes + p.abstain_votes
}

/// Whether the participating weight reaches the quorum taken at creation.
pub open spec fn quorum_met(p: Proposal) -> bool {
    total_votes(p) >= p.quorum_votes
}

/// The derived state of an activated proposal at time `now`: `Active` until
/// `voting_ends_at` has passed; then `Succeeded` when the quorum is met and
/// more weight is for than against, else `Defeated`.
pub open spec fn outcome_at(p: Proposal, now: i64) -> ProposalState {
    if now <= p.voting_ends_at {
        ProposalState::Active
    } else if quorum_met(p) && p.for_votes > p.against_votes {
        ProposalState::Succeeded
    } else {
        ProposalState::Defeated
    }
}

impl Proposal {
    /// Takes a vote's weight off the tally of its side. Fails with `Overflow`,
    /// changing nothing, where the tally holds less than the weight.
    pub fn subtract_vote_weight(&mut self, vote_side: VoteSide, vote_weight: u64) -> (r: Result<
        (),
        GovernanceError,
    >)
        ensures
            r is Ok <==> can_subtract(*old(self), side_code(vote_side), vote_weight),
            r is Ok ==> *final(self) == shifted(
                *old(self),
                side_code(vote_side),
                -weight_on(side_code(vote_side), vote_weight, side_code(vote_side)),
            ),
            r is Err ==> *final(self) == *old(self) && r == Err::<(), GovernanceError>(
                GovernanceError::Overflow,
            ),
    {
        if vote_weight == 0 {
            return Ok(());
        }
        match vote_side {
            VoteSide::Pending => {},
            VoteSide::Against => {
                match self.against_votes.checked_sub(vote_weight) {
                    Some(v) => self.against_votes = v,
                    None => return Err(GovernanceError::Overflow),
                }
            },
            VoteSide::For => {
                match self.for_votes.checked_sub(vote_weight) {
                    Some(v) => self.for_votes = v,
                    None => return Err(GovernanceError::Overflow),
                }
            },
            VoteSide::Abstain => {
                match self.abstain_votes.checked_sub(vote_weight) {
                    Some(v) => self.abstain_votes = v,
                    None => return Err(GovernanceError::Overflow),
                }
            },
        }
        Ok(())
    }

    /// Adds a vote's weight to the tally of its side. Fails with `Overflow`,
    /// changing nothing, where the tally would pass `u64::MAX`.
    pub fn add_vote_weight(&mut self, vote_side: VoteSide, vote_weight: u64) -> (r: Result<
        (),
        GovernanceError,
    >)
        ensures
            r is Ok <==> can_add(*old(self), side_code(vote_side), vote_weight),
            r is Ok ==> *final(self) == shifted(
                *old(self),
                side_code(vote_side),
                weight_on(side_code(vote_side), vote_weight, side_code(vote_side)),
            ),
            r is Err ==> *final(self) == *old(self) && r == Err::<(), GovernanceError>(
                GovernanceError::Overflow,
            ),
    {
        if vote_weight == 0 {
            return Ok(());
        }
        match vote_side {
            VoteSide::Pending => {},
            VoteSide::Against => {
                match self.against_votes.checked_add(vote_weight) {
                    Some(v) => self.against_votes = v,
                    None => return Err(GovernanceError::Overflow),
                }
            },
            VoteSide::For => {
                match self.for_votes.checked_add(vote_weight) {
                    Some(v) => self.for_votes = v,
                    None => return Err(GovernanceError::Overflow),
                }
            },
            VoteSide::Abstain => {
                match self.abstain_votes.checked_add(vote_weight) {
                    Some(v) => self.abstain_votes = v,
                    None => return Err(GovernanceError::Overflow),
                }
            },
        }
        Ok(())
    }

    /// Whether `for_votes + against_votes + abstain_votes` reaches
    /// `quorum_votes`; the sum saturates, so it never overflows.
    pub fn is_quorum_met(&self) -> (r: bool)
        ensures
            r == quorum_met(*self),
    {
        let total = self.for_votes.saturating_add(self.against_votes).saturating_add(
            self.abstain_votes,
        );
        total >= self.quorum_votes
    }

    /// The derived state at time `now`: `Active` while voting lasts, then
    /// `Succeeded` or `Defeated`. Meaningful once the proposal was activated.
    pub fn outcome(&self, now: i64) -> (r: ProposalState)
        ensures
            r == outcome_at(*self, now),
    {
        if now <= self.voting_ends_at {
            ProposalState::Active
        } else if self.is_quorum_met() && self.for_votes > self.against_votes {
            ProposalState::Succeeded
        } else {
            ProposalState::Defeated
        }
    }
}

} // verus!
