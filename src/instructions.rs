use vstd::prelude::*;

use crate::accounts::{
    ActivateProposal, CancelProposal, CreateGovernor, CreateProposal, CreateProposalMeta, NewVote,
    QueueProposal, SetGovernanceParams, SetVote,
};
use crate::error::GovernanceError;
use crate::state::{
    GovernanceParameters, Governor, Proposal, ProposalInstruction, ProposalMeta, Pubkey, Vote,
};
use crate::ledger::proposal_created;
use crate::tally::{cast_ok, cast_result, withdrawn};
use crate::vote_side::{is_side_code, VoteSide};

verus! {

/// Creates a governor owned by `ctx.base`, with no proposals yet.
/// Fails with `InvalidTimelockDelay` where the timelock delay is negative.
pub fn create_governor(
    ctx: &CreateGovernor,
    bump: u8,
    electorate: Pubkey,
    params: GovernanceParameters,
) -> (r: Result<Governor, GovernanceError>)
    ensures
        params.timelock_delay_seconds < 0 <==> r == Err::<Governor, GovernanceError>(
            GovernanceError::InvalidTimelockDelay,
        ),
        params.timelock_delay_seconds >= 0 ==> r == Ok::<Governor, GovernanceError>(
            Governor { base: ctx.base, bump, proposal_count: 0, electorate, params },
        ),
{
    if params.timelock_delay_seconds < 0 {
        return Err(GovernanceError::InvalidTimelockDelay);
    }
    Ok(Governor { base: ctx.base, bump, proposal_count: 0, electorate, params })
}

/// Creates a proposal under `ctx.governor`: it takes the governor's proposal
/// count as its index and the governor's quorum as its own, starts with zero
/// tallies and timestamps but `created_at = now`, and keeps `instructions` as
/// given. The governor's count then grows by one.
/// Fails with `Overflow`, changing nothing, where the count is `u64::MAX`.
pub fn create_proposal(
    ctx: &mut CreateProposal,
    bump: u8,
    instructions: Vec<ProposalInstruction>,
    now: i64,
) -> (r: Result<Proposal, GovernanceError>)
    ensures
        old(ctx).governor.proposal_count == u64::MAX <==> r is Err,
        r is Err ==> r == Err::<Proposal, GovernanceError>(GovernanceError::Overflow)
            && *final(ctx) == *old(ctx),
        r matches Ok(p) ==> proposal_created(
            old(ctx).governor,
            final(ctx).governor,
            old(ctx).governor_key,
            old(ctx).proposer,
            p,
        ) && p.bump == bump && p.created_at == now && p.instructions@ == instructions@
            && final(ctx).proposer == old(ctx).proposer && final(ctx).governor_key == old(
            ctx,
        ).governor_key,
{
    if ctx.governor.proposal_count == u64::MAX {
        return Err(GovernanceError::Overflow);
    }
    let p = Proposal {
        governor: ctx.governor_key,
        index: ctx.governor.proposal_count,
        bump,
        proposer: ctx.proposer,
        quorum_votes: ctx.governor.params.quorum_votes,
        for_votes: 0,
        against_votes: 0,
        abstain_votes: 0,
        canceled_at: 0,
        created_at: now,
        activated_at: 0,
        voting_ends_at: 0,
        queued_at: 0,
        queued_transaction: Pubkey::zero(),
        instructions,
    };
    ctx.governor.proposal_count = ctx.governor.proposal_count + 1;
    Ok(p)
}

/// Opens voting: `activated_at = now` and
/// `voting_ends_at = now + governor.params.voting_period`. Nothing guards
/// against activating twice or after cancellation.
/// Fails, changing nothing, with `AccountMismatch` where the proposal belongs
/// to another governor, and with `Overflow` where the end leaves `i64`.
pub fn activate_proposal(ctx: &mut ActivateProposal, now: i64) -> (r: Result<(), GovernanceError>)
    ensures
        old(ctx).proposal.governor@ != old(ctx).governor_key@ ==> r == Err::<(), GovernanceError>(
            GovernanceError::AccountMismatch,
        ),
        old(ctx).proposal.governor@ == old(ctx).governor_key@ && !(i64::MIN <= now
            + old(ctx).governor.params.voting_period <= i64::MAX) ==> r == Err::<
            (),
            GovernanceError,
        >(GovernanceError::Overflow),
        r is Ok <==> old(ctx).proposal.governor@ == old(ctx).governor_key@ && i64::MIN <= now
            + old(ctx).governor.params.voting_period <= i64::MAX,
        r is Ok ==> *final(ctx) == (ActivateProposal {
            proposal: Proposal {
                activated_at: now,
                voting_ends_at: (now + old(ctx).governor.params.voting_period) as i64,
                ..old(ctx).proposal
            },
            ..*old(ctx)
        }),
        r is Err ==> *final(ctx) == *old(ctx),
{
    if ctx.proposal.governor != ctx.governor_key {
        return Err(GovernanceError::AccountMismatch);
    }
    match now.checked_add(ctx.governor.params.voting_period) {
        Some(end) => {
            ctx.proposal.activated_at = now;
            ctx.proposal.voting_ends_at = end;
            Ok(())
        },
        None => Err(GovernanceError::Overflow),
    }
}

/// Records the cancellation: `canceled_at = now`. Only the proposer may
/// cancel; nothing guards the proposal's state.
/// Fails with `Unauthorized`, changing nothing, where the caller is not the
/// proposer.
pub fn cancel_proposal(ctx: &mut CancelProposal, now: i64) -> (r: Result<(), GovernanceError>)
    ensures
        old(ctx).proposal.proposer@ != old(ctx).proposer@ <==> r == Err::<(), GovernanceError>(
            GovernanceError::Unauthorized,
        ),
        r is Ok <==> old(ctx).proposal.proposer@ == old(ctx).proposer@,
        r is Ok ==> *final(ctx) == (CancelProposal {
            proposal: Proposal { canceled_at: now, ..old(ctx).proposal },
            ..*old(ctx)
        }),
        r is Err ==> *final(ctx) == *old(ctx),
{
    if ctx.proposal.proposer != ctx.proposer {
        return Err(GovernanceError::Unauthorized);
    }
    ctx.proposal.canceled_at = now;
    Ok(())
}

/// Records that the proposal is queued for execution by `ctx.transaction`:
/// `queued_at = now`. Whether voting ended or the quorum was met is not
/// checked here. Fails with `AccountMismatch`, changing nothing, where the
/// proposal belongs to another governor.
pub fn queue_proposal(ctx: &mut QueueProposal, _tx_bump: u8, now: i64) -> (r: Result<
    (),
    GovernanceError,
>)
    ensures
        old(ctx).proposal.governor@ != old(ctx).governor_key@ <==> r == Err::<(), GovernanceError>(
            GovernanceError::AccountMismatch,
        ),
        r is Ok <==> old(ctx).proposal.governor@ == old(ctx).governor_key@,
        r is Ok ==> *final(ctx) == (QueueProposal {
            proposal: Proposal {
                queued_at: now,
                queued_transaction: old(ctx).transaction,
                ..old(ctx).proposal
            },
            ..*old(ctx)
        }),
        r is Err ==> *final(ctx) == *old(ctx),
{
    if ctx.proposal.governor != ctx.governor_key {
        return Err(GovernanceError::AccountMismatch);
    }
    ctx.proposal.queued_at = now;
    ctx.proposal.queued_transaction = ctx.transaction;
    Ok(())
}

/// Registers `voter` on the proposal: a vote on no side with no weight.
pub fn new_vote(ctx: &NewVote, voter: Pubkey) -> (r: Vote)
    ensures
        r == (Vote { proposal: ctx.proposal, voter, bump: 0, side: 0, weight: 0 }),
{
    Vote { proposal: ctx.proposal, voter, bump: 0, side: VoteSide::Pending.into(), weight: 0 }
}

/// Casts a vote: the vote's current side and weight are taken off the
/// proposal's tallies, the new ones are added, and the vote records them.
///
/// Fails, changing nothing, with `AccountMismatch` where the vote belongs to
/// another proposal, with `InvalidVoteSide` where the stored or the new side is
/// not a side, and with `Overflow` where a tally would leave `0..=u64::MAX`.
pub fn set_vote(ctx: &mut SetVote, side: u8, weight: u64) -> (r: Result<(), GovernanceError>)
    ensures
        old(ctx).vote.proposal@ != old(ctx).proposal_key@ ==> r == Err::<(), GovernanceError>(
            GovernanceError::AccountMismatch,
        ),
        old(ctx).vote.proposal@ == old(ctx).proposal_key@ && !(is_side_code(old(ctx).vote.side)
            && is_side_code(side)) ==> r == Err::<(), GovernanceError>(
            GovernanceError::InvalidVoteSide,
        ),
        old(ctx).vote.proposal@ == old(ctx).proposal_key@ && is_side_code(old(ctx).vote.side)
            && is_side_code(side) && !cast_ok(
            old(ctx).proposal,
            old(ctx).vote.side,
            old(ctx).vote.weight,
            side,
            weight,
        ) ==> r == Err::<(), GovernanceError>(GovernanceError::Overflow),
        r is Ok <==> old(ctx).vote.proposal@ == old(ctx).proposal_key@ && is_side_code(
            old(ctx).vote.side,
        ) && is_side_code(side) && cast_ok(
            old(ctx).proposal,
            old(ctx).vote.side,
            old(ctx).vote.weight,
            side,
            weight,
        ),
        r is Ok ==> final(ctx).proposal == cast_result(
            old(ctx).proposal,
            old(ctx).vote.side,
            old(ctx).vote.weight,
            side,
            weight,
        ) && final(ctx).vote == (Vote { side, weight, ..old(ctx).vote })
            && final(ctx).proposal_key == old(ctx).proposal_key,
        r is Err ==> *final(ctx) == *old(ctx),
{
    if ctx.vote.proposal != ctx.proposal_key {
        return Err(GovernanceError::AccountMismatch);
    }
    let old_side = match VoteSide::from_u8(ctx.vote.side) {
        Ok(s) => s,
        Err(e) => return Err(e),
    };
    let new_side = match VoteSide::from_u8(side) {
        Ok(s) => s,
        Err(e) => return Err(e),
    };
    let old_weight = ctx.vote.weight;
    let ghost before = ctx.proposal;
    match ctx.proposal.subtract_vote_weight(old_side, old_weight) {
        Ok(()) => {},
        Err(e) => return Err(e),
    }
    assert(ctx.proposal == withdrawn(before, ctx.vote.side, old_weight));
    match ctx.proposal.add_vote_weight(new_side, weight) {
        Ok(()) => {},
        Err(e) => {
            let restored = ctx.proposal.add_vote_weight(old_side, old_weight);
            assert(restored is Ok);
            assert(ctx.proposal == before);
            return Err(e);
        },
    }
    ctx.vote.side = side;
    ctx.vote.weight = weight;
    Ok(())
}

/// Replaces the governor's parameters. They are not validated here.
pub fn set_governance_params(ctx: &mut SetGovernanceParams, params: GovernanceParameters) -> (r:
    Result<(), GovernanceError>)
    ensures
        r is Ok,
        final(ctx).governor == (Governor { params, ..old(ctx).governor }),
{
    ctx.governor.params = params;
    Ok(())
}

/// Replaces the governor's electorate.
pub fn set_electorate(ctx: &mut SetGovernanceParams, new_electorate: Pubkey) -> (r: Result<
    (),
    GovernanceError,
>)
    ensures
        r is Ok,
        final(ctx).governor == (Governor { electorate: new_electorate, ..old(ctx).governor }),
{
    ctx.governor.electorate = new_electorate;
    Ok(())
}

/// Attaches a title and a link to a description to the proposal.
pub fn create_proposal_meta(
    ctx: &CreateProposalMeta,
    _bump: u8,
    title: String,
    description_link: String,
) -> (r: ProposalMeta)
    ensures
        r.proposal == ctx.proposal,
        r.title@ == title@,
        r.description_link@ == description_link@,
{
    ProposalMeta { proposal: ctx.proposal, title, description_link }
}

} // verus!
