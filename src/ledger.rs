use vstd::prelude::*;

use crate::state::{Governor, Proposal, Pubkey, Vote};
use crate::tally::{cast_ok, cast_result, tally, total_votes, weight_on, withdrawn};
use crate::vote_side::is_side_code;

verus! {

/// `p` is the proposal that one creation under the governor at address
/// `governor_key` gives, by `proposer`, taking the governor from `before` to
/// `after`: its index is the count before, the count grows by one, the
/// quorum is the governor's, and all tallies and later timestamps are zero.
pub open spec fn proposal_created(
    before: Governor,
    after: Governor,
    governor_key: Pubkey,
    proposer: Pubkey,
    p: Proposal,
) -> bool {
    &&& after == Governor { proposal_count: (before.proposal_count + 1) as u64, ..before }
    &&& before.proposal_count < u64::MAX
    &&& p.index == before.proposal_count
    &&& p.governor == governor_key
    &&& p.proposer == proposer
    &&& p.quorum_votes == before.params.quorum_votes
    &&& p.for_votes == 0 && p.against_votes == 0 && p.abstain_votes == 0
    &&& p.canceled_at == 0 && p.activated_at == 0 && p.voting_ends_at == 0 && p.queued_at == 0
    &&& p.queued_transaction@ == Seq::new(32, |i: int| 0u8)
}

/// The weight that the entries of a ledger hold on the side encoded by `code`.
pub open spec fn side_sum(votes: Seq<Vote>, code: u8) -> int
    decreases votes.len(),
{
    if votes.len() == 0 {
        0
    } else {
        side_sum(votes.drop_last(), code) + weight_on(votes.last().side, votes.last().weight, code)
    }
}

/// The weight that the entries of a ledger hold on any side but `Pending`.
pub open spec fn cast_weight(votes: Seq<Vote>) -> int
    decreases votes.len(),
{
    if votes.len() == 0 {
        0
    } else {
        cast_weight(votes.drop_last()) + if votes.last().side != 0 {
            votes.last().weight as int
        } else {
            0
        }
    }
}

/// Every entry of the ledger stores a valid side.
pub open spec fn sides_valid(votes: Seq<Vote>) -> bool {
    forall|i: int| 0 <= i < votes.len() ==> is_side_code(#[trigger] votes[i].side)
}

/// Each tally of the proposal is the weight that the ledger holds on its side.
pub open spec fn tallies_match(p: Proposal, votes: Seq<Vote>) -> bool {
    &&& tally(p, 1) == side_sum(votes, 1)
    &&& tally(p, 2) == side_sum(votes, 2)
    &&& tally(p, 3) == side_sum(votes, 3)
}

proof fn lemma_side_sum_update(votes: Seq<Vote>, i: int, v: Vote, code: u8)
    requires
        0 <= i < votes.len(),
    ensures
        side_sum(votes.update(i, v), code) == side_sum(votes, code) - weight_on(
            votes[i].side,
            votes[i].weight,
            code,
        ) + weight_on(v.side, v.weight, code),
    decreases votes.len(),
{
    let u = votes.update(i, v);
    if i == votes.len() - 1 {
        assert(u.drop_last() =~= votes.drop_last());
    } else {
        lemma_side_sum_update(votes.drop_last(), i, v, code);
        assert(u.drop_last() =~= votes.drop_last().update(i, v));
    }
}

proof fn lemma_cast_result_tally(
    p: Proposal,
    old_side: u8,
    old_weight: u64,
    side: u8,
    weight: u64,
    code: u8,
)
    requires
        cast_ok(p, old_side, old_weight, side, weight),
        1 <= code <= 3,
    ensures
        tally(cast_result(p, old_side, old_weight, side, weight), code) == tally(p, code)
            - weight_on(old_side, old_weight, code) + weight_on(side, weight, code),
{
    let q = withdrawn(p, old_side, old_weight);
    assert(tally(q, code) == tally(p, code) - weight_on(old_side, old_weight, code));
}

/// A proposal with zero tallies and an empty ledger agree.
pub proof fn lemma_empty_ledger_matches(p: Proposal)
    requires
        p.for_votes == 0,
        p.against_votes == 0,
        p.abstain_votes == 0,
    ensures
        tallies_match(p, Seq::empty()),
{
}

/// Registering a vote, on no side and with no weight, keeps a proposal's
/// tallies equal to what its ledger holds.
pub proof fn lemma_register_keeps_match(p: Proposal, votes: Seq<Vote>, v: Vote)
    requires
        tallies_match(p, votes),
        v.side == 0,
        v.weight == 0,
    ensures
        tallies_match(p, votes.push(v)),
{
    assert(votes.push(v).drop_last() =~= votes);
}

/// A successful cast keeps a proposal's tallies equal to what its ledger
/// holds, once the vote's entry records the new side and weight.
pub proof fn lemma_cast_keeps_match(
    p: Proposal,
    votes: Seq<Vote>,
    i: int,
    side: u8,
    weight: u64,
)
    requires
        tallies_match(p, votes),
        0 <= i < votes.len(),
        cast_ok(p, votes[i].side, votes[i].weight, side, weight),
    ensures
        tallies_match(
            cast_result(p, votes[i].side, votes[i].weight, side, weight),
            votes.update(i, Vote { side, weight, ..votes[i] }),
        ),
{
    let v = Vote { side, weight, ..votes[i] };
    lemma_side_sum_update(votes, i, v, 1);
    lemma_side_sum_update(votes, i, v, 2);
    lemma_side_sum_update(votes, i, v, 3);
    lemma_cast_result_tally(p, votes[i].side, votes[i].weight, side, weight, 1);
    lemma_cast_result_tally(p, votes[i].side, votes[i].weight, side, weight, 2);
    lemma_cast_result_tally(p, votes[i].side, votes[i].weight, side, weight, 3);
}

proof fn lemma_side_sums_total(votes: Seq<Vote>)
    requires
        sides_valid(votes),
    ensures
        side_sum(votes, 1) + side_sum(votes, 2) + side_sum(votes, 3) == cast_weight(votes),
    decreases votes.len(),
{
    if votes.len() > 0 {
        let rest = votes.drop_last();
        assert(sides_valid(rest)) by {
            assert forall|i: int| 0 <= i < rest.len() implies is_side_code(
                #[trigger] rest[i].side,
            ) by {
                assert(rest[i] == votes[i]);
            }
        }
        assert(is_side_code(votes[votes.len() - 1].side));
        lemma_side_sums_total(rest);
    }
}

/// Tally conservation: where the tallies agree with a ledger of valid sides,
/// `for_votes + against_votes + abstain_votes` is the weight of all entries
/// whose side is not `Pending`.
pub proof fn lemma_tally_conservation(p: Proposal, votes: Seq<Vote>)
    requires
        tallies_match(p, votes),
        sides_valid(votes),
    ensures
        total_votes(p) == cast_weight(votes),
{
    lemma_side_sums_total(votes);
}

/// A successful cast with a valid side, on a ledger that agrees with the
/// proposal, leaves `for_votes + against_votes + abstain_votes` equal to the
/// weight of the updated ledger's entries that are not `Pending`.
pub proof fn lemma_cast_conserves_total(
    p: Proposal,
    votes: Seq<Vote>,
    i: int,
    side: u8,
    weight: u64,
)
    requires
        tallies_match(p, votes),
        sides_valid(votes),
        0 <= i < votes.len(),
        is_side_code(side),
        cast_ok(p, votes[i].side, votes[i].weight, side, weight),
    ensures
        total_votes(cast_result(p, votes[i].side, votes[i].weight, side, weight)) == cast_weight(
            votes.update(i, Vote { side, weight, ..votes[i] }),
        ),
{
    let u = votes.update(i, Vote { side, weight, ..votes[i] });
    lemma_cast_keeps_match(p, votes, i, side, weight);
    assert(sides_valid(u)) by {
        assert forall|j: int| 0 <= j < u.len() implies is_side_code(#[trigger] u[j].side) by {
            if j != i {
                assert(u[j] == votes[j]);
            }
        }
    }
    lemma_tally_conservation(cast_result(p, votes[i].side, votes[i].weight, side, weight), u);
}

/// Casting the same side and weight a second time succeeds and leaves the
/// proposal as the first cast left it.
pub proof fn lemma_repeat_cast_is_identity(
    p: Proposal,
    old_side: u8,
    old_weight: u64,
    side: u8,
    weight: u64,
)
    requires
        cast_ok(p, old_side, old_weight, side, weight),
    ensures
        cast_ok(cast_result(p, old_side, old_weight, side, weight), side, weight, side, weight),
        cast_result(cast_result(p, old_side, old_weight, side, weight), side, weight, side, weight)
            == cast_result(p, old_side, old_weight, side, weight),
{
}

proof fn lemma_count_after(
    governors: Seq<Governor>,
    proposers: Seq<Pubkey>,
    proposals: Seq<Proposal>,
    governor_key: Pubkey,
    k: int,
)
    requires
        governors.len() == proposals.len() + 1,
        proposers.len() == proposals.len(),
        governors[0].proposal_count == 0,
        forall|j: int|
            0 <= j < proposals.len() ==> proposal_created(
                governors[j],
                governors[j + 1],
                governor_key,
                proposers[j],
                #[trigger] proposals[j],
            ),
        0 <= k <= proposals.len(),
    ensures
        governors[k].proposal_count == k,
    decreases k,
{
    if k > 0 {
        lemma_count_after(governors, proposers, proposals, governor_key, k - 1);
        assert(proposal_created(
            governors[k - 1],
            governors[k],
            governor_key,
            proposers[k - 1],
            proposals[k - 1],
        ));
    }
}

/// Proposals created one after another under a governor that starts with no
/// proposals get the indices 0, 1, 2, ... in creation order, and the governor
/// then counts them all.
pub proof fn lemma_indices_sequential(
    governors: Seq<Governor>,
    proposers: Seq<Pubkey>,
    proposals: Seq<Proposal>,
    governor_key: Pubkey,
)
    requires
        governors.len() == proposals.len() + 1,
        proposers.len() == proposals.len(),
        governors[0].proposal_count == 0,
        forall|k: int|
            0 <= k < proposals.len() ==> proposal_created(
                governors[k],
                governors[k + 1],
                governor_key,
                proposers[k],
                #[trigger] proposals[k],
            ),
    ensures
        forall|k: int| 0 <= k < proposals.len() ==> #[trigger] proposals[k].index == k,
        governors.last().proposal_count == proposals.len(),
{
    assert forall|k: int| 0 <= k < proposals.len() implies #[trigger] proposals[k].index == k by {
        lemma_count_after(governors, proposers, proposals, governor_key, k);
        assert(proposal_created(governors[k], governors[k + 1], governor_key, proposers[k], proposals[k]));
    }
    lemma_count_after(governors, proposers, proposals, governor_key, proposals.len() as int);
}

} // verus!
