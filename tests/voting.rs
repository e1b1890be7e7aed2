use govern::{
    activate_proposal, cancel_proposal, create_governor, create_proposal, create_proposal_meta,
    new_vote, queue_proposal, set_electorate, set_governance_params, set_vote, ActivateProposal,
    CancelProposal, CreateGovernor, CreateProposal, CreateProposalMeta, GovernanceError,
    GovernanceParameters, Governor, NewVote, Proposal, ProposalAccountMeta, ProposalInstruction,
    ProposalState, Pubkey, QueueProposal, SetGovernanceParams, SetVote, Vote, VoteSide,
};

fn key(b: u8) -> Pubkey {
    Pubkey::new([b; 32])
}

fn params(timelock: i64, period: i64, quorum: u64) -> GovernanceParameters {
    GovernanceParameters { timelock_delay_seconds: timelock, voting_period: period, quorum_votes: quorum }
}

fn proposal_with(for_votes: u64, against_votes: u64, abstain_votes: u64, quorum: u64) -> Proposal {
    Proposal {
        governor: key(1),
        index: 0,
        bump: 0,
        proposer: key(2),
        quorum_votes: quorum,
        for_votes,
        against_votes,
        abstain_votes,
        canceled_at: 0,
        created_at: 0,
        activated_at: 0,
        voting_ends_at: 0,
        queued_at: 0,
        queued_transaction: Pubkey::zero(),
        instructions: Vec::new(),
    }
}

fn governor(quorum: u64, period: i64) -> Governor {
    create_governor(&CreateGovernor { base: key(9) }, 254, key(8), params(0, period, quorum)).unwrap()
}

fn vote_ctx(p: Proposal, side: u8, weight: u64) -> SetVote {
    let vote = Vote { proposal: key(5), voter: key(6), bump: 0, side, weight };
    SetVote { vote, proposal: p, proposal_key: key(5) }
}

fn tallies(p: &Proposal) -> (u64, u64, u64) {
    (p.for_votes, p.against_votes, p.abstain_votes)
}

#[test]
fn test_voting_for() {
    let mut proposal = proposal_with(0, 0, 0, 0);
    proposal.add_vote_weight(VoteSide::For, 100).unwrap();
    assert_eq!(proposal.for_votes, 100);
    assert_eq!(proposal.against_votes, 0);
}

#[test]
fn test_voting_against() {
    let mut proposal = proposal_with(50, 25, 0, 0);
    proposal.add_vote_weight(VoteSide::Against, 50).unwrap();
    assert_eq!(proposal.for_votes, 50);
    assert_eq!(proposal.against_votes, 75);
}

#[test]
fn subtract_vote_weight_takes_off_its_side() {
    let mut p = proposal_with(10, 20, 30, 0);
    p.subtract_vote_weight(VoteSide::Against, 5).unwrap();
    assert_eq!(tallies(&p), (10, 15, 30));
    p.subtract_vote_weight(VoteSide::Pending, 5).unwrap();
    assert_eq!(tallies(&p), (10, 15, 30));
    assert_eq!(p.subtract_vote_weight(VoteSide::Abstain, 31), Err(GovernanceError::Overflow));
    assert_eq!(tallies(&p), (10, 15, 30));
}

#[test]
fn add_vote_weight_overflow_changes_nothing() {
    let mut p = proposal_with(u64::MAX - 1, 0, 0, 0);
    assert_eq!(p.add_vote_weight(VoteSide::For, 2), Err(GovernanceError::Overflow));
    assert_eq!(tallies(&p), (u64::MAX - 1, 0, 0));
    p.add_vote_weight(VoteSide::For, 1).unwrap();
    assert_eq!(p.for_votes, u64::MAX);
    p.add_vote_weight(VoteSide::For, 0).unwrap();
    assert_eq!(p.for_votes, u64::MAX);
}

#[test]
fn changing_side_moves_the_weight() {
    let mut ctx = vote_ctx(proposal_with(0, 0, 0, 0), 0, 0);
    set_vote(&mut ctx, 2, 40).unwrap();
    assert_eq!(tallies(&ctx.proposal), (40, 0, 0));
    set_vote(&mut ctx, 1, 25).unwrap();
    assert_eq!(tallies(&ctx.proposal), (0, 25, 0));
    set_vote(&mut ctx, 3, 7).unwrap();
    assert_eq!(tallies(&ctx.proposal), (0, 0, 7));
    set_vote(&mut ctx, 0, 99).unwrap();
    assert_eq!(tallies(&ctx.proposal), (0, 0, 0));
    assert_eq!((ctx.vote.side, ctx.vote.weight), (0, 99));
}

#[test]
fn tally_total_equals_ledger_weight() {
    let mut p = proposal_with(0, 0, 0, 0);
    let mut votes: Vec<Vote> = (0u8..4).map(|i| Vote { proposal: key(5), voter: key(10 + i), bump: 0, side: 0, weight: 0 }).collect();
    let casts: [(usize, u8, u64); 7] = [(0, 2, 10), (1, 1, 20), (2, 3, 5), (0, 1, 4), (3, 2, 8), (1, 0, 3), (2, 3, 6)];
    for (i, side, weight) in casts {
        let mut ctx = SetVote { vote: votes[i], proposal: p, proposal_key: key(5) };
        set_vote(&mut ctx, side, weight).unwrap();
        votes[i] = ctx.vote;
        p = ctx.proposal;
        let ledger: u64 = votes.iter().filter(|v| v.side != 0).map(|v| v.weight).sum();
        assert_eq!(p.for_votes + p.against_votes + p.abstain_votes, ledger);
    }
    assert_eq!(tallies(&p), (8, 4, 6));
}

#[test]
fn repeated_identical_cast_leaves_tallies() {
    let mut ctx = vote_ctx(proposal_with(100, 50, 5, 0), 0, 0);
    set_vote(&mut ctx, 2, 30).unwrap();
    let after_first = tallies(&ctx.proposal);
    assert_eq!(after_first, (130, 50, 5));
    set_vote(&mut ctx, 2, 30).unwrap();
    assert_eq!(tallies(&ctx.proposal), after_first);
}

#[test]
fn cast_overflow_is_rejected_without_change() {
    let mut ctx = vote_ctx(proposal_with(u64::MAX - 5, 3, 0, 0), 1, 3);
    assert_eq!(set_vote(&mut ctx, 2, 6), Err(GovernanceError::Overflow));
    assert_eq!(tallies(&ctx.proposal), (u64::MAX - 5, 3, 0));
    assert_eq!((ctx.vote.side, ctx.vote.weight), (1, 3));
    set_vote(&mut ctx, 2, 5).unwrap();
    assert_eq!(tallies(&ctx.proposal), (u64::MAX, 0, 0));
}

#[test]
fn cast_overflow_on_same_side_restores_tallies() {
    let mut ctx = vote_ctx(proposal_with(u64::MAX, 0, 0, 0), 2, 10);
    assert_eq!(set_vote(&mut ctx, 2, 11), Err(GovernanceError::Overflow));
    assert_eq!(tallies(&ctx.proposal), (u64::MAX, 0, 0));
    set_vote(&mut ctx, 2, 9).unwrap();
    assert_eq!(tallies(&ctx.proposal), (u64::MAX - 1, 0, 0));
}

#[test]
fn cast_underflow_is_rejected_without_change() {
    let mut ctx = vote_ctx(proposal_with(0, 4, 0, 0), 1, 5);
    assert_eq!(set_vote(&mut ctx, 3, 1), Err(GovernanceError::Overflow));
    assert_eq!(tallies(&ctx.proposal), (0, 4, 0));
    assert_eq!((ctx.vote.side, ctx.vote.weight), (1, 5));
}

#[test]
fn invalid_side_is_rejected_before_any_change() {
    let mut ctx = vote_ctx(proposal_with(10, 10, 10, 0), 2, 10);
    assert_eq!(set_vote(&mut ctx, 4, 1), Err(GovernanceError::InvalidVoteSide));
    assert_eq!(set_vote(&mut ctx, 255, 1), Err(GovernanceError::InvalidVoteSide));
    assert_eq!(tallies(&ctx.proposal), (10, 10, 10));
    assert_eq!((ctx.vote.side, ctx.vote.weight), (2, 10));
    let mut corrupt = vote_ctx(proposal_with(10, 10, 10, 0), 9, 10);
    assert_eq!(set_vote(&mut corrupt, 2, 1), Err(GovernanceError::InvalidVoteSide));
    assert_eq!(tallies(&corrupt.proposal), (10, 10, 10));
}

#[test]
fn vote_of_another_proposal_is_rejected() {
    let mut ctx = vote_ctx(proposal_with(0, 0, 0, 0), 0, 0);
    ctx.proposal_key = key(77);
    assert_eq!(set_vote(&mut ctx, 2, 1), Err(GovernanceError::AccountMismatch));
    assert_eq!(tallies(&ctx.proposal), (0, 0, 0));
}

#[test]
fn vote_side_encoding_round_trips() {
    for b in 0u8..4 {
        let side = VoteSide::try_from(b).unwrap();
        assert_eq!(u8::from(side), b);
        assert_eq!(side.to_u8(), b);
    }
    assert_eq!(VoteSide::from_u8(2), Ok(VoteSide::For));
    assert_eq!(VoteSide::try_from(4), Err(GovernanceError::InvalidVoteSide));
    assert_eq!(VoteSide::default(), VoteSide::Pending);
    assert_eq!(ProposalState::default(), ProposalState::Draft);
}

#[test]
fn indices_follow_creation_order() {
    let mut ctx = CreateProposal { proposer: key(2), governor: governor(100, 10), governor_key: key(1) };
    for i in 0u64..5 {
        let p = create_proposal(&mut ctx, 0, Vec::new(), 50 + i as i64).unwrap();
        assert_eq!(p.index, i);
        assert_eq!(p.created_at, 50 + i as i64);
    }
    assert_eq!(ctx.governor.proposal_count, 5);
}

#[test]
fn proposal_count_at_its_limit_is_an_overflow() {
    let mut g = governor(1, 1);
    g.proposal_count = u64::MAX;
    let mut ctx = CreateProposal { proposer: key(2), governor: g, governor_key: key(1) };
    assert_eq!(create_proposal(&mut ctx, 0, Vec::new(), 1).unwrap_err(), GovernanceError::Overflow);
    assert_eq!(ctx.governor.proposal_count, u64::MAX);
}

#[test]
fn create_proposal_snapshots_governor() {
    let mut ctx = CreateProposal { proposer: key(2), governor: governor(100, 86400), governor_key: key(1) };
    let ix = ProposalInstruction {
        program_id: key(3),
        keys: vec![ProposalAccountMeta { pubkey: key(4), is_signer: true, is_writable: false }],
        data: vec![1, 2, 3],
    };
    let p = create_proposal(&mut ctx, 7, vec![ix], 1000).unwrap();
    assert_eq!(p.quorum_votes, 100);
    assert_eq!(p.governor, key(1));
    assert_eq!(p.proposer, key(2));
    assert_eq!(p.bump, 7);
    assert_eq!(tallies(&p), (0, 0, 0));
    assert_eq!((p.activated_at, p.canceled_at, p.voting_ends_at, p.queued_at), (0, 0, 0, 0));
    assert_eq!(p.queued_transaction, Pubkey::zero());
    assert_eq!(p.instructions.len(), 1);
    assert_eq!(p.instructions[0].data, vec![1, 2, 3]);
    assert_eq!(p.instructions[0].keys[0].pubkey, key(4));
    let mut sp = SetGovernanceParams { governor: ctx.governor };
    set_governance_params(&mut sp, params(0, 1, 500)).unwrap();
    assert_eq!(sp.governor.params.quorum_votes, 500);
    assert_eq!(p.quorum_votes, 100);
}

#[test]
fn quorum_predicate() {
    let mut ctx = vote_ctx(proposal_with(60, 30, 0, 100), 0, 0);
    set_vote(&mut ctx, 3, 5).unwrap();
    assert_eq!(tallies(&ctx.proposal), (60, 30, 5));
    assert!(!ctx.proposal.is_quorum_met());
    let mut other = vote_ctx(ctx.proposal.clone(), 0, 0);
    set_vote(&mut other, 3, 5).unwrap();
    assert_eq!(other.proposal.abstain_votes, 10);
    assert!(other.proposal.is_quorum_met());
    let mut third = vote_ctx(ctx.proposal.clone(), 0, 0);
    set_vote(&mut third, 3, 10).unwrap();
    assert_eq!(third.proposal.for_votes + third.proposal.against_votes + third.proposal.abstain_votes, 105);
    assert!(third.proposal.is_quorum_met());
}

#[test]
fn quorum_sum_saturates() {
    let p = proposal_with(u64::MAX, u64::MAX, 1, u64::MAX);
    assert!(p.is_quorum_met());
    let q = proposal_with(0, 0, 0, 0);
    assert!(q.is_quorum_met());
    let r = proposal_with(0, 0, 0, 1);
    assert!(!r.is_quorum_met());
}

#[test]
fn scenario_quorum_failure_despite_majority() {
    let g = governor(100, 86400);
    let mut cp = CreateProposal { proposer: key(2), governor: g, governor_key: key(1) };
    let p = create_proposal(&mut cp, 0, Vec::new(), 900).unwrap();
    assert_eq!(p.index, 0);
    let mut act = ActivateProposal { proposal: p, governor: cp.governor, governor_key: key(1) };
    activate_proposal(&mut act, 1000).unwrap();
    assert_eq!(act.proposal.activated_at, 1000);
    assert_eq!(act.proposal.voting_ends_at, 87400);
    let v1 = new_vote(&NewVote { voter: key(20), proposal: key(5) }, key(20));
    let v2 = new_vote(&NewVote { voter: key(21), proposal: key(5) }, key(21));
    let mut c1 = SetVote { vote: v1, proposal: act.proposal, proposal_key: key(5) };
    set_vote(&mut c1, 2, 80).unwrap();
    let mut c2 = SetVote { vote: v2, proposal: c1.proposal, proposal_key: key(5) };
    set_vote(&mut c2, 1, 10).unwrap();
    let p = c2.proposal;
    assert_eq!(tallies(&p), (80, 10, 0));
    assert_eq!(p.outcome(87400), ProposalState::Active);
    assert_eq!(p.outcome(87401), ProposalState::Defeated);
}

#[test]
fn outcome_succeeds_with_quorum_and_majority() {
    let mut p = proposal_with(70, 40, 0, 100);
    p.voting_ends_at = 500;
    assert_eq!(p.outcome(100), ProposalState::Active);
    assert_eq!(p.outcome(501), ProposalState::Succeeded);
    let mut tie = proposal_with(60, 60, 0, 100);
    tie.voting_ends_at = 500;
    assert_eq!(tie.outcome(501), ProposalState::Defeated);
}

#[test]
fn timelock_delay_is_validated() {
    let ctx = CreateGovernor { base: key(9) };
    assert_eq!(
        create_governor(&ctx, 1, key(8), params(-1, 86400, 100)).unwrap_err(),
        GovernanceError::InvalidTimelockDelay
    );
    let g = create_governor(&ctx, 1, key(8), params(0, 86400, 100)).unwrap();
    assert_eq!(g.proposal_count, 0);
    assert_eq!(g.base, key(9));
    assert_eq!(g.electorate, key(8));
    assert_eq!(g.params, params(0, 86400, 100));
}

#[test]
fn activation_overflow_and_mismatch() {
    let g = governor(1, i64::MAX);
    let mut act = ActivateProposal { proposal: proposal_with(0, 0, 0, 1), governor: g, governor_key: key(1) };
    assert_eq!(activate_proposal(&mut act, 1), Err(GovernanceError::Overflow));
    assert_eq!(act.proposal.activated_at, 0);
    activate_proposal(&mut act, 0).unwrap();
    assert_eq!(act.proposal.voting_ends_at, i64::MAX);
    act.governor_key = key(3);
    assert_eq!(activate_proposal(&mut act, 5), Err(GovernanceError::AccountMismatch));
    assert_eq!(act.proposal.activated_at, 0);
}

#[test]
fn reactivation_resets_window() {
    let mut act = ActivateProposal { proposal: proposal_with(0, 0, 0, 1), governor: governor(1, 100), governor_key: key(1) };
    activate_proposal(&mut act, 10).unwrap();
    activate_proposal(&mut act, 50).unwrap();
    assert_eq!((act.proposal.activated_at, act.proposal.voting_ends_at), (50, 150));
}

#[test]
fn only_proposer_cancels() {
    let mut ctx = CancelProposal { proposal: proposal_with(0, 0, 0, 0), proposer: key(3) };
    assert_eq!(cancel_proposal(&mut ctx, 77), Err(GovernanceError::Unauthorized));
    assert_eq!(ctx.proposal.canceled_at, 0);
    ctx.proposer = key(2);
    cancel_proposal(&mut ctx, 77).unwrap();
    assert_eq!(ctx.proposal.canceled_at, 77);
}

#[test]
fn queue_records_transaction() {
    let mut ctx = QueueProposal { proposal: proposal_with(0, 0, 0, 0), governor_key: key(1), transaction: key(40) };
    queue_proposal(&mut ctx, 0, 123).unwrap();
    assert_eq!(ctx.proposal.queued_at, 123);
    assert_eq!(ctx.proposal.queued_transaction, key(40));
    let mut wrong = QueueProposal { proposal: proposal_with(0, 0, 0, 0), governor_key: key(7), transaction: key(40) };
    assert_eq!(queue_proposal(&mut wrong, 0, 123), Err(GovernanceError::AccountMismatch));
    assert_eq!(wrong.proposal.queued_transaction, Pubkey::zero());
}

#[test]
fn new_vote_is_pending_with_no_weight() {
    let v = new_vote(&NewVote { voter: key(4), proposal: key(5) }, key(6));
    assert_eq!((v.side, v.weight), (0, 0));
    assert_eq!(v.proposal, key(5));
    assert_eq!(v.voter, key(6));
}

#[test]
fn electorate_and_meta() {
    let mut ctx = SetGovernanceParams { governor: governor(1, 1) };
    set_electorate(&mut ctx, key(55)).unwrap();
    assert_eq!(ctx.governor.electorate, key(55));
    assert_eq!(ctx.governor.params, params(0, 1, 1));
    let meta = create_proposal_meta(
        &CreateProposalMeta { proposer: key(2), proposal: key(5) },
        0,
        "Title".to_string(),
        "https://example.org/d".to_string(),
    );
    assert_eq!(meta.proposal, key(5));
    assert_eq!(meta.title, "Title");
    assert_eq!(meta.description_link, "https://example.org/d");
}

#[test]
fn keys_compare_by_bytes() {
    let mut b = [3u8; 32];
    assert_eq!(Pubkey::new(b), key(3));
    b[31] = 4;
    assert_ne!(Pubkey::new(b), key(3));
    assert_eq!(GovernanceError::Overflow.message(), "Overflow error.");
}

#[test]
fn cancel_and_queue_have_no_state_guard() {
    let mut p = proposal_with(1, 50, 0, 100);
    p.activated_at = 10;
    p.voting_ends_at = 1000;
    p.canceled_at = 20;
    let mut q = QueueProposal { proposal: p, governor_key: key(1), transaction: key(41) };
    queue_proposal(&mut q, 0, 30).unwrap();
    assert_eq!((q.proposal.queued_at, q.proposal.queued_transaction), (30, key(41)));
    let mut c = CancelProposal { proposal: q.proposal, proposer: key(2) };
    cancel_proposal(&mut c, 40).unwrap();
    assert_eq!(c.proposal.canceled_at, 40);
    assert_eq!(c.proposal.queued_at, 30);
}
