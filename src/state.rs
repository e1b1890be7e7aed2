use vstd::prelude::*;

verus! {

/// A 32-byte identity: the address of a record or the key of a signer.
#[derive(Debug, Clone, Copy)]
pub struct Pubkey {
    pub bytes: [u8; 32],
}

impl Pubkey {
    /// The all-zero identity, standing for "no record".
    pub fn zero() -> (r: Pubkey)
        ensures
            r@ == Seq::new(32, |i: int| 0u8),
    {
        let r = Pubkey { bytes: [0u8; 32] };
        assert(r@ =~= Seq::new(32, |i: int| 0u8));
        r
    }

    pub fn new(bytes: [u8; 32]) -> (r: Pubkey)
        ensures
            r@ == bytes@,
    {
        Pubkey { bytes }
    }
}

impl View for Pubkey {
    type V = Seq<u8>;

    open spec fn view(&self) -> Seq<u8> {
        self.bytes@
    }
}

impl PartialEq for Pubkey {
    fn eq(&self, o: &Pubkey) -> (r: bool) {
        let mut i: usize = 0;
        while i < 32
            invariant
                0 <= i <= 32,
                self.bytes@.len() == 32,
                o.bytes@.len() == 32,
                forall|j: int| 0 <= j < i ==> self.bytes@[j] == o.bytes@[j],
            decreases 32 - i,
        {
            if self.bytes[i] != o.bytes[i] {
                return false;
            }
            i = i + 1;
        }
        assert(self.bytes@ =~= o.bytes@);
        true
    }
}

impl vstd::std_specs::cmp::PartialEqSpecImpl for Pubkey {
    open spec fn obeys_eq_spec() -> bool {
        true
    }

    open spec fn eq_spec(&self, o: &Pubkey) -> bool {
        self@ == o@
    }
}

impl Eq for Pubkey {
}

/// The configuration of a governor. Validated when a governor is created:
/// `timelock_delay_seconds` must not be negative.
#[derive(Debug, Clone, Copy, PartialEq, Eq, Structural)]
pub struct GovernanceParameters {
    pub timelock_delay_seconds: i64,
    pub voting_period: i64,
    pub quorum_votes: u64,
}

/// A governing body: its parameters, its electorate and the count of the
/// proposals created under it.
#[derive(Debug, Clone, Copy)]
pub struct Governor {
    pub base: Pubkey,
    pub bump: u8,
    pub proposal_count: u64,
    pub electorate: Pubkey,
    pub params: GovernanceParameters,
}

/// One participant of a proposed instruction.
#[derive(Debug, Clone, Copy)]
pub struct ProposalAccountMeta {
    pub pubkey: Pubkey,
    pub is_signer: bool,
    pub is_writable: bool,
}

/// One action of a proposal's batch, stored verbatim and never interpreted.
#[derive(Debug, Clone)]
pub struct ProposalInstruction {
    pub program_id: Pubkey,
    pub keys: Vec<ProposalAccountMeta>,
    pub data: Vec<u8>,
}

/// A proposal: its lifecycle timestamps (0 while not reached), its running
/// vote tallies, the quorum taken from the governor at creation, and the
/// batch of instructions it carries.
#[derive(Debug, Clone)]
pub struct Proposal {
    pub governor: Pubkey,
    pub index: u64,
    pub bump: u8,
    pub proposer: Pubkey,
    pub quorum_votes: u64,
    pub for_votes: u64,
    pub against_votes: u64,
    pub abstain_votes: u64,
    pub canceled_at: i64,
    pub created_at: i64,
    pub activated_at: i64,
    pub voting_ends_at: i64,
    pub queued_at: i64,
    pub queued_transaction: Pubkey,
    pub instructions: Vec<ProposalInstruction>,
}

/// One voter's current side (as its byte encoding) and weight on one proposal.
#[derive(Debug, Clone, Copy)]
pub struct Vote {
    pub proposal: Pubkey,
    pub voter: Pubkey,
    pub bump: u8,
    pub side: u8,
    pub weight: u64,
}

/// Descriptive data attached to a proposal; no influence on its lifecycle.
#[derive(Debug, Clone)]
pub struct ProposalMeta {
    pub proposal: Pubkey,
    pub title: String,
    pub description_link: String,
}

} // verus!
