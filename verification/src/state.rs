//! The two kinds of record: proposals and vote records.

use crate::address::Address;
use vstd::prelude::*;
use vstd::utf8::encode_utf8;

verus! {

/// The longest description, in bytes.
pub const MAX_DESCRIPTION_LEN: usize = 500;

/// A governance question with its running tally.
#[derive(Debug, PartialEq, Eq)]
pub struct Proposal {
    pub proposer: Address,
    pub description: String,
    pub votes_for: u64,
    pub votes_against: u64,
    pub created_at: i64,
    pub seed: u64,
    pub bump: u8,
}

/// A proposal as plain values.
pub struct ProposalView {
    pub proposer: Seq<u8>,
    pub description: Seq<char>,
    pub votes_for: nat,
    pub votes_against: nat,
    pub created_at: int,
    pub seed: u64,
    pub bump: u8,
}

/// The record of one voter's vote on one proposal.
#[derive(Clone, Copy, Debug, PartialEq, Eq)]
pub struct VoterRecord {
    pub voter: Address,
    pub proposal: Address,
    pub voted: bool,
    pub support: bool,
    pub voted_at: i64,
}

/// A vote record as plain values.
pub struct VoterRecordView {
    pub voter: Seq<u8>,
    pub proposal: Seq<u8>,
    pub voted: bool,
    pub support: bool,
    pub voted_at: int,
}

/// Whether a text may describe a proposal: between 1 and 500 bytes of UTF-8.
pub open spec fn valid_description(text: Seq<char>) -> bool {
    1 <= encode_utf8(text).len() <= MAX_DESCRIPTION_LEN
}

/// Tells whether a text may describe a proposal.
pub fn is_valid_description(text: &str) -> (valid: bool)
    ensures
        valid == valid_description(text@),
{
    let len = text.as_bytes().len();
    1 <= len && len <= MAX_DESCRIPTION_LEN
}

impl View for Proposal {
    type V = ProposalView;

    open spec fn view(&self) -> ProposalView {
        ProposalView {
            proposer: self.proposer@,
            description: self.description@,
            votes_for: self.votes_for as nat,
            votes_against: self.votes_against as nat,
            created_at: self.created_at as int,
            seed: self.seed,
            bump: self.bump,
        }
    }
}

impl ProposalView {
    /// A proposal as it is created: no votes yet.
    pub open spec fn created(
        proposer: Seq<u8>,
        description: Seq<char>,
        seed: u64,
        bump: u8,
        now: int,
    ) -> ProposalView {
        ProposalView {
            proposer,
            description,
            votes_for: 0,
            votes_against: 0,
            created_at: now,
            seed,
            bump,
        }
    }

    /// The proposal after one more vote, for it or against it.
    pub open spec fn with_vote(self, support: bool) -> ProposalView {
        if support {
            ProposalView { votes_for: self.votes_for + 1, ..self }
        } else {
            ProposalView { votes_against: self.votes_against + 1, ..self }
        }
    }

    /// Whether the counter that a vote would increment is at its maximum.
    pub open spec fn counter_full(self, support: bool) -> bool {
        if support {
            self.votes_for >= u64::MAX
        } else {
            self.votes_against >= u64::MAX
        }
    }

    /// The number of votes cast on the proposal.
    pub open spec fn total(self) -> nat {
        self.votes_for + self.votes_against
    }
}

impl Clone for Proposal {
    fn clone(&self) -> (copy: Proposal)
        ensures
            copy == *self,
    {
        Proposal {
            proposer: self.proposer,
            description: self.description.clone(),
            votes_for: self.votes_for,
            votes_against: self.votes_against,
            created_at: self.created_at,
            seed: self.seed,
            bump: self.bump,
        }
    }
}

impl Default for Proposal {
    /// A record not yet written: all fields zero, no description.
    fn default() -> (blank: Proposal)
        ensures
            blank@ == ProposalView::created(Seq::new(32, |i: int| 0u8), Seq::empty(), 0, 0, 0),
    {
        let blank = Proposal {
            proposer: Address { bytes: [0u8; 32] },
            description: String::new(),
            votes_for: 0,
            votes_against: 0,
            created_at: 0,
            seed: 0,
            bump: 0,
        };
        assert(blank.proposer@ =~= Seq::new(32, |i: int| 0u8));
        blank
    }
}

impl View for VoterRecord {
    type V = VoterRecordView;

    open spec fn view(&self) -> VoterRecordView {
        VoterRecordView {
            voter: self.voter@,
            proposal: self.proposal@,
            voted: self.voted,
            support: self.support,
            voted_at: self.voted_at as int,
        }
    }
}

impl VoterRecordView {
    /// The record of a vote cast at `now`.
    pub open spec fn cast(voter: Seq<u8>, proposal: Seq<u8>, support: bool, now: int) -> VoterRecordView {
        VoterRecordView { voter, proposal, voted: true, support, voted_at: now }
    }
}

impl Default for VoterRecord {
    /// A record not yet written: no vote, all fields zero.
    fn default() -> (blank: VoterRecord)
        ensures
            blank@ == (VoterRecordView {
                voter: Seq::new(32, |i: int| 0u8),
                proposal: Seq::new(32, |i: int| 0u8),
                voted: false,
                support: false,
                voted_at: 0,
            }),
    {
        let blank = VoterRecord {
            voter: Address { bytes: [0u8; 32] },
            proposal: Address { bytes: [0u8; 32] },
            voted: false,
            support: false,
            voted_at: 0,
        };
        assert(blank.voter@ =~= Seq::new(32, |i: int| 0u8));
        assert(blank.proposal@ =~= Seq::new(32, |i: int| 0u8));
        blank
    }
}

} // verus!
