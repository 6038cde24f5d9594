//! The ledger as mathematics: two maps from keys to records, the transitions on them,
//! and what holds of every ledger that the transitions reach.

use crate::derive::{proposal_address, vote_address};
use crate::error::VotingError;
use crate::results::{results_of, ResultsView};
use crate::state::{valid_description, ProposalView, VoterRecordView};
use vstd::prelude::*;
use vstd::set_lib::lemma_len_subset;

verus! {

/// The contents of a ledger: the proposals and the vote records, each under its key.
pub struct LedgerView {
    pub proposals: Map<Seq<u8>, ProposalView>,
    pub votes: Map<Seq<u8>, VoterRecordView>,
}

impl LedgerView {
    /// The ledger with no records.
    pub open spec fn empty() -> LedgerView {
        LedgerView { proposals: Map::empty(), votes: Map::empty() }
    }

    /// The keys of the vote records on `proposal`.
    pub open spec fn ballots(self, proposal: Seq<u8>) -> Set<Seq<u8>> {
        Set::new(|key: Seq<u8>| self.votes.dom().contains(key) && self.votes[key].proposal == proposal)
    }

    /// The keys of the vote records on `proposal` that are for it (`support`) or against it.
    pub open spec fn ballots_with(self, proposal: Seq<u8>, support: bool) -> Set<Seq<u8>> {
        Set::new(
            |key: Seq<u8>|
                self.votes.dom().contains(key) && self.votes[key].proposal == proposal
                    && self.votes[key].support == support,
        )
    }

    /// What holds of the proposal stored at `key`: its description is within bounds, and
    /// each counter is the number of vote records of its kind.
    pub open spec fn proposal_valid(self, key: Seq<u8>) -> bool {
        let proposal = self.proposals[key];
        &&& valid_description(proposal.description)
        &&& proposal.votes_for == self.ballots_with(key, true).len()
        &&& proposal.votes_against == self.ballots_with(key, false).len()
    }

    /// What holds of the vote record stored at `key`: it records a vote, on a proposal
    /// that exists, by someone other than the proposer.
    pub open spec fn vote_valid(self, key: Seq<u8>) -> bool {
        let record = self.votes[key];
        &&& record.voted
        &&& self.proposals.dom().contains(record.proposal)
        &&& record.voter != self.proposals[record.proposal].proposer
    }

    /// What holds of every ledger that the transitions reach from the empty one.
    pub open spec fn valid(self) -> bool {
        &&& self.proposals.dom().finite()
        &&& self.votes.dom().finite()
        &&& forall|key: Seq<u8>| #[trigger]
            self.proposals.dom().contains(key) ==> self.proposal_valid(key)
        &&& forall|key: Seq<u8>| #[trigger] self.votes.dom().contains(key) ==> self.vote_valid(key)
    }

    /// The outcome of creating a proposal: its key, or why it is refused.
    pub open spec fn create_proposal_outcome(
        self,
        derived: Option<(Seq<u8>, u8)>,
        description: Seq<char>,
    ) -> Result<Seq<u8>, VotingError> {
        if !valid_description(description) {
            Err(VotingError::InvalidDescriptionLength)
        } else {
            match derived {
                None => Err(VotingError::AddressUnavailable),
                Some((key, bump)) => if self.proposals.dom().contains(key) {
                    Err(VotingError::DuplicateProposal)
                } else {
                    Ok(key)
                },
            }
        }
    }

    /// The ledger after creating a proposal: with the new record where the outcome is a
    /// key, unchanged where it is a refusal.
    pub open spec fn create_proposal(
        self,
        derived: Option<(Seq<u8>, u8)>,
        proposer: Seq<u8>,
        description: Seq<char>,
        nonce: u64,
        now: int,
    ) -> LedgerView {
        match (self.create_proposal_outcome(derived, description), derived) {
            (Ok(key), Some((_, bump))) => LedgerView {
                proposals: self.proposals.insert(
                    key,
                    ProposalView::created(proposer, description, nonce, bump, now),
                ),
                votes: self.votes,
            },
            _ => self,
        }
    }

    /// The outcome of casting a vote: the key of the new vote record, or why the vote is
    /// refused.
    pub open spec fn cast_vote_outcome(
        self,
        derived: Option<(Seq<u8>, u8)>,
        voter: Seq<u8>,
        proposal: Seq<u8>,
        support: bool,
    ) -> Result<Seq<u8>, VotingError> {
        if !self.proposals.dom().contains(proposal) {
            Err(VotingError::ProposalNotFound)
        } else if self.proposals[proposal].proposer == voter {
            Err(VotingError::ProposerCannotVote)
        } else {
            match derived {
                None => Err(VotingError::AddressUnavailable),
                Some((key, bump)) => if self.votes.dom().contains(key) {
                    Err(VotingError::AlreadyVoted)
                } else if self.proposals[proposal].counter_full(support) {
                    Err(VotingError::VoteCountOverflow)
                } else {
                    Ok(key)
                },
            }
        }
    }

    /// The ledger after casting a vote: with the vote counted and recorded where the
    /// outcome is a key, unchanged where it is a refusal.
    pub open spec fn cast_vote(
        self,
        derived: Option<(Seq<u8>, u8)>,
        voter: Seq<u8>,
        proposal: Seq<u8>,
        support: bool,
        now: int,
    ) -> LedgerView {
        match self.cast_vote_outcome(derived, voter, proposal, support) {
            Ok(key) => LedgerView {
                proposals: self.proposals.insert(
                    proposal,
                    self.proposals[proposal].with_vote(support),
                ),
                votes: self.votes.insert(
                    key,
                    VoterRecordView::cast(voter, proposal, support, now),
                ),
            },
            Err(_) => self,
        }
    }

    /// The tally of the proposal stored at `proposal`, if there is one.
    pub open spec fn read_results(self, proposal: Seq<u8>) -> Result<ResultsView, VotingError> {
        if self.proposals.dom().contains(proposal) {
            Ok(results_of(self.proposals[proposal]))
        } else {
            Err(VotingError::ProposalNotFound)
        }
    }

    /// Whether `later` keeps all that this ledger holds: every proposal with its
    /// proposer, description, time of creation, nonce and bump seed, and with counters
    /// that are no smaller; every vote record as it is.
    pub open spec fn kept_by(self, later: LedgerView) -> bool {
        &&& forall|key: Seq<u8>| #[trigger]
            self.proposals.dom().contains(key) ==> {
                &&& later.proposals.dom().contains(key)
                &&& later.proposals[key].proposer == self.proposals[key].proposer
                &&& later.proposals[key].description == self.proposals[key].description
                &&& later.proposals[key].created_at == self.proposals[key].created_at
                &&& later.proposals[key].seed == self.proposals[key].seed
                &&& later.proposals[key].bump == self.proposals[key].bump
                &&& later.proposals[key].votes_for >= self.proposals[key].votes_for
                &&& later.proposals[key].votes_against >= self.proposals[key].votes_against
            }
        &&& forall|key: Seq<u8>| #[trigger]
            self.votes.dom().contains(key) ==> {
                &&& later.votes.dom().contains(key)
                &&& later.votes[key] == self.votes[key]
            }
    }

    /// Whether every record is stored at the key derived for it: a proposal at the key
    /// of its proposer and nonce, a vote record at the key of its proposal and voter.
    pub open spec fn addressed(self) -> bool {
        &&& forall|key: Seq<u8>| #[trigger]
            self.proposals.dom().contains(key) ==> proposal_address(
                self.proposals[key].proposer,
                self.proposals[key].seed,
            ) == Some((key, self.proposals[key].bump))
        &&& forall|key: Seq<u8>| #[trigger]
            self.votes.dom().contains(key) ==> {
                &&& vote_address(self.votes[key].proposal, self.votes[key].voter) matches Some(found)
                &&& found.0 == key
            }
    }

    /// The empty ledger is valid, and each of its records is at its derived key.
    pub proof fn lemma_empty_valid()
        ensures
            LedgerView::empty().valid(),
            LedgerView::empty().addressed(),
    {
    }

    /// No vote record refers to a key at which no proposal is stored.
    pub proof fn lemma_no_ballots_without_proposal(self, key: Seq<u8>, support: bool)
        requires
            self.valid(),
            !self.proposals.dom().contains(key),
        ensures
            self.ballots_with(key, support) == Set::<Seq<u8>>::empty(),
            self.ballots(key) == Set::<Seq<u8>>::empty(),
    {
        assert forall|k: Seq<u8>| !self.ballots_with(key, support).contains(k) by {
            if self.votes.dom().contains(k) {
                assert(self.vote_valid(k));
            }
        }
        assert forall|k: Seq<u8>| !self.ballots(key).contains(k) by {
            if self.votes.dom().contains(k) {
                assert(self.vote_valid(k));
            }
        }
        assert(self.ballots_with(key, support) =~= Set::<Seq<u8>>::empty());
        assert(self.ballots(key) =~= Set::<Seq<u8>>::empty());
    }

    /// Creating a proposal keeps the ledger valid.
    pub proof fn lemma_create_proposal_valid(
        self,
        derived: Option<(Seq<u8>, u8)>,
        proposer: Seq<u8>,
        description: Seq<char>,
        nonce: u64,
        now: int,
    )
        requires
            self.valid(),
        ensures
            self.create_proposal(derived, proposer, description, nonce, now).valid(),
    {
        let after = self.create_proposal(derived, proposer, description, nonce, now);
        if let Ok(created) = self.create_proposal_outcome(derived, description) {
            assert forall|key: Seq<u8>| #[trigger]
                after.proposals.dom().contains(key) implies after.proposal_valid(key) by {
                assert(after.ballots_with(key, true) =~= self.ballots_with(key, true));
                assert(after.ballots_with(key, false) =~= self.ballots_with(key, false));
                if key == created {
                    self.lemma_no_ballots_without_proposal(key, true);
                    self.lemma_no_ballots_without_proposal(key, false);
                } else {
                    assert(self.proposals.dom().contains(key));
                    assert(self.proposal_valid(key));
                }
            }
            assert forall|key: Seq<u8>| #[trigger]
                after.votes.dom().contains(key) implies after.vote_valid(key) by {
                assert(self.votes.dom().contains(key));
                assert(self.vote_valid(key));
            }
        }
    }

    /// Casting a vote keeps the ledger valid.
    pub proof fn lemma_cast_vote_valid(
        self,
        derived: Option<(Seq<u8>, u8)>,
        voter: Seq<u8>,
        proposal: Seq<u8>,
        support: bool,
        now: int,
    )
        requires
            self.valid(),
        ensures
            self.cast_vote(derived, voter, proposal, support, now).valid(),
    {
        let after = self.cast_vote(derived, voter, proposal, support, now);
        if let Ok(recorded) = self.cast_vote_outcome(derived, voter, proposal, support) {
            assert(after.proposals.dom() =~= self.proposals.dom());
            assert forall|key: Seq<u8>| #[trigger]
                after.proposals.dom().contains(key) implies after.proposal_valid(key) by {
                assert(self.proposals.dom().contains(key));
                assert(self.proposal_valid(key));
                lemma_len_subset(self.ballots_with(key, true), self.votes.dom());
                lemma_len_subset(self.ballots_with(key, false), self.votes.dom());
                if key == proposal {
                    assert(after.ballots_with(key, support) =~= self.ballots_with(
                        key,
                        support,
                    ).insert(recorded));
                    assert(after.ballots_with(key, !support) =~= self.ballots_with(key, !support));
                } else {
                    assert(after.ballots_with(key, true) =~= self.ballots_with(key, true));
                    assert(after.ballots_with(key, false) =~= self.ballots_with(key, false));
                }
            }
            assert forall|key: Seq<u8>| #[trigger]
                after.votes.dom().contains(key) implies after.vote_valid(key) by {
                if key != recorded {
                    assert(self.votes.dom().contains(key));
                    assert(self.vote_valid(key));
                }
            }
        }
    }
}

} // verus!
