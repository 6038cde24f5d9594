//! The ledger: proposals and vote records in keyed stores, and the three operations on
//! them. Each operation either commits as a whole or refuses and changes nothing.

use crate::address::Address;
use crate::derive::{derive_proposal_id, derive_vote_id, derived_view, proposal_address, vote_address};
use crate::error::VotingError;
use crate::instructions::{create_proposal, vote, CreateProposal, Vote};
use crate::model::LedgerView;
use crate::results::{tally, Results, ResultsView};
use crate::state::{is_valid_description, Proposal, VoterRecord};
use crate::store::Store;
use vstd::prelude::*;

verus! {

/// What a voter learns of a vote that was cast: where it is recorded, and the tally
/// that it led to.
#[derive(Clone, Copy, Debug, PartialEq, Eq)]
pub struct VoteOutcome {
    pub vote_id: Address,
    pub votes_for: u64,
    pub votes_against: u64,
}

/// All proposals and all vote records.
pub struct Ledger {
    proposals: Store<Proposal>,
    votes: Store<VoterRecord>,
}

impl View for Ledger {
    type V = LedgerView;

    closed spec fn view(&self) -> LedgerView {
        LedgerView { proposals: self.proposals@, votes: self.votes@ }
    }
}

/// The key that an operation returns, as plain values.
pub open spec fn key_outcome(outcome: Result<Address, VotingError>) -> Result<Seq<u8>, VotingError> {
    match outcome {
        Ok(key) => Ok(key@),
        Err(error) => Err(error),
    }
}

/// The key in the outcome of a vote.
pub open spec fn vote_key_outcome(outcome: Result<VoteOutcome, VotingError>) -> Result<
    Seq<u8>,
    VotingError,
> {
    match outcome {
        Ok(cast) => Ok(cast.vote_id@),
        Err(error) => Err(error),
    }
}

/// The tally that reading returns, as plain values.
pub open spec fn results_outcome(outcome: Result<Results, VotingError>) -> Result<
    ResultsView,
    VotingError,
> {
    match outcome {
        Ok(results) => Ok(results@),
        Err(error) => Err(error),
    }
}

impl Ledger {
    /// Both stores are well formed and their contents are valid.
    pub closed spec fn well_formed(&self) -> bool {
        &&& self.proposals.well_formed()
        &&& self.votes.well_formed()
        &&& self@.valid()
    }

    /// The contents of a well-formed ledger are valid.
    pub proof fn lemma_valid(&self)
        requires
            self.well_formed(),
        ensures
            self@.valid(),
    {
    }

    /// A ledger without records.
    pub fn new() -> (ledger: Ledger)
        ensures
            ledger.well_formed(),
            ledger@ == LedgerView::empty(),
    {
        let ledger = Ledger { proposals: Store::new(), votes: Store::new() };
        proof {
            ledger.proposals.lemma_finite();
            ledger.votes.lemma_finite();
        }
        ledger
    }

    /// The number of proposals.
    pub fn proposal_count(&self) -> (count: usize)
        requires
            self.well_formed(),
        ensures
            count == self@.proposals.dom().len(),
    {
        proof {
            self.proposals.lemma_finite();
        }
        self.proposals.len()
    }

    /// The number of vote records.
    pub fn vote_count(&self) -> (count: usize)
        requires
            self.well_formed(),
        ensures
            count == self@.votes.dom().len(),
    {
        proof {
            self.votes.lemma_finite();
        }
        self.votes.len()
    }

    /// The proposal stored at `key`, if there is one.
    pub fn proposal(&self, key: &Address) -> (found: Option<&Proposal>)
        requires
            self.well_formed(),
        ensures
            match found {
                Some(record) => self@.proposals.dom().contains(key@) && record@
                    == self@.proposals[key@],
                None => !self@.proposals.dom().contains(key@),
            },
    {
        self.proposals.read(key)
    }

    /// The vote record stored at `key`, if there is one.
    pub fn vote_record(&self, key: &Address) -> (found: Option<&VoterRecord>)
        requires
            self.well_formed(),
        ensures
            match found {
                Some(record) => self@.votes.dom().contains(key@) && record@ == self@.votes[key@],
                None => !self@.votes.dom().contains(key@),
            },
    {
        self.votes.read(key)
    }

    /// Creates a proposal at a key that was derived beforehand. The description is
    /// checked first; then a key must be at hand, and no proposal may be stored at it.
    pub fn create_proposal_at(
        &mut self,
        derived: Option<(Address, u8)>,
        proposer: Address,
        description: String,
        nonce: u64,
        now: i64,
    ) -> (created: Result<Address, VotingError>)
        requires
            old(self).well_formed(),
        ensures
            final(self).well_formed(),
            key_outcome(created) == old(self)@.create_proposal_outcome(
                derived_view(derived),
                description@,
            ),
            final(self)@ == old(self)@.create_proposal(
                derived_view(derived),
                proposer@,
                description@,
                nonce,
                now as int,
            ),
    {
        proof {
            self@.lemma_create_proposal_valid(
                derived_view(derived),
                proposer@,
                description@,
                nonce,
                now as int,
            );
        }
        if !is_valid_description(description.as_str()) {
            return Err(VotingError::InvalidDescriptionLength);
        }
        let (key, bump) = match derived {
            Some(found) => found,
            None => {
                return Err(VotingError::AddressUnavailable);
            },
        };
        let mut ctx = CreateProposal { proposal: Proposal::default(), proposer, bump };
        match create_proposal(&mut ctx, description, nonce, now) {
            Ok(()) => {},
            Err(error) => {
                return Err(error);
            },
        }
        if self.proposals.allocate(key, ctx.proposal) {
            Ok(key)
        } else {
            Err(VotingError::DuplicateProposal)
        }
    }

    /// Creates a proposal by `proposer` under the key derived from `proposer` and `nonce`.
    pub fn create_proposal(
        &mut self,
        proposer: Address,
        description: String,
        nonce: u64,
        now: i64,
    ) -> (created: Result<Address, VotingError>)
        requires
            old(self).well_formed(),
        ensures
            final(self).well_formed(),
            key_outcome(created) == old(self)@.create_proposal_outcome(
                proposal_address(proposer@, nonce),
                description@,
            ),
            final(self)@ == old(self)@.create_proposal(
                proposal_address(proposer@, nonce),
                proposer@,
                description@,
                nonce,
                now as int,
            ),
    {
        let derived = derive_proposal_id(&proposer, nonce);
        self.create_proposal_at(derived, proposer, description, nonce, now)
    }

    /// Casts a vote that is recorded at a key derived beforehand. The proposal must
    /// exist and the voter must not be its proposer; then a key must be at hand, no vote
    /// record may be stored at it, and the counter must have room.
    pub fn cast_vote_at(
        &mut self,
        derived: Option<(Address, u8)>,
        voter: Address,
        proposal: Address,
        support: bool,
        now: i64,
    ) -> (cast: Result<VoteOutcome, VotingError>)
        requires
            old(self).well_formed(),
        ensures
            final(self).well_formed(),
            vote_key_outcome(cast) == old(self)@.cast_vote_outcome(
                derived_view(derived),
                voter@,
                proposal@,
                support,
            ),
            final(self)@ == old(self)@.cast_vote(
                derived_view(derived),
                voter@,
                proposal@,
                support,
                now as int,
            ),
            cast matches Ok(outcome) ==> {
                &&& outcome.votes_for == final(self)@.proposals[proposal@].votes_for
                &&& outcome.votes_against == final(self)@.proposals[proposal@].votes_against
            },
    {
        proof {
            self@.lemma_cast_vote_valid(
                derived_view(derived),
                voter@,
                proposal@,
                support,
                now as int,
            );
        }
        let stored = match self.proposals.read(&proposal) {
            Some(record) => record.clone(),
            None => {
                return Err(VotingError::ProposalNotFound);
            },
        };
        if stored.proposer == voter {
            return Err(VotingError::ProposerCannotVote);
        }
        let key = match derived {
            Some((key, _)) => key,
            None => {
                return Err(VotingError::AddressUnavailable);
            },
        };
        if self.votes.contains(&key) {
            return Err(VotingError::AlreadyVoted);
        }
        let mut ctx = Vote {
            proposal: stored,
            proposal_key: proposal,
            voter_record: VoterRecord::default(),
            voter,
        };
        match vote(&mut ctx, support, now) {
            Ok(()) => {},
            Err(error) => {
                return Err(error);
            },
        }
        let outcome = VoteOutcome {
            vote_id: key,
            votes_for: ctx.proposal.votes_for,
            votes_against: ctx.proposal.votes_against,
        };
        self.votes.allocate(key, ctx.voter_record);
        self.proposals.write(&proposal, ctx.proposal);
        Ok(outcome)
    }

    /// Casts `voter`'s vote on the proposal stored at `proposal`, recorded under the key
    /// derived from the two.
    pub fn cast_vote(&mut self, voter: Address, proposal: Address, support: bool, now: i64) -> (cast:
        Result<VoteOutcome, VotingError>)
        requires
            old(self).well_formed(),
        ensures
            final(self).well_formed(),
            vote_key_outcome(cast) == old(self)@.cast_vote_outcome(
                vote_address(proposal@, voter@),
                voter@,
                proposal@,
                support,
            ),
            final(self)@ == old(self)@.cast_vote(
                vote_address(proposal@, voter@),
                voter@,
                proposal@,
                support,
                now as int,
            ),
            cast matches Ok(outcome) ==> {
                &&& outcome.votes_for == final(self)@.proposals[proposal@].votes_for
                &&& outcome.votes_against == final(self)@.proposals[proposal@].votes_against
            },
    {
        let derived = derive_vote_id(&proposal, &voter);
        self.cast_vote_at(derived, voter, proposal, support, now)
    }

    /// Reads the tally of the proposal stored at `proposal`. Nothing changes.
    pub fn read_results(&self, proposal: &Address) -> (read: Result<Results, VotingError>)
        requires
            self.well_formed(),
        ensures
            results_outcome(read) == self@.read_results(proposal@),
    {
        match self.proposals.read(proposal) {
            Some(record) => Ok(tally(record)),
            None => Err(VotingError::ProposalNotFound),
        }
    }
}

} // verus!
