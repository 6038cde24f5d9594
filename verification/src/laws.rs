//! What holds of the ledger's transitions, proved over the mathematical ledger.

use crate::derive::{proposal_address, vote_address};
use crate::error::{ErrorKind, VotingError};
use crate::model::LedgerView;
use crate::results::{results_of, Status};
use crate::state::{valid_description, VoterRecordView};
use vstd::prelude::*;
use vstd::set_lib::{lemma_len_subset, lemma_set_disjoint_lens};

verus! {

/// A proposal with a valid description, at a key that is at hand and vacant, is created:
/// the stored record holds the inputs exactly and has no votes, and no other record
/// changes.
pub proof fn law_create_proposal_succeeds(
    ledger: LedgerView,
    key: Seq<u8>,
    bump: u8,
    proposer: Seq<u8>,
    description: Seq<char>,
    nonce: u64,
    now: int,
)
    requires
        valid_description(description),
        !ledger.proposals.dom().contains(key),
    ensures
        ledger.create_proposal_outcome(Some((key, bump)), description) == Ok::<
            Seq<u8>,
            VotingError,
        >(key),
        ({
            let after = ledger.create_proposal(Some((key, bump)), proposer, description, nonce, now);
            &&& after.proposals.dom() == ledger.proposals.dom().insert(key)
            &&& after.proposals[key].proposer == proposer
            &&& after.proposals[key].description == description
            &&& after.proposals[key].seed == nonce
            &&& after.proposals[key].bump == bump
            &&& after.proposals[key].created_at == now
            &&& after.proposals[key].votes_for == 0
            &&& after.proposals[key].votes_against == 0
            &&& forall|other: Seq<u8>|
                ledger.proposals.dom().contains(other) ==> #[trigger] after.proposals[other]
                    == ledger.proposals[other]
            &&& after.votes == ledger.votes
        }),
{
}

/// A proposal whose description is empty or longer than 500 bytes is refused as invalid
/// input, whatever else holds, and no record is created.
pub proof fn law_invalid_description_refused(
    ledger: LedgerView,
    derived: Option<(Seq<u8>, u8)>,
    proposer: Seq<u8>,
    description: Seq<char>,
    nonce: u64,
    now: int,
)
    requires
        !valid_description(description),
    ensures
        ledger.create_proposal_outcome(derived, description) == Err::<Seq<u8>, VotingError>(
            VotingError::InvalidDescriptionLength,
        ),
        VotingError::InvalidDescriptionLength.spec_kind() == ErrorKind::InvalidInput,
        ledger.create_proposal(derived, proposer, description, nonce, now) == ledger,
{
}

/// A proposal at a key that is taken is refused as a duplicate, and changes nothing.
pub proof fn law_taken_key_refused(
    ledger: LedgerView,
    key: Seq<u8>,
    bump: u8,
    proposer: Seq<u8>,
    description: Seq<char>,
    nonce: u64,
    now: int,
)
    requires
        valid_description(description),
        ledger.proposals.dom().contains(key),
    ensures
        ledger.create_proposal_outcome(Some((key, bump)), description) == Err::<
            Seq<u8>,
            VotingError,
        >(VotingError::DuplicateProposal),
        VotingError::DuplicateProposal.spec_kind() == ErrorKind::DuplicateKey,
        ledger.create_proposal(Some((key, bump)), proposer, description, nonce, now) == ledger,
{
}

/// A vote on an existing proposal by someone other than its proposer, recorded at a key
/// that is at hand and vacant, succeeds where the counter has room: the counter of its
/// kind grows by exactly one, the other counter and the rest of the proposal stay, and
/// the vote is recorded.
pub proof fn law_first_vote_counts(
    ledger: LedgerView,
    key: Seq<u8>,
    bump: u8,
    voter: Seq<u8>,
    proposal: Seq<u8>,
    support: bool,
    now: int,
)
    requires
        ledger.proposals.dom().contains(proposal),
        voter != ledger.proposals[proposal].proposer,
        !ledger.votes.dom().contains(key),
        !ledger.proposals[proposal].counter_full(support),
    ensures
        ledger.cast_vote_outcome(Some((key, bump)), voter, proposal, support) == Ok::<
            Seq<u8>,
            VotingError,
        >(key),
        ({
            let before = ledger.proposals[proposal];
            let after = ledger.cast_vote(Some((key, bump)), voter, proposal, support, now);
            &&& after.proposals.dom() == ledger.proposals.dom()
            &&& after.proposals[proposal].votes_for == before.votes_for + (if support {
                1nat
            } else {
                0nat
            })
            &&& after.proposals[proposal].votes_against == before.votes_against + (if support {
                0nat
            } else {
                1nat
            })
            &&& after.proposals[proposal] == before.with_vote(support)
            &&& forall|other: Seq<u8>|
                other != proposal ==> #[trigger] after.proposals[other] == ledger.proposals[other]
            &&& after.votes == ledger.votes.insert(
                key,
                VoterRecordView::cast(voter, proposal, support, now),
            )
        }),
{
    let after = ledger.cast_vote(Some((key, bump)), voter, proposal, support, now);
    assert(after.proposals.dom() =~= ledger.proposals.dom());
}

/// After a vote was cast, a second vote at the same key on the same proposal by the same
/// voter is refused as a duplicate, whichever way it goes, and changes nothing.
pub proof fn law_second_vote_refused(
    ledger: LedgerView,
    derived: Option<(Seq<u8>, u8)>,
    voter: Seq<u8>,
    proposal: Seq<u8>,
    first: bool,
    second: bool,
    first_time: int,
    second_time: int,
)
    requires
        ledger.cast_vote_outcome(derived, voter, proposal, first) is Ok,
    ensures
        ({
            let after = ledger.cast_vote(derived, voter, proposal, first, first_time);
            &&& after.cast_vote_outcome(derived, voter, proposal, second) == Err::<
                Seq<u8>,
                VotingError,
            >(VotingError::AlreadyVoted)
            &&& after.cast_vote(derived, voter, proposal, second, second_time) == after
        }),
        VotingError::AlreadyVoted.spec_kind() == ErrorKind::DuplicateKey,
{
}

/// The proposer's vote on their own proposal is refused as unauthorized, whatever key is
/// at hand and whatever votes are recorded, and changes nothing.
pub proof fn law_proposer_cannot_vote(
    ledger: LedgerView,
    derived: Option<(Seq<u8>, u8)>,
    proposal: Seq<u8>,
    support: bool,
    now: int,
)
    requires
        ledger.proposals.dom().contains(proposal),
    ensures
        ledger.cast_vote_outcome(derived, ledger.proposals[proposal].proposer, proposal, support)
            == Err::<Seq<u8>, VotingError>(VotingError::ProposerCannotVote),
        VotingError::ProposerCannotVote.spec_kind() == ErrorKind::AuthorizationViolation,
        ledger.cast_vote(derived, ledger.proposals[proposal].proposer, proposal, support, now)
            == ledger,
{
}

/// A vote on a key at which no proposal is stored is refused as not found.
pub proof fn law_vote_needs_proposal(
    ledger: LedgerView,
    derived: Option<(Seq<u8>, u8)>,
    voter: Seq<u8>,
    proposal: Seq<u8>,
    support: bool,
    now: int,
)
    requires
        !ledger.proposals.dom().contains(proposal),
    ensures
        ledger.cast_vote_outcome(derived, voter, proposal, support) == Err::<Seq<u8>, VotingError>(
            VotingError::ProposalNotFound,
        ),
        VotingError::ProposalNotFound.spec_kind() == ErrorKind::NotFound,
        ledger.cast_vote(derived, voter, proposal, support, now) == ledger,
        ledger.read_results(proposal) is Err,
{
}

/// In a valid ledger the two counters of a proposal add up to the number of vote
/// records on it, which is at most the number of all vote records.
pub proof fn law_tally_counts_vote_records(ledger: LedgerView, proposal: Seq<u8>)
    requires
        ledger.valid(),
        ledger.proposals.dom().contains(proposal),
    ensures
        ledger.proposals[proposal].votes_for + ledger.proposals[proposal].votes_against
            == ledger.ballots(proposal).len(),
        ledger.ballots(proposal).len() <= ledger.votes.dom().len(),
{
    let yes = ledger.ballots_with(proposal, true);
    let no = ledger.ballots_with(proposal, false);
    assert(ledger.proposal_valid(proposal));
    lemma_len_subset(yes, ledger.votes.dom());
    lemma_len_subset(no, ledger.votes.dom());
    lemma_len_subset(ledger.ballots(proposal), ledger.votes.dom());
    assert(yes.disjoint(no));
    lemma_set_disjoint_lens(yes, no);
    assert(yes + no =~= ledger.ballots(proposal));
}

/// In a valid ledger a counter is at its maximum only where the ledger holds at least as
/// many vote records: with fewer, every vote finds room.
pub proof fn law_counter_has_room(ledger: LedgerView, proposal: Seq<u8>, support: bool)
    requires
        ledger.valid(),
        ledger.proposals.dom().contains(proposal),
        ledger.votes.dom().len() < u64::MAX,
    ensures
        !ledger.proposals[proposal].counter_full(support),
{
    law_tally_counts_vote_records(ledger, proposal);
}

/// The tally that is read is the stored one: the total is the sum of the counters, and
/// the status says which counter is larger.
pub proof fn law_results_follow_counters(ledger: LedgerView, proposal: Seq<u8>)
    requires
        ledger.proposals.dom().contains(proposal),
    ensures
        ledger.read_results(proposal) is Ok,
        ({
            let stored = ledger.proposals[proposal];
            let read = ledger.read_results(proposal)->Ok_0;
            &&& read == results_of(stored)
            &&& read.total == stored.votes_for + stored.votes_against
            &&& read.status == Status::Passed <==> stored.votes_for > stored.votes_against
            &&& read.status == Status::Rejected <==> stored.votes_against > stored.votes_for
            &&& read.status == Status::Tied <==> stored.votes_for == stored.votes_against
        }),
{
}

/// Creating a proposal deletes no record, changes no vote record, and leaves every
/// proposal that was there as it was.
pub proof fn law_create_proposal_keeps_records(
    ledger: LedgerView,
    derived: Option<(Seq<u8>, u8)>,
    proposer: Seq<u8>,
    description: Seq<char>,
    nonce: u64,
    now: int,
)
    ensures
        ledger.kept_by(ledger.create_proposal(derived, proposer, description, nonce, now)),
{
}

/// Casting a vote deletes no record, changes no vote record, changes nothing of what a
/// proposal was created with, and lowers no counter.
pub proof fn law_cast_vote_keeps_records(
    ledger: LedgerView,
    derived: Option<(Seq<u8>, u8)>,
    voter: Seq<u8>,
    proposal: Seq<u8>,
    support: bool,
    now: int,
)
    ensures
        ledger.kept_by(ledger.cast_vote(derived, voter, proposal, support, now)),
{
}

/// Keeping is transitive: what an earlier ledger holds, every later one keeps.
pub proof fn law_keeping_is_transitive(first: LedgerView, second: LedgerView, third: LedgerView)
    requires
        first.kept_by(second),
        second.kept_by(third),
    ensures
        first.kept_by(third),
{
    assert forall|key: Seq<u8>| #[trigger] first.proposals.dom().contains(key) implies {
        &&& third.proposals.dom().contains(key)
        &&& third.proposals[key].proposer == first.proposals[key].proposer
        &&& third.proposals[key].description == first.proposals[key].description
        &&& third.proposals[key].created_at == first.proposals[key].created_at
        &&& third.proposals[key].seed == first.proposals[key].seed
        &&& third.proposals[key].bump == first.proposals[key].bump
        &&& third.proposals[key].votes_for >= first.proposals[key].votes_for
        &&& third.proposals[key].votes_against >= first.proposals[key].votes_against
    } by {
        assert(second.proposals.dom().contains(key));
    }
    assert forall|key: Seq<u8>| #[trigger] first.votes.dom().contains(key) implies {
        &&& third.votes.dom().contains(key)
        &&& third.votes[key] == first.votes[key]
    } by {
        assert(second.votes.dom().contains(key));
    }
}

/// Once a vote is recorded at a key, every ledger that keeps it refuses another vote at
/// that key as a duplicate, where the proposal exists and the voter is not its proposer.
pub proof fn law_vote_refused_ever_after(
    ledger: LedgerView,
    later: LedgerView,
    key: Seq<u8>,
    bump: u8,
    voter: Seq<u8>,
    proposal: Seq<u8>,
    support: bool,
)
    requires
        ledger.votes.dom().contains(key),
        ledger.kept_by(later),
        later.proposals.dom().contains(proposal),
        later.proposals[proposal].proposer != voter,
    ensures
        later.cast_vote_outcome(Some((key, bump)), voter, proposal, support) == Err::<
            Seq<u8>,
            VotingError,
        >(VotingError::AlreadyVoted),
{
}

/// A proposal created at the key derived from its proposer and nonce leaves every
/// record at its derived key.
pub proof fn law_create_proposal_keeps_derived_keys(
    ledger: LedgerView,
    proposer: Seq<u8>,
    description: Seq<char>,
    nonce: u64,
    now: int,
)
    requires
        ledger.addressed(),
    ensures
        ledger.create_proposal(
            proposal_address(proposer, nonce),
            proposer,
            description,
            nonce,
            now,
        ).addressed(),
{
    let after = ledger.create_proposal(
        proposal_address(proposer, nonce),
        proposer,
        description,
        nonce,
        now,
    );
    assert forall|key: Seq<u8>| #[trigger] after.proposals.dom().contains(key) implies proposal_address(
        after.proposals[key].proposer,
        after.proposals[key].seed,
    ) == Some((key, after.proposals[key].bump)) by {
        if ledger.proposals.dom().contains(key) {
        }
    }
}

/// A vote recorded at the key derived from its proposal and voter leaves every record
/// at its derived key.
pub proof fn law_cast_vote_keeps_derived_keys(
    ledger: LedgerView,
    voter: Seq<u8>,
    proposal: Seq<u8>,
    support: bool,
    now: int,
)
    requires
        ledger.addressed(),
    ensures
        ledger.cast_vote(vote_address(proposal, voter), voter, proposal, support, now).addressed(),
{
    let after = ledger.cast_vote(vote_address(proposal, voter), voter, proposal, support, now);
    assert forall|key: Seq<u8>| #[trigger] after.proposals.dom().contains(key) implies proposal_address(
        after.proposals[key].proposer,
        after.proposals[key].seed,
    ) == Some((key, after.proposals[key].bump)) by {
        if ledger.proposals.dom().contains(key) {
        }
    }
    assert forall|key: Seq<u8>| #[trigger] after.votes.dom().contains(key) implies {
        &&& vote_address(after.votes[key].proposal, after.votes[key].voter) matches Some(found)
        &&& found.0 == key
    } by {
        if ledger.votes.dom().contains(key) {
        }
    }
}

/// Where records are stored at their derived keys, a proposal holds at most one vote
/// record of each voter.
pub proof fn law_one_record_per_voter(ledger: LedgerView, first: Seq<u8>, second: Seq<u8>)
    requires
        ledger.addressed(),
        ledger.votes.dom().contains(first),
        ledger.votes.dom().contains(second),
        ledger.votes[first].proposal == ledger.votes[second].proposal,
        ledger.votes[first].voter == ledger.votes[second].voter,
    ensures
        first == second,
{
}

/// In a valid ledger no vote record is the proposer's own, and every proposal's
/// description is within bounds.
pub proof fn law_valid_records(ledger: LedgerView, proposal: Seq<u8>, record: Seq<u8>)
    requires
        ledger.valid(),
    ensures
        ledger.proposals.dom().contains(proposal) ==> valid_description(
            ledger.proposals[proposal].description,
        ),
        ledger.votes.dom().contains(record) ==> {
            &&& ledger.proposals.dom().contains(ledger.votes[record].proposal)
            &&& ledger.votes[record].voter
                != ledger.proposals[ledger.votes[record].proposal].proposer
        },
{
    if ledger.proposals.dom().contains(proposal) {
        assert(ledger.proposal_valid(proposal));
    }
    if ledger.votes.dom().contains(record) {
        assert(ledger.vote_valid(record));
    }
}

} // verus!
