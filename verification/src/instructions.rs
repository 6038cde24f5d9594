//! The three instructions on records that are already at hand: what each one checks and
//! what it writes.

use crate::address::Address;
use crate::error::VotingError;
use crate::results::{results_of, tally, Results};
use crate::state::{
    is_valid_description, valid_description, Proposal, ProposalView, VoterRecord, VoterRecordView,
};
use vstd::prelude::*;

verus! {

/// The records that creating a proposal touches.
#[derive(Debug)]
pub struct CreateProposal {
    /// The record to be written, freshly allocated at the proposal's key.
    pub proposal: Proposal,
    /// Who creates the proposal.
    pub proposer: Address,
    /// The bump seed of the proposal's key.
    pub bump: u8,
}

/// The records that casting a vote touches.
#[derive(Debug)]
pub struct Vote {
    /// The proposal voted on.
    pub proposal: Proposal,
    /// The key at which the proposal is stored.
    pub proposal_key: Address,
    /// The record to be written, freshly allocated at the vote record's key.
    pub voter_record: VoterRecord,
    /// Who votes.
    pub voter: Address,
}

/// The record that reading a tally touches.
#[derive(Debug)]
pub struct GetResults {
    pub proposal: Proposal,
}

/// Why a vote is refused, if it is: the proposer may not vote, nobody votes twice, and no
/// counter goes past its maximum.
pub open spec fn vote_refusal(
    proposal: ProposalView,
    record: VoterRecordView,
    voter: Seq<u8>,
    support: bool,
) -> Option<VotingError> {
    if proposal.proposer == voter {
        Some(VotingError::ProposerCannotVote)
    } else if record.voted {
        Some(VotingError::AlreadyVoted)
    } else if proposal.counter_full(support) {
        Some(VotingError::VoteCountOverflow)
    } else {
        None
    }
}

/// Creates a proposal: checks the description and fills the record at hand.
pub fn create_proposal(ctx: &mut CreateProposal, description: String, seed: u64, now: i64) -> (done:
    Result<(), VotingError>)
    ensures
        valid_description(description@) ==> {
            &&& done is Ok
            &&& final(ctx).proposal@ == ProposalView::created(
                old(ctx).proposer@,
                description@,
                seed,
                old(ctx).bump,
                now as int,
            )
            &&& final(ctx).proposer == old(ctx).proposer
            &&& final(ctx).bump == old(ctx).bump
        },
        !valid_description(description@) ==> {
            &&& done == Err::<(), VotingError>(VotingError::InvalidDescriptionLength)
            &&& *final(ctx) == *old(ctx)
        },
{
    if !is_valid_description(description.as_str()) {
        return Err(VotingError::InvalidDescriptionLength);
    }
    ctx.proposal.proposer = ctx.proposer;
    ctx.proposal.description = description;
    ctx.proposal.votes_for = 0;
    ctx.proposal.votes_against = 0;
    ctx.proposal.created_at = now;
    ctx.proposal.seed = seed;
    ctx.proposal.bump = ctx.bump;
    Ok(())
}

/// Checks whether a vote may be cast on the records at hand, and changes nothing.
pub fn check_vote(ctx: &Vote, support: bool) -> (checked: Result<(), VotingError>)
    ensures
        match vote_refusal(ctx.proposal@, ctx.voter_record@, ctx.voter@, support) {
            Some(error) => checked == Err::<(), VotingError>(error),
            None => checked is Ok,
        },
{
    if ctx.proposal.proposer == ctx.voter {
        return Err(VotingError::ProposerCannotVote);
    }
    if ctx.voter_record.voted {
        return Err(VotingError::AlreadyVoted);
    }
    let counter = if support {
        ctx.proposal.votes_for
    } else {
        ctx.proposal.votes_against
    };
    if counter == u64::MAX {
        return Err(VotingError::VoteCountOverflow);
    }
    Ok(())
}

/// Casts a vote: checks that the voter may vote, counts the vote and fills the vote
/// record at hand.
pub fn vote(ctx: &mut Vote, support: bool, now: i64) -> (done: Result<(), VotingError>)
    ensures
        match vote_refusal(old(ctx).proposal@, old(ctx).voter_record@, old(ctx).voter@, support) {
            Some(error) => {
                &&& done == Err::<(), VotingError>(error)
                &&& *final(ctx) == *old(ctx)
            },
            None => {
                &&& done is Ok
                &&& final(ctx).proposal@ == old(ctx).proposal@.with_vote(support)
                &&& final(ctx).voter_record@ == VoterRecordView::cast(
                    old(ctx).voter@,
                    old(ctx).proposal_key@,
                    support,
                    now as int,
                )
                &&& final(ctx).proposal_key == old(ctx).proposal_key
                &&& final(ctx).voter == old(ctx).voter
            },
        },
{
    match check_vote(ctx, support) {
        Ok(()) => {},
        Err(error) => {
            return Err(error);
        },
    }
    if support {
        ctx.proposal.votes_for = ctx.proposal.votes_for + 1;
    } else {
        ctx.proposal.votes_against = ctx.proposal.votes_against + 1;
    }
    ctx.voter_record.voted = true;
    ctx.voter_record.voter = ctx.voter;
    ctx.voter_record.proposal = ctx.proposal_key;
    ctx.voter_record.support = support;
    ctx.voter_record.voted_at = now;
    Ok(())
}

/// Reads the tally of the proposal at hand.
pub fn get_results(ctx: &GetResults) -> (results: Results)
    ensures
        results@ == results_of(ctx.proposal@),
{
    tally(&ctx.proposal)
}

} // verus!
