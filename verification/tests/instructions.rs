use anchor_voting_dapp::address::Address;
use anchor_voting_dapp::error::{ErrorKind, VotingError};
use anchor_voting_dapp::instructions::{
    check_vote, create_proposal, get_results, vote, CreateProposal, GetResults, Vote,
};
use anchor_voting_dapp::results::{tally, Status};
use anchor_voting_dapp::state::{is_valid_description, Proposal, VoterRecord, MAX_DESCRIPTION_LEN};

fn addr(fill: u8) -> Address {
    Address::new([fill; 32])
}

fn fresh_create(proposer: Address, bump: u8) -> CreateProposal {
    CreateProposal { proposal: Proposal::default(), proposer, bump }
}

fn proposal_of(proposer: Address, votes_for: u64, votes_against: u64) -> Proposal {
    Proposal {
        proposer,
        description: String::from("Upgrade fee schedule?"),
        votes_for,
        votes_against,
        created_at: 100,
        seed: 1,
        bump: 254,
    }
}

fn fresh_vote(proposal: Proposal, voter: Address) -> Vote {
    Vote { proposal, proposal_key: addr(0xAA), voter_record: VoterRecord::default(), voter }
}

#[test]
fn blank_records_are_zeroed() {
    let p = Proposal::default();
    assert_eq!(p.proposer, addr(0));
    assert_eq!(p.description, "");
    assert_eq!((p.votes_for, p.votes_against, p.created_at, p.seed, p.bump), (0, 0, 0, 0, 0));
    let r = VoterRecord::default();
    assert_eq!(r.voter, addr(0));
    assert_eq!(r.proposal, addr(0));
    assert!(!r.voted);
    assert!(!r.support);
    assert_eq!(r.voted_at, 0);
}

#[test]
fn description_bounds_are_in_bytes() {
    assert_eq!(MAX_DESCRIPTION_LEN, 500);
    assert!(!is_valid_description(""));
    assert!(is_valid_description("x"));
    assert!(is_valid_description(&"x".repeat(500)));
    assert!(!is_valid_description(&"x".repeat(501)));
    // two bytes each
    assert!(is_valid_description(&"é".repeat(250)));
    assert!(!is_valid_description(&"é".repeat(251)));
    // four bytes each
    assert!(is_valid_description(&"🗳".repeat(125)));
    assert!(!is_valid_description(&"🗳".repeat(126)));
}

#[test]
fn create_proposal_fills_the_record() {
    let mut ctx = fresh_create(addr(1), 253);
    let done = create_proposal(&mut ctx, String::from("Upgrade fee schedule?"), 7, 1_700_000_000);
    assert_eq!(done, Ok(()));
    assert_eq!(
        ctx.proposal,
        Proposal {
            proposer: addr(1),
            description: String::from("Upgrade fee schedule?"),
            votes_for: 0,
            votes_against: 0,
            created_at: 1_700_000_000,
            seed: 7,
            bump: 253,
        }
    );
    assert_eq!(ctx.proposer, addr(1));
    assert_eq!(ctx.bump, 253);
}

#[test]
fn create_proposal_resets_counters_of_the_record_at_hand() {
    let mut ctx = CreateProposal { proposal: proposal_of(addr(9), 5, 6), proposer: addr(1), bump: 2 };
    assert_eq!(create_proposal(&mut ctx, String::from("d"), 0, -5), Ok(()));
    assert_eq!(ctx.proposal.votes_for, 0);
    assert_eq!(ctx.proposal.votes_against, 0);
    assert_eq!(ctx.proposal.proposer, addr(1));
    assert_eq!(ctx.proposal.created_at, -5);
    assert_eq!(ctx.proposal.description, "d");
}

#[test]
fn create_proposal_accepts_the_longest_description() {
    let text = "d".repeat(500);
    let mut ctx = fresh_create(addr(1), 1);
    assert_eq!(create_proposal(&mut ctx, text.clone(), 1, 0), Ok(()));
    assert_eq!(ctx.proposal.description, text);
}

#[test]
fn create_proposal_refuses_empty_description() {
    let mut ctx = fresh_create(addr(1), 1);
    let done = create_proposal(&mut ctx, String::new(), 1, 5);
    assert_eq!(done, Err(VotingError::InvalidDescriptionLength));
    assert_eq!(ctx.proposal, Proposal::default());
    assert_eq!(ctx.proposer, addr(1));
    assert_eq!(ctx.bump, 1);
}

#[test]
fn create_proposal_refuses_long_description() {
    let mut ctx = fresh_create(addr(1), 1);
    let done = create_proposal(&mut ctx, "d".repeat(501), 1, 5);
    assert_eq!(done, Err(VotingError::InvalidDescriptionLength));
    assert_eq!(ctx.proposal, Proposal::default());
}

#[test]
fn vote_for_counts_and_records() {
    let mut ctx = fresh_vote(proposal_of(addr(1), 3, 4), addr(2));
    assert_eq!(vote(&mut ctx, true, 77), Ok(()));
    assert_eq!(ctx.proposal, proposal_of(addr(1), 4, 4));
    assert_eq!(
        ctx.voter_record,
        VoterRecord { voter: addr(2), proposal: addr(0xAA), voted: true, support: true, voted_at: 77 }
    );
    assert_eq!(ctx.voter, addr(2));
    assert_eq!(ctx.proposal_key, addr(0xAA));
}

#[test]
fn vote_against_counts_and_records() {
    let mut ctx = fresh_vote(proposal_of(addr(1), 3, 4), addr(2));
    assert_eq!(vote(&mut ctx, false, -1), Ok(()));
    assert_eq!(ctx.proposal, proposal_of(addr(1), 3, 5));
    assert_eq!(
        ctx.voter_record,
        VoterRecord { voter: addr(2), proposal: addr(0xAA), voted: true, support: false, voted_at: -1 }
    );
}

#[test]
fn proposer_cannot_vote() {
    let mut ctx = fresh_vote(proposal_of(addr(1), 3, 4), addr(1));
    assert_eq!(check_vote(&ctx, true), Err(VotingError::ProposerCannotVote));
    assert_eq!(vote(&mut ctx, true, 77), Err(VotingError::ProposerCannotVote));
    assert_eq!(ctx.proposal, proposal_of(addr(1), 3, 4));
    assert_eq!(ctx.voter_record, VoterRecord::default());
}

#[test]
fn proposer_is_refused_before_the_flag_is_read() {
    let mut ctx = fresh_vote(proposal_of(addr(1), 3, 4), addr(1));
    ctx.voter_record.voted = true;
    assert_eq!(vote(&mut ctx, false, 77), Err(VotingError::ProposerCannotVote));
}

#[test]
fn nobody_votes_twice() {
    let mut ctx = fresh_vote(proposal_of(addr(1), 0, 0), addr(2));
    assert_eq!(vote(&mut ctx, true, 1), Ok(()));
    let after_first = ctx.voter_record;
    assert_eq!(vote(&mut ctx, true, 2), Err(VotingError::AlreadyVoted));
    assert_eq!(vote(&mut ctx, false, 3), Err(VotingError::AlreadyVoted));
    assert_eq!(ctx.proposal, proposal_of(addr(1), 1, 0));
    assert_eq!(ctx.voter_record, after_first);
}

#[test]
fn full_counter_refuses_the_vote() {
    let mut ctx = fresh_vote(proposal_of(addr(1), u64::MAX, 0), addr(2));
    assert_eq!(check_vote(&ctx, true), Err(VotingError::VoteCountOverflow));
    assert_eq!(vote(&mut ctx, true, 1), Err(VotingError::VoteCountOverflow));
    assert_eq!(ctx.proposal, proposal_of(addr(1), u64::MAX, 0));
    assert_eq!(ctx.voter_record, VoterRecord::default());
    // the other counter has room
    assert_eq!(check_vote(&ctx, false), Ok(()));
    assert_eq!(vote(&mut ctx, false, 1), Ok(()));
    assert_eq!(ctx.proposal, proposal_of(addr(1), u64::MAX, 1));

    let mut against = fresh_vote(proposal_of(addr(1), 0, u64::MAX), addr(2));
    assert_eq!(vote(&mut against, false, 1), Err(VotingError::VoteCountOverflow));
    assert_eq!(against.proposal, proposal_of(addr(1), 0, u64::MAX));
}

#[test]
fn counter_below_the_maximum_still_counts() {
    let mut ctx = fresh_vote(proposal_of(addr(1), u64::MAX - 1, 0), addr(2));
    assert_eq!(vote(&mut ctx, true, 1), Ok(()));
    assert_eq!(ctx.proposal.votes_for, u64::MAX);
}

#[test]
fn check_vote_changes_nothing() {
    let ctx = fresh_vote(proposal_of(addr(1), 3, 4), addr(2));
    assert_eq!(check_vote(&ctx, true), Ok(()));
    assert_eq!(check_vote(&ctx, false), Ok(()));
    assert_eq!(ctx.proposal, proposal_of(addr(1), 3, 4));
    assert_eq!(ctx.voter_record, VoterRecord::default());
}

#[test]
fn results_follow_the_counters() {
    let passed = get_results(&GetResults { proposal: proposal_of(addr(1), 2, 1) });
    assert_eq!(passed.description, "Upgrade fee schedule?");
    assert_eq!((passed.votes_for, passed.votes_against, passed.total), (2, 1, 3));
    assert_eq!(passed.status, Status::Passed);

    let rejected = get_results(&GetResults { proposal: proposal_of(addr(1), 1, 2) });
    assert_eq!(rejected.total, 3);
    assert_eq!(rejected.status, Status::Rejected);

    let tied = get_results(&GetResults { proposal: proposal_of(addr(1), 2, 2) });
    assert_eq!(tied.total, 4);
    assert_eq!(tied.status, Status::Tied);

    let none = get_results(&GetResults { proposal: proposal_of(addr(1), 0, 0) });
    assert_eq!(none.total, 0);
    assert_eq!(none.status, Status::Tied);
}

#[test]
fn total_does_not_wrap() {
    let all = tally(&proposal_of(addr(1), u64::MAX, u64::MAX));
    assert_eq!(all.total, 2 * (u64::MAX as u128));
    assert_eq!(all.total, 36_893_488_147_419_103_230u128);
    assert_eq!(all.status, Status::Tied);
}

#[test]
fn status_labels() {
    assert_eq!(Status::Passed.label(), "PASSED");
    assert_eq!(Status::Rejected.label(), "REJECTED");
    assert_eq!(Status::Tied.label(), "TIED");
}

#[test]
fn error_kinds() {
    assert_eq!(VotingError::InvalidDescriptionLength.kind(), ErrorKind::InvalidInput);
    assert_eq!(VotingError::ProposerCannotVote.kind(), ErrorKind::AuthorizationViolation);
    assert_eq!(VotingError::AlreadyVoted.kind(), ErrorKind::DuplicateKey);
    assert_eq!(VotingError::DuplicateProposal.kind(), ErrorKind::DuplicateKey);
    assert_eq!(VotingError::ProposalNotFound.kind(), ErrorKind::NotFound);
    assert_eq!(VotingError::AddressUnavailable.kind(), ErrorKind::Fatal);
    assert_eq!(VotingError::VoteCountOverflow.kind(), ErrorKind::Fatal);
}

#[test]
fn error_messages() {
    assert_eq!(
        VotingError::InvalidDescriptionLength.message(),
        "Description must be between 1 and 500 characters"
    );
    assert_eq!(
        VotingError::ProposerCannotVote.message(),
        "Proposer cannot vote on their own proposal"
    );
    assert_eq!(VotingError::AlreadyVoted.message(), "You have already voted on this proposal");
    assert_eq!(VotingError::DuplicateProposal.message(), "A proposal with this nonce already exists");
    assert_eq!(VotingError::ProposalNotFound.message(), "Proposal not found");
    assert_eq!(
        VotingError::AddressUnavailable.message(),
        "No address can be derived for this record"
    );
    assert_eq!(VotingError::VoteCountOverflow.message(), "Vote counter is at its maximum");
}

#[test]
fn proposal_clone_is_equal() {
    let p = proposal_of(addr(1), 2, 3);
    assert_eq!(p.clone(), p);
}
