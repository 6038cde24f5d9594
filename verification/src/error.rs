//! The errors of the ledger's operations and the classes they fall into.

use vstd::prelude::*;

verus! {

/// Why an operation was refused. A refused operation changes nothing.
#[derive(Clone, Copy, Debug, PartialEq, Eq, Structural)]
pub enum VotingError {
    /// The description is empty or longer than 500 bytes.
    InvalidDescriptionLength,
    /// The voter is the proposal's proposer.
    ProposerCannotVote,
    /// A vote record already exists for this voter on this proposal.
    AlreadyVoted,
    /// A proposal already exists at the key derived from this proposer and nonce.
    DuplicateProposal,
    /// No proposal is stored at the given key.
    ProposalNotFound,
    /// No address can be derived from the given seeds.
    AddressUnavailable,
    /// The counter to be incremented is at its maximum.
    VoteCountOverflow,
}

/// The class of an error.
#[derive(Clone, Copy, Debug, PartialEq, Eq, Structural)]
pub enum ErrorKind {
    /// The request itself is malformed.
    InvalidInput,
    /// The caller may not do this.
    AuthorizationViolation,
    /// The key of the record to be created is occupied.
    DuplicateKey,
    /// The request names a record that does not exist.
    NotFound,
    /// The operation cannot be carried out at all.
    Fatal,
}

impl VotingError {
    /// The class of this error.
    pub open spec fn spec_kind(self) -> ErrorKind {
        match self {
            VotingError::InvalidDescriptionLength => ErrorKind::InvalidInput,
            VotingError::ProposerCannotVote => ErrorKind::AuthorizationViolation,
            VotingError::AlreadyVoted => ErrorKind::DuplicateKey,
            VotingError::DuplicateProposal => ErrorKind::DuplicateKey,
            VotingError::ProposalNotFound => ErrorKind::NotFound,
            VotingError::AddressUnavailable => ErrorKind::Fatal,
            VotingError::VoteCountOverflow => ErrorKind::Fatal,
        }
    }

    /// The class of this error.
    #[verifier::when_used_as_spec(spec_kind)]
    pub fn kind(self) -> (kind: ErrorKind)
        ensures
            kind == self.spec_kind(),
    {
        match self {
            VotingError::InvalidDescriptionLength => ErrorKind::InvalidInput,
            VotingError::ProposerCannotVote => ErrorKind::AuthorizationViolation,
            VotingError::AlreadyVoted => ErrorKind::DuplicateKey,
            VotingError::DuplicateProposal => ErrorKind::DuplicateKey,
            VotingError::ProposalNotFound => ErrorKind::NotFound,
            VotingError::AddressUnavailable => ErrorKind::Fatal,
            VotingError::VoteCountOverflow => ErrorKind::Fatal,
        }
    }

    /// The text of this error's message.
    pub open spec fn message_text(self) -> Seq<char> {
        match self {
            VotingError::InvalidDescriptionLength => "Description must be between 1 and 500 characters"@,
            VotingError::ProposerCannotVote => "Proposer cannot vote on their own proposal"@,
            VotingError::AlreadyVoted => "You have already voted on this proposal"@,
            VotingError::DuplicateProposal => "A proposal with this nonce already exists"@,
            VotingError::ProposalNotFound => "Proposal not found"@,
            VotingError::AddressUnavailable => "No address can be derived for this record"@,
            VotingError::VoteCountOverflow => "Vote counter is at its maximum"@,
        }
    }

    /// A message for the user.
    pub fn message(self) -> (text: &'static str)
        ensures
            text@ == self.message_text(),
    {
        match self {
            VotingError::InvalidDescriptionLength => "Description must be between 1 and 500 characters",
            VotingError::ProposerCannotVote => "Proposer cannot vote on their own proposal",
            VotingError::AlreadyVoted => "You have already voted on this proposal",
            VotingError::DuplicateProposal => "A proposal with this nonce already exists",
            VotingError::ProposalNotFound => "Proposal not found",
            VotingError::AddressUnavailable => "No address can be derived for this record",
            VotingError::VoteCountOverflow => "Vote counter is at its maximum",
        }
    }
}

} // verus!
