//! What reading a proposal yields: its tally and the status that follows from it.

use crate::state::{Proposal, ProposalView};
use vstd::prelude::*;

verus! {

/// Where a proposal stands.
#[derive(Clone, Copy, Debug, PartialEq, Eq, Structural)]
pub enum Status {
    /// More votes for than against.
    Passed,
    /// More votes against than for.
    Rejected,
    /// As many votes for as against.
    Tied,
}

/// The tally of a proposal.
#[derive(Debug, PartialEq, Eq)]
pub struct Results {
    pub description: String,
    pub votes_for: u64,
    pub votes_against: u64,
    /// The sum of the two counters, in a type wide enough to hold it.
    pub total: u128,
    pub status: Status,
}

/// A tally as plain values.
pub struct ResultsView {
    pub description: Seq<char>,
    pub votes_for: nat,
    pub votes_against: nat,
    pub total: nat,
    pub status: Status,
}

impl View for Results {
    type V = ResultsView;

    open spec fn view(&self) -> ResultsView {
        ResultsView {
            description: self.description@,
            votes_for: self.votes_for as nat,
            votes_against: self.votes_against as nat,
            total: self.total as nat,
            status: self.status,
        }
    }
}

/// The status that a tally gives.
pub open spec fn status_of(votes_for: nat, votes_against: nat) -> Status {
    if votes_for > votes_against {
        Status::Passed
    } else if votes_against > votes_for {
        Status::Rejected
    } else {
        Status::Tied
    }
}

/// The tally of a proposal.
pub open spec fn results_of(proposal: ProposalView) -> ResultsView {
    ResultsView {
        description: proposal.description,
        votes_for: proposal.votes_for,
        votes_against: proposal.votes_against,
        total: proposal.votes_for + proposal.votes_against,
        status: status_of(proposal.votes_for, proposal.votes_against),
    }
}

impl Status {
    /// The status in capitals.
    pub open spec fn label_text(self) -> Seq<char> {
        match self {
            Status::Passed => "PASSED"@,
            Status::Rejected => "REJECTED"@,
            Status::Tied => "TIED"@,
        }
    }

    /// The status in capitals, as it is shown to users.
    pub fn label(self) -> (text: &'static str)
        ensures
            text@ == self.label_text(),
    {
        match self {
            Status::Passed => "PASSED",
            Status::Rejected => "REJECTED",
            Status::Tied => "TIED",
        }
    }
}

/// Computes the tally of a proposal.
pub fn tally(proposal: &Proposal) -> (results: Results)
    ensures
        results@ == results_of(proposal@),
{
    let status = if proposal.votes_for > proposal.votes_against {
        Status::Passed
    } else if proposal.votes_against > proposal.votes_for {
        Status::Rejected
    } else {
        Status::Tied
    };
    Results {
        description: proposal.description.clone(),
        votes_for: proposal.votes_for,
        votes_against: proposal.votes_against,
        total: proposal.votes_for as u128 + proposal.votes_against as u128,
        status,
    }
}

} // verus!
