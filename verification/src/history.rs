//! Sequences of operations from the empty ledger, and what holds after every one of them.

use crate::model::LedgerView;
use vstd::prelude::*;

verus! {

/// A request that may change the ledger, with the key derived for it.
pub enum Operation {
    CreateProposal {
        derived: Option<(Seq<u8>, u8)>,
        proposer: Seq<u8>,
        description: Seq<char>,
        nonce: u64,
        now: int,
    },
    CastVote {
        derived: Option<(Seq<u8>, u8)>,
        voter: Seq<u8>,
        proposal: Seq<u8>,
        support: bool,
        now: int,
    },
}

impl LedgerView {
    /// The ledger after one operation.
    pub open spec fn apply(self, operation: Operation) -> LedgerView {
        match operation {
            Operation::CreateProposal { derived, proposer, description, nonce, now } => {
                self.create_proposal(derived, proposer, description, nonce, now)
            },
            Operation::CastVote { derived, voter, proposal, support, now } => {
                self.cast_vote(derived, voter, proposal, support, now)
            },
        }
    }

    /// Whether an operation is a vote on `proposal` that this ledger accepts.
    pub open spec fn accepts_vote_on(self, operation: Operation, proposal: Seq<u8>) -> bool {
        match operation {
            Operation::CreateProposal { .. } => false,
            Operation::CastVote { derived, voter, proposal: target, support, now } => {
                target == proposal && self.cast_vote_outcome(derived, voter, target, support) is Ok
            },
        }
    }

    /// The ledger after a sequence of operations on the empty ledger.
    pub open spec fn after(operations: Seq<Operation>) -> LedgerView
        decreases operations.len(),
    {
        if operations.len() == 0 {
            LedgerView::empty()
        } else {
            LedgerView::after(operations.drop_last()).apply(operations.last())
        }
    }
}

/// The number of votes on `proposal` that were accepted in a sequence of operations on
/// the empty ledger.
pub open spec fn votes_accepted(operations: Seq<Operation>, proposal: Seq<u8>) -> nat
    decreases operations.len(),
{
    if operations.len() == 0 {
        0
    } else {
        let earlier = operations.drop_last();
        votes_accepted(earlier, proposal) + (if LedgerView::after(earlier).accepts_vote_on(
            operations.last(),
            proposal,
        ) {
            1nat
        } else {
            0nat
        })
    }
}

/// After any sequence of operations the ledger is valid, and the two counters of every
/// proposal add up to the number of votes on it that were accepted; no vote was accepted
/// on a key at which no proposal is stored.
pub proof fn law_tally_counts_accepted_votes(operations: Seq<Operation>, proposal: Seq<u8>)
    ensures
        LedgerView::after(operations).valid(),
        LedgerView::after(operations).proposals.dom().contains(proposal) ==> LedgerView::after(
            operations,
        ).proposals[proposal].total() == votes_accepted(operations, proposal),
        !LedgerView::after(operations).proposals.dom().contains(proposal) ==> votes_accepted(
            operations,
            proposal,
        ) == 0,
    decreases operations.len(),
{
    if operations.len() > 0 {
        let earlier = operations.drop_last();
        let before = LedgerView::after(earlier);
        law_tally_counts_accepted_votes(earlier, proposal);
        match operations.last() {
            Operation::CreateProposal { derived, proposer, description, nonce, now } => {
                before.lemma_create_proposal_valid(derived, proposer, description, nonce, now);
            },
            Operation::CastVote { derived, voter, proposal: target, support, now } => {
                before.lemma_cast_vote_valid(derived, voter, target, support, now);
                let after = before.cast_vote(derived, voter, target, support, now);
                assert(after.proposals.dom() =~= before.proposals.dom());
            },
        }
    }
}

} // verus!
