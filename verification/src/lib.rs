//! A one-account-one-vote governance ledger: proposals, single votes and tallies,
//! addressed by identifiers derived from their creators.

pub mod address;
pub mod derive;
pub mod error;
pub mod history;
pub mod instructions;
pub mod laws;
pub mod ledger;
pub mod model;
pub mod results;
pub mod state;
pub mod store;

pub use address::Address;
pub use derive::{derive_proposal_id, derive_vote_id};
pub use error::{ErrorKind, VotingError};
pub use instructions::{create_proposal, get_results, vote, CreateProposal, GetResults, Vote};
pub use ledger::{Ledger, VoteOutcome};
pub use results::{Results, Status};
pub use state::{Proposal, VoterRecord};
