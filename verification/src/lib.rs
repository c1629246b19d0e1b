//! An election ledger: polls, the candidates registered under them and the
//! votes cast for those candidates, held in a table keyed by addresses that are
//! derived from a program id and the identifiers of each record.

pub mod address;
pub mod election;
pub mod laws;
pub mod ledger;
pub mod records;

pub use address::{candidate_address, derive_address, poll_address, PROGRAM_ID};
pub use election::{initialize_candidate, initialize_poll, vote};
pub use election::{InitializeCandidate, InitializePoll, Vote};
pub use ledger::Ledger;
pub use records::{Candidate, Poll, Record, VotingError};
pub use records::{MAX_CANDIDATE_NAME_LEN, MAX_DESCRIPTION_LEN};
