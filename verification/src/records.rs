//! The records of the ledger and their mathematical views.

use vstd::prelude::*;

verus! {

/// Largest byte length of a poll's description.
pub const MAX_DESCRIPTION_LEN: usize = 280;

/// Largest byte length of a candidate's name.
pub const MAX_CANDIDATE_NAME_LEN: usize = 32;

/// Why an operation on the ledger was refused. A refused operation leaves the
/// ledger as it was.
#[derive(Clone, Copy, Debug, PartialEq, Eq, Structural)]
pub enum VotingError {
    /// A description or a candidate name is longer than its bound.
    ValidationError,
    /// The address of the record to create already holds a record.
    AlreadyExists,
    /// The poll or the candidate that the operation names has no record.
    NotFound,
    /// No address can be derived for the record to create.
    AddressSpaceExhausted,
    /// The candidate's tally has reached the largest count a record can hold.
    CounterOverflow,
}

/// One election.
#[derive(Debug, PartialEq, Eq)]
pub struct Poll {
    pub poll_id: u64,
    pub description: String,
    pub poll_start: u64,
    pub poll_end: u64,
    pub candidate_amount: u64,
}

/// What a poll record holds, as plain values.
pub struct PollView {
    pub poll_id: u64,
    pub description: Seq<char>,
    pub poll_start: u64,
    pub poll_end: u64,
    pub candidate_amount: nat,
}

impl View for Poll {
    type V = PollView;

    open spec fn view(&self) -> PollView {
        PollView {
            poll_id: self.poll_id,
            description: self.description@,
            poll_start: self.poll_start,
            poll_end: self.poll_end,
            candidate_amount: self.candidate_amount as nat,
        }
    }
}

/// One contestant of one poll. The poll it belongs to is not stored: it is
/// part of the address at which the record lies.
#[derive(Debug, PartialEq, Eq)]
pub struct Candidate {
    pub candidate_name: String,
    pub candidate_votes: u64,
}

/// What a candidate record holds, as plain values.
pub struct CandidateView {
    pub candidate_name: Seq<char>,
    pub candidate_votes: nat,
}

impl View for Candidate {
    type V = CandidateView;

    open spec fn view(&self) -> CandidateView {
        CandidateView {
            candidate_name: self.candidate_name@,
            candidate_votes: self.candidate_votes as nat,
        }
    }
}

/// A record of the ledger: every occupied address holds exactly one.
#[derive(Debug, PartialEq, Eq)]
pub enum Record {
    Poll(Poll),
    Candidate(Candidate),
}

/// What a record holds, as plain values.
pub enum RecordView {
    Poll(PollView),
    Candidate(CandidateView),
}

impl View for Record {
    type V = RecordView;

    open spec fn view(&self) -> RecordView {
        match self {
            Record::Poll(poll) => RecordView::Poll(poll@),
            Record::Candidate(candidate) => RecordView::Candidate(candidate@),
        }
    }
}

/// The number of bytes that `text` takes in a record.
pub open spec fn byte_len(text: Seq<char>) -> nat {
    vstd::utf8::encode_utf8(text).len()
}

impl Clone for Poll {
    fn clone(&self) -> (copy: Poll)
        ensures
            copy@ == self@,
    {
        Poll {
            poll_id: self.poll_id,
            description: self.description.clone(),
            poll_start: self.poll_start,
            poll_end: self.poll_end,
            candidate_amount: self.candidate_amount,
        }
    }
}

impl Clone for Candidate {
    fn clone(&self) -> (copy: Candidate)
        ensures
            copy@ == self@,
    {
        Candidate {
            candidate_name: self.candidate_name.clone(),
            candidate_votes: self.candidate_votes,
        }
    }
}

impl Clone for Record {
    fn clone(&self) -> (copy: Record)
        ensures
            copy@ == self@,
    {
        match self {
            Record::Poll(poll) => Record::Poll(poll.clone()),
            Record::Candidate(candidate) => Record::Candidate(candidate.clone()),
        }
    }
}

} // verus!
