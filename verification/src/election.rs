//! The three operations of an election: creating a poll, registering a
//! candidate under a poll, and voting for a candidate.
//!
//! Each operation exists in two layers. The free functions take the addresses
//! of the records they touch, already derived, in a context; what they do is
//! stated over the ledger's table alone. The methods of `Ledger` take the
//! identifiers, derive the addresses and hand them on.

use crate::address::{candidate_address, poll_address};
use crate::address::{spec_candidate_address, spec_poll_address};
use crate::ledger::Ledger;
use crate::records::{byte_len, Candidate, Poll, Record, VotingError};
use crate::records::{CandidateView, PollView, RecordView};
use crate::records::{MAX_CANDIDATE_NAME_LEN, MAX_DESCRIPTION_LEN};
use vstd::prelude::*;

verus! {

/// The records of a ledger, by address.
pub type Table = Map<Seq<u8>, RecordView>;

/// The poll record at `address`, if a poll lies there.
pub open spec fn poll_at(table: Table, address: Seq<u8>) -> Option<PollView> {
    if table.contains_key(address) {
        match table[address] {
            RecordView::Poll(poll) => Some(poll),
            RecordView::Candidate(_) => None,
        }
    } else {
        None
    }
}

/// The candidate record at `address`, if a candidate lies there.
pub open spec fn candidate_at(table: Table, address: Seq<u8>) -> Option<CandidateView> {
    if table.contains_key(address) {
        match table[address] {
            RecordView::Poll(_) => None,
            RecordView::Candidate(candidate) => Some(candidate),
        }
    } else {
        None
    }
}

/// The accounts of `initialize_poll`: the caller and the address at which the
/// poll's record is created.
#[derive(Clone, Copy, Debug, PartialEq, Eq)]
pub struct InitializePoll {
    pub signer: [u8; 32],
    pub poll: [u8; 32],
}

/// The accounts of `initialize_candidate`: the caller, the address of the
/// poll's record and the address at which the candidate's record is created.
#[derive(Clone, Copy, Debug, PartialEq, Eq)]
pub struct InitializeCandidate {
    pub signer: [u8; 32],
    pub poll: [u8; 32],
    pub candidate: [u8; 32],
}

/// The accounts of `vote`: the caller, the address of the poll's record and
/// the address of the candidate's record.
#[derive(Clone, Copy, Debug, PartialEq, Eq)]
pub struct Vote {
    pub signer: [u8; 32],
    pub poll: [u8; 32],
    pub candidate: [u8; 32],
}

impl InitializePoll {
    /// The accounts for creating the poll `poll_id`: `None` exactly where no
    /// address can be derived for it.
    pub fn resolve(program_id: &[u8; 32], signer: [u8; 32], poll_id: u64) -> (ctx: Option<
        InitializePoll,
    >)
        ensures
            match ctx {
                Some(c) => c.signer == signer && spec_poll_address(program_id@, poll_id) == Some(
                    c.poll@,
                ),
                None => spec_poll_address(program_id@, poll_id) is None,
            },
    {
        match poll_address(program_id, poll_id) {
            Some(poll) => Some(InitializePoll { signer, poll }),
            None => None,
        }
    }
}

impl InitializeCandidate {
    /// The accounts for registering `candidate_name` under the poll
    /// `poll_id`: `None` exactly where one of the two addresses cannot be
    /// derived.
    pub fn resolve(program_id: &[u8; 32], signer: [u8; 32], poll_id: u64, candidate_name: &str) -> (ctx:
        Option<InitializeCandidate>)
        ensures
            match ctx {
                Some(c) => c.signer == signer && spec_poll_address(program_id@, poll_id) == Some(
                    c.poll@,
                ) && spec_candidate_address(program_id@, poll_id, candidate_name@) == Some(
                    c.candidate@,
                ),
                None => spec_poll_address(program_id@, poll_id) is None || spec_candidate_address(
                    program_id@,
                    poll_id,
                    candidate_name@,
                ) is None,
            },
    {
        let poll = match poll_address(program_id, poll_id) {
            Some(poll) => poll,
            None => { return None; },
        };
        match candidate_address(program_id, poll_id, candidate_name) {
            Some(candidate) => Some(InitializeCandidate { signer, poll, candidate }),
            None => None,
        }
    }
}

impl Vote {
    /// The accounts for a vote for `candidate_name` in the poll `poll_id`:
    /// `None` exactly where one of the two addresses cannot be derived.
    pub fn resolve(program_id: &[u8; 32], signer: [u8; 32], poll_id: u64, candidate_name: &str) -> (ctx:
        Option<Vote>)
        ensures
            match ctx {
                Some(c) => c.signer == signer && spec_poll_address(program_id@, poll_id) == Some(
                    c.poll@,
                ) && spec_candidate_address(program_id@, poll_id, candidate_name@) == Some(
                    c.candidate@,
                ),
                None => spec_poll_address(program_id@, poll_id) is None || spec_candidate_address(
                    program_id@,
                    poll_id,
                    candidate_name@,
                ) is None,
            },
    {
        let poll = match poll_address(program_id, poll_id) {
            Some(poll) => poll,
            None => { return None; },
        };
        match candidate_address(program_id, poll_id, candidate_name) {
            Some(candidate) => Some(Vote { signer, poll, candidate }),
            None => None,
        }
    }
}

/// A new poll's record.
pub open spec fn new_poll(poll_id: u64, description: Seq<char>, poll_start: u64, poll_end: u64) -> PollView {
    PollView { poll_id, description, poll_start, poll_end, candidate_amount: 0 }
}

/// A new candidate's record.
pub open spec fn new_candidate(candidate_name: Seq<char>) -> CandidateView {
    CandidateView { candidate_name, candidate_votes: 0 }
}

/// What creating a poll at `address` does to `table`: it is refused with
/// `ValidationError` where the description is longer than 280 bytes, else
/// with `AlreadyExists` where the address is occupied; else the new record,
/// with no candidates, is put at the address and returned.
pub open spec fn spec_initialize_poll(
    table: Table,
    address: Seq<u8>,
    poll_id: u64,
    description: Seq<char>,
    poll_start: u64,
    poll_end: u64,
) -> Result<(Table, PollView), VotingError> {
    if byte_len(description) > MAX_DESCRIPTION_LEN {
        Err(VotingError::ValidationError)
    } else if table.contains_key(address) {
        Err(VotingError::AlreadyExists)
    } else {
        let poll = new_poll(poll_id, description, poll_start, poll_end);
        Ok((table.insert(address, RecordView::Poll(poll)), poll))
    }
}

/// What registering a candidate does to `table`, the poll's record lying at
/// `poll` and the candidate's at `candidate`: it is refused with `NotFound`
/// where no poll lies at `poll`, else with `ValidationError` where the name is
/// longer than 32 bytes, else with `AlreadyExists` where `candidate` is
/// occupied; else the new record, with no votes, is put at `candidate` and
/// returned, and the poll counts one candidate more.
pub open spec fn spec_initialize_candidate(
    table: Table,
    poll: Seq<u8>,
    candidate: Seq<u8>,
    candidate_name: Seq<char>,
) -> Result<(Table, CandidateView), VotingError> {
    match poll_at(table, poll) {
        None => Err(VotingError::NotFound),
        Some(owner) => {
            if byte_len(candidate_name) > MAX_CANDIDATE_NAME_LEN {
                Err(VotingError::ValidationError)
            } else if table.contains_key(candidate) {
                Err(VotingError::AlreadyExists)
            } else {
                let record = new_candidate(candidate_name);
                let grown = PollView { candidate_amount: owner.candidate_amount + 1, ..owner };
                Ok(
                    (
                        table.insert(candidate, RecordView::Candidate(record)).insert(
                            poll,
                            RecordView::Poll(grown),
                        ),
                        record,
                    ),
                )
            }
        },
    }
}

/// What a vote does to `table`, the poll's record lying at `poll` and the
/// candidate's at `candidate`: it is refused with `NotFound` where no poll
/// lies at `poll` or no candidate at `candidate`, else with `CounterOverflow`
/// where the candidate's tally is the largest `u64`; else the tally grows by
/// one, and the new tally is returned. Neither the caller nor the poll's
/// start and end play a part.
pub open spec fn spec_vote(table: Table, poll: Seq<u8>, candidate: Seq<u8>) -> Result<
    (Table, nat),
    VotingError,
> {
    match (poll_at(table, poll), candidate_at(table, candidate)) {
        (Some(_), Some(chosen)) => {
            if chosen.candidate_votes >= u64::MAX {
                Err(VotingError::CounterOverflow)
            } else {
                let votes = chosen.candidate_votes + 1;
                Ok(
                    (
                        table.insert(
                            candidate,
                            RecordView::Candidate(CandidateView { candidate_votes: votes, ..chosen }),
                        ),
                        votes,
                    ),
                )
            }
        },
        _ => Err(VotingError::NotFound),
    }
}

/// Creates the record of the poll `poll_id` at the address `ctx.poll`, and
/// returns a copy of it. A refused call leaves the ledger unchanged.
pub fn initialize_poll(
    ledger: &mut Ledger,
    ctx: &InitializePoll,
    poll_id: u64,
    description: String,
    poll_start: u64,
    poll_end: u64,
) -> (result: Result<Poll, VotingError>)
    requires
        old(ledger).wf(),
    ensures
        final(ledger).wf(),
        final(ledger).spec_program_id() == old(ledger).spec_program_id(),
        match result {
            Ok(poll) => spec_initialize_poll(
                old(ledger)@,
                ctx.poll@,
                poll_id,
                description@,
                poll_start,
                poll_end,
            ) == Ok::<(Table, PollView), VotingError>((final(ledger)@, poll@)),
            Err(e) => final(ledger)@ == old(ledger)@ && spec_initialize_poll(
                old(ledger)@,
                ctx.poll@,
                poll_id,
                description@,
                poll_start,
                poll_end,
            ) == Err::<(Table, PollView), VotingError>(e),
        },
{
    if description.as_str().as_bytes().len() > MAX_DESCRIPTION_LEN {
        return Err(VotingError::ValidationError);
    }
    match ledger.find(&ctx.poll) {
        Some(_) => { return Err(VotingError::AlreadyExists); },
        None => {},
    }
    let poll = Poll { poll_id, description, poll_start, poll_end, candidate_amount: 0 };
    let copy = poll.clone();
    ledger.insert(ctx.poll, Record::Poll(poll));
    Ok(copy)
}

/// Creates the record of the candidate `candidate_name` at the address
/// `ctx.candidate`, counts it in the poll at `ctx.poll`, and returns a copy of
/// the new record. Both changes are made or neither: a refused call leaves the
/// ledger unchanged. The poll's id has gone into the addresses of `ctx` and
/// plays no further part.
pub fn initialize_candidate(
    ledger: &mut Ledger,
    ctx: &InitializeCandidate,
    candidate_name: String,
    _poll_id: u64,
) -> (result: Result<Candidate, VotingError>)
    requires
        old(ledger).wf(),
    ensures
        final(ledger).wf(),
        final(ledger).spec_program_id() == old(ledger).spec_program_id(),
        match result {
            Ok(candidate) => spec_initialize_candidate(
                old(ledger)@,
                ctx.poll@,
                ctx.candidate@,
                candidate_name@,
            ) == Ok::<(Table, CandidateView), VotingError>((final(ledger)@, candidate@)),
            Err(e) => final(ledger)@ == old(ledger)@ && spec_initialize_candidate(
                old(ledger)@,
                ctx.poll@,
                ctx.candidate@,
                candidate_name@,
            ) == Err::<(Table, CandidateView), VotingError>(e),
        },
{
    let slot = match ledger.find(&ctx.poll) {
        Some(slot) => slot,
        None => { return Err(VotingError::NotFound); },
    };
    let mut grown = match ledger.record(slot) {
        Record::Poll(poll) => poll.clone(),
        Record::Candidate(_) => { return Err(VotingError::NotFound); },
    };
    if candidate_name.as_str().as_bytes().len() > MAX_CANDIDATE_NAME_LEN {
        return Err(VotingError::ValidationError);
    }
    match ledger.find(&ctx.candidate) {
        Some(_) => { return Err(VotingError::AlreadyExists); },
        None => {},
    }
    let candidate = Candidate { candidate_name, candidate_votes: 0 };
    let copy = candidate.clone();
    ledger.insert(ctx.candidate, Record::Candidate(candidate));
    let records = ledger.len();
    assert(grown.candidate_amount < records) by {
        assert(old(ledger).entries()[slot as int].record matches Record::Poll(p)
            && p.candidate_amount <= old(ledger).entries().len());
    }
    grown.candidate_amount = grown.candidate_amount + 1;
    assert(ledger.entries()[slot as int] == old(ledger).entries()[slot as int]);
    ledger.replace(slot, Record::Poll(grown));
    Ok(copy)
}

/// Adds one vote to the candidate at `ctx.candidate` and returns the new
/// tally. The caller may vote any number of times, at any time. A refused
/// call leaves the ledger unchanged. The candidate's name and the poll's id
/// have gone into the addresses of `ctx` and play no further part.
pub fn vote(ledger: &mut Ledger, ctx: &Vote, _candidate_name: String, _poll_id: u64) -> (result:
    Result<u64, VotingError>)
    requires
        old(ledger).wf(),
    ensures
        final(ledger).wf(),
        final(ledger).spec_program_id() == old(ledger).spec_program_id(),
        match result {
            Ok(votes) => spec_vote(old(ledger)@, ctx.poll@, ctx.candidate@) == Ok::<
                (Table, nat),
                VotingError,
            >((final(ledger)@, votes as nat)),
            Err(e) => final(ledger)@ == old(ledger)@ && spec_vote(
                old(ledger)@,
                ctx.poll@,
                ctx.candidate@,
            ) == Err::<(Table, nat), VotingError>(e),
        },
{
    let poll_slot = match ledger.find(&ctx.poll) {
        Some(slot) => slot,
        None => { return Err(VotingError::NotFound); },
    };
    match ledger.record(poll_slot) {
        Record::Poll(_) => {},
        Record::Candidate(_) => { return Err(VotingError::NotFound); },
    }
    let slot = match ledger.find(&ctx.candidate) {
        Some(slot) => slot,
        None => { return Err(VotingError::NotFound); },
    };
    let mut chosen = match ledger.record(slot) {
        Record::Candidate(candidate) => candidate.clone(),
        Record::Poll(_) => { return Err(VotingError::NotFound); },
    };
    if chosen.candidate_votes == u64::MAX {
        return Err(VotingError::CounterOverflow);
    }
    let votes: u64 = chosen.candidate_votes + 1;
    chosen.candidate_votes = votes;
    ledger.replace(slot, Record::Candidate(chosen));
    Ok(votes)
}

/// The poll record of `poll_id`: what lies at its derived address, if that is
/// a poll.
pub open spec fn poll_of(table: Table, program_id: Seq<u8>, poll_id: u64) -> Option<PollView> {
    match spec_poll_address(program_id, poll_id) {
        Some(address) => poll_at(table, address),
        None => None,
    }
}

/// The record of the candidate `candidate_name` of the poll `poll_id`: what
/// lies at its derived address, if that is a candidate.
pub open spec fn candidate_of(
    table: Table,
    program_id: Seq<u8>,
    poll_id: u64,
    candidate_name: Seq<char>,
) -> Option<CandidateView> {
    match spec_candidate_address(program_id, poll_id, candidate_name) {
        Some(address) => candidate_at(table, address),
        None => None,
    }
}

/// What `create_poll` does to `table`: it is refused with `ValidationError`
/// where the description is longer than 280 bytes, else with
/// `AddressSpaceExhausted` where no address can be derived for the poll; else
/// it is `spec_initialize_poll` at the derived address.
pub open spec fn spec_create_poll(
    table: Table,
    program_id: Seq<u8>,
    poll_id: u64,
    description: Seq<char>,
    poll_start: u64,
    poll_end: u64,
) -> Result<(Table, PollView), VotingError> {
    if byte_len(description) > MAX_DESCRIPTION_LEN {
        Err(VotingError::ValidationError)
    } else {
        match spec_poll_address(program_id, poll_id) {
            Some(address) => spec_initialize_poll(
                table,
                address,
                poll_id,
                description,
                poll_start,
                poll_end,
            ),
            None => Err(VotingError::AddressSpaceExhausted),
        }
    }
}

/// What `register_candidate` does to `table`: it is refused with `NotFound`
/// where the poll has no record, else with `ValidationError` where the name
/// is longer than 32 bytes, else with `AddressSpaceExhausted` where no address
/// can be derived for the candidate; else it is `spec_initialize_candidate`
/// at the two derived addresses.
pub open spec fn spec_register_candidate(
    table: Table,
    program_id: Seq<u8>,
    poll_id: u64,
    candidate_name: Seq<char>,
) -> Result<(Table, CandidateView), VotingError> {
    match spec_poll_address(program_id, poll_id) {
        None => Err(VotingError::NotFound),
        Some(poll) => {
            if poll_at(table, poll) is None {
                Err(VotingError::NotFound)
            } else if byte_len(candidate_name) > MAX_CANDIDATE_NAME_LEN {
                Err(VotingError::ValidationError)
            } else {
                match spec_candidate_address(program_id, poll_id, candidate_name) {
                    None => Err(VotingError::AddressSpaceExhausted),
                    Some(candidate) => spec_initialize_candidate(
                        table,
                        poll,
                        candidate,
                        candidate_name,
                    ),
                }
            }
        },
    }
}

/// What `cast_vote` does to `table`: it is refused with `NotFound` where one
/// of the two addresses cannot be derived, so that no record can lie there;
/// else it is `spec_vote` at the two derived addresses.
pub open spec fn spec_cast_vote(
    table: Table,
    program_id: Seq<u8>,
    poll_id: u64,
    candidate_name: Seq<char>,
) -> Result<(Table, nat), VotingError> {
    match (
        spec_poll_address(program_id, poll_id),
        spec_candidate_address(program_id, poll_id, candidate_name),
    ) {
        (Some(poll), Some(candidate)) => spec_vote(table, poll, candidate),
        _ => Err(VotingError::NotFound),
    }
}

impl Ledger {
    /// A copy of the record of the poll `poll_id`, if it has one.
    pub fn poll(&self, poll_id: u64) -> (poll: Option<Poll>)
        requires
            self.wf(),
        ensures
            match poll {
                Some(p) => poll_of(self@, self.spec_program_id(), poll_id) == Some(p@),
                None => poll_of(self@, self.spec_program_id(), poll_id) is None,
            },
    {
        let program_id = self.program_id();
        let address = match poll_address(&program_id, poll_id) {
            Some(address) => address,
            None => { return None; },
        };
        match self.find(&address) {
            Some(slot) => match self.record(slot) {
                Record::Poll(poll) => Some(poll.clone()),
                Record::Candidate(_) => None,
            },
            None => None,
        }
    }

    /// A copy of the record of the candidate `candidate_name` of the poll
    /// `poll_id`, if it has one.
    pub fn candidate(&self, poll_id: u64, candidate_name: &str) -> (candidate: Option<Candidate>)
        requires
            self.wf(),
        ensures
            match candidate {
                Some(c) => candidate_of(self@, self.spec_program_id(), poll_id, candidate_name@)
                    == Some(c@),
                None => candidate_of(self@, self.spec_program_id(), poll_id, candidate_name@)
                    is None,
            },
    {
        let program_id = self.program_id();
        let address = match candidate_address(&program_id, poll_id, candidate_name) {
            Some(address) => address,
            None => { return None; },
        };
        match self.find(&address) {
            Some(slot) => match self.record(slot) {
                Record::Candidate(candidate) => Some(candidate.clone()),
                Record::Poll(_) => None,
            },
            None => None,
        }
    }

    /// Creates the poll `poll_id` for the caller `signer` and returns a copy
    /// of its record. A refused call leaves the ledger unchanged.
    pub fn create_poll(
        &mut self,
        signer: [u8; 32],
        poll_id: u64,
        description: String,
        poll_start: u64,
        poll_end: u64,
    ) -> (result: Result<Poll, VotingError>)
        requires
            old(self).wf(),
        ensures
            final(self).wf(),
            final(self).spec_program_id() == old(self).spec_program_id(),
            match result {
                Ok(poll) => spec_create_poll(
                    old(self)@,
                    old(self).spec_program_id(),
                    poll_id,
                    description@,
                    poll_start,
                    poll_end,
                ) == Ok::<(Table, PollView), VotingError>((final(self)@, poll@)),
                Err(e) => final(self)@ == old(self)@ && spec_create_poll(
                    old(self)@,
                    old(self).spec_program_id(),
                    poll_id,
                    description@,
                    poll_start,
                    poll_end,
                ) == Err::<(Table, PollView), VotingError>(e),
            },
    {
        if description.as_str().as_bytes().len() > MAX_DESCRIPTION_LEN {
            return Err(VotingError::ValidationError);
        }
        let program_id = self.program_id();
        match InitializePoll::resolve(&program_id, signer, poll_id) {
            Some(ctx) => initialize_poll(self, &ctx, poll_id, description, poll_start, poll_end),
            None => Err(VotingError::AddressSpaceExhausted),
        }
    }

    /// Registers the candidate `candidate_name` under the poll `poll_id` for
    /// the caller `signer` and returns a copy of the candidate's record. A
    /// refused call leaves the ledger unchanged.
    pub fn register_candidate(&mut self, signer: [u8; 32], poll_id: u64, candidate_name: String) -> (result:
        Result<Candidate, VotingError>)
        requires
            old(self).wf(),
        ensures
            final(self).wf(),
            final(self).spec_program_id() == old(self).spec_program_id(),
            match result {
                Ok(candidate) => spec_register_candidate(
                    old(self)@,
                    old(self).spec_program_id(),
                    poll_id,
                    candidate_name@,
                ) == Ok::<(Table, CandidateView), VotingError>((final(self)@, candidate@)),
                Err(e) => final(self)@ == old(self)@ && spec_register_candidate(
                    old(self)@,
                    old(self).spec_program_id(),
                    poll_id,
                    candidate_name@,
                ) == Err::<(Table, CandidateView), VotingError>(e),
            },
    {
        let program_id = self.program_id();
        let poll = match poll_address(&program_id, poll_id) {
            Some(poll) => poll,
            None => { return Err(VotingError::NotFound); },
        };
        match self.find(&poll) {
            Some(slot) => match self.record(slot) {
                Record::Poll(_) => {},
                Record::Candidate(_) => { return Err(VotingError::NotFound); },
            },
            None => { return Err(VotingError::NotFound); },
        }
        if candidate_name.as_str().as_bytes().len() > MAX_CANDIDATE_NAME_LEN {
            return Err(VotingError::ValidationError);
        }
        let candidate = match candidate_address(&program_id, poll_id, candidate_name.as_str()) {
            Some(candidate) => candidate,
            None => { return Err(VotingError::AddressSpaceExhausted); },
        };
        let ctx = InitializeCandidate { signer, poll, candidate };
        initialize_candidate(self, &ctx, candidate_name, poll_id)
    }

    /// Casts one vote of the caller `signer` for the candidate
    /// `candidate_name` of the poll `poll_id` and returns the candidate's new
    /// tally. A refused call leaves the ledger unchanged.
    pub fn cast_vote(&mut self, signer: [u8; 32], poll_id: u64, candidate_name: String) -> (result:
        Result<u64, VotingError>)
        requires
            old(self).wf(),
        ensures
            final(self).wf(),
            final(self).spec_program_id() == old(self).spec_program_id(),
            match result {
                Ok(votes) => spec_cast_vote(
                    old(self)@,
                    old(self).spec_program_id(),
                    poll_id,
                    candidate_name@,
                ) == Ok::<(Table, nat), VotingError>((final(self)@, votes as nat)),
                Err(e) => final(self)@ == old(self)@ && spec_cast_vote(
                    old(self)@,
                    old(self).spec_program_id(),
                    poll_id,
                    candidate_name@,
                ) == Err::<(Table, nat), VotingError>(e),
            },
    {
        let program_id = self.program_id();
        match Vote::resolve(&program_id, signer, poll_id, candidate_name.as_str()) {
            Some(ctx) => vote(self, &ctx, candidate_name, poll_id),
            None => Err(VotingError::NotFound),
        }
    }
}

} // verus!
