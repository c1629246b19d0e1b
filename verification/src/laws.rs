//! What holds of every sequence of operations on a ledger, proved from the
//! statements of the operations.

use crate::address::{spec_candidate_address, spec_poll_address};
use crate::election::{candidate_at, candidate_of, poll_at, poll_of, Table};
use crate::election::{spec_cast_vote, spec_create_poll, spec_register_candidate};
use crate::records::{byte_len, CandidateView, PollView, RecordView, VotingError};
use crate::records::{MAX_CANDIDATE_NAME_LEN, MAX_DESCRIPTION_LEN};
use vstd::prelude::*;

verus! {

/// Whether `after` may follow `before` in the life of a ledger: every record
/// is still there; a poll is still the same poll and counts no fewer
/// candidates; a candidate still has its name and no fewer votes.
pub open spec fn keeps_records(before: Table, after: Table) -> bool {
    forall|address: Seq<u8>| #[trigger]
        before.contains_key(address) ==> {
            &&& after.contains_key(address)
            &&& match poll_at(before, address) {
                Some(poll) => poll_at(after, address) matches Some(kept) && kept == (PollView {
                    candidate_amount: kept.candidate_amount,
                    ..poll
                }) && kept.candidate_amount >= poll.candidate_amount,
                None => true,
            }
            &&& match candidate_at(before, address) {
                Some(candidate) => candidate_at(after, address) matches Some(kept)
                    && kept.candidate_name == candidate.candidate_name && kept.candidate_votes
                    >= candidate.candidate_votes,
                None => true,
            }
        }
}

/// A ledger that has not changed keeps its records, and keeping records
/// carries over any number of steps.
pub proof fn law_keeps_records_is_a_preorder(first: Table, second: Table, third: Table)
    ensures
        keeps_records(first, first),
        keeps_records(first, second) && keeps_records(second, third) ==> keeps_records(
            first,
            third,
        ),
{
    if keeps_records(first, second) && keeps_records(second, third) {
        assert forall|address: Seq<u8>| #[trigger] first.contains_key(address) implies {
            &&& third.contains_key(address)
            &&& match poll_at(first, address) {
                Some(poll) => poll_at(third, address) matches Some(kept) && kept == (PollView {
                    candidate_amount: kept.candidate_amount,
                    ..poll
                }) && kept.candidate_amount >= poll.candidate_amount,
                None => true,
            }
            &&& match candidate_at(first, address) {
                Some(candidate) => candidate_at(third, address) matches Some(kept)
                    && kept.candidate_name == candidate.candidate_name && kept.candidate_votes
                    >= candidate.candidate_votes,
                None => true,
            }
        } by {
            assert(second.contains_key(address));
        }
    }
}

/// No operation removes a record, turns it into one of the other kind,
/// changes what identifies it, or lowers a count: creating a poll, registering
/// a candidate and voting each keep the records of the ledger.
pub proof fn law_operations_keep_records(
    table: Table,
    program_id: Seq<u8>,
    poll_id: u64,
    description: Seq<char>,
    poll_start: u64,
    poll_end: u64,
    candidate_name: Seq<char>,
)
    ensures
        spec_create_poll(table, program_id, poll_id, description, poll_start, poll_end) matches Ok(
            done,
        ) ==> keeps_records(table, done.0),
        spec_register_candidate(table, program_id, poll_id, candidate_name) matches Ok(done)
            ==> keeps_records(table, done.0),
        spec_cast_vote(table, program_id, poll_id, candidate_name) matches Ok(done)
            ==> keeps_records(table, done.0),
{
}

/// Once a poll has been created under `poll_id`, every later attempt to
/// create a poll under that id with a description of at most 280 bytes is
/// refused with `AlreadyExists`, whatever its other parameters and whatever
/// was done to the ledger in between. (With a longer description it is
/// refused as well, with `ValidationError`.)
pub proof fn law_poll_is_created_once(
    table: Table,
    program_id: Seq<u8>,
    poll_id: u64,
    description: Seq<char>,
    poll_start: u64,
    poll_end: u64,
    later: Table,
    other_description: Seq<char>,
    other_start: u64,
    other_end: u64,
)
    requires
        spec_create_poll(table, program_id, poll_id, description, poll_start, poll_end) matches Ok(
            done,
        ) && keeps_records(done.0, later),
        byte_len(other_description) <= MAX_DESCRIPTION_LEN,
    ensures
        spec_create_poll(later, program_id, poll_id, other_description, other_start, other_end)
            == Err::<(Table, PollView), VotingError>(VotingError::AlreadyExists),
{
    let done = spec_create_poll(table, program_id, poll_id, description, poll_start, poll_end)->Ok_0;
    let address = spec_poll_address(program_id, poll_id)->Some_0;
    assert(done.0.contains_key(address));
}

/// While the poll `poll_id` has no record, registering a candidate under it
/// is refused with `NotFound`, whatever the name. In particular it is refused
/// on a ledger without records.
pub proof fn law_candidate_needs_poll(
    table: Table,
    program_id: Seq<u8>,
    poll_id: u64,
    candidate_name: Seq<char>,
)
    requires
        poll_of(table, program_id, poll_id) is None,
    ensures
        spec_register_candidate(table, program_id, poll_id, candidate_name) == Err::<
            (Table, CandidateView),
            VotingError,
        >(VotingError::NotFound),
        poll_of(Map::empty(), program_id, poll_id) is None,
{
}

/// A successful registration raises the poll's count of candidates by
/// exactly one, creates the candidate with no votes, and changes no other
/// record.
pub proof fn law_registration_counts_one(
    table: Table,
    program_id: Seq<u8>,
    poll_id: u64,
    candidate_name: Seq<char>,
)
    requires
        spec_register_candidate(table, program_id, poll_id, candidate_name) is Ok,
    ensures
        ({
            let after = spec_register_candidate(table, program_id, poll_id, candidate_name)->Ok_0.0;
            let poll = spec_poll_address(program_id, poll_id)->Some_0;
            let candidate = spec_candidate_address(program_id, poll_id, candidate_name)->Some_0;
            &&& poll_of(table, program_id, poll_id) is Some
            &&& candidate_of(table, program_id, poll_id, candidate_name) is None
            &&& poll_of(after, program_id, poll_id) == Some(
                PollView {
                    candidate_amount: poll_of(table, program_id, poll_id)->Some_0.candidate_amount
                        + 1,
                    ..poll_of(table, program_id, poll_id)->Some_0
                },
            )
            &&& candidate_of(after, program_id, poll_id, candidate_name) == Some(
                CandidateView { candidate_name, candidate_votes: 0 },
            )
            &&& after.remove(poll).remove(candidate) == table.remove(poll)
        }),
{
    let after = spec_register_candidate(table, program_id, poll_id, candidate_name)->Ok_0.0;
    let poll = spec_poll_address(program_id, poll_id)->Some_0;
    let candidate = spec_candidate_address(program_id, poll_id, candidate_name)->Some_0;
    assert(after.remove(poll).remove(candidate) =~= table.remove(poll));
}

/// Once a candidate has been registered under a poll, every later attempt to
/// register that name under that poll is refused with `AlreadyExists`,
/// whatever was done to the ledger in between, and being refused it leaves the
/// poll's count of candidates as it is.
pub proof fn law_candidate_is_registered_once(
    table: Table,
    program_id: Seq<u8>,
    poll_id: u64,
    candidate_name: Seq<char>,
    later: Table,
)
    requires
        spec_register_candidate(table, program_id, poll_id, candidate_name) matches Ok(done)
            && keeps_records(done.0, later),
    ensures
        spec_register_candidate(later, program_id, poll_id, candidate_name) == Err::<
            (Table, CandidateView),
            VotingError,
        >(VotingError::AlreadyExists),
{
    let done = spec_register_candidate(table, program_id, poll_id, candidate_name)->Ok_0;
    let poll = spec_poll_address(program_id, poll_id)->Some_0;
    let candidate = spec_candidate_address(program_id, poll_id, candidate_name)->Some_0;
    assert(done.0.contains_key(poll));
    assert(done.0.contains_key(candidate));
}

/// A successful vote raises the tally of the candidate by exactly one,
/// returns the new tally, and changes no other record: the tally of every
/// other candidate, and every poll, stays as it was.
pub proof fn law_vote_counts_one(
    table: Table,
    program_id: Seq<u8>,
    poll_id: u64,
    candidate_name: Seq<char>,
)
    requires
        spec_cast_vote(table, program_id, poll_id, candidate_name) is Ok,
    ensures
        ({
            let done = spec_cast_vote(table, program_id, poll_id, candidate_name)->Ok_0;
            let candidate = spec_candidate_address(program_id, poll_id, candidate_name)->Some_0;
            let chosen = candidate_of(table, program_id, poll_id, candidate_name);
            &&& poll_of(table, program_id, poll_id) is Some
            &&& chosen is Some
            &&& done.1 == chosen->Some_0.candidate_votes + 1
            &&& candidate_of(done.0, program_id, poll_id, candidate_name) == Some(
                CandidateView { candidate_votes: done.1, ..chosen->Some_0 },
            )
            &&& done.0.remove(candidate) == table.remove(candidate)
        }),
{
    let done = spec_cast_vote(table, program_id, poll_id, candidate_name)->Ok_0;
    let candidate = spec_candidate_address(program_id, poll_id, candidate_name)->Some_0;
    assert(done.0.remove(candidate) =~= table.remove(candidate));
}

/// A vote is refused with `NotFound` while the poll or the candidate has no
/// record: a name that was never registered under the poll gets no vote.
pub proof fn law_vote_needs_poll_and_candidate(
    table: Table,
    program_id: Seq<u8>,
    poll_id: u64,
    candidate_name: Seq<char>,
)
    requires
        poll_of(table, program_id, poll_id) is None || candidate_of(
            table,
            program_id,
            poll_id,
            candidate_name,
        ) is None,
    ensures
        spec_cast_vote(table, program_id, poll_id, candidate_name) == Err::<
            (Table, nat),
            VotingError,
        >(VotingError::NotFound),
{
}

/// A candidate's record exists only after a successful registration, which
/// needs its poll: registering never succeeds without the poll's record, and
/// after it both records are there.
pub proof fn law_candidate_follows_poll(
    table: Table,
    program_id: Seq<u8>,
    poll_id: u64,
    candidate_name: Seq<char>,
)
    requires
        spec_register_candidate(table, program_id, poll_id, candidate_name) is Ok,
    ensures
        poll_of(table, program_id, poll_id) is Some,
        byte_len(candidate_name) <= MAX_CANDIDATE_NAME_LEN,
        ({
            let after = spec_register_candidate(table, program_id, poll_id, candidate_name)->Ok_0.0;
            poll_of(after, program_id, poll_id) is Some && candidate_of(
                after,
                program_id,
                poll_id,
                candidate_name,
            ) is Some
        }),
{
}

/// Only creating a poll puts a poll's record at an address: while no poll
/// lies at `address`, none lies there after a registration or a vote, nor
/// after the creation of a poll whose address is another.
pub proof fn law_polls_come_from_create_poll(
    table: Table,
    address: Seq<u8>,
    program_id: Seq<u8>,
    poll_id: u64,
    description: Seq<char>,
    poll_start: u64,
    poll_end: u64,
    candidate_name: Seq<char>,
)
    requires
        poll_at(table, address) is None,
    ensures
        spec_register_candidate(table, program_id, poll_id, candidate_name) matches Ok(done)
            ==> poll_at(done.0, address) is None,
        spec_cast_vote(table, program_id, poll_id, candidate_name) matches Ok(done) ==> poll_at(
            done.0,
            address,
        ) is None,
        spec_create_poll(table, program_id, poll_id, description, poll_start, poll_end) matches Ok(
            done,
        ) ==> spec_poll_address(program_id, poll_id) == Some(address) || poll_at(done.0, address)
            is None,
{
}

/// Only a registration puts a candidate's record at an address: while no
/// candidate lies at `address`, none lies there after the creation of a poll
/// or a vote, nor after the registration of a candidate whose address is
/// another.
pub proof fn law_candidates_come_from_registration(
    table: Table,
    address: Seq<u8>,
    program_id: Seq<u8>,
    poll_id: u64,
    description: Seq<char>,
    poll_start: u64,
    poll_end: u64,
    candidate_name: Seq<char>,
)
    requires
        candidate_at(table, address) is None,
    ensures
        spec_create_poll(table, program_id, poll_id, description, poll_start, poll_end) matches Ok(
            done,
        ) ==> candidate_at(done.0, address) is None,
        spec_cast_vote(table, program_id, poll_id, candidate_name) matches Ok(done)
            ==> candidate_at(done.0, address) is None,
        spec_register_candidate(table, program_id, poll_id, candidate_name) matches Ok(done)
            ==> spec_candidate_address(program_id, poll_id, candidate_name) == Some(address)
            || candidate_at(done.0, address) is None,
{
}

/// The bound on a description is 280 bytes exactly: a longer description is
/// refused with `ValidationError` on every ledger, and one of at most 280
/// bytes is accepted wherever the poll's address can be derived and is free.
pub proof fn law_description_bound(
    table: Table,
    program_id: Seq<u8>,
    poll_id: u64,
    description: Seq<char>,
    poll_start: u64,
    poll_end: u64,
)
    ensures
        byte_len(description) > MAX_DESCRIPTION_LEN ==> spec_create_poll(
            table,
            program_id,
            poll_id,
            description,
            poll_start,
            poll_end,
        ) == Err::<(Table, PollView), VotingError>(VotingError::ValidationError),
        byte_len(description) <= MAX_DESCRIPTION_LEN && spec_poll_address(program_id, poll_id)
            is Some && !table.contains_key(spec_poll_address(program_id, poll_id)->Some_0)
            ==> spec_create_poll(
            table,
            program_id,
            poll_id,
            description,
            poll_start,
            poll_end,
        ) == Ok::<(Table, PollView), VotingError>(
            (
                table.insert(
                    spec_poll_address(program_id, poll_id)->Some_0,
                    RecordView::Poll(
                        PollView { poll_id, description, poll_start, poll_end, candidate_amount: 0 },
                    ),
                ),
                PollView { poll_id, description, poll_start, poll_end, candidate_amount: 0 },
            ),
        ),
{
}

} // verus!
