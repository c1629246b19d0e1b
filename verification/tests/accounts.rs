use votingdapp::{initialize_candidate, initialize_poll, vote};
use votingdapp::{candidate_address, poll_address};
use votingdapp::{InitializeCandidate, InitializePoll, Ledger, Record, Vote, VotingError};
use votingdapp::{MAX_CANDIDATE_NAME_LEN, MAX_DESCRIPTION_LEN, PROGRAM_ID};

const SIGNER: [u8; 32] = [9u8; 32];
const POLL: [u8; 32] = [1u8; 32];
const ALICE: [u8; 32] = [2u8; 32];
const BOB: [u8; 32] = [3u8; 32];

fn poll_and_alice() -> Ledger {
    let mut ledger = Ledger::new(PROGRAM_ID);
    let ctx = InitializePoll { signer: SIGNER, poll: POLL };
    initialize_poll(&mut ledger, &ctx, 1, String::from("d"), 0, 100).unwrap();
    let ctx = InitializeCandidate { signer: SIGNER, poll: POLL, candidate: ALICE };
    initialize_candidate(&mut ledger, &ctx, String::from("Alice"), 1).unwrap();
    ledger
}

fn votes_at(ledger: &Ledger, address: &[u8; 32]) -> u64 {
    match ledger.record_at(address) {
        Some(Record::Candidate(candidate)) => candidate.candidate_votes,
        _ => panic!("no candidate at the address"),
    }
}

fn amount_at(ledger: &Ledger, address: &[u8; 32]) -> u64 {
    match ledger.record_at(address) {
        Some(Record::Poll(poll)) => poll.candidate_amount,
        _ => panic!("no poll at the address"),
    }
}

#[test]
fn bounds_are_280_and_32() {
    assert_eq!(MAX_DESCRIPTION_LEN, 280);
    assert_eq!(MAX_CANDIDATE_NAME_LEN, 32);
}

#[test]
fn initialize_poll_puts_the_record_at_the_given_address() {
    let mut ledger = Ledger::new(PROGRAM_ID);
    let ctx = InitializePoll { signer: SIGNER, poll: POLL };
    let poll = initialize_poll(&mut ledger, &ctx, 4, String::from("lunch"), 1, 2).unwrap();
    assert_eq!(poll.poll_id, 4);
    assert_eq!(poll.candidate_amount, 0);
    match ledger.record_at(&POLL) {
        Some(Record::Poll(stored)) => {
            assert_eq!(stored.poll_id, 4);
            assert_eq!(stored.description, "lunch");
            assert_eq!(stored.poll_start, 1);
            assert_eq!(stored.poll_end, 2);
            assert_eq!(stored.candidate_amount, 0);
        }
        _ => panic!("no poll at the address"),
    }
    assert!(ledger.record_at(&ALICE).is_none());
}

#[test]
fn initialize_poll_at_an_occupied_address_already_exists() {
    let mut ledger = poll_and_alice();
    let at_poll = InitializePoll { signer: SIGNER, poll: POLL };
    let at_candidate = InitializePoll { signer: SIGNER, poll: ALICE };
    let first = initialize_poll(&mut ledger, &at_poll, 2, String::from("e"), 0, 1);
    assert_eq!(first.err(), Some(VotingError::AlreadyExists));
    let second = initialize_poll(&mut ledger, &at_candidate, 2, String::from("e"), 0, 1);
    assert_eq!(second.err(), Some(VotingError::AlreadyExists));
    assert_eq!(ledger.len(), 2);
    assert_eq!(votes_at(&ledger, &ALICE), 0);
}

#[test]
fn initialize_poll_with_a_long_description_validation_error() {
    let mut ledger = Ledger::new(PROGRAM_ID);
    let ctx = InitializePoll { signer: SIGNER, poll: POLL };
    let result = initialize_poll(&mut ledger, &ctx, 1, "x".repeat(281), 0, 100);
    assert_eq!(result.err(), Some(VotingError::ValidationError));
    assert!(ledger.record_at(&POLL).is_none());
}

#[test]
fn initialize_candidate_counts_the_candidate_in_its_poll() {
    let mut ledger = poll_and_alice();
    assert_eq!(amount_at(&ledger, &POLL), 1);
    let ctx = InitializeCandidate { signer: SIGNER, poll: POLL, candidate: BOB };
    let bob = initialize_candidate(&mut ledger, &ctx, String::from("Bob"), 1).unwrap();
    assert_eq!(bob.candidate_name, "Bob");
    assert_eq!(bob.candidate_votes, 0);
    assert_eq!(amount_at(&ledger, &POLL), 2);
    assert_eq!(votes_at(&ledger, &BOB), 0);
    assert_eq!(ledger.len(), 3);
}

#[test]
fn initialize_candidate_without_a_poll_not_found() {
    let mut ledger = poll_and_alice();
    let nowhere = InitializeCandidate { signer: SIGNER, poll: [8u8; 32], candidate: BOB };
    let result = initialize_candidate(&mut ledger, &nowhere, String::from("Bob"), 1);
    assert_eq!(result.err(), Some(VotingError::NotFound));
    let at_candidate = InitializeCandidate { signer: SIGNER, poll: ALICE, candidate: BOB };
    let result = initialize_candidate(&mut ledger, &at_candidate, String::from("Bob"), 1);
    assert_eq!(result.err(), Some(VotingError::NotFound));
    assert!(ledger.record_at(&BOB).is_none());
    assert_eq!(amount_at(&ledger, &POLL), 1);
}

#[test]
fn initialize_candidate_at_an_occupied_address_already_exists() {
    let mut ledger = poll_and_alice();
    let again = InitializeCandidate { signer: SIGNER, poll: POLL, candidate: ALICE };
    let result = initialize_candidate(&mut ledger, &again, String::from("Alice"), 1);
    assert_eq!(result.err(), Some(VotingError::AlreadyExists));
    let at_poll = InitializeCandidate { signer: SIGNER, poll: POLL, candidate: POLL };
    let result = initialize_candidate(&mut ledger, &at_poll, String::from("Bob"), 1);
    assert_eq!(result.err(), Some(VotingError::AlreadyExists));
    assert_eq!(amount_at(&ledger, &POLL), 1);
    assert_eq!(ledger.len(), 2);
}

#[test]
fn initialize_candidate_with_a_long_name_validation_error() {
    let mut ledger = poll_and_alice();
    let ctx = InitializeCandidate { signer: SIGNER, poll: POLL, candidate: BOB };
    let result = initialize_candidate(&mut ledger, &ctx, "n".repeat(33), 1);
    assert_eq!(result.err(), Some(VotingError::ValidationError));
    assert_eq!(amount_at(&ledger, &POLL), 1);
    assert!(ledger.record_at(&BOB).is_none());
}

#[test]
fn vote_adds_one_and_returns_the_tally() {
    let mut ledger = poll_and_alice();
    let ctx = InitializeCandidate { signer: SIGNER, poll: POLL, candidate: BOB };
    initialize_candidate(&mut ledger, &ctx, String::from("Bob"), 1).unwrap();
    let ballot = Vote { signer: SIGNER, poll: POLL, candidate: ALICE };
    assert_eq!(vote(&mut ledger, &ballot, String::from("Alice"), 1), Ok(1));
    assert_eq!(vote(&mut ledger, &ballot, String::from("Alice"), 1), Ok(2));
    assert_eq!(votes_at(&ledger, &ALICE), 2);
    assert_eq!(votes_at(&ledger, &BOB), 0);
    assert_eq!(amount_at(&ledger, &POLL), 2);
    match ledger.record_at(&ALICE) {
        Some(Record::Candidate(alice)) => assert_eq!(alice.candidate_name, "Alice"),
        _ => panic!("no candidate at the address"),
    }
}

#[test]
fn vote_without_poll_or_candidate_not_found() {
    let mut ledger = poll_and_alice();
    let no_candidate = Vote { signer: SIGNER, poll: POLL, candidate: BOB };
    assert_eq!(vote(&mut ledger, &no_candidate, String::from("Bob"), 1), Err(VotingError::NotFound));
    let no_poll = Vote { signer: SIGNER, poll: BOB, candidate: ALICE };
    assert_eq!(vote(&mut ledger, &no_poll, String::from("Alice"), 1), Err(VotingError::NotFound));
    let poll_as_candidate = Vote { signer: SIGNER, poll: POLL, candidate: POLL };
    assert_eq!(
        vote(&mut ledger, &poll_as_candidate, String::from("Alice"), 1),
        Err(VotingError::NotFound)
    );
    let candidate_as_poll = Vote { signer: SIGNER, poll: ALICE, candidate: ALICE };
    assert_eq!(
        vote(&mut ledger, &candidate_as_poll, String::from("Alice"), 1),
        Err(VotingError::NotFound)
    );
    assert_eq!(votes_at(&ledger, &ALICE), 0);
    assert_eq!(amount_at(&ledger, &POLL), 1);
}

#[test]
fn resolved_accounts_are_the_derived_addresses() {
    let poll = poll_address(&PROGRAM_ID, 1).unwrap();
    let alice = candidate_address(&PROGRAM_ID, 1, "Alice").unwrap();
    let create = InitializePoll::resolve(&PROGRAM_ID, SIGNER, 1).unwrap();
    assert_eq!(create.signer, SIGNER);
    assert_eq!(create.poll, poll);
    let register = InitializeCandidate::resolve(&PROGRAM_ID, SIGNER, 1, "Alice").unwrap();
    assert_eq!(register.signer, SIGNER);
    assert_eq!(register.poll, poll);
    assert_eq!(register.candidate, alice);
    let ballot = Vote::resolve(&PROGRAM_ID, SIGNER, 1, "Alice").unwrap();
    assert_eq!(ballot.signer, SIGNER);
    assert_eq!(ballot.poll, poll);
    assert_eq!(ballot.candidate, alice);
    assert!(Vote::resolve(&PROGRAM_ID, SIGNER, 1, &"n".repeat(33)).is_none());
    assert!(InitializeCandidate::resolve(&PROGRAM_ID, SIGNER, 1, &"n".repeat(33)).is_none());
}

#[test]
fn records_created_by_id_lie_at_the_derived_addresses() {
    let mut ledger = Ledger::new(PROGRAM_ID);
    ledger.create_poll(SIGNER, 1, String::from("d"), 0, 100).unwrap();
    ledger.register_candidate(SIGNER, 1, String::from("Alice")).unwrap();
    let poll = poll_address(&PROGRAM_ID, 1).unwrap();
    let alice = candidate_address(&PROGRAM_ID, 1, "Alice").unwrap();
    assert_eq!(amount_at(&ledger, &poll), 1);
    assert_eq!(votes_at(&ledger, &alice), 0);
    let ballot = Vote { signer: SIGNER, poll, candidate: alice };
    assert_eq!(vote(&mut ledger, &ballot, String::from("Alice"), 1), Ok(1));
    assert_eq!(ledger.candidate(1, "Alice").unwrap().candidate_votes, 1);
}

#[test]
fn clone_copies_a_record() {
    let mut ledger = poll_and_alice();
    let ballot = Vote { signer: SIGNER, poll: POLL, candidate: ALICE };
    vote(&mut ledger, &ballot, String::from("Alice"), 1).unwrap();
    match ledger.record_at(&ALICE) {
        Some(record) => match record.clone() {
            Record::Candidate(copy) => {
                assert_eq!(copy.candidate_name, "Alice");
                assert_eq!(copy.candidate_votes, 1);
            }
            Record::Poll(_) => panic!("a poll at the candidate's address"),
        },
        None => panic!("no record at the address"),
    }
}
