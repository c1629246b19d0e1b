//! Derived addresses: where in the ledger the record of a poll or of a
//! candidate lies.

use anchor_lang::prelude::Pubkey;
use vstd::bytes::spec_u64_to_le_bytes;
use vstd::bytes::u64_to_le_bytes;
use vstd::prelude::*;
use vstd::utf8::encode_utf8;

verus! {

/// The id of the program in whose name the addresses of an election are
/// derived.
pub const PROGRAM_ID: [u8; 32] = [
    142, 68, 3, 56, 133, 36, 218, 249, 102, 112, 57, 181, 26, 245, 163, 173,
    187, 27, 6, 223, 222, 54, 102, 127, 108, 4, 186, 209, 250, 161, 72, 149,
];

/// What `Pubkey::try_find_program_address` returns for the given seeds and
/// program id: the address with the bump that was found for it, or `None`
/// where the search ends without an address.
pub uninterp spec fn program_address(seeds: Seq<Seq<u8>>, program_id: Seq<u8>) -> Option<(Seq<u8>, u8)>;

/// The byte strings that a list of seeds holds.
pub open spec fn seed_values(seeds: Seq<&[u8]>) -> Seq<Seq<u8>> {
    Seq::new(seeds.len(), |i: int| seeds[i]@)
}

/// Calls `Pubkey::try_find_program_address` with the seeds as they are and
/// `program_id` as a `Pubkey`, and hands the address out as its 32 bytes.
/// Nothing is proved of the call. What is believed of it: that its result is
/// `program_address` of the seeds' bytes and the program id, that is, that it
/// depends on these alone.
#[verifier::external_body]
fn try_find_program_address(seeds: &Vec<&[u8]>, program_id: &[u8; 32]) -> (found: Option<([u8; 32], u8)>)
    ensures
        match found {
            Some((address, bump)) => program_address(seed_values(seeds@), program_id@) == Some(
                (address@, bump),
            ),
            None => program_address(seed_values(seeds@), program_id@) is None,
        },
{
    match Pubkey::try_find_program_address(seeds.as_slice(), &Pubkey::new_from_array(*program_id)) {
        Some((address, bump)) => Some((address.to_bytes(), bump)),
        None => None,
    }
}

/// Derives the address for `seeds` under `program_id`, with the bump that
/// makes it one: `None` where none can be derived. The result depends on the
/// seeds, in their order, and the program id alone, so the same arguments give
/// the same address at every call.
pub fn derive_address(program_id: &[u8; 32], seeds: &Vec<&[u8]>) -> (found: Option<([u8; 32], u8)>)
    ensures
        match found {
            Some((address, bump)) => program_address(seed_values(seeds@), program_id@) == Some(
                (address@, bump),
            ),
            None => program_address(seed_values(seeds@), program_id@) is None,
        },
{
    try_find_program_address(seeds, program_id)
}

/// The seeds of a poll's address: its id, in eight little-endian bytes.
pub open spec fn poll_seeds(poll_id: u64) -> Seq<Seq<u8>> {
    seq![spec_u64_to_le_bytes(poll_id)]
}

/// The seeds of a candidate's address: the id of its poll, in eight
/// little-endian bytes, then the bytes of its name.
pub open spec fn candidate_seeds(poll_id: u64, candidate_name: Seq<char>) -> Seq<Seq<u8>> {
    seq![spec_u64_to_le_bytes(poll_id), encode_utf8(candidate_name)]
}

/// The address part of a derivation's result.
pub open spec fn address_of(found: Option<(Seq<u8>, u8)>) -> Option<Seq<u8>> {
    match found {
        Some((address, _)) => Some(address),
        None => None,
    }
}

/// The address of the poll `poll_id`, if one can be derived.
pub open spec fn spec_poll_address(program_id: Seq<u8>, poll_id: u64) -> Option<Seq<u8>> {
    address_of(program_address(poll_seeds(poll_id), program_id))
}

/// The address of the candidate `candidate_name` of the poll `poll_id`, if one
/// can be derived.
pub open spec fn spec_candidate_address(
    program_id: Seq<u8>,
    poll_id: u64,
    candidate_name: Seq<char>,
) -> Option<Seq<u8>> {
    address_of(program_address(candidate_seeds(poll_id, candidate_name), program_id))
}

/// Derives the address of the poll `poll_id` under `program_id`. The result
/// depends on the two arguments alone: the same poll id always gives the same
/// address.
pub fn poll_address(program_id: &[u8; 32], poll_id: u64) -> (address: Option<[u8; 32]>)
    ensures
        match address {
            Some(a) => spec_poll_address(program_id@, poll_id) == Some(a@),
            None => spec_poll_address(program_id@, poll_id) is None,
        },
{
    let id_bytes = u64_to_le_bytes(poll_id);
    let mut seeds: Vec<&[u8]> = Vec::new();
    seeds.push(id_bytes.as_slice());
    assert(seed_values(seeds@) =~= poll_seeds(poll_id));
    match derive_address(program_id, &seeds) {
        Some((address, _)) => Some(address),
        None => None,
    }
}

/// Derives the address of the candidate `candidate_name` of the poll
/// `poll_id` under `program_id`. The result depends on the three arguments
/// alone.
pub fn candidate_address(program_id: &[u8; 32], poll_id: u64, candidate_name: &str) -> (address:
    Option<[u8; 32]>)
    ensures
        match address {
            Some(a) => spec_candidate_address(program_id@, poll_id, candidate_name@) == Some(a@),
            None => spec_candidate_address(program_id@, poll_id, candidate_name@) is None,
        },
{
    let id_bytes = u64_to_le_bytes(poll_id);
    let mut seeds: Vec<&[u8]> = Vec::new();
    seeds.push(id_bytes.as_slice());
    seeds.push(candidate_name.as_bytes());
    assert(seed_values(seeds@) =~= candidate_seeds(poll_id, candidate_name@));
    match derive_address(program_id, &seeds) {
        Some((address, _)) => Some(address),
        None => None,
    }
}

/// Whether two addresses are the same 32 bytes.
pub fn same_address(a: &[u8; 32], b: &[u8; 32]) -> (same: bool)
    ensures
        same == (a@ == b@),
{
    let mut i: usize = 0;
    while i < 32
        invariant
            i <= 32,
            forall|k: int| 0 <= k < i ==> a@[k] == b@[k],
        decreases 32 - i,
    {
        if a[i] != b[i] {
            return false;
        }
        i += 1;
    }
    assert(a@ =~= b@);
    true
}

} // verus!
