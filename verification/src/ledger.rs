//! The ledger: a table of records in which every address occurs at most once.

use crate::address::same_address;
use crate::records::{Record, RecordView};
use vstd::prelude::*;

verus! {

/// One occupied address and the record that lies there.
#[derive(Debug)]
pub struct Entry {
    pub address: [u8; 32],
    pub record: Record,
}

/// Whether some entry lies at `address`.
pub open spec fn occupied(entries: Seq<Entry>, address: Seq<u8>) -> bool {
    exists|i: int| 0 <= i < entries.len() && #[trigger] entries[i].address@ == address
}

/// The position of an entry that lies at `address`.
pub open spec fn position(entries: Seq<Entry>, address: Seq<u8>) -> int {
    choose|i: int| 0 <= i < entries.len() && #[trigger] entries[i].address@ == address
}

/// Whether no two entries lie at the same address.
pub open spec fn distinct(entries: Seq<Entry>) -> bool {
    forall|i: int, j: int|
        0 <= i < j < entries.len() ==> #[trigger] entries[i].address@ != #[trigger] entries[j].address@
}

/// The number of candidates of every poll is at most the number of entries.
pub open spec fn counted(entries: Seq<Entry>) -> bool {
    forall|i: int|
        0 <= i < entries.len() ==> match (#[trigger] entries[i]).record {
            Record::Poll(poll) => poll.candidate_amount <= entries.len(),
            Record::Candidate(_) => true,
        }
}

/// The entries as a map from each occupied address to its record.
pub open spec fn table(entries: Seq<Entry>) -> Map<Seq<u8>, RecordView> {
    Map::new(
        |address: Seq<u8>| occupied(entries, address),
        |address: Seq<u8>| entries[position(entries, address)].record@,
    )
}

/// The entry at position `i` is what the table holds at that entry's address.
pub proof fn lemma_table_at(entries: Seq<Entry>, i: int)
    requires
        distinct(entries),
        0 <= i < entries.len(),
    ensures
        table(entries).contains_key(entries[i].address@),
        table(entries)[entries[i].address@] == entries[i].record@,
        position(entries, entries[i].address@) == i,
{
    let address = entries[i].address@;
    assert(occupied(entries, address));
    let j = position(entries, address);
    assert(0 <= j < entries.len() && entries[j].address@ == address);
    if j < i {
        assert(entries[j].address@ != entries[i].address@);
    } else if i < j {
        assert(entries[i].address@ != entries[j].address@);
    }
}

/// Appending an entry at a free address inserts its record in the table.
pub proof fn lemma_table_push(entries: Seq<Entry>, entry: Entry)
    requires
        distinct(entries),
        !occupied(entries, entry.address@),
    ensures
        distinct(entries.push(entry)),
        table(entries.push(entry)) == table(entries).insert(entry.address@, entry.record@),
{
    let after = entries.push(entry);
    let last = entries.len() as int;
    assert forall|i: int, j: int| 0 <= i < j < after.len() implies #[trigger] after[i].address@
        != #[trigger] after[j].address@ by {
        if j == last {
            assert(entries[i].address@ != entry.address@);
        } else {
            assert(entries[i].address@ != entries[j].address@);
        }
    }
    assert forall|address: Seq<u8>| occupied(after, address) <==> (occupied(entries, address)
        || address == entry.address@) by {
        if occupied(after, address) {
            let i = position(after, address);
            if i < last {
                assert(entries[i].address@ == address);
            }
        }
        if occupied(entries, address) {
            let i = position(entries, address);
            assert(after[i].address@ == address);
        }
        if address == entry.address@ {
            assert(after[last].address@ == address);
        }
    }
    assert forall|address: Seq<u8>| occupied(after, address) implies #[trigger] table(after)[address]
        == table(entries).insert(entry.address@, entry.record@)[address] by {
        let i = position(after, address);
        lemma_table_at(after, i);
        if i < last {
            assert(entries[i].address@ == address);
            lemma_table_at(entries, i);
        }
    }
    assert(table(after) =~= table(entries).insert(entry.address@, entry.record@));
}

/// Replacing the record of an entry, at the same address, replaces it in the
/// table.
pub proof fn lemma_table_update(entries: Seq<Entry>, i: int, entry: Entry)
    requires
        distinct(entries),
        0 <= i < entries.len(),
        entry.address@ == entries[i].address@,
    ensures
        distinct(entries.update(i, entry)),
        table(entries.update(i, entry)) == table(entries).insert(entry.address@, entry.record@),
{
    let after = entries.update(i, entry);
    assert forall|a: int, b: int| 0 <= a < b < after.len() implies #[trigger] after[a].address@
        != #[trigger] after[b].address@ by {
        assert(after[a].address@ == entries[a].address@);
        assert(after[b].address@ == entries[b].address@);
        assert(entries[a].address@ != entries[b].address@);
    }
    assert forall|address: Seq<u8>| occupied(after, address) <==> occupied(entries, address) by {
        if occupied(after, address) {
            let k = position(after, address);
            assert(entries[k].address@ == address);
        }
        if occupied(entries, address) {
            let k = position(entries, address);
            assert(after[k].address@ == address);
        }
    }
    lemma_table_at(entries, i);
    assert forall|address: Seq<u8>| occupied(after, address) implies #[trigger] table(after)[address]
        == table(entries).insert(entry.address@, entry.record@)[address] by {
        let k = position(after, address);
        lemma_table_at(after, k);
        if k != i {
            assert(entries[k].address@ == address);
            lemma_table_at(entries, k);
        }
    }
    assert(table(after) =~= table(entries).insert(entry.address@, entry.record@));
}

/// The record store of one program: polls and candidates, each at its derived
/// address. Records are added and changed, never removed.
#[derive(Debug)]
pub struct Ledger {
    program_id: [u8; 32],
    entries: Vec<Entry>,
}

impl View for Ledger {
    type V = Map<Seq<u8>, RecordView>;

    /// The records of the ledger, by address.
    open spec fn view(&self) -> Map<Seq<u8>, RecordView> {
        table(self.entries())
    }
}

impl Ledger {
    /// The id of the program that the ledger belongs to.
    pub closed spec fn spec_program_id(&self) -> Seq<u8> {
        self.program_id@
    }

    /// The entries of the ledger, in the order in which they were created.
    pub closed spec fn entries(&self) -> Seq<Entry> {
        self.entries@
    }

    /// The ledger's invariant: no address occurs twice, and no poll counts
    /// more candidates than the ledger holds records.
    pub open spec fn wf(&self) -> bool {
        distinct(self.entries()) && counted(self.entries())
    }

    /// An empty ledger for the program `program_id`.
    pub fn new(program_id: [u8; 32]) -> (ledger: Ledger)
        ensures
            ledger.wf(),
            ledger@ == Map::<Seq<u8>, RecordView>::empty(),
            ledger.spec_program_id() == program_id@,
    {
        let ledger = Ledger { program_id, entries: Vec::new() };
        assert(ledger@ =~= Map::<Seq<u8>, RecordView>::empty());
        ledger
    }

    /// The id of the program that the ledger belongs to.
    pub fn program_id(&self) -> (id: [u8; 32])
        ensures
            id@ == self.spec_program_id(),
    {
        self.program_id
    }

    /// The number of records in the ledger.
    pub fn len(&self) -> (n: usize)
        requires
            self.wf(),
        ensures
            n == self.entries().len(),
            n == self@.dom().len(),
            self@.dom().finite(),
    {
        proof {
            lemma_table_dom(self.entries@);
        }
        self.entries.len()
    }

    /// The position of the entry at `address`, if the address is occupied.
    pub(crate) fn find(&self, address: &[u8; 32]) -> (found: Option<usize>)
        requires
            self.wf(),
        ensures
            match found {
                Some(i) => i < self.entries().len() && self.entries()[i as int].address@
                    == address@ && self@.contains_key(address@) && self@[address@]
                    == self.entries()[i as int].record@,
                None => !self@.contains_key(address@),
            },
    {
        let mut i: usize = 0;
        while i < self.entries.len()
            invariant
                self.wf(),
                i <= self.entries@.len(),
                forall|k: int| 0 <= k < i ==> (#[trigger] self.entries@[k]).address@ != address@,
            decreases self.entries@.len() - i,
        {
            if same_address(&self.entries[i].address, address) {
                proof {
                    lemma_table_at(self.entries@, i as int);
                }
                return Some(i);
            }
            i += 1;
        }
        assert(!occupied(self.entries@, address@)) by {
            if occupied(self.entries@, address@) {
                let k = position(self.entries@, address@);
                assert(self.entries@[k].address@ == address@);
            }
        }
        None
    }

    /// A reference to the record at position `i`.
    pub(crate) fn record(&self, i: usize) -> (record: &Record)
        requires
            i < self.entries().len(),
        ensures
            *record == self.entries()[i as int].record,
    {
        &self.entries[i].record
    }

    /// A copy of the record at `address`, if the address is occupied.
    pub fn record_at(&self, address: &[u8; 32]) -> (record: Option<Record>)
        requires
            self.wf(),
        ensures
            match record {
                Some(r) => self@.contains_key(address@) && self@[address@] == r@,
                None => !self@.contains_key(address@),
            },
    {
        match self.find(address) {
            Some(i) => Some(self.entries[i].record.clone()),
            None => None,
        }
    }

    /// Puts `record` at the free address `address`.
    pub(crate) fn insert(&mut self, address: [u8; 32], record: Record)
        requires
            old(self).wf(),
            !old(self)@.contains_key(address@),
            match record {
                Record::Poll(poll) => poll.candidate_amount == 0,
                Record::Candidate(_) => true,
            },
        ensures
            final(self).wf(),
            final(self)@ == old(self)@.insert(address@, record@),
            final(self).spec_program_id() == old(self).spec_program_id(),
            final(self).entries() == old(self).entries().push(Entry { address, record }),
    {
        let entry = Entry { address, record };
        proof {
            lemma_table_push(self.entries@, entry);
        }
        self.entries.push(entry);
        proof {
            let before = old(self).entries@;
            let after = self.entries@;
            assert forall|i: int| 0 <= i < after.len() implies match (#[trigger] after[i]).record {
                Record::Poll(poll) => poll.candidate_amount <= after.len(),
                Record::Candidate(_) => true,
            } by {
                if i < before.len() {
                    assert(after[i] == before[i]);
                }
            }
        }
    }

    /// Replaces the record at position `i` by `record`, which takes the
    /// entry's address. A poll put there counts no more candidates than the
    /// ledger holds records.
    pub(crate) fn replace(&mut self, i: usize, record: Record)
        requires
            old(self).wf(),
            i < old(self).entries().len(),
            match record {
                Record::Poll(poll) => poll.candidate_amount <= old(self).entries().len(),
                Record::Candidate(_) => true,
            },
        ensures
            final(self).wf(),
            final(self)@ == old(self)@.insert(old(self).entries()[i as int].address@, record@),
            final(self).spec_program_id() == old(self).spec_program_id(),
    {
        let address = self.entries[i].address;
        let entry = Entry { address, record };
        proof {
            lemma_table_update(self.entries@, i as int, entry);
        }
        self.entries.set(i, entry);
        proof {
            let before = old(self).entries@;
            let after = self.entries@;
            assert forall|k: int| 0 <= k < after.len() implies match (#[trigger] after[k]).record {
                Record::Poll(poll) => poll.candidate_amount <= after.len(),
                Record::Candidate(_) => true,
            } by {
                if k != i {
                    assert(after[k] == before[k]);
                }
            }
        }
    }
}

/// The addresses of `entries` are finitely many: as many as the entries, where
/// no address occurs twice.
pub proof fn lemma_table_dom(entries: Seq<Entry>)
    requires
        distinct(entries),
    ensures
        table(entries).dom().finite(),
        table(entries).dom().len() == entries.len(),
    decreases entries.len(),
{
    if entries.len() == 0 {
        assert(table(entries).dom() =~= Set::<Seq<u8>>::empty());
    } else {
        let front = entries.drop_last();
        let last = entries.last();
        assert forall|i: int, j: int| 0 <= i < j < front.len() implies #[trigger] front[i].address@
            != #[trigger] front[j].address@ by {
            assert(entries[i].address@ != entries[j].address@);
        }
        assert(!occupied(front, last.address@)) by {
            if occupied(front, last.address@) {
                let k = position(front, last.address@);
                assert(entries[k].address@ != entries[entries.len() - 1].address@);
            }
        }
        lemma_table_dom(front);
        lemma_table_push(front, last);
        assert(front.push(last) =~= entries);
        assert(table(entries).dom() =~= table(front).dom().insert(last.address@));
    }
}

} // verus!
