//! The cache store: one entry per key, a payload together with the time at
//! which it was recorded.
//!
//! An entry is persisted as two artifacts, the payload and the time stamp.
//! They are one unit: a key whose artifacts are not both intact, or both
//! missing, holds no entry that can be decoded. `Store` keeps the artifacts
//! in memory, and `Record::entry` is the rule by which any medium's pair of
//! artifacts is read as an entry.

use vstd::prelude::*;
use vstd::string::StringExecFns;
use crate::payload::{DataStruct, DataView};

verus! {

/// Why the store could not serve a request.
#[derive(Clone, Copy, Debug, PartialEq, Eq, Structural)]
pub enum StorageError {
    /// What is stored under the key cannot be decoded as an entry.
    Undecodable,
    /// The medium could not be read or written.
    Unavailable,
}

/// What a medium holds of one artifact.
#[derive(Debug, PartialEq, Eq)]
pub enum Artifact<T> {
    /// Nothing was ever written.
    Missing,
    /// Something is there, and it cannot be decoded.
    Garbled,
    /// The value that was written.
    Intact(T),
}

/// The two artifacts persisted under one key.
#[derive(Debug, PartialEq, Eq)]
pub struct Record {
    pub payload: Artifact<DataStruct>,
    pub stamp: Artifact<u64>,
}

/// A payload and the time, in seconds since the epoch, at which it was
/// recorded.
#[derive(Debug, PartialEq, Eq)]
pub struct CacheEntry {
    pub payload: DataStruct,
    pub fetched_at: u64,
}

pub struct RecordView {
    pub payload: Artifact<DataView>,
    pub stamp: Artifact<u64>,
}

pub struct EntryView {
    pub payload: DataView,
    pub fetched_at: u64,
}

impl View for Record {
    type V = RecordView;

    open spec fn view(&self) -> RecordView {
        RecordView {
            payload: match self.payload {
                Artifact::Missing => Artifact::Missing,
                Artifact::Garbled => Artifact::Garbled,
                Artifact::Intact(p) => Artifact::Intact(p@),
            },
            stamp: self.stamp,
        }
    }
}

impl View for CacheEntry {
    type V = EntryView;

    open spec fn view(&self) -> EntryView {
        EntryView { payload: self.payload@, fetched_at: self.fetched_at }
    }
}

/// What a read returns, as a value of the model.
pub type ReadView = Result<Option<EntryView>, StorageError>;

/// The view of what a read returned.
pub open spec fn read_view(read: Result<Option<CacheEntry>, StorageError>) -> ReadView {
    match read {
        Ok(Some(entry)) => Ok(Some(entry@)),
        Ok(None) => Ok(None),
        Err(e) => Err(e),
    }
}

/// The record that a completed write leaves under its key.
pub open spec fn written(payload: DataView, timestamp: u64) -> RecordView {
    RecordView { payload: Artifact::Intact(payload), stamp: Artifact::Intact(timestamp) }
}

/// How a pair of artifacts reads: an entry where both are intact, nothing
/// where both are missing, and an error in every other case, which is a
/// write that stopped half way or an artifact that was damaged.
pub open spec fn entry_of(record: RecordView) -> ReadView {
    match (record.payload, record.stamp) {
        (Artifact::Intact(payload), Artifact::Intact(fetched_at)) => Ok(
            Some(EntryView { payload, fetched_at }),
        ),
        (Artifact::Missing, Artifact::Missing) => Ok(None),
        _ => Err(StorageError::Undecodable),
    }
}

/// What a read of `key` returns from a store that holds `records`.
pub open spec fn entry_at(records: Map<Seq<char>, RecordView>, key: Seq<char>) -> ReadView {
    if records.contains_key(key) {
        entry_of(records[key])
    } else {
        Ok(None)
    }
}

impl Record {
    /// The record of a key under which nothing was written.
    pub fn empty() -> (record: Record)
        ensures
            record@ == (RecordView { payload: Artifact::Missing, stamp: Artifact::Missing }),
    {
        Record { payload: Artifact::Missing, stamp: Artifact::Missing }
    }

    /// Reads the two artifacts as one entry.
    pub fn entry(&self) -> (read: Result<Option<CacheEntry>, StorageError>)
        ensures
            read_view(read) == entry_of(self@),
    {
        match &self.payload {
            Artifact::Intact(payload) => match &self.stamp {
                Artifact::Intact(fetched_at) => Ok(
                    Some(CacheEntry { payload: payload.clone(), fetched_at: *fetched_at }),
                ),
                _ => Err(StorageError::Undecodable),
            },
            Artifact::Missing => match &self.stamp {
                Artifact::Missing => Ok(None),
                _ => Err(StorageError::Undecodable),
            },
            Artifact::Garbled => Err(StorageError::Undecodable),
        }
    }

    /// The time stamp of the entry that the two artifacts form, read as
    /// `entry` reads it and without copying the payload.
    pub fn fetched_at(&self) -> (read: Result<Option<u64>, StorageError>)
        ensures
            read == stamp_of(entry_of(self@)),
    {
        match &self.payload {
            Artifact::Intact(_) => match &self.stamp {
                Artifact::Intact(fetched_at) => Ok(Some(*fetched_at)),
                _ => Err(StorageError::Undecodable),
            },
            Artifact::Missing => match &self.stamp {
                Artifact::Missing => Ok(None),
                _ => Err(StorageError::Undecodable),
            },
            Artifact::Garbled => Err(StorageError::Undecodable),
        }
    }
}

/// The time stamp alone of what a read returned.
pub open spec fn stamp_of(read: ReadView) -> Result<Option<u64>, StorageError> {
    match read {
        Ok(Some(entry)) => Ok(Some(entry.fetched_at)),
        Ok(None) => Ok(None),
        Err(e) => Err(e),
    }
}

/// The records of one key.
struct Slot {
    key: String,
    record: Record,
}

/// A store that keeps its records in memory. Its view is the map from each
/// key that was written to the record under it.
pub struct Store {
    slots: Vec<Slot>,
}

/// No key occurs in two slots.
spec fn distinct(slots: Seq<Slot>) -> bool {
    forall|i: int, j: int| 0 <= i < j < slots.len() ==> slots[i].key@ != slots[j].key@
}

/// Some slot holds `key`.
spec fn holds(slots: Seq<Slot>, key: Seq<char>) -> bool {
    exists|i: int| 0 <= i < slots.len() && #[trigger] slots[i].key@ == key
}

/// The place of the slot that holds `key`.
spec fn place(slots: Seq<Slot>, key: Seq<char>) -> int {
    choose|i: int| 0 <= i < slots.len() && #[trigger] slots[i].key@ == key
}

/// The map that a run of slots stands for.
spec fn records(slots: Seq<Slot>) -> Map<Seq<char>, RecordView> {
    Map::new(|key: Seq<char>| holds(slots, key), |key: Seq<char>| slots[place(slots, key)].record@)
}

/// Among distinct keys, a slot is the place of its own key.
proof fn place_of_slot(slots: Seq<Slot>, i: int)
    requires
        distinct(slots),
        0 <= i < slots.len(),
    ensures
        holds(slots, slots[i].key@),
        place(slots, slots[i].key@) == i,
{
    let key = slots[i].key@;
    assert(slots[i].key@ == key);
    let p = place(slots, key);
    assert(0 <= p < slots.len() && slots[p].key@ == key);
    if p < i {
        assert(slots[p].key@ != slots[i].key@);
    }
    if i < p {
        assert(slots[i].key@ != slots[p].key@);
    }
}

/// Replacing the record of slot `i` is an insertion under that slot's key.
proof fn records_after_replace(slots: Seq<Slot>, i: int, slot: Slot)
    requires
        distinct(slots),
        0 <= i < slots.len(),
        slot.key@ == slots[i].key@,
    ensures
        distinct(slots.update(i, slot)),
        records(slots.update(i, slot)) == records(slots).insert(slot.key@, slot.record@),
{
    let after = slots.update(i, slot);
    assert(distinct(after)) by {
        assert forall|a: int, b: int| 0 <= a < b < after.len() implies after[a].key@
            != after[b].key@ by {
            assert(after[a].key@ == slots[a].key@);
            assert(after[b].key@ == slots[b].key@);
        }
    }
    assert forall|key: Seq<char>| holds(after, key) == holds(slots, key) by {
        if holds(slots, key) {
            let p = place(slots, key);
            assert(after[p].key@ == key);
        }
        if holds(after, key) {
            let p = place(after, key);
            assert(slots[p].key@ == key);
        }
    }
    assert forall|key: Seq<char>| holds(after, key) implies #[trigger] records(after)[key]
        == records(slots).insert(slot.key@, slot.record@)[key] by {
        let p = place(after, key);
        place_of_slot(after, p);
        place_of_slot(slots, p);
    }
    place_of_slot(slots, i);
    assert(records(after) =~= records(slots).insert(slot.key@, slot.record@));
}

/// Appending a slot with a new key is an insertion under that key.
proof fn records_after_push(slots: Seq<Slot>, slot: Slot)
    requires
        distinct(slots),
        !holds(slots, slot.key@),
    ensures
        distinct(slots.push(slot)),
        records(slots.push(slot)) == records(slots).insert(slot.key@, slot.record@),
{
    let after = slots.push(slot);
    let last = slots.len() as int;
    assert(distinct(after)) by {
        assert forall|a: int, b: int| 0 <= a < b < after.len() implies after[a].key@
            != after[b].key@ by {
            if b == last {
                assert(slots[a].key@ == after[a].key@);
            } else {
                assert(after[a].key@ == slots[a].key@);
                assert(after[b].key@ == slots[b].key@);
            }
        }
    }
    assert(after[last].key@ == slot.key@);
    assert forall|key: Seq<char>| holds(after, key) == (holds(slots, key) || key
        == slot.key@) by {
        if holds(slots, key) {
            let p = place(slots, key);
            assert(after[p].key@ == key);
        }
        if holds(after, key) {
            let p = place(after, key);
            if p != last {
                assert(slots[p].key@ == key);
            }
        }
    }
    assert forall|key: Seq<char>| holds(after, key) implies #[trigger] records(after)[key]
        == records(slots).insert(slot.key@, slot.record@)[key] by {
        let p = place(after, key);
        place_of_slot(after, p);
        if p != last {
            place_of_slot(slots, p);
        }
    }
    assert(records(after) =~= records(slots).insert(slot.key@, slot.record@));
}

impl View for Store {
    type V = Map<Seq<char>, RecordView>;

    closed spec fn view(&self) -> Map<Seq<char>, RecordView> {
        records(self.slots@)
    }
}

impl Store {
    #[verifier::type_invariant]
    spec fn keys_are_distinct(&self) -> bool {
        distinct(self.slots@)
    }

    /// A store in which nothing was written.
    pub fn new() -> (store: Store)
        ensures
            store@ == Map::<Seq<char>, RecordView>::empty(),
    {
        let store = Store { slots: Vec::new() };
        assert(store@ =~= Map::<Seq<char>, RecordView>::empty());
        store
    }

    /// The place of the slot that holds `key`, if there is one.
    fn find(&self, key: &String) -> (found: Option<usize>)
        ensures
            match found {
                Some(i) => i < self.slots.len() && self.slots[i as int].key@ == key@,
                None => !holds(self.slots@, key@),
            },
    {
        let mut i: usize = 0;
        while i < self.slots.len()
            invariant
                i <= self.slots.len(),
                forall|j: int| 0 <= j < i ==> self.slots[j].key@ != key@,
            decreases self.slots.len() - i,
        {
            if self.slots[i].key == *key {
                return Some(i);
            }
            i += 1;
        }
        None
    }

    /// Returns the entry persisted under `key`, `None` where nothing was
    /// written under it, and an error where what is there is no entry.
    pub fn read(&self, key: &str) -> (read: Result<Option<CacheEntry>, StorageError>)
        ensures
            read_view(read) == entry_at(self@, key@),
    {
        proof {
            use_type_invariant(self);
        }
        let wanted = String::from_str(key);
        match self.find(&wanted) {
            Some(i) => {
                proof {
                    place_of_slot(self.slots@, i as int);
                }
                self.slots[i].record.entry()
            },
            None => Ok(None),
        }
    }

    /// Returns the time at which the entry under `key` was recorded, as
    /// `read` would report it.
    pub fn stamp(&self, key: &str) -> (read: Result<Option<u64>, StorageError>)
        ensures
            read == stamp_of(entry_at(self@, key@)),
    {
        proof {
            use_type_invariant(self);
        }
        let wanted = String::from_str(key);
        match self.find(&wanted) {
            Some(i) => {
                proof {
                    place_of_slot(self.slots@, i as int);
                }
                self.slots[i].record.fetched_at()
            },
            None => Ok(None),
        }
    }

    /// Puts `record` under `key` in place of whatever was there. This is
    /// how a half-written or damaged entry gets into a store.
    pub fn install(&mut self, key: &str, record: Record)
        ensures
            final(self)@ == old(self)@.insert(key@, record@),
    {
        proof {
            use_type_invariant(&*self);
        }
        let wanted = String::from_str(key);
        let found = self.find(&wanted);
        let slot = Slot { key: wanted, record };
        let mut taken = Store { slots: Vec::new() };
        core::mem::swap(self, &mut taken);
        let mut slots = taken.slots;
        match found {
            Some(i) => {
                proof {
                    records_after_replace(slots@, i as int, slot);
                }
                slots.set(i, slot);
            },
            None => {
                proof {
                    records_after_push(slots@, slot);
                }
                slots.push(slot);
            },
        }
        *self = Store { slots };
    }

    /// Persists `payload` and `timestamp` as the entry of `key`, in place
    /// of any entry or damaged record that was there. A store in memory
    /// has no medium that could fail, so the write always succeeds.
    pub fn write(&mut self, key: &str, payload: DataStruct, timestamp: u64) -> (done: Result<
        (),
        StorageError,
    >)
        ensures
            done is Ok,
            final(self)@ == old(self)@.insert(key@, written(payload@, timestamp)),
            entry_at(final(self)@, key@) == Ok::<Option<EntryView>, StorageError>(
                Some(EntryView { payload: payload@, fetched_at: timestamp }),
            ),
    {
        self.install(
            key,
            Record { payload: Artifact::Intact(payload), stamp: Artifact::Intact(timestamp) },
        );
        Ok(())
    }
}

/// A write followed by a read of the same key returns what was written,
/// and every other key reads as it did before the write.
pub proof fn read_after_write(
    records: Map<Seq<char>, RecordView>,
    key: Seq<char>,
    other: Seq<char>,
    payload: DataView,
    timestamp: u64,
)
    ensures
        entry_at(records.insert(key, written(payload, timestamp)), key) == Ok::<
            Option<EntryView>,
            StorageError,
        >(Some(EntryView { payload, fetched_at: timestamp })),
        other != key ==> entry_at(records.insert(key, written(payload, timestamp)), other)
            == entry_at(records, other),
{
}

/// The name of the artifact that holds the payload of `key`.
pub fn payload_artifact(key: &str) -> (name: String)
    ensures
        name@ == "data_storage/"@ + key@ + "_data.json"@,
{
    let mut name = String::from_str("data_storage/");
    name.append(key);
    name.append("_data.json");
    name
}

/// The name of the artifact that holds the time stamp of `key`.
pub fn stamp_artifact(key: &str) -> (name: String)
    ensures
        name@ == "data_storage/"@ + key@ + "_metadata.json"@,
{
    let mut name = String::from_str("data_storage/");
    name.append(key);
    name.append("_metadata.json");
    name
}

} // verus!
