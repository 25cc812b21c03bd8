//! The freshness gate: may a cached entry still be reused?

use vstd::prelude::*;
use crate::store::{ReadView, RecordView, StorageError, Store, entry_at, stamp_of, written};
use crate::payload::DataView;

verus! {

/// The seconds for which the answer to a full token inquiry, with totals
/// and holders, may be reused.
pub const PERIOD_LIMIT: u64 = 600;

/// The seconds for which the answer to a plain token inquiry may be
/// reused.
pub const SHORT_PERIOD_LIMIT: u64 = 300;

/// What is found of the entry cached under one key.
#[derive(Clone, Copy, Debug, PartialEq, Eq, Structural)]
pub enum Freshness {
    /// An entry exists and is no older than the time-to-live.
    Fresh,
    /// An entry exists but has outlived the time-to-live.
    Stale,
    /// No usable entry exists.
    Absent,
}

/// The rule of freshness. `stamp` is the time at which the entry was
/// recorded, or `None` where there is no usable entry. An entry is stale
/// exactly when `now` lies strictly beyond `stamp + ttl`; the sum is taken
/// over the integers, so a clock that reads earlier than the stamp leaves
/// the entry fresh, and so does a limit beyond the range of `u64`.
pub open spec fn freshness_at(stamp: Option<u64>, ttl: u64, now: u64) -> Freshness {
    match stamp {
        None => Freshness::Absent,
        Some(t) => if now > t + ttl {
            Freshness::Stale
        } else {
            Freshness::Fresh
        },
    }
}

/// Applies the rule of freshness to the recorded time of an entry.
pub fn verdict(stamp: Option<u64>, ttl: u64, now: u64) -> (f: Freshness)
    ensures
        f == freshness_at(stamp, ttl, now),
{
    match stamp {
        None => Freshness::Absent,
        Some(t) => match t.checked_add(ttl) {
            Some(limit) => if now > limit {
                Freshness::Stale
            } else {
                Freshness::Fresh
            },
            None => Freshness::Fresh,
        },
    }
}

impl Freshness {
    /// Whether the payload has to come from the remote source: it has
    /// unless the entry is fresh.
    pub fn must_fetch(&self) -> (fetch: bool)
        ensures
            fetch == (*self != Freshness::Fresh),
    {
        match self {
            Freshness::Fresh => false,
            _ => true,
        }
    }
}

/// The recorded time that a read makes known. A read that failed makes
/// none known: an entry that cannot be decoded counts as no entry.
pub open spec fn known_stamp(read: Result<Option<u64>, StorageError>) -> Option<u64> {
    match read {
        Ok(Some(t)) => Some(t),
        _ => None,
    }
}

/// The verdict on what a read of the key returned.
pub open spec fn freshness_of(read: ReadView, ttl: u64, now: u64) -> Freshness {
    freshness_at(known_stamp(stamp_of(read)), ttl, now)
}

/// Asks whether the entry that `store` holds under `key` may be reused at
/// time `now`, given that entries live for `ttl` seconds.
pub fn is_fresh(store: &Store, key: &str, ttl: u64, now: u64) -> (f: Freshness)
    ensures
        f == freshness_of(entry_at(store@, key@), ttl, now),
        !store@.contains_key(key@) ==> f == Freshness::Absent,
        entry_at(store@, key@) is Err ==> f == Freshness::Absent,
        entry_at(store@, key@) matches Ok(Some(entry)) ==> f == (if now > entry.fetched_at + ttl {
            Freshness::Stale
        } else {
            Freshness::Fresh
        }),
{
    match store.stamp(key) {
        Ok(Some(t)) => verdict(Some(t), ttl, now),
        _ => Freshness::Absent,
    }
}

/// A key under which nothing was ever written is absent, whatever the
/// time-to-live and the time.
pub proof fn unwritten_key_is_absent(
    records: Map<Seq<char>, RecordView>,
    key: Seq<char>,
    ttl: u64,
    now: u64,
)
    requires
        !records.contains_key(key),
    ensures
        freshness_of(entry_at(records, key), ttl, now) == Freshness::Absent,
{
}

/// An entry written at time `at` is fresh at every time up to and
/// including `at + ttl`, and stale at every later time.
pub proof fn written_entry_ages(
    records: Map<Seq<char>, RecordView>,
    key: Seq<char>,
    payload: DataView,
    at: u64,
    ttl: u64,
    now: u64,
)
    ensures
        now <= at + ttl ==> freshness_of(
            entry_at(records.insert(key, written(payload, at)), key),
            ttl,
            now,
        ) == Freshness::Fresh,
        now > at + ttl ==> freshness_of(
            entry_at(records.insert(key, written(payload, at)), key),
            ttl,
            now,
        ) == Freshness::Stale,
{
}

} // verus!
