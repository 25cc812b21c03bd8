//! The fetch orchestrator: the one procedure by which a caller obtains the
//! current payload of a key.
//!
//! The procedure consults the store, the remote source and the store again,
//! and decides in between. The deciding is a `Session`: it is told what
//! happened as an `Event` and answers with the next `Request` to carry out,
//! until it delivers. Whoever drives a session does the outside work; `get`
//! drives one against a `Store` and a fetcher that it is handed.

use vstd::prelude::*;
use vstd::pervasive::unreached;
use crate::fetcher::{FetchError, FetchErrorView, FetchedView, fetched_view};
use crate::gate::{Freshness, freshness_at, known_stamp, verdict};
use crate::payload::{DataStruct, DataView};
use crate::store::{
    CacheEntry, EntryView, ReadView, RecordView, StorageError, Store, entry_at, read_view,
    stamp_of, written,
};

verus! {

/// What a session waits for.
enum Phase {
    /// The time at which the key's entry was recorded.
    Probing,
    /// The key's entry.
    Reading,
    /// The remote source's answer.
    Fetching,
    /// The outcome of persisting the payload that it holds.
    Writing(DataStruct),
}

pub enum PhaseView {
    Probing,
    Reading,
    Fetching,
    Writing(DataView),
}

/// One request for a key's payload, between two steps.
pub struct Session {
    ttl: u64,
    now: u64,
    phase: Phase,
}

pub struct SessionView {
    pub ttl: u64,
    pub now: u64,
    pub phase: PhaseView,
}

impl View for Session {
    type V = SessionView;

    closed spec fn view(&self) -> SessionView {
        SessionView {
            ttl: self.ttl,
            now: self.now,
            phase: match self.phase {
                Phase::Probing => PhaseView::Probing,
                Phase::Reading => PhaseView::Reading,
                Phase::Fetching => PhaseView::Fetching,
                Phase::Writing(payload) => PhaseView::Writing(payload@),
            },
        }
    }
}

/// What a session asks its driver to do next.
#[derive(Debug, PartialEq, Eq)]
pub enum Request {
    /// Ask the store when the key's entry was recorded.
    Probe,
    /// Read the key's entry from the store.
    Read,
    /// Ask the remote source for the key's payload.
    Fetch,
    /// Persist this entry under the key.
    Write(CacheEntry),
}

pub enum RequestView {
    Probe,
    Read,
    Fetch,
    Write(EntryView),
}

impl View for Request {
    type V = RequestView;

    open spec fn view(&self) -> RequestView {
        match self {
            Request::Probe => RequestView::Probe,
            Request::Read => RequestView::Read,
            Request::Fetch => RequestView::Fetch,
            Request::Write(entry) => RequestView::Write(entry@),
        }
    }
}

/// What the driver reports back.
#[derive(Debug, PartialEq, Eq)]
pub enum Event {
    /// The answer to `Probe`.
    Stamp(Result<Option<u64>, StorageError>),
    /// The answer to `Read`.
    Entry(Result<Option<CacheEntry>, StorageError>),
    /// The answer to `Fetch`.
    Fetched(Result<DataStruct, FetchError>),
    /// The answer to `Write`.
    Written(Result<(), StorageError>),
}

pub enum EventView {
    Stamp(Result<Option<u64>, StorageError>),
    Entry(ReadView),
    Fetched(FetchedView),
    Written(Result<(), StorageError>),
}

impl View for Event {
    type V = EventView;

    open spec fn view(&self) -> EventView {
        match self {
            Event::Stamp(read) => EventView::Stamp(*read),
            Event::Entry(read) => EventView::Entry(read_view(*read)),
            Event::Fetched(fetched) => EventView::Fetched(fetched_view(*fetched)),
            Event::Written(done) => EventView::Written(*done),
        }
    }
}

/// What a session ends with: the caller's answer, and beside it the
/// failure of the write, if the fetched payload could not be persisted.
/// That failure is for the operator; it never replaces the answer.
#[derive(Debug, PartialEq, Eq)]
pub struct Delivery {
    pub result: Result<DataStruct, FetchError>,
    pub write_error: Option<StorageError>,
}

pub struct DeliveryView {
    pub result: FetchedView,
    pub write_error: Option<StorageError>,
}

impl View for Delivery {
    type V = DeliveryView;

    open spec fn view(&self) -> DeliveryView {
        DeliveryView { result: fetched_view(self.result), write_error: self.write_error }
    }
}

/// What one step of a session yields.
pub enum Step {
    /// The session goes on once this request has been answered.
    Next(Session, Request),
    /// The session is over.
    Done(Delivery),
}

pub enum StepView {
    Next(SessionView, RequestView),
    Done(DeliveryView),
}

impl View for Step {
    type V = StepView;

    open spec fn view(&self) -> StepView {
        match self {
            Step::Next(session, request) => StepView::Next(session@, request@),
            Step::Done(delivery) => StepView::Done(delivery@),
        }
    }
}

/// The session of a request made at time `now` for a key whose entries
/// live `ttl` seconds, before its first step.
pub open spec fn opening(ttl: u64, now: u64) -> SessionView {
    SessionView { ttl, now, phase: PhaseView::Probing }
}

/// The request that a session is waiting to have answered.
pub open spec fn pending(session: SessionView) -> RequestView {
    match session.phase {
        PhaseView::Probing => RequestView::Probe,
        PhaseView::Reading => RequestView::Read,
        PhaseView::Fetching => RequestView::Fetch,
        PhaseView::Writing(payload) => RequestView::Write(
            EntryView { payload, fetched_at: session.now },
        ),
    }
}

/// The session in another phase.
pub open spec fn moved(session: SessionView, phase: PhaseView) -> SessionView {
    SessionView { ttl: session.ttl, now: session.now, phase }
}

/// The step that a session takes on an event.
///
/// - On the time stamp of the entry: read the entry if it is found
///   fresh, fetch if it is stale or absent.
/// - On the entry: deliver its payload; fetch if the read found nothing or
///   failed.
/// - On a fetched payload: persist it with the session's time. On a failed
///   fetch: deliver the failure, and ask for no write.
/// - On the outcome of the write: deliver the fetched payload, whether or
///   not the write succeeded, with the write's failure beside it.
/// - On an event that answers another request than the pending one: ask
///   the pending request again.
pub open spec fn next(session: SessionView, event: EventView) -> StepView {
    match (session.phase, event) {
        (PhaseView::Probing, EventView::Stamp(read)) => {
            if freshness_at(known_stamp(read), session.ttl, session.now) == Freshness::Fresh {
                StepView::Next(moved(session, PhaseView::Reading), RequestView::Read)
            } else {
                StepView::Next(moved(session, PhaseView::Fetching), RequestView::Fetch)
            }
        },
        (PhaseView::Reading, EventView::Entry(Ok(Some(entry)))) => StepView::Done(
            DeliveryView { result: Ok(entry.payload), write_error: None },
        ),
        (PhaseView::Reading, EventView::Entry(_)) => StepView::Next(
            moved(session, PhaseView::Fetching),
            RequestView::Fetch,
        ),
        (PhaseView::Fetching, EventView::Fetched(Ok(payload))) => StepView::Next(
            moved(session, PhaseView::Writing(payload)),
            RequestView::Write(EntryView { payload, fetched_at: session.now }),
        ),
        (PhaseView::Fetching, EventView::Fetched(Err(e))) => StepView::Done(
            DeliveryView { result: Err(e), write_error: None },
        ),
        (PhaseView::Writing(payload), EventView::Written(done)) => StepView::Done(
            DeliveryView {
                result: Ok(payload),
                write_error: match done {
                    Ok(_) => None,
                    Err(e) => Some(e),
                },
            },
        ),
        _ => StepView::Next(session, pending(session)),
    }
}

impl Session {
    /// Opens the session of a request made at time `now` for a key whose
    /// entries live `ttl` seconds. Its first request is `Probe`.
    pub fn start(ttl: u64, now: u64) -> (opened: (Session, Request))
        ensures
            opened.0@ == opening(ttl, now),
            opened.1@ == pending(opening(ttl, now)),
            opened.1@ == RequestView::Probe,
    {
        (Session { ttl, now, phase: Phase::Probing }, Request::Probe)
    }

    /// Asks the pending request again.
    fn again(self) -> (step: Step)
        ensures
            step@ == StepView::Next(self@, pending(self@)),
    {
        let Session { ttl, now, phase } = self;
        match phase {
            Phase::Probing => Step::Next(
                Session { ttl, now, phase: Phase::Probing },
                Request::Probe,
            ),
            Phase::Reading => Step::Next(Session { ttl, now, phase: Phase::Reading }, Request::Read),
            Phase::Fetching => Step::Next(
                Session { ttl, now, phase: Phase::Fetching },
                Request::Fetch,
            ),
            Phase::Writing(payload) => {
                let entry = CacheEntry { payload: payload.clone(), fetched_at: now };
                Step::Next(Session { ttl, now, phase: Phase::Writing(payload) }, Request::Write(entry))
            },
        }
    }

    /// Takes one step: tells the session what happened, and learns what to
    /// do next or what to deliver.
    pub fn step(self, event: Event) -> (step: Step)
        ensures
            step@ == next(self@, event@),
    {
        let Session { ttl, now, phase } = self;
        match phase {
            Phase::Probing => match event {
                Event::Stamp(read) => {
                    let stamp = match read {
                        Ok(Some(t)) => Some(t),
                        _ => None,
                    };
                    match verdict(stamp, ttl, now) {
                        Freshness::Fresh => Step::Next(
                            Session { ttl, now, phase: Phase::Reading },
                            Request::Read,
                        ),
                        _ => Step::Next(
                            Session { ttl, now, phase: Phase::Fetching },
                            Request::Fetch,
                        ),
                    }
                },
                _ => (Session { ttl, now, phase: Phase::Probing }).again(),
            },
            Phase::Reading => match event {
                Event::Entry(Ok(Some(entry))) => Step::Done(
                    Delivery { result: Ok(entry.payload), write_error: None },
                ),
                Event::Entry(_) => Step::Next(
                    Session { ttl, now, phase: Phase::Fetching },
                    Request::Fetch,
                ),
                _ => (Session { ttl, now, phase: Phase::Reading }).again(),
            },
            Phase::Fetching => match event {
                Event::Fetched(Ok(payload)) => {
                    let entry = CacheEntry { payload: payload.clone(), fetched_at: now };
                    Step::Next(
                        Session { ttl, now, phase: Phase::Writing(payload) },
                        Request::Write(entry),
                    )
                },
                Event::Fetched(Err(e)) => Step::Done(Delivery { result: Err(e), write_error: None }),
                _ => (Session { ttl, now, phase: Phase::Fetching }).again(),
            },
            Phase::Writing(payload) => match event {
                Event::Written(done) => Step::Done(
                    Delivery {
                        result: Ok(payload),
                        write_error: match done {
                            Ok(_) => None,
                            Err(e) => Some(e),
                        },
                    },
                ),
                _ => (Session { ttl, now, phase: Phase::Writing(payload) }).again(),
            },
        }
    }
}

/// The payload that a request at time `now` is served from a store that
/// holds `records`: that of the key's entry, where there is one and it is
/// fresh. `None` says that the request goes to the remote source.
pub open spec fn cached(
    records: Map<Seq<char>, RecordView>,
    key: Seq<char>,
    ttl: u64,
    now: u64,
) -> Option<DataView> {
    match entry_at(records, key) {
        Ok(Some(entry)) => if now > entry.fetched_at + ttl {
            None
        } else {
            Some(entry.payload)
        },
        _ => None,
    }
}

/// The records of a store after a request at time `now` got `fetched` from
/// the remote source: the payload is written under the key with that time,
/// and a failure changes nothing.
pub open spec fn refreshed(
    records: Map<Seq<char>, RecordView>,
    key: Seq<char>,
    now: u64,
    fetched: FetchedView,
) -> Map<Seq<char>, RecordView> {
    match fetched {
        Ok(payload) => records.insert(key, written(payload, now)),
        Err(_) => records,
    }
}

/// How far a session gets on a store that holds `records`, with nobody
/// else writing to it: the step at which it either delivers or asks for a
/// fetch.
pub open spec fn consulted(
    records: Map<Seq<char>, RecordView>,
    key: Seq<char>,
    ttl: u64,
    now: u64,
) -> StepView {
    let probed = next(opening(ttl, now), EventView::Stamp(stamp_of(entry_at(records, key))));
    match probed {
        StepView::Next(session, RequestView::Read) => next(
            session,
            EventView::Entry(entry_at(records, key)),
        ),
        _ => probed,
    }
}

/// Obtains the current payload of `key` at time `now`: from `store` where
/// its entry is fresh, else from `fetcher`, whose payload is then
/// persisted with `now` before it is returned. A failure of the fetcher is
/// returned as it is, and the store stays as it was.
pub fn get<F>(store: &mut Store, key: &str, ttl: u64, now: u64, fetcher: F) -> (result: Result<
    DataStruct,
    FetchError,
>) where F: FnOnce(&str) -> Result<DataStruct, FetchError>
    requires
        call_requires(fetcher, (key,)),
    ensures
        cached(old(store)@, key@, ttl, now) matches Some(payload) ==> fetched_view(result) == Ok::<
            DataView,
            FetchErrorView,
        >(payload) && final(store)@ == old(store)@,
        cached(old(store)@, key@, ttl, now) is None ==> exists|
            fetched: Result<DataStruct, FetchError>,
        |
            call_ensures(fetcher, (key,), fetched) && fetched_view(result) == fetched_view(fetched)
                && final(store)@ == refreshed(old(store)@, key@, now, fetched_view(fetched)),
{
    let (session, _) = Session::start(ttl, now);
    let probed = session.step(Event::Stamp(store.stamp(key)));
    let consulted = match probed {
        Step::Next(session, Request::Read) => session.step(Event::Entry(store.read(key))),
        other => other,
    };
    match consulted {
        Step::Done(delivery) => delivery.result,
        Step::Next(session, _) => {
            let fetched = fetcher(key);
            let ghost outcome = fetched;
            match session.step(Event::Fetched(fetched)) {
                Step::Done(delivery) => delivery.result,
                Step::Next(session, Request::Write(entry)) => {
                    let done = store.write(key, entry.payload, entry.fetched_at);
                    match session.step(Event::Written(done)) {
                        Step::Done(delivery) => delivery.result,
                        Step::Next(_, _) => unreached(),
                    }
                },
                Step::Next(_, _) => unreached(),
            }
        },
    }
}

/// A session on an undisturbed store delivers the cached payload without
/// asking for a fetch, where there is one, and else asks for a fetch at
/// once.
pub proof fn cached_is_served(
    records: Map<Seq<char>, RecordView>,
    key: Seq<char>,
    ttl: u64,
    now: u64,
)
    ensures
        consulted(records, key, ttl, now) == match cached(records, key, ttl, now) {
            Some(payload) => StepView::Done(
                DeliveryView { result: Ok(payload), write_error: None },
            ),
            None => StepView::Next(
                moved(opening(ttl, now), PhaseView::Fetching),
                RequestView::Fetch,
            ),
        },
{
}

/// Of two requests for one key, the first of which had to fetch and got
/// `payload`, only the first asks for a fetch, and asks once: it goes on
/// to write the payload and delivers it. The second, made while the
/// written entry is fresh and with no write in between, delivers that
/// payload from the store.
pub proof fn repeated_request_fetches_once(
    records: Map<Seq<char>, RecordView>,
    key: Seq<char>,
    payload: DataView,
    ttl: u64,
    first: u64,
    second: u64,
)
    requires
        cached(records, key, ttl, first) is None,
        second <= first + ttl,
    ensures
        consulted(records, key, ttl, first) == StepView::Next(
            moved(opening(ttl, first), PhaseView::Fetching),
            RequestView::Fetch,
        ),
        next(
            moved(opening(ttl, first), PhaseView::Fetching),
            EventView::Fetched(Ok(payload)),
        ) == StepView::Next(
            moved(opening(ttl, first), PhaseView::Writing(payload)),
            RequestView::Write(EntryView { payload, fetched_at: first }),
        ),
        next(
            moved(opening(ttl, first), PhaseView::Writing(payload)),
            EventView::Written(Ok(())),
        ) == StepView::Done(DeliveryView { result: Ok(payload), write_error: None }),
        cached(refreshed(records, key, first, Ok(payload)), key, ttl, second) == Some(payload),
        consulted(refreshed(records, key, first, Ok(payload)), key, ttl, second) == StepView::Done(
            DeliveryView { result: Ok(payload), write_error: None },
        ),
{
}

/// A failed fetch ends the session with that failure and without a write,
/// and every key of the store reads as it did before.
pub proof fn failed_fetch_changes_nothing(
    records: Map<Seq<char>, RecordView>,
    key: Seq<char>,
    other: Seq<char>,
    ttl: u64,
    now: u64,
    failure: FetchErrorView,
)
    ensures
        next(
            moved(opening(ttl, now), PhaseView::Fetching),
            EventView::Fetched(Err(failure)),
        ) == StepView::Done(DeliveryView { result: Err(failure), write_error: None }),
        refreshed(records, key, now, Err(failure)) == records,
        entry_at(refreshed(records, key, now, Err(failure)), other) == entry_at(records, other),
{
}

/// A key whose record cannot be decoded is treated as a key that was
/// never written: the request goes to the remote source, and a fetched
/// payload leaves the same records behind.
pub proof fn undecodable_entry_is_as_none(
    records: Map<Seq<char>, RecordView>,
    key: Seq<char>,
    ttl: u64,
    now: u64,
    fetched: DataView,
)
    requires
        entry_at(records, key) is Err,
    ensures
        cached(records, key, ttl, now) == cached(records.remove(key), key, ttl, now),
        cached(records, key, ttl, now) is None,
        consulted(records, key, ttl, now) == consulted(records.remove(key), key, ttl, now),
        refreshed(records, key, now, Ok(fetched)) == refreshed(
            records.remove(key),
            key,
            now,
            Ok(fetched),
        ),
{
    assert(records.insert(key, written(fetched, now)) =~= records.remove(key).insert(
        key,
        written(fetched, now),
    ));
}

/// A request that replaces an entry records a later time than the entry
/// had: an entry is only replaced once it is stale.
pub proof fn replaced_entry_is_older(
    records: Map<Seq<char>, RecordView>,
    key: Seq<char>,
    ttl: u64,
    now: u64,
)
    requires
        entry_at(records, key) matches Ok(Some(_)),
        cached(records, key, ttl, now) is None,
    ensures
        entry_at(records, key) matches Ok(Some(entry)) && entry.fetched_at + ttl < now,
{
}

} // verus!
