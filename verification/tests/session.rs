use cache_gate::fetcher::FetchError;
use cache_gate::orchestrator::{get, Delivery, Event, Request, Session, Step};
use cache_gate::payload::DataStruct;
use cache_gate::store::{Artifact, CacheEntry, Record, StorageError, Store};
use std::cell::Cell;

fn note(text: &str) -> DataStruct {
    DataStruct { message: text.to_string(), result: Vec::new() }
}

fn entry(text: &str, fetched_at: u64) -> CacheEntry {
    CacheEntry { payload: note(text), fetched_at }
}

fn go_on(step: Step) -> (Session, Request) {
    match step {
        Step::Next(session, request) => (session, request),
        Step::Done(delivery) => panic!("the session ended with {:?}", delivery),
    }
}

fn end(step: Step) -> Delivery {
    match step {
        Step::Done(delivery) => delivery,
        Step::Next(_, request) => panic!("the session went on with {:?}", request),
    }
}

fn fetching(ttl: u64, now: u64) -> Session {
    let (session, _) = Session::start(ttl, now);
    let (session, request) = go_on(session.step(Event::Stamp(Ok(None))));
    assert_eq!(request, Request::Fetch);
    session
}

#[test]
fn session_opens_with_a_probe() {
    let (_, request) = Session::start(300, 1000);
    assert_eq!(request, Request::Probe);
}

#[test]
fn fresh_stamp_leads_to_a_read_and_the_entry_is_delivered() {
    let (session, _) = Session::start(300, 1200);
    let (session, request) = go_on(session.step(Event::Stamp(Ok(Some(1000)))));
    assert_eq!(request, Request::Read);
    let delivery = end(session.step(Event::Entry(Ok(Some(entry("cached", 1000))))));
    assert_eq!(delivery, Delivery { result: Ok(note("cached")), write_error: None });
}

#[test]
fn stamp_at_the_limit_still_leads_to_a_read() {
    let (session, _) = Session::start(300, 1300);
    let (_, request) = go_on(session.step(Event::Stamp(Ok(Some(1000)))));
    assert_eq!(request, Request::Read);
}

#[test]
fn stale_stamp_leads_to_a_fetch() {
    let (session, _) = Session::start(300, 1301);
    let (_, request) = go_on(session.step(Event::Stamp(Ok(Some(1000)))));
    assert_eq!(request, Request::Fetch);
}

#[test]
fn missing_or_unreadable_stamp_leads_to_a_fetch() {
    for read in [Ok(None), Err(StorageError::Undecodable), Err(StorageError::Unavailable)] {
        let (session, _) = Session::start(300, 1000);
        let (_, request) = go_on(session.step(Event::Stamp(read)));
        assert_eq!(request, Request::Fetch);
    }
}

#[test]
fn entry_that_vanished_after_the_probe_leads_to_a_fetch() {
    for read in [Ok(None), Err(StorageError::Undecodable), Err(StorageError::Unavailable)] {
        let (session, _) = Session::start(300, 1000);
        let (session, request) = go_on(session.step(Event::Stamp(Ok(Some(1000)))));
        assert_eq!(request, Request::Read);
        let (_, request) = go_on(session.step(Event::Entry(read)));
        assert_eq!(request, Request::Fetch);
    }
}

#[test]
fn fetched_payload_is_written_with_the_time_of_the_request() {
    let session = fetching(300, 1400);
    let (session, request) = go_on(session.step(Event::Fetched(Ok(note("new")))));
    assert_eq!(request, Request::Write(entry("new", 1400)));
    let delivery = end(session.step(Event::Written(Ok(()))));
    assert_eq!(delivery, Delivery { result: Ok(note("new")), write_error: None });
}

#[test]
fn failed_write_still_delivers_the_payload() {
    for failure in [StorageError::Unavailable, StorageError::Undecodable] {
        let session = fetching(300, 1400);
        let (session, _) = go_on(session.step(Event::Fetched(Ok(note("new")))));
        let delivery = end(session.step(Event::Written(Err(failure))));
        assert_eq!(delivery, Delivery { result: Ok(note("new")), write_error: Some(failure) });
    }
}

#[test]
fn failed_fetch_is_delivered_without_a_write() {
    let session = fetching(300, 1400);
    let delivery = end(session.step(Event::Fetched(Err(FetchError::InvalidKey("none".to_string())))));
    assert_eq!(
        delivery,
        Delivery { result: Err(FetchError::InvalidKey("none".to_string())), write_error: None }
    );
    let session = fetching(300, 1400);
    let delivery = end(session.step(Event::Fetched(Err(FetchError::Transport("down".to_string())))));
    assert_eq!(
        delivery,
        Delivery { result: Err(FetchError::Transport("down".to_string())), write_error: None }
    );
}

#[test]
fn empty_payload_is_written_and_delivered_like_any_other() {
    let session = fetching(600, 50);
    let (session, request) = go_on(session.step(Event::Fetched(Ok(note("")))));
    assert_eq!(request, Request::Write(entry("", 50)));
    let delivery = end(session.step(Event::Written(Ok(()))));
    assert_eq!(delivery.result, Ok(note("")));
}

#[test]
fn event_out_of_turn_repeats_the_pending_request() {
    let (session, _) = Session::start(300, 1000);
    let (session, request) = go_on(session.step(Event::Written(Ok(()))));
    assert_eq!(request, Request::Probe);
    let (session, request) = go_on(session.step(Event::Fetched(Ok(note("early")))));
    assert_eq!(request, Request::Probe);
    let (session, request) = go_on(session.step(Event::Stamp(Ok(Some(1000)))));
    assert_eq!(request, Request::Read);
    let (session, request) = go_on(session.step(Event::Stamp(Ok(None))));
    assert_eq!(request, Request::Read);
    let (session, request) = go_on(session.step(Event::Entry(Ok(None))));
    assert_eq!(request, Request::Fetch);
    let (session, request) = go_on(session.step(Event::Entry(Ok(Some(entry("late", 1))))));
    assert_eq!(request, Request::Fetch);
    let (session, request) = go_on(session.step(Event::Fetched(Ok(note("new")))));
    assert_eq!(request, Request::Write(entry("new", 1000)));
    let (session, request) = go_on(session.step(Event::Fetched(Ok(note("other")))));
    assert_eq!(request, Request::Write(entry("new", 1000)));
    let delivery = end(session.step(Event::Written(Ok(()))));
    assert_eq!(delivery.result, Ok(note("new")));
}

#[test]
fn two_requests_in_succession_fetch_once() {
    let mut store = Store::new();
    let calls = Cell::new(0u32);
    let first = get(&mut store, "NACHO", u64::MAX, 1000, |_key: &str| {
        calls.set(calls.get() + 1);
        Ok(note("fetched"))
    });
    let second = get(&mut store, "NACHO", u64::MAX, 1000, |_key: &str| {
        calls.set(calls.get() + 1);
        Ok(note("fetched again"))
    });
    assert_eq!(calls.get(), 1);
    assert_eq!(first, Ok(note("fetched")));
    assert_eq!(second, Ok(note("fetched")));
    assert_eq!(store.read("NACHO"), Ok(Some(entry("fetched", 1000))));
}

#[test]
fn failed_fetch_leaves_every_key_as_it_was() {
    let mut store = Store::new();
    assert_eq!(store.write("OLD", note("old"), 10), Ok(()));
    store.install("HALF", Record { payload: Artifact::Intact(note("h")), stamp: Artifact::Missing });
    for key in ["OLD", "HALF", "NEW"] {
        let got = get(&mut store, key, 5, 1000, |_key: &str| {
            Err(FetchError::Transport("timeout".to_string()))
        });
        assert_eq!(got, Err(FetchError::Transport("timeout".to_string())));
        assert_eq!(store.read("OLD"), Ok(Some(entry("old", 10))));
        assert_eq!(store.read("HALF"), Err(StorageError::Undecodable));
        assert_eq!(store.read("NEW"), Ok(None));
    }
}

#[test]
fn refresh_replaces_the_stale_entry() {
    let mut store = Store::new();
    assert_eq!(store.write("NACHO", note("old"), 1000), Ok(()));
    let got = get(&mut store, "NACHO", 300, 1301, |key: &str| Ok(note(key)));
    assert_eq!(got, Ok(note("NACHO")));
    assert_eq!(store.read("NACHO"), Ok(Some(entry("NACHO", 1301))));
}

#[test]
fn requests_for_different_keys_do_not_meet() {
    let mut store = Store::new();
    let a = get(&mut store, "A", 300, 1000, |key: &str| Ok(note(key)));
    let b = get(&mut store, "B", 300, 1100, |key: &str| Ok(note(key)));
    assert_eq!(a, Ok(note("A")));
    assert_eq!(b, Ok(note("B")));
    assert_eq!(store.read("A"), Ok(Some(entry("A", 1000))));
    assert_eq!(store.read("B"), Ok(Some(entry("B", 1100))));
}

#[test]
fn invalid_key_is_reported_and_nothing_is_cached() {
    let mut store = Store::new();
    let got = get(&mut store, "NOPE", 300, 1000, |_key: &str| {
        Err(FetchError::InvalidKey("no such token".to_string()))
    });
    assert_eq!(got, Err(FetchError::InvalidKey("no such token".to_string())));
    assert_eq!(store.read("NOPE"), Ok(None));
}
