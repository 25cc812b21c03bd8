use cache_gate::gate::{is_fresh, Freshness};
use cache_gate::fetcher::FetchError;
use cache_gate::orchestrator::get;
use cache_gate::payload::{DataStruct, ResultStruct};
use cache_gate::store::{Artifact, CacheEntry, Record, StorageError, Store};
use std::cell::Cell;

fn token(minted: &str, max: &str) -> ResultStruct {
    ResultStruct {
        tick: "NACHO".to_string(),
        max: max.to_string(),
        lim: "100".to_string(),
        pre: "0".to_string(),
        to: "kaspa:qq".to_string(),
        dec: "8".to_string(),
        minted: minted.to_string(),
        opScoreAdd: "1".to_string(),
        opScoreMod: "2".to_string(),
        state: "deployed".to_string(),
        hashRev: "abc".to_string(),
        mtsAdd: "1700000000000".to_string(),
        holderTotal: Some("12".to_string()),
        transferTotal: None,
        mintTotal: Some("5".to_string()),
        holder: None,
    }
}

fn payload(minted: &str, max: &str) -> DataStruct {
    DataStruct { message: "successful".to_string(), result: vec![token(minted, max)] }
}

#[test]
fn first_request_fetches_and_persists() {
    let mut store = Store::new();
    let calls = Cell::new(0u32);
    let got = get(&mut store, "NACHO", 300, 1000, |key: &str| {
        calls.set(calls.get() + 1);
        assert_eq!(key, "NACHO");
        Ok(payload("500", "1000"))
    });
    assert_eq!(got, Ok(payload("500", "1000")));
    assert_eq!(calls.get(), 1);
    assert_eq!(
        store.read("NACHO"),
        Ok(Some(CacheEntry { payload: payload("500", "1000"), fetched_at: 1000 }))
    );
}

#[test]
fn fresh_entry_is_served_without_fetch() {
    let mut store = Store::new();
    assert_eq!(store.write("NACHO", payload("500", "1000"), 1000), Ok(()));
    let calls = Cell::new(0u32);
    let got = get(&mut store, "NACHO", 300, 1200, |_key: &str| {
        calls.set(calls.get() + 1);
        Ok(payload("999", "1000"))
    });
    assert_eq!(got, Ok(payload("500", "1000")));
    assert_eq!(calls.get(), 0);
    assert_eq!(
        store.read("NACHO"),
        Ok(Some(CacheEntry { payload: payload("500", "1000"), fetched_at: 1000 }))
    );
}

#[test]
fn stale_entry_refetches_and_failure_keeps_the_entry() {
    let mut store = Store::new();
    assert_eq!(store.write("NACHO", payload("500", "1000"), 1000), Ok(()));
    let calls = Cell::new(0u32);
    let got = get(&mut store, "NACHO", 300, 1400, |_key: &str| {
        calls.set(calls.get() + 1);
        Err(FetchError::Transport("connection reset".to_string()))
    });
    assert_eq!(got, Err(FetchError::Transport("connection reset".to_string())));
    assert_eq!(calls.get(), 1);
    assert_eq!(
        store.read("NACHO"),
        Ok(Some(CacheEntry { payload: payload("500", "1000"), fetched_at: 1000 }))
    );
}

#[test]
fn garbled_entry_behaves_as_no_entry() {
    let mut damaged = Store::new();
    damaged.install(
        "NACHO",
        Record { payload: Artifact::Garbled, stamp: Artifact::Intact(1000) },
    );
    assert_eq!(damaged.read("NACHO"), Err(StorageError::Undecodable));
    assert_eq!(is_fresh(&damaged, "NACHO", 300, 1000), Freshness::Absent);
    let mut empty = Store::new();
    let calls = Cell::new(0u32);
    let from_damaged = get(&mut damaged, "NACHO", 300, 1000, |_key: &str| {
        calls.set(calls.get() + 1);
        Ok(payload("500", "1000"))
    });
    let from_empty = get(&mut empty, "NACHO", 300, 1000, |_key: &str| {
        calls.set(calls.get() + 1);
        Ok(payload("500", "1000"))
    });
    assert_eq!(calls.get(), 2);
    assert_eq!(from_damaged, from_empty);
    assert_eq!(from_damaged, Ok(payload("500", "1000")));
    assert_eq!(damaged.read("NACHO"), empty.read("NACHO"));
    assert_eq!(
        damaged.read("NACHO"),
        Ok(Some(CacheEntry { payload: payload("500", "1000"), fetched_at: 1000 }))
    );
}
