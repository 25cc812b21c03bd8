//! Freshness-gated fetch-and-cache: decide, per key, whether a persisted
//! payload may be served again or must be fetched anew, and keep the store
//! in step with what was fetched.

#![allow(non_snake_case)]

pub mod banner;
pub mod clock;
pub mod command;
pub mod fetcher;
pub mod gate;
pub mod orchestrator;
pub mod payload;
pub mod store;
pub mod text;
pub mod wording;
