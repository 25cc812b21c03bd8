//! The boundary to the remote source: where a key's payload is asked for,
//! and how a failure to get one is told apart.

use vstd::prelude::*;
use vstd::string::StringExecFns;
use crate::payload::{DataStruct, DataView};
use crate::text::{contains, occurs};

verus! {

/// Why the remote source gave no payload. Either way the cause is carried
/// along as the source worded it.
#[derive(Debug, PartialEq, Eq)]
pub enum FetchError {
    /// The source knows nothing under the key: the key is at fault.
    InvalidKey(String),
    /// The transport or the source failed: a later attempt may succeed.
    Transport(String),
}

pub enum FetchErrorView {
    InvalidKey(Seq<char>),
    Transport(Seq<char>),
}

impl View for FetchError {
    type V = FetchErrorView;

    open spec fn view(&self) -> FetchErrorView {
        match self {
            FetchError::InvalidKey(cause) => FetchErrorView::InvalidKey(cause@),
            FetchError::Transport(cause) => FetchErrorView::Transport(cause@),
        }
    }
}

/// What a fetch ended with, as a value of the model.
pub type FetchedView = Result<DataView, FetchErrorView>;

/// The view of what a fetch, or a whole `get`, ended with.
pub open spec fn fetched_view(fetched: Result<DataStruct, FetchError>) -> FetchedView {
    match fetched {
        Ok(payload) => Ok(payload@),
        Err(e) => Err(e@),
    }
}

/// The words by which the remote source's answer to an unknown key shows
/// in a failure's cause: the answer holds no list of results.
pub open spec fn unknown_key_mark() -> Seq<char> {
    "invalid type: null, expected a sequence"@
}

/// The failure that a cause stands for: an invalid key where the cause
/// holds the mark of an unknown key, else a failure of the transport.
pub open spec fn failure_of(cause: Seq<char>) -> FetchErrorView {
    if occurs(cause, unknown_key_mark()) {
        FetchErrorView::InvalidKey(cause)
    } else {
        FetchErrorView::Transport(cause)
    }
}

impl FetchError {
    /// Tells a failure by its cause, as the remote source or the transport
    /// worded it.
    pub fn from_cause(cause: String) -> (failure: FetchError)
        ensures
            failure@ == failure_of(cause@),
    {
        if contains(cause.as_str(), "invalid type: null, expected a sequence") {
            FetchError::InvalidKey(cause)
        } else {
            FetchError::Transport(cause)
        }
    }
}

/// The address at which the remote source answers for a token: its state
/// with the totals and the holders.
pub fn token_url(api_base_url: &str, token: &str) -> (url: String)
    ensures
        url@ == api_base_url@ + "/token/"@ + token@ + "?stat=true&holder=true"@,
{
    let mut url = String::from_str(api_base_url);
    url.append("/token/");
    url.append(token);
    url.append("?stat=true&holder=true");
    url
}

/// The address at which the remote source answers for a wallet: the list
/// of its token balances.
pub fn holder_url(api_base_url: &str, address: &str) -> (url: String)
    ensures
        url@ == api_base_url@ + "/address/"@ + address@ + "/tokenlist"@,
{
    let mut url = String::from_str(api_base_url);
    url.append("/address/");
    url.append(address);
    url.append("/tokenlist");
    url
}

} // verus!
