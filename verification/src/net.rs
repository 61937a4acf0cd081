//! The trusted boundary to reqwest, the HTTP crate the sync client is built
//! around. Only proxy parsing happens here: the transport itself (building
//! the client and awaiting the response) lives outside the library and hands
//! back an [`crate::response::HttpOutcome`].

use vstd::prelude::*;

verus! {

#[verifier::external_type_specification]
#[verifier::external_body]
pub struct ExProxy(reqwest::Proxy);

#[verifier::external_type_specification]
#[verifier::external_body]
pub struct ExReqwestError(reqwest::Error);

/// Relies on reqwest::Proxy::all: parses `url` into a proxy through which all
/// traffic is routed; returns `Err` when `url` cannot be read as a proxy
/// scheme.
#[verifier::external_body]
pub(crate) fn parse_proxy(url: &str) -> Result<reqwest::Proxy, reqwest::Error> {
    reqwest::Proxy::all(url)
}

/// Relies on reqwest::Error's Display implementation for a human-readable
/// description of the error.
#[verifier::external_body]
pub(crate) fn reqwest_error_text(error: &reqwest::Error) -> String {
    format!("{}", error)
}

} // verus!
