//! Core of a Notion synchronization client.
//!
//! The library builds the request that a sync operation sends to Notion's
//! REST API — mode resolution, payload, endpoint, verb and headers — and
//! normalizes the remote response (or its absence) into a result or a
//! descriptive error message. The surrounding transport performs the one
//! HTTP call and hands its outcome back to [`response::interpret_response`].
//!
//! A sync is single-shot: no retry, no backoff, and nothing makes it
//! idempotent — sending the same SubPage request twice creates two distinct
//! pages remotely. That is inherent to the remote API, not a defect here.

use vstd::prelude::*;
use vstd::string::*;

pub mod json;
pub mod net;
pub mod response;
pub mod request;
pub mod text;

verus! {

/// Returns the fixed greeting for `name`.
pub fn greet(name: &str) -> (r: String)
    ensures
        r@ == "Hello, "@ + name@ + "! You've been greeted from Rust!"@,
{
    let mut r = String::from_str("Hello, ");
    r.append(name);
    r.append("! You've been greeted from Rust!");
    r
}

} // verus!
