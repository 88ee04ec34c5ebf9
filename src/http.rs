//! Sending a saved request.
use vstd::prelude::*;
use crate::domain::Request;
use crate::error::ErrorChain;

verus! {

/// The outcome of one HTTP call; failures are carried in `error`.
#[derive(Debug, Clone, PartialEq, Eq)]
pub struct HttpResponse {
    pub status_code: i64,
    pub duration_ms: i64,
    pub body: String,
    pub error: String,
}

/// The outcome reported while no HTTP client is wired in.
pub open spec fn no_client_outcome(r: HttpResponse) -> bool {
    &&& r.status_code == 0
    &&& r.duration_ms == 0
    &&& r.body@ == Seq::<char>::empty()
    &&& r.error@ == "HTTP client not implemented yet in Rust backend"@
}

/// Sends a request. No HTTP client is wired in, so every call reports that
/// in the outcome's `error` rather than failing.
pub fn send_request(_request: &Request) -> (r: Result<HttpResponse, ErrorChain>)
    ensures
        r matches Ok(resp) && no_client_outcome(resp),
{
    Ok(
        HttpResponse {
            status_code: 0,
            duration_ms: 0,
            body: String::new(),
            error: String::from_str("HTTP client not implemented yet in Rust backend"),
        },
    )
}

} // verus!
