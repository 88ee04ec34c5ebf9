//! Wire shapes of the stdio protocol and the two response constructors.
use vstd::prelude::*;
use crate::domain::{Request, RunEntry};

verus! {

/// An arbitrary JSON value, carried through untouched.
#[verifier::external_type_specification]
#[verifier::external_body]
pub struct ExJsonValue(serde_json::Value);

/// One decoded caller request.
#[derive(Debug)]
pub struct RpcEnvelope {
    pub id: u64,
    pub method: String,
    pub params: serde_json::Value,
}

/// Everything the frontend needs to draw its first view.
#[derive(Debug, Clone, PartialEq, Eq)]
pub struct BootstrapPayload {
    pub requests: Vec<Request>,
    pub runs: Vec<RunEntry>,
}

/// The result a successful call carries.
#[derive(Debug, Clone, PartialEq, Eq)]
pub enum RpcResult {
    /// `{"version": ...}`, the answer to `ping`.
    Ping { version: String },
    /// The answer to `bootstrap`.
    Bootstrap(BootstrapPayload),
}

/// The answer to one envelope (or to one unreadable line, with id 0).
#[derive(Debug, Clone, PartialEq, Eq)]
pub struct RpcResponse {
    pub id: u64,
    pub ok: bool,
    pub result: Option<RpcResult>,
    pub error: Option<String>,
}

impl RpcResponse {
    /// Exactly one of `result` and `error` is present: `result` when `ok`,
    /// `error` otherwise.
    pub open spec fn wf(&self) -> bool {
        &&& self.ok <==> self.result is Some
        &&& self.ok <==> self.error is None
    }

    /// A failure response whose message is `msg`.
    pub open spec fn is_failure(&self, id: u64, msg: Seq<char>) -> bool {
        &&& self.id == id
        &&& !self.ok
        &&& self.result is None
        &&& self.error matches Some(e) && e@ == msg
    }
}

/// A successful response carrying `result`.
pub fn ok_response(id: u64, result: RpcResult) -> (r: RpcResponse)
    ensures
        r.wf(),
        r.id == id,
        r.ok,
        r.result == Some(result),
        r.error is None,
{
    RpcResponse { id, ok: true, result: Some(result), error: None }
}

/// A failed response carrying `message`.
pub fn error_response(id: u64, message: String) -> (r: RpcResponse)
    ensures
        r.wf(),
        r.is_failure(id, message@),
{
    RpcResponse { id, ok: false, result: None, error: Some(message) }
}

} // verus!
