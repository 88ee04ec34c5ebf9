//! The stdio dispatch loop, as a state machine: the caller performs each
//! action (read a line, decode it, load from storage, write a response)
//! and feeds back what came of it as the next event.
use vstd::prelude::*;
use crate::domain::{Request, RunEntry, TUIMAN_VERSION};
use crate::error::{joined, ErrorChain};
use crate::ipc::{error_response, ok_response, BootstrapPayload, RpcResponse, RpcResult};
use crate::storage::{is_stable_name_sort, sort_requests_by_name};

verus! {

/// Whether a character has the Unicode `White_Space` property.
pub uninterp spec fn white_space(c: char) -> bool;

/// Relies on `char::is_whitespace`: the Unicode `White_Space` property of
/// the character.
#[verifier::external_body]
fn is_whitespace(c: char) -> (r: bool)
    ensures
        r == white_space(c),
{
    c.is_whitespace()
}

/// A line that is empty or holds only whitespace.
pub open spec fn is_blank_spec(line: Seq<char>) -> bool {
    forall|i: int| 0 <= i < line.len() ==> white_space(#[trigger] line[i])
}

/// Decides whether a line is blank and is to be skipped.
pub fn is_blank(line: &str) -> (r: bool)
    ensures
        r == is_blank_spec(line@),
{
    let n = line.unicode_len();
    let mut i: usize = 0;
    while i < n
        invariant
            n == line@.len(),
            i <= n,
            forall|k: int| 0 <= k < i ==> white_space(#[trigger] line@[k]),
        decreases n - i,
    {
        if !is_whitespace(line.get_char(i)) {
            return false;
        }
        i = i + 1;
    }
    true
}

/// How many of the lines are not blank.
pub open spec fn count_nonblank(lines: Seq<Seq<char>>) -> nat
    decreases lines.len(),
{
    if lines.len() == 0 {
        0
    } else {
        count_nonblank(lines.drop_last()) + if is_blank_spec(lines.last()) {
            0nat
        } else {
            1nat
        }
    }
}

/// The message of a response to a line that does not decode.
pub open spec fn invalid_request_message(detail: Seq<char>) -> Seq<char> {
    "invalid request: "@ + detail
}

/// The message of a response to a method nobody handles.
pub open spec fn unknown_method_message(method: Seq<char>) -> Seq<char> {
    "unknown method: "@ + method
}

/// The message of a response to a bootstrap that failed.
pub open spec fn bootstrap_failed_message(causes: Seq<Seq<char>>) -> Seq<char> {
    "bootstrap failed: "@ + joined(causes)
}

/// The handler a method name selects.
#[derive(Debug, Clone, Copy, PartialEq, Eq)]
pub enum Route {
    Ping,
    Bootstrap,
    Unknown,
}

/// Selects the handler by exact match on the method name.
pub fn route(method: &str) -> (r: Route)
    ensures
        r == Route::Ping <==> method@ == "ping"@,
        r == Route::Bootstrap <==> method@ == "bootstrap"@,
        r == Route::Unknown <==> method@ != "ping"@ && method@ != "bootstrap"@,
{
    proof {
        reveal_strlit("ping");
        reveal_strlit("bootstrap");
        assert("ping"@.len() != "bootstrap"@.len());
    }
    if text_eq(method, "ping") {
        Route::Ping
    } else if text_eq(method, "bootstrap") {
        Route::Bootstrap
    } else {
        Route::Unknown
    }
}

/// Decides whether two texts are equal.
fn text_eq(a: &str, b: &str) -> (r: bool)
    ensures
        r == (a@ == b@),
{
    let n = a.unicode_len();
    if n != b.unicode_len() {
        return false;
    }
    let mut i: usize = 0;
    while i < n
        invariant
            n == a@.len(),
            n == b@.len(),
            i <= n,
            forall|k: int| 0 <= k < i ==> a@[k] == b@[k],
        decreases n - i,
    {
        if a.get_char(i) != b.get_char(i) {
            return false;
        }
        i = i + 1;
    }
    assert(a@ =~= b@);
    true
}

/// The answer to a line that does not decode: id 0, since no caller id
/// can be recovered from it.
pub fn invalid_request_response(detail: &str) -> (r: RpcResponse)
    ensures
        r.wf(),
        r.is_failure(0, invalid_request_message(detail@)),
{
    error_response(0, String::from_str("invalid request: ").concat(detail))
}

/// The answer to `ping`: the backend's version.
pub fn ping_response(id: u64) -> (r: RpcResponse)
    ensures
        r.wf(),
        r.id == id,
        r.ok,
        r.result matches Some(RpcResult::Ping { version }) && version@ == TUIMAN_VERSION@,
{
    ok_response(id, RpcResult::Ping { version: String::from_str(TUIMAN_VERSION) })
}

/// The answer to a method nobody handles; it names the method.
pub fn unknown_method_response(id: u64, method: &str) -> (r: RpcResponse)
    ensures
        r.wf(),
        r.is_failure(id, unknown_method_message(method@)),
{
    error_response(id, String::from_str("unknown method: ").concat(method))
}

/// The answer to `bootstrap`, from the outcome of the aggregation.
pub fn bootstrap_response(id: u64, outcome: Result<BootstrapPayload, ErrorChain>) -> (r: RpcResponse)
    ensures
        r.wf(),
        r.id == id,
        match outcome {
            Ok(p) => r.ok && r.result == Some(RpcResult::Bootstrap(p)),
            Err(e) => r.is_failure(id, bootstrap_failed_message(e@)),
        },
{
    match outcome {
        Ok(p) => ok_response(id, RpcResult::Bootstrap(p)),
        Err(e) => error_response(id, String::from_str("bootstrap failed: ").concat(e.render().as_str())),
    }
}

/// Assembles the bootstrap payload from the two loads: the whole call fails
/// with the first failure, else the requests come sorted by name ignoring
/// case (stably) and the runs as loaded.
pub fn bootstrap_payload(
    requests: Result<Vec<Request>, ErrorChain>,
    runs: Result<Vec<RunEntry>, ErrorChain>,
) -> (r: Result<BootstrapPayload, ErrorChain>)
    ensures
        match (requests, runs) {
            (Err(e), _) => r == Err::<BootstrapPayload, ErrorChain>(e),
            (Ok(_), Err(e)) => r == Err::<BootstrapPayload, ErrorChain>(e),
            (Ok(q), Ok(h)) => r matches Ok(p) && is_stable_name_sort(q@, p.requests@) && p.runs@
                == h@,
        },
{
    match requests {
        Err(e) => Err(e),
        Ok(q) => match runs {
            Err(e) => Err(e),
            Ok(h) => Ok(BootstrapPayload { requests: sort_requests_by_name(q), runs: h }),
        },
    }
}

} // verus!

verus! {

/// Sorting no requests gives no requests: a bootstrap over an empty or
/// missing requests directory lists no requests.
pub proof fn lemma_no_requests_sort_empty(out: Seq<Request>)
    requires
        is_stable_name_sort(Seq::<Request>::empty(), out),
    ensures
        out.len() == 0,
{
}

} // verus!
