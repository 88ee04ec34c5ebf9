use tuiman::domain::{default_paths, Request, RunEntry, TUIMAN_VERSION};
use tuiman::error::ErrorChain;
use tuiman::ipc::{error_response, ok_response, RpcEnvelope, RpcResponse, RpcResult};
use tuiman::server::{
    bootstrap_payload, bootstrap_response, invalid_request_response, is_blank, ping_response, route,
    unknown_method_response, Route,
};
use tuiman::session::{Action, Event, Session};

fn named(name: &str) -> Request {
    let mut r = Request::empty();
    r.name = name.to_string();
    r
}

fn run(id: i64) -> RunEntry {
    RunEntry {
        id,
        request_id: "r".to_string(),
        request_name: "n".to_string(),
        method: "GET".to_string(),
        url: "http://x".to_string(),
        status_code: 200,
        duration_ms: 5,
        error: String::new(),
        created_at: String::new(),
        request_snapshot: String::new(),
        response_body: String::new(),
    }
}

fn envelope(id: u64, method: &str) -> RpcEnvelope {
    RpcEnvelope { id, method: method.to_string(), params: serde_json::Value::Null }
}

fn exactly_one(r: &RpcResponse) {
    assert_eq!(r.ok, r.result.is_some());
    assert_eq!(r.ok, r.error.is_none());
}

fn session() -> Session {
    Session::new(default_paths("/home/ada"))
}

fn step(s: &mut Session, e: Event) -> Action {
    assert!(s.accepts(&e));
    s.step(e)
}

fn written(a: Action) -> RpcResponse {
    match a {
        Action::Write(r) => r,
        other => panic!("expected a write, got {:?}", other),
    }
}

#[test]
fn routes_by_exact_name() {
    assert_eq!(route("ping"), Route::Ping);
    assert_eq!(route("bootstrap"), Route::Bootstrap);
    assert_eq!(route("Ping"), Route::Unknown);
    assert_eq!(route("ping "), Route::Unknown);
    assert_eq!(route(""), Route::Unknown);
}

#[test]
fn blank_lines() {
    assert!(is_blank(""));
    assert!(is_blank("   \t  "));
    assert!(is_blank("\u{3000}"));
    assert!(!is_blank(" {} "));
}

#[test]
fn constructors_keep_one_of_result_and_error() {
    let ok = ok_response(4, RpcResult::Ping { version: "v".to_string() });
    exactly_one(&ok);
    assert_eq!(ok.id, 4);
    let err = error_response(5, "boom".to_string());
    exactly_one(&err);
    assert_eq!(err.error.as_deref(), Some("boom"));
}

#[test]
fn ping_reports_version() {
    let r = ping_response(7);
    exactly_one(&r);
    assert_eq!(r.id, 7);
    assert!(r.ok);
    assert_eq!(r.result, Some(RpcResult::Ping { version: TUIMAN_VERSION.to_string() }));
}

#[test]
fn unknown_method_is_named() {
    let r = unknown_method_response(9, "frobnicate");
    exactly_one(&r);
    assert_eq!(r.id, 9);
    assert!(!r.ok);
    assert_eq!(r.error.as_deref(), Some("unknown method: frobnicate"));
}

#[test]
fn malformed_line_answers_with_id_zero() {
    let r = invalid_request_response("expected value at line 1 column 1");
    exactly_one(&r);
    assert_eq!(r.id, 0);
    assert!(!r.ok);
    assert_eq!(r.error.as_deref(), Some("invalid request: expected value at line 1 column 1"));
}

#[test]
fn bootstrap_sorts_requests() {
    let p = bootstrap_payload(Ok(vec![named("Zeta"), named("alpha"), named("Beta")]), Ok(vec![run(2), run(1)]))
        .unwrap();
    let names: Vec<&str> = p.requests.iter().map(|r| r.name.as_str()).collect();
    assert_eq!(names, vec!["alpha", "Beta", "Zeta"]);
    assert_eq!(p.runs, vec![run(2), run(1)]);
}

#[test]
fn bootstrap_of_no_requests() {
    let p = bootstrap_payload(Ok(Vec::new()), Ok(Vec::new())).unwrap();
    assert!(p.requests.is_empty());
    assert!(p.runs.is_empty());
}

#[test]
fn bootstrap_fails_as_a_whole() {
    let e1 = ErrorChain::new("denied".to_string()).context("failed reading /r".to_string());
    let e2 = ErrorChain::new("bad db".to_string());
    assert_eq!(bootstrap_payload(Err(e1.clone()), Err(e2.clone())), Err(e1.clone()));
    assert_eq!(bootstrap_payload(Ok(vec![named("a")]), Err(e2.clone())), Err(e2));
    let r = bootstrap_response(3, Err(e1));
    exactly_one(&r);
    assert_eq!(r.id, 3);
    assert_eq!(r.error.as_deref(), Some("bootstrap failed: failed reading /r: denied"));
}

#[test]
fn blank_line_gets_no_response() {
    let mut s = session();
    assert!(matches!(step(&mut s, Event::LineRead("   ".to_string())), Action::ReadLine));
    assert!(matches!(step(&mut s, Event::LineRead(String::new())), Action::ReadLine));
    assert!(matches!(step(&mut s, Event::InputClosed), Action::Exit));
}

#[test]
fn scripted_lines_are_answered_in_order() {
    let mut s = session();
    // ping, then an unknown method, then a malformed line, then a bootstrap
    let a = step(&mut s, Event::LineRead("{\"id\":1,\"method\":\"ping\"}".to_string()));
    assert!(matches!(a, Action::Decode(ref l) if l == "{\"id\":1,\"method\":\"ping\"}"));
    assert!(!s.accepts(&Event::LineRead("x".to_string())));
    let r = written(step(&mut s, Event::Decoded(Ok(envelope(1, "ping")))));
    assert_eq!(r.id, 1);
    assert_eq!(r.result, Some(RpcResult::Ping { version: TUIMAN_VERSION.to_string() }));
    assert!(!s.accepts(&Event::LineRead("x".to_string())));
    assert!(matches!(step(&mut s, Event::Written), Action::ReadLine));

    assert!(matches!(step(&mut s, Event::LineRead("m".to_string())), Action::Decode(_)));
    let r = written(step(&mut s, Event::Decoded(Ok(envelope(2, "nope")))));
    assert_eq!(r.id, 2);
    assert_eq!(r.error.as_deref(), Some("unknown method: nope"));
    assert!(matches!(step(&mut s, Event::Written), Action::ReadLine));

    assert!(matches!(step(&mut s, Event::LineRead("not json".to_string())), Action::Decode(_)));
    let r = written(step(&mut s, Event::Decoded(Err("expected ident".to_string()))));
    assert_eq!(r.id, 0);
    assert!(!r.ok);
    assert_eq!(r.error.as_deref(), Some("invalid request: expected ident"));
    assert!(matches!(step(&mut s, Event::Written), Action::ReadLine));

    assert!(matches!(step(&mut s, Event::LineRead("b".to_string())), Action::Decode(_)));
    match step(&mut s, Event::Decoded(Ok(envelope(3, "bootstrap")))) {
        Action::LoadRequests(dir) => assert_eq!(dir, "/home/ada/.config/tuiman/requests"),
        other => panic!("unexpected {:?}", other),
    }
    match step(&mut s, Event::RequestsLoaded(Ok(vec![named("Zeta"), named("alpha"), named("Beta")]))) {
        Action::LoadRuns(db, limit) => {
            assert_eq!(db, "/home/ada/.local/state/tuiman/history.db");
            assert_eq!(limit, 200);
        }
        other => panic!("unexpected {:?}", other),
    }
    let r = written(step(&mut s, Event::RunsLoaded(Ok(vec![run(1)]))));
    exactly_one(&r);
    assert_eq!(r.id, 3);
    match r.result {
        Some(RpcResult::Bootstrap(p)) => {
            let names: Vec<&str> = p.requests.iter().map(|r| r.name.as_str()).collect();
            assert_eq!(names, vec!["alpha", "Beta", "Zeta"]);
            assert_eq!(p.runs, vec![run(1)]);
        }
        other => panic!("unexpected {:?}", other),
    }
    assert!(matches!(step(&mut s, Event::Written), Action::ReadLine));
    assert!(matches!(step(&mut s, Event::InputClosed), Action::Exit));
    assert!(!s.accepts(&Event::InputClosed));
}

#[test]
fn bootstrap_failure_in_session() {
    let mut s = session();
    step(&mut s, Event::LineRead("b".to_string()));
    step(&mut s, Event::Decoded(Ok(envelope(11, "bootstrap"))));
    let e = ErrorChain::new("permission denied".to_string()).context("failed reading /r".to_string());
    let r = written(step(&mut s, Event::RequestsLoaded(Err(e))));
    exactly_one(&r);
    assert_eq!(r.id, 11);
    assert_eq!(r.error.as_deref(), Some("bootstrap failed: failed reading /r: permission denied"));
    assert!(matches!(step(&mut s, Event::Written), Action::ReadLine));

    step(&mut s, Event::LineRead("b".to_string()));
    step(&mut s, Event::Decoded(Ok(envelope(12, "bootstrap"))));
    step(&mut s, Event::RequestsLoaded(Ok(Vec::new())));
    let r = written(step(&mut s, Event::RunsLoaded(Err(ErrorChain::new("db locked".to_string())))));
    assert_eq!(r.id, 12);
    assert_eq!(r.error.as_deref(), Some("bootstrap failed: db locked"));
}

#[test]
fn ping_ignores_params() {
    let mut s = session();
    step(&mut s, Event::LineRead("p".to_string()));
    let env = RpcEnvelope { id: 42, method: "ping".to_string(), params: serde_json::Value::Bool(true) };
    let r = written(step(&mut s, Event::Decoded(Ok(env))));
    assert_eq!(r.id, 42);
    assert!(r.ok);
}
