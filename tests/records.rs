use tuiman::domain::{default_paths, Request, TUIMAN_VERSION};
use tuiman::error::ErrorChain;
use tuiman::http::send_request;
use tuiman::keychain::secret_from_output;
use tuiman::storage::{is_request_file_name, load_recent_runs, sort_requests_by_name, RECENT_RUNS_LIMIT};

fn named(id: &str, name: &str) -> Request {
    let mut r = Request::empty();
    r.id = id.to_string();
    r.name = name.to_string();
    r
}

fn names(rs: &[Request]) -> Vec<String> {
    rs.iter().map(|r| r.name.clone()).collect()
}

#[test]
fn empty_request_defaults() {
    let r = Request::empty();
    assert_eq!(r.name, "New Request");
    assert_eq!(r.method, "GET");
    assert_eq!(r.auth_type, "none");
    assert_eq!(r.id, "");
    assert_eq!(r.url, "");
    assert_eq!(r.body, "");
    assert_eq!(r.updated_at, "");
}

#[test]
fn paths_derive_from_home() {
    let p = default_paths("/home/ada");
    assert_eq!(p.config_dir, "/home/ada/.config/tuiman");
    assert_eq!(p.state_dir, "/home/ada/.local/state/tuiman");
    assert_eq!(p.cache_dir, "/home/ada/.cache/tuiman");
    assert_eq!(p.requests_dir, "/home/ada/.config/tuiman/requests");
    assert_eq!(p.history_db, "/home/ada/.local/state/tuiman/history.db");
}

#[test]
fn version_is_set() {
    assert_eq!(TUIMAN_VERSION, "0.1.0");
}

#[test]
fn sort_ignores_case() {
    let input = vec![named("1", "Zeta"), named("2", "alpha"), named("3", "Beta")];
    let out = sort_requests_by_name(input);
    assert_eq!(names(&out), vec!["alpha", "Beta", "Zeta"]);
}

#[test]
fn sort_keeps_load_order_of_equal_names() {
    let input = vec![named("1", "b"), named("2", "A"), named("3", "B"), named("4", "a")];
    let out = sort_requests_by_name(input);
    let ids: Vec<String> = out.iter().map(|r| r.id.clone()).collect();
    assert_eq!(ids, vec!["2", "4", "1", "3"]);
}

#[test]
fn sort_of_nothing_is_nothing() {
    assert!(sort_requests_by_name(Vec::new()).is_empty());
}

#[test]
fn sort_orders_prefix_first() {
    let input = vec![named("1", "Users list"), named("2", "users"), named("3", "")];
    let out = sort_requests_by_name(input);
    assert_eq!(names(&out), vec!["", "users", "Users list"]);
}

#[test]
fn request_file_names() {
    assert!(is_request_file_name("get-users.json"));
    assert!(is_request_file_name("a.json"));
    assert!(is_request_file_name("a..json"));
    assert!(!is_request_file_name(".json"));
    assert!(!is_request_file_name("json"));
    assert!(!is_request_file_name("a.txt"));
    assert!(!is_request_file_name("a.JSON"));
    assert!(!is_request_file_name("a.json.bak"));
    assert!(!is_request_file_name(""));
}

#[test]
fn recent_runs_are_empty() {
    let runs = load_recent_runs("/nowhere/history.db", RECENT_RUNS_LIMIT).unwrap();
    assert!(runs.is_empty());
    assert_eq!(RECENT_RUNS_LIMIT, 200);
}

#[test]
fn send_reports_missing_client() {
    let r = send_request(&Request::empty()).unwrap();
    assert_eq!(r.status_code, 0);
    assert_eq!(r.duration_ms, 0);
    assert_eq!(r.body, "");
    assert_eq!(r.error, "HTTP client not implemented yet in Rust backend");
}

#[test]
fn error_chain_renders_most_specific_last() {
    let e = ErrorChain::new("No such file or directory (os error 2)".to_string())
        .context("failed reading /tmp/requests".to_string());
    assert_eq!(e.render(), "failed reading /tmp/requests: No such file or directory (os error 2)");
    assert_eq!(ErrorChain::new("x".to_string()).render(), "x");
    assert_eq!(ErrorChain { causes: Vec::new() }.render(), "");
}

#[test]
fn secret_is_trimmed() {
    assert_eq!(secret_from_output("api", true, "  s3cret \n").unwrap(), "s3cret");
    assert_eq!(secret_from_output("api", true, "\n").unwrap(), "");
}

#[test]
fn missing_secret_names_reference() {
    let e = secret_from_output("api", false, "").unwrap_err();
    assert_eq!(e.render(), "keychain secret not found for api");
}
