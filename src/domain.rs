//! Shared record types: saved requests, recorded runs and the process paths.
use vstd::prelude::*;

verus! {

/// Version string reported by the backend.
pub const TUIMAN_VERSION: &'static str = "0.1.0";

/// One saved HTTP call template.
#[derive(Debug, Clone, PartialEq, Eq)]
pub struct Request {
    pub id: String,
    pub name: String,
    pub method: String,
    pub url: String,
    pub header_key: String,
    pub header_value: String,
    pub body: String,
    pub auth_type: String,
    pub auth_secret_ref: String,
    pub auth_key_name: String,
    pub auth_location: String,
    pub auth_username: String,
    pub updated_at: String,
}

impl Request {
    /// A fresh request template: named "New Request", method GET, no auth,
    /// every other field empty.
    pub fn empty() -> (r: Request)
        ensures
            r.id@ == Seq::<char>::empty(),
            r.name@ == "New Request"@,
            r.method@ == "GET"@,
            r.url@ == Seq::<char>::empty(),
            r.header_key@ == Seq::<char>::empty(),
            r.header_value@ == Seq::<char>::empty(),
            r.body@ == Seq::<char>::empty(),
            r.auth_type@ == "none"@,
            r.auth_secret_ref@ == Seq::<char>::empty(),
            r.auth_key_name@ == Seq::<char>::empty(),
            r.auth_location@ == Seq::<char>::empty(),
            r.auth_username@ == Seq::<char>::empty(),
            r.updated_at@ == Seq::<char>::empty(),
    {
        Request {
            id: String::new(),
            name: String::from_str("New Request"),
            method: String::from_str("GET"),
            url: String::new(),
            header_key: String::new(),
            header_value: String::new(),
            body: String::new(),
            auth_type: String::from_str("none"),
            auth_secret_ref: String::new(),
            auth_key_name: String::new(),
            auth_location: String::new(),
            auth_username: String::new(),
            updated_at: String::new(),
        }
    }
}

/// One recorded execution of a request.
#[derive(Debug, Clone, PartialEq, Eq)]
pub struct RunEntry {
    pub id: i64,
    pub request_id: String,
    pub request_name: String,
    pub method: String,
    pub url: String,
    pub status_code: i64,
    pub duration_ms: i64,
    pub error: String,
    pub created_at: String,
    pub request_snapshot: String,
    pub response_body: String,
}

/// Filesystem locations the backend works with, fixed at startup.
#[derive(Debug, Clone, PartialEq, Eq)]
pub struct AppPaths {
    pub config_dir: String,
    pub state_dir: String,
    pub cache_dir: String,
    pub requests_dir: String,
    pub history_db: String,
}

/// The locations derived from a home directory.
pub open spec fn paths_under(home: Seq<char>, p: AppPaths) -> bool {
    &&& p.config_dir@ == home + "/.config/tuiman"@
    &&& p.state_dir@ == home + "/.local/state/tuiman"@
    &&& p.cache_dir@ == home + "/.cache/tuiman"@
    &&& p.requests_dir@ == p.config_dir@ + "/requests"@
    &&& p.history_db@ == p.state_dir@ + "/history.db"@
}

/// Derives every application path from the home directory.
pub fn default_paths(home: &str) -> (p: AppPaths)
    ensures
        paths_under(home@, p),
{
    let config_dir = String::from_str(home).concat("/.config/tuiman");
    let state_dir = String::from_str(home).concat("/.local/state/tuiman");
    let cache_dir = String::from_str(home).concat("/.cache/tuiman");
    let requests_dir = config_dir.clone().concat("/requests");
    let history_db = state_dir.clone().concat("/history.db");
    AppPaths { config_dir, state_dir, cache_dir, requests_dir, history_db }
}

} // verus!
