//! Backend core of a terminal HTTP client: a line-oriented JSON-RPC
//! dispatcher over stdio, together with the bootstrap aggregation that
//! assembles saved requests and recent runs for the frontend.
use vstd::prelude::*;

pub mod domain;
pub mod error;
pub mod http;
pub mod ipc;
pub mod keychain;
pub mod server;
pub mod session;
pub mod storage;
