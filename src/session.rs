//! The dispatch loop's decisions. The caller runs the loop: it performs
//! each `Action` and hands back what came of it as the next `Event`, so
//! that every line is answered before the next one is read.
use vstd::prelude::*;
use crate::domain::{AppPaths, Request, RunEntry, TUIMAN_VERSION};
use crate::error::ErrorChain;
use crate::ipc::{RpcEnvelope, RpcResponse, RpcResult};
use crate::server::{
    bootstrap_failed_message, bootstrap_payload, bootstrap_response, count_nonblank,
    invalid_request_response, invalid_request_message, is_blank, is_blank_spec, ping_response,
    route, unknown_method_message, unknown_method_response, Route,
};
use crate::storage::{is_stable_name_sort, RECENT_RUNS_LIMIT};

verus! {

/// Where the loop stands.
#[derive(Debug)]
pub enum Phase {
    /// Waiting for the next input line.
    Idle,
    /// A non-blank line is being decoded.
    Decoding,
    /// A bootstrap for call `id` is loading the saved requests.
    LoadingRequests { id: u64 },
    /// A bootstrap for call `id` has its requests and is loading the runs.
    LoadingRuns { id: u64, requests: Vec<Request> },
    /// A response is being written out.
    Writing,
    /// The input has ended.
    Closed,
}

/// What came of the last action.
#[derive(Debug)]
pub enum Event {
    /// A line was read from the input.
    LineRead(String),
    /// The input ended.
    InputClosed,
    /// The line decoded to an envelope, or failed to with this description.
    Decoded(Result<RpcEnvelope, String>),
    /// The saved requests, in load order, or why they could not be loaded.
    RequestsLoaded(Result<Vec<Request>, ErrorChain>),
    /// The recent runs, or why they could not be loaded.
    RunsLoaded(Result<Vec<RunEntry>, ErrorChain>),
    /// The response was written and flushed.
    Written,
}

/// What the caller is to do next.
#[derive(Debug)]
pub enum Action {
    /// Read the next input line.
    ReadLine,
    /// Decode this line as an envelope.
    Decode(String),
    /// Load the saved requests of this directory (none if it is missing).
    LoadRequests(String),
    /// Load at most this many of the most recent runs of this history file.
    LoadRuns(String, usize),
    /// Write this response as one line and flush it.
    Write(RpcResponse),
    /// Stop: the input has ended.
    Exit,
}

/// The loop's state: the paths it was started with, where it stands, and
/// (as ghost records) every line read so far and how many responses have
/// been written.
pub struct Session {
    paths: AppPaths,
    phase: Phase,
    lines: Ghost<Seq<Seq<char>>>,
    written: Ghost<nat>,
}

impl Session {
    pub closed spec fn paths(&self) -> AppPaths {
        self.paths
    }

    pub closed spec fn phase(&self) -> Phase {
        self.phase
    }

    /// Every line read so far.
    pub closed spec fn lines(&self) -> Seq<Seq<char>> {
        self.lines@
    }

    /// How many responses have been written so far.
    pub closed spec fn written(&self) -> nat {
        self.written@
    }

    /// While idle or closed every non-blank line has had its one response;
    /// in between, only the current line is still owed one.
    pub closed spec fn wf(&self) -> bool {
        match self.phase {
            Phase::Idle | Phase::Closed => self.written@ == count_nonblank(self.lines@),
            _ => self.written@ + 1 == count_nonblank(self.lines@),
        }
    }

    /// The events each phase waits for.
    pub open spec fn accepts_spec(&self, event: &Event) -> bool {
        match self.phase() {
            Phase::Idle => event is LineRead || event is InputClosed,
            Phase::Decoding => event is Decoded,
            Phase::LoadingRequests { .. } => event is RequestsLoaded,
            Phase::LoadingRuns { .. } => event is RunsLoaded,
            Phase::Writing => event is Written,
            Phase::Closed => false,
        }
    }

    /// A fresh loop, waiting for its first line.
    pub fn new(paths: AppPaths) -> (s: Session)
        ensures
            s.wf(),
            s.paths() == paths,
            s.phase() is Idle,
            s.lines() == Seq::<Seq<char>>::empty(),
            s.written() == 0,
    {
        Session { paths, phase: Phase::Idle, lines: Ghost(Seq::empty()), written: Ghost(0) }
    }

    /// Whether the loop waits for this event now.
    pub fn accepts(&self, event: &Event) -> (r: bool)
        ensures
            r == self.accepts_spec(event),
    {
        match self.phase {
            Phase::Idle => matches!(event, Event::LineRead(_) | Event::InputClosed),
            Phase::Decoding => matches!(event, Event::Decoded(_)),
            Phase::LoadingRequests { .. } => matches!(event, Event::RequestsLoaded(_)),
            Phase::LoadingRuns { .. } => matches!(event, Event::RunsLoaded(_)),
            Phase::Writing => matches!(event, Event::Written),
            Phase::Closed => false,
        }
    }

    /// Takes in one event and decides the next action.
    pub fn step(&mut self, event: Event) -> (a: Action)
        requires
            old(self).wf(),
            old(self).accepts_spec(&event),
        ensures
            final(self).wf(),
            final(self).paths() == old(self).paths(),
            a matches Action::Write(r) ==> r.wf() && final(self).phase() is Writing,
            a is ReadLine ==> final(self).phase() is Idle && final(self).written() == count_nonblank(
                final(self).lines(),
            ),
            match event {
                Event::LineRead(line) => {
                    &&& final(self).lines() == old(self).lines().push(line@)
                    &&& final(self).written() == old(self).written()
                    &&& if is_blank_spec(line@) {
                        a is ReadLine
                    } else {
                        a matches Action::Decode(l) && l@ == line@ && final(self).phase() is Decoding
                    }
                },
                Event::InputClosed => {
                    &&& a is Exit
                    &&& final(self).phase() is Closed
                    &&& final(self).lines() == old(self).lines()
                    &&& final(self).written() == old(self).written()
                },
                Event::Written => {
                    &&& a is ReadLine
                    &&& final(self).lines() == old(self).lines()
                    &&& final(self).written() == old(self).written() + 1
                },
                _ => {
                    &&& final(self).lines() == old(self).lines()
                    &&& final(self).written() == old(self).written()
                    &&& Self::handled(old(self).paths(), old(self).phase(), event, a, final(self).phase())
                },
            },
    {
        let mut phase = Phase::Writing;
        core::mem::swap(&mut phase, &mut self.phase);
        match event {
            Event::LineRead(line) => {
                proof {
                    assert(self.lines@.push(line@).drop_last() =~= self.lines@);
                }
                self.lines = Ghost(self.lines@.push(line@));
                if is_blank(line.as_str()) {
                    self.phase = Phase::Idle;
                    Action::ReadLine
                } else {
                    self.phase = Phase::Decoding;
                    Action::Decode(line)
                }
            },
            Event::InputClosed => {
                self.phase = Phase::Closed;
                Action::Exit
            },
            Event::Written => {
                self.written = Ghost(self.written@ + 1);
                self.phase = Phase::Idle;
                Action::ReadLine
            },
            Event::Decoded(Err(detail)) => Action::Write(invalid_request_response(detail.as_str())),
            Event::Decoded(Ok(envelope)) => match route(envelope.method.as_str()) {
                Route::Ping => Action::Write(ping_response(envelope.id)),
                Route::Bootstrap => {
                    self.phase = Phase::LoadingRequests { id: envelope.id };
                    Action::LoadRequests(self.paths.requests_dir.clone())
                },
                Route::Unknown => Action::Write(
                    unknown_method_response(envelope.id, envelope.method.as_str()),
                ),
            },
            Event::RequestsLoaded(loaded) => {
                let id = match phase {
                    Phase::LoadingRequests { id } => id,
                    _ => 0,
                };
                match loaded {
                    Err(e) => Action::Write(bootstrap_response(id, Err(e))),
                    Ok(requests) => {
                        self.phase = Phase::LoadingRuns { id, requests };
                        Action::LoadRuns(self.paths.history_db.clone(), RECENT_RUNS_LIMIT)
                    },
                }
            },
            Event::RunsLoaded(loaded) => {
                match phase {
                    Phase::LoadingRuns { id, requests } => Action::Write(
                        bootstrap_response(id, bootstrap_payload(Ok(requests), loaded)),
                    ),
                    _ => Action::Write(bootstrap_response(0, bootstrap_payload(Ok(Vec::new()), loaded))),
                }
            },
        }
    }

    /// What a decoded line or a finished load leads to, from the phase it
    /// arrived in.
    pub open spec fn handled(paths: AppPaths, before: Phase, event: Event, a: Action, after: Phase) -> bool {
        match event {
            Event::Decoded(Err(detail)) => writes_failure(a, 0, invalid_request_message(detail@)),
            Event::Decoded(Ok(env)) => {
                if env.method@ == "ping"@ {
                    writes_ping(a, env.id)
                } else if env.method@ == "bootstrap"@ {
                    &&& a matches Action::LoadRequests(dir) && dir@ == paths.requests_dir@
                    &&& after == Phase::LoadingRequests { id: env.id }
                } else {
                    writes_failure(a, env.id, unknown_method_message(env.method@))
                }
            },
            Event::RequestsLoaded(loaded) => match before {
                Phase::LoadingRequests { id } => match loaded {
                    Err(e) => writes_failure(a, id, bootstrap_failed_message(e@)),
                    Ok(q) => {
                        &&& a matches Action::LoadRuns(db, limit) && (db@ == paths.history_db@
                            && limit == RECENT_RUNS_LIMIT)
                        &&& after == Phase::LoadingRuns { id, requests: q }
                    },
                },
                _ => false,
            },
            Event::RunsLoaded(loaded) => match before {
                Phase::LoadingRuns { id, requests } => match loaded {
                    Err(e) => writes_failure(a, id, bootstrap_failed_message(e@)),
                    Ok(h) => writes_bootstrap(a, id, requests@, h@),
                },
                _ => false,
            },
            _ => true,
        }
    }
}

/// The action writes a failure response for call `id` with message `msg`.
pub open spec fn writes_failure(a: Action, id: u64, msg: Seq<char>) -> bool {
    a matches Action::Write(r) && r.is_failure(id, msg)
}

/// The action writes the answer to `ping` for call `id`: the version.
pub open spec fn writes_ping(a: Action, id: u64) -> bool {
    match a {
        Action::Write(r) => {
            &&& r.id == id
            &&& r.ok
            &&& r.result matches Some(RpcResult::Ping { version }) && version@ == TUIMAN_VERSION@
        },
        _ => false,
    }
}

/// The action writes a bootstrap payload for call `id`: the loaded
/// requests sorted by name ignoring case (stably), the runs as loaded.
pub open spec fn writes_bootstrap(a: Action, id: u64, requests: Seq<Request>, runs: Seq<RunEntry>) -> bool {
    match a {
        Action::Write(r) => {
            &&& r.id == id
            &&& r.ok
            &&& r.result matches Some(RpcResult::Bootstrap(p)) && (is_stable_name_sort(
                requests,
                p.requests@,
            ) && p.runs@ == runs)
        },
        _ => false,
    }
}

} // verus!
