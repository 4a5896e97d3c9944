//! The downloader's bookkeeping: how many fetches it started, and how many ended in
//! success or in error. Each change yields the snapshot to broadcast.
use vstd::prelude::*;

use crate::crawler::Response;

pub mod middleware;

verus! {

/// A snapshot of the downloader's counters.
#[derive(Clone, Copy, Debug, PartialEq, Eq, Structural)]
pub struct State {
    pub request_total: usize,
    pub request_success: usize,
    pub request_error: usize,
}

impl State {
    /// Every fetch that ended was started.
    pub open spec fn wf(self) -> bool {
        self.request_success + self.request_error <= self.request_total
    }

    /// Fetches started and not yet ended.
    pub open spec fn in_flight(self) -> int {
        self.request_total - self.request_success - self.request_error
    }
}

/// The downloader's counters; each only grows.
pub struct DownloaderInner {
    state: State,
}

impl DownloaderInner {
    pub closed spec fn view_state(self) -> State {
        self.state
    }

    /// All counters at zero.
    pub fn new() -> (r: Self)
        ensures
            r.view_state() == (State { request_total: 0, request_success: 0, request_error: 0 }),
    {
        DownloaderInner { state: State { request_total: 0, request_success: 0, request_error: 0 } }
    }

    /// The current snapshot.
    pub fn state(&self) -> (r: State)
        ensures
            r == self.view_state(),
    {
        self.state
    }

    /// Counts a fetch that starts; returns the new snapshot.
    pub fn increase_request_total(&mut self) -> (r: State)
        requires
            old(self).view_state().request_total < usize::MAX,
        ensures
            final(self).view_state() == (State {
                request_total: (old(self).view_state().request_total + 1) as usize,
                ..old(self).view_state()
            }),
            r == final(self).view_state(),
    {
        self.state.request_total = self.state.request_total + 1;
        self.state
    }

    /// Counts a fetch that succeeded; returns the new snapshot.
    pub fn increase_request_success(&mut self) -> (r: State)
        requires
            old(self).view_state().in_flight() > 0,
        ensures
            final(self).view_state() == (State {
                request_success: (old(self).view_state().request_success + 1) as usize,
                ..old(self).view_state()
            }),
            r == final(self).view_state(),
    {
        self.state.request_success = self.state.request_success + 1;
        self.state
    }

    /// Counts a fetch that failed; returns the new snapshot.
    pub fn increase_request_error(&mut self) -> (r: State)
        requires
            old(self).view_state().in_flight() > 0,
        ensures
            final(self).view_state() == (State {
                request_error: (old(self).view_state().request_error + 1) as usize,
                ..old(self).view_state()
            }),
            r == final(self).view_state(),
    {
        self.state.request_error = self.state.request_error + 1;
        self.state
    }

    /// Settles a started fetch: a response that arrived whole is counted a success
    /// and handed on to the parser; a transport or read failure is counted an error
    /// and the request is dropped. Returns the new snapshot and what to hand on.
    pub fn complete(&mut self, fetched: Option<Response>) -> (r: (State, Option<Response>))
        requires
            old(self).view_state().in_flight() > 0,
        ensures
            final(self).view_state() == (match fetched {
                Some(_) => State {
                    request_success: (old(self).view_state().request_success + 1) as usize,
                    ..old(self).view_state()
                },
                None => State {
                    request_error: (old(self).view_state().request_error + 1) as usize,
                    ..old(self).view_state()
                },
            }),
            r.0 == final(self).view_state(),
            r.1 == fetched,
    {
        match fetched {
            Some(res) => (self.increase_request_success(), Some(res)),
            None => (self.increase_request_error(), None),
        }
    }
}

} // verus!
