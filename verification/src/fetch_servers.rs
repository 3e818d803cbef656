//! Tracking of the server-directory fetch stage.
//!
//! Moments in time are carried as milliseconds on a caller-chosen clock.

use vstd::prelude::*;

use crate::events::FetchServersState;
use crate::model::Server;

verus! {

/// The server-directory fetch: when it started and ended, and what it
/// produced.
#[derive(Debug)]
pub struct FetchServers {
    start: Option<u64>,
    end: Option<u64>,
    result: Option<Result<Vec<Server>, String>>,
}

impl FetchServers {
    /// When the fetch started, if it did.
    pub closed spec fn spec_start(&self) -> Option<u64> {
        self.start
    }

    /// When the fetch ended, if it did.
    pub closed spec fn spec_end(&self) -> Option<u64> {
        self.end
    }

    /// What the fetch produced, once it ended.
    pub closed spec fn spec_result(&self) -> Option<Result<Vec<Server>, String>> {
        self.result
    }

    /// A fetch that has not started.
    pub fn new() -> (r: FetchServers)
        ensures
            r.spec_start() is None,
            r.spec_end() is None,
            r.spec_result() is None,
    {
        FetchServers { start: None, end: None, result: None }
    }

    /// Applies a state change at the given moment: starting stamps the
    /// start time; success and failure stamp the end time and keep the
    /// outcome.
    pub fn apply_state(&mut self, state: FetchServersState, now_ms: u64)
        ensures
            state is Start ==> {
                &&& final(self).spec_start() == Some(now_ms)
                &&& final(self).spec_end() == old(self).spec_end()
                &&& final(self).spec_result() == old(self).spec_result()
            },
            state matches FetchServersState::Success(servers) ==> {
                &&& final(self).spec_start() == old(self).spec_start()
                &&& final(self).spec_end() == Some(now_ms)
                &&& final(self).spec_result() == Some(Result::<Vec<Server>, String>::Ok(servers))
            },
            state matches FetchServersState::Failed(e) ==> {
                &&& final(self).spec_start() == old(self).spec_start()
                &&& final(self).spec_end() == Some(now_ms)
                &&& final(self).spec_result() == Some(Result::<Vec<Server>, String>::Err(e))
            },
    {
        match state {
            FetchServersState::Start => {
                self.start = Some(now_ms);
            },
            FetchServersState::Success(servers) => {
                self.end = Some(now_ms);
                self.result = Some(Ok(servers));
            },
            FetchServersState::Failed(e) => {
                self.end = Some(now_ms);
                self.result = Some(Err(e));
            },
        }
    }
}

} // verus!
