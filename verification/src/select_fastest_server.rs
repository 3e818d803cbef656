//! Tracking of the server-race stage.
//!
//! Moments in time are carried as milliseconds on a caller-chosen clock.

use vstd::prelude::*;

use crate::events::SelectFastestServerState;
use crate::model::{Config, Server};

verus! {

/// The server race: when it started and ended, and what it produced.
#[derive(Debug)]
pub struct SelectFastestServer {
    start: Option<u64>,
    end: Option<u64>,
    result: Option<Result<Server, String>>,
}

impl SelectFastestServer {
    /// When the race started, if it did.
    pub closed spec fn spec_start(&self) -> Option<u64> {
        self.start
    }

    /// When the race ended, if it did.
    pub closed spec fn spec_end(&self) -> Option<u64> {
        self.end
    }

    /// What the race produced, once it ended.
    pub closed spec fn spec_result(&self) -> Option<Result<Server, String>> {
        self.result
    }

    /// A race that has not started.
    pub fn new() -> (r: SelectFastestServer)
        ensures
            r.spec_start() is None,
            r.spec_end() is None,
            r.spec_result() is None,
    {
        SelectFastestServer { start: None, end: None, result: None }
    }

    /// Applies a state change at the given moment: starting stamps the
    /// start time; success and failure stamp the end time and keep the
    /// outcome.
    pub fn apply_state(&mut self, state: SelectFastestServerState, now_ms: u64)
        ensures
            state is Start ==> {
                &&& final(self).spec_start() == Some(now_ms)
                &&& final(self).spec_end() == old(self).spec_end()
                &&& final(self).spec_result() == old(self).spec_result()
            },
            state matches SelectFastestServerState::Success(server) ==> {
                &&& final(self).spec_start() == old(self).spec_start()
                &&& final(self).spec_end() == Some(now_ms)
                &&& final(self).spec_result() == Some(Result::<Server, String>::Ok(server))
            },
            state matches SelectFastestServerState::Failed(e) ==> {
                &&& final(self).spec_start() == old(self).spec_start()
                &&& final(self).spec_end() == Some(now_ms)
                &&& final(self).spec_result() == Some(Result::<Server, String>::Err(e))
            },
    {
        match state {
            SelectFastestServerState::Start => {
                self.start = Some(now_ms);
            },
            SelectFastestServerState::Success(server) => {
                self.end = Some(now_ms);
                self.result = Some(Ok(server));
            },
            SelectFastestServerState::Failed(e) => {
                self.end = Some(now_ms);
                self.result = Some(Err(e));
            },
        }
    }
}

/// The client-facing slice of the configuration, as display text.
#[derive(Debug, Clone)]
pub struct SimpleConfig {
    pub client_ip: String,
    pub latitude: String,
    pub longitude: String,
    pub isp: String,
}

impl From<&Config> for SimpleConfig {
    /// The display slice of a configuration: the client's address,
    /// coordinates and provider.
    fn from(value: &Config) -> (r: SimpleConfig) {
        SimpleConfig {
            client_ip: value.client.ip.clone(),
            latitude: value.client.lat.clone(),
            longitude: value.client.lon.clone(),
            isp: value.client.isp.clone(),
        }
    }
}

impl vstd::std_specs::convert::FromSpecImpl<&Config> for SimpleConfig {
    open spec fn obeys_from_spec() -> bool {
        true
    }

    open spec fn from_spec(value: &Config) -> SimpleConfig {
        SimpleConfig {
            client_ip: value.client.ip,
            latitude: value.client.lat,
            longitude: value.client.lon,
            isp: value.client.isp,
        }
    }
}

} // verus!
