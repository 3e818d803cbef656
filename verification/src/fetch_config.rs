//! Tracking of the configuration-fetch stage.
//!
//! Moments in time are carried as milliseconds on a caller-chosen clock.

use vstd::prelude::*;

use crate::events::FetchConfigState;
use crate::model::Config;

verus! {

/// The configuration-fetch stage: when it started and ended, and what it
/// produced.
#[derive(Debug)]
pub struct FetchConfig {
    start: Option<u64>,
    end: Option<u64>,
    result: Option<FetchConfigResult>,
}

impl FetchConfig {
    /// When the fetch started, if it did.
    pub closed spec fn spec_start(&self) -> Option<u64> {
        self.start
    }

    /// When the fetch ended, if it did.
    pub closed spec fn spec_end(&self) -> Option<u64> {
        self.end
    }

    /// What the fetch produced, once it ended.
    pub closed spec fn spec_result(&self) -> Option<FetchConfigResult> {
        self.result
    }

    /// A fetch that has not started.
    pub fn new() -> (r: FetchConfig)
        ensures
            r.spec_start() is None,
            r.spec_end() is None,
            r.spec_result() is None,
    {
        FetchConfig { start: None, end: None, result: None }
    }

    /// Applies a state change at the given moment: starting stamps the
    /// start time; success and failure stamp the end time and keep the
    /// outcome.
    pub fn apply_state(&mut self, state: FetchConfigState, now_ms: u64)
        ensures
            state is Start ==> {
                &&& final(self).spec_start() == Some(now_ms)
                &&& final(self).spec_end() == old(self).spec_end()
                &&& final(self).spec_result() == old(self).spec_result()
            },
            state matches FetchConfigState::Success(v) ==> {
                &&& final(self).spec_start() == old(self).spec_start()
                &&& final(self).spec_end() == Some(now_ms)
                &&& final(self).spec_result() == Some(FetchConfigResult::Success(v))
            },
            state matches FetchConfigState::Failed(e) ==> {
                &&& final(self).spec_start() == old(self).spec_start()
                &&& final(self).spec_end() == Some(now_ms)
                &&& final(self).spec_result() == Some(FetchConfigResult::Error(e))
            },
    {
        match state {
            FetchConfigState::Start => {
                self.start = Some(now_ms);
            },
            FetchConfigState::Success(v) => {
                self.end = Some(now_ms);
                self.result = Some(FetchConfigResult::Success(v));
            },
            FetchConfigState::Failed(e) => {
                self.end = Some(now_ms);
                self.result = Some(FetchConfigResult::Error(e));
            },
        }
    }

    /// Whether the fetch has started.
    pub fn is_start(&self) -> (r: bool)
        ensures
            r == (self.spec_start() is Some),
    {
        self.start.is_some()
    }

    /// The outcome, once there is one.
    pub fn get_result(&self) -> (r: Option<&FetchConfigResult>)
        ensures
            self.spec_result() matches Some(v) ==> r matches Some(rv) && *rv == v,
            self.spec_result() is None ==> r is None,
    {
        self.result.as_ref()
    }

    /// How long the fetch has run, in milliseconds: zero before it starts,
    /// the running time against `now_ms` while it runs, and the final span
    /// once it ended. A clock that moved backwards reads as zero.
    pub fn elapsed(&self, now_ms: u64) -> (r: u64)
        ensures
            self.spec_start() is None ==> r == 0,
            self.spec_start() matches Some(s) ==> {
                let e = if self.spec_end() is Some {
                    self.spec_end()->0
                } else {
                    now_ms
                };
                r == if e >= s {
                    e - s
                } else {
                    0
                }
            },
    {
        let s = match self.start {
            Some(s) => s,
            None => {
                return 0;
            },
        };
        let e = match self.end {
            Some(e) => e,
            None => now_ms,
        };
        if e >= s {
            e - s
        } else {
            0
        }
    }
}

/// The client-facing slice of the configuration, as display text.
#[derive(Debug, Clone)]
pub struct SimpleConfig {
    pub client_ip: String,
    pub latitude: String,
    pub longitude: String,
    pub isp: String,
}

impl From<&Config> for SimpleConfig {
    /// The display slice of a configuration: the client's address,
    /// coordinates and provider.
    fn from(value: &Config) -> (r: SimpleConfig) {
        SimpleConfig {
            client_ip: value.client.ip.clone(),
            latitude: value.client.lat.clone(),
            longitude: value.client.lon.clone(),
            isp: value.client.isp.clone(),
        }
    }
}

impl vstd::std_specs::convert::FromSpecImpl<&Config> for SimpleConfig {
    open spec fn obeys_from_spec() -> bool {
        true
    }

    open spec fn from_spec(value: &Config) -> SimpleConfig {
        SimpleConfig {
            client_ip: value.client.ip,
            latitude: value.client.lat,
            longitude: value.client.lon,
            isp: value.client.isp,
        }
    }
}

/// What the configuration fetch ended with.
#[derive(Debug, Clone)]
pub enum FetchConfigResult {
    Success(SimpleConfig),
    Error(String),
}

} // verus!
