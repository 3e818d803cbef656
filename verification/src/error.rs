//! The stage-level failures that abort a run.

use vstd::prelude::*;

verus! {

/// Which resource a failover fetch was after.
#[derive(Debug, Clone, Copy, PartialEq, Eq, Structural)]
pub enum FetchResource {
    Config,
    Servers,
}

/// A failure that aborts the whole run. Transfer-task failures are never
/// reported this way; they only lower the measured throughput.
#[derive(Debug, Clone, Copy, PartialEq, Eq, Structural)]
pub enum SpeedTestError {
    /// Every candidate URL for the named resource failed.
    FetchFailed { resource: FetchResource },
    /// The candidate server list was empty before racing.
    NoServers,
    /// Every server's aggregate probe delay reached the failure ceiling.
    AllServersFailed,
    /// The configuration was asked for before it was fetched.
    ConfigMissing,
    /// The server was asked for before one was selected.
    ServerMissing,
}

impl SpeedTestError {
    /// A short description of the failure.
    pub fn message(&self) -> (r: String)
        ensures
            self is FetchFailed && self->resource is Config ==> r@ == "all fetch config failed"@,
            self is FetchFailed && self->resource is Servers ==> r@ == "all fetch servers failed"@,
            self is NoServers ==> r@ == "no servers"@,
            self is AllServersFailed ==> r@ == "all servers failed"@,
            self is ConfigMissing ==> r@ == "config is empty. maybe call initialize first"@,
            self is ServerMissing ==> r@ == "server is empty. maybe call initialize first"@,
    {
        match self {
            SpeedTestError::FetchFailed { resource: FetchResource::Config } => String::from_str(
                "all fetch config failed",
            ),
            SpeedTestError::FetchFailed { resource: FetchResource::Servers } => String::from_str(
                "all fetch servers failed",
            ),
            SpeedTestError::NoServers => String::from_str("no servers"),
            SpeedTestError::AllServersFailed => String::from_str("all servers failed"),
            SpeedTestError::ConfigMissing => String::from_str(
                "config is empty. maybe call initialize first",
            ),
            SpeedTestError::ServerMissing => String::from_str(
                "server is empty. maybe call initialize first",
            ),
        }
    }
}

} // verus!
