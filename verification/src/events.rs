//! The states that the stages of a run report to the user interface.

use vstd::prelude::*;

use crate::fetch_config::SimpleConfig;
use crate::model::Server;

verus! {

/// Where one tracked piece of work stands.
#[derive(Debug, Clone)]
pub enum Status<T> {
    /// Not started yet.
    Pending,
    /// Started and still running.
    Start,
    /// Finished with this result.
    Success(T),
    /// Failed with this description.
    Error(String),
}

/// State changes of the configuration fetch.
#[derive(Debug, Clone)]
pub enum FetchConfigState {
    Start,
    Success(SimpleConfig),
    Failed(String),
}

/// State changes of the server-directory fetch.
#[derive(Debug, Clone)]
pub enum FetchServersState {
    Start,
    Success(Vec<Server>),
    Failed(String),
}

/// State changes of the server race.
#[derive(Debug, Clone)]
pub enum SelectFastestServerState {
    Start,
    Success(Server),
    Failed(String),
}

/// State changes of the download phase.
#[derive(Debug, Clone)]
pub enum DownloadState {
    Start,
    Done,
}

/// State changes of the upload phase.
#[derive(Debug, Clone)]
pub enum UploadState {
    Start,
    Done,
}

/// A state change of any stage of the run.
#[derive(Debug, Clone)]
pub enum State {
    FetchConfig(FetchConfigState),
    FetchServers(FetchServersState),
    SelectFastestServer(SelectFastestServerState),
    Download(DownloadState),
    Upload(UploadState),
}

/// An application-level event.
#[derive(Debug, Clone)]
pub enum AppEvent {
    /// Quit the application.
    Quit,
    SetState(State),
}

impl State {
    /// Whether this state reports the failure of a stage that aborts the
    /// run. The throughput phases have no failure state.
    pub fn is_error(&self) -> (r: bool)
        ensures
            r == (self matches State::FetchConfig(FetchConfigState::Failed(_)) || self matches State::FetchServers(
                FetchServersState::Failed(_),
            ) || self matches State::SelectFastestServer(SelectFastestServerState::Failed(_))),
    {
        match self {
            State::FetchConfig(FetchConfigState::Failed(_)) => true,
            State::FetchServers(FetchServersState::Failed(_)) => true,
            State::SelectFastestServer(SelectFastestServerState::Failed(_)) => true,
            _ => false,
        }
    }

    /// No state by itself marks the run as over.
    pub fn is_done(&self) -> (r: bool)
        ensures
            r == false,
    {
        false
    }
}

} // verus!
