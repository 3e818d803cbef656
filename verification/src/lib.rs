//! A verified measurement engine for an internet speed test.
//!
//! The library holds the logic of a run — the candidate URLs and their
//! failover order, the latency-racing selection of a server, the
//! bounded-concurrency download and upload schedules, the zero-content
//! upload bodies and the byte accounting — each function with a contract
//! that Verus has checked. The HTTP transfers, the clock and the
//! concurrency live with the caller, which drives these state machines
//! and hands their decisions to the network.

pub mod counter;
pub mod download;
pub mod engine;
pub mod error;
pub mod events;
pub mod fetch;
pub mod fetch_config;
pub mod fetch_servers;
pub mod model;
pub mod progress;
pub mod samples;
pub mod select;
pub mod select_fastest_server;
pub mod speed_tester;
pub mod text;
pub mod upload;
pub mod upload_body;
pub mod urls;
