//! Tracking of the upload phase.
//!
//! Moments in time are carried as milliseconds on a caller-chosen clock.
//! The byte count lives in a shared atomic cell that the in-flight
//! transfer tasks add to; nothing can be said about the value it reads.

use vstd::prelude::*;

use std::sync::atomic::AtomicU64;
use std::sync::Arc;

use crate::events::UploadState;

verus! {

/// The upload phase: when it started and ended, and the shared cell its
/// workers count bytes into.
#[derive(Debug)]
pub struct Upload {
    start: Option<u64>,
    end: Option<u64>,
    uploaded: Arc<AtomicU64>,
}

impl Upload {
    /// When the phase started, if it did.
    pub closed spec fn spec_start(&self) -> Option<u64> {
        self.start
    }

    /// When the phase ended, if it did.
    pub closed spec fn spec_end(&self) -> Option<u64> {
        self.end
    }

    /// The shared byte cell.
    pub closed spec fn spec_uploaded(&self) -> Arc<AtomicU64> {
        self.uploaded
    }

    /// A phase that has not started, with a fresh byte cell.
    pub fn new() -> (r: Upload)
        ensures
            r.spec_start() is None,
            r.spec_end() is None,
    {
        Upload { start: None, end: None, uploaded: Arc::new(AtomicU64::new(0)) }
    }

    /// A handle on the shared byte cell, for the workers to add to.
    pub fn clone_uploaded(&self) -> Arc<AtomicU64> {
        self.uploaded.clone()
    }

    /// Applies a state change at the given moment: starting stamps the
    /// start time, finishing stamps the end time.
    pub fn apply_state(&mut self, state: UploadState, now_ms: u64)
        ensures
            final(self).spec_uploaded() == old(self).spec_uploaded(),
            state is Start ==> final(self).spec_start() == Some(now_ms) && final(self).spec_end()
                == old(self).spec_end(),
            state is Done ==> final(self).spec_end() == Some(now_ms) && final(self).spec_start()
                == old(self).spec_start(),
    {
        match state {
            UploadState::Start => {
                self.start = Some(now_ms);
            },
            UploadState::Done => {
                self.end = Some(now_ms);
            },
        }
    }
}

} // verus!
