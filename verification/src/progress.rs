//! A named piece of work with its status and its timing.
//!
//! Moments in time are carried as milliseconds on a caller-chosen clock;
//! the caller reads its clock and passes the current time in.

use vstd::prelude::*;

use crate::events::Status;

verus! {

/// One tracked stage: its display name, when it started and ended, and
/// where it stands.
#[derive(Debug)]
pub struct Progress<T> {
    name: &'static str,
    start: Option<u64>,
    end: Option<u64>,
    status: Status<T>,
}

impl<T> Progress<T> {
    /// The display name.
    pub closed spec fn spec_name(&self) -> &'static str {
        self.name
    }

    /// When the work started, if it did.
    pub closed spec fn spec_start(&self) -> Option<u64> {
        self.start
    }

    /// When the work ended, if it did.
    pub closed spec fn spec_end(&self) -> Option<u64> {
        self.end
    }

    /// Where the work stands.
    pub closed spec fn spec_status(&self) -> Status<T> {
        self.status
    }

    /// A pending piece of work with the given name.
    pub fn new(name: &'static str) -> (r: Progress<T>)
        ensures
            r.spec_name() == name,
            r.spec_start() is None,
            r.spec_end() is None,
            r.spec_status() is Pending,
    {
        Progress { name, start: None, end: None, status: Status::Pending }
    }

    /// The display name.
    pub fn name(&self) -> (r: &'static str)
        ensures
            r == self.spec_name(),
    {
        self.name
    }

    /// Applies a status change at the given moment: `Start` stamps the
    /// start time, `Success` and `Error` stamp the end time, and the
    /// status is kept either way.
    pub fn apply_status(&mut self, status: Status<T>, now_ms: u64)
        ensures
            final(self).spec_name() == old(self).spec_name(),
            final(self).spec_status() == status,
            final(self).spec_start() == if status is Start {
                Some(now_ms)
            } else {
                old(self).spec_start()
            },
            final(self).spec_end() == if status is Success || status is Error {
                Some(now_ms)
            } else {
                old(self).spec_end()
            },
    {
        let is_start = match &status {
            Status::Start => true,
            _ => false,
        };
        if is_start {
            self.start = Some(now_ms);
        }
        let is_over = match &status {
            Status::Success(_) => true,
            Status::Error(_) => true,
            _ => false,
        };
        if is_over {
            self.end = Some(now_ms);
        }
        self.status = status;
    }

    /// Where the work stands.
    pub fn status(&self) -> (r: &Status<T>)
        ensures
            *r == self.spec_status(),
    {
        &self.status
    }

    /// How long the work has run, in milliseconds: zero before it starts,
    /// the running time against `now_ms` while it runs, and the final
    /// span once it ended. A clock that moved backwards reads as zero.
    pub fn elapsed(&self, now_ms: u64) -> (r: u64)
        ensures
            self.spec_start() is None ==> r == 0,
            self.spec_start() matches Some(s) ==> {
                let e = if self.spec_end() is Some {
                    self.spec_end()->0
                } else {
                    now_ms
                };
                r == if e >= s {
                    e - s
                } else {
                    0
                }
            },
    {
        let s = match self.start {
            Some(s) => s,
            None => {
                return 0;
            },
        };
        let e = match self.end {
            Some(e) => e,
            None => now_ms,
        };
        if e >= s {
            e - s
        } else {
            0
        }
    }
}

} // verus!
