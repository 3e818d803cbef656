//! Failover over an ordered list of candidate URLs.
//!
//! Fetching the configuration and fetching the server directory follow the
//! same pattern: try each candidate URL in order and keep the first attempt
//! that yields a parseable success. The HTTP work itself happens outside the
//! library; this machine decides which URL to try next and what the failure
//! is once every candidate has been tried.

use vstd::prelude::*;

use crate::error::{FetchResource, SpeedTestError};

verus! {

/// Walks an ordered list of candidate URLs, front to back.
///
/// The caller asks for URLs with `next_url` and stops at the first attempt
/// that succeeds; when `next_url` runs dry the fetch as a whole has failed
/// and `fail` names the resource that could not be had.
#[derive(Debug)]
pub struct Fetcher {
    resource: FetchResource,
    urls: Vec<String>,
    next: usize,
}

impl Fetcher {
    /// The resource this fetch is after.
    pub closed spec fn spec_resource(&self) -> FetchResource {
        self.resource
    }

    /// The candidate URLs, in the order they are attempted.
    pub closed spec fn spec_urls(&self) -> Seq<String> {
        self.urls@
    }

    /// How many candidates have been handed out already.
    pub closed spec fn spec_next(&self) -> usize {
        self.next
    }

    /// A fetch over `urls`, none attempted yet.
    pub fn new(resource: FetchResource, urls: Vec<String>) -> (r: Fetcher)
        ensures
            r.spec_resource() == resource,
            r.spec_urls() == urls@,
            r.spec_next() == 0,
    {
        Fetcher { resource, urls, next: 0 }
    }

    /// The next candidate URL, in order; `None` once every candidate has
    /// been handed out.
    pub fn next_url(&mut self) -> (r: Option<String>)
        ensures
            final(self).spec_resource() == old(self).spec_resource(),
            final(self).spec_urls() == old(self).spec_urls(),
            old(self).spec_next() < old(self).spec_urls().len() ==> {
                &&& r == Some(old(self).spec_urls()[old(self).spec_next() as int])
                &&& final(self).spec_next() == old(self).spec_next() + 1
            },
            old(self).spec_next() >= old(self).spec_urls().len() ==> {
                &&& r is None
                &&& final(self).spec_next() == old(self).spec_next()
            },
    {
        if self.next < self.urls.len() {
            let url = self.urls[self.next].clone();
            self.next = self.next + 1;
            Some(url)
        } else {
            None
        }
    }

    /// Whether every candidate has been handed out.
    pub fn exhausted(&self) -> (r: bool)
        ensures
            r == (self.spec_next() >= self.spec_urls().len()),
    {
        self.next >= self.urls.len()
    }

    /// The failure of this fetch, for when every candidate was attempted
    /// and none succeeded.
    pub fn fail(&self) -> (r: SpeedTestError)
        ensures
            r == (SpeedTestError::FetchFailed { resource: self.spec_resource() }),
    {
        SpeedTestError::FetchFailed { resource: self.resource }
    }
}

} // verus!
