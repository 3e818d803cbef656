//! The test driver's state: fixed probing parameters, the fetched
//! configuration and the selected server, and the decisions of a run.
//!
//! All HTTP traffic happens outside the library. The tester hands the
//! driver the candidate URLs, the probing parameters and the race and
//! phase machines, and keeps the configuration and the chosen server once
//! the driver has fetched them.

use vstd::prelude::*;

use crate::error::{FetchResource, SpeedTestError};
use crate::fetch::Fetcher;
use crate::model::{Config, Server};
use crate::select::{ProbeState, SelectionRace};
use crate::text::{contains_string, spec_split_commas, spec_views};
use crate::upload_body::ZeroStream;
use crate::urls::SpeedTestUrl;

verus! {

/// The stages of one run, in order. A failure at any stage before the
/// throughput phases aborts the run; the two throughput phases themselves
/// have no phase-level failure.
#[derive(Debug, Clone, Copy, PartialEq, Eq, Structural)]
pub enum RunStage {
    FetchConfig,
    FetchServers,
    SelectServer,
    Download,
    Upload,
    Done,
    Aborted,
}

impl RunStage {
    /// The first stage of a run.
    pub fn start() -> (r: RunStage)
        ensures
            r is FetchConfig,
    {
        RunStage::FetchConfig
    }

    /// The stage after this one. `ok` says whether the stage's work
    /// succeeded; the download and upload phases cannot fail, and a run
    /// that is over stays where it is.
    pub fn advance(self, ok: bool) -> (r: RunStage)
        ensures
            self is FetchConfig && ok ==> r is FetchServers,
            self is FetchServers && ok ==> r is SelectServer,
            self is SelectServer && ok ==> r is Download,
            (self is FetchConfig || self is FetchServers || self is SelectServer) && !ok
                ==> r is Aborted,
            self is Download ==> r is Upload,
            self is Upload ==> r is Done,
            self is Done ==> r is Done,
            self is Aborted ==> r is Aborted,
    {
        match self {
            RunStage::FetchConfig => if ok {
                RunStage::FetchServers
            } else {
                RunStage::Aborted
            },
            RunStage::FetchServers => if ok {
                RunStage::SelectServer
            } else {
                RunStage::Aborted
            },
            RunStage::SelectServer => if ok {
                RunStage::Download
            } else {
                RunStage::Aborted
            },
            RunStage::Download => RunStage::Upload,
            RunStage::Upload => RunStage::Done,
            RunStage::Done => RunStage::Done,
            RunStage::Aborted => RunStage::Aborted,
        }
    }
}

/// Removes every server whose id equals one of the given ids, keeping the
/// order of the rest.
pub fn retain_not_ignored(servers: &mut Vec<Server>, ids: &Vec<String>)
    ensures
        final(servers)@ == old(servers)@.filter(
            |s: Server| !spec_views(ids@).contains(s.id@),
        ),
{
    let ghost orig = servers@;
    let ghost pred = |s: Server| !spec_views(ids@).contains(s.id@);
    let ghost mut processed: int = 0;
    let mut i: usize = 0;
    proof {
        reveal(Seq::filter);
        assert(orig.take(0).filter(pred) =~= Seq::<Server>::empty());
    }
    while i < servers.len()
        invariant
            0 <= processed <= orig.len(),
            i as int == orig.take(processed).filter(pred).len(),
            servers@ == orig.take(processed).filter(pred) + orig.skip(processed),
            pred == (|s: Server| !spec_views(ids@).contains(s.id@)),
        decreases orig.len() - processed,
    {
        proof {
            assert(servers@[i as int] == orig.skip(processed)[0]);
            assert(orig.skip(processed)[0] == orig[processed]);
            assert(orig.take(processed + 1) =~= orig.take(processed).push(orig[processed]));
        }
        let ignored = contains_string(ids, &servers[i].id);
        proof {
            if ignored {
                let k = choose|k: int|
                    0 <= k < ids@.len() && (#[trigger] ids@[k])@ == orig[processed].id@;
                assert(spec_views(ids@)[k] == ids@[k]@);
                assert(spec_views(ids@).contains(orig[processed].id@));
                assert(!pred(orig[processed]));
            } else {
                assert forall|k: int|
                    0 <= k < spec_views(ids@).len() implies #[trigger] spec_views(ids@)[k]
                    != orig[processed].id@ by {
                    assert(spec_views(ids@)[k] == ids@[k]@);
                }
                assert(pred(orig[processed]));
            }
        }
        if ignored {
            servers.remove(i);
            proof {
                reveal(Seq::filter);
                let t1 = orig.take(processed + 1);
                assert(t1.drop_last() =~= orig.take(processed));
                assert(t1.last() == orig[processed]);
                assert(t1.filter(pred) =~= orig.take(processed).filter(pred));
                processed = processed + 1;
                assert(servers@ =~= orig.take(processed).filter(pred) + orig.skip(processed));
            }
        } else {
            proof {
                reveal(Seq::filter);
                let t1 = orig.take(processed + 1);
                assert(t1.drop_last() =~= orig.take(processed));
                assert(t1.last() == orig[processed]);
                assert(t1.filter(pred) =~= orig.take(processed).filter(pred).push(
                    orig[processed],
                ));
                processed = processed + 1;
                assert(servers@ =~= orig.take(processed).filter(pred) + orig.skip(processed));
            }
            i = i + 1;
        }
    }
    proof {
        assert(orig.take(processed) =~= orig);
        assert(orig.skip(processed) =~= Seq::<Server>::empty());
        assert(servers@ =~= orig.filter(pred));
    }
}

/// The state of one speed test.
#[derive(Debug)]
pub struct SpeedTester {
    urls: SpeedTestUrl,
    request_timeout_ms: u64,
    compare_times: usize,
    compare_interval_ms: u64,
    config: Option<Config>,
    server: Option<Server>,
}

impl SpeedTester {
    /// The URL builder the tester fetches through.
    pub closed spec fn spec_urls(&self) -> SpeedTestUrl {
        self.urls
    }

    /// The per-request timeout, in milliseconds, applied to every HTTP
    /// call the driver makes.
    pub closed spec fn spec_request_timeout_ms(&self) -> u64 {
        self.request_timeout_ms
    }

    /// How many probe rounds each server runs.
    pub closed spec fn spec_compare_times(&self) -> usize {
        self.compare_times
    }

    /// The sleep between probe rounds, in milliseconds.
    pub closed spec fn spec_compare_interval_ms(&self) -> u64 {
        self.compare_interval_ms
    }

    /// The fetched configuration, once there is one.
    pub closed spec fn spec_config(&self) -> Option<Config> {
        self.config
    }

    /// The selected server, once there is one.
    pub closed spec fn spec_server(&self) -> Option<Server> {
        self.server
    }

    /// A tester with the default parameters: a ten-second per-request
    /// timeout, three probe rounds per server with 200 ms between rounds,
    /// plain-HTTP URLs, and nothing fetched yet.
    pub fn new() -> (r: SpeedTester)
        ensures
            !r.spec_urls().spec_use_tls(),
            r.spec_urls().spec_threads() == 0,
            r.spec_request_timeout_ms() == 10000,
            r.spec_compare_times() == 3,
            r.spec_compare_interval_ms() == 200,
            r.spec_config() is None,
            r.spec_server() is None,
    {
        SpeedTester {
            urls: SpeedTestUrl::new(),
            request_timeout_ms: 10000,
            compare_times: 3,
            compare_interval_ms: 200,
            config: None,
            server: None,
        }
    }

    /// The per-request timeout, in milliseconds.
    pub fn request_timeout_ms(&self) -> (r: u64)
        ensures
            r == self.spec_request_timeout_ms(),
    {
        self.request_timeout_ms
    }

    /// How many probe rounds each server runs.
    pub fn compare_times(&self) -> (r: usize)
        ensures
            r == self.spec_compare_times(),
    {
        self.compare_times
    }

    /// The sleep between probe rounds, in milliseconds.
    pub fn compare_interval_ms(&self) -> (r: u64)
        ensures
            r == self.spec_compare_interval_ms(),
    {
        self.compare_interval_ms
    }

    /// The failover walk over the configuration URLs.
    pub fn config_fetcher(&self) -> (r: Fetcher)
        ensures
            r.spec_resource() is Config,
            r.spec_next() == 0,
            r.spec_urls().len() == 2,
            r.spec_urls()[0]@ == crate::urls::spec_config_url(
                self.spec_urls().spec_use_tls(),
                crate::urls::SpeedTestHost::Main,
            ),
            r.spec_urls()[1]@ == crate::urls::spec_config_url(
                self.spec_urls().spec_use_tls(),
                crate::urls::SpeedTestHost::Backup,
            ),
    {
        Fetcher::new(FetchResource::Config, self.urls.config_urls())
    }

    /// The failover walk over the server-directory URLs, with the given
    /// `threads` value appended to each as a query parameter.
    pub fn servers_fetcher(&self, threads: usize) -> (r: Fetcher)
        ensures
            r.spec_resource() is Servers,
            r.spec_next() == 0,
            r.spec_urls().len() == 4,
            forall|i: int|
                0 <= i < 4 ==> (#[trigger] r.spec_urls()[i])@ == crate::urls::spec_server_url(
                    self.spec_urls().spec_use_tls(),
                    threads as nat,
                    if i < 2 {
                        crate::urls::SpeedTestHost::Main
                    } else {
                        crate::urls::SpeedTestHost::Backup
                    },
                    if i % 2 == 0 {
                        crate::urls::SpeedTestPath::Server
                    } else {
                        crate::urls::SpeedTestPath::ServerStatic
                    },
                ),
    {
        let urls = self.urls.clone().threads(threads).server_urls();
        Fetcher::new(FetchResource::Servers, urls)
    }

    /// Keeps the fetched configuration for the rest of the run.
    pub fn set_config(&mut self, config: Config)
        ensures
            final(self).spec_config() == Some(config),
            final(self).spec_server() == old(self).spec_server(),
            final(self).spec_urls() == old(self).spec_urls(),
            final(self).spec_request_timeout_ms() == old(self).spec_request_timeout_ms(),
            final(self).spec_compare_times() == old(self).spec_compare_times(),
            final(self).spec_compare_interval_ms() == old(self).spec_compare_interval_ms(),
    {
        self.config = Some(config);
    }

    /// Keeps the selected server for the rest of the run.
    pub fn set_server(&mut self, server: Server)
        ensures
            final(self).spec_server() == Some(server),
            final(self).spec_config() == old(self).spec_config(),
            final(self).spec_urls() == old(self).spec_urls(),
            final(self).spec_request_timeout_ms() == old(self).spec_request_timeout_ms(),
            final(self).spec_compare_times() == old(self).spec_compare_times(),
            final(self).spec_compare_interval_ms() == old(self).spec_compare_interval_ms(),
    {
        self.server = Some(server);
    }

    /// Whether both the configuration and a server are in hand.
    pub fn is_initialized(&self) -> (r: bool)
        ensures
            r == (self.spec_config() is Some && self.spec_server() is Some),
    {
        self.config.is_some() && self.server.is_some()
    }

    /// The fetched configuration, or the failure that says it was never
    /// fetched.
    pub fn get_config(&self) -> (r: Result<&Config, SpeedTestError>)
        ensures
            self.spec_config() matches Some(c) ==> r matches Ok(rc) && *rc == c,
            self.spec_config() is None ==> r == Err::<&Config, SpeedTestError>(
                SpeedTestError::ConfigMissing,
            ),
    {
        match &self.config {
            Some(c) => Ok(c),
            None => Err(SpeedTestError::ConfigMissing),
        }
    }

    /// The selected server, or the failure that says none was selected.
    pub fn get_server(&self) -> (r: Result<&Server, SpeedTestError>)
        ensures
            self.spec_server() matches Some(s) ==> r matches Ok(rs) && *rs == s,
            self.spec_server() is None ==> r == Err::<&Server, SpeedTestError>(
                SpeedTestError::ServerMissing,
            ),
    {
        match &self.server {
            Some(s) => Ok(s),
            None => Err(SpeedTestError::ServerMissing),
        }
    }

    /// Drops every server whose id stands in the configuration's ignore
    /// list, keeping the order of the rest. The kept servers are exactly
    /// those whose id is not among the comma-separated entries of that
    /// list.
    pub fn filter_ignored_servers(&self, servers: &mut Vec<Server>, config: &Config)
        ensures
            exists|ids: Seq<Seq<char>>|
                {
                    &&& #[trigger] spec_split_commas(ids, config.server_config.ignoreids@)
                    &&& final(servers)@ == old(servers)@.filter(
                        |s: Server| !ids.contains(s.id@),
                    )
                },
    {
        let ids = config.ignore_servers();
        retain_not_ignored(servers, &ids);
        proof {
            assert(spec_split_commas(spec_views(ids@), config.server_config.ignoreids@)
                && servers@ == old(servers)@.filter(
                |s: Server| !spec_views(ids@).contains(s.id@),
            ));
        }
    }

    /// A fresh probe for one server, with this tester's timeout and round
    /// count.
    pub fn probe(&self) -> (r: ProbeState)
        ensures
            r.spec_timeout_ms() == self.spec_request_timeout_ms(),
            r.spec_rounds_total() == self.spec_compare_times(),
            r.spec_rounds_done() == 0,
            r.spec_delay_ms() == 0,
    {
        ProbeState::new(self.request_timeout_ms, self.compare_times)
    }

    /// The race over `server_count` candidate servers, with this tester's
    /// thresholds. An empty candidate list fails with `NoServers`.
    pub fn start_server_race(&self, server_count: usize) -> (r: Result<
        SelectionRace,
        SpeedTestError,
    >)
        requires
            2 * self.spec_request_timeout_ms() * self.spec_compare_times() <= u64::MAX,
        ensures
            server_count == 0 ==> r == Err::<SelectionRace, SpeedTestError>(
                SpeedTestError::NoServers,
            ),
            server_count > 0 ==> (r matches Ok(race) && {
                &&& race.spec_timeout_ms() == self.spec_request_timeout_ms()
                &&& race.spec_compare_times() == self.spec_compare_times()
                &&& race.spec_remaining() == server_count
                &&& race.spec_reports().len() == 0
                &&& !race.spec_decided()
            }),
    {
        SelectionRace::new(server_count, self.request_timeout_ms, self.compare_times)
    }

    /// The zero-content body stream for one upload of `size` bytes.
    pub fn create_zero_stream(size: usize) -> (r: ZeroStream)
        ensures
            r.spec_remaining() == size,
    {
        ZeroStream::new(size)
    }
}

} // verus!
