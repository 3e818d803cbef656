//! Construction of the fixed endpoint URLs that the test talks to.

use vstd::prelude::*;

use crate::text::{dec_str_usize, spec_dec};

verus! {

/// The scheme prefix of every URL, chosen by the TLS switch.
pub open spec fn spec_scheme(tls: bool) -> Seq<char> {
    if tls {
        "https://"@
    } else {
        "http://"@
    }
}

/// The host name of one of the two candidate hosts.
pub open spec fn spec_host_str(h: SpeedTestHost) -> Seq<char> {
    match h {
        SpeedTestHost::Main => "www.speedtest.net"@,
        SpeedTestHost::Backup => "c.speedtest.net"@,
    }
}

/// The endpoint path of one resource type.
pub open spec fn spec_path_str(p: SpeedTestPath) -> Seq<char> {
    match p {
        SpeedTestPath::Config => "/speedtest-config.php"@,
        SpeedTestPath::Server => "/speedtest-servers.php"@,
        SpeedTestPath::ServerStatic => "/speedtest-servers-static.php"@,
    }
}

/// A configuration URL for one host.
pub open spec fn spec_config_url(tls: bool, host: SpeedTestHost) -> Seq<char> {
    spec_scheme(tls) + spec_host_str(host) + spec_path_str(SpeedTestPath::Config)
}

/// A server-directory URL for one host and path; a positive `threads` value
/// is appended as a query parameter.
pub open spec fn spec_server_url(
    tls: bool,
    threads: nat,
    host: SpeedTestHost,
    path: SpeedTestPath,
) -> Seq<char> {
    if threads > 0 {
        spec_scheme(tls) + spec_host_str(host) + spec_path_str(path) + "?threads="@ + spec_dec(
            threads,
        )
    } else {
        spec_scheme(tls) + spec_host_str(host) + spec_path_str(path)
    }
}

/// Builder for the candidate URLs, holding the TLS switch and the optional
/// `threads` query value.
#[derive(Debug, Clone, Copy)]
pub struct SpeedTestUrl {
    use_tls: bool,
    threads: usize,
}

impl SpeedTestUrl {
    /// Whether URLs are built with the `https` scheme.
    pub closed spec fn spec_use_tls(&self) -> bool {
        self.use_tls
    }

    /// The `threads` query value; zero leaves the query off.
    pub closed spec fn spec_threads(&self) -> usize {
        self.threads
    }

    /// A builder with TLS off and no `threads` query.
    pub fn new() -> (r: SpeedTestUrl)
        ensures
            !r.spec_use_tls(),
            r.spec_threads() == 0,
    {
        SpeedTestUrl { use_tls: false, threads: 0 }
    }

    /// Sets the TLS switch.
    pub fn use_tls(self, use_tls: bool) -> (r: SpeedTestUrl)
        ensures
            r.spec_use_tls() == use_tls,
            r.spec_threads() == self.spec_threads(),
    {
        SpeedTestUrl { use_tls, ..self }
    }

    /// Sets the `threads` query value.
    pub fn threads(self, threads: usize) -> (r: SpeedTestUrl)
        ensures
            r.spec_use_tls() == self.spec_use_tls(),
            r.spec_threads() == threads,
    {
        SpeedTestUrl { threads, ..self }
    }

    fn scheme_str(&self) -> (r: &'static str)
        ensures
            r@ == spec_scheme(self.spec_use_tls()),
    {
        if self.use_tls {
            "https://"
        } else {
            "http://"
        }
    }

    fn build_config_url(&self, host: SpeedTestHost) -> (r: String)
        ensures
            r@ == spec_config_url(self.spec_use_tls(), host),
    {
        let mut u = String::from_str(self.scheme_str());
        u.append(host.host());
        u.append(SpeedTestPath::Config.path());
        u
    }

    fn build_server_url(&self, host: SpeedTestHost, path: SpeedTestPath) -> (r: String)
        requires
            path is Server || path is ServerStatic,
        ensures
            r@ == spec_server_url(
                self.spec_use_tls(),
                self.spec_threads() as nat,
                host,
                path,
            ),
    {
        let mut u = String::from_str(self.scheme_str());
        u.append(host.host());
        u.append(path.path());
        if self.threads > 0 {
            u.append("?threads=");
            let t = dec_str_usize(self.threads);
            u.append(t.as_str());
        }
        u
    }

    /// The configuration URLs, one per candidate host, main host first.
    pub fn config_urls(&self) -> (r: Vec<String>)
        ensures
            r@.len() == 2,
            r@[0]@ == spec_config_url(self.spec_use_tls(), SpeedTestHost::Main),
            r@[1]@ == spec_config_url(self.spec_use_tls(), SpeedTestHost::Backup),
    {
        let mut urls: Vec<String> = Vec::new();
        urls.push(self.build_config_url(SpeedTestHost::Main));
        urls.push(self.build_config_url(SpeedTestHost::Backup));
        urls
    }

    /// The server-directory URLs: both paths for each candidate host, in
    /// host-major order.
    pub fn server_urls(&self) -> (r: Vec<String>)
        ensures
            r@.len() == 4,
            r@[0]@ == spec_server_url(
                self.spec_use_tls(),
                self.spec_threads() as nat,
                SpeedTestHost::Main,
                SpeedTestPath::Server,
            ),
            r@[1]@ == spec_server_url(
                self.spec_use_tls(),
                self.spec_threads() as nat,
                SpeedTestHost::Main,
                SpeedTestPath::ServerStatic,
            ),
            r@[2]@ == spec_server_url(
                self.spec_use_tls(),
                self.spec_threads() as nat,
                SpeedTestHost::Backup,
                SpeedTestPath::Server,
            ),
            r@[3]@ == spec_server_url(
                self.spec_use_tls(),
                self.spec_threads() as nat,
                SpeedTestHost::Backup,
                SpeedTestPath::ServerStatic,
            ),
    {
        let mut urls: Vec<String> = Vec::new();
        urls.push(self.build_server_url(SpeedTestHost::Main, SpeedTestPath::Server));
        urls.push(self.build_server_url(SpeedTestHost::Main, SpeedTestPath::ServerStatic));
        urls.push(self.build_server_url(SpeedTestHost::Backup, SpeedTestPath::Server));
        urls.push(self.build_server_url(SpeedTestHost::Backup, SpeedTestPath::ServerStatic));
        urls
    }
}

/// One of the two candidate hosts that serve configuration and directory.
#[derive(Debug, Clone, Copy)]
pub enum SpeedTestHost {
    Main,
    Backup,
}

impl SpeedTestHost {
    /// Both candidate hosts, main host first.
    pub fn all() -> (r: [SpeedTestHost; 2])
        ensures
            r@ == seq![SpeedTestHost::Main, SpeedTestHost::Backup],
    {
        let hosts = [SpeedTestHost::Main, SpeedTestHost::Backup];
        proof {
            assert(hosts@ =~= seq![SpeedTestHost::Main, SpeedTestHost::Backup]);
        }
        hosts
    }

    /// The host name.
    pub fn host(&self) -> (r: &'static str)
        ensures
            r@ == spec_host_str(*self),
    {
        match self {
            SpeedTestHost::Main => "www.speedtest.net",
            SpeedTestHost::Backup => "c.speedtest.net",
        }
    }
}

/// One of the fixed endpoint paths.
#[derive(Debug, Clone, Copy)]
pub enum SpeedTestPath {
    Config,
    Server,
    ServerStatic,
}

impl SpeedTestPath {
    /// The two server-directory paths, in the order they are attempted.
    pub fn servers() -> (r: [SpeedTestPath; 2])
        ensures
            r@ == seq![SpeedTestPath::Server, SpeedTestPath::ServerStatic],
    {
        let paths = [SpeedTestPath::Server, SpeedTestPath::ServerStatic];
        proof {
            assert(paths@ =~= seq![SpeedTestPath::Server, SpeedTestPath::ServerStatic]);
        }
        paths
    }

    /// The endpoint path.
    pub fn path(&self) -> (r: &'static str)
        ensures
            r@ == spec_path_str(*self),
    {
        match self {
            SpeedTestPath::Config => "/speedtest-config.php",
            SpeedTestPath::Server => "/speedtest-servers.php",
            SpeedTestPath::ServerStatic => "/speedtest-servers-static.php",
        }
    }
}

} // verus!
