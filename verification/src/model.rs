//! Test configuration and server records, together with the values that are
//! derived from them.
//!
//! The configuration and the server directory are fetched once per run and
//! held read-only afterwards. Geographic coordinates and ratings arrive as
//! decimal text and are only ever displayed, so they are kept here as the
//! strings they came as.

use vstd::prelude::*;

use crate::text::{spec_split_commas, spec_views, split_commas};

verus! {

/// Client information reported by the configuration endpoint.
#[derive(Debug, Clone)]
pub struct Client {
    pub ip: String,
    pub lat: String,
    pub lon: String,
    pub isp: String,
    pub isprating: String,
    pub rating: String,
    pub ispdlavg: String,
    pub ispulavg: String,
    pub loggedin: u8,
    pub country: String,
}

/// Server-selection parameters of the configuration.
#[derive(Debug, Clone)]
pub struct ServerConfig {
    pub threadcount: u32,
    pub ignoreids: String,
    pub notonmap: String,
    pub forcepingid: String,
    pub preferredserverid: String,
}

/// Download-phase parameters of the configuration.
#[derive(Debug, Clone)]
pub struct Download {
    pub testlength: u32,
    pub initialtest: String,
    pub mintestsize: String,
    pub threadsperurl: u32,
}

/// Upload-phase parameters of the configuration.
#[derive(Debug, Clone)]
pub struct Upload {
    pub testlength: u32,
    pub ratio: u32,
    pub initialtest: String,
    pub mintestsize: String,
    pub threads: u32,
    pub maxchunksize: String,
    pub maxchunkcount: u32,
    pub threadsperurl: u32,
}

/// The whole test configuration, immutable once fetched.
#[derive(Debug, Clone)]
pub struct Config {
    pub client: Client,
    pub server_config: ServerConfig,
    pub download: Download,
    pub upload: Upload,
}

/// A candidate measurement server, immutable once fetched.
#[derive(Debug, Clone)]
pub struct Server {
    pub url: String,
    pub lat: String,
    pub lon: String,
    pub name: String,
    pub country: String,
    pub cc: String,
    pub sponsor: String,
    pub id: String,
    pub host: String,
}

/// The server directory as the endpoint reports it.
#[derive(Debug, Clone)]
pub struct Servers {
    pub servers: ServerList,
}

/// The list of servers inside the directory.
#[derive(Debug, Clone)]
pub struct ServerList {
    pub servers: Vec<Server>,
}

/// The fixed sequence of download sizes used to build request URLs.
pub open spec fn spec_download_sizes() -> Seq<usize> {
    seq![350usize, 500, 750, 1000, 1500, 2000, 2500, 3000, 3500, 4000]
}

/// The fixed sequence of upload body sizes in bytes.
pub open spec fn spec_upload_sizes() -> Seq<usize> {
    seq![32768usize, 65536, 131072, 262144, 524288, 1048576, 7340032]
}

/// The download sizes grow strictly from the first entry to the last.
///
/// Whatever the configuration holds, the sizes handed to the download phase
/// are these ten, in ascending order.
pub proof fn lemma_download_sizes_ascending()
    ensures
        spec_download_sizes().len() == 10,
        forall|i: int, j: int|
            0 <= i < j < spec_download_sizes().len() ==> spec_download_sizes()[i]
                < spec_download_sizes()[j],
{
}

/// Which of the two built-in size sequences is wanted.
#[derive(Debug, Clone, Copy)]
pub enum DefaultSequence {
    Upload,
    Download,
}

impl DefaultSequence {
    /// The built-in size sequence for this direction.
    pub fn sequence(&self) -> (r: Vec<usize>)
        ensures
            self is Upload ==> r@ == spec_upload_sizes(),
            self is Download ==> r@ == spec_download_sizes(),
    {
        match self {
            DefaultSequence::Upload => {
                let mut v: Vec<usize> = Vec::new();
                v.push(32 * 1024);
                v.push(64 * 1024);
                v.push(128 * 1024);
                v.push(256 * 1024);
                v.push(512 * 1024);
                v.push(1024 * 1024);
                v.push(7 * 1024 * 1024);
                proof {
                    assert(v@ =~= spec_upload_sizes());
                }
                v
            },
            DefaultSequence::Download => {
                let mut v: Vec<usize> = Vec::new();
                v.push(350);
                v.push(500);
                v.push(750);
                v.push(1000);
                v.push(1500);
                v.push(2000);
                v.push(2500);
                v.push(3000);
                v.push(3500);
                v.push(4000);
                proof {
                    assert(v@ =~= spec_download_sizes());
                }
                v
            },
        }
    }
}

impl Config {
    /// The client subrecord of the configuration.
    pub fn client_info(&self) -> (r: &Client)
        ensures
            r == &self.client,
    {
        &self.client
    }

    /// The server ids that the configuration asks to ignore, as the
    /// comma-separated entries of its ignore list.
    pub fn ignore_servers(&self) -> (r: Vec<String>)
        ensures
            spec_split_commas(spec_views(r@), self.server_config.ignoreids@),
    {
        split_commas(self.server_config.ignoreids.as_str())
    }

    /// The upload body sizes to cycle through. A `ratio` strictly between
    /// zero and the sequence length drops the first `ratio - 1` entries,
    /// biasing uploads towards the larger sizes; any other `ratio` leaves
    /// the sequence whole.
    pub fn upload_size_sequence(&self) -> (r: Vec<usize>)
        ensures
            self.upload.ratio == 0 || self.upload.ratio >= 7 ==> r@ == spec_upload_sizes(),
            0 < self.upload.ratio < 7 ==> r@ == spec_upload_sizes().skip(
                self.upload.ratio as int - 1,
            ),
            r@.len() >= 1,
    {
        let full = DefaultSequence::Upload.sequence();
        let ratio = self.upload.ratio as usize;
        if ratio > 0 && ratio < full.len() {
            let mut out: Vec<usize> = Vec::new();
            let mut j: usize = ratio - 1;
            while j < full.len()
                invariant
                    full@ == spec_upload_sizes(),
                    1 <= ratio < 7,
                    ratio - 1 <= j <= full@.len(),
                    out@ == spec_upload_sizes().subrange(ratio as int - 1, j as int),
                decreases full@.len() - j,
            {
                out.push(full[j]);
                j = j + 1;
                proof {
                    assert(out@ =~= spec_upload_sizes().subrange(ratio as int - 1, j as int));
                }
            }
            proof {
                assert(out@ =~= spec_upload_sizes().skip(ratio as int - 1));
            }
            out
        } else {
            full
        }
    }

    /// The download phase's wall-clock budget, in milliseconds.
    pub fn max_download_duration(&self) -> (r: u64)
        ensures
            r == self.download.testlength * 1000,
    {
        self.download.testlength as u64 * 1000
    }

    /// The upload phase's wall-clock budget, in milliseconds.
    pub fn max_upload_duration(&self) -> (r: u64)
        ensures
            r == self.upload.testlength * 1000,
    {
        self.upload.testlength as u64 * 1000
    }

    /// The fixed download size sequence; the configuration does not alter it.
    pub fn download_size_sequence(&self) -> (r: Vec<usize>)
        ensures
            r@ == spec_download_sizes(),
    {
        DefaultSequence::Download.sequence()
    }

    /// Concurrency used for server racing: twice the configured thread count.
    pub fn threads(&self) -> (r: usize)
        requires
            2 * self.server_config.threadcount <= usize::MAX,
        ensures
            r == 2 * self.server_config.threadcount,
    {
        self.server_config.threadcount as usize * 2
    }

    /// Concurrency used for the download phase: twice the configured thread
    /// count.
    pub fn download_threads(&self) -> (r: usize)
        requires
            2 * self.server_config.threadcount <= usize::MAX,
        ensures
            r == 2 * self.server_config.threadcount,
    {
        self.server_config.threadcount as usize * 2
    }

    /// How many downloads to run for each entry of the size sequence.
    pub fn download_count_per_url(&self) -> (r: usize)
        ensures
            r == self.download.threadsperurl,
    {
        self.download.threadsperurl as usize
    }

    /// Concurrency used for the upload phase.
    pub fn upload_threads(&self) -> (r: usize)
        ensures
            r == self.upload.threads,
    {
        self.upload.threads as usize
    }

    /// How many uploads the configuration asks for per URL.
    pub fn upload_count_per_url(&self) -> (r: usize)
        ensures
            r == self.upload.threadsperurl,
    {
        self.upload.threadsperurl as usize
    }

    /// The total number of upload tasks to run.
    pub fn max_upload_count(&self) -> (r: usize)
        ensures
            r == self.upload.maxchunkcount,
    {
        self.upload.maxchunkcount as usize
    }
}

} // verus!
