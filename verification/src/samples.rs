//! The recorded throughput samples of a run and their summaries.
//!
//! The driver samples the byte counters at its own cadence, turns each
//! sample into a bytes-per-second rate, and records it here; the display
//! layer reads the extremes and the average.

use vstd::prelude::*;

use crate::counter::spec_sum;

verus! {

/// The largest sample, or zero when there is none.
pub open spec fn spec_max_sample(s: Seq<u64>) -> u64
    decreases s.len(),
{
    if s.len() == 0 {
        0
    } else {
        let rest = spec_max_sample(s.drop_last());
        if s.last() > rest {
            s.last()
        } else {
            rest
        }
    }
}

/// The smallest sample, or zero when there is none.
pub open spec fn spec_min_sample(s: Seq<u64>) -> u64
    decreases s.len(),
{
    if s.len() == 0 {
        0
    } else if s.len() == 1 {
        s[0]
    } else {
        let rest = spec_min_sample(s.drop_last());
        if s.last() < rest {
            s.last()
        } else {
            rest
        }
    }
}

fn max_of(data: &Vec<u64>) -> (r: u64)
    ensures
        r == spec_max_sample(data@),
{
    let mut acc: u64 = 0;
    let mut i: usize = 0;
    while i < data.len()
        invariant
            i <= data@.len(),
            acc == spec_max_sample(data@.take(i as int)),
        decreases data@.len() - i,
    {
        proof {
            assert(data@.take(i + 1).drop_last() =~= data@.take(i as int));
            assert(data@.take(i + 1).last() == data@[i as int]);
        }
        if data[i] > acc {
            acc = data[i];
        }
        i = i + 1;
    }
    proof {
        assert(data@.take(data@.len() as int) =~= data@);
    }
    acc
}

fn min_of(data: &Vec<u64>) -> (r: u64)
    ensures
        r == spec_min_sample(data@),
{
    if data.len() == 0 {
        return 0;
    }
    let mut acc: u64 = data[0];
    let mut i: usize = 1;
    while i < data.len()
        invariant
            1 <= i <= data@.len(),
            acc == spec_min_sample(data@.take(i as int)),
        decreases data@.len() - i,
    {
        proof {
            assert(data@.take(i + 1).drop_last() =~= data@.take(i as int));
            assert(data@.take(i + 1).last() == data@[i as int]);
        }
        if data[i] < acc {
            acc = data[i];
        }
        i = i + 1;
    }
    proof {
        assert(data@.take(data@.len() as int) =~= data@);
    }
    acc
}

fn sum_of(data: &Vec<u64>) -> (r: u64)
    ensures
        spec_sum(data@) <= u64::MAX ==> r == spec_sum(data@),
        r <= spec_sum(data@),
{
    let mut acc: u64 = 0;
    let mut i: usize = 0;
    while i < data.len()
        invariant
            i <= data@.len(),
            spec_sum(data@.take(i as int)) <= u64::MAX ==> acc == spec_sum(data@.take(i as int)),
            acc <= spec_sum(data@.take(i as int)),
        decreases data@.len() - i,
    {
        proof {
            assert(data@.take(i + 1).drop_last() =~= data@.take(i as int));
            assert(data@.take(i + 1).last() == data@[i as int]);
        }
        if acc > u64::MAX - data[i] {
            acc = u64::MAX;
        } else {
            acc = acc + data[i];
        }
        i = i + 1;
        proof {
            lemma_sum_bounds(data@.take(i as int));
        }
    }
    proof {
        assert(data@.take(data@.len() as int) =~= data@);
    }
    acc
}

proof fn lemma_sum_bounds(s: Seq<u64>)
    ensures
        spec_sum(s) >= 0,
    decreases s.len(),
{
    if s.len() > 0 {
        lemma_sum_bounds(s.drop_last());
    }
}

/// The bytes-per-second samples recorded over the two throughput phases.
#[derive(Debug)]
pub struct SpeedRecords {
    downloaded_data: Vec<u64>,
    uploaded_data: Vec<u64>,
}

impl SpeedRecords {
    /// The recorded download rates, oldest first.
    pub closed spec fn spec_downloaded_data(&self) -> Seq<u64> {
        self.downloaded_data@
    }

    /// The recorded upload rates, oldest first.
    pub closed spec fn spec_uploaded_data(&self) -> Seq<u64> {
        self.uploaded_data@
    }

    /// No samples recorded yet.
    pub fn new() -> (r: SpeedRecords)
        ensures
            r.spec_downloaded_data().len() == 0,
            r.spec_uploaded_data().len() == 0,
    {
        SpeedRecords { downloaded_data: Vec::new(), uploaded_data: Vec::new() }
    }

    /// Records one download-rate sample.
    pub fn push_download_sample(&mut self, byte_ps: u64)
        ensures
            final(self).spec_downloaded_data() == old(self).spec_downloaded_data().push(byte_ps),
            final(self).spec_uploaded_data() == old(self).spec_uploaded_data(),
    {
        self.downloaded_data.push(byte_ps);
    }

    /// Records one upload-rate sample.
    pub fn push_upload_sample(&mut self, byte_ps: u64)
        ensures
            final(self).spec_uploaded_data() == old(self).spec_uploaded_data().push(byte_ps),
            final(self).spec_downloaded_data() == old(self).spec_downloaded_data(),
    {
        self.uploaded_data.push(byte_ps);
    }

    /// The fastest recorded download rate, or zero without samples.
    pub fn max_download_byte_ps(&self) -> (r: u64)
        ensures
            r == spec_max_sample(self.spec_downloaded_data()),
    {
        max_of(&self.downloaded_data)
    }

    /// The slowest recorded download rate, or zero without samples.
    pub fn min_download_byte_ps(&self) -> (r: u64)
        ensures
            r == spec_min_sample(self.spec_downloaded_data()),
    {
        min_of(&self.downloaded_data)
    }

    /// The most recent download rate, or zero without samples.
    pub fn latest_download_byte_ps(&self) -> (r: u64)
        ensures
            self.spec_downloaded_data().len() == 0 ==> r == 0,
            self.spec_downloaded_data().len() > 0 ==> r == self.spec_downloaded_data().last(),
    {
        if self.downloaded_data.len() == 0 {
            0
        } else {
            self.downloaded_data[self.downloaded_data.len() - 1]
        }
    }

    /// The mean recorded download rate; an empty record averages to zero.
    /// Exact as long as the samples' sum fits the counter width.
    pub fn avg_download_byte_ps(&self) -> (r: u64)
        ensures
            spec_sum(self.spec_downloaded_data()) <= u64::MAX ==> r == spec_sum(
                self.spec_downloaded_data(),
            ) / (if self.spec_downloaded_data().len() > 0 {
                self.spec_downloaded_data().len() as int
            } else {
                1
            }),
    {
        let n = self.downloaded_data.len();
        let divisor = if n > 0 {
            n as u64
        } else {
            1
        };
        sum_of(&self.downloaded_data) / divisor
    }

    /// The fastest recorded upload rate, or zero without samples.
    pub fn max_upload_byte_ps(&self) -> (r: u64)
        ensures
            r == spec_max_sample(self.spec_uploaded_data()),
    {
        max_of(&self.uploaded_data)
    }

    /// The slowest recorded upload rate, or zero without samples.
    pub fn min_upload_byte_ps(&self) -> (r: u64)
        ensures
            r == spec_min_sample(self.spec_uploaded_data()),
    {
        min_of(&self.uploaded_data)
    }

    /// The most recent upload rate, or zero without samples.
    pub fn latest_upload_byte_ps(&self) -> (r: u64)
        ensures
            self.spec_uploaded_data().len() == 0 ==> r == 0,
            self.spec_uploaded_data().len() > 0 ==> r == self.spec_uploaded_data().last(),
    {
        if self.uploaded_data.len() == 0 {
            0
        } else {
            self.uploaded_data[self.uploaded_data.len() - 1]
        }
    }

    /// The mean recorded upload rate; an empty record averages to zero.
    /// Exact as long as the samples' sum fits the counter width.
    pub fn avg_upload_byte_ps(&self) -> (r: u64)
        ensures
            spec_sum(self.spec_uploaded_data()) <= u64::MAX ==> r == spec_sum(
                self.spec_uploaded_data(),
            ) / (if self.spec_uploaded_data().len() > 0 {
                self.spec_uploaded_data().len() as int
            } else {
                1
            }),
    {
        let n = self.uploaded_data.len();
        let divisor = if n > 0 {
            n as u64
        } else {
            1
        };
        sum_of(&self.uploaded_data) / divisor
    }
}

} // verus!
