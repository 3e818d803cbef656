//! The bounded-concurrency workload runner shared by the download and the
//! upload phase.
//!
//! A phase runs a fixed number of sized transfer tasks, at most a fixed
//! number of them at a time, for at most a fixed wall-clock budget. The
//! transfers themselves happen outside the library; the types here hold the
//! schedule: which task runs next and at what size, when a new task may be
//! admitted, and when the budget expires and the phase is cancelled.

use vstd::prelude::*;

use crate::model::{spec_download_sizes, spec_upload_sizes, Config};
use crate::text::spec_dec;

verus! {

/// The fixed parameters of one phase, derived from the configuration.
#[derive(Debug)]
pub struct PhasePlan {
    /// How many transfer tasks the phase runs in all.
    pub total_tasks: usize,
    /// How many tasks may run at the same time.
    pub concurrency: usize,
    /// The phase's wall-clock budget, in milliseconds.
    pub duration_ms: u64,
    /// The sizes the tasks cycle through; task `i` uses entry `i` modulo
    /// the length.
    pub sizes: Vec<usize>,
}

impl PhasePlan {
    /// A usable plan has at least one size to cycle through.
    pub open spec fn wf(&self) -> bool {
        self.sizes@.len() > 0
    }

    /// The plan of the download phase.
    pub fn download_plan(config: &Config) -> (r: PhasePlan)
        requires
            2 * config.server_config.threadcount <= usize::MAX,
            10 * config.download.threadsperurl <= usize::MAX,
        ensures
            r.total_tasks == 10 * config.download.threadsperurl,
            r.concurrency == 2 * config.server_config.threadcount,
            r.duration_ms == config.download.testlength * 1000,
            r.sizes@ == spec_download_sizes(),
            r.wf(),
    {
        let sizes = config.download_size_sequence();
        let total_tasks = config.download_count_per_url() * sizes.len();
        PhasePlan {
            total_tasks,
            concurrency: config.download_threads(),
            duration_ms: config.max_download_duration(),
            sizes,
        }
    }

    /// The plan of the upload phase.
    pub fn upload_plan(config: &Config) -> (r: PhasePlan)
        ensures
            r.total_tasks == config.upload.maxchunkcount,
            r.concurrency == config.upload.threads,
            r.duration_ms == config.upload.testlength * 1000,
            config.upload.ratio == 0 || config.upload.ratio >= 7 ==> r.sizes@
                == spec_upload_sizes(),
            0 < config.upload.ratio < 7 ==> r.sizes@ == spec_upload_sizes().skip(
                config.upload.ratio as int - 1,
            ),
            r.wf(),
    {
        PhasePlan {
            total_tasks: config.max_upload_count(),
            concurrency: config.upload_threads(),
            duration_ms: config.max_upload_duration(),
            sizes: config.upload_size_sequence(),
        }
    }
}

/// The running state of one phase.
///
/// The driver polls `poll_expired` with the elapsed wall-clock time, admits
/// tasks with `next_task` while the schedule allows it, and reports each
/// finished task with `task_done`. Once the budget expires, cancellation is
/// permanent: no further task is ever admitted.
#[derive(Debug)]
pub struct Phase {
    plan: PhasePlan,
    started: usize,
    completed: usize,
    cancelled: bool,
}

impl Phase {
    /// The plan the phase was started with.
    pub closed spec fn spec_plan(&self) -> PhasePlan {
        self.plan
    }

    /// How many tasks have been admitted.
    pub closed spec fn spec_started(&self) -> usize {
        self.started
    }

    /// How many tasks have finished.
    pub closed spec fn spec_completed(&self) -> usize {
        self.completed
    }

    /// Whether the budget has expired and the phase is cancelled.
    pub closed spec fn spec_cancelled(&self) -> bool {
        self.cancelled
    }

    /// What holds of every reachable phase state: tasks finish only after
    /// starting, no more than the planned total ever starts, and no more
    /// than the planned concurrency is ever in flight.
    pub open spec fn wf(&self) -> bool {
        &&& self.spec_completed() <= self.spec_started() <= self.spec_plan().total_tasks
        &&& self.spec_started() - self.spec_completed() <= self.spec_plan().concurrency
        &&& self.spec_plan().wf()
    }

    /// A phase at its beginning: nothing started, nothing cancelled.
    pub fn start(plan: PhasePlan) -> (r: Phase)
        requires
            plan.wf(),
        ensures
            r.spec_plan() == plan,
            r.spec_started() == 0,
            r.spec_completed() == 0,
            !r.spec_cancelled(),
            r.wf(),
    {
        Phase { plan, started: 0, completed: 0, cancelled: false }
    }

    /// Checks the wall-clock budget. A phase whose budget has elapsed —
    /// in particular one whose budget is zero — is cancelled at once, and
    /// stays cancelled.
    pub fn poll_expired(&mut self, elapsed_ms: u64) -> (expired: bool)
        ensures
            expired == (elapsed_ms >= old(self).spec_plan().duration_ms),
            final(self).spec_cancelled() == (old(self).spec_cancelled() || expired),
            final(self).spec_plan() == old(self).spec_plan(),
            final(self).spec_started() == old(self).spec_started(),
            final(self).spec_completed() == old(self).spec_completed(),
            old(self).wf() ==> final(self).wf(),
    {
        let expired = elapsed_ms >= self.plan.duration_ms;
        if expired {
            self.cancelled = true;
        }
        expired
    }

    /// Whether the schedule admits another task right now.
    pub fn can_admit(&self) -> (r: bool)
        requires
            self.wf(),
        ensures
            r == (!self.spec_cancelled() && self.spec_started() < self.spec_plan().total_tasks
                && self.spec_started() - self.spec_completed() < self.spec_plan().concurrency),
    {
        !self.cancelled && self.started < self.plan.total_tasks && self.started - self.completed
            < self.plan.concurrency
    }

    /// Admits the next task: its index and its size, which is the size
    /// sequence entry at the index modulo the sequence length. A cancelled
    /// phase, an exhausted schedule or a full pool admits nothing.
    pub fn next_task(&mut self) -> (r: Option<(usize, usize)>)
        requires
            old(self).wf(),
        ensures
            final(self).wf(),
            final(self).spec_plan() == old(self).spec_plan(),
            final(self).spec_completed() == old(self).spec_completed(),
            final(self).spec_cancelled() == old(self).spec_cancelled(),
            old(self).can_admit_spec() ==> {
                &&& r == Some(
                    (
                        old(self).spec_started(),
                        old(self).spec_plan().sizes@[old(self).spec_started() as int % old(
                            self,
                        ).spec_plan().sizes@.len() as int],
                    ),
                )
                &&& final(self).spec_started() == old(self).spec_started() + 1
            },
            !old(self).can_admit_spec() ==> r is None && *final(self) == *old(self),
    {
        if self.can_admit() {
            let i = self.started;
            let size = self.plan.sizes[i % self.plan.sizes.len()];
            self.started = self.started + 1;
            Some((i, size))
        } else {
            None
        }
    }

    /// Whether the schedule admits another task, as a predicate on the
    /// state.
    pub open spec fn can_admit_spec(&self) -> bool {
        !self.spec_cancelled() && self.spec_started() < self.spec_plan().total_tasks
            && self.spec_started() - self.spec_completed() < self.spec_plan().concurrency
    }

    /// Reports one in-flight task as finished.
    pub fn task_done(&mut self)
        requires
            old(self).wf(),
            old(self).spec_completed() < old(self).spec_started(),
        ensures
            final(self).wf(),
            final(self).spec_plan() == old(self).spec_plan(),
            final(self).spec_started() == old(self).spec_started(),
            final(self).spec_completed() == old(self).spec_completed() + 1,
            final(self).spec_cancelled() == old(self).spec_cancelled(),
    {
        self.completed = self.completed + 1;
    }

    /// How many tasks are in flight.
    pub fn in_flight(&self) -> (r: usize)
        requires
            self.wf(),
        ensures
            r == self.spec_started() - self.spec_completed(),
    {
        self.started - self.completed
    }

    /// Whether the phase is over: its budget expired or every task finished
    /// naturally. There is no phase-level failure.
    pub fn is_finished(&self) -> (r: bool)
        ensures
            r == (self.spec_cancelled() || self.spec_completed()
                == self.spec_plan().total_tasks),
    {
        self.cancelled || self.completed == self.plan.total_tasks
    }
}

/// The URL a download task of the given size fetches: the server URL with
/// the size-squared random-image path appended to it, literally. The server
/// URL already names an upload endpoint; the concatenation is preserved
/// as the protocol has it.
pub fn download_url(server_url: &String, size: usize) -> (r: String)
    ensures
        r@ == server_url@ + "/random"@ + spec_dec(size as nat) + "x"@ + spec_dec(size as nat)
            + ".jpg"@,
{
    let mut u = server_url.clone();
    u.append("/random");
    let s = crate::text::dec_str_usize(size);
    u.append(s.as_str());
    u.append("x");
    u.append(s.as_str());
    u.append(".jpg");
    u
}

} // verus!
