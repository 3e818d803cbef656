//! Picking the lowest-latency usable server under partial failure.
//!
//! Every candidate server is probed concurrently; each probe runs a fixed
//! number of timed rounds and reports the sum of its round delays. The HTTP
//! probes themselves happen outside the library; the types here hold the
//! probing and racing policy: how a round's delay is scored, when the first
//! report wins outright, and how the fallback over all reports decides.

use vstd::prelude::*;

use crate::error::SpeedTestError;
use crate::model::Server;

verus! {

/// A round that failed (transport error or timeout) is scored as twice the
/// per-request timeout; a round that succeeded is scored as its measured
/// wall-clock time. A server that fails every round therefore aggregates
/// exactly the failure ceiling `2 * timeout * rounds`.
pub open spec fn spec_round_delay(measured: Option<u64>, timeout_ms: u64) -> int {
    match measured {
        Some(d) => d as int,
        None => 2 * timeout_ms,
    }
}

/// The aggregate-delay ceiling at which a server counts as unreachable.
pub open spec fn spec_failure_ceiling(timeout_ms: u64, rounds: nat) -> int {
    2 * timeout_ms * rounds
}

/// One server's probe: a fixed number of timed rounds whose delays are
/// summed, with an interval sleep between rounds but not after the last.
#[derive(Debug, Clone)]
pub struct ProbeState {
    timeout_ms: u64,
    rounds_total: usize,
    rounds_done: usize,
    delay_ms: u64,
}

impl ProbeState {
    /// The per-request timeout the probe scores failures against.
    pub closed spec fn spec_timeout_ms(&self) -> u64 {
        self.timeout_ms
    }

    /// How many rounds the probe runs in all.
    pub closed spec fn spec_rounds_total(&self) -> usize {
        self.rounds_total
    }

    /// How many rounds have been recorded.
    pub closed spec fn spec_rounds_done(&self) -> usize {
        self.rounds_done
    }

    /// The aggregate delay so far.
    pub closed spec fn spec_delay_ms(&self) -> u64 {
        self.delay_ms
    }

    /// A fresh probe with no rounds recorded.
    pub fn new(timeout_ms: u64, rounds_total: usize) -> (r: ProbeState)
        ensures
            r.spec_timeout_ms() == timeout_ms,
            r.spec_rounds_total() == rounds_total,
            r.spec_rounds_done() == 0,
            r.spec_delay_ms() == 0,
    {
        ProbeState { timeout_ms, rounds_total, rounds_done: 0, delay_ms: 0 }
    }

    /// Records one round. `measured` is the round's elapsed wall-clock time
    /// in milliseconds, or `None` for a round that failed.
    pub fn record_round(&mut self, measured: Option<u64>)
        requires
            old(self).spec_rounds_done() < old(self).spec_rounds_total(),
            old(self).spec_delay_ms() + spec_round_delay(measured, old(self).spec_timeout_ms())
                <= u64::MAX,
        ensures
            final(self).spec_timeout_ms() == old(self).spec_timeout_ms(),
            final(self).spec_rounds_total() == old(self).spec_rounds_total(),
            final(self).spec_rounds_done() == old(self).spec_rounds_done() + 1,
            final(self).spec_delay_ms() == old(self).spec_delay_ms() + spec_round_delay(
                measured,
                old(self).spec_timeout_ms(),
            ),
            final(self).spec_delay_ms() >= old(self).spec_delay_ms(),
    {
        let round: u64 = match measured {
            Some(d) => d,
            None => 2 * self.timeout_ms,
        };
        self.delay_ms = self.delay_ms + round;
        self.rounds_done = self.rounds_done + 1;
    }

    /// Whether the interval sleep follows the round just recorded; there is
    /// no sleep after the last round.
    pub fn needs_interval_sleep(&self) -> (r: bool)
        ensures
            r == (self.spec_rounds_done() < self.spec_rounds_total()),
    {
        self.rounds_done < self.rounds_total
    }

    /// Whether all rounds have been recorded.
    pub fn done(&self) -> (r: bool)
        ensures
            r == (self.spec_rounds_done() == self.spec_rounds_total()),
    {
        self.rounds_done == self.rounds_total
    }

    /// The aggregate delay to report for this server.
    pub fn aggregate(&self) -> (r: u64)
        ensures
            r == self.spec_delay_ms(),
    {
        self.delay_ms
    }
}

/// Whether `i` is the index of the first report holding the minimal delay.
pub open spec fn spec_first_min(reports: Seq<(Server, u64)>, i: int) -> bool {
    &&& 0 <= i < reports.len()
    &&& forall|j: int| 0 <= j < reports.len() ==> (#[trigger] reports[j]).1 >= reports[i].1
    &&& forall|j: int| 0 <= j < i ==> (#[trigger] reports[j]).1 > reports[i].1
}

/// The race over all candidate servers.
///
/// Reports arrive in completion order. If the very first report's aggregate
/// delay beats twice the per-request timeout, that server wins outright and
/// the remaining probes are cancelled. Otherwise every server's report is
/// collected and the smallest aggregate delay wins — unless even that one
/// reaches the failure ceiling, in which case every server counts as
/// unreachable.
#[derive(Debug)]
pub struct SelectionRace {
    timeout_ms: u64,
    compare_times: usize,
    remaining: usize,
    reports: Vec<(Server, u64)>,
    decided: bool,
}

impl SelectionRace {
    /// The per-request timeout the thresholds are derived from.
    pub closed spec fn spec_timeout_ms(&self) -> u64 {
        self.timeout_ms
    }

    /// How many rounds each probe runs.
    pub closed spec fn spec_compare_times(&self) -> usize {
        self.compare_times
    }

    /// How many probes have not reported yet.
    pub closed spec fn spec_remaining(&self) -> usize {
        self.remaining
    }

    /// The reports collected so far, in arrival order.
    pub closed spec fn spec_reports(&self) -> Seq<(Server, u64)> {
        self.reports@
    }

    /// Whether a winner was already declared on the fast path.
    pub closed spec fn spec_decided(&self) -> bool {
        self.decided
    }

    /// A race over `server_count` probes. An empty candidate list cannot be
    /// raced and fails with `NoServers`.
    pub fn new(server_count: usize, timeout_ms: u64, compare_times: usize) -> (r: Result<
        SelectionRace,
        SpeedTestError,
    >)
        requires
            2 * timeout_ms * compare_times <= u64::MAX,
        ensures
            server_count == 0 ==> r == Err::<SelectionRace, SpeedTestError>(
                SpeedTestError::NoServers,
            ),
            server_count > 0 ==> (r matches Ok(race) && {
                &&& race.spec_timeout_ms() == timeout_ms
                &&& race.spec_compare_times() == compare_times
                &&& race.spec_remaining() == server_count
                &&& race.spec_reports().len() == 0
                &&& !race.spec_decided()
            }),
    {
        if server_count == 0 {
            Err(SpeedTestError::NoServers)
        } else {
            Ok(
                SelectionRace {
                    timeout_ms,
                    compare_times,
                    remaining: server_count,
                    reports: Vec::new(),
                    decided: false,
                },
            )
        }
    }

    /// Takes one probe's report. The first report wins outright when its
    /// delay beats twice the per-request timeout; the caller then cancels
    /// the other probes. Any other report is collected for the fallback.
    pub fn on_report(&mut self, server: Server, delay_ms: u64) -> (r: Option<Server>)
        requires
            old(self).spec_remaining() > 0,
            !old(self).spec_decided(),
            2 * old(self).spec_timeout_ms() <= u64::MAX,
        ensures
            final(self).spec_timeout_ms() == old(self).spec_timeout_ms(),
            final(self).spec_compare_times() == old(self).spec_compare_times(),
            final(self).spec_remaining() == old(self).spec_remaining() - 1,
            old(self).spec_reports().len() == 0 && delay_ms < 2 * old(self).spec_timeout_ms()
                ==> {
                &&& r == Some(server)
                &&& final(self).spec_decided()
                &&& final(self).spec_reports() == old(self).spec_reports()
            },
            old(self).spec_reports().len() > 0 || delay_ms >= 2 * old(self).spec_timeout_ms()
                ==> {
                &&& r is None
                &&& !final(self).spec_decided()
                &&& final(self).spec_reports() == old(self).spec_reports().push((server, delay_ms))
            },
    {
        self.remaining = self.remaining - 1;
        if self.reports.len() == 0 && delay_ms < 2 * self.timeout_ms {
            self.decided = true;
            Some(server)
        } else {
            self.reports.push((server, delay_ms));
            None
        }
    }

    /// Whether every probe has reported.
    pub fn all_reported(&self) -> (r: bool)
        ensures
            r == (self.spec_remaining() == 0),
    {
        self.remaining == 0
    }

    /// The fallback decision, taken once every probe has reported and none
    /// won outright: the first report with the smallest aggregate delay
    /// wins, unless even it reaches the failure ceiling
    /// `2 * timeout * compare_times` — then every server counts as
    /// unreachable and the race fails with `AllServersFailed`.
    pub fn conclude(self) -> (r: Result<Server, SpeedTestError>)
        requires
            self.spec_remaining() == 0,
            !self.spec_decided(),
            self.spec_reports().len() > 0,
            2 * self.spec_timeout_ms() <= u64::MAX,
            2 * self.spec_timeout_ms() * self.spec_compare_times() <= u64::MAX,
        ensures
            r matches Ok(winner) ==> exists|i: int|
                {
                    &&& #[trigger] spec_first_min(self.spec_reports(), i)
                    &&& winner == self.spec_reports()[i].0
                    &&& self.spec_reports()[i].1 < spec_failure_ceiling(
                        self.spec_timeout_ms(),
                        self.spec_compare_times() as nat,
                    )
                },
            r matches Err(e) ==> {
                &&& e == SpeedTestError::AllServersFailed
                &&& forall|j: int|
                    0 <= j < self.spec_reports().len() ==> (#[trigger] self.spec_reports()[j]).1
                        >= spec_failure_ceiling(
                        self.spec_timeout_ms(),
                        self.spec_compare_times() as nat,
                    )
            },
    {
        let mut reports = self.reports;
        let ghost all = reports@;
        let mut best: usize = 0;
        let mut j: usize = 1;
        while j < reports.len()
            invariant
                reports@ == all,
                all.len() > 0,
                best < j <= all.len(),
                forall|k: int| 0 <= k < j ==> (#[trigger] all[k]).1 >= all[best as int].1,
                forall|k: int| 0 <= k < best ==> (#[trigger] all[k]).1 > all[best as int].1,
            decreases all.len() - j,
        {
            if reports[j].1 < reports[best].1 {
                best = j;
            }
            j = j + 1;
        }
        let ceiling = 2 * self.timeout_ms * (self.compare_times as u64);
        if reports[best].1 < ceiling {
            let (winner, _delay) = reports.swap_remove(best);
            proof {
                assert(spec_first_min(all, best as int));
            }
            Ok(winner)
        } else {
            Err(SpeedTestError::AllServersFailed)
        }
    }
}

} // verus!
