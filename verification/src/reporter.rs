//! The periodic reporter: from two successive counter snapshots it derives
//! what happened in between (counts and average latencies of the window).

use vstd::prelude::*;
use crate::metrics::{average, average_of, lemma_average_bounds, AppMetrics};
use crate::text::{decimal, push_decimal};

verus! {

/// `a - b`, or zero when `b` is larger, as `saturating_sub` computes it.
pub open spec fn saturating_diff(a: u64, b: u64) -> u64 {
    if a >= b {
        (a - b) as u64
    } else {
        0
    }
}

/// The cumulative values seen at the previous report.
#[derive(Clone, Copy, Debug, PartialEq, Eq, Structural)]
pub struct Reporter {
    pub prev_downstream_latency_us: u64,
    pub prev_downstream_latency_count: u64,
    pub prev_semaphore_wait_us: u64,
    pub prev_semaphore_wait_count: u64,
    pub prev_runtime_queue_latency_us: u64,
    pub prev_runtime_queue_latency_count: u64,
    pub prev_timeout_count: u64,
}

/// What one report shows of the window since the previous one.
#[derive(Clone, Copy, Debug, PartialEq, Eq, Structural)]
pub struct AppReport {
    /// Requests in flight now.
    pub inflight_requests: u64,
    /// Average downstream latency of the window's requests, in microseconds.
    pub downstream_latency_avg: u64,
    /// Requests measured in the window.
    pub downstream_requests: u64,
    /// Average permit wait of the window's acquisitions, in microseconds.
    pub semaphore_wait_avg: u64,
    /// Permits acquired in the window.
    pub semaphore_acquisitions: u64,
    /// Connections that gave up in the window.
    pub new_timeouts: u64,
    /// Connections that gave up since start.
    pub total_timeouts: u64,
    /// Connections waiting for a permit now.
    pub connection_pool_pending: u64,
    /// Average queue latency of the window's connection tasks, in microseconds.
    pub runtime_queue_latency_avg: u64,
    /// Connection tasks measured in the window.
    pub runtime_queue_tasks: u64,
}

/// Report text around the values: each fragment precedes one value, the last ends the block.
pub const REPORT_HEADER_INFLIGHT: &'static str = "---------- APP METRICS (5s) -------\ninflight_requests:       ";
pub const REPORT_DL_AVG: &'static str = "\ndownstream_latency_avg:  ";
pub const REPORT_DL_N: &'static str = " us  (";
pub const REPORT_SW_AVG: &'static str = " reqs)\nsemaphore_wait_avg:      ";
pub const REPORT_SW_N: &'static str = " us  (";
pub const REPORT_TIMEOUTS: &'static str = " acqs)\ntimeout_count:           +";
pub const REPORT_TOTAL: &'static str = "  (total ";
pub const REPORT_PENDING: &'static str = ")\nconnection_pool_pending: ";
pub const REPORT_RQ_AVG: &'static str = "\nruntime_queue_latency:   ";
pub const REPORT_RQ_N: &'static str = " us  (";
pub const REPORT_END: &'static str = " tasks)\n===================================\n";

impl AppReport {
    /// The lines that the reporter prints for this window, each ended by a newline.
    pub open spec fn text(self) -> Seq<char> {
        REPORT_HEADER_INFLIGHT@
            + decimal(self.inflight_requests as nat)
            + REPORT_DL_AVG@
            + decimal(self.downstream_latency_avg as nat)
            + REPORT_DL_N@
            + decimal(self.downstream_requests as nat)
            + REPORT_SW_AVG@
            + decimal(self.semaphore_wait_avg as nat)
            + REPORT_SW_N@
            + decimal(self.semaphore_acquisitions as nat)
            + REPORT_TIMEOUTS@
            + decimal(self.new_timeouts as nat)
            + REPORT_TOTAL@
            + decimal(self.total_timeouts as nat)
            + REPORT_PENDING@
            + decimal(self.connection_pool_pending as nat)
            + REPORT_RQ_AVG@
            + decimal(self.runtime_queue_latency_avg as nat)
            + REPORT_RQ_N@
            + decimal(self.runtime_queue_tasks as nat)
            + REPORT_END@
    }

    /// Renders the report block.
    pub fn render(&self) -> (text: String)
        ensures
            text@ == self.text(),
    {
        let mut out = String::new();
        out.append(REPORT_HEADER_INFLIGHT);
        push_decimal(&mut out, self.inflight_requests);
        out.append(REPORT_DL_AVG);
        push_decimal(&mut out, self.downstream_latency_avg);
        out.append(REPORT_DL_N);
        push_decimal(&mut out, self.downstream_requests);
        out.append(REPORT_SW_AVG);
        push_decimal(&mut out, self.semaphore_wait_avg);
        out.append(REPORT_SW_N);
        push_decimal(&mut out, self.semaphore_acquisitions);
        out.append(REPORT_TIMEOUTS);
        push_decimal(&mut out, self.new_timeouts);
        out.append(REPORT_TOTAL);
        push_decimal(&mut out, self.total_timeouts);
        out.append(REPORT_PENDING);
        push_decimal(&mut out, self.connection_pool_pending);
        out.append(REPORT_RQ_AVG);
        push_decimal(&mut out, self.runtime_queue_latency_avg);
        out.append(REPORT_RQ_N);
        push_decimal(&mut out, self.runtime_queue_tasks);
        out.append(REPORT_END);
        proof {
            assert(out@ =~= self.text());
        }
        out
    }
}

impl Reporter {
    /// The report for the window that ends at snapshot `m`.
    pub open spec fn report_of(self, m: AppMetrics) -> AppReport {
        let d_dl_us: u64 = saturating_diff(m.downstream_latency_us, self.prev_downstream_latency_us);
        let d_dl_n: u64 = saturating_diff(m.downstream_latency_count, self.prev_downstream_latency_count);
        let d_sw_us: u64 = saturating_diff(m.semaphore_wait_us, self.prev_semaphore_wait_us);
        let d_sw_n: u64 = saturating_diff(m.semaphore_wait_count, self.prev_semaphore_wait_count);
        let d_rq_us: u64 = saturating_diff(m.runtime_queue_latency_us, self.prev_runtime_queue_latency_us);
        let d_rq_n: u64 = saturating_diff(m.runtime_queue_latency_count, self.prev_runtime_queue_latency_count);
        AppReport {
            inflight_requests: m.inflight_requests,
            downstream_latency_avg: average_of(d_dl_us, d_dl_n),
            downstream_requests: d_dl_n,
            semaphore_wait_avg: average_of(d_sw_us, d_sw_n),
            semaphore_acquisitions: d_sw_n,
            new_timeouts: saturating_diff(m.timeout_count, self.prev_timeout_count),
            total_timeouts: m.timeout_count,
            connection_pool_pending: m.connection_pool_pending,
            runtime_queue_latency_avg: average_of(d_rq_us, d_rq_n),
            runtime_queue_tasks: d_rq_n,
        }
    }

    /// The reporter after reporting at snapshot `m`: it remembers `m`'s cumulative values.
    pub open spec fn after(m: AppMetrics) -> Reporter {
        Reporter {
            prev_downstream_latency_us: m.downstream_latency_us,
            prev_downstream_latency_count: m.downstream_latency_count,
            prev_semaphore_wait_us: m.semaphore_wait_us,
            prev_semaphore_wait_count: m.semaphore_wait_count,
            prev_runtime_queue_latency_us: m.runtime_queue_latency_us,
            prev_runtime_queue_latency_count: m.runtime_queue_latency_count,
            prev_timeout_count: m.timeout_count,
        }
    }

    /// A reporter that has seen nothing yet.
    pub fn new() -> (r: Reporter)
        ensures
            r == Reporter::after(AppMetrics::zero()),
    {
        Reporter {
            prev_downstream_latency_us: 0,
            prev_downstream_latency_count: 0,
            prev_semaphore_wait_us: 0,
            prev_semaphore_wait_count: 0,
            prev_runtime_queue_latency_us: 0,
            prev_runtime_queue_latency_count: 0,
            prev_timeout_count: 0,
        }
    }

    /// Reports the window that ends at snapshot `m`, and starts the next one there.
    pub fn step(&mut self, m: &AppMetrics) -> (report: AppReport)
        ensures
            report == old(self).report_of(*m),
            *final(self) == Reporter::after(*m),
    {
        let d_dl_us: u64 = m.downstream_latency_us.saturating_sub(self.prev_downstream_latency_us);
        let d_dl_n: u64 = m.downstream_latency_count.saturating_sub(self.prev_downstream_latency_count);
        let d_sw_us: u64 = m.semaphore_wait_us.saturating_sub(self.prev_semaphore_wait_us);
        let d_sw_n: u64 = m.semaphore_wait_count.saturating_sub(self.prev_semaphore_wait_count);
        let d_rq_us: u64 = m.runtime_queue_latency_us.saturating_sub(self.prev_runtime_queue_latency_us);
        let d_rq_n: u64 = m.runtime_queue_latency_count.saturating_sub(self.prev_runtime_queue_latency_count);
        let d_timeouts: u64 = m.timeout_count.saturating_sub(self.prev_timeout_count);
        let report = AppReport {
            inflight_requests: m.inflight_requests,
            downstream_latency_avg: average(d_dl_us, d_dl_n),
            downstream_requests: d_dl_n,
            semaphore_wait_avg: average(d_sw_us, d_sw_n),
            semaphore_acquisitions: d_sw_n,
            new_timeouts: d_timeouts,
            total_timeouts: m.timeout_count,
            connection_pool_pending: m.connection_pool_pending,
            runtime_queue_latency_avg: average(d_rq_us, d_rq_n),
            runtime_queue_tasks: d_rq_n,
        };
        self.prev_downstream_latency_us = m.downstream_latency_us;
        self.prev_downstream_latency_count = m.downstream_latency_count;
        self.prev_semaphore_wait_us = m.semaphore_wait_us;
        self.prev_semaphore_wait_count = m.semaphore_wait_count;
        self.prev_runtime_queue_latency_us = m.runtime_queue_latency_us;
        self.prev_runtime_queue_latency_count = m.runtime_queue_latency_count;
        self.prev_timeout_count = m.timeout_count;
        report
    }
}

} // verus!

verus! {

/// Whether every cumulative counter that the reporter follows is at least
/// the value it remembers.
pub open spec fn counters_at_least(r: Reporter, m: AppMetrics) -> bool {
    &&& r.prev_downstream_latency_us <= m.downstream_latency_us
    &&& r.prev_downstream_latency_count <= m.downstream_latency_count
    &&& r.prev_semaphore_wait_us <= m.semaphore_wait_us
    &&& r.prev_semaphore_wait_count <= m.semaphore_wait_count
    &&& r.prev_runtime_queue_latency_us <= m.runtime_queue_latency_us
    &&& r.prev_runtime_queue_latency_count <= m.runtime_queue_latency_count
    &&& r.prev_timeout_count <= m.timeout_count
}

/// While the counters only grow, two successive windows count together
/// exactly what happened over both: the counts of the two reports add up to
/// the growth of each counter since the first window began.
pub proof fn lemma_windows_add_up(r: Reporter, m1: AppMetrics, m2: AppMetrics)
    requires
        counters_at_least(r, m1),
        counters_at_least(Reporter::after(m1), m2),
    ensures
        ({
            let a = r.report_of(m1);
            let b = Reporter::after(m1).report_of(m2);
            &&& a.downstream_requests + b.downstream_requests
                == m2.downstream_latency_count - r.prev_downstream_latency_count
            &&& a.semaphore_acquisitions + b.semaphore_acquisitions
                == m2.semaphore_wait_count - r.prev_semaphore_wait_count
            &&& a.runtime_queue_tasks + b.runtime_queue_tasks
                == m2.runtime_queue_latency_count - r.prev_runtime_queue_latency_count
            &&& a.new_timeouts + b.new_timeouts == m2.timeout_count - r.prev_timeout_count
        }),
{
}

/// A window in which no counter moved reports no activity: every count and
/// every average is zero, while the gauges and the timeout total are shown as they are.
pub proof fn lemma_quiet_window(m: AppMetrics)
    ensures
        Reporter::after(m).report_of(m) == (AppReport {
            inflight_requests: m.inflight_requests,
            downstream_latency_avg: 0,
            downstream_requests: 0,
            semaphore_wait_avg: 0,
            semaphore_acquisitions: 0,
            new_timeouts: 0,
            total_timeouts: m.timeout_count,
            connection_pool_pending: m.connection_pool_pending,
            runtime_queue_latency_avg: 0,
            runtime_queue_tasks: 0,
        }),
{
}

/// Each window average is the window's growth of the latency sum divided by
/// the window's growth of the sample count, rounded down: with `c` samples in
/// the window and latency `d` added in it, `avg * c <= d < (avg + 1) * c`, and
/// the average is zero for a window without samples. A counter that fell
/// since the last report counts as no growth. The window counts are those
/// growths, and the timeout count of the window is the timeouts' growth.
pub proof fn lemma_window_averages(r: Reporter, m: AppMetrics)
    ensures
        ({
            let rep = r.report_of(m);
            let dl_n = if m.downstream_latency_count >= r.prev_downstream_latency_count {
                m.downstream_latency_count - r.prev_downstream_latency_count
            } else {
                0
            };
            let dl_us = if m.downstream_latency_us >= r.prev_downstream_latency_us {
                m.downstream_latency_us - r.prev_downstream_latency_us
            } else {
                0
            };
            let sw_n = if m.semaphore_wait_count >= r.prev_semaphore_wait_count {
                m.semaphore_wait_count - r.prev_semaphore_wait_count
            } else {
                0
            };
            let sw_us = if m.semaphore_wait_us >= r.prev_semaphore_wait_us {
                m.semaphore_wait_us - r.prev_semaphore_wait_us
            } else {
                0
            };
            let rq_n = if m.runtime_queue_latency_count >= r.prev_runtime_queue_latency_count {
                m.runtime_queue_latency_count - r.prev_runtime_queue_latency_count
            } else {
                0
            };
            let rq_us = if m.runtime_queue_latency_us >= r.prev_runtime_queue_latency_us {
                m.runtime_queue_latency_us - r.prev_runtime_queue_latency_us
            } else {
                0
            };
            &&& rep.downstream_requests == dl_n
            &&& rep.semaphore_acquisitions == sw_n
            &&& rep.runtime_queue_tasks == rq_n
            &&& rep.new_timeouts == (if m.timeout_count >= r.prev_timeout_count {
                m.timeout_count - r.prev_timeout_count
            } else {
                0
            })
            &&& dl_n == 0 ==> rep.downstream_latency_avg == 0
            &&& dl_n > 0 ==> rep.downstream_latency_avg * dl_n <= dl_us < (rep.downstream_latency_avg + 1) * dl_n
            &&& sw_n == 0 ==> rep.semaphore_wait_avg == 0
            &&& sw_n > 0 ==> rep.semaphore_wait_avg * sw_n <= sw_us < (rep.semaphore_wait_avg + 1) * sw_n
            &&& rq_n == 0 ==> rep.runtime_queue_latency_avg == 0
            &&& rq_n > 0 ==> rep.runtime_queue_latency_avg * rq_n <= rq_us < (rep.runtime_queue_latency_avg + 1)
                * rq_n
        }),
{
    let d_dl_us = saturating_diff(m.downstream_latency_us, r.prev_downstream_latency_us);
    let d_dl_n = saturating_diff(m.downstream_latency_count, r.prev_downstream_latency_count);
    let d_sw_us = saturating_diff(m.semaphore_wait_us, r.prev_semaphore_wait_us);
    let d_sw_n = saturating_diff(m.semaphore_wait_count, r.prev_semaphore_wait_count);
    let d_rq_us = saturating_diff(m.runtime_queue_latency_us, r.prev_runtime_queue_latency_us);
    let d_rq_n = saturating_diff(m.runtime_queue_latency_count, r.prev_runtime_queue_latency_count);
    if d_dl_n > 0 {
        lemma_average_bounds(d_dl_us, d_dl_n);
    }
    if d_sw_n > 0 {
        lemma_average_bounds(d_sw_us, d_sw_n);
    }
    if d_rq_n > 0 {
        lemma_average_bounds(d_rq_us, d_rq_n);
    }
}

} // verus!
