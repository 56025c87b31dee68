//! The server's counters, the transitions that the connection and request
//! handlers make on them, and their Prometheus exposition text.

use vstd::prelude::*;
use crate::text::{decimal, has_line, lemma_line_after, lemma_line_extend_left, lemma_line_extend_right, push_decimal, same_text};

verus! {

/// One past the largest counter value: counters wrap around modulo this.
pub open spec fn counter_modulus() -> int {
    0x1_0000_0000_0000_0000
}

/// `v` reduced into the range of a counter, as wrapping arithmetic leaves it.
pub open spec fn wrap(v: int) -> u64 {
    (v % counter_modulus()) as u64
}

/// A duration in microseconds cut to a counter increment, as `as u64` does.
pub open spec fn micros_increment(micros: u128) -> u64 {
    micros as u64
}

/// The average of `count` samples that add up to `sum`, rounded down; zero
/// when there are no samples.
pub open spec fn average_of(sum: u64, count: u64) -> u64 {
    if count > 0 {
        (sum / count) as u64
    } else {
        0
    }
}

/// The path whose requests are served from the counters themselves and are
/// not counted as application requests.
pub const METRICS_PATH: &'static str = "/metrics";

/// The counters of a running server. All of them wrap around on overflow.
#[derive(Clone, Copy, Debug, PartialEq, Eq, Structural)]
pub struct AppMetrics {
    /// Requests being processed now.
    pub inflight_requests: u64,
    /// Cumulative downstream latency, in microseconds.
    pub downstream_latency_us: u64,
    /// Requests whose latency was measured.
    pub downstream_latency_count: u64,
    /// Cumulative time spent waiting for a connection permit, in microseconds.
    pub semaphore_wait_us: u64,
    /// Permits acquired.
    pub semaphore_wait_count: u64,
    /// Connections that gave up waiting for a permit.
    pub timeout_count: u64,
    /// Connections waiting for a permit now.
    pub connection_pool_pending: u64,
    /// Cumulative time from spawning a connection task to its first poll, in microseconds.
    pub runtime_queue_latency_us: u64,
    /// Connection tasks whose queue latency was measured.
    pub runtime_queue_latency_count: u64,
}

impl AppMetrics {
    /// All counters at zero.
    pub open spec fn zero() -> AppMetrics {
        AppMetrics {
            inflight_requests: 0,
            downstream_latency_us: 0,
            downstream_latency_count: 0,
            semaphore_wait_us: 0,
            semaphore_wait_count: 0,
            timeout_count: 0,
            connection_pool_pending: 0,
            runtime_queue_latency_us: 0,
            runtime_queue_latency_count: 0,
        }
    }

    /// The counters after a connection task was first polled `micros` after it was spawned.
    pub open spec fn spec_after_queue_latency(self, micros: u128) -> AppMetrics {
        AppMetrics {
            runtime_queue_latency_us: wrap(self.runtime_queue_latency_us + micros_increment(micros)),
            runtime_queue_latency_count: wrap(self.runtime_queue_latency_count + 1),
            ..self
        }
    }

    /// The counters after a connection started to wait for a permit.
    pub open spec fn spec_after_wait_begin(self) -> AppMetrics {
        AppMetrics { connection_pool_pending: wrap(self.connection_pool_pending + 1), ..self }
    }

    /// The counters after a waiting connection got its permit after `micros`.
    pub open spec fn spec_after_permit(self, micros: u128) -> AppMetrics {
        AppMetrics {
            semaphore_wait_us: wrap(self.semaphore_wait_us + micros_increment(micros)),
            semaphore_wait_count: wrap(self.semaphore_wait_count + 1),
            connection_pool_pending: wrap(self.connection_pool_pending - 1),
            ..self
        }
    }

    /// The counters after a waiting connection gave up.
    pub open spec fn spec_after_timeout(self) -> AppMetrics {
        AppMetrics {
            connection_pool_pending: wrap(self.connection_pool_pending - 1),
            timeout_count: wrap(self.timeout_count + 1),
            ..self
        }
    }

    /// The counters after a request for `path` arrived.
    pub open spec fn spec_after_request_start(self, path: Seq<char>) -> AppMetrics {
        if is_app_path(path) {
            AppMetrics { inflight_requests: wrap(self.inflight_requests + 1), ..self }
        } else {
            self
        }
    }

    /// The counters after a request was answered `micros` after it arrived;
    /// `is_app` says whether it was counted when it arrived.
    pub open spec fn spec_after_request_end(self, is_app: bool, micros: u128) -> AppMetrics {
        if is_app {
            AppMetrics {
                downstream_latency_us: wrap(self.downstream_latency_us + micros_increment(micros)),
                downstream_latency_count: wrap(self.downstream_latency_count + 1),
                inflight_requests: wrap(self.inflight_requests - 1),
                ..self
            }
        } else {
            self
        }
    }

    /// Creates the counters, all at zero.
    pub fn new() -> (m: AppMetrics)
        ensures
            m == AppMetrics::zero(),
    {
        AppMetrics {
            inflight_requests: 0,
            downstream_latency_us: 0,
            downstream_latency_count: 0,
            semaphore_wait_us: 0,
            semaphore_wait_count: 0,
            timeout_count: 0,
            connection_pool_pending: 0,
            runtime_queue_latency_us: 0,
            runtime_queue_latency_count: 0,
        }
    }

    /// Records that a connection task was first polled `micros` after it was spawned.
    pub fn record_queue_latency(&mut self, micros: u128)
        ensures
            *final(self) == old(self).spec_after_queue_latency(micros),
    {
        self.runtime_queue_latency_us = wrapping_increase(self.runtime_queue_latency_us, micros as u64);
        self.runtime_queue_latency_count = wrapping_increase(self.runtime_queue_latency_count, 1);
    }

    /// Records that a connection started to wait for a permit.
    pub fn begin_permit_wait(&mut self)
        ensures
            *final(self) == old(self).spec_after_wait_begin(),
    {
        self.connection_pool_pending = wrapping_increase(self.connection_pool_pending, 1);
    }

    /// Records that a waiting connection got its permit after `micros`.
    pub fn permit_acquired(&mut self, micros: u128)
        ensures
            *final(self) == old(self).spec_after_permit(micros),
    {
        self.semaphore_wait_us = wrapping_increase(self.semaphore_wait_us, micros as u64);
        self.semaphore_wait_count = wrapping_increase(self.semaphore_wait_count, 1);
        self.connection_pool_pending = wrapping_decrease(self.connection_pool_pending, 1);
    }

    /// Records that a waiting connection gave up.
    pub fn permit_timed_out(&mut self)
        ensures
            *final(self) == old(self).spec_after_timeout(),
    {
        self.connection_pool_pending = wrapping_decrease(self.connection_pool_pending, 1);
        self.timeout_count = wrapping_increase(self.timeout_count, 1);
    }

    /// Records that a request for `path` arrived, and says whether it is an
    /// application request (one that the counters measure).
    pub fn request_started(&mut self, path: &str) -> (is_app: bool)
        ensures
            is_app == is_app_path(path@),
            *final(self) == old(self).spec_after_request_start(path@),
    {
        let is_app = !same_text(path, METRICS_PATH);
        if is_app {
            self.inflight_requests = wrapping_increase(self.inflight_requests, 1);
        }
        is_app
    }

    /// Records that a request was answered `micros` after it arrived; `is_app`
    /// is what `request_started` returned for it.
    pub fn request_finished(&mut self, is_app: bool, micros: u128)
        ensures
            *final(self) == old(self).spec_after_request_end(is_app, micros),
    {
        if is_app {
            self.downstream_latency_us = wrapping_increase(self.downstream_latency_us, micros as u64);
            self.downstream_latency_count = wrapping_increase(self.downstream_latency_count, 1);
            self.inflight_requests = wrapping_decrease(self.inflight_requests, 1);
        }
    }
}

/// The help and type lines that precede each series (with a blank line
/// before the first series of a group).
pub const PROM_HEAD_INFLIGHT: &'static str = "# HELP inflight_requests Number of requests currently being processed\n# TYPE inflight_requests gauge\n";
pub const PROM_HEAD_DL_AVG: &'static str = "\n# HELP downstream_latency_avg_us Average downstream response latency (us)\n# TYPE downstream_latency_avg_us gauge\n";
pub const PROM_HEAD_DL_TOTAL: &'static str = "# HELP downstream_latency_total_us Cumulative downstream response latency (us)\n# TYPE downstream_latency_total_us counter\n";
pub const PROM_HEAD_DL_COUNT: &'static str = "# HELP downstream_latency_count Total measured requests\n# TYPE downstream_latency_count counter\n";
pub const PROM_HEAD_SW_AVG: &'static str = "\n# HELP semaphore_wait_avg_us Average semaphore acquisition wait time (us)\n# TYPE semaphore_wait_avg_us gauge\n";
pub const PROM_HEAD_SW_TOTAL: &'static str = "# HELP semaphore_wait_total_us Cumulative semaphore wait time (us)\n# TYPE semaphore_wait_total_us counter\n";
pub const PROM_HEAD_SW_COUNT: &'static str = "# HELP semaphore_wait_count Total semaphore acquisitions\n# TYPE semaphore_wait_count counter\n";
pub const PROM_HEAD_TIMEOUTS: &'static str = "\n# HELP timeout_count Total timed-out connections\n# TYPE timeout_count counter\n";
pub const PROM_HEAD_PENDING: &'static str = "\n# HELP connection_pool_pending Connections waiting for semaphore permit\n# TYPE connection_pool_pending gauge\n";
pub const PROM_HEAD_RQ_AVG: &'static str = "\n# HELP runtime_queue_latency_avg_us Average spawn-to-first-poll latency (us)\n# TYPE runtime_queue_latency_avg_us gauge\n";
pub const PROM_HEAD_RQ_TOTAL: &'static str = "# HELP runtime_queue_latency_total_us Cumulative spawn-to-first-poll latency (us)\n# TYPE runtime_queue_latency_total_us counter\n";
pub const PROM_HEAD_RQ_COUNT: &'static str = "# HELP runtime_queue_latency_count Total spawned tasks measured\n# TYPE runtime_queue_latency_count counter\n";

/// The name of each series.
pub const PROM_NAME_INFLIGHT: &'static str = "inflight_requests";
pub const PROM_NAME_DL_AVG: &'static str = "downstream_latency_avg_us";
pub const PROM_NAME_DL_TOTAL: &'static str = "downstream_latency_total_us";
pub const PROM_NAME_DL_COUNT: &'static str = "downstream_latency_count";
pub const PROM_NAME_SW_AVG: &'static str = "semaphore_wait_avg_us";
pub const PROM_NAME_SW_TOTAL: &'static str = "semaphore_wait_total_us";
pub const PROM_NAME_SW_COUNT: &'static str = "semaphore_wait_count";
pub const PROM_NAME_TIMEOUTS: &'static str = "timeout_count";
pub const PROM_NAME_PENDING: &'static str = "connection_pool_pending";
pub const PROM_NAME_RQ_AVG: &'static str = "runtime_queue_latency_avg_us";
pub const PROM_NAME_RQ_TOTAL: &'static str = "runtime_queue_latency_total_us";
pub const PROM_NAME_RQ_COUNT: &'static str = "runtime_queue_latency_count";

/// What separates a series' name from its value, and what ends its line.
pub const PROM_VALUE_SEP: &'static str = " ";
pub const PROM_LINE_END: &'static str = "\n";

/// One series: its help and type lines, then `name value` on a line.
pub open spec fn series_text(head: Seq<char>, name: Seq<char>, value: u64) -> Seq<char> {
    head + name + PROM_VALUE_SEP@ + decimal(value as nat) + PROM_LINE_END@
}

/// Appends one series to `out`.
fn push_series(out: &mut String, head: &str, name: &str, value: u64)
    ensures
        final(out)@ == old(out)@ + series_text(head@, name@, value),
{
    out.append(head);
    out.append(name);
    out.append(PROM_VALUE_SEP);
    push_decimal(out, value);
    out.append(PROM_LINE_END);
    proof {
        assert(out@ =~= old(out)@ + series_text(head@, name@, value));
    }
}

impl AppMetrics {
    /// The Prometheus exposition text of these counters: each series with its
    /// help and type lines, averages rounded down and zero without samples.
    pub open spec fn prometheus_text(self) -> Seq<char> {
        series_text(PROM_HEAD_INFLIGHT@, PROM_NAME_INFLIGHT@, self.inflight_requests)
            + series_text(PROM_HEAD_DL_AVG@, PROM_NAME_DL_AVG@, average_of(self.downstream_latency_us, self.downstream_latency_count))
            + series_text(PROM_HEAD_DL_TOTAL@, PROM_NAME_DL_TOTAL@, self.downstream_latency_us)
            + series_text(PROM_HEAD_DL_COUNT@, PROM_NAME_DL_COUNT@, self.downstream_latency_count)
            + series_text(PROM_HEAD_SW_AVG@, PROM_NAME_SW_AVG@, average_of(self.semaphore_wait_us, self.semaphore_wait_count))
            + series_text(PROM_HEAD_SW_TOTAL@, PROM_NAME_SW_TOTAL@, self.semaphore_wait_us)
            + series_text(PROM_HEAD_SW_COUNT@, PROM_NAME_SW_COUNT@, self.semaphore_wait_count)
            + series_text(PROM_HEAD_TIMEOUTS@, PROM_NAME_TIMEOUTS@, self.timeout_count)
            + series_text(PROM_HEAD_PENDING@, PROM_NAME_PENDING@, self.connection_pool_pending)
            + series_text(PROM_HEAD_RQ_AVG@, PROM_NAME_RQ_AVG@, average_of(self.runtime_queue_latency_us, self.runtime_queue_latency_count))
            + series_text(PROM_HEAD_RQ_TOTAL@, PROM_NAME_RQ_TOTAL@, self.runtime_queue_latency_us)
            + series_text(PROM_HEAD_RQ_COUNT@, PROM_NAME_RQ_COUNT@, self.runtime_queue_latency_count)
    }

    /// Renders the counters as Prometheus exposition text.
    pub fn render_prometheus(&self) -> (text: String)
        ensures
            text@ == self.prometheus_text(),
    {
        let dl_avg: u64 = average(self.downstream_latency_us, self.downstream_latency_count);
        let sw_avg: u64 = average(self.semaphore_wait_us, self.semaphore_wait_count);
        let rq_avg: u64 = average(self.runtime_queue_latency_us, self.runtime_queue_latency_count);
        let mut out = String::new();
        push_series(&mut out, PROM_HEAD_INFLIGHT, PROM_NAME_INFLIGHT, self.inflight_requests);
        push_series(&mut out, PROM_HEAD_DL_AVG, PROM_NAME_DL_AVG, dl_avg);
        push_series(&mut out, PROM_HEAD_DL_TOTAL, PROM_NAME_DL_TOTAL, self.downstream_latency_us);
        push_series(&mut out, PROM_HEAD_DL_COUNT, PROM_NAME_DL_COUNT, self.downstream_latency_count);
        push_series(&mut out, PROM_HEAD_SW_AVG, PROM_NAME_SW_AVG, sw_avg);
        push_series(&mut out, PROM_HEAD_SW_TOTAL, PROM_NAME_SW_TOTAL, self.semaphore_wait_us);
        push_series(&mut out, PROM_HEAD_SW_COUNT, PROM_NAME_SW_COUNT, self.semaphore_wait_count);
        push_series(&mut out, PROM_HEAD_TIMEOUTS, PROM_NAME_TIMEOUTS, self.timeout_count);
        push_series(&mut out, PROM_HEAD_PENDING, PROM_NAME_PENDING, self.connection_pool_pending);
        push_series(&mut out, PROM_HEAD_RQ_AVG, PROM_NAME_RQ_AVG, rq_avg);
        push_series(&mut out, PROM_HEAD_RQ_TOTAL, PROM_NAME_RQ_TOTAL, self.runtime_queue_latency_us);
        push_series(&mut out, PROM_HEAD_RQ_COUNT, PROM_NAME_RQ_COUNT, self.runtime_queue_latency_count);
        proof {
            assert(out@ =~= self.prometheus_text());
        }
        out
    }
}

/// Whether a request for `path` is an application request.
pub open spec fn is_app_path(path: Seq<char>) -> bool {
    path != METRICS_PATH@
}

/// `a + b`, wrapping around.
fn wrapping_increase(a: u64, b: u64) -> (r: u64)
    ensures
        r == wrap(a + b),
{
    a.wrapping_add(b)
}

/// `a - b`, wrapping around.
fn wrapping_decrease(a: u64, b: u64) -> (r: u64)
    ensures
        r == wrap(a - b),
{
    a.wrapping_sub(b)
}

/// The average of `count` samples that add up to `sum`, rounded down; zero
/// when there are no samples.
pub fn average(sum: u64, count: u64) -> (r: u64)
    ensures
        r == average_of(sum, count),
{
    if count > 0 {
        sum / count
    } else {
        0
    }
}

} // verus!

verus! {

/// A request leaves the number of requests in flight where it found it. An
/// application request adds its latency to the latency sum and one to the
/// latency count; a request for the metrics path changes no counter.
pub proof fn lemma_request_round_trip(m: AppMetrics, path: Seq<char>, micros: u128)
    ensures
        ({
            let after = m.spec_after_request_start(path).spec_after_request_end(is_app_path(path), micros);
            &&& after.inflight_requests == m.inflight_requests
            &&& is_app_path(path) ==> after == AppMetrics {
                downstream_latency_us: wrap(m.downstream_latency_us + micros_increment(micros)),
                downstream_latency_count: wrap(m.downstream_latency_count + 1),
                ..m
            }
            &&& !is_app_path(path) ==> after == m
        }),
{
}

/// A connection that waits for a permit leaves the number of waiting
/// connections where it found it, whether it gets the permit or gives up.
/// Getting the permit adds the wait and one acquisition; giving up adds one
/// timeout.
pub proof fn lemma_wait_round_trip(m: AppMetrics, micros: u128)
    ensures
        m.spec_after_wait_begin().spec_after_permit(micros) == (AppMetrics {
            semaphore_wait_us: wrap(m.semaphore_wait_us + micros_increment(micros)),
            semaphore_wait_count: wrap(m.semaphore_wait_count + 1),
            ..m
        }),
        m.spec_after_wait_begin().spec_after_timeout() == (AppMetrics {
            timeout_count: wrap(m.timeout_count + 1),
            ..m
        }),
{
}

/// Below the wrap-around point a counter increment is exact addition.
pub proof fn lemma_wrap_exact(a: u64, b: u64)
    requires
        a + b < counter_modulus(),
    ensures
        wrap(a + b) == a + b,
{
}

/// The rounded-down average never exceeds the true mean: `count` times it is
/// at most `sum`, and one more than it would overshoot.
pub proof fn lemma_average_bounds(sum: u64, count: u64)
    requires
        count > 0,
    ensures
        average_of(sum, count) * count <= sum,
        sum < (average_of(sum, count) + 1) * count,
{
    vstd::arithmetic::div_mod::lemma_fundamental_div_mod(sum as int, count as int);
    vstd::arithmetic::div_mod::lemma_mod_bound(sum as int, count as int);
    assert(average_of(sum, count) * count == count * (sum / count)) by (nonlinear_arith);
    assert((average_of(sum, count) + 1) * count == count * (sum / count) + count) by (nonlinear_arith);
}

} // verus!

verus! {

/// One series' `name value` line stands at a line start of its text, and the
/// text ends with a newline.
proof fn lemma_series_line(head: Seq<char>, name: Seq<char>, value: u64)
    requires
        head.len() > 0,
        head.last() == '\n',
    ensures
        has_line(series_text(head, name, value), name + seq![' '] + decimal(value as nat) + seq!['\n']),
        series_text(head, name, value).len() > 0,
        series_text(head, name, value).last() == '\n',
{
    reveal_strlit(" ");
    reveal_strlit("\n");
    let line = name + seq![' '] + decimal(value as nat) + seq!['\n'];
    assert(series_text(head, name, value) =~= head + line);
    lemma_line_after(head, line);
}

/// Every help-and-type head ends with a newline.
proof fn lemma_heads_end_lines()
    ensures
        PROM_HEAD_INFLIGHT@.len() > 0 && PROM_HEAD_INFLIGHT@.last() == '\n',
        PROM_HEAD_DL_AVG@.len() > 0 && PROM_HEAD_DL_AVG@.last() == '\n',
        PROM_HEAD_DL_TOTAL@.len() > 0 && PROM_HEAD_DL_TOTAL@.last() == '\n',
        PROM_HEAD_DL_COUNT@.len() > 0 && PROM_HEAD_DL_COUNT@.last() == '\n',
        PROM_HEAD_SW_AVG@.len() > 0 && PROM_HEAD_SW_AVG@.last() == '\n',
        PROM_HEAD_SW_TOTAL@.len() > 0 && PROM_HEAD_SW_TOTAL@.last() == '\n',
        PROM_HEAD_SW_COUNT@.len() > 0 && PROM_HEAD_SW_COUNT@.last() == '\n',
        PROM_HEAD_TIMEOUTS@.len() > 0 && PROM_HEAD_TIMEOUTS@.last() == '\n',
        PROM_HEAD_PENDING@.len() > 0 && PROM_HEAD_PENDING@.last() == '\n',
        PROM_HEAD_RQ_AVG@.len() > 0 && PROM_HEAD_RQ_AVG@.last() == '\n',
        PROM_HEAD_RQ_TOTAL@.len() > 0 && PROM_HEAD_RQ_TOTAL@.last() == '\n',
        PROM_HEAD_RQ_COUNT@.len() > 0 && PROM_HEAD_RQ_COUNT@.last() == '\n',
{
    assert(PROM_HEAD_INFLIGHT@.len() > 0 && PROM_HEAD_INFLIGHT@.last() == '\n') by {
        reveal_strlit("# HELP inflight_requests Number of requests currently being processed\n# TYPE inflight_requests gauge\n");
    }
    assert(PROM_HEAD_DL_AVG@.len() > 0 && PROM_HEAD_DL_AVG@.last() == '\n') by {
        reveal_strlit("\n# HELP downstream_latency_avg_us Average downstream response latency (us)\n# TYPE downstream_latency_avg_us gauge\n");
    }
    assert(PROM_HEAD_DL_TOTAL@.len() > 0 && PROM_HEAD_DL_TOTAL@.last() == '\n') by {
        reveal_strlit("# HELP downstream_latency_total_us Cumulative downstream response latency (us)\n# TYPE downstream_latency_total_us counter\n");
    }
    assert(PROM_HEAD_DL_COUNT@.len() > 0 && PROM_HEAD_DL_COUNT@.last() == '\n') by {
        reveal_strlit("# HELP downstream_latency_count Total measured requests\n# TYPE downstream_latency_count counter\n");
    }
    assert(PROM_HEAD_SW_AVG@.len() > 0 && PROM_HEAD_SW_AVG@.last() == '\n') by {
        reveal_strlit("\n# HELP semaphore_wait_avg_us Average semaphore acquisition wait time (us)\n# TYPE semaphore_wait_avg_us gauge\n");
    }
    assert(PROM_HEAD_SW_TOTAL@.len() > 0 && PROM_HEAD_SW_TOTAL@.last() == '\n') by {
        reveal_strlit("# HELP semaphore_wait_total_us Cumulative semaphore wait time (us)\n# TYPE semaphore_wait_total_us counter\n");
    }
    assert(PROM_HEAD_SW_COUNT@.len() > 0 && PROM_HEAD_SW_COUNT@.last() == '\n') by {
        reveal_strlit("# HELP semaphore_wait_count Total semaphore acquisitions\n# TYPE semaphore_wait_count counter\n");
    }
    assert(PROM_HEAD_TIMEOUTS@.len() > 0 && PROM_HEAD_TIMEOUTS@.last() == '\n') by {
        reveal_strlit("\n# HELP timeout_count Total timed-out connections\n# TYPE timeout_count counter\n");
    }
    assert(PROM_HEAD_PENDING@.len() > 0 && PROM_HEAD_PENDING@.last() == '\n') by {
        reveal_strlit("\n# HELP connection_pool_pending Connections waiting for semaphore permit\n# TYPE connection_pool_pending gauge\n");
    }
    assert(PROM_HEAD_RQ_AVG@.len() > 0 && PROM_HEAD_RQ_AVG@.last() == '\n') by {
        reveal_strlit("\n# HELP runtime_queue_latency_avg_us Average spawn-to-first-poll latency (us)\n# TYPE runtime_queue_latency_avg_us gauge\n");
    }
    assert(PROM_HEAD_RQ_TOTAL@.len() > 0 && PROM_HEAD_RQ_TOTAL@.last() == '\n') by {
        reveal_strlit("# HELP runtime_queue_latency_total_us Cumulative spawn-to-first-poll latency (us)\n# TYPE runtime_queue_latency_total_us counter\n");
    }
    assert(PROM_HEAD_RQ_COUNT@.len() > 0 && PROM_HEAD_RQ_COUNT@.last() == '\n') by {
        reveal_strlit("# HELP runtime_queue_latency_count Total spawned tasks measured\n# TYPE runtime_queue_latency_count counter\n");
    }
}

/// The exposition text shows every counter under its own name: for each
/// series the line `name value` stands at the start of a line, the value
/// written in decimal. Counter series show their counter; average series
/// show the sum divided by the count, rounded down, or zero without samples.
#[verifier::rlimit(50)]
pub proof fn lemma_prometheus_shows_each_counter(m: AppMetrics)
    ensures
        has_line(m.prometheus_text(), "inflight_requests"@ + seq![' '] + decimal(m.inflight_requests as nat) + seq!['\n']),
        has_line(m.prometheus_text(), "downstream_latency_avg_us"@ + seq![' '] + decimal((if m.downstream_latency_count > 0 { m.downstream_latency_us / m.downstream_latency_count } else { 0 }) as nat) + seq!['\n']),
        has_line(m.prometheus_text(), "downstream_latency_total_us"@ + seq![' '] + decimal(m.downstream_latency_us as nat) + seq!['\n']),
        has_line(m.prometheus_text(), "downstream_latency_count"@ + seq![' '] + decimal(m.downstream_latency_count as nat) + seq!['\n']),
        has_line(m.prometheus_text(), "semaphore_wait_avg_us"@ + seq![' '] + decimal((if m.semaphore_wait_count > 0 { m.semaphore_wait_us / m.semaphore_wait_count } else { 0 }) as nat) + seq!['\n']),
        has_line(m.prometheus_text(), "semaphore_wait_total_us"@ + seq![' '] + decimal(m.semaphore_wait_us as nat) + seq!['\n']),
        has_line(m.prometheus_text(), "semaphore_wait_count"@ + seq![' '] + decimal(m.semaphore_wait_count as nat) + seq!['\n']),
        has_line(m.prometheus_text(), "timeout_count"@ + seq![' '] + decimal(m.timeout_count as nat) + seq!['\n']),
        has_line(m.prometheus_text(), "connection_pool_pending"@ + seq![' '] + decimal(m.connection_pool_pending as nat) + seq!['\n']),
        has_line(m.prometheus_text(), "runtime_queue_latency_avg_us"@ + seq![' '] + decimal((if m.runtime_queue_latency_count > 0 { m.runtime_queue_latency_us / m.runtime_queue_latency_count } else { 0 }) as nat) + seq!['\n']),
        has_line(m.prometheus_text(), "runtime_queue_latency_total_us"@ + seq![' '] + decimal(m.runtime_queue_latency_us as nat) + seq!['\n']),
        has_line(m.prometheus_text(), "runtime_queue_latency_count"@ + seq![' '] + decimal(m.runtime_queue_latency_count as nat) + seq!['\n']),
{
    lemma_heads_end_lines();
    let s0 = series_text(PROM_HEAD_INFLIGHT@, PROM_NAME_INFLIGHT@, m.inflight_requests);
    let l0 = "inflight_requests"@ + seq![' '] + decimal(m.inflight_requests as nat) + seq!['\n'];
    assert(PROM_NAME_INFLIGHT@ == "inflight_requests"@);
    lemma_series_line(PROM_HEAD_INFLIGHT@, PROM_NAME_INFLIGHT@, m.inflight_requests);
    assert(has_line(s0, l0));
    let s1 = series_text(PROM_HEAD_DL_AVG@, PROM_NAME_DL_AVG@, average_of(m.downstream_latency_us, m.downstream_latency_count));
    let l1 = "downstream_latency_avg_us"@ + seq![' '] + decimal((if m.downstream_latency_count > 0 { m.downstream_latency_us / m.downstream_latency_count } else { 0 }) as nat) + seq!['\n'];
    assert(PROM_NAME_DL_AVG@ == "downstream_latency_avg_us"@);
    lemma_series_line(PROM_HEAD_DL_AVG@, PROM_NAME_DL_AVG@, average_of(m.downstream_latency_us, m.downstream_latency_count));
    assert(has_line(s1, l1));
    let s2 = series_text(PROM_HEAD_DL_TOTAL@, PROM_NAME_DL_TOTAL@, m.downstream_latency_us);
    let l2 = "downstream_latency_total_us"@ + seq![' '] + decimal(m.downstream_latency_us as nat) + seq!['\n'];
    assert(PROM_NAME_DL_TOTAL@ == "downstream_latency_total_us"@);
    lemma_series_line(PROM_HEAD_DL_TOTAL@, PROM_NAME_DL_TOTAL@, m.downstream_latency_us);
    assert(has_line(s2, l2));
    let s3 = series_text(PROM_HEAD_DL_COUNT@, PROM_NAME_DL_COUNT@, m.downstream_latency_count);
    let l3 = "downstream_latency_count"@ + seq![' '] + decimal(m.downstream_latency_count as nat) + seq!['\n'];
    assert(PROM_NAME_DL_COUNT@ == "downstream_latency_count"@);
    lemma_series_line(PROM_HEAD_DL_COUNT@, PROM_NAME_DL_COUNT@, m.downstream_latency_count);
    assert(has_line(s3, l3));
    let s4 = series_text(PROM_HEAD_SW_AVG@, PROM_NAME_SW_AVG@, average_of(m.semaphore_wait_us, m.semaphore_wait_count));
    let l4 = "semaphore_wait_avg_us"@ + seq![' '] + decimal((if m.semaphore_wait_count > 0 { m.semaphore_wait_us / m.semaphore_wait_count } else { 0 }) as nat) + seq!['\n'];
    assert(PROM_NAME_SW_AVG@ == "semaphore_wait_avg_us"@);
    lemma_series_line(PROM_HEAD_SW_AVG@, PROM_NAME_SW_AVG@, average_of(m.semaphore_wait_us, m.semaphore_wait_count));
    assert(has_line(s4, l4));
    let s5 = series_text(PROM_HEAD_SW_TOTAL@, PROM_NAME_SW_TOTAL@, m.semaphore_wait_us);
    let l5 = "semaphore_wait_total_us"@ + seq![' '] + decimal(m.semaphore_wait_us as nat) + seq!['\n'];
    assert(PROM_NAME_SW_TOTAL@ == "semaphore_wait_total_us"@);
    lemma_series_line(PROM_HEAD_SW_TOTAL@, PROM_NAME_SW_TOTAL@, m.semaphore_wait_us);
    assert(has_line(s5, l5));
    let s6 = series_text(PROM_HEAD_SW_COUNT@, PROM_NAME_SW_COUNT@, m.semaphore_wait_count);
    let l6 = "semaphore_wait_count"@ + seq![' '] + decimal(m.semaphore_wait_count as nat) + seq!['\n'];
    assert(PROM_NAME_SW_COUNT@ == "semaphore_wait_count"@);
    lemma_series_line(PROM_HEAD_SW_COUNT@, PROM_NAME_SW_COUNT@, m.semaphore_wait_count);
    assert(has_line(s6, l6));
    let s7 = series_text(PROM_HEAD_TIMEOUTS@, PROM_NAME_TIMEOUTS@, m.timeout_count);
    let l7 = "timeout_count"@ + seq![' '] + decimal(m.timeout_count as nat) + seq!['\n'];
    assert(PROM_NAME_TIMEOUTS@ == "timeout_count"@);
    lemma_series_line(PROM_HEAD_TIMEOUTS@, PROM_NAME_TIMEOUTS@, m.timeout_count);
    assert(has_line(s7, l7));
    let s8 = series_text(PROM_HEAD_PENDING@, PROM_NAME_PENDING@, m.connection_pool_pending);
    let l8 = "connection_pool_pending"@ + seq![' '] + decimal(m.connection_pool_pending as nat) + seq!['\n'];
    assert(PROM_NAME_PENDING@ == "connection_pool_pending"@);
    lemma_series_line(PROM_HEAD_PENDING@, PROM_NAME_PENDING@, m.connection_pool_pending);
    assert(has_line(s8, l8));
    let s9 = series_text(PROM_HEAD_RQ_AVG@, PROM_NAME_RQ_AVG@, average_of(m.runtime_queue_latency_us, m.runtime_queue_latency_count));
    let l9 = "runtime_queue_latency_avg_us"@ + seq![' '] + decimal((if m.runtime_queue_latency_count > 0 { m.runtime_queue_latency_us / m.runtime_queue_latency_count } else { 0 }) as nat) + seq!['\n'];
    assert(PROM_NAME_RQ_AVG@ == "runtime_queue_latency_avg_us"@);
    lemma_series_line(PROM_HEAD_RQ_AVG@, PROM_NAME_RQ_AVG@, average_of(m.runtime_queue_latency_us, m.runtime_queue_latency_count));
    assert(has_line(s9, l9));
    let s10 = series_text(PROM_HEAD_RQ_TOTAL@, PROM_NAME_RQ_TOTAL@, m.runtime_queue_latency_us);
    let l10 = "runtime_queue_latency_total_us"@ + seq![' '] + decimal(m.runtime_queue_latency_us as nat) + seq!['\n'];
    assert(PROM_NAME_RQ_TOTAL@ == "runtime_queue_latency_total_us"@);
    lemma_series_line(PROM_HEAD_RQ_TOTAL@, PROM_NAME_RQ_TOTAL@, m.runtime_queue_latency_us);
    assert(has_line(s10, l10));
    let s11 = series_text(PROM_HEAD_RQ_COUNT@, PROM_NAME_RQ_COUNT@, m.runtime_queue_latency_count);
    let l11 = "runtime_queue_latency_count"@ + seq![' '] + decimal(m.runtime_queue_latency_count as nat) + seq!['\n'];
    assert(PROM_NAME_RQ_COUNT@ == "runtime_queue_latency_count"@);
    lemma_series_line(PROM_HEAD_RQ_COUNT@, PROM_NAME_RQ_COUNT@, m.runtime_queue_latency_count);
    assert(has_line(s11, l11));
    let p0 = s0;
    let p1 = p0 + s1;
    lemma_line_extend_right(p0, s1, l0);
    lemma_line_extend_left(p0, s1, l1);
    assert(p1.last() == s1.last());
    let p2 = p1 + s2;
    lemma_line_extend_right(p1, s2, l0);
    lemma_line_extend_right(p1, s2, l1);
    lemma_line_extend_left(p1, s2, l2);
    assert(p2.last() == s2.last());
    let p3 = p2 + s3;
    lemma_line_extend_right(p2, s3, l0);
    lemma_line_extend_right(p2, s3, l1);
    lemma_line_extend_right(p2, s3, l2);
    lemma_line_extend_left(p2, s3, l3);
    assert(p3.last() == s3.last());
    let p4 = p3 + s4;
    lemma_line_extend_right(p3, s4, l0);
    lemma_line_extend_right(p3, s4, l1);
    lemma_line_extend_right(p3, s4, l2);
    lemma_line_extend_right(p3, s4, l3);
    lemma_line_extend_left(p3, s4, l4);
    assert(p4.last() == s4.last());
    let p5 = p4 + s5;
    lemma_line_extend_right(p4, s5, l0);
    lemma_line_extend_right(p4, s5, l1);
    lemma_line_extend_right(p4, s5, l2);
    lemma_line_extend_right(p4, s5, l3);
    lemma_line_extend_right(p4, s5, l4);
    lemma_line_extend_left(p4, s5, l5);
    assert(p5.last() == s5.last());
    let p6 = p5 + s6;
    lemma_line_extend_right(p5, s6, l0);
    lemma_line_extend_right(p5, s6, l1);
    lemma_line_extend_right(p5, s6, l2);
    lemma_line_extend_right(p5, s6, l3);
    lemma_line_extend_right(p5, s6, l4);
    lemma_line_extend_right(p5, s6, l5);
    lemma_line_extend_left(p5, s6, l6);
    assert(p6.last() == s6.last());
    let p7 = p6 + s7;
    lemma_line_extend_right(p6, s7, l0);
    lemma_line_extend_right(p6, s7, l1);
    lemma_line_extend_right(p6, s7, l2);
    lemma_line_extend_right(p6, s7, l3);
    lemma_line_extend_right(p6, s7, l4);
    lemma_line_extend_right(p6, s7, l5);
    lemma_line_extend_right(p6, s7, l6);
    lemma_line_extend_left(p6, s7, l7);
    assert(p7.last() == s7.last());
    let p8 = p7 + s8;
    lemma_line_extend_right(p7, s8, l0);
    lemma_line_extend_right(p7, s8, l1);
    lemma_line_extend_right(p7, s8, l2);
    lemma_line_extend_right(p7, s8, l3);
    lemma_line_extend_right(p7, s8, l4);
    lemma_line_extend_right(p7, s8, l5);
    lemma_line_extend_right(p7, s8, l6);
    lemma_line_extend_right(p7, s8, l7);
    lemma_line_extend_left(p7, s8, l8);
    assert(p8.last() == s8.last());
    let p9 = p8 + s9;
    lemma_line_extend_right(p8, s9, l0);
    lemma_line_extend_right(p8, s9, l1);
    lemma_line_extend_right(p8, s9, l2);
    lemma_line_extend_right(p8, s9, l3);
    lemma_line_extend_right(p8, s9, l4);
    lemma_line_extend_right(p8, s9, l5);
    lemma_line_extend_right(p8, s9, l6);
    lemma_line_extend_right(p8, s9, l7);
    lemma_line_extend_right(p8, s9, l8);
    lemma_line_extend_left(p8, s9, l9);
    assert(p9.last() == s9.last());
    let p10 = p9 + s10;
    lemma_line_extend_right(p9, s10, l0);
    lemma_line_extend_right(p9, s10, l1);
    lemma_line_extend_right(p9, s10, l2);
    lemma_line_extend_right(p9, s10, l3);
    lemma_line_extend_right(p9, s10, l4);
    lemma_line_extend_right(p9, s10, l5);
    lemma_line_extend_right(p9, s10, l6);
    lemma_line_extend_right(p9, s10, l7);
    lemma_line_extend_right(p9, s10, l8);
    lemma_line_extend_right(p9, s10, l9);
    lemma_line_extend_left(p9, s10, l10);
    assert(p10.last() == s10.last());
    let p11 = p10 + s11;
    lemma_line_extend_right(p10, s11, l0);
    lemma_line_extend_right(p10, s11, l1);
    lemma_line_extend_right(p10, s11, l2);
    lemma_line_extend_right(p10, s11, l3);
    lemma_line_extend_right(p10, s11, l4);
    lemma_line_extend_right(p10, s11, l5);
    lemma_line_extend_right(p10, s11, l6);
    lemma_line_extend_right(p10, s11, l7);
    lemma_line_extend_right(p10, s11, l8);
    lemma_line_extend_right(p10, s11, l9);
    lemma_line_extend_right(p10, s11, l10);
    lemma_line_extend_left(p10, s11, l11);
    assert(p11.last() == s11.last());
    assert(p11 == m.prometheus_text());
}

} // verus!

verus! {

/// Starting a request for the metrics path changes no counter; starting any
/// other request raises the number of requests in flight by one (wrapping
/// from the largest value to zero) and changes nothing else. `request_started`
/// reports an application request exactly for paths other than `/metrics`.
pub proof fn lemma_request_start_effect(m: AppMetrics, path: Seq<char>)
    ensures
        path == "/metrics"@ ==> m.spec_after_request_start(path) == m,
        path != "/metrics"@ ==> m.spec_after_request_start(path) == (AppMetrics {
            inflight_requests: if m.inflight_requests < 0xffff_ffff_ffff_ffff {
                (m.inflight_requests + 1) as u64
            } else {
                0
            },
            ..m
        }),
        is_app_path(path) <==> path != "/metrics"@,
{
}

/// Finishing a request that was not counted changes no counter; finishing an
/// application request adds its latency (cut to 64 bits) to the latency sum,
/// one to the latency count, and takes one from the requests in flight, each
/// wrapping around, and changes nothing else.
pub proof fn lemma_request_end_effect(m: AppMetrics, micros: u128)
    ensures
        m.spec_after_request_end(false, micros) == m,
        m.spec_after_request_end(true, micros) == (AppMetrics {
            downstream_latency_us: ((m.downstream_latency_us as int + (micros as u64) as int)
                % 0x1_0000_0000_0000_0000) as u64,
            downstream_latency_count: if m.downstream_latency_count < 0xffff_ffff_ffff_ffff {
                (m.downstream_latency_count + 1) as u64
            } else {
                0
            },
            inflight_requests: if m.inflight_requests > 0 {
                (m.inflight_requests - 1) as u64
            } else {
                0xffff_ffff_ffff_ffff
            },
            ..m
        }),
{
}

} // verus!
