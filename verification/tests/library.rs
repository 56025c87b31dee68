use echo_server::config::ServerConfig;
use echo_server::echo::{convert_headers, debug_headers, echo_body, RawHeader, TextHeader};
use echo_server::greeter::{HelloRequest, MyGreeter};
use echo_server::metrics::{average, AppMetrics};
use echo_server::reporter::{AppReport, Reporter};
use echo_server::server::{echo_reply, hello_reply, metrics_reply, respond, route, Route};
use echo_server::text::{decimal_string, same_text};

fn raw(name: &str, value: &[u8]) -> RawHeader {
    RawHeader { name: name.to_string(), value: value.to_vec() }
}

fn text_pairs(hs: &[TextHeader]) -> Vec<(String, String)> {
    hs.iter().map(|h| (h.name.clone(), h.value.clone())).collect()
}

fn sample_metrics() -> AppMetrics {
    AppMetrics {
        inflight_requests: 3,
        downstream_latency_us: 1000,
        downstream_latency_count: 3,
        semaphore_wait_us: 50,
        semaphore_wait_count: 0,
        timeout_count: 7,
        connection_pool_pending: 2,
        runtime_queue_latency_us: 99,
        runtime_queue_latency_count: 10,
    }
}

/// The exposition text exactly as the server's handler formats it.
fn expected_prometheus(m: &AppMetrics) -> String {
    let inflight = m.inflight_requests;
    let dl_sum = m.downstream_latency_us;
    let dl_count = m.downstream_latency_count;
    let dl_avg = if dl_count > 0 { dl_sum / dl_count } else { 0 };
    let sw_sum = m.semaphore_wait_us;
    let sw_count = m.semaphore_wait_count;
    let sw_avg = if sw_count > 0 { sw_sum / sw_count } else { 0 };
    let timeouts = m.timeout_count;
    let pending = m.connection_pool_pending;
    let rq_sum = m.runtime_queue_latency_us;
    let rq_count = m.runtime_queue_latency_count;
    let rq_avg = if rq_count > 0 { rq_sum / rq_count } else { 0 };
    format!(
        "# HELP inflight_requests Number of requests currently being processed\n\
         # TYPE inflight_requests gauge\n\
         inflight_requests {inflight}\n\
         \n\
         # HELP downstream_latency_avg_us Average downstream response latency (us)\n\
         # TYPE downstream_latency_avg_us gauge\n\
         downstream_latency_avg_us {dl_avg}\n\
         # HELP downstream_latency_total_us Cumulative downstream response latency (us)\n\
         # TYPE downstream_latency_total_us counter\n\
         downstream_latency_total_us {dl_sum}\n\
         # HELP downstream_latency_count Total measured requests\n\
         # TYPE downstream_latency_count counter\n\
         downstream_latency_count {dl_count}\n\
         \n\
         # HELP semaphore_wait_avg_us Average semaphore acquisition wait time (us)\n\
         # TYPE semaphore_wait_avg_us gauge\n\
         semaphore_wait_avg_us {sw_avg}\n\
         # HELP semaphore_wait_total_us Cumulative semaphore wait time (us)\n\
         # TYPE semaphore_wait_total_us counter\n\
         semaphore_wait_total_us {sw_sum}\n\
         # HELP semaphore_wait_count Total semaphore acquisitions\n\
         # TYPE semaphore_wait_count counter\n\
         semaphore_wait_count {sw_count}\n\
         \n\
         # HELP timeout_count Total timed-out connections\n\
         # TYPE timeout_count counter\n\
         timeout_count {timeouts}\n\
         \n\
         # HELP connection_pool_pending Connections waiting for semaphore permit\n\
         # TYPE connection_pool_pending gauge\n\
         connection_pool_pending {pending}\n\
         \n\
         # HELP runtime_queue_latency_avg_us Average spawn-to-first-poll latency (us)\n\
         # TYPE runtime_queue_latency_avg_us gauge\n\
         runtime_queue_latency_avg_us {rq_avg}\n\
         # HELP runtime_queue_latency_total_us Cumulative spawn-to-first-poll latency (us)\n\
         # TYPE runtime_queue_latency_total_us counter\n\
         runtime_queue_latency_total_us {rq_sum}\n\
         # HELP runtime_queue_latency_count Total spawned tasks measured\n\
         # TYPE runtime_queue_latency_count counter\n\
         runtime_queue_latency_count {rq_count}\n"
    )
}

#[test]
fn decimal_text_of_numbers() {
    assert_eq!(decimal_string(0), "0");
    assert_eq!(decimal_string(7), "7");
    assert_eq!(decimal_string(10), "10");
    assert_eq!(decimal_string(4096), "4096");
    assert_eq!(decimal_string(u64::MAX), "18446744073709551615");
}

#[test]
fn decimal_text_reads_back() {
    for n in [0u64, 1, 9, 10, 99, 100, 12345, u64::MAX] {
        assert_eq!(decimal_string(n).parse::<u64>().unwrap(), n);
    }
}

#[test]
fn text_comparison() {
    assert!(same_text("/metrics", "/metrics"));
    assert!(!same_text("/metrics", "/metric"));
    assert!(!same_text("/echo", "/ECHO"));
    assert!(same_text("", ""));
    assert!(same_text("héllo", "héllo"));
    assert!(!same_text("héllo", "hello"));
}

#[test]
fn new_metrics_are_zero() {
    let m = AppMetrics::new();
    assert_eq!(
        m,
        AppMetrics {
            inflight_requests: 0,
            downstream_latency_us: 0,
            downstream_latency_count: 0,
            semaphore_wait_us: 0,
            semaphore_wait_count: 0,
            timeout_count: 0,
            connection_pool_pending: 0,
            runtime_queue_latency_us: 0,
            runtime_queue_latency_count: 0,
        }
    );
}

#[test]
fn queue_latency_is_recorded() {
    let mut m = AppMetrics::new();
    m.record_queue_latency(120);
    m.record_queue_latency(30);
    assert_eq!(m.runtime_queue_latency_us, 150);
    assert_eq!(m.runtime_queue_latency_count, 2);
    assert_eq!(m.inflight_requests, 0);
}

#[test]
fn queue_latency_is_cut_to_u64() {
    let mut m = AppMetrics::new();
    m.record_queue_latency((1u128 << 64) + 5);
    assert_eq!(m.runtime_queue_latency_us, 5);
}

#[test]
fn counters_wrap_around() {
    let mut m = AppMetrics::new();
    m.permit_timed_out();
    assert_eq!(m.connection_pool_pending, u64::MAX);
    assert_eq!(m.timeout_count, 1);
    m.begin_permit_wait();
    assert_eq!(m.connection_pool_pending, 0);
    let mut big = AppMetrics::new();
    big.semaphore_wait_us = u64::MAX;
    big.permit_acquired(2);
    assert_eq!(big.semaphore_wait_us, 1);
}

#[test]
fn permit_wait_round_trip() {
    let mut m = sample_metrics();
    m.begin_permit_wait();
    assert_eq!(m.connection_pool_pending, 3);
    m.permit_acquired(40);
    assert_eq!(m.connection_pool_pending, 2);
    assert_eq!(m.semaphore_wait_us, 90);
    assert_eq!(m.semaphore_wait_count, 1);
    m.begin_permit_wait();
    m.permit_timed_out();
    assert_eq!(m.connection_pool_pending, 2);
    assert_eq!(m.timeout_count, 8);
}

#[test]
fn app_request_round_trip() {
    let mut m = sample_metrics();
    let is_app = m.request_started("/echo");
    assert!(is_app);
    assert_eq!(m.inflight_requests, 4);
    m.request_finished(is_app, 250);
    assert_eq!(m.inflight_requests, 3);
    assert_eq!(m.downstream_latency_us, 1250);
    assert_eq!(m.downstream_latency_count, 4);
}

#[test]
fn metrics_request_is_not_counted() {
    let before = sample_metrics();
    let mut m = before;
    let is_app = m.request_started("/metrics");
    assert!(!is_app);
    m.request_finished(is_app, 999);
    assert_eq!(m, before);
}

#[test]
fn averages() {
    assert_eq!(average(10, 3), 3);
    assert_eq!(average(9, 3), 3);
    assert_eq!(average(5, 0), 0);
    assert_eq!(average(0, 4), 0);
}

#[test]
fn prometheus_text_of_sample() {
    let m = sample_metrics();
    let text = m.render_prometheus();
    assert_eq!(text, expected_prometheus(&m));
    assert!(text.contains("downstream_latency_avg_us 333\n"));
    assert!(text.contains("semaphore_wait_avg_us 0\n"));
    assert!(text.contains("runtime_queue_latency_avg_us 9\n"));
}

#[test]
fn prometheus_text_of_fresh_counters() {
    let m = AppMetrics::new();
    assert_eq!(m.render_prometheus(), expected_prometheus(&m));
}

#[test]
fn reporter_first_window() {
    let mut r = Reporter::new();
    let report = r.step(&sample_metrics());
    assert_eq!(
        report,
        AppReport {
            inflight_requests: 3,
            downstream_latency_avg: 333,
            downstream_requests: 3,
            semaphore_wait_avg: 0,
            semaphore_acquisitions: 0,
            new_timeouts: 7,
            total_timeouts: 7,
            connection_pool_pending: 2,
            runtime_queue_latency_avg: 9,
            runtime_queue_tasks: 10,
        }
    );
    assert_eq!(r.prev_downstream_latency_us, 1000);
    assert_eq!(r.prev_timeout_count, 7);
}

#[test]
fn reporter_windows_add_up() {
    let m1 = sample_metrics();
    let mut m2 = m1;
    m2.downstream_latency_us += 600;
    m2.downstream_latency_count += 2;
    m2.timeout_count += 1;
    m2.runtime_queue_latency_count += 5;
    let mut r = Reporter::new();
    let a = r.step(&m1);
    let b = r.step(&m2);
    assert_eq!(b.downstream_requests, 2);
    assert_eq!(b.downstream_latency_avg, 300);
    assert_eq!(a.downstream_requests + b.downstream_requests, m2.downstream_latency_count);
    assert_eq!(a.new_timeouts + b.new_timeouts, m2.timeout_count);
    assert_eq!(a.runtime_queue_tasks + b.runtime_queue_tasks, m2.runtime_queue_latency_count);
}

#[test]
fn reporter_quiet_window() {
    let m = sample_metrics();
    let mut r = Reporter::new();
    r.step(&m);
    let quiet = r.step(&m);
    assert_eq!(quiet.downstream_requests, 0);
    assert_eq!(quiet.downstream_latency_avg, 0);
    assert_eq!(quiet.new_timeouts, 0);
    assert_eq!(quiet.total_timeouts, 7);
    assert_eq!(quiet.inflight_requests, 3);
}

#[test]
fn reporter_saturates_when_counters_fall() {
    let mut high = sample_metrics();
    high.downstream_latency_count = 100;
    high.downstream_latency_us = 100;
    let mut r = Reporter::new();
    r.step(&high);
    let low = sample_metrics();
    let report = r.step(&low);
    assert_eq!(report.downstream_requests, 0);
    assert_eq!(report.downstream_latency_avg, 0);
}

#[test]
fn report_block_text() {
    let report = AppReport {
        inflight_requests: 1,
        downstream_latency_avg: 20,
        downstream_requests: 3,
        semaphore_wait_avg: 4,
        semaphore_acquisitions: 5,
        new_timeouts: 6,
        total_timeouts: 7,
        connection_pool_pending: 8,
        runtime_queue_latency_avg: 9,
        runtime_queue_tasks: 10,
    };
    let expected = "---------- APP METRICS (5s) -------\n\
                    inflight_requests:       1\n\
                    downstream_latency_avg:  20 us  (3 reqs)\n\
                    semaphore_wait_avg:      4 us  (5 acqs)\n\
                    timeout_count:           +6  (total 7)\n\
                    connection_pool_pending: 8\n\
                    runtime_queue_latency:   9 us  (10 tasks)\n\
                    ===================================\n";
    assert_eq!(report.render(), expected);
}

#[test]
fn headers_last_value_wins() {
    let headers = vec![
        raw("host", b"localhost"),
        raw("accept", b"*/*"),
        raw("host", b"example.org"),
    ];
    let merged = convert_headers(&headers);
    assert_eq!(
        text_pairs(&merged),
        vec![
            ("host".to_string(), "example.org".to_string()),
            ("accept".to_string(), "*/*".to_string()),
        ]
    );
}

#[test]
fn headers_invalid_utf8_is_replaced() {
    let headers = vec![raw("x-bin", &[b'a', 0xff, b'b']), raw("x-utf", "ü".as_bytes())];
    let merged = convert_headers(&headers);
    assert_eq!(merged[0].value, "a\u{FFFD}b");
    assert_eq!(merged[1].value, "ü");
}

#[test]
fn headers_empty() {
    let merged = convert_headers(&Vec::new());
    assert!(merged.is_empty());
    assert_eq!(debug_headers(&merged), "{}");
}

#[test]
fn headers_debug_notation() {
    let hs = vec![
        TextHeader { name: "a".to_string(), value: "1".to_string() },
        TextHeader { name: "b".to_string(), value: "x\"y\n".to_string() },
    ];
    assert_eq!(debug_headers(&hs), "{\"a\": \"1\", \"b\": \"x\\\"y\\n\"}");
}

#[test]
fn echo_body_of_request() {
    let headers = vec![raw("host", b"localhost")];
    let body = echo_body("/echo", &headers, b"");
    assert_eq!(body, "{\"path\":\"/echo\",\"headers\":\"{\\\"host\\\": \\\"localhost\\\"}\",\"body\":\"\"}");
}

#[test]
fn echo_body_without_headers() {
    assert_eq!(echo_body("/echo", &Vec::new(), b""), "{\"path\":\"/echo\",\"headers\":\"{}\",\"body\":\"\"}");
}

#[test]
fn echo_body_escapes_path() {
    let body = echo_body("/a\"b\\c", &Vec::new(), b"");
    assert_eq!(body, "{\"path\":\"/a\\\"b\\\\c\",\"headers\":\"{}\",\"body\":\"\"}");
}

#[test]
fn echo_body_is_json() {
    let headers = vec![raw("x-a", b"1\t2"), raw("x-b", &[0xc3, 0x28])];
    let body = echo_body("/echo", &headers, &[b'o', b'k', 0xff]);
    let v: serde_json::Value = serde_json::from_str(&body).unwrap();
    assert_eq!(v["path"], "/echo");
    assert_eq!(v["headers"], "{\"x-a\": \"1\\t2\", \"x-b\": \"\u{FFFD}(\"}");
    assert_eq!(v["body"], "ok\u{FFFD}");
}

#[test]
fn echo_body_of_request_body() {
    let body = echo_body("/echo", &Vec::new(), "{\"k\": 1}\n".as_bytes());
    let v: serde_json::Value = serde_json::from_str(&body).unwrap();
    assert_eq!(v["body"], "{\"k\": 1}\n");
    assert!(body.ends_with(",\"body\":\"{\\\"k\\\": 1}\\n\"}"));
}

#[test]
fn routing() {
    assert_eq!(route("/echo"), Route::Echo);
    assert_eq!(route("/metrics"), Route::Metrics);
    assert_eq!(route("/"), Route::Hello);
    assert_eq!(route("/echo/"), Route::Hello);
    assert_eq!(route("/api/delay"), Route::Hello);
}

#[test]
fn replies() {
    let hello = hello_reply();
    assert_eq!(hello.content_type, "text/plain; charset=utf-8");
    assert_eq!(hello.body, "Hello World");
    let echo = echo_reply("/echo", &Vec::new(), b"ping");
    assert_eq!(echo.body, "{\"path\":\"/echo\",\"headers\":\"{}\",\"body\":\"ping\"}");
    assert_eq!(echo.content_type, "application/json");
    let m = sample_metrics();
    let metrics = metrics_reply(&m);
    assert_eq!(metrics.content_type, "text/plain; version=0.0.4; charset=utf-8");
    assert_eq!(metrics.body, expected_prometheus(&m));
}

#[test]
fn respond_dispatches_by_path() {
    let m = sample_metrics();
    let headers = vec![raw("host", b"h")];
    let r = respond(&m, "/anything", &headers, b"x");
    assert_eq!(r.body, "Hello World");
    let r = respond(&m, "/metrics", &headers, b"x");
    assert_eq!(r.body, expected_prometheus(&m));
    let r = respond(&m, "/echo", &headers, b"x");
    assert_eq!(r.content_type, "application/json");
    assert_eq!(r.body, echo_body("/echo", &headers, b"x"));
}

#[test]
fn greeting() {
    let greeter = MyGreeter::default();
    let reply = greeter.say_hello(HelloRequest { name: "Tonic".to_string() });
    assert_eq!(reply.message, "Hello Tonic!");
    let reply = greeter.say_hello(HelloRequest { name: String::new() });
    assert_eq!(reply.message, "Hello !");
}

#[test]
fn listen_addresses() {
    let config = ServerConfig::default();
    assert_eq!(config.http_port, 80);
    assert_eq!(config.max_concurrency, 4096);
    assert_eq!(config.listen_address(), "0.0.0.0:80");
    let custom = ServerConfig { http_port: 8080, max_concurrency: 1 };
    assert_eq!(custom.listen_address(), "0.0.0.0:8080");
}
