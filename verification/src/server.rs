//! Request routing and the replies of the three handlers.

use vstd::prelude::*;
use crate::echo::{echo_body, echo_text, RawHeader};
use crate::metrics::{is_app_path, AppMetrics, METRICS_PATH};
use crate::text::same_text;

verus! {

/// The path answered by the echo handler.
pub const ECHO_PATH: &'static str = "/echo";

/// Content types of the three replies.
pub const JSON_CONTENT_TYPE: &'static str = "application/json";
pub const TEXT_CONTENT_TYPE: &'static str = "text/plain; charset=utf-8";
pub const METRICS_CONTENT_TYPE: &'static str = "text/plain; version=0.0.4; charset=utf-8";

/// The body of the greeting reply.
pub const HELLO_BODY: &'static str = "Hello World";

/// Which handler answers a request.
#[derive(Clone, Copy, Debug, PartialEq, Eq, Structural)]
pub enum Route {
    /// `/echo`: the request's path, headers and body as JSON.
    Echo,
    /// `/metrics`: the counters as Prometheus text.
    Metrics,
    /// Any other path: a greeting.
    Hello,
}

/// The handler for `path`.
pub open spec fn route_of(path: Seq<char>) -> Route {
    if path == ECHO_PATH@ {
        Route::Echo
    } else if path == METRICS_PATH@ {
        Route::Metrics
    } else {
        Route::Hello
    }
}

/// A reply: its content type and body.
pub struct Reply {
    pub content_type: String,
    pub body: String,
}

/// The content type and body that answer a request for `path` with headers
/// `raw` and body `body`, given the counters `m`.
pub open spec fn reply_of(m: AppMetrics, path: Seq<char>, raw: Seq<RawHeader>, body: Seq<u8>) -> (Seq<char>, Seq<char>) {
    match route_of(path) {
        Route::Echo => (JSON_CONTENT_TYPE@, echo_text(path, raw, body)),
        Route::Metrics => (METRICS_CONTENT_TYPE@, m.prometheus_text()),
        Route::Hello => (TEXT_CONTENT_TYPE@, HELLO_BODY@),
    }
}

/// Picks the handler for `path`.
pub fn route(path: &str) -> (r: Route)
    ensures
        r == route_of(path@),
{
    if same_text(path, ECHO_PATH) {
        Route::Echo
    } else if same_text(path, METRICS_PATH) {
        Route::Metrics
    } else {
        Route::Hello
    }
}

/// The greeting reply.
pub fn hello_reply() -> (r: Reply)
    ensures
        r.content_type@ == TEXT_CONTENT_TYPE@,
        r.body@ == HELLO_BODY@,
{
    Reply { content_type: String::from_str(TEXT_CONTENT_TYPE), body: String::from_str(HELLO_BODY) }
}

/// The echo reply for a request for `path` with headers `headers` and body `body`.
pub fn echo_reply(path: &str, headers: &Vec<RawHeader>, body: &[u8]) -> (r: Reply)
    ensures
        r.content_type@ == JSON_CONTENT_TYPE@,
        r.body@ == echo_text(path@, headers@, body@),
{
    Reply { content_type: String::from_str(JSON_CONTENT_TYPE), body: echo_body(path, headers, body) }
}

/// The metrics reply: the counters as Prometheus exposition text.
pub fn metrics_reply(m: &AppMetrics) -> (r: Reply)
    ensures
        r.content_type@ == METRICS_CONTENT_TYPE@,
        r.body@ == m.prometheus_text(),
{
    Reply { content_type: String::from_str(METRICS_CONTENT_TYPE), body: m.render_prometheus() }
}

/// Answers a request for `path` with headers `headers` and body `body`, given
/// the counters `m`: `/echo` echoes, `/metrics` shows the counters, anything
/// else greets.
pub fn respond(m: &AppMetrics, path: &str, headers: &Vec<RawHeader>, body: &[u8]) -> (r: Reply)
    ensures
        (r.content_type@, r.body@) == reply_of(*m, path@, headers@, body@),
{
    match route(path) {
        Route::Echo => echo_reply(path, headers, body),
        Route::Metrics => metrics_reply(m),
        Route::Hello => hello_reply(),
    }
}

/// A request is counted as an application request exactly when it is not
/// routed to the metrics handler: the metrics endpoint does not measure itself.
pub proof fn lemma_counted_iff_not_metrics(path: Seq<char>)
    ensures
        is_app_path(path) <==> route_of(path) != Route::Metrics,
{
    reveal_strlit("/echo");
    reveal_strlit("/metrics");
    assert(ECHO_PATH@ != METRICS_PATH@) by {
        assert(ECHO_PATH@.len() != METRICS_PATH@.len());
    }
}

/// Routing matches whole paths exactly: `/echo` and only `/echo` goes to the
/// echo handler, `/metrics` and only `/metrics` to the metrics handler, and
/// every other path (`/echo/`, `/api/echo`, `/`, ...) gets the greeting.
pub proof fn lemma_route_exact(path: Seq<char>)
    ensures
        route_of(path) == Route::Echo <==> path == "/echo"@,
        route_of(path) == Route::Metrics <==> path == "/metrics"@,
        route_of(path) == Route::Hello <==> path != "/echo"@ && path != "/metrics"@,
{
    reveal_strlit("/echo");
    reveal_strlit("/metrics");
    assert("/echo"@ != "/metrics"@) by {
        assert("/echo"@.len() != "/metrics"@.len());
    }
}

} // verus!
