//! Per-request observability: a context opened at request entry with
//! method, path, matched route (or the "unknown" sentinel) and query, and
//! closed at response emission into at most one structured log line —
//! a success line for success statuses, a failure line for classified
//! failures, never both.

use vstd::prelude::*;

verus! {

/// Per-request record, created at request entry and destroyed when the
/// response is emitted; never shared across requests.
pub struct RequestContext {
    pub method: String,
    pub path: String,
    pub route: String,
    pub query: String,
    pub start_ms: u64,
}

/// The one structured line a completed request emits.
pub enum LogLine {
    /// The request succeeded: status and latency are logged.
    Success { status: u16, latency_ms: u64 },
    /// The request is a classified failure: the classification and latency
    /// are logged instead of the success line.
    Failure { status: u16, latency_ms: u64 },
}

/// Whether a status counts as a success for logging.
pub open spec fn is_success_status(status: u16) -> bool {
    200 <= status < 300
}

/// Whether a status is a classified failure: the server-error class.
pub open spec fn is_failure_status(status: u16) -> bool {
    500 <= status < 600
}

/// Latency from context open to response emission, millisecond
/// granularity; a clock reading from before the start counts as zero.
pub open spec fn latency_of(start_ms: u64, now_ms: u64) -> u64 {
    if now_ms >= start_ms {
        (now_ms - start_ms) as u64
    } else {
        0
    }
}

/// The line a completed request emits: one success line, one failure line,
/// or none — the classes are mutually exclusive.
pub open spec fn log_line_of(start_ms: u64, status: u16, now_ms: u64) -> Option<LogLine> {
    if is_success_status(status) {
        Some(LogLine::Success { status, latency_ms: latency_of(start_ms, now_ms) })
    } else if is_failure_status(status) {
        Some(LogLine::Failure { status, latency_ms: latency_of(start_ms, now_ms) })
    } else {
        None
    }
}

/// Opens the per-request context: the given method, path and query, the
/// matched route template — or the "unknown" sentinel when no route
/// matched — and the start timestamp.
pub fn open_context(
    method: String,
    path: String,
    matched_route: Option<String>,
    query: String,
    now_ms: u64,
) -> (r: RequestContext)
    ensures
        r.method == method,
        r.path == path,
        r.query == query,
        r.start_ms == now_ms,
        matched_route matches Some(t) ==> r.route == t,
        matched_route is None ==> r.route@ == "unknown"@,
{
    let route = match matched_route {
        Some(t) => t,
        None => String::from_str("unknown"),
    };
    RequestContext { method, path, route, query, start_ms: now_ms }
}

impl RequestContext {
    /// Closes the context at response emission: a success status yields the
    /// one success line, a classified failure the one failure line, any
    /// other outcome no line, each carrying the measured latency.
    pub fn finish(&self, status: u16, now_ms: u64) -> (r: Option<LogLine>)
        ensures
            r == log_line_of(self.start_ms, status, now_ms),
    {
        let latency_ms: u64 = if now_ms >= self.start_ms {
            now_ms - self.start_ms
        } else {
            0
        };
        if 200 <= status && status < 300 {
            Some(LogLine::Success { status, latency_ms })
        } else if 500 <= status && status < 600 {
            Some(LogLine::Failure { status, latency_ms })
        } else {
            None
        }
    }
}

/// Law: success and failure logging are mutually exclusive — no status is
/// both a success and a classified failure, so a request emits at most one
/// of the two lines.
pub proof fn lemma_log_lines_exclusive(start_ms: u64, status: u16, now_ms: u64)
    ensures
        !(is_success_status(status) && is_failure_status(status)),
        is_success_status(status) ==> (log_line_of(start_ms, status, now_ms) matches Some(l)
            && l is Success),
        is_failure_status(status) ==> (log_line_of(start_ms, status, now_ms) matches Some(l)
            && l is Failure),
{
}

} // verus!
