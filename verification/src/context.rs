//! The request-lifecycle instrumentation. Per inbound request the middleware
//! resolves a correlation id (a non-empty inbound header value verbatim, or
//! a fresh generated id), builds an immutable `RequestContext`, emits a
//! "request started" record, and — once the downstream handler chain has
//! produced a response — emits a "request finished" record carrying the
//! response status and the elapsed wall-clock milliseconds, and echoes the
//! correlation id for the outbound response header. Handler output passes
//! through unchanged: only observability is added.

use vstd::prelude::*;
use vstd::string::StringExecFns;

use crate::args::LogLevel;
use crate::clock::{millis_since, monotonic_now};
use crate::correlation::{fresh_request_id, is_canonical_request_id};
use crate::logs::{emit_model, LogRecord, LogRecordView, LogSink};

verus! {

/// Per-request, ephemeral correlation state: constructed fresh for each
/// inbound request, immutable afterwards, never shared across requests.
pub struct RequestContext {
    pub id: String,
    pub uri: String,
    pub method: String,
}

#[verifier::ext_equal]
pub struct RequestContextView {
    pub id: Seq<char>,
    pub uri: Seq<char>,
    pub method: Seq<char>,
}

impl View for RequestContext {
    type V = RequestContextView;

    open spec fn view(&self) -> RequestContextView {
        RequestContextView { id: self.id@, uri: self.uri@, method: self.method@ }
    }
}

/// The record a context-level log call produces: the message plus the
/// context's correlation fields, with no status or duration.
pub open spec fn message_record(
    level: LogLevel,
    msg: Seq<char>,
    ctx: RequestContextView,
) -> LogRecordView {
    LogRecordView {
        level,
        msg,
        id: ctx.id,
        uri: ctx.uri,
        method: ctx.method,
        status: None,
        duration_ms: None,
    }
}

/// The "request started" record, emitted before the handler chain runs.
pub open spec fn started_record(ctx: RequestContextView) -> LogRecordView {
    message_record(LogLevel::Info, "Request started."@, ctx)
}

/// The "request finished" record: the started fields plus the response
/// status and the measured duration.
pub open spec fn finished_record(
    ctx: RequestContextView,
    status: u16,
    duration_ms: u64,
) -> LogRecordView {
    LogRecordView {
        level: LogLevel::Info,
        msg: "Request Finished."@,
        id: ctx.id,
        uri: ctx.uri,
        method: ctx.method,
        status: Some(status),
        duration_ms: Some(duration_ms),
    }
}

/// A handler that finds no context attached falls back to empty fields
/// rather than failing.
impl Default for RequestContext {
    fn default() -> (r: RequestContext)
        ensures
            r@.id.len() == 0,
            r@.uri.len() == 0,
            r@.method.len() == 0,
    {
        RequestContext { id: String::new(), uri: String::new(), method: String::new() }
    }
}

impl RequestContext {
    fn record(&self, level: LogLevel, msg: &str) -> (r: LogRecord)
        ensures
            r@ == message_record(level, msg@, self@),
    {
        let r = LogRecord {
            level,
            msg: String::from_str(msg),
            id: self.id.clone(),
            uri: self.uri.clone(),
            method: self.method.clone(),
            status: None,
            duration_ms: None,
        };
        proof {
            assert(r@ =~= message_record(level, msg@, self@));
        }
        r
    }

    /// Emits one structured record at `level`, carrying `msg` and the
    /// context's correlation fields. Safe to call any number of times.
    pub fn log(&self, sink: &mut LogSink, level: LogLevel, msg: &str)
        ensures
            final (sink)@ == emit_model(old(sink)@, message_record(level, msg@, self@)),
    {
        let r = self.record(level, msg);
        sink.emit(r);
    }

    pub fn log_trace(&self, sink: &mut LogSink, msg: &str)
        ensures
            final (sink)@ == emit_model(old(sink)@, message_record(LogLevel::Trace, msg@, self@)),
    {
        self.log(sink, LogLevel::Trace, msg)
    }

    pub fn log_debug(&self, sink: &mut LogSink, msg: &str)
        ensures
            final (sink)@ == emit_model(old(sink)@, message_record(LogLevel::Debug, msg@, self@)),
    {
        self.log(sink, LogLevel::Debug, msg)
    }

    pub fn log_info(&self, sink: &mut LogSink, msg: &str)
        ensures
            final (sink)@ == emit_model(old(sink)@, message_record(LogLevel::Info, msg@, self@)),
    {
        self.log(sink, LogLevel::Info, msg)
    }

    pub fn log_warn(&self, sink: &mut LogSink, msg: &str)
        ensures
            final (sink)@ == emit_model(old(sink)@, message_record(LogLevel::Warn, msg@, self@)),
    {
        self.log(sink, LogLevel::Warn, msg)
    }

    pub fn log_error(&self, sink: &mut LogSink, msg: &str)
        ensures
            final (sink)@ == emit_model(old(sink)@, message_record(LogLevel::Error, msg@, self@)),
    {
        self.log(sink, LogLevel::Error, msg)
    }
}

/// A request the middleware has admitted but whose handler chain has not
/// yet completed: the context plus the instant the measurement started.
pub struct InFlightRequest {
    pub ctx: RequestContext,
    pub started: std::time::Instant,
}

/// What the middleware settles once the handler chain completes: the value
/// for the outbound correlation header, the response status it passes
/// through unchanged, and the measured duration.
pub struct CompletedExchange {
    pub correlation_header: String,
    pub status: u16,
    pub duration_ms: u64,
}

/// Admits one inbound request: resolves the correlation id — the inbound
/// header value verbatim when a non-empty one was supplied, a fresh
/// generated id otherwise — builds the context, emits the
/// "request started" record, and starts the wall-clock measurement. An
/// absent or empty inbound value counts as not supplied, so the id is
/// always non-empty. The caller then runs the downstream handler chain and
/// hands the outcome to `finish_request`.
pub fn begin_request(
    method: &str,
    uri: &str,
    inbound_id: Option<String>,
    sink: &mut LogSink,
) -> (f: InFlightRequest)
    ensures
        f.ctx@.method == method@,
        f.ctx@.uri == uri@,
        f.ctx@.id.len() > 0,
        match inbound_id {
            Some(v) => if v@.len() > 0 {
                f.ctx@.id == v@
            } else {
                is_canonical_request_id(f.ctx@.id)
            },
            None => is_canonical_request_id(f.ctx@.id),
        },
        final (sink)@ == emit_model(old(sink)@, started_record(f.ctx@)),
{
    let id = match inbound_id {
        Some(v) => if v.as_str().is_empty() {
            fresh_request_id()
        } else {
            v
        },
        None => fresh_request_id(),
    };
    let ctx = RequestContext { id, uri: String::from_str(uri), method: String::from_str(method) };
    ctx.log(sink, LogLevel::Info, "Request started.");
    let started = monotonic_now();
    InFlightRequest { ctx, started }
}

/// Completes one request: measures the elapsed wall-clock milliseconds,
/// emits the "request finished" record carrying the handler chain's status
/// unchanged, and yields the correlation id for the outbound header.
pub fn finish_request(f: InFlightRequest, status: u16, sink: &mut LogSink) -> (done:
    CompletedExchange)
    ensures
        done.status == status,
        done.correlation_header@ == f.ctx@.id,
        final (sink)@ == emit_model(old(sink)@, finished_record(f.ctx@, status, done.duration_ms)),
{
    let InFlightRequest { ctx, started } = f;
    let duration_ms = millis_since(&started);
    let r = LogRecord {
        level: LogLevel::Info,
        msg: String::from_str("Request Finished."),
        id: ctx.id.clone(),
        uri: ctx.uri,
        method: ctx.method,
        status: Some(status),
        duration_ms: Some(duration_ms),
    };
    proof {
        assert(r@ =~= finished_record(f.ctx@, status, duration_ms));
    }
    sink.emit(r);
    CompletedExchange { correlation_header: ctx.id, status, duration_ms }
}

/// Both lifecycle records of one request carry the same correlation id —
/// the id resolved when the request began, which is also the value echoed
/// on the outbound response header. The finished record carries exactly the
/// status the handler chain produced and a non-negative duration.
pub proof fn lemma_correlation_consistency(ctx: RequestContextView, status: u16, duration_ms: u64)
    ensures
        started_record(ctx).id == ctx.id,
        finished_record(ctx, status, duration_ms).id == ctx.id,
        started_record(ctx).id == finished_record(ctx, status, duration_ms).id,
        finished_record(ctx, status, duration_ms).status == Some(status),
        finished_record(ctx, status, duration_ms).duration_ms == Some(duration_ms),
        duration_ms >= 0,
{
}

/// A router capability: wrapping the whole route table in the
/// request-lifecycle middleware.
pub trait RequestContextExtension: Sized {
    spec fn is_instrumented(&self) -> bool;

    fn with_trace_layer(self) -> (r: Self)
        ensures
            r.is_instrumented(),
    ;
}

} // verus!
