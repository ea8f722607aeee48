//! The request-lifecycle middleware: correlation-id resolution and echo,
//! the started/finished record pair, status passthrough, and the
//! context-level log calls.

use urocyon::args::LogLevel;
use urocyon::context::{begin_request, finish_request, RequestContext};
use urocyon::correlation::looks_like_generated_id;
use urocyon::logs::LogSink;

#[test]
fn generated_id_is_canonical_and_shared_by_both_records() {
    let mut sink = LogSink::new(LogLevel::Trace);
    let f = begin_request("GET", "/", None, &mut sink);
    let done = finish_request(f, 200, &mut sink);
    assert!(looks_like_generated_id(&done.correlation_header));
    assert_eq!(sink.records.len(), 2);
    assert_eq!(sink.records[0].id, done.correlation_header);
    assert_eq!(sink.records[1].id, done.correlation_header);
    assert_eq!(sink.records[0].msg, "Request started.");
    assert_eq!(sink.records[1].msg, "Request Finished.");
}

#[test]
fn two_requests_get_distinct_generated_ids() {
    let mut sink = LogSink::new(LogLevel::Info);
    let first = begin_request("GET", "/", None, &mut sink);
    let second = begin_request("GET", "/", None, &mut sink);
    assert_ne!(first.ctx.id, second.ctx.id);
    assert!(looks_like_generated_id(&first.ctx.id));
    assert!(looks_like_generated_id(&second.ctx.id));
}

#[test]
fn inbound_id_is_used_verbatim_and_echoed() {
    let mut sink = LogSink::new(LogLevel::Trace);
    let f = begin_request("POST", "/users", Some("abc-123".to_string()), &mut sink);
    let done = finish_request(f, 201, &mut sink);
    assert_eq!(done.correlation_header, "abc-123");
    assert_eq!(sink.records.len(), 2);
    assert_eq!(sink.records[0].id, "abc-123");
    assert_eq!(sink.records[1].id, "abc-123");
    assert_eq!(sink.records[0].uri, "/users");
    assert_eq!(sink.records[0].method, "POST");
}

#[test]
fn status_passes_through_unchanged_even_when_not_2xx() {
    let mut sink = LogSink::new(LogLevel::Trace);
    let f = begin_request("GET", "/missing", None, &mut sink);
    let done = finish_request(f, 404, &mut sink);
    assert_eq!(done.status, 404);
    assert_eq!(sink.records[1].status, Some(404));
}

#[test]
fn started_record_has_no_status_or_duration() {
    let mut sink = LogSink::new(LogLevel::Trace);
    let _f = begin_request("GET", "/", None, &mut sink);
    assert_eq!(sink.records.len(), 1);
    assert_eq!(sink.records[0].status, None);
    assert_eq!(sink.records[0].duration_ms, None);
}

#[test]
fn finished_record_carries_status_and_nonnegative_duration() {
    let mut sink = LogSink::new(LogLevel::Trace);
    let f = begin_request("GET", "/", None, &mut sink);
    let done = finish_request(f, 204, &mut sink);
    assert_eq!(sink.records[1].status, Some(204));
    assert_eq!(sink.records[1].duration_ms, Some(done.duration_ms));
}

#[test]
fn context_log_calls_carry_all_correlation_fields() {
    let mut sink = LogSink::new(LogLevel::Trace);
    let ctx = RequestContext {
        id: "abc-123".to_string(),
        uri: "/users".to_string(),
        method: "POST".to_string(),
    };
    ctx.log(&mut sink, LogLevel::Warn, "checking");
    ctx.log_trace(&mut sink, "t");
    ctx.log_debug(&mut sink, "d");
    ctx.log_info(&mut sink, "i");
    ctx.log_warn(&mut sink, "w");
    ctx.log_error(&mut sink, "e");
    assert_eq!(sink.records.len(), 6);
    assert_eq!(sink.records[0].level, LogLevel::Warn);
    assert_eq!(sink.records[0].msg, "checking");
    assert_eq!(sink.records[0].id, "abc-123");
    assert_eq!(sink.records[0].uri, "/users");
    assert_eq!(sink.records[0].method, "POST");
    assert_eq!(sink.records[1].level, LogLevel::Trace);
    assert_eq!(sink.records[5].level, LogLevel::Error);
}

#[test]
fn sink_floor_filters_low_severity_records() {
    let mut sink = LogSink::new(LogLevel::Warn);
    let ctx = RequestContext {
        id: "x".to_string(),
        uri: "/".to_string(),
        method: "GET".to_string(),
    };
    ctx.log_info(&mut sink, "dropped");
    ctx.log_warn(&mut sink, "kept");
    ctx.log_error(&mut sink, "kept too");
    assert_eq!(sink.records.len(), 2);
    assert_eq!(sink.records[0].msg, "kept");
    assert_eq!(sink.records[1].msg, "kept too");
}

#[test]
fn lifecycle_records_are_dropped_below_the_floor() {
    let mut sink = LogSink::new(LogLevel::Error);
    let f = begin_request("GET", "/", None, &mut sink);
    let done = finish_request(f, 200, &mut sink);
    assert_eq!(done.status, 200);
    assert_eq!(sink.records.len(), 0);
}

#[test]
fn uuid_checker_rejects_malformed_ids() {
    assert!(!looks_like_generated_id("abc-123"));
    assert!(!looks_like_generated_id(""));
    assert!(!looks_like_generated_id("00000000-0000-0000-0000-000000000000"));
    assert!(!looks_like_generated_id("ZZZZZZZZ-ZZZZ-4ZZZ-8ZZZ-ZZZZZZZZZZZZ"));
    assert!(looks_like_generated_id("123e4567-e89b-42d3-a456-426614174000"));
}

#[test]
fn absent_context_falls_back_to_empty_fields() {
    let ctx = RequestContext::default();
    assert_eq!(ctx.id, "");
    assert_eq!(ctx.uri, "");
    assert_eq!(ctx.method, "");
}

#[test]
fn empty_inbound_header_counts_as_absent() {
    let mut sink = LogSink::new(LogLevel::Trace);
    let f = begin_request("GET", "/", Some("".to_string()), &mut sink);
    let done = finish_request(f, 200, &mut sink);
    assert!(looks_like_generated_id(&done.correlation_header));
    assert_eq!(sink.records[0].id, done.correlation_header);
    assert_eq!(sink.records[1].id, done.correlation_header);
}
