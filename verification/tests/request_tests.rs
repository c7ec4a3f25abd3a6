use std::collections::HashSet;

use loadgen::config::Protocol;
use loadgen::request::{
    build_payload, build_request_parts, classify, client_settings, correlation_id,
    is_success_status, render_outcome, BodyRead, RequestOutcome, RequestParts, TransportReply,
};

fn assert_alnum(s: &str) {
    assert!(s.chars().all(|c| c.is_ascii_alphanumeric()));
}

#[test]
fn payload_of_two_kb_is_2048_alphanumeric_chars() {
    let payload = build_payload(2);
    assert_eq!(payload.chars().count(), 2048);
    assert_alnum(&payload);
}

#[test]
fn payload_of_size_zero_is_empty() {
    assert_eq!(build_payload(0), "");
}

#[test]
fn correlation_ids_are_printable_tokens() {
    let id = correlation_id();
    assert!(!id.is_empty());
    assert!(id.chars().count() <= 11);
    assert_alnum(&id);
}

#[test]
fn correlation_ids_are_distinct_over_many_draws() {
    let mut seen: HashSet<String> = HashSet::new();
    for _ in 0..100_000 {
        assert!(seen.insert(correlation_id()), "correlation id collision");
    }
}

#[test]
fn header_mode_carries_id_and_payload_as_headers() {
    match build_request_parts("Ab3", 1, &Protocol::Http1) {
        RequestParts::HeaderPair { my_id, random_header } => {
            assert_eq!(my_id, "Ab3");
            assert_eq!(random_header.chars().count(), 1024);
            assert_alnum(&random_header);
        }
        RequestParts::QueryParam { .. } => panic!("header mode should use headers"),
    }
}

#[test]
fn query_string_mode_carries_payload_as_parameter() {
    match build_request_parts("Ab3", 1, &Protocol::QueryString) {
        RequestParts::QueryParam { content } => {
            assert_eq!(content.chars().count(), 1024);
            assert_alnum(&content);
        }
        RequestParts::HeaderPair { .. } => panic!("query-string mode should use parameters"),
    }
}

#[test]
fn success_range_is_2xx() {
    assert!(!is_success_status(199));
    assert!(is_success_status(200));
    assert!(is_success_status(299));
    assert!(!is_success_status(300));
    assert!(!is_success_status(500));
}

#[test]
fn readable_200_yields_one_success_line_with_the_id() {
    let outcome = classify(TransportReply::Responded(200, BodyRead::Read));
    assert!(matches!(outcome, RequestOutcome::Success));
    let line = render_outcome("Zq7w", &outcome);
    assert_eq!(line, "Request Zq7w Succeded");
    assert!(line.contains("Zq7w"));
}

#[test]
fn status_500_yields_one_http_error_line_with_the_id() {
    let outcome = classify(TransportReply::Responded(500, BodyRead::Read));
    match &outcome {
        RequestOutcome::HttpError(status) => assert_eq!(*status, 500),
        _ => panic!("a 500 should classify as an HTTP error"),
    }
    let line = render_outcome("Zq7w", &outcome);
    assert_eq!(line, "Request Zq7w Failed. HTTP 500");
    assert!(line.contains("HTTP 500"));
    assert!(line.contains("Zq7w"));
}

#[test]
fn unreadable_body_on_success_status_is_a_read_error() {
    let outcome = classify(TransportReply::Responded(
        206,
        BodyRead::Failed("connection reset".to_string()),
    ));
    match &outcome {
        RequestOutcome::ResponseReadError(status, cause) => {
            assert_eq!(*status, 206);
            assert_eq!(cause, "connection reset");
        }
        _ => panic!("an unreadable body should classify as a read error"),
    }
    let line = render_outcome("k9", &outcome);
    assert_eq!(line, "Response k9 Failed. HTTP 206: connection reset");
}

#[test]
fn send_failure_is_a_send_error() {
    let outcome = classify(TransportReply::SendFailed("connection refused".to_string()));
    match &outcome {
        RequestOutcome::SendError(cause) => assert_eq!(cause, "connection refused"),
        _ => panic!("a send failure should classify as a send error"),
    }
    let line = render_outcome("k9", &outcome);
    assert_eq!(line, "Request k9 failed to send with error: connection refused");
}

#[test]
fn client_settings_match_the_transport_contract() {
    let s = client_settings(&Protocol::Http1);
    assert_eq!(s.timeout_secs, 30);
    assert_eq!(s.keepalive_secs, 60);
    assert!(s.tcp_nodelay);
    assert_eq!(s.pool_max_idle_per_host, 5);
    assert_eq!(s.pool_idle_timeout_secs, 90);
    assert!(!s.http2_prior_knowledge);
    assert!(client_settings(&Protocol::Http2).http2_prior_knowledge);
    assert!(!client_settings(&Protocol::QueryString).http2_prior_knowledge);
}
