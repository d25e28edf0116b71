use tripo3d_sdk::http::{
    backoff, body_read_error, can_retry, classify_status, classify_transport_err, decide_attempt,
    delay_ms, download_status_error, indeterminate_status_error, is_idempotent_method, is_success_code,
    parse_envelope, total_attempts, transport_error, AttemptDecision, AttemptOutcome, HttpConfig,
    HttpMethod, RetrySafety, TransportFailure, INDETERMINATE_HINT,
};
use tripo3d_sdk::models::{Envelope, TaskCreated};
use tripo3d_sdk::Error;

const DROPPED: TransportFailure = TransportFailure {
    is_connect: false,
    is_timeout: false,
    is_request: true,
    is_body: false,
};
const REFUSED: TransportFailure = TransportFailure {
    is_connect: true,
    is_timeout: false,
    is_request: false,
    is_body: false,
};

/// Plays the retry policy against a server that answers every attempt with
/// `outcome`, and counts the attempts made before it stops.
fn attempts_against(outcome: AttemptOutcome, retries: u32, method: HttpMethod) -> (u32, AttemptDecision) {
    let total = total_attempts(None, retries);
    let idempotent = is_idempotent_method(&method);
    let mut attempt = 0u32;
    loop {
        attempt += 1;
        let d = decide_attempt(attempt, total, idempotent, &outcome);
        if d != AttemptDecision::Retry {
            return (attempt, d);
        }
    }
}

fn is_indeterminate(err: &Error) -> bool {
    matches!(err, Error::Request { indeterminate: true, .. })
}

#[test]
fn billable_post_is_not_replayed_when_connection_drops_mid_flight() {
    let (hits, decision) = attempts_against(AttemptOutcome::Transport(DROPPED), 2, HttpMethod::Post);
    assert_eq!(hits, 1, "must submit exactly once");
    assert_eq!(decision, AttemptDecision::FailTransport { indeterminate: true });
    let err = transport_error("connection reset", true);
    assert!(is_indeterminate(&err), "must be flagged indeterminate");
    assert!(err.describe().contains("billed twice"), "should warn about double billing");
}

#[test]
fn billable_post_is_replayed_when_server_declines_outright() {
    let (hits, decision) = attempts_against(AttemptOutcome::Status(429), 2, HttpMethod::Post);
    assert_eq!(hits, 3, "want 3 attempts (retries: 2)");
    assert_eq!(decision, AttemptDecision::Deliver);
    let (hits, _) = attempts_against(AttemptOutcome::Transport(REFUSED), 2, HttpMethod::Post);
    assert_eq!(hits, 3, "a refused connection never delivered the request");
}

#[test]
fn billable_post_is_not_replayed_on_ambiguous_statuses() {
    for status in [500u16, 502, 504] {
        let (hits, decision) = attempts_against(AttemptOutcome::Status(status), 2, HttpMethod::Post);
        assert_eq!(hits, 1, "HTTP {status}: must submit exactly once");
        assert_eq!(decision, AttemptDecision::FailIndeterminate);
        let err = indeterminate_status_error(status, Some("nope".to_string()));
        assert!(is_indeterminate(&err), "HTTP {status}: must be flagged indeterminate");
    }
}

#[test]
fn idempotent_get_is_still_retried() {
    let (hits, decision) = attempts_against(AttemptOutcome::Transport(DROPPED), 2, HttpMethod::Get);
    assert_eq!(hits, 3, "reads stay retryable");
    assert_eq!(decision, AttemptDecision::FailTransport { indeterminate: false });
    assert!(!is_indeterminate(&transport_error("reset", false)), "reads are never indeterminate");
    for status in [500u16, 429] {
        let (hits, _) = attempts_against(AttemptOutcome::Status(status), 2, HttpMethod::Get);
        assert_eq!(hits, 3, "HTTP {status}: reads stay retryable");
    }
}

#[test]
fn http_500_triggers_retries_then_request_error() {
    let (hits, decision) = attempts_against(AttemptOutcome::Status(500), 1, HttpMethod::Get);
    assert_eq!(hits, 2);
    assert_eq!(decision, AttemptDecision::Deliver);
    let r: Result<TaskCreated, Error> =
        parse_envelope(b"internal boom", Err("expected value at line 1 column 1".to_string()), Some(500));
    match r {
        Err(Error::Request { message, status, body, indeterminate }) => {
            assert_eq!(message, "malformed response: expected value at line 1 column 1");
            assert_eq!(status, Some(500));
            assert_eq!(body.as_deref(), Some("internal boom"));
            assert!(!indeterminate);
        }
        other => panic!("expected Error::Request, got {other:?}"),
    }
}

#[test]
fn success_is_delivered_and_fatal_statuses_are_not_retried() {
    for code in [200u16, 201, 299] {
        assert_eq!(decide_attempt(1, 3, false, &AttemptOutcome::Status(code)), AttemptDecision::Deliver);
    }
    assert_eq!(decide_attempt(1, 3, true, &AttemptOutcome::Status(404)), AttemptDecision::Deliver);
    assert_eq!(decide_attempt(1, 3, false, &AttemptOutcome::Status(400)), AttemptDecision::Deliver);
    let fatal = TransportFailure { is_connect: false, is_timeout: false, is_request: false, is_body: false };
    assert_eq!(
        decide_attempt(1, 3, true, &AttemptOutcome::Transport(fatal)),
        AttemptDecision::FailTransport { indeterminate: false }
    );
}

#[test]
fn retry_safety_classification() {
    assert_eq!(classify_status(429), RetrySafety::Clean);
    assert_eq!(classify_status(503), RetrySafety::Clean);
    for code in [408u16, 425, 500, 502, 504] {
        assert_eq!(classify_status(code), RetrySafety::Unknown);
    }
    assert_eq!(classify_status(404), RetrySafety::Fatal);
    assert_eq!(classify_transport_err(&REFUSED), RetrySafety::Clean);
    assert_eq!(classify_transport_err(&DROPPED), RetrySafety::Unknown);
    assert!(can_retry(RetrySafety::Clean, false));
    assert!(!can_retry(RetrySafety::Unknown, false));
    assert!(can_retry(RetrySafety::Unknown, true));
    assert!(!can_retry(RetrySafety::Fatal, true));
    assert!(is_idempotent_method(&HttpMethod::Head));
    assert!(is_idempotent_method(&HttpMethod::Options));
    assert!(!is_idempotent_method(&HttpMethod::Put));
    assert_eq!(total_attempts(Some(0), 2), 1);
    assert_eq!(total_attempts(Some(u32::MAX), 2), u32::MAX as u64 + 1);
}

#[test]
fn backoff_doubles_up_to_eight_seconds_and_honours_retry_after() {
    assert_eq!(delay_ms(1, None, 0), 1000);
    assert_eq!(delay_ms(2, None, 10), 2010);
    assert_eq!(delay_ms(3, None, 249), 4249);
    assert_eq!(delay_ms(4, None, 0), 8000);
    assert_eq!(delay_ms(100, None, 0), 8000);
    assert_eq!(delay_ms(0, None, 0), 1000);
    assert_eq!(delay_ms(3, Some(1500), 100), 1500);
    assert_eq!(delay_ms(3, Some(120_000), 100), 30_000);
    for attempt in 1..6u32 {
        let ms = backoff(attempt, None);
        let base = delay_ms(attempt, None, 0);
        assert!(base <= ms && ms < base + 250, "attempt {attempt}: {ms}");
    }
    assert_eq!(backoff(1, Some(0)), 0);
}

#[test]
fn api_error_response_raises_error_api() {
    let env: Envelope<TaskCreated> = Envelope {
        code: 2010,
        data: None,
        message: Some("Insufficient credits".into()),
        suggestion: Some("Please top up your account".into()),
    };
    match parse_envelope(b"{...}", Ok(env), Some(200)) {
        Err(Error::Api { code, message, suggestion, status }) => {
            assert_eq!(code, 2010);
            assert_eq!(message.as_deref(), Some("Insufficient credits"));
            assert_eq!(suggestion.as_deref(), Some("Please top up your account"));
            assert_eq!(status, Some(200));
        }
        other => panic!("expected Error::Api, got {other:?}"),
    }
}

#[test]
fn envelope_yields_its_data_or_a_request_error() {
    let ok: Envelope<TaskCreated> = Envelope {
        code: 0,
        data: Some(TaskCreated { task_id: "task_123".into() }),
        message: None,
        suggestion: None,
    };
    assert_eq!(parse_envelope(b"{...}", Ok(ok), Some(200)).unwrap().task_id, "task_123");
    let missing: Envelope<TaskCreated> = Envelope { code: 0, data: None, message: None, suggestion: None };
    match parse_envelope(b"{...}", Ok(missing), Some(200)) {
        Err(Error::Request { message, .. }) => {
            assert_eq!(message, "response envelope had code=0 but no `data` field")
        }
        other => panic!("unexpected {other:?}"),
    }
    match parse_envelope::<TaskCreated>(b"", Err("eof".into()), None) {
        Err(Error::Request { message, status, body, .. }) => {
            assert_eq!(message, "empty response body");
            assert_eq!(status, None);
            assert_eq!(body, None);
        }
        other => panic!("unexpected {other:?}"),
    }
    match parse_envelope::<TaskCreated>(&[0x61, 0xff, 0x62], Err("bad".into()), Some(502)) {
        Err(Error::Request { body, .. }) => assert_eq!(body.as_deref(), Some("a\u{FFFD}b")),
        other => panic!("unexpected {other:?}"),
    }
}

#[test]
fn request_urls_join_base_and_path() {
    let config = HttpConfig {
        base_url: "https://openapi.tripo3d.com/v3//".into(),
        api_key: "k".into(),
        timeout_ms: 1000,
        retries: 0,
        user_agent: "ua".into(),
    };
    assert_eq!(config.url("/tasks/t1"), "https://openapi.tripo3d.com/v3/tasks/t1");
    assert_eq!(config.url("account/balance"), "https://openapi.tripo3d.com/v3/account/balance");
    assert_eq!(config.url("https://cdn/blob/model.glb"), "https://cdn/blob/model.glb");
    assert_eq!(config.url("http://x/y"), "http://x/y");
}

#[test]
fn error_messages_read_as_the_client_reports_them() {
    let e = body_read_error("closed", Some(200), false);
    assert_eq!(
        e.describe(),
        format!("request error: failed to read response body: closed; {INDETERMINATE_HINT} (HTTP 200)")
    );
    let e = body_read_error("closed", Some(200), true);
    assert_eq!(e.describe(), "request error: failed to read response body: closed (HTTP 200)");
    let e = download_status_error(404, None);
    assert_eq!(e.describe(), "request error: download failed with HTTP 404 (HTTP 404)");
    let e = Error::Api { code: -7, message: Some("m".into()), suggestion: None, status: None };
    assert_eq!(e.describe(), "Tripo API error (code=-7): m");
    let e = Error::Api { code: 2010, message: None, suggestion: Some("s".into()), status: None };
    assert_eq!(e.describe(), "Tripo API error (code=2010) — s");
    assert_eq!(Error::invalid_argument("x").describe(), "invalid argument: x");
    let e = Error::Timeout { task_id: "t".into(), timeout_ms: 20 };
    assert_eq!(e.describe(), "timed out after 20ms waiting for task t");
    assert_eq!(Error::Io("gone".into()).describe(), "I/O error: gone");
    assert_eq!(Error::Serde("bad".into()).describe(), "serialization error: bad");
}

#[test]
fn success_codes_are_the_2xx_range() {
    assert!(!is_success_code(199));
    assert!(is_success_code(200));
    assert!(is_success_code(204));
    assert!(is_success_code(299));
    assert!(!is_success_code(300));
    assert!(!is_success_code(404));
}
