use rust_iss::domain::Health;
use rust_iss::error::{ApiEnvelope, ApiError};
use rust_iss::instant::UtcInstant;

#[test]
fn ok_envelope_carries_data() {
    let env = ApiEnvelope::ok(5u8);
    assert!(env.ok);
    assert_eq!(env.data, Some(5));
    assert!(env.error.is_none());
}

#[test]
fn error_codes_messages_and_statuses() {
    let cases = [
        (ApiError::Db("no pool".to_string()), "DB_ERROR", "no pool", 500u16),
        (ApiError::Http("timed out".to_string()), "HTTP_ERROR", "timed out", 500),
        (
            ApiError::UpstreamStatus(503, "UPSTREAM_ISS status 503".to_string()),
            "UPSTREAM_STATUS",
            "UPSTREAM_ISS status 503",
            503,
        ),
        (ApiError::Invalid("bad limit".to_string()), "INVALID_INPUT", "bad limit", 400),
    ];
    for (error, code, message, status) in cases {
        assert_eq!(error.code(), code);
        assert_eq!(error.message(), message);
        assert_eq!(error.status(), status);
        let reply = error.report("trace-1".to_string());
        assert_eq!(reply.status, 200);
        assert!(!reply.body.ok);
        assert!(reply.body.data.is_none());
        let body = reply.body.error.unwrap();
        assert_eq!(body.code, code);
        assert_eq!(body.message, message);
        assert_eq!(body.trace_id, "trace-1");
    }
}

#[test]
fn error_response_carries_a_fresh_trace_id() {
    let first = ApiError::Invalid("x".to_string()).into_response();
    let second = ApiError::Invalid("x".to_string()).into_response();
    let a = first.body.error.unwrap();
    let b = second.body.error.unwrap();
    assert_eq!(first.status, 200);
    assert_eq!(a.code, "INVALID_INPUT");
    assert_eq!(a.message, "x");
    assert_eq!(a.trace_id.chars().count(), 36);
    assert_eq!(b.trace_id.chars().count(), 36);
    assert_ne!(a.trace_id, b.trace_id);
    assert_eq!(a.trace_id.matches('-').count(), 4);
}

#[test]
fn error_clone_is_equal() {
    let e = ApiError::UpstreamStatus(404, "gone".to_string());
    let c = e.clone();
    assert_eq!(c.status(), 404);
    assert_eq!(c.message(), "gone");
    assert_eq!(c.code(), e.code());
}

#[test]
fn health_is_ok_now() {
    let now = UtcInstant { secs: 1_700_000_000, nanos: 5 };
    let health = Health::up(now);
    assert_eq!(health.status, "ok");
    assert_eq!(health.now, now);
}
