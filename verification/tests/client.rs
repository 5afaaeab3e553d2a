use rust_iss::clients::{
    conclude, is_success, AfterPause, AttemptOutcome, RequestSpec, RetryState, RetryStep,
    UpstreamClients, BACKOFF_MILLIS, MAX_ATTEMPTS,
};
use rust_iss::config::AppConfig;
use rust_iss::error::ApiError;
use rust_iss::json::{Json, JsonNumber};

fn config(key: &str) -> AppConfig {
    let mut vars = vec![
        ("DATABASE_URL".to_string(), "postgres://db".to_string()),
        ("WHERE_ISS_URL".to_string(), "https://iss.example/now".to_string()),
        ("NASA_API_URL".to_string(), "https://osdr.example/list".to_string()),
    ];
    if !key.is_empty() {
        vars.push(("NASA_API_KEY".to_string(), key.to_string()));
    }
    AppConfig::from_env(&vars).unwrap()
}

fn pairs(request: &RequestSpec) -> Vec<(&str, &str)> {
    request.query.iter().map(|(k, v)| (k.as_str(), v.as_str())).collect()
}

fn failing(state: RetryState, outcome: AttemptOutcome) -> AfterPause {
    match state.record(outcome) {
        RetryStep::Backoff(millis, then) => {
            assert_eq!(millis, 250);
            then
        }
        RetryStep::Done(_) => panic!("a failed attempt ended the fetch"),
    }
}

fn retry(then: AfterPause) -> RetryState {
    match then {
        AfterPause::Retry(state) => state,
        AfterPause::GiveUp(e) => panic!("gave up early with {:?}", e),
    }
}

#[test]
fn retry_policy_constants() {
    assert_eq!(MAX_ATTEMPTS, 3);
    assert_eq!(BACKOFF_MILLIS, 250);
}

#[test]
fn requests_without_api_key_omit_it() {
    let clients = UpstreamClients::new(config(""));
    let iss = clients.fetch_iss();
    assert_eq!(iss.url, "https://iss.example/now");
    assert!(iss.query.is_empty());
    assert_eq!(iss.code, "UPSTREAM_ISS");
    let osdr = clients.fetch_osdr();
    assert_eq!(osdr.url, "https://osdr.example/list");
    assert!(osdr.query.is_empty());
    assert_eq!(osdr.code, "UPSTREAM_OSDR");
    let apod = clients.fetch_apod();
    assert_eq!(apod.url, "https://api.nasa.gov/planetary/apod");
    assert_eq!(pairs(&apod), vec![("thumbs", "true")]);
    assert_eq!(apod.code, "UPSTREAM_APOD");
    let neo = clients.fetch_neo("2025-01-01", "2025-01-03");
    assert_eq!(neo.url, "https://api.nasa.gov/neo/rest/v1/feed");
    assert_eq!(pairs(&neo), vec![("start_date", "2025-01-01"), ("end_date", "2025-01-03")]);
    assert_eq!(neo.code, "UPSTREAM_NEO");
    let donki = clients.fetch_donki("FLR", "2025-01-01", "2025-01-06");
    assert_eq!(donki.url, "https://api.nasa.gov/DONKI/FLR");
    assert_eq!(pairs(&donki), vec![("startDate", "2025-01-01"), ("endDate", "2025-01-06")]);
    assert_eq!(donki.code, "UPSTREAM_DONKI");
    let spacex = clients.fetch_spacex();
    assert_eq!(spacex.url, "https://api.spacexdata.com/v4/launches/next");
    assert!(spacex.query.is_empty());
    assert_eq!(spacex.code, "UPSTREAM_SPACEX");
}

#[test]
fn requests_with_api_key_append_it_last() {
    let clients = UpstreamClients::new(config("demo-key"));
    assert_eq!(pairs(&clients.fetch_apod()), vec![("thumbs", "true"), ("api_key", "demo-key")]);
    assert_eq!(
        pairs(&clients.fetch_neo("a", "b")),
        vec![("start_date", "a"), ("end_date", "b"), ("api_key", "demo-key")]
    );
    assert_eq!(
        pairs(&clients.fetch_donki("CME", "a", "b")),
        vec![("startDate", "a"), ("endDate", "b"), ("api_key", "demo-key")]
    );
    assert!(clients.fetch_iss().query.is_empty());
    assert!(clients.fetch_osdr().query.is_empty());
    assert!(clients.fetch_spacex().query.is_empty());
}

#[test]
fn success_statuses_are_200_to_299() {
    assert!(!is_success(199));
    assert!(is_success(200));
    assert!(is_success(204));
    assert!(is_success(299));
    assert!(!is_success(300));
    assert!(!is_success(404));
    assert!(!is_success(500));
    assert!(!is_success(0));
}

#[test]
fn three_failures_give_one_error_after_three_attempts() {
    let s0 = RetryState::new("UPSTREAM_ISS");
    assert_eq!(s0.attempts(), 0);
    let s1 = retry(failing(s0, AttemptOutcome::SendFailed("timed out".to_string())));
    assert_eq!(s1.attempts(), 1);
    let s2 = retry(failing(s1, AttemptOutcome::Rejected(500)));
    assert_eq!(s2.attempts(), 2);
    match failing(s2, AttemptOutcome::Rejected(503)) {
        AfterPause::GiveUp(ApiError::UpstreamStatus(status, message)) => {
            assert_eq!(status, 503);
            assert_eq!(message, "UPSTREAM_ISS status 503");
        }
        other => panic!("expected the last failure, got {:?}", other),
    }
}

#[test]
fn last_failure_is_the_one_reported() {
    let s1 = retry(failing(RetryState::new("X"), AttemptOutcome::Rejected(404)));
    let s2 = retry(failing(s1, AttemptOutcome::Rejected(429)));
    match failing(s2, AttemptOutcome::SendFailed("connection reset".to_string())) {
        AfterPause::GiveUp(ApiError::Http(message)) => assert_eq!(message, "connection reset"),
        other => panic!("expected the transport failure, got {:?}", other),
    }
}

#[test]
fn success_ends_the_fetch_at_any_attempt() {
    let body = Json::Number(JsonNumber::PosInt(1));
    match RetryState::new("X").record(AttemptOutcome::Parsed(body.clone())) {
        RetryStep::Done(Ok(json)) => assert_eq!(json, body),
        other => panic!("expected the body, got {:?}", other),
    }
    let s1 = retry(failing(RetryState::new("X"), AttemptOutcome::Rejected(500)));
    let s2 = retry(failing(s1, AttemptOutcome::Rejected(500)));
    match s2.record(AttemptOutcome::Parsed(body.clone())) {
        RetryStep::Done(Ok(json)) => assert_eq!(json, body),
        other => panic!("expected the body, got {:?}", other),
    }
}

#[test]
fn unreadable_body_is_a_hard_error() {
    match RetryState::new("X").record(AttemptOutcome::Unreadable("expected value".to_string())) {
        RetryStep::Done(Err(ApiError::Http(message))) => assert_eq!(message, "expected value"),
        other => panic!("expected a transport error at once, got {:?}", other),
    }
}

#[test]
fn rejected_status_outside_http_range_is_reported_as_502() {
    let s1 = retry(failing(RetryState::new("T"), AttemptOutcome::Rejected(99)));
    let s2 = retry(failing(s1, AttemptOutcome::Rejected(100)));
    match failing(s2, AttemptOutcome::Rejected(1000)) {
        AfterPause::GiveUp(ApiError::UpstreamStatus(status, message)) => {
            assert_eq!(status, 502);
            assert_eq!(message, "T status 1000");
        }
        other => panic!("unexpected {:?}", other),
    }
    let s1 = retry(failing(RetryState::new("T"), AttemptOutcome::Rejected(1)));
    let s2 = retry(failing(s1, AttemptOutcome::Rejected(1)));
    match failing(s2, AttemptOutcome::Rejected(999)) {
        AfterPause::GiveUp(ApiError::UpstreamStatus(status, message)) => {
            assert_eq!(status, 999);
            assert_eq!(message, "T status 999");
        }
        other => panic!("unexpected {:?}", other),
    }
}

#[test]
fn conclude_without_failure_reports_empty() {
    match conclude("UPSTREAM_NEO", None) {
        ApiError::UpstreamStatus(status, message) => {
            assert_eq!(status, 502);
            assert_eq!(message, "UPSTREAM_NEO empty");
        }
        other => panic!("unexpected {:?}", other),
    }
    match conclude("UPSTREAM_NEO", Some(ApiError::Http("down".to_string()))) {
        ApiError::Http(message) => assert_eq!(message, "down"),
        other => panic!("unexpected {:?}", other),
    }
}

#[test]
fn transport_follows_the_configuration() {
    let clients = UpstreamClients::new(config(""));
    let transport = clients.transport();
    assert_eq!(transport.timeout_secs, 20);
    assert_eq!(transport.user_agent, "rust_iss/1.0 (+github.com/cursor)");
}
