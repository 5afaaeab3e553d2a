use chrono::{Datelike, NaiveDate};
use rust_iss::config::AppConfig;
use rust_iss::error::ApiError;
use rust_iss::instant::{last_days, CivilDate};
use rust_iss::scheduler::{
    job_calls, settle, spawn_jobs, JobAction, JobEvent, JobKind, JobSpec, JobState, OnFailure,
    PlannedCall, ServiceCall, Verdict,
};

fn day(y: i32, m: u32, d: u32) -> CivilDate {
    CivilDate { days_from_ce: NaiveDate::from_ymd_opt(y, m, d).unwrap().num_days_from_ce() }
}

fn default_config() -> AppConfig {
    AppConfig::from_env(&vec![("DATABASE_URL".to_string(), "postgres://db".to_string())]).unwrap()
}

fn iss_job() -> JobSpec {
    spawn_jobs(&default_config())[0]
}

fn kinds(actions: &[JobAction]) -> Vec<String> {
    actions.iter().map(|a| format!("{:?}", a)).collect()
}

#[test]
fn jobs_have_their_names_periods_and_locks() {
    let jobs = spawn_jobs(&default_config());
    let seen: Vec<(JobKind, &str, u64, i64)> =
        jobs.iter().map(|j| (j.kind, j.name, j.seconds, j.lock_id)).collect();
    assert_eq!(
        seen,
        vec![
            (JobKind::Iss, "iss", 120, 10_001),
            (JobKind::Osdr, "osdr", 600, 10_002),
            (JobKind::Apod, "apod", 43_200, 10_003),
            (JobKind::Neo, "neo", 7_200, 10_004),
            (JobKind::Donki, "donki", 3_600, 10_005),
            (JobKind::Spacex, "spacex", 3_600, 10_006),
        ]
    );
}

#[test]
fn job_periods_follow_the_configuration() {
    let vars = vec![
        ("DATABASE_URL".to_string(), "x".to_string()),
        ("ISS_EVERY_SECONDS".to_string(), "5".to_string()),
        ("FETCH_EVERY_SECONDS".to_string(), "6".to_string()),
        ("APOD_EVERY_SECONDS".to_string(), "7".to_string()),
        ("NEO_EVERY_SECONDS".to_string(), "8".to_string()),
        ("DONKI_EVERY_SECONDS".to_string(), "9".to_string()),
        ("SPACEX_EVERY_SECONDS".to_string(), "10".to_string()),
    ];
    let cfg = AppConfig::from_env(&vars).unwrap();
    let seconds: Vec<u64> = spawn_jobs(&cfg).iter().map(|j| j.seconds).collect();
    assert_eq!(seconds, vec![5, 6, 7, 8, 9, 10]);
}

#[test]
fn denied_lock_skips_the_tick() {
    let job = iss_job();
    let (state, actions) = job.step(JobState::Waiting, JobEvent::Tick);
    assert_eq!(state, JobState::Waiting);
    assert_eq!(kinds(&actions), vec!["TryLock(10001)"]);
    let (state, actions) = job.step(state, JobEvent::LockDenied);
    assert_eq!(state, JobState::Waiting);
    assert!(actions.is_empty());
}

#[test]
fn acquired_lock_runs_the_body_and_is_released() {
    let job = iss_job();
    let (state, actions) = job.step(JobState::Waiting, JobEvent::LockAcquired);
    assert_eq!(state, JobState::Running);
    assert_eq!(kinds(&actions), vec!["RunBody"]);
    let (state, actions) = job.step(state, JobEvent::BodyDone(Ok(())));
    assert_eq!(state, JobState::Waiting);
    assert_eq!(kinds(&actions), vec!["LogDone", "Unlock(10001)"]);
}

#[test]
fn failed_body_is_logged_and_the_lock_released() {
    let job = spawn_jobs(&default_config())[4];
    let (state, _) = job.step(JobState::Waiting, JobEvent::LockAcquired);
    let failure = ApiError::Db("pool closed".to_string());
    let (state, actions) = job.step(state, JobEvent::BodyDone(Err(failure)));
    assert_eq!(state, JobState::Waiting);
    assert_eq!(actions.len(), 2);
    match &actions[0] {
        JobAction::LogFailed(ApiError::Db(message)) => assert_eq!(message, "pool closed"),
        other => panic!("unexpected {:?}", other),
    }
    match &actions[1] {
        JobAction::Unlock(key) => assert_eq!(*key, 10_005),
        other => panic!("unexpected {:?}", other),
    }
}

#[test]
fn unexpected_events_change_nothing() {
    let job = iss_job();
    for event in [JobEvent::Tick, JobEvent::LockAcquired, JobEvent::LockDenied] {
        let (state, actions) = job.step(JobState::Running, event);
        assert_eq!(state, JobState::Running);
        assert!(actions.is_empty());
    }
    let (state, actions) = job.step(JobState::Waiting, JobEvent::BodyDone(Ok(())));
    assert_eq!(state, JobState::Waiting);
    assert!(actions.is_empty());
}

#[test]
fn job_bodies_call_their_services() {
    let today = day(2025, 3, 10);
    let one = |call: ServiceCall, on_failure: OnFailure| vec![PlannedCall { call, on_failure }];
    assert_eq!(
        job_calls(JobKind::Iss, today),
        Some(one(ServiceCall::FetchAndStore, OnFailure::Propagate))
    );
    assert_eq!(job_calls(JobKind::Osdr, today), Some(one(ServiceCall::Sync, OnFailure::Swallow)));
    assert_eq!(job_calls(JobKind::Apod, today), Some(one(ServiceCall::Apod, OnFailure::Warn)));
    assert_eq!(
        job_calls(JobKind::Neo, today),
        Some(one(
            ServiceCall::Neo("2025-03-08".to_string(), "2025-03-10".to_string()),
            OnFailure::Warn
        ))
    );
    assert_eq!(
        job_calls(JobKind::Donki, today),
        Some(vec![
            PlannedCall {
                call: ServiceCall::Donki("FLR", "2025-03-05".to_string(), "2025-03-10".to_string()),
                on_failure: OnFailure::Warn,
            },
            PlannedCall {
                call: ServiceCall::Donki("CME", "2025-03-05".to_string(), "2025-03-10".to_string()),
                on_failure: OnFailure::Warn,
            },
        ])
    );
    assert_eq!(
        job_calls(JobKind::Spacex, today),
        Some(one(ServiceCall::Spacex, OnFailure::Swallow))
    );
}

#[test]
fn job_bodies_without_a_calendar_window() {
    let beyond = CivilDate { days_from_ce: i32::MAX };
    assert_eq!(job_calls(JobKind::Neo, beyond), None);
    assert_eq!(job_calls(JobKind::Donki, beyond), None);
    assert!(job_calls(JobKind::Iss, beyond).is_some());
    let first = CivilDate { days_from_ce: NaiveDate::MIN.num_days_from_ce() };
    assert!(first.text().is_some());
    assert_eq!(job_calls(JobKind::Neo, first), None);
}

#[test]
fn settle_follows_the_policy() {
    let failure = || Err(ApiError::Http("down".to_string()));
    assert!(matches!(settle(OnFailure::Propagate, Ok(())), Verdict::Passed));
    assert!(matches!(settle(OnFailure::Warn, Ok(())), Verdict::Passed));
    assert!(matches!(settle(OnFailure::Swallow, Ok(())), Verdict::Passed));
    match settle(OnFailure::Propagate, failure()) {
        Verdict::Failed(ApiError::Http(m)) => assert_eq!(m, "down"),
        other => panic!("unexpected {:?}", other),
    }
    match settle(OnFailure::Warn, failure()) {
        Verdict::Warned(ApiError::Http(m)) => assert_eq!(m, "down"),
        other => panic!("unexpected {:?}", other),
    }
    assert!(matches!(settle(OnFailure::Swallow, failure()), Verdict::Ignored));
}

#[test]
fn last_days_window_texts() {
    assert_eq!(
        last_days(day(2025, 3, 2), 5),
        Some(("2025-02-25".to_string(), "2025-03-02".to_string()))
    );
    assert_eq!(
        last_days(day(2024, 3, 1), 1),
        Some(("2024-02-29".to_string(), "2024-03-01".to_string()))
    );
    assert_eq!(
        last_days(day(2025, 1, 1), 0),
        Some(("2025-01-01".to_string(), "2025-01-01".to_string()))
    );
    assert_eq!(
        last_days(day(2025, 1, 15), 30),
        Some(("2024-12-16".to_string(), "2025-01-15".to_string()))
    );
    assert_eq!(last_days(day(2025, 1, 1), -1), None);
    assert_eq!(last_days(day(2025, 1, 1), i64::MAX), None);
}

#[test]
fn civil_date_text_and_days_before() {
    assert_eq!(day(2015, 9, 5).text().as_deref(), Some("2015-09-05"));
    assert_eq!(day(0, 1, 1).text().as_deref(), Some("0000-01-01"));
    assert_eq!(day(10000, 12, 31).text().as_deref(), Some("+10000-12-31"));
    assert_eq!(day(-1, 1, 1).text().as_deref(), Some("-0001-01-01"));
    assert_eq!(CivilDate { days_from_ce: i32::MIN }.text(), None);
    assert_eq!(day(2025, 1, 1).days_before(1), Some(day(2024, 12, 31)));
    assert_eq!(day(2025, 1, 1).days_before(366), Some(day(2024, 1, 1)));
    assert_eq!(day(2025, 1, 1).days_before(1 << 31), None);
    assert_eq!(CivilDate { days_from_ce: i32::MIN + 1 }.days_before(2), None);
    assert_eq!(
        CivilDate { days_from_ce: i32::MIN + 1 }.days_before(1),
        Some(CivilDate { days_from_ce: i32::MIN })
    );
    for back in [0u64, 1, 28, 365, 100_000] {
        let got = day(2025, 6, 15).days_before(back).unwrap().text().unwrap();
        let expected = NaiveDate::from_ymd_opt(2025, 6, 15).unwrap() - chrono::Days::new(back);
        assert_eq!(got, expected.to_string());
    }
}
