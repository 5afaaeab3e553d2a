use chrono::{Datelike, NaiveDate};
use rust_iss::clients::UpstreamClients;
use rust_iss::config::AppConfig;
use rust_iss::instant::CivilDate;
use rust_iss::routes::{donki_kind, donki_window, neo_window, summary_sources, CacheSource};
use rust_iss::scheduler::ServiceCall;
use rust_iss::services::{IssService, OsdrService, SpaceService};

fn config() -> AppConfig {
    AppConfig::from_env(&vec![
        ("DATABASE_URL".to_string(), "db".to_string()),
        ("NASA_API_KEY".to_string(), "k".to_string()),
    ])
    .unwrap()
}

#[test]
fn position_recording_plan() {
    let cfg = config();
    let service = IssService::new(UpstreamClients::new(cfg.clone()), cfg);
    let plan = service.fetch_and_store();
    assert_eq!(plan.request.url, "https://api.wheretheiss.at/v1/satellites/25544");
    assert_eq!(plan.request.code, "UPSTREAM_ISS");
    assert!(plan.request.query.is_empty());
    assert_eq!(plan.source_url, "https://api.wheretheiss.at/v1/satellites/25544");
}

#[test]
fn catalog_sync_plan() {
    let service = OsdrService::new(UpstreamClients::new(config()));
    let request = service.sync();
    assert_eq!(
        request.url,
        "https://visualization.osdr.nasa.gov/biodata/api/v2/datasets/?format=json"
    );
    assert_eq!(request.code, "UPSTREAM_OSDR");
    assert!(request.query.is_empty());
}

#[test]
fn cache_refresh_plans() {
    let service = SpaceService::new(UpstreamClients::new(config()));
    let apod = service.apod();
    assert_eq!(apod.source, "apod");
    assert_eq!(apod.request.code, "UPSTREAM_APOD");
    assert_eq!(apod.request.query.len(), 2);
    let neo = service.neo("2025-01-01", "2025-01-02");
    assert_eq!(neo.source, "neo");
    assert_eq!(neo.request.query[0], ("start_date".to_string(), "2025-01-01".to_string()));
    assert_eq!(neo.request.query[1], ("end_date".to_string(), "2025-01-02".to_string()));
    assert_eq!(neo.request.query[2], ("api_key".to_string(), "k".to_string()));
    let flr = service.donki("FLR", "a", "b");
    assert_eq!(flr.source, "flr");
    assert_eq!(flr.request.url, "https://api.nasa.gov/DONKI/FLR");
    let cme = service.donki("CME", "a", "b");
    assert_eq!(cme.source, "cme");
    assert_eq!(cme.request.url, "https://api.nasa.gov/DONKI/CME");
    let other = service.donki("Gst", "a", "b");
    assert_eq!(other.source, "gst");
    assert_eq!(other.request.url, "https://api.nasa.gov/DONKI/Gst");
    let spacex = service.spacex();
    assert_eq!(spacex.source, "spacex");
    assert_eq!(spacex.request.code, "UPSTREAM_SPACEX");
}

#[test]
fn refresh_calls_of_each_slot() {
    let day = NaiveDate::from_ymd_opt(2025, 3, 10).unwrap();
    let today = CivilDate { days_from_ce: day.num_days_from_ce() };
    assert_eq!(CacheSource::Apod.call(today), Some(ServiceCall::Apod));
    assert_eq!(CacheSource::Spacex.call(today), Some(ServiceCall::Spacex));
    assert_eq!(
        CacheSource::Neo.call(today),
        Some(ServiceCall::Neo("2025-03-08".to_string(), "2025-03-10".to_string()))
    );
    assert_eq!(
        CacheSource::Flr.call(today),
        Some(ServiceCall::Donki("FLR", "2025-03-05".to_string(), "2025-03-10".to_string()))
    );
    assert_eq!(
        CacheSource::Cme.call(today),
        Some(ServiceCall::Donki("CME", "2025-03-05".to_string(), "2025-03-10".to_string()))
    );
    let beyond = CivilDate { days_from_ce: i32::MIN };
    assert_eq!(CacheSource::Neo.call(beyond), None);
    assert_eq!(CacheSource::Apod.call(beyond), Some(ServiceCall::Apod));
}

#[test]
fn request_defaults_at_the_boundary() {
    let day = NaiveDate::from_ymd_opt(2025, 2, 26).unwrap();
    let today = CivilDate { days_from_ce: day.num_days_from_ce() };
    assert_eq!(donki_kind(None), "CME");
    assert_eq!(donki_kind(Some("flr".to_string())), "flr");
    assert_eq!(
        neo_window(today, None, None),
        Some(("2025-02-26".to_string(), "2025-03-05".to_string()))
    );
    assert_eq!(
        neo_window(today, Some("a".to_string()), None),
        Some(("a".to_string(), "2025-03-05".to_string()))
    );
    assert_eq!(
        neo_window(today, Some("a".to_string()), Some("b".to_string())),
        Some(("a".to_string(), "b".to_string()))
    );
    assert_eq!(
        donki_window(today, None, None),
        Some(("2025-01-27".to_string(), "2025-02-26".to_string()))
    );
    assert_eq!(
        donki_window(today, None, Some("z".to_string())),
        Some(("2025-01-27".to_string(), "z".to_string()))
    );
    let last = CivilDate { days_from_ce: NaiveDate::MAX.num_days_from_ce() };
    assert_eq!(neo_window(last, None, None), None);
    assert!(neo_window(last, None, Some("e".to_string())).is_some());
    assert!(donki_window(last, None, None).is_some());
    assert_eq!(donki_window(CivilDate { days_from_ce: i32::MIN }, None, None), None);
    let names: Vec<&str> = summary_sources().iter().map(|s| s.name()).collect();
    assert_eq!(names, vec!["apod", "neo", "flr", "cme", "spacex"]);
    assert_eq!(today.days_after(3), Some(CivilDate { days_from_ce: today.days_from_ce + 3 }));
    assert_eq!(CivilDate { days_from_ce: i32::MAX }.days_after(1), None);
    assert_eq!(today.days_after(1 << 31), None);
}
