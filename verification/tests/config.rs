use rust_iss::config::{AppConfig, ConfigError};

fn vars(pairs: &[(&str, &str)]) -> Vec<(String, String)> {
    pairs.iter().map(|(k, v)| (k.to_string(), v.to_string())).collect()
}

#[test]
fn config_needs_database_url() {
    let made = AppConfig::from_env(&vars(&[("NASA_API_KEY", "k")]));
    assert_eq!(made.err(), Some(ConfigError::MissingDatabaseUrl));
    assert_eq!(ConfigError::MissingDatabaseUrl.message(), "DATABASE_URL is required");
    assert!(AppConfig::from_env(&vars(&[])).is_err());
}

#[test]
fn config_defaults() {
    let cfg = AppConfig::from_env(&vars(&[("DATABASE_URL", "postgres://u@h/db")])).unwrap();
    assert_eq!(cfg.database_url, "postgres://u@h/db");
    assert_eq!(
        cfg.nasa_url,
        "https://visualization.osdr.nasa.gov/biodata/api/v2/datasets/?format=json"
    );
    assert_eq!(cfg.nasa_key, "");
    assert_eq!(cfg.where_iss_url, "https://api.wheretheiss.at/v1/satellites/25544");
    assert_eq!(cfg.every_osdr, 600);
    assert_eq!(cfg.every_iss, 120);
    assert_eq!(cfg.every_apod, 43_200);
    assert_eq!(cfg.every_neo, 7_200);
    assert_eq!(cfg.every_donki, 3_600);
    assert_eq!(cfg.every_spacex, 3_600);
    assert_eq!(cfg.http_timeout, 20);
    assert_eq!(cfg.http_user_agent, "rust_iss/1.0 (+github.com/cursor)");
    assert_eq!(cfg.db_max_connections, 8);
    assert_eq!(cfg.osdr_list_limit, 20);
    assert_eq!(cfg.trend_limit_default, 240);
}

#[test]
fn config_reads_every_variable() {
    let cfg = AppConfig::from_env(&vars(&[
        ("NASA_API_URL", "https://n"),
        ("NASA_API_KEY", "key"),
        ("WHERE_ISS_URL", "https://w"),
        ("HTTP_TIMEOUT_SECONDS", "3"),
        ("HTTP_USER_AGENT", "agent"),
        ("DB_MAX_CONNECTIONS", "4"),
        ("FETCH_EVERY_SECONDS", "11"),
        ("ISS_EVERY_SECONDS", "12"),
        ("APOD_EVERY_SECONDS", "13"),
        ("NEO_EVERY_SECONDS", "14"),
        ("DONKI_EVERY_SECONDS", "15"),
        ("SPACEX_EVERY_SECONDS", "16"),
        ("OSDR_LIST_LIMIT", "17"),
        ("TREND_LIMIT", "18"),
        ("DATABASE_URL", "db"),
    ]))
    .unwrap();
    assert_eq!(cfg.database_url, "db");
    assert_eq!(cfg.nasa_url, "https://n");
    assert_eq!(cfg.nasa_key, "key");
    assert_eq!(cfg.where_iss_url, "https://w");
    assert_eq!(cfg.http_timeout, 3);
    assert_eq!(cfg.http_user_agent, "agent");
    assert_eq!(cfg.db_max_connections, 4);
    assert_eq!(
        (cfg.every_osdr, cfg.every_iss, cfg.every_apod, cfg.every_neo, cfg.every_donki),
        (11, 12, 13, 14, 15)
    );
    assert_eq!(cfg.every_spacex, 16);
    assert_eq!(cfg.osdr_list_limit, 17);
    assert_eq!(cfg.trend_limit_default, 18);
}

#[test]
fn config_number_that_does_not_parse_falls_back() {
    let cfg = AppConfig::from_env(&vars(&[
        ("DATABASE_URL", "db"),
        ("ISS_EVERY_SECONDS", "soon"),
        ("NEO_EVERY_SECONDS", "-5"),
        ("APOD_EVERY_SECONDS", ""),
        ("DONKI_EVERY_SECONDS", " 30"),
        ("SPACEX_EVERY_SECONDS", "+30"),
        ("FETCH_EVERY_SECONDS", "18446744073709551616"),
    ]))
    .unwrap();
    assert_eq!(cfg.every_iss, 120);
    assert_eq!(cfg.every_neo, 7_200);
    assert_eq!(cfg.every_apod, 43_200);
    assert_eq!(cfg.every_donki, 3_600);
    assert_eq!(cfg.every_spacex, 30);
    assert_eq!(cfg.every_osdr, 600);
}

#[test]
fn config_narrow_fields_wrap() {
    let cfg = AppConfig::from_env(&vars(&[
        ("DATABASE_URL", "db"),
        ("DB_MAX_CONNECTIONS", "4294967299"),
        ("OSDR_LIST_LIMIT", "18446744073709551615"),
        ("TREND_LIMIT", "9223372036854775808"),
    ]))
    .unwrap();
    assert_eq!(cfg.db_max_connections, 4294967299u64 as u32);
    assert_eq!(cfg.db_max_connections, 3);
    assert_eq!(cfg.osdr_list_limit, -1);
    assert_eq!(cfg.trend_limit_default, i64::MIN);
}

#[test]
fn config_first_variable_of_a_name_counts() {
    let cfg = AppConfig::from_env(&vars(&[
        ("DATABASE_URL", "first"),
        ("DATABASE_URL", "second"),
        ("database_url", "third"),
    ]))
    .unwrap();
    assert_eq!(cfg.database_url, "first");
    let copy = cfg.clone();
    assert_eq!(copy.database_url, cfg.database_url);
    assert_eq!(copy.http_timeout, cfg.http_timeout);
    assert_eq!(copy.trend_limit_default, cfg.trend_limit_default);
}
