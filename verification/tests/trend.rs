use rust_iss::domain::IssPoint;
use rust_iss::instant::UtcInstant;
use rust_iss::routes::CacheSource::{self, Apod, Cme, Flr, Neo, Spacex};
use rust_iss::routes::{list_query_limit, refresh_targets, source_of_name, trend_query_limit};
use rust_iss::services::{trend_limit, IssService, SpaceService, TrendShape};

fn point(secs: i64, nanos: u32, lat: bool, lon: bool) -> IssPoint {
    IssPoint { at: UtcInstant { secs, nanos }, has_latitude: lat, has_longitude: lon }
}

#[test]
fn trend_of_fewer_than_two_samples_is_empty() {
    assert_eq!(IssService::trend(&vec![]), TrendShape { pairs: vec![], dt_millis: Some(0) });
    assert_eq!(
        IssService::trend(&vec![point(100, 0, true, true)]),
        TrendShape { pairs: vec![], dt_millis: Some(0) }
    );
}

#[test]
fn trend_of_two_located_samples() {
    let shape = IssService::trend(&vec![point(1_000, 0, true, true), point(1_060, 0, true, true)]);
    assert_eq!(shape.pairs, vec![0]);
    assert_eq!(shape.dt_millis, Some(60_000));
}

#[test]
fn trend_counts_only_pairs_with_both_positions() {
    let points = vec![
        point(0, 0, true, true),
        point(10, 0, true, true),
        point(20, 0, true, false),
        point(30, 0, true, true),
        point(40, 0, true, true),
        point(50, 0, false, true),
        point(60, 500_000_000, true, true),
    ];
    let shape = IssService::trend(&points);
    assert_eq!(shape.pairs, vec![0, 3]);
    assert_eq!(shape.dt_millis, Some(60_500));
}

#[test]
fn trend_span_is_exact_and_signed() {
    let a = point(5, 999_000_000, false, false);
    let b = point(7, 1_000_000, false, false);
    assert_eq!(IssService::trend(&vec![a, b]).dt_millis, Some(1_002));
    assert_eq!(IssService::trend(&vec![b, a]).dt_millis, Some(-1_002));
    let c = point(5, 999_999_999, false, false);
    let d = point(6, 0, false, false);
    assert_eq!(IssService::trend(&vec![c, d]).dt_millis, Some(0));
    assert_eq!(IssService::trend(&vec![d, c]).dt_millis, Some(0));
    assert_eq!(IssService::trend(&vec![a, a]).dt_millis, Some(0));
    assert_eq!(IssService::trend(&vec![a, b, a]).pairs, Vec::<usize>::new());
}

#[test]
fn trend_span_beyond_the_calendar_is_none() {
    let far = point(i64::MAX, 0, true, true);
    let near = point(0, 0, true, true);
    let shape = IssService::trend(&vec![near, far]);
    assert_eq!(shape.pairs, vec![0]);
    assert_eq!(shape.dt_millis, None);
}

#[test]
fn trend_limit_has_a_floor_of_two() {
    assert_eq!(trend_limit(240), 240);
    assert_eq!(trend_limit(2), 2);
    assert_eq!(trend_limit(1), 2);
    assert_eq!(trend_limit(0), 2);
    assert_eq!(trend_limit(-10), 2);
    assert_eq!(trend_limit(i64::MAX), i64::MAX);
}

#[test]
fn query_limits_are_clamped() {
    assert_eq!(trend_query_limit(None, 240), 240);
    assert_eq!(trend_query_limit(Some(5), 240), 5);
    assert_eq!(trend_query_limit(Some(1), 240), 2);
    assert_eq!(trend_query_limit(Some(5_000), 240), 1_000);
    assert_eq!(trend_query_limit(None, 0), 2);
    assert_eq!(trend_query_limit(None, i64::MAX), 1_000);
    assert_eq!(list_query_limit(None, 20), 20);
    assert_eq!(list_query_limit(Some(0), 20), 1);
    assert_eq!(list_query_limit(Some(-4), 20), 1);
    assert_eq!(list_query_limit(Some(500), 20), 500);
    assert_eq!(list_query_limit(Some(501), 20), 500);
    assert_eq!(list_query_limit(None, -1), 1);
}

#[test]
fn donki_source_is_the_lowercase_kind() {
    assert_eq!(SpaceService::donki_source("CME"), "cme");
    assert_eq!(SpaceService::donki_source("FLR"), "flr");
    assert_eq!(SpaceService::donki_source("cme"), "cme");
    assert_eq!(SpaceService::donki_source("Flr"), "flr");
    assert_eq!(SpaceService::donki_source("GST"), "gst");
    assert_eq!(SpaceService::donki_source("\u{c9}T\u{c9}"), "\u{e9}t\u{e9}");
    assert_eq!(SpaceService::donki_source(""), "");
}

#[test]
fn refresh_list_names_the_slots() {
    assert_eq!(refresh_targets(None), vec![Apod, Neo, Flr, Cme, Spacex]);
    assert_eq!(refresh_targets(Some("apod")), vec![Apod]);
    assert_eq!(refresh_targets(Some(" APOD , Neo,unknown,,spaceX ,flr")), vec![Apod, Neo, Spacex, Flr]);
    assert_eq!(refresh_targets(Some("cme,cme")), vec![Cme, Cme]);
    assert_eq!(refresh_targets(Some("")), Vec::<CacheSource>::new());
    assert_eq!(refresh_targets(Some("apod;neo")), Vec::<CacheSource>::new());
    assert_eq!(refresh_targets(Some("\tneo\n")), vec![Neo]);
}

#[test]
fn slot_names() {
    for source in [Apod, Neo, Flr, Cme, Spacex] {
        assert_eq!(source_of_name(source.name()), Some(source));
    }
    assert_eq!(Apod.name(), "apod");
    assert_eq!(Spacex.name(), "spacex");
    assert_eq!(source_of_name("Apod"), None);
    assert_eq!(source_of_name(""), None);
}

#[test]
fn trend_span_rounds_towards_zero_over_a_grid() {
    let secs = [-86_401i64, -61, -1, 0, 1, 59, 60, 86_399, 1_700_000_000];
    let nanos = [0u32, 1, 499_999, 500_000, 999_999, 1_000_000, 500_000_000, 999_999_999];
    for &s1 in &secs {
        for &n1 in &nanos {
            for &s2 in &secs {
                for &n2 in &nanos {
                    let a = point(s1, n1, false, false);
                    let b = point(s2, n2, false, false);
                    let total = (s2 as i128 - s1 as i128) * 1_000_000_000 + (n2 as i128 - n1 as i128);
                    let expected = (total / 1_000_000) as i64;
                    assert_eq!(IssService::trend(&vec![a, b]).dt_millis, Some(expected));
                }
            }
        }
    }
}

#[test]
fn trend_span_of_a_leap_second_is_counted_by_the_calendar() {
    let leap = point(1_483_228_799, 1_500_000_000, true, true);
    let others = [point(1_483_228_800, 0, true, true), point(1_483_228_799, 0, true, true), leap];
    let start = chrono::DateTime::from_timestamp(leap.at.secs, leap.at.nanos).unwrap();
    for other in others {
        let end = chrono::DateTime::from_timestamp(other.at.secs, other.at.nanos).unwrap();
        assert_eq!(
            IssService::trend(&vec![leap, other]).dt_millis,
            Some((end - start).num_milliseconds())
        );
        assert_eq!(
            IssService::trend(&vec![other, leap]).dt_millis,
            Some((start - end).num_milliseconds())
        );
    }
    let no_leap = point(1_483_228_790, 1_500_000_000, true, true);
    assert_eq!(IssService::trend(&vec![no_leap, others[0]]).dt_millis, None);
}
