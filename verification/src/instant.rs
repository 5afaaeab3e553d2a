//! Instants and calendar dates as plain numbers, and the calendar
//! computations that are left to the `chrono` crate.

use vstd::prelude::*;

verus! {

/// An instant on the UTC time line: whole non-leap seconds since
/// 1970-01-01T00:00:00Z and the nanoseconds into that second. As in
/// `chrono`, a leap second is written with a nanosecond part of one billion
/// or more.
#[derive(Clone, Copy, Debug, PartialEq, Eq, Structural)]
pub struct UtcInstant {
    pub secs: i64,
    pub nanos: u32,
}

/// A day of the proleptic Gregorian calendar, counted from 0001-01-01 as
/// day 1.
#[derive(Clone, Copy, Debug, PartialEq, Eq, Structural)]
pub struct CivilDate {
    pub days_from_ce: i32,
}

/// What `chrono` makes of `text` read as a date and time in its relaxed
/// RFC 3339 form, converted to UTC.
pub uninterp spec fn rfc3339_instant(text: Seq<char>) -> Option<UtcInstant>;

/// What `chrono` makes of `text` read as a date and time without offset,
/// laid out as `format` says, and taken as UTC.
pub uninterp spec fn formatted_instant(text: Seq<char>, format: Seq<char>) -> Option<UtcInstant>;

/// The instant `secs` whole seconds and `nanos` nanoseconds after the Unix
/// epoch, where `chrono` can represent it.
pub uninterp spec fn epoch_instant(secs: i64, nanos: u32) -> Option<UtcInstant>;

/// The whole milliseconds that `chrono` counts from `from` to `to`, where it
/// can represent both.
pub uninterp spec fn elapsed_millis(from: UtcInstant, to: UtcInstant) -> Option<i64>;

/// The ISO 8601 text of the day numbered `days_from_ce`, where `chrono` can
/// represent that day.
pub uninterp spec fn civil_date_text(days_from_ce: i32) -> Option<Seq<char>>;

/// `total / unit` rounded towards zero.
pub open spec fn div_towards_zero(total: int, unit: int) -> int {
    if total >= 0 {
        total / unit
    } else {
        -((-total) / unit)
    }
}

/// The nanoseconds from `from` to `to`, counting every second as one
/// billion nanoseconds.
pub open spec fn nanos_between(from: UtcInstant, to: UtcInstant) -> int {
    (to.secs - from.secs) * 1_000_000_000 + (to.nanos - from.nanos)
}

/// Calls `str::parse::<chrono::DateTime<chrono::Utc>>`. Claimed: the outcome
/// depends on the text alone; a parsed date and time is handed on as its
/// `timestamp()` and `timestamp_subsec_nanos()`, a parse error as `None`.
#[verifier::external_body]
pub(crate) fn parse_rfc3339(text: &str) -> (at: Option<UtcInstant>)
    ensures
        at == rfc3339_instant(text@),
{
    match text.parse::<chrono::DateTime<chrono::Utc>>() {
        Ok(dt) => Some(UtcInstant { secs: dt.timestamp(), nanos: dt.timestamp_subsec_nanos() }),
        Err(_) => None,
    }
}

/// Calls `chrono::NaiveDateTime::parse_from_str`. Claimed: the outcome
/// depends on the text and the format alone; a parsed date and time is
/// taken as UTC by `chrono::TimeZone::from_utc_datetime` and handed on as
/// its `timestamp()` and `timestamp_subsec_nanos()`, a parse error as
/// `None`.
#[verifier::external_body]
pub(crate) fn parse_formatted(text: &str, format: &str) -> (at: Option<UtcInstant>)
    ensures
        at == formatted_instant(text@, format@),
{
    match chrono::NaiveDateTime::parse_from_str(text, format) {
        Ok(naive) => {
            let dt = chrono::TimeZone::from_utc_datetime(&chrono::Utc, &naive);
            Some(UtcInstant { secs: dt.timestamp(), nanos: dt.timestamp_subsec_nanos() })
        },
        Err(_) => None,
    }
}

/// Calls `chrono::TimeZone::timestamp_opt` on `chrono::Utc` and takes the
/// single result. Claimed: the outcome depends on the two numbers alone,
/// and an instant that comes back has them as its seconds and nanoseconds.
#[verifier::external_body]
pub(crate) fn instant_at_epoch(secs: i64, nanos: u32) -> (at: Option<UtcInstant>)
    ensures
        at == epoch_instant(secs, nanos),
        at matches Some(t) ==> t.secs == secs && t.nanos == nanos,
{
    match chrono::TimeZone::timestamp_opt(&chrono::Utc, secs, nanos).single() {
        Some(dt) => Some(UtcInstant { secs: dt.timestamp(), nanos: dt.timestamp_subsec_nanos() }),
        None => None,
    }
}

/// Calls `chrono::DateTime::signed_duration_since` and
/// `chrono::TimeDelta::num_milliseconds` on the two instants rebuilt by
/// `chrono::DateTime::from_timestamp`. Claimed: the outcome depends on the
/// two instants alone; where neither is a leap second, the count is the
/// difference in nanoseconds divided by one million and rounded towards
/// zero.
#[verifier::external_body]
pub(crate) fn millis_between(from: UtcInstant, to: UtcInstant) -> (millis: Option<i64>)
    ensures
        millis == elapsed_millis(from, to),
        millis matches Some(ms) ==> (from.nanos < 1_000_000_000 && to.nanos < 1_000_000_000
            ==> ms == div_towards_zero(nanos_between(from, to), 1_000_000)),
{
    let start = chrono::DateTime::from_timestamp(from.secs, from.nanos)?;
    let end = chrono::DateTime::from_timestamp(to.secs, to.nanos)?;
    Some(end.signed_duration_since(start).num_milliseconds())
}

/// Calls `chrono::NaiveDate::from_num_days_from_ce_opt` and the date's
/// `to_string`. Claimed: the outcome depends on the day number alone.
#[verifier::external_body]
pub(crate) fn date_text(days_from_ce: i32) -> (text: Option<String>)
    ensures
        match text {
            Some(t) => civil_date_text(days_from_ce) == Some(t@),
            None => civil_date_text(days_from_ce) is None,
        },
{
    match chrono::NaiveDate::from_num_days_from_ce_opt(days_from_ce) {
        Some(date) => Some(date.to_string()),
        None => None,
    }
}

impl UtcInstant {
    /// The instant `secs` whole seconds after the Unix epoch, where the
    /// calendar reaches that far.
    pub fn from_epoch_secs(secs: i64) -> (at: Option<UtcInstant>)
        ensures
            at == epoch_instant(secs, 0),
            at matches Some(t) ==> t.secs == secs && t.nanos == 0,
    {
        instant_at_epoch(secs, 0)
    }
}

impl CivilDate {
    /// The day `back` days before `self`, where its number still fits: the
    /// count may not exceed the largest 32-bit signed number, and neither
    /// may the day number leave that range.
    pub open spec fn spec_days_before(self, back: u64) -> Option<CivilDate> {
        if back <= i32::MAX && self.days_from_ce - back >= i32::MIN {
            Some(CivilDate { days_from_ce: (self.days_from_ce - back) as i32 })
        } else {
            None
        }
    }

    /// The day `back` days before `self`.
    pub fn days_before(&self, back: u64) -> (earlier: Option<CivilDate>)
        ensures
            earlier == self.spec_days_before(back),
    {
        if back > 2147483647u64 {
            return None;
        }
        let back: i64 = back as i64;
        let day: i64 = self.days_from_ce as i64 - back;
        if day < -2147483648i64 {
            None
        } else {
            Some(CivilDate { days_from_ce: day as i32 })
        }
    }

    /// The day `ahead` days after `self`, under the same limits as for the
    /// days before.
    pub open spec fn spec_days_after(self, ahead: u64) -> Option<CivilDate> {
        if ahead <= i32::MAX && self.days_from_ce + ahead <= i32::MAX {
            Some(CivilDate { days_from_ce: (self.days_from_ce + ahead) as i32 })
        } else {
            None
        }
    }

    /// The day `ahead` days after `self`.
    pub fn days_after(&self, ahead: u64) -> (later: Option<CivilDate>)
        ensures
            later == self.spec_days_after(ahead),
    {
        if ahead > 2147483647u64 {
            return None;
        }
        let ahead: i64 = ahead as i64;
        let day: i64 = self.days_from_ce as i64 + ahead;
        if day > 2147483647i64 {
            None
        } else {
            Some(CivilDate { days_from_ce: day as i32 })
        }
    }

    /// The date in ISO 8601 form, `YYYY-MM-DD` for the years 0 to 9999,
    /// where the calendar reaches the day.
    pub fn text(&self) -> (text: Option<String>)
        ensures
            match text {
                Some(t) => civil_date_text(self.days_from_ce) == Some(t@),
                None => civil_date_text(self.days_from_ce) is None,
            },
    {
        date_text(self.days_from_ce)
    }
}

/// The dates that bound the last `days` days: the day that many days before
/// `today`, and `today`. There is no such window for a negative count, nor
/// where one of the two days is beyond the calendar.
pub open spec fn window_texts(today: CivilDate, days: i64) -> Option<(Seq<char>, Seq<char>)> {
    if days < 0 {
        None
    } else {
        match (today.spec_days_before(days as u64), civil_date_text(today.days_from_ce)) {
            (Some(from), Some(to)) => match civil_date_text(from.days_from_ce) {
                Some(from_text) => Some((from_text, to)),
                None => None,
            },
            _ => None,
        }
    }
}

/// The first and the last day of the window of `n` days that ends `today`,
/// both in ISO 8601 form.
pub fn last_days(today: CivilDate, n: i64) -> (window: Option<(String, String)>)
    ensures
        match window {
            Some((from, to)) => window_texts(today, n) == Some((from@, to@)),
            None => window_texts(today, n) is None,
        },
{
    if n < 0 {
        return None;
    }
    let to = match today.text() {
        Some(t) => t,
        None => {
            return None;
        },
    };
    let from = match today.days_before(n as u64) {
        Some(d) => d,
        None => {
            return None;
        },
    };
    match from.text() {
        Some(from_text) => Some((from_text, to)),
        None => None,
    }
}

} // verus!
