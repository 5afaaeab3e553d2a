//! Decisions at the request boundary: the bounds of list sizes and the
//! reading of a refresh list.

use vstd::prelude::*;
use crate::instant::{civil_date_text, last_days, window_texts, CivilDate};
use crate::scheduler::{CallModel, ServiceCall};
use crate::text::{
    comma_pieces, lowercase, lowercased, piece_texts, split_commas, str_eq, trim, trimmed,
};

verus! {

/// `value` held within `low` and `high`.
pub open spec fn clamped(value: i64, low: i64, high: i64) -> i64 {
    if value < low {
        low
    } else if value > high {
        high
    } else {
        value
    }
}

/// The number of samples of a trend request: what was asked for, or
/// `default` where nothing was, held within 2 and 1000.
pub fn trend_query_limit(requested: Option<i64>, default: i64) -> (limit: i64)
    ensures
        limit == clamped(
            match requested {
                Some(n) => n,
                None => default,
            },
            2,
            1000,
        ),
        2 <= limit <= 1000,
{
    let asked = match requested {
        Some(n) => n,
        None => default,
    };
    if asked < 2 {
        2
    } else if asked > 1000 {
        1000
    } else {
        asked
    }
}

/// The number of records of a catalog listing: what was asked for, or
/// `default` where nothing was, held within 1 and 500.
pub fn list_query_limit(requested: Option<i64>, default: i64) -> (limit: i64)
    ensures
        limit == clamped(
            match requested {
                Some(n) => n,
                None => default,
            },
            1,
            500,
        ),
        1 <= limit <= 500,
{
    let asked = match requested {
        Some(n) => n,
        None => default,
    };
    if asked < 1 {
        1
    } else if asked > 500 {
        500
    } else {
        asked
    }
}

/// The cache slots that can be refreshed on request.
#[derive(Clone, Copy, Debug, PartialEq, Eq, Structural)]
pub enum CacheSource {
    Apod,
    Neo,
    Flr,
    Cme,
    Spacex,
}

impl CacheSource {
    /// The name of the slot.
    pub open spec fn spec_name(self) -> Seq<char> {
        match self {
            CacheSource::Apod => "apod"@,
            CacheSource::Neo => "neo"@,
            CacheSource::Flr => "flr"@,
            CacheSource::Cme => "cme"@,
            CacheSource::Spacex => "spacex"@,
        }
    }

    /// The name of the slot.
    pub fn name(self) -> (name: &'static str)
        ensures
            name@ == self.spec_name(),
    {
        match self {
            CacheSource::Apod => "apod",
            CacheSource::Neo => "neo",
            CacheSource::Flr => "flr",
            CacheSource::Cme => "cme",
            CacheSource::Spacex => "spacex",
        }
    }

    /// The call that refreshes the slot on the day `today`: near-earth
    /// objects over the last 2 days, flares and mass ejections over the last
    /// 5. There is none where such a window is beyond the calendar.
    pub open spec fn spec_call(self, today: CivilDate) -> Option<CallModel> {
        match self {
            CacheSource::Apod => Some(CallModel::Apod),
            CacheSource::Neo => match window_texts(today, 2) {
                Some((from, to)) => Some(CallModel::Neo(from, to)),
                None => None,
            },
            CacheSource::Flr => match window_texts(today, 5) {
                Some((from, to)) => Some(CallModel::Donki("FLR"@, from, to)),
                None => None,
            },
            CacheSource::Cme => match window_texts(today, 5) {
                Some((from, to)) => Some(CallModel::Donki("CME"@, from, to)),
                None => None,
            },
            CacheSource::Spacex => Some(CallModel::Spacex),
        }
    }

    /// The call that refreshes the slot on the day `today`.
    pub fn call(self, today: CivilDate) -> (call: Option<ServiceCall>)
        ensures
            match call {
                Some(c) => self.spec_call(today) == Some(c@),
                None => self.spec_call(today) is None,
            },
    {
        match self {
            CacheSource::Apod => Some(ServiceCall::Apod),
            CacheSource::Neo => match last_days(today, 2) {
                Some((from, to)) => Some(ServiceCall::Neo(from, to)),
                None => None,
            },
            CacheSource::Flr => match last_days(today, 5) {
                Some((from, to)) => Some(ServiceCall::Donki("FLR", from, to)),
                None => None,
            },
            CacheSource::Cme => match last_days(today, 5) {
                Some((from, to)) => Some(ServiceCall::Donki("CME", from, to)),
                None => None,
            },
            CacheSource::Spacex => Some(ServiceCall::Spacex),
        }
    }
}

/// The slot that a normalised name stands for.
pub open spec fn source_named(name: Seq<char>) -> Option<CacheSource> {
    if name == "apod"@ {
        Some(CacheSource::Apod)
    } else if name == "neo"@ {
        Some(CacheSource::Neo)
    } else if name == "flr"@ {
        Some(CacheSource::Flr)
    } else if name == "cme"@ {
        Some(CacheSource::Cme)
    } else if name == "spacex"@ {
        Some(CacheSource::Spacex)
    } else {
        None
    }
}

/// The slot that one piece of a refresh list asks for: the piece is trimmed
/// and put in lowercase, and counts where it then names a slot.
pub open spec fn target_of(piece: Seq<char>) -> Option<CacheSource> {
    source_named(lowercased(trimmed(piece)))
}

/// The slots that the first `upto` of `pieces` ask for, in order; a slot
/// asked for twice is there twice.
pub open spec fn targets_of(pieces: Seq<Seq<char>>, upto: int) -> Seq<CacheSource>
    decreases upto,
{
    if upto <= 0 || upto > pieces.len() {
        Seq::empty()
    } else {
        let before = targets_of(pieces, upto - 1);
        match target_of(pieces[upto - 1]) {
            Some(target) => before.push(target),
            None => before,
        }
    }
}

/// The slots that a refresh list asks for: the list is parted at its
/// commas, and each piece that names a slot counts, in order.
pub open spec fn refresh_targets_of(list: Seq<char>) -> Seq<CacheSource> {
    targets_of(comma_pieces(list), comma_pieces(list).len() as int)
}

/// The list that a refresh without one stands for: every slot.
pub open spec fn default_refresh_list() -> Seq<char> {
    "apod,neo,flr,cme,spacex"@
}

/// Decides which slot a name stands for, once it is trimmed and in
/// lowercase.
pub fn source_of_name(name: &str) -> (source: Option<CacheSource>)
    ensures
        source == source_named(name@),
{
    if str_eq(name, "apod") {
        Some(CacheSource::Apod)
    } else if str_eq(name, "neo") {
        Some(CacheSource::Neo)
    } else if str_eq(name, "flr") {
        Some(CacheSource::Flr)
    } else if str_eq(name, "cme") {
        Some(CacheSource::Cme)
    } else if str_eq(name, "spacex") {
        Some(CacheSource::Spacex)
    } else {
        None
    }
}

/// Reads a refresh list: the slots to refresh, in the order asked for.
/// Without a list every slot is refreshed. Pieces that name no slot are
/// passed over.
pub fn refresh_targets(list: Option<&str>) -> (targets: Vec<CacheSource>)
    ensures
        targets@ == refresh_targets_of(
            match list {
                Some(l) => l@,
                None => default_refresh_list(),
            },
        ),
{
    let list: &str = match list {
        Some(l) => l,
        None => "apod,neo,flr,cme,spacex",
    };
    let pieces = split_commas(list);
    let mut targets: Vec<CacheSource> = Vec::new();
    let mut i: usize = 0;
    while i < pieces.len()
        invariant
            i <= pieces.len(),
            piece_texts(pieces@) == comma_pieces(list@),
            targets@ == targets_of(comma_pieces(list@), i as int),
        decreases pieces.len() - i,
    {
        let inner = trim(pieces[i].as_str());
        let name = lowercase(inner);
        if let Some(target) = source_of_name(name.as_str()) {
            targets.push(target);
        }
        i += 1;
    }
    targets
}

/// The text that was asked for, or `default` where none was.
pub open spec fn asked_or(asked: Option<String>, default: Seq<char>) -> Seq<char> {
    match asked {
        Some(text) => text@,
        None => default,
    }
}

/// The kind of space-weather events that a request without one stands for.
pub open spec fn default_donki_kind() -> Seq<char> {
    "CME"@
}

/// The kind of space-weather events that a request asks for: the kind it
/// names, or mass ejections where it names none.
pub fn donki_kind(asked: Option<String>) -> (kind: String)
    ensures
        kind@ == asked_or(asked, default_donki_kind()),
{
    match asked {
        Some(kind) => kind,
        None => "CME".to_owned(),
    }
}

/// The dates that a request for near-earth objects stands for: each date
/// that was asked for as it was given, else `today` for the start and the
/// day a week after `today` for the end. There are none where a date that
/// has to be made up is beyond the calendar.
pub open spec fn neo_dates(today: CivilDate, start: Option<String>, end: Option<String>) -> Option<
    (Seq<char>, Seq<char>),
> {
    let first = match start {
        Some(text) => Some(text@),
        None => civil_date_text(today.days_from_ce),
    };
    let last = match end {
        Some(text) => Some(text@),
        None => match today.spec_days_after(7) {
            Some(day) => civil_date_text(day.days_from_ce),
            None => None,
        },
    };
    match (first, last) {
        (Some(a), Some(b)) => Some((a, b)),
        _ => None,
    }
}

/// The dates of a request for near-earth objects made on the day `today`.
pub fn neo_window(today: CivilDate, start: Option<String>, end: Option<String>) -> (dates: Option<
    (String, String),
>)
    ensures
        match dates {
            Some((a, b)) => neo_dates(today, start, end) == Some((a@, b@)),
            None => neo_dates(today, start, end) is None,
        },
{
    let first = match start {
        Some(text) => text,
        None => match today.text() {
            Some(text) => text,
            None => {
                return None;
            },
        },
    };
    let last = match end {
        Some(text) => text,
        None => {
            let day = match today.days_after(7) {
                Some(day) => day,
                None => {
                    return None;
                },
            };
            match day.text() {
                Some(text) => text,
                None => {
                    return None;
                },
            }
        },
    };
    Some((first, last))
}

/// The dates that a request for space-weather events stands for: each date
/// that was asked for as it was given, else the bounds of the last 30 days.
/// There are none where that window is beyond the calendar.
pub open spec fn donki_dates(today: CivilDate, start: Option<String>, end: Option<String>) -> Option<
    (Seq<char>, Seq<char>),
> {
    match window_texts(today, 30) {
        Some((from, to)) => Some((asked_or(start, from), asked_or(end, to))),
        None => None,
    }
}

/// The dates of a request for space-weather events made on the day
/// `today`.
pub fn donki_window(today: CivilDate, start: Option<String>, end: Option<String>) -> (dates: Option<
    (String, String),
>)
    ensures
        match dates {
            Some((a, b)) => donki_dates(today, start, end) == Some((a@, b@)),
            None => donki_dates(today, start, end) is None,
        },
{
    match last_days(today, 30) {
        Some((from, to)) => {
            let first = match start {
                Some(text) => text,
                None => from,
            };
            let last = match end {
                Some(text) => text,
                None => to,
            };
            Some((first, last))
        },
        None => None,
    }
}

/// The slots that a summary shows, in order.
pub fn summary_sources() -> (sources: Vec<CacheSource>)
    ensures
        sources@ == seq![
            CacheSource::Apod,
            CacheSource::Neo,
            CacheSource::Flr,
            CacheSource::Cme,
            CacheSource::Spacex,
        ],
{
    let mut sources: Vec<CacheSource> = Vec::new();
    sources.push(CacheSource::Apod);
    sources.push(CacheSource::Neo);
    sources.push(CacheSource::Flr);
    sources.push(CacheSource::Cme);
    sources.push(CacheSource::Spacex);
    sources
}

} // verus!
