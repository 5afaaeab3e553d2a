//! Domain services: field picking, catalog normalisation, cache keys and
//! the shape of a position trend.

use vstd::prelude::*;
use crate::clients::{
    apod_request, donki_request, iss_request, neo_request, osdr_request, spacex_request,
    RequestSpec, UpstreamClients,
};
use crate::config::AppConfig;
use crate::domain::{opt_text, upsert_models, IssPoint, OsdrUpsert, OsdrUpsertModel};
use crate::instant::{
    div_towards_zero, elapsed_millis, epoch_instant, formatted_instant, instant_at_epoch,
    millis_between, nanos_between, parse_formatted, parse_rfc3339, rfc3339_instant, UtcInstant,
};
use crate::json::{models, Json, JsonModel};
use crate::repo::{unique_keys, upserted_all, OsdrRepo};
use crate::text::{lowercase, lowercased, str_eq};

verus! {

/// The texts of `keys`, in order.
pub open spec fn key_texts(keys: Seq<&str>) -> Seq<Seq<char>> {
    Seq::new(keys.len(), |i: int| keys[i]@)
}

/// The first candidate at or after `from` that holds a value.
pub open spec fn first_hit<T>(candidates: Seq<Option<T>>, from: int) -> Option<T>
    decreases candidates.len() - from,
{
    if from < 0 || from >= candidates.len() {
        None
    } else if candidates[from] is Some {
        candidates[from]
    } else {
        first_hit(candidates, from + 1)
    }
}

/// What a member contributes as text: a string that is not empty as it
/// stands, a number as JSON writes it, anything else nothing.
pub open spec fn text_candidate(found: Option<JsonModel>) -> Option<Seq<char>> {
    match found {
        Some(JsonModel::String(s)) => if s.len() > 0 {
            Some(s)
        } else {
            None
        },
        Some(JsonModel::Number(n)) => Some(n.text()),
        _ => None,
    }
}

/// The text candidates of `value` under each of `keys`, in order.
pub open spec fn text_candidates(value: JsonModel, keys: Seq<Seq<char>>) -> Seq<Option<Seq<char>>> {
    Seq::new(keys.len(), |i: int| text_candidate(value.get(keys[i])))
}

/// The text picked from `value`: that of the first of `keys` which
/// contributes one.
pub open spec fn picked_text(value: JsonModel, keys: Seq<Seq<char>>) -> Option<Seq<char>> {
    first_hit(text_candidates(value, keys), 0)
}

/// Picks a text field: tries `keys` in order and takes the first member
/// that is a non-empty string (verbatim) or a number (as JSON writes it).
pub fn s_pick(v: &Json, keys: &[&str]) -> (picked: Option<String>)
    ensures
        opt_text(picked) == picked_text(v@, key_texts(keys@)),
{
    let ghost candidates = text_candidates(v@, key_texts(keys@));
    let mut i: usize = 0;
    while i < keys.len()
        invariant
            i <= keys.len(),
            candidates == text_candidates(v@, key_texts(keys@)),
            first_hit(candidates, 0) == first_hit(candidates, i as int),
        decreases keys.len() - i,
    {
        if let Some(x) = v.get(keys[i]) {
            if let Some(s) = x.as_str() {
                if !s.is_empty() {
                    return Some(s.to_owned());
                }
            } else if let Json::Number(n) = x {
                return Some(n.text());
            }
        }
        i += 1;
    }
    None
}

/// The layout of the date and time that is read as UTC where the RFC 3339
/// reading fails.
pub open spec fn fallback_format() -> Seq<char> {
    "%Y-%m-%d %H:%M:%S"@
}

/// The instant taken from two readings of one string: the RFC 3339 reading
/// where there is one, else the fallback reading.
pub open spec fn preferred_reading(strict: Option<UtcInstant>, fallback: Option<UtcInstant>) -> Option<
    UtcInstant,
> {
    if strict is Some {
        strict
    } else {
        fallback
    }
}

/// What a member contributes as an instant: a string by its RFC 3339 reading
/// or else its fallback reading, an integer as seconds since the epoch,
/// anything else nothing.
pub open spec fn instant_candidate(found: Option<JsonModel>) -> Option<UtcInstant> {
    match found {
        Some(JsonModel::String(s)) => preferred_reading(
            rfc3339_instant(s),
            formatted_instant(s, fallback_format()),
        ),
        Some(other) => match other.as_i64() {
            Some(secs) => epoch_instant(secs, 0),
            None => None,
        },
        None => None,
    }
}

/// The instant candidates of `value` under each of `keys`, in order.
pub open spec fn instant_candidates(value: JsonModel, keys: Seq<Seq<char>>) -> Seq<
    Option<UtcInstant>,
> {
    Seq::new(keys.len(), |i: int| instant_candidate(value.get(keys[i])))
}

/// The instant picked from `value`: that of the first of `keys` which
/// contributes one.
pub open spec fn picked_instant(value: JsonModel, keys: Seq<Seq<char>>) -> Option<UtcInstant> {
    first_hit(instant_candidates(value, keys), 0)
}

/// Chooses between the two readings of one string: the RFC 3339 reading
/// wins, the fallback reading counts only where the first failed.
pub fn prefer_reading(strict: Option<UtcInstant>, fallback: Option<UtcInstant>) -> (at: Option<
    UtcInstant,
>)
    ensures
        at == preferred_reading(strict, fallback),
{
    match strict {
        Some(t) => Some(t),
        None => fallback,
    }
}

/// The instant that one member contributes.
fn instant_of_member(x: &Json) -> (at: Option<UtcInstant>)
    ensures
        at == instant_candidate(Some(x@)),
{
    if let Some(s) = x.as_str() {
        let strict = parse_rfc3339(s);
        let fallback = if strict.is_none() {
            parse_formatted(s, "%Y-%m-%d %H:%M:%S")
        } else {
            None
        };
        prefer_reading(strict, fallback)
    } else if let Some(secs) = x.as_i64() {
        instant_at_epoch(secs, 0)
    } else {
        None
    }
}

/// Picks a timestamp field: tries `keys` in order and takes the first
/// member that reads as an instant, be it an RFC 3339 string, a
/// `YYYY-MM-DD HH:MM:SS` string taken as UTC, or an integer count of seconds
/// since the Unix epoch.
pub fn t_pick(v: &Json, keys: &[&str]) -> (picked: Option<UtcInstant>)
    ensures
        picked == picked_instant(v@, key_texts(keys@)),
{
    let ghost candidates = instant_candidates(v@, key_texts(keys@));
    let mut i: usize = 0;
    while i < keys.len()
        invariant
            i <= keys.len(),
            candidates == instant_candidates(v@, key_texts(keys@)),
            first_hit(candidates, 0) == first_hit(candidates, i as int),
        decreases keys.len() - i,
    {
        if let Some(x) = v.get(keys[i]) {
            let at = instant_of_member(x);
            if at.is_some() {
                return at;
            }
        }
        i += 1;
    }
    None
}

/// The keys that may hold the business key, in order of preference.
pub open spec fn dataset_id_keys() -> Seq<Seq<char>> {
    seq!["dataset_id"@, "id"@, "uuid"@, "studyId"@, "accession"@, "osdr_id"@]
}

/// The keys that may hold the title, in order of preference.
pub open spec fn title_keys() -> Seq<Seq<char>> {
    seq!["title"@, "name"@, "label"@]
}

/// The keys that may hold the status, in order of preference.
pub open spec fn status_keys() -> Seq<Seq<char>> {
    seq!["status"@, "state"@, "lifecycle"@]
}

/// The keys that may hold the time of the last update, in order of
/// preference.
pub open spec fn updated_keys() -> Seq<Seq<char>> {
    seq!["updated"@, "updated_at"@, "modified"@, "lastUpdated"@, "timestamp"@]
}

/// The elements of a catalog payload: the items of a bare array; else those
/// of the array under `items`; else those of the array under `results`;
/// else the payload itself as the only element.
pub open spec fn catalog_elements(payload: JsonModel) -> Seq<JsonModel> {
    if let JsonModel::Array(items) = payload {
        items
    } else if let Some(JsonModel::Array(items)) = payload.get("items"@) {
        items
    } else if let Some(JsonModel::Array(items)) = payload.get("results"@) {
        items
    } else {
        seq![payload]
    }
}

/// The record that one catalog element is normalised to.
pub open spec fn catalog_record(element: JsonModel) -> OsdrUpsertModel {
    OsdrUpsertModel {
        dataset_id: picked_text(element, dataset_id_keys()),
        title: picked_text(element, title_keys()),
        status: picked_text(element, status_keys()),
        updated_at: picked_instant(element, updated_keys()),
        raw: element,
    }
}

/// The records that a catalog payload is normalised to: one for each of its
/// elements, in order.
pub open spec fn catalog_records(payload: JsonModel) -> Seq<OsdrUpsertModel> {
    Seq::new(catalog_elements(payload).len(), |i: int| catalog_record(catalog_elements(payload)[i]))
}

/// Normalises one catalog element, keeping the element itself as the raw
/// payload of the record.
pub fn normalize_osdr_item(item: &Json) -> (record: OsdrUpsert)
    ensures
        record@ == catalog_record(item@),
{
    let id_keys = ["dataset_id", "id", "uuid", "studyId", "accession", "osdr_id"];
    let title_keys = ["title", "name", "label"];
    let status_keys = ["status", "state", "lifecycle"];
    let updated_keys = ["updated", "updated_at", "modified", "lastUpdated", "timestamp"];
    proof {
        assert(key_texts(id_keys@) =~= dataset_id_keys());
        assert(key_texts(title_keys@) =~= self::title_keys());
        assert(key_texts(status_keys@) =~= self::status_keys());
        assert(key_texts(updated_keys@) =~= self::updated_keys());
    }
    let dataset_id = s_pick(item, id_keys.as_slice());
    let title = s_pick(item, title_keys.as_slice());
    let status = s_pick(item, status_keys.as_slice());
    let updated_at = t_pick(item, updated_keys.as_slice());
    OsdrUpsert { dataset_id, title, status, updated_at, raw: item.clone() }
}

/// Normalises a catalog payload into the records to upsert. The payload may
/// be a bare array, an object with an `items` array, an object with a
/// `results` array, or any other value, which then counts as the one
/// element.
pub fn normalize_osdr_items(json: &Json) -> (records: Vec<OsdrUpsert>)
    ensures
        upsert_models(records@) == catalog_records(json@),
{
    let mut records: Vec<OsdrUpsert> = Vec::new();
    let wrapped = if let Some(a) = json.as_array() {
        Some(a)
    } else if let Some(a) = array_member(json, "items") {
        Some(a)
    } else if let Some(a) = array_member(json, "results") {
        Some(a)
    } else {
        None
    };
    match wrapped {
        Some(items) => {
            let mut i: usize = 0;
            while i < items.len()
                invariant
                    i <= items.len(),
                    records.len() == i,
                    models(items@) == catalog_elements(json@),
                    forall|k: int| 0 <= k < i ==> records@[k]@ == catalog_record(models(items@)[k]),
                decreases items.len() - i,
            {
                let record = normalize_osdr_item(&items[i]);
                records.push(record);
                i += 1;
            }
        },
        None => {
            let record = normalize_osdr_item(json);
            records.push(record);
        },
    }
    records
}

/// The items of the array that `value` holds under `key`, where it holds
/// one.
fn array_member<'a>(value: &'a Json, key: &str) -> (items: Option<&'a Vec<Json>>)
    ensures
        match items {
            Some(v) => value@.get(key@) == Some(JsonModel::Array(models(v@))),
            None => !(value@.get(key@) matches Some(JsonModel::Array(_))),
        },
{
    match value.get(key) {
        Some(member) => member.as_array(),
        None => None,
    }
}

/// The first candidate that holds a value is the pick, whatever comes after
/// it: where the candidate at `at` holds a value and none before it does,
/// the pick from the whole list is that value.
pub proof fn lemma_first_hit_is_first<T>(candidates: Seq<Option<T>>, at: int)
    requires
        0 <= at < candidates.len(),
        candidates[at] is Some,
        forall|k: int| 0 <= k < at ==> candidates[k] is None,
    ensures
        first_hit(candidates, 0) == candidates[at],
{
    lemma_first_hit_from(candidates, 0, at);
}

proof fn lemma_first_hit_from<T>(candidates: Seq<Option<T>>, from: int, at: int)
    requires
        0 <= from <= at < candidates.len(),
        candidates[at] is Some,
        forall|k: int| from <= k < at ==> candidates[k] is None,
    ensures
        first_hit(candidates, from) == candidates[at],
    decreases at - from,
{
    if from < at {
        lemma_first_hit_from(candidates, from + 1, at);
    }
}

/// There is a pick exactly where some candidate holds a value.
pub proof fn lemma_first_hit_none<T>(candidates: Seq<Option<T>>)
    ensures
        first_hit(candidates, 0) is None <==> forall|k: int|
            0 <= k < candidates.len() ==> (#[trigger] candidates[k]) is None,
{
    lemma_first_hit_none_from(candidates, 0);
}

proof fn lemma_first_hit_none_from<T>(candidates: Seq<Option<T>>, from: int)
    requires
        0 <= from <= candidates.len(),
    ensures
        first_hit(candidates, from) is None <==> forall|k: int|
            from <= k < candidates.len() ==> (#[trigger] candidates[k]) is None,
    decreases candidates.len() - from,
{
    if from < candidates.len() {
        lemma_first_hit_none_from(candidates, from + 1);
        if candidates[from] is Some {
            assert(!(candidates[from] is None));
        }
    }
}

/// Text picking prefers the first matching key in the order of `keys`:
/// where the member under `keys[at]` contributes a text and no member under
/// an earlier key does, that text is picked, whatever the later keys hold.
pub proof fn lemma_text_pick_prefers_first(value: JsonModel, keys: Seq<Seq<char>>, at: int)
    requires
        0 <= at < keys.len(),
        text_candidate(value.get(keys[at])) is Some,
        forall|k: int| 0 <= k < at ==> text_candidate(value.get(#[trigger] keys[k])) is None,
    ensures
        picked_text(value, keys) == text_candidate(value.get(keys[at])),
{
    lemma_first_hit_is_first(text_candidates(value, keys), at);
}

/// Instant picking prefers the first matching key in the order of `keys`.
pub proof fn lemma_instant_pick_prefers_first(value: JsonModel, keys: Seq<Seq<char>>, at: int)
    requires
        0 <= at < keys.len(),
        instant_candidate(value.get(keys[at])) is Some,
        forall|k: int| 0 <= k < at ==> instant_candidate(value.get(#[trigger] keys[k])) is None,
    ensures
        picked_instant(value, keys) == instant_candidate(value.get(keys[at])),
{
    lemma_first_hit_is_first(instant_candidates(value, keys), at);
}

/// The three wrappers and the fallback of catalog normalisation. A bare
/// array, an object with an array under `items`, and an object without that
/// but with an array under `results` each yield one record per item of the
/// array, in order; any other payload yields exactly one record, whose raw
/// payload is the payload itself.
pub proof fn lemma_catalog_shapes(payload: JsonModel, items: Seq<JsonModel>)
    ensures
        payload == JsonModel::Array(items) ==> catalog_elements(payload) == items,
        !(payload is Array) && payload.get("items"@) == Some(JsonModel::Array(items))
            ==> catalog_elements(payload) == items,
        !(payload is Array) && !(payload.get("items"@) matches Some(JsonModel::Array(_)))
            && payload.get("results"@) == Some(JsonModel::Array(items)) ==> catalog_elements(
            payload,
        ) == items,
        !(payload is Array) && !(payload.get("items"@) matches Some(JsonModel::Array(_)))
            && !(payload.get("results"@) matches Some(JsonModel::Array(_))) ==> catalog_records(
            payload,
        ).len() == 1 && catalog_records(payload)[0].raw == payload,
        catalog_records(payload).len() == catalog_elements(payload).len(),
        forall|i: int|
            0 <= i < catalog_elements(payload).len() ==> (#[trigger] catalog_records(payload)[i])
                == catalog_record(catalog_elements(payload)[i]) && catalog_records(payload)[i].raw
                == catalog_elements(payload)[i],
{
}

/// The name of the cache slot for space-weather events of the kind `kind`:
/// `cme` and `flr` for the two kinds known, else the kind in lowercase.
pub open spec fn donki_source(kind: Seq<char>) -> Seq<char> {
    if kind == "CME"@ {
        "cme"@
    } else if kind == "FLR"@ {
        "flr"@
    } else {
        lowercased(kind)
    }
}

/// Whether the samples at `i` and `i + 1` are both located, so that the
/// distance between them counts.
pub open spec fn pair_measured(points: Seq<IssPoint>, i: int) -> bool {
    0 <= i && i + 1 < points.len() && points[i].located() && points[i + 1].located()
}

/// The pairs among the first `upto` that are measured, each named by the
/// index of its earlier sample, in rising order.
pub open spec fn measured_pairs(points: Seq<IssPoint>, upto: int) -> Seq<usize>
    decreases upto,
{
    if upto <= 0 {
        Seq::empty()
    } else {
        let before = measured_pairs(points, upto - 1);
        if pair_measured(points, upto - 1) {
            before.push((upto - 1) as usize)
        } else {
            before
        }
    }
}

/// The measured pairs are exactly the pairs of located neighbours: each
/// index listed is one, each such pair below `upto` is listed, and the
/// indices rise.
pub proof fn lemma_measured_pairs(points: Seq<IssPoint>, upto: int)
    requires
        upto <= usize::MAX,
    ensures
        forall|k: int|
            0 <= k < measured_pairs(points, upto).len() ==> pair_measured(
                points,
                (#[trigger] measured_pairs(points, upto)[k]) as int,
            ) && measured_pairs(points, upto)[k] < upto,
        forall|i: int|
            0 <= i < upto && pair_measured(points, i) ==> measured_pairs(points, upto).contains(
                i as usize,
            ),
        forall|j: int, k: int|
            0 <= j < k < measured_pairs(points, upto).len() ==> measured_pairs(points, upto)[j]
                < measured_pairs(points, upto)[k],
    decreases upto,
{
    if upto > 0 {
        lemma_measured_pairs(points, upto - 1);
        let before = measured_pairs(points, upto - 1);
        let all = measured_pairs(points, upto);
        if pair_measured(points, upto - 1) {
            assert(all[before.len() as int] == (upto - 1) as usize);
            assert forall|i: int| 0 <= i < upto && pair_measured(points, i) implies all.contains(
                i as usize,
            ) by {
                if i < upto - 1 {
                    let k = choose|k: int| 0 <= k < before.len() && before[k] == i as usize;
                    assert(all[k] == i as usize);
                }
            }
        }
    }
}

/// A series of two located samples measures exactly its one pair, and a
/// series of fewer than two samples measures none.
pub proof fn lemma_short_series(points: Seq<IssPoint>)
    ensures
        points.len() < 2 ==> measured_pairs(points, points.len() - 1) == Seq::<usize>::empty(),
        points.len() == 2 && points[0].located() && points[1].located() ==> measured_pairs(
            points,
            points.len() - 1,
        ) == seq![0usize],
{
    reveal_with_fuel(measured_pairs, 2);
    if points.len() == 2 && points[0].located() && points[1].located() {
        assert(pair_measured(points, 0));
        assert(measured_pairs(points, 1) =~= seq![0usize]);
    }
}

/// The milliseconds from `from` to `to` where neither is a leap second: the
/// difference in nanoseconds divided by one million and rounded towards
/// zero.
pub open spec fn plain_millis(from: UtcInstant, to: UtcInstant) -> int {
    div_towards_zero(nanos_between(from, to), 1_000_000)
}

/// The time that a trend spans, in milliseconds: nothing for fewer than two
/// samples, else what `chrono` counts from the first sample to the last.
pub open spec fn trend_span(points: Seq<IssPoint>) -> Option<i64> {
    if points.len() < 2 {
        Some(0i64)
    } else {
        elapsed_millis(points.first().at, points.last().at)
    }
}

/// The shape of a trend over samples given oldest first: the consecutive
/// pairs whose distance counts, each named by the index of its earlier
/// sample, and the time from the first sample to the last in milliseconds
/// (none where an instant is beyond the calendar).
#[derive(Debug, PartialEq, Eq)]
pub struct TrendShape {
    pub pairs: Vec<usize>,
    pub dt_millis: Option<i64>,
}

/// The fewest rows that a trend asks the log for.
pub const TREND_FLOOR: i64 = 2;

/// The number of rows that a trend over `limit` samples asks the log for:
/// `limit`, but no fewer than two.
pub fn trend_limit(limit: i64) -> (rows: i64)
    ensures
        rows == if limit < TREND_FLOOR {
            TREND_FLOOR
        } else {
            limit
        },
{
    if limit < TREND_FLOOR {
        TREND_FLOOR
    } else {
        limit
    }
}

/// The position service: what a recording fetches and where it is logged,
/// and the shape of a trend.
#[derive(Debug)]
pub struct IssService {
    clients: UpstreamClients,
    cfg: AppConfig,
}

/// What one recording of the position does: the request to send, and the
/// source URL under which the payload is appended to the log.
#[derive(Debug)]
pub struct LogAppend {
    pub request: RequestSpec,
    pub source_url: String,
}

/// What one refresh of a cache slot does: the request to send, and the name
/// of the slot to which the payload is appended.
#[derive(Debug)]
pub struct CacheRefresh {
    pub request: RequestSpec,
    pub source: String,
}

impl IssService {
    /// The clients that the service asks.
    pub closed spec fn clients(&self) -> UpstreamClients {
        self.clients
    }

    /// The configuration of the service.
    pub closed spec fn config(&self) -> AppConfig {
        self.cfg
    }

    /// The position service over `clients`, configured by `cfg`.
    pub fn new(clients: UpstreamClients, cfg: AppConfig) -> (service: Self)
        ensures
            service.clients() == clients,
            service.config() == cfg,
    {
        IssService { clients, cfg }
    }

    /// One recording: the position request, logged under the configured
    /// position URL. Every recording appends; none is held back for being
    /// like the one before.
    pub fn fetch_and_store(&self) -> (plan: LogAppend)
        ensures
            plan.request@ == iss_request(self.clients().config().where_iss_url@),
            plan.source_url@ == self.config().where_iss_url@,
    {
        LogAppend { request: self.clients.fetch_iss(), source_url: self.cfg.where_iss_url.clone() }
    }

    /// The shape of the trend over `points`, given oldest first: the pairs
    /// of neighbours that are both located, in order, and the time from the
    /// first sample to the last. With fewer than two samples no pair counts
    /// and no time has passed.
    pub fn trend(points: &Vec<IssPoint>) -> (shape: TrendShape)
        ensures
            shape.pairs@ == measured_pairs(points@, points@.len() - 1),
            shape.dt_millis == trend_span(points@),
            points@.len() < 2 ==> shape.pairs@.len() == 0 && shape.dt_millis == Some(0i64),
            points@.len() >= 2 && points@.first().at.nanos < 1_000_000_000 && points@.last().at.nanos
                < 1_000_000_000 ==> (shape.dt_millis matches Some(ms) ==> ms == plain_millis(
                points@.first().at,
                points@.last().at,
            )),
    {
        let mut pairs: Vec<usize> = Vec::new();
        if points.len() < 2 {
            return TrendShape { pairs, dt_millis: Some(0) };
        }
        let mut i: usize = 0;
        while i + 1 < points.len()
            invariant
                i + 1 <= points.len(),
                pairs@ == measured_pairs(points@, i as int),
            decreases points.len() - i,
        {
            let a = &points[i];
            let b = &points[i + 1];
            if a.has_latitude && a.has_longitude && b.has_latitude && b.has_longitude {
                pairs.push(i);
            }
            i += 1;
        }
        let dt_millis = millis_between(points[0].at, points[points.len() - 1].at);
        TrendShape { pairs, dt_millis }
    }
}

/// The catalog service: what a sync fetches, and the records that a fetched
/// payload is upserted as.
#[derive(Debug)]
pub struct OsdrService {
    clients: UpstreamClients,
}

impl OsdrService {
    /// The clients that the service asks.
    pub closed spec fn clients(&self) -> UpstreamClients {
        self.clients
    }

    /// The catalog service over `clients`.
    pub fn new(clients: UpstreamClients) -> (service: Self)
        ensures
            service.clients() == clients,
    {
        OsdrService { clients }
    }

    /// Takes a fetched payload into the catalog `repo` at the instant `now`:
    /// the payload is normalised and each record upserted, in order. The
    /// count of records written is returned.
    pub fn sync_into(repo: &mut OsdrRepo, payload: &Json, now: UtcInstant) -> (written: usize)
        requires
            old(repo).rows().len() + catalog_elements(payload@).len() < i64::MAX,
        ensures
            written == catalog_records(payload@).len(),
            final(repo).rows() == upserted_all(
                old(repo).rows(),
                catalog_records(payload@),
                now,
                catalog_records(payload@).len() as int,
            ),
            unique_keys(final(repo).rows()),
    {
        let records = normalize_osdr_items(payload);
        repo.upsert_all(&records, now)
    }

    /// One sync: the catalog request. Its payload is normalised by
    /// [`normalize_osdr_items`] and each record upserted, in order.
    pub fn sync(&self) -> (request: RequestSpec)
        ensures
            request@ == osdr_request(self.clients().config().nasa_url@),
    {
        self.clients.fetch_osdr()
    }
}

/// The cache service: what each refresh fetches and the slot it appends
/// to.
#[derive(Debug)]
pub struct SpaceService {
    clients: UpstreamClients,
}

impl SpaceService {
    /// The clients that the service asks.
    pub closed spec fn clients(&self) -> UpstreamClients {
        self.clients
    }

    /// The cache service over `clients`.
    pub fn new(clients: UpstreamClients) -> (service: Self)
        ensures
            service.clients() == clients,
    {
        SpaceService { clients }
    }

    /// The name of the cache slot for space-weather events of the kind
    /// `kind`.
    pub fn donki_source(kind: &str) -> (source: String)
        ensures
            source@ == self::donki_source(kind@),
    {
        if str_eq(kind, "CME") {
            "cme".to_owned()
        } else if str_eq(kind, "FLR") {
            "flr".to_owned()
        } else {
            lowercase(kind)
        }
    }

    /// The refresh of the picture of the day, into the slot `apod`.
    pub fn apod(&self) -> (plan: CacheRefresh)
        ensures
            plan.source@ == "apod"@,
            plan.request@ == apod_request(self.clients().config().nasa_key@),
    {
        CacheRefresh { request: self.clients.fetch_apod(), source: "apod".to_owned() }
    }

    /// The refresh of the near-earth objects between two dates, into the
    /// slot `neo`.
    pub fn neo(&self, start: &str, end: &str) -> (plan: CacheRefresh)
        ensures
            plan.source@ == "neo"@,
            plan.request@ == neo_request(self.clients().config().nasa_key@, start@, end@),
    {
        CacheRefresh { request: self.clients.fetch_neo(start, end), source: "neo".to_owned() }
    }

    /// The refresh of the space-weather events of the kind `kind` between
    /// two dates, into the slot that the kind names.
    pub fn donki(&self, kind: &str, start: &str, end: &str) -> (plan: CacheRefresh)
        ensures
            plan.source@ == self::donki_source(kind@),
            plan.request@ == donki_request(self.clients().config().nasa_key@, kind@, start@, end@),
    {
        CacheRefresh {
            request: self.clients.fetch_donki(kind, start, end),
            source: SpaceService::donki_source(kind),
        }
    }

    /// The refresh of the next launch, into the slot `spacex`.
    pub fn spacex(&self) -> (plan: CacheRefresh)
        ensures
            plan.source@ == "spacex"@,
            plan.request@ == spacex_request(),
    {
        CacheRefresh { request: self.clients.fetch_spacex(), source: "spacex".to_owned() }
    }
}

} // verus!
