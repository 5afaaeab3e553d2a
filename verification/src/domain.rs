//! The records that the pipeline stores and serves.

use vstd::prelude::*;
use crate::instant::UtcInstant;
use crate::json::{Json, JsonModel};

verus! {

/// The view of an optional string.
pub open spec fn opt_text(text: Option<String>) -> Option<Seq<char>> {
    match text {
        Some(t) => Some(t@),
        None => None,
    }
}

/// A copy of an optional string.
pub fn clone_opt_text(text: &Option<String>) -> (copy: Option<String>)
    ensures
        opt_text(copy) == opt_text(*text),
{
    match text {
        Some(t) => Some(t.clone()),
        None => None,
    }
}

/// The answer of the health probe.
#[derive(Clone, Copy, Debug)]
pub struct Health {
    pub status: &'static str,
    pub now: UtcInstant,
}

impl Health {
    /// The answer of a service that is up at the instant `now`.
    pub fn up(now: UtcInstant) -> (health: Health)
        ensures
            health.status@ == "ok"@,
            health.now == now,
    {
        Health { status: "ok", now }
    }
}

/// One sample of the position log as the trend reads it: when it was taken,
/// and whether it holds a latitude and a longitude.
#[derive(Clone, Copy, Debug, PartialEq, Eq, Structural)]
pub struct IssPoint {
    pub at: UtcInstant,
    pub has_latitude: bool,
    pub has_longitude: bool,
}

impl IssPoint {
    /// Whether the sample says where the station was.
    pub open spec fn located(self) -> bool {
        self.has_latitude && self.has_longitude
    }
}

/// One row of the position log: a fetched payload as it was stored.
#[derive(Debug, PartialEq, Eq)]
pub struct LogRow {
    pub id: i64,
    pub fetched_at: UtcInstant,
    pub source_url: String,
    pub payload: Json,
}

/// The model of a [`LogRow`].
pub struct LogRowModel {
    pub id: i64,
    pub fetched_at: UtcInstant,
    pub source_url: Seq<char>,
    pub payload: JsonModel,
}

impl View for LogRow {
    type V = LogRowModel;

    open spec fn view(&self) -> LogRowModel {
        LogRowModel {
            id: self.id,
            fetched_at: self.fetched_at,
            source_url: self.source_url@,
            payload: self.payload@,
        }
    }
}

impl Clone for LogRow {
    fn clone(&self) -> (copy: Self)
        ensures
            copy@ == self@,
    {
        LogRow {
            id: self.id,
            fetched_at: self.fetched_at,
            source_url: self.source_url.clone(),
            payload: self.payload.clone(),
        }
    }
}

/// One stored catalog record.
#[derive(Debug, PartialEq, Eq)]
pub struct OsdrItem {
    pub id: i64,
    pub dataset_id: Option<String>,
    pub title: Option<String>,
    pub status: Option<String>,
    pub updated_at: Option<UtcInstant>,
    pub inserted_at: UtcInstant,
    pub raw: Json,
}

/// The model of an [`OsdrItem`].
pub struct OsdrItemModel {
    pub id: i64,
    pub dataset_id: Option<Seq<char>>,
    pub title: Option<Seq<char>>,
    pub status: Option<Seq<char>>,
    pub updated_at: Option<UtcInstant>,
    pub inserted_at: UtcInstant,
    pub raw: JsonModel,
}

impl View for OsdrItem {
    type V = OsdrItemModel;

    open spec fn view(&self) -> OsdrItemModel {
        OsdrItemModel {
            id: self.id,
            dataset_id: opt_text(self.dataset_id),
            title: opt_text(self.title),
            status: opt_text(self.status),
            updated_at: self.updated_at,
            inserted_at: self.inserted_at,
            raw: self.raw@,
        }
    }
}

impl Clone for OsdrItem {
    fn clone(&self) -> (copy: Self)
        ensures
            copy@ == self@,
    {
        OsdrItem {
            id: self.id,
            dataset_id: clone_opt_text(&self.dataset_id),
            title: clone_opt_text(&self.title),
            status: clone_opt_text(&self.status),
            updated_at: self.updated_at,
            inserted_at: self.inserted_at,
            raw: self.raw.clone(),
        }
    }
}

/// One catalog record as normalisation yields it, ready to be upserted.
#[derive(Debug, PartialEq, Eq)]
pub struct OsdrUpsert {
    pub dataset_id: Option<String>,
    pub title: Option<String>,
    pub status: Option<String>,
    pub updated_at: Option<UtcInstant>,
    pub raw: Json,
}

/// The model of an [`OsdrUpsert`].
pub struct OsdrUpsertModel {
    pub dataset_id: Option<Seq<char>>,
    pub title: Option<Seq<char>>,
    pub status: Option<Seq<char>>,
    pub updated_at: Option<UtcInstant>,
    pub raw: JsonModel,
}

impl View for OsdrUpsert {
    type V = OsdrUpsertModel;

    open spec fn view(&self) -> OsdrUpsertModel {
        OsdrUpsertModel {
            dataset_id: opt_text(self.dataset_id),
            title: opt_text(self.title),
            status: opt_text(self.status),
            updated_at: self.updated_at,
            raw: self.raw@,
        }
    }
}

impl Clone for OsdrUpsert {
    fn clone(&self) -> (copy: Self)
        ensures
            copy@ == self@,
    {
        OsdrUpsert {
            dataset_id: clone_opt_text(&self.dataset_id),
            title: clone_opt_text(&self.title),
            status: clone_opt_text(&self.status),
            updated_at: self.updated_at,
            raw: self.raw.clone(),
        }
    }
}

/// The views of `items`, in order.
pub open spec fn upsert_models(items: Seq<OsdrUpsert>) -> Seq<OsdrUpsertModel> {
    Seq::new(items.len(), |i: int| items[i]@)
}

/// One row of the cache: a payload fetched from the source named.
#[derive(Debug, PartialEq, Eq)]
pub struct SpaceCacheItem {
    pub source: String,
    pub fetched_at: UtcInstant,
    pub payload: Json,
}

/// The model of a [`SpaceCacheItem`].
pub struct CacheItemModel {
    pub source: Seq<char>,
    pub fetched_at: UtcInstant,
    pub payload: JsonModel,
}

impl View for SpaceCacheItem {
    type V = CacheItemModel;

    open spec fn view(&self) -> CacheItemModel {
        CacheItemModel {
            source: self.source@,
            fetched_at: self.fetched_at,
            payload: self.payload@,
        }
    }
}

impl Clone for SpaceCacheItem {
    fn clone(&self) -> (copy: Self)
        ensures
            copy@ == self@,
    {
        SpaceCacheItem {
            source: self.source.clone(),
            fetched_at: self.fetched_at,
            payload: self.payload.clone(),
        }
    }
}

} // verus!
