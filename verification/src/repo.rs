//! The three tables of the pipeline, held in memory: the position log, the
//! catalog and the cache. Their methods state what each access means; a
//! database that serves the pipeline has to behave alike.

use vstd::prelude::*;
use crate::domain::{
    clone_opt_text, upsert_models, CacheItemModel, LogRow, LogRowModel, OsdrItem,
    OsdrItemModel, OsdrUpsert, OsdrUpsertModel, SpaceCacheItem,
};
use crate::instant::UtcInstant;
use crate::json::Json;
use crate::text::str_eq;

verus! {

/// The views of the rows `rows`, in order.
pub open spec fn log_models(rows: Seq<LogRow>) -> Seq<LogRowModel> {
    Seq::new(rows.len(), |i: int| rows[i]@)
}

/// The views of the records `rows`, in order.
pub open spec fn item_models(rows: Seq<OsdrItem>) -> Seq<OsdrItemModel> {
    Seq::new(rows.len(), |i: int| rows[i]@)
}

/// The views of the cache rows `rows`, in order.
pub open spec fn cache_models(rows: Seq<SpaceCacheItem>) -> Seq<CacheItemModel> {
    Seq::new(rows.len(), |i: int| rows[i]@)
}

/// The `count` last of `rows`, in their order; all of them where there are
/// no more, none for a count of zero or less.
pub open spec fn tail<T>(rows: Seq<T>, count: int) -> Seq<T> {
    if count <= 0 {
        Seq::empty()
    } else if count >= rows.len() {
        rows
    } else {
        rows.subrange(rows.len() - count, rows.len() as int)
    }
}

/// The number of rows that a read of `limit` rows from a table of `len`
/// rows yields.
pub open spec fn capped(limit: i64, len: nat) -> nat {
    if limit <= 0 {
        0
    } else if limit >= len {
        len
    } else {
        limit as nat
    }
}

/// The number of rows that a read of `limit` rows from a table of `len`
/// rows yields.
fn cap(limit: i64, len: usize) -> (count: usize)
    ensures
        count == capped(limit, len as nat),
        count <= len,
{
    if limit <= 0 {
        0
    } else if (limit as u64) >= (len as u64) {
        len
    } else {
        limit as usize
    }
}

/// The position log: rows are appended and never changed, and each row
/// gets the next number.
#[derive(Debug)]
pub struct IssRepo {
    rows: Vec<LogRow>,
}

impl IssRepo {
    /// The rows of the log, oldest first.
    pub closed spec fn rows(&self) -> Seq<LogRowModel> {
        log_models(self.rows@)
    }

    /// An empty log.
    pub fn new() -> (repo: Self)
        ensures
            repo.rows().len() == 0,
    {
        IssRepo { rows: Vec::new() }
    }

    /// Appends the payload fetched from `source_url` at the instant `now`.
    pub fn insert_log(&mut self, source_url: &str, payload: &Json, now: UtcInstant)
        requires
            old(self).rows().len() < i64::MAX,
        ensures
            final(self).rows() == old(self).rows().push(
                LogRowModel {
                    id: (old(self).rows().len() + 1) as i64,
                    fetched_at: now,
                    source_url: source_url@,
                    payload: payload@,
                },
            ),
    {
        let id = (self.rows.len() as u64 + 1) as i64;
        let row = LogRow {
            id,
            fetched_at: now,
            source_url: source_url.to_owned(),
            payload: payload.clone(),
        };
        self.rows.push(row);
    }

    /// The row appended last, if there is any.
    pub fn last(&self) -> (row: Option<LogRow>)
        ensures
            match row {
                Some(r) => self.rows().len() > 0 && r@ == self.rows().last(),
                None => self.rows().len() == 0,
            },
    {
        if self.rows.len() == 0 {
            None
        } else {
            Some(self.rows[self.rows.len() - 1].clone())
        }
    }

    /// The rows that a trend over `limit` samples reads: the most recent
    /// ones, as many as `limit` says but no fewer than two where there are
    /// two, from oldest to newest.
    pub fn trend(&self, limit: i64) -> (recent: Vec<LogRow>)
        ensures
            log_models(recent@) == tail(
                self.rows(),
                if limit < 2 {
                    2
                } else {
                    limit as int
                },
            ),
    {
        let wanted = if limit < 2 {
            2
        } else {
            limit
        };
        let count = cap(wanted, self.rows.len());
        let first = self.rows.len() - count;
        let mut recent: Vec<LogRow> = Vec::new();
        let mut i: usize = first;
        while i < self.rows.len()
            invariant
                first <= i <= self.rows.len(),
                recent.len() == i - first,
                forall|k: int| 0 <= k < recent.len() ==> recent@[k]@ == self.rows@[first + k]@,
            decreases self.rows.len() - i,
        {
            recent.push(self.rows[i].clone());
            i += 1;
        }
        recent
    }
}

/// The index of the first record at or after `from` whose business key is
/// `key`, or the number of records where there is none.
pub open spec fn key_row(rows: Seq<OsdrItemModel>, key: Seq<char>, from: int) -> int
    decreases rows.len() - from,
{
    if from < 0 || from >= rows.len() {
        rows.len() as int
    } else if rows[from].dataset_id == Some(key) {
        from
    } else {
        key_row(rows, key, from + 1)
    }
}

/// Whether no two records share a business key.
pub open spec fn unique_keys(rows: Seq<OsdrItemModel>) -> bool {
    forall|i: int, j: int|
        0 <= i < j < rows.len() && (#[trigger] rows[i]).dataset_id is Some ==> rows[i].dataset_id != (
        #[trigger] rows[j]).dataset_id
}

/// The record `row` after `item` has replaced its title, status, update time
/// and raw payload; its number, key and insertion time stay.
pub open spec fn replaced(row: OsdrItemModel, item: OsdrUpsertModel) -> OsdrItemModel {
    OsdrItemModel {
        id: row.id,
        dataset_id: row.dataset_id,
        title: item.title,
        status: item.status,
        updated_at: item.updated_at,
        inserted_at: row.inserted_at,
        raw: item.raw,
    }
}

/// The record that `item` is inserted as into a catalog of `len` records at
/// the instant `now`.
pub open spec fn inserted(len: nat, item: OsdrUpsertModel, now: UtcInstant) -> OsdrItemModel {
    OsdrItemModel {
        id: (len + 1) as i64,
        dataset_id: item.dataset_id,
        title: item.title,
        status: item.status,
        updated_at: item.updated_at,
        inserted_at: now,
        raw: item.raw,
    }
}

/// The catalog after `item` arrived at the instant `now`. An item with a
/// business key that a record already has replaces that record's fields,
/// whatever the update times say; any other item becomes a new record at
/// the end.
pub open spec fn upserted(rows: Seq<OsdrItemModel>, item: OsdrUpsertModel, now: UtcInstant) -> Seq<
    OsdrItemModel,
> {
    match item.dataset_id {
        Some(key) => {
            let at = key_row(rows, key, 0);
            if 0 <= at < rows.len() {
                rows.update(at, replaced(rows[at], item))
            } else {
                rows.push(inserted(rows.len(), item, now))
            }
        },
        None => rows.push(inserted(rows.len(), item, now)),
    }
}

/// The first record with the key `key` at or after `from` lies within the
/// catalog or at its end; where it lies within, it has the key, and no
/// record between `from` and it has.
pub proof fn lemma_key_row(rows: Seq<OsdrItemModel>, key: Seq<char>, from: int)
    requires
        0 <= from <= rows.len(),
    ensures
        from <= key_row(rows, key, from) <= rows.len(),
        key_row(rows, key, from) < rows.len() ==> rows[key_row(rows, key, from)].dataset_id == Some(
            key,
        ),
        forall|k: int| from <= k < key_row(rows, key, from) ==> rows[k].dataset_id != Some(key),
    decreases rows.len() - from,
{
    if from < rows.len() && rows[from].dataset_id != Some(key) {
        lemma_key_row(rows, key, from + 1);
    }
}

/// An upsert keeps the business keys unique.
pub proof fn lemma_upsert_keeps_keys_unique(
    rows: Seq<OsdrItemModel>,
    item: OsdrUpsertModel,
    now: UtcInstant,
)
    requires
        unique_keys(rows),
    ensures
        unique_keys(upserted(rows, item, now)),
{
    let after = upserted(rows, item, now);
    match item.dataset_id {
        Some(key) => {
            lemma_key_row(rows, key, 0);
            let at = key_row(rows, key, 0);
            if at < rows.len() {
                assert forall|i: int, j: int|
                    0 <= i < j < after.len() && (#[trigger] after[i]).dataset_id is Some implies after[i].dataset_id
                    != (#[trigger] after[j]).dataset_id by {
                    assert(after[i].dataset_id == rows[i].dataset_id);
                    assert(after[j].dataset_id == rows[j].dataset_id);
                }
            } else {
                assert forall|i: int, j: int|
                    0 <= i < j < after.len() && (#[trigger] after[i]).dataset_id is Some implies after[i].dataset_id
                    != (#[trigger] after[j]).dataset_id by {
                    assert(after[i] == rows[i]);
                    if j < rows.len() {
                        assert(after[j] == rows[j]);
                    }
                }
            }
        },
        None => {
            assert forall|i: int, j: int|
                0 <= i < j < after.len() && (#[trigger] after[i]).dataset_id is Some implies after[i].dataset_id
                != (#[trigger] after[j]).dataset_id by {
                assert(after[i] == rows[i]);
                if j < rows.len() {
                    assert(after[j] == rows[j]);
                }
            }
        },
    }
}

/// Two items with one business key leave one record, with the fields of the
/// second. After `first` and then `second` have arrived, both under the key
/// `key`, exactly one record of the catalog has that key; its title, status,
/// update time and raw payload are those of `second`; and the second
/// arrival added no record.
pub proof fn lemma_same_key_twice_leaves_one(
    rows: Seq<OsdrItemModel>,
    first: OsdrUpsertModel,
    second: OsdrUpsertModel,
    key: Seq<char>,
    t1: UtcInstant,
    t2: UtcInstant,
)
    requires
        unique_keys(rows),
        first.dataset_id == Some(key),
        second.dataset_id == Some(key),
    ensures
        ({
            let once = upserted(rows, first, t1);
            let twice = upserted(once, second, t2);
            let at = key_row(twice, key, 0);
            &&& twice.len() == once.len()
            &&& 0 <= at < twice.len()
            &&& twice[at].dataset_id == Some(key)
            &&& twice[at].title == second.title
            &&& twice[at].status == second.status
            &&& twice[at].updated_at == second.updated_at
            &&& twice[at].raw == second.raw
            &&& forall|i: int| 0 <= i < twice.len() && i != at ==> (#[trigger] twice[i]).dataset_id
                != Some(key)
        }),
{
    let once = upserted(rows, first, t1);
    lemma_upsert_keeps_keys_unique(rows, first, t1);
    lemma_key_row(rows, key, 0);
    lemma_key_row(once, key, 0);
    let at1 = key_row(once, key, 0);
    if key_row(rows, key, 0) < rows.len() {
        assert(once[key_row(rows, key, 0)].dataset_id == Some(key));
    } else {
        assert(once[rows.len() as int].dataset_id == Some(key));
    }
    assert(at1 < once.len());
    let twice = upserted(once, second, t2);
    lemma_upsert_keeps_keys_unique(once, second, t2);
    lemma_key_row(twice, key, 0);
    assert(twice[at1].dataset_id == Some(key));
    let at = key_row(twice, key, 0);
    assert(at == at1) by {
        if at < at1 {
            assert(twice[at].dataset_id == once[at].dataset_id);
        }
    }
    assert forall|i: int| 0 <= i < twice.len() && i != at implies (#[trigger] twice[i]).dataset_id
        != Some(key) by {
        if i < at {
            assert(twice[i].dataset_id is Some ==> twice[i].dataset_id != twice[at].dataset_id);
        } else {
            assert(twice[at].dataset_id != twice[i].dataset_id);
        }
    }
}

/// An item without a business key is never merged: it always becomes a new
/// record at the end, and every record that was there stays as it was.
pub proof fn lemma_keyless_item_is_inserted(
    rows: Seq<OsdrItemModel>,
    item: OsdrUpsertModel,
    now: UtcInstant,
)
    requires
        item.dataset_id is None,
    ensures
        upserted(rows, item, now).len() == rows.len() + 1,
        upserted(rows, item, now).last() == inserted(rows.len(), item, now),
        upserted(rows, item, now).drop_last() == rows,
{
    assert(upserted(rows, item, now).drop_last() =~= rows);
}

/// The catalog after the first `upto` of `items` arrived in order, all at
/// the instant `now`.
pub open spec fn upserted_all(
    rows: Seq<OsdrItemModel>,
    items: Seq<OsdrUpsertModel>,
    now: UtcInstant,
    upto: int,
) -> Seq<OsdrItemModel>
    decreases upto,
{
    if upto <= 0 || upto > items.len() {
        rows
    } else {
        upserted(upserted_all(rows, items, now, upto - 1), items[upto - 1], now)
    }
}

/// An arriving item adds one record or none.
pub proof fn lemma_upsert_adds_at_most_one(
    rows: Seq<OsdrItemModel>,
    item: OsdrUpsertModel,
    now: UtcInstant,
)
    ensures
        rows.len() <= upserted(rows, item, now).len() <= rows.len() + 1,
{
    if let Some(key) = item.dataset_id {
        lemma_key_row(rows, key, 0);
    }
}

/// How an arriving item is stored.
#[derive(Clone, Copy, Debug, PartialEq, Eq, Structural)]
pub enum UpsertMode {
    /// Insert, or replace the record that has the item's business key.
    Merge,
    /// Insert as a new record, whatever the catalog holds.
    Insert,
}

/// Decides how `item` is stored: merged under its business key where it has
/// one, inserted otherwise.
pub fn upsert_mode(item: &OsdrUpsert) -> (mode: UpsertMode)
    ensures
        mode == if item@.dataset_id is Some {
            UpsertMode::Merge
        } else {
            UpsertMode::Insert
        },
{
    match &item.dataset_id {
        Some(_) => UpsertMode::Merge,
        None => UpsertMode::Insert,
    }
}

/// The catalog: at most one record for each business key; records without
/// a key are never merged.
#[derive(Debug)]
pub struct OsdrRepo {
    rows: Vec<OsdrItem>,
}

impl OsdrRepo {
    #[verifier::type_invariant]
    spec fn keys_are_unique(self) -> bool {
        unique_keys(item_models(self.rows@))
    }

    /// The records of the catalog, in the order of their insertion.
    pub closed spec fn rows(&self) -> Seq<OsdrItemModel> {
        item_models(self.rows@)
    }

    /// An empty catalog.
    pub fn new() -> (repo: Self)
        ensures
            repo.rows().len() == 0,
    {
        OsdrRepo { rows: Vec::new() }
    }

    /// The number of records.
    pub fn count(&self) -> (n: usize)
        ensures
            n == self.rows().len(),
    {
        self.rows.len()
    }

    /// Takes in `item` at the instant `now`: it replaces the fields of the
    /// record that has its business key, or becomes a new record.
    pub fn upsert(&mut self, item: OsdrUpsert, now: UtcInstant)
        requires
            old(self).rows().len() < i64::MAX,
        ensures
            final(self).rows() == upserted(old(self).rows(), item@, now),
            unique_keys(final(self).rows()),
    {
        proof {
            use_type_invariant(&*self);
            lemma_upsert_keeps_keys_unique(self.rows(), item@, now);
        }
        let mut taken = OsdrRepo { rows: Vec::new() };
        std::mem::swap(self, &mut taken);
        let mut rows = taken.rows;
        let ghost before = rows@;
        let mut found: Option<usize> = None;
        if let Some(key) = &item.dataset_id {
            let mut i: usize = 0;
            while i < rows.len()
                invariant_except_break
                    found is None,
                    key_row(item_models(before), key@, 0) == key_row(
                        item_models(before),
                        key@,
                        i as int,
                    ),
                invariant
                    i <= rows.len(),
                    rows@ == before,
                ensures
                    match found {
                        Some(at) => key_row(item_models(before), key@, 0) == at && at
                            < before.len(),
                        None => key_row(item_models(before), key@, 0) == before.len(),
                    },
                decreases rows.len() - i,
            {
                let same = match &rows[i].dataset_id {
                    Some(k) => str_eq(k.as_str(), key.as_str()),
                    None => false,
                };
                if same {
                    found = Some(i);
                    break ;
                }
                i += 1;
            }
        }
        match found {
            Some(at) => {
                let row = &rows[at];
                let merged = OsdrItem {
                    id: row.id,
                    dataset_id: clone_opt_text(&row.dataset_id),
                    title: item.title,
                    status: item.status,
                    updated_at: item.updated_at,
                    inserted_at: row.inserted_at,
                    raw: item.raw,
                };
                rows.set(at, merged);
                assert(item_models(rows@) =~= upserted(item_models(before), item@, now));
            },
            None => {
                let id = (rows.len() as u64 + 1) as i64;
                let row = OsdrItem {
                    id,
                    dataset_id: item.dataset_id,
                    title: item.title,
                    status: item.status,
                    updated_at: item.updated_at,
                    inserted_at: now,
                    raw: item.raw,
                };
                rows.push(row);
                assert(item_models(rows@) =~= upserted(item_models(before), item@, now));
            },
        }
        *self = OsdrRepo { rows };
    }

    /// Takes in `items` in order, all at the instant `now`, and returns how
    /// many were written.
    pub fn upsert_all(&mut self, items: &Vec<OsdrUpsert>, now: UtcInstant) -> (written: usize)
        requires
            old(self).rows().len() + items@.len() < i64::MAX,
        ensures
            written == items@.len(),
            final(self).rows() == upserted_all(
                old(self).rows(),
                upsert_models(items@),
                now,
                items@.len() as int,
            ),
            unique_keys(final(self).rows()),
    {
        proof {
            use_type_invariant(&*self);
        }
        let ghost before = self.rows();
        let ghost wanted = upsert_models(items@);
        let mut written: usize = 0;
        while written < items.len()
            invariant
                written <= items.len(),
                wanted == upsert_models(items@),
                before.len() + items@.len() < i64::MAX,
                self.rows() == upserted_all(before, wanted, now, written as int),
                self.rows().len() <= before.len() + written,
                unique_keys(self.rows()),
            decreases items.len() - written,
        {
            let item = items[written].clone();
            proof {
                lemma_upsert_adds_at_most_one(self.rows(), item@, now);
            }
            self.upsert(item, now);
            written += 1;
        }
        written
    }

    /// The records inserted last, newest first, `limit` of them at most.
    pub fn list(&self, limit: i64) -> (newest: Vec<OsdrItem>)
        ensures
            item_models(newest@) == tail(self.rows(), limit as int).reverse(),
    {
        let count = cap(limit, self.rows.len());
        let n = self.rows.len();
        let mut newest: Vec<OsdrItem> = Vec::new();
        let mut taken: usize = 0;
        while taken < count
            invariant
                taken <= count <= n,
                n == self.rows.len(),
                newest.len() == taken,
                forall|k: int| 0 <= k < taken ==> newest@[k]@ == self.rows@[n - 1 - k]@,
            decreases count - taken,
        {
            newest.push(self.rows[n - 1 - taken].clone());
            taken += 1;
        }
        newest
    }
}

/// The index of the last row before `upto` that belongs to `source`, or
/// -1 where there is none.
pub open spec fn last_of_source(rows: Seq<CacheItemModel>, source: Seq<char>, upto: int) -> int
    decreases upto,
{
    if upto <= 0 || upto > rows.len() {
        -1
    } else if rows[upto - 1].source == source {
        upto - 1
    } else {
        last_of_source(rows, source, upto - 1)
    }
}

/// The latest row of `source`: the one appended last among its rows.
pub open spec fn latest_of(rows: Seq<CacheItemModel>, source: Seq<char>) -> Option<CacheItemModel> {
    let at = last_of_source(rows, source, rows.len() as int);
    if 0 <= at < rows.len() {
        Some(rows[at])
    } else {
        None
    }
}

/// The latest row of a source is the row written last under its name: once
/// `row` is appended, it is the latest of its own source, and the latest of
/// every other source is what it was.
pub proof fn lemma_write_sets_latest(rows: Seq<CacheItemModel>, row: CacheItemModel, other: Seq<char>)
    ensures
        latest_of(rows.push(row), row.source) == Some(row),
        other != row.source ==> latest_of(rows.push(row), other) == latest_of(rows, other),
{
    let after = rows.push(row);
    if other != row.source {
        lemma_last_of_source_prefix(rows, after, other, rows.len() as int);
    }
}

proof fn lemma_last_of_source_prefix(
    rows: Seq<CacheItemModel>,
    longer: Seq<CacheItemModel>,
    source: Seq<char>,
    upto: int,
)
    requires
        0 <= upto <= rows.len() <= longer.len(),
        forall|k: int| 0 <= k < rows.len() ==> rows[k] == longer[k],
    ensures
        last_of_source(rows, source, upto) == last_of_source(longer, source, upto),
        -1 <= last_of_source(rows, source, upto) < upto,
    decreases upto,
{
    if upto > 0 && rows[upto - 1].source != source {
        lemma_last_of_source_prefix(rows, longer, source, upto - 1);
    }
}

/// The cache: every write appends a row under the name of its source, and
/// no row is changed or removed.
#[derive(Debug)]
pub struct CacheRepo {
    rows: Vec<SpaceCacheItem>,
}

impl CacheRepo {
    /// The rows of the cache, oldest first.
    pub closed spec fn rows(&self) -> Seq<CacheItemModel> {
        cache_models(self.rows@)
    }

    /// An empty cache.
    pub fn new() -> (repo: Self)
        ensures
            repo.rows().len() == 0,
    {
        CacheRepo { rows: Vec::new() }
    }

    /// Appends `payload` as fetched from `source` at the instant `now`.
    pub fn write(&mut self, source: &str, payload: Json, now: UtcInstant)
        ensures
            final(self).rows() == old(self).rows().push(
                CacheItemModel { source: source@, fetched_at: now, payload: payload@ },
            ),
    {
        let row = SpaceCacheItem { source: source.to_owned(), fetched_at: now, payload };
        self.rows.push(row);
    }

    /// The latest row of `source`, if it has any.
    pub fn latest(&self, source: &str) -> (row: Option<SpaceCacheItem>)
        ensures
            match row {
                Some(r) => latest_of(self.rows(), source@) == Some(r@),
                None => latest_of(self.rows(), source@) is None,
            },
    {
        let n = self.rows.len();
        let mut i: usize = n;
        while i > 0
            invariant
                i <= n,
                n == self.rows.len(),
                last_of_source(self.rows(), source@, n as int) == last_of_source(
                    self.rows(),
                    source@,
                    i as int,
                ),
            decreases i,
        {
            if str_eq(self.rows[i - 1].source.as_str(), source) {
                return Some(self.rows[i - 1].clone());
            }
            i -= 1;
        }
        None
    }
}

} // verus!
