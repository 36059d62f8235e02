use vstd::prelude::*;

use crate::model::{color_of, Bicycle, Color, RepositoryError};

verus! {

/// A bicycle as the store holds it, with its persistence metadata.
#[derive(Clone, Debug)]
pub struct StoredRecord {
    pub bike: Bicycle,
    /// Unix seconds of the insert; never changes afterwards.
    pub created_at: i64,
    /// Unix seconds of the latest write.
    pub updated_at: i64,
    /// The optimistic-concurrency token: 0 on insert, one more on each update.
    pub version: i64,
}

/// The abstract state of a store: its rows in ascending id order, the id the
/// next insert receives, and the time that the store's writes are stamped with.
pub struct StoreModel {
    pub rows: Seq<StoredRecord>,
    pub next_id: i64,
    pub clock: i64,
}

/// A row that a store in state `(next_id, clock)` can hold.
pub open spec fn record_wf(r: StoredRecord, next_id: i64, clock: i64) -> bool {
    &&& 1 <= r.bike.id < next_id
    &&& 0 <= r.version
    &&& r.created_at <= r.updated_at <= clock
}

impl StoreModel {
    /// Ids are positive, unique, ascending and below `next_id`; no row is
    /// stamped later than the clock.
    pub open spec fn wf(self) -> bool {
        &&& 1 <= self.next_id
        &&& forall|i: int|
            0 <= i < self.rows.len() ==> record_wf(#[trigger] self.rows[i], self.next_id, self.clock)
        &&& forall|i: int, j: int|
            0 <= i < j < self.rows.len() ==> #[trigger] self.rows[i].bike.id
                < #[trigger] self.rows[j].bike.id
    }
}

/// Whether some row has the id `id`.
pub open spec fn contains_id(rows: Seq<StoredRecord>, id: i64) -> bool {
    exists|i: int| 0 <= i < rows.len() && #[trigger] rows[i].bike.id == id
}

/// The position of the row with id `id` (meaningful where `contains_id` holds).
pub open spec fn index_of(rows: Seq<StoredRecord>, id: i64) -> int {
    choose|i: int| 0 <= i < rows.len() && #[trigger] rows[i].bike.id == id
}

/// The bicycle stored under `id`, if any.
pub open spec fn lookup(rows: Seq<StoredRecord>, id: i64) -> Option<Bicycle> {
    if contains_id(rows, id) {
        Some(rows[index_of(rows, id)].bike)
    } else {
        None
    }
}

/// `bike` under the id `id`.
pub open spec fn with_id(bike: Bicycle, id: i64) -> Bicycle {
    Bicycle { id, model: bike.model, color: bike.color }
}

/// The row an insert of `bike` writes when the store assigns `id` at time `now`.
pub open spec fn fresh_record(id: i64, bike: Bicycle, now: i64) -> StoredRecord {
    StoredRecord { bike: with_id(bike, id), created_at: now, updated_at: now, version: 0 }
}

/// The later of two instants.
pub open spec fn later(a: i64, b: i64) -> i64 {
    if a >= b {
        a
    } else {
        b
    }
}

/// The row an update with `bike` writes over the locked row `locked` at time `now`:
/// the id and creation time of the locked row, the fields of `bike`, the
/// locked version plus one, and an update time that is `now` unless the
/// locked row was stamped later (a clock read before the lock was taken may
/// lag behind a writer that committed in between).
pub open spec fn revised(locked: StoredRecord, bike: Bicycle, now: i64) -> StoredRecord {
    StoredRecord {
        bike: with_id(bike, locked.bike.id),
        created_at: locked.created_at,
        updated_at: later(now, locked.updated_at),
        version: (locked.version + 1) as i64,
    }
}

/// The store after a successful insert of `bike`.
pub open spec fn inserted(m: StoreModel, bike: Bicycle) -> StoreModel {
    StoreModel {
        rows: m.rows.push(fresh_record(m.next_id, bike, m.clock)),
        next_id: (m.next_id + 1) as i64,
        clock: m.clock,
    }
}

/// The store after a successful update with `bike`.
pub open spec fn updated(m: StoreModel, bike: Bicycle) -> StoreModel {
    let k = index_of(m.rows, bike.id);
    StoreModel { rows: m.rows.update(k, revised(m.rows[k], bike, m.clock)), next_id: m.next_id, clock: m.clock }
}

/// What an insert of `bike` on `old` leaves (`new`) and returns (`r`): the
/// stored bicycle under the next id, or `IdDoesNotExist` with nothing written
/// once ids are exhausted.
pub open spec fn insert_outcome(
    old: StoreModel,
    bike: Bicycle,
    new: StoreModel,
    r: Result<Bicycle, RepositoryError>,
) -> bool {
    if old.next_id == i64::MAX {
        new == old && r == Err::<Bicycle, RepositoryError>(RepositoryError::IdDoesNotExist)
    } else {
        new == inserted(old, bike) && r == Ok::<Bicycle, RepositoryError>(
            with_id(bike, old.next_id),
        )
    }
}

/// What an update with `bike` on `old` leaves (`new`) and returns (`r`):
/// `IdDoesNotExist` for an unknown id and `StorageError` for an exhausted
/// version counter, both with nothing written; otherwise the revised row.
pub open spec fn update_outcome(
    old: StoreModel,
    bike: Bicycle,
    new: StoreModel,
    r: Result<Bicycle, RepositoryError>,
) -> bool {
    let k = index_of(old.rows, bike.id);
    if !contains_id(old.rows, bike.id) {
        new == old && r == Err::<Bicycle, RepositoryError>(RepositoryError::IdDoesNotExist)
    } else if old.rows[k].version == i64::MAX {
        new == old && r matches Err(RepositoryError::StorageError(_))
    } else {
        new == updated(old, bike) && r == Ok::<Bicycle, RepositoryError>(with_id(bike, bike.id))
    }
}

/// The bicycles that `rows` hold, in their order.
pub open spec fn bikes(rows: Seq<StoredRecord>) -> Seq<Bicycle> {
    rows.map_values(|r: StoredRecord| r.bike)
}

/// The bicycles of `rows` from position `page * limit` on, at most `limit` of them.
pub open spec fn page_of(rows: Seq<StoredRecord>, page: int, limit: int) -> Seq<Bicycle> {
    let start = if page * limit < rows.len() { page * limit } else { rows.len() as int };
    let end = if start + limit < rows.len() { start + limit } else { rows.len() as int };
    bikes(rows.subrange(start, end))
}

/// In a well-formed store the row carrying `id` sits at `index_of(rows, id)`.
pub proof fn lemma_index_unique(m: StoreModel, i: int)
    requires
        m.wf(),
        0 <= i < m.rows.len(),
    ensures
        contains_id(m.rows, m.rows[i].bike.id),
        index_of(m.rows, m.rows[i].bike.id) == i,
{
    let id = m.rows[i].bike.id;
    assert(contains_id(m.rows, id));
    let j = index_of(m.rows, id);
    if j < i {
        assert(m.rows[j].bike.id < m.rows[i].bike.id);
    } else if i < j {
        assert(m.rows[i].bike.id < m.rows[j].bike.id);
    }
}

/// Builds the row to insert for `bike` under the store-assigned `id` at time `now`.
pub fn fresh(id: i64, bike: &Bicycle, now: i64) -> (r: StoredRecord)
    ensures
        r == fresh_record(id, *bike, now),
{
    StoredRecord {
        bike: Bicycle { id, model: bike.model.clone(), color: bike.color },
        created_at: now,
        updated_at: now,
        version: 0,
    }
}

/// Builds the row an update writes over the row `locked` that it read under
/// lock: the new version comes from the locked row, never from the caller,
/// and the update time never falls behind the locked row's.
pub fn revise(locked: &StoredRecord, bike: &Bicycle, now: i64) -> (r: Result<
    StoredRecord,
    RepositoryError,
>)
    ensures
        locked.version == i64::MAX ==> r matches Err(RepositoryError::StorageError(_)),
        locked.version != i64::MAX ==> r == Ok::<StoredRecord, RepositoryError>(
            revised(*locked, *bike, now),
        ),
{
    if locked.version == i64::MAX {
        Err(RepositoryError::StorageError("the version counter is exhausted".to_owned()))
    } else {
        Ok(
            StoredRecord {
                bike: Bicycle {
                    id: locked.bike.id,
                    model: bike.model.clone(),
                    color: bike.color,
                },
                created_at: locked.created_at,
                updated_at: if now >= locked.updated_at {
                    now
                } else {
                    locked.updated_at
                },
                version: locked.version + 1,
            },
        )
    }
}

/// Builds a record from the columns of a stored row; a color text that is
/// none of the enumerated names is reported, never coerced.
pub fn record_from_row(
    id: i64,
    model: String,
    color: &str,
    created_at: i64,
    updated_at: i64,
    version: i64,
) -> (r: Result<StoredRecord, RepositoryError>)
    ensures
        match color_of(color@) {
            Some(c) => r == Ok::<StoredRecord, RepositoryError>(
                StoredRecord {
                    bike: Bicycle { id, model, color: c },
                    created_at,
                    updated_at,
                    version,
                },
            ),
            None => r matches Err(RepositoryError::InvalidColor(t)) && t@ == color@,
        },
{
    match Color::parse(color) {
        Ok(c) => Ok(StoredRecord { bike: Bicycle { id, model, color: c }, created_at, updated_at, version }),
        Err(e) => Err(e),
    }
}

/// The first of the rows a keyed query returned, or `absent` when it returned none.
pub fn first_record(rows: Vec<StoredRecord>, absent: RepositoryError) -> (r: Result<
    StoredRecord,
    RepositoryError,
>)
    ensures
        rows@.len() > 0 ==> r == Ok::<StoredRecord, RepositoryError>(rows@[0]),
        rows@.len() == 0 ==> r == Err::<StoredRecord, RepositoryError>(absent),
{
    let mut rows = rows;
    if rows.len() == 0 {
        Err(absent)
    } else {
        Ok(rows.swap_remove(0))
    }
}

/// The number of rows a page skips, saturating at `u64::MAX`.
pub open spec fn page_offset(page: int, limit: int) -> u64 {
    if page * limit <= u64::MAX {
        (page * limit) as u64
    } else {
        u64::MAX
    }
}

/// The row count and the offset of a page: `limit` rows after the first
/// `page * limit`, the offset saturating at `u64::MAX`. A negative page or
/// limit is refused as a statement error.
pub fn page_bounds(page: i64, limit: i64) -> (r: Result<(u64, u64), RepositoryError>)
    ensures
        page < 0 || limit < 0 ==> r matches Err(RepositoryError::StorageError(_)),
        page >= 0 && limit >= 0 ==> r == Ok::<(u64, u64), RepositoryError>(
            (limit as u64, page_offset(page as int, limit as int)),
        ),
{
    if page < 0 || limit < 0 {
        return Err(RepositoryError::StorageError("page and limit must not be negative".to_owned()));
    }
    let p = page as u128;
    let l = limit as u128;
    assert(p * l <= 0x7fff_ffff_ffff_ffffu128 * 0x7fff_ffff_ffff_ffffu128) by (nonlinear_arith)
        requires
            p <= 0x7fff_ffff_ffff_ffffu128,
            l <= 0x7fff_ffff_ffff_ffffu128,
    ;
    let product = p * l;
    let offset: u64 = if product <= u64::MAX as u128 {
        product as u64
    } else {
        u64::MAX
    };
    Ok((limit as u64, offset))
}

/// A store of bicycles. Each store says, through the relations `gets`,
/// `inserts`, `updates` and `lists`, what one call returns and leaves behind;
/// every store also guarantees the facts on returned values stated below.
/// `MemoryStore` gives the relations exactly.
pub trait Repository: Sized {
    /// Whether `get(id)` on this store may return `r`.
    spec fn gets(&self, id: i64, r: Result<Bicycle, RepositoryError>) -> bool;

    /// Whether `insert(bike)` on this store may leave `after` and return `r`.
    spec fn inserts(&self, bike: Bicycle, after: Self, r: Result<Bicycle, RepositoryError>) -> bool;

    /// Whether `update(bike)` on this store may leave `after` and return `r`.
    spec fn updates(&self, bike: Bicycle, after: Self, r: Result<Bicycle, RepositoryError>) -> bool;

    /// Whether `get_all(page, limit)` on this store may return `r`.
    spec fn lists(&self, page: i64, limit: i64, r: Result<Vec<Bicycle>, RepositoryError>) -> bool;

    /// Fetches the bicycle stored under `id`.
    fn get(&self, id: i64) -> (r: Result<Bicycle, RepositoryError>)
        ensures
            self.gets(id, r),
            r matches Ok(b) ==> b.id == id,
    ;

    /// Stores `bike` under a new id, ignoring the id it carries.
    fn insert(&mut self, bike: &Bicycle) -> (r: Result<Bicycle, RepositoryError>)
        ensures
            old(self).inserts(*bike, *final(self), r),
            r matches Ok(b) ==> b.id >= 1 && b.model == bike.model && b.color == bike.color,
    ;

    /// Overwrites the model and color of the row `bike.id`, one version on.
    fn update(&mut self, bike: &Bicycle) -> (r: Result<Bicycle, RepositoryError>)
        ensures
            old(self).updates(*bike, *final(self), r),
            r matches Ok(b) ==> b.id == bike.id && b.model == bike.model && b.color == bike.color,
    ;

    /// Reads the row `id` under lock (or nothing, when `id` is `None`), hands
    /// it to `transform` and writes the result back in the same transaction:
    /// as an update of the row `id`, whatever id the result carries, or as an
    /// insert when `id` is `None`. Without an id the call is an insert of
    /// `transform(None)`; with the id of a stored bicycle it is an update with
    /// `transform(Some(stored))` under that id; with an unknown id it fails
    /// with `IdDoesNotExist`.
    fn read_modify_write<F: FnOnce(Option<Bicycle>) -> Bicycle>(
        &mut self,
        id: Option<i64>,
        transform: F,
    ) -> (r: Result<Bicycle, RepositoryError>)
        requires
            forall|x: Option<Bicycle>| transform.requires((x,)),
        ensures
            id is None ==> exists|b: Bicycle|
                #![trigger transform.ensures((None::<Bicycle>,), b)]
                transform.ensures((None::<Bicycle>,), b) && old(self).inserts(b, *final(self), r),
            id matches Some(i) ==> (old(self).gets(i, Err::<Bicycle, RepositoryError>(RepositoryError::NotFound))
                ==> r == Err::<Bicycle, RepositoryError>(RepositoryError::IdDoesNotExist)),
            id matches Some(i) ==> forall|prev: Bicycle|
                #[trigger] old(self).gets(i, Ok::<Bicycle, RepositoryError>(prev)) ==> exists|b: Bicycle|
                    #![trigger transform.ensures((Some(prev),), b)]
                    transform.ensures((Some(prev),), b) && old(self).updates(with_id(b, i), *final(self), r),
            r matches Ok(b) ==> (id matches Some(i) ==> b.id == i),
            r matches Ok(b) ==> exists|x: Option<Bicycle>, out: Bicycle|
                #![trigger transform.ensures((x,), out)]
                transform.ensures((x,), out) && (id is None ==> x is None) && (id matches Some(
                    i,
                ) ==> (x matches Some(p) && p.id == i)) && b.model == out.model && b.color
                    == out.color,
    ;

    /// The page `page` of `limit` bicycles, in ascending id order.
    fn get_all(&self, page: i64, limit: i64) -> (r: Result<Vec<Bicycle>, RepositoryError>)
        ensures
            self.lists(page, limit, r),
            page < 0 || limit < 0 ==> r is Err,
            r matches Ok(v) ==> v@.len() <= limit && forall|i: int, j: int|
                0 <= i < j < v@.len() ==> #[trigger] v@[i].id < #[trigger] v@[j].id,
    ;
}

} // verus!
