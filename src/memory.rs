use vstd::prelude::*;

use crate::laws::{lemma_page_in_order, lemma_updated_wf};
use crate::model::{Bicycle, RepositoryError};
use crate::repository::{
    bikes, contains_id, fresh, index_of, inserted, insert_outcome, lemma_index_unique, lookup,
    page_bounds, page_of, record_wf, revise, update_outcome, updated, with_id, Repository,
    StoreModel, StoredRecord,
};

verus! {

/// A repository that keeps its rows in memory, in ascending id order. Writes
/// are stamped with a clock that the owner sets and that never goes back.
pub struct MemoryStore {
    rows: Vec<StoredRecord>,
    next_id: i64,
    clock: i64,
}

impl View for MemoryStore {
    type V = StoreModel;

    closed spec fn view(&self) -> StoreModel {
        StoreModel { rows: self.rows@, next_id: self.next_id, clock: self.clock }
    }
}

impl MemoryStore {
    #[verifier::type_invariant]
    closed spec fn inv(&self) -> bool {
        self@.wf()
    }

    /// An empty store whose first insert gets id 1, with the clock at 0.
    pub fn new() -> (r: MemoryStore)
        ensures
            r@ == (StoreModel { rows: Seq::empty(), next_id: 1, clock: 0 }),
            r@.wf(),
    {
        MemoryStore { rows: Vec::new(), next_id: 1, clock: 0 }
    }

    /// The time that writes are stamped with.
    pub fn clock(&self) -> (r: i64)
        ensures
            r == self@.clock,
    {
        self.clock
    }

    /// Moves the clock to `now`; a time earlier than the clock is refused and
    /// leaves the store as it was.
    pub fn set_clock(&mut self, now: i64) -> (r: bool)
        ensures
            final(self)@.wf(),
            r == (now >= old(self)@.clock),
            r ==> final(self)@ == (StoreModel { clock: now, ..old(self)@ }),
            !r ==> final(self)@ == old(self)@,
    {
        proof {
            use_type_invariant(&*self);
        }
        if now >= self.clock {
            let ghost before = self@;
            assert forall|i: int| 0 <= i < before.rows.len() implies record_wf(
                #[trigger] before.rows[i],
                before.next_id,
                now,
            ) by {
                assert(record_wf(before.rows[i], before.next_id, before.clock));
            }
            self.clock = now;
            true
        } else {
            false
        }
    }

    /// The number of stored rows.
    pub fn len(&self) -> (r: usize)
        ensures
            r == self@.rows.len(),
    {
        self.rows.len()
    }

    fn position(&self, id: i64) -> (r: Option<usize>)
        ensures
            r is None <==> !contains_id(self@.rows, id),
            r matches Some(k) ==> k == index_of(self@.rows, id) && k < self@.rows.len()
                && self@.rows[k as int].bike.id == id,
    {
        proof {
            use_type_invariant(self);
        }
        let mut k: usize = 0;
        while k < self.rows.len()
            invariant
                self@.wf(),
                k <= self.rows@.len(),
                forall|j: int| 0 <= j < k ==> #[trigger] self.rows@[j].bike.id != id,
            decreases self.rows@.len() - k,
        {
            if self.rows[k].bike.id == id {
                proof {
                    lemma_index_unique(self@, k as int);
                }
                return Some(k);
            }
            k = k + 1;
        }
        None
    }

    /// Fetches the bicycle stored under `id`; `NotFound` when there is none.
    pub fn get(&self, id: i64) -> (r: Result<Bicycle, RepositoryError>)
        ensures
            match lookup(self@.rows, id) {
                Some(b) => r == Ok::<Bicycle, RepositoryError>(b),
                None => r == Err::<Bicycle, RepositoryError>(RepositoryError::NotFound),
            },
    {
        match self.position(id) {
            Some(k) => Ok(self.rows[k].bike.fresh_copy()),
            None => Err(RepositoryError::NotFound),
        }
    }

    /// The row stored under `id`, with its timestamps and version.
    pub fn stored(&self, id: i64) -> (r: Option<StoredRecord>)
        ensures
            contains_id(self@.rows, id) ==> r == Some(self@.rows[index_of(self@.rows, id)]),
            !contains_id(self@.rows, id) ==> r is None,
    {
        match self.position(id) {
            Some(k) => {
                let row = &self.rows[k];
                Some(
                    StoredRecord {
                        bike: row.bike.fresh_copy(),
                        created_at: row.created_at,
                        updated_at: row.updated_at,
                        version: row.version,
                    },
                )
            },
            None => None,
        }
    }

    /// Stores `bike` under the next id, at version 0, created and updated now.
    pub fn insert(&mut self, bike: &Bicycle) -> (r: Result<Bicycle, RepositoryError>)
        ensures
            final(self)@.wf(),
            insert_outcome(old(self)@, *bike, final(self)@, r),
    {
        proof {
            use_type_invariant(&*self);
        }
        if self.next_id == i64::MAX {
            return Err(RepositoryError::IdDoesNotExist);
        }
        let ghost before = self@;
        let record = fresh(self.next_id, bike, self.clock);
        let result = record.bike.fresh_copy();
        let mut rows = Vec::new();
        std::mem::swap(&mut rows, &mut self.rows);
        rows.push(record);
        proof {
            let after = StoreModel { rows: rows@, next_id: (before.next_id + 1) as i64, clock: before.clock };
            assert forall|i: int| 0 <= i < after.rows.len() implies record_wf(
                #[trigger] after.rows[i],
                after.next_id,
                after.clock,
            ) by {
                if i < before.rows.len() {
                    assert(after.rows[i] == before.rows[i]);
                    assert(record_wf(before.rows[i], before.next_id, before.clock));
                }
            }
            assert forall|i: int, j: int| 0 <= i < j < after.rows.len() implies
                #[trigger] after.rows[i].bike.id < #[trigger] after.rows[j].bike.id by {
                assert(record_wf(before.rows[i], before.next_id, before.clock));
                if j < before.rows.len() {
                    assert(before.rows[i].bike.id < before.rows[j].bike.id);
                }
            }
        }
        *self = MemoryStore { rows, next_id: self.next_id + 1, clock: self.clock };
        proof {
            assert(self@ =~= inserted(before, *bike));
        }
        Ok(result)
    }

    /// Writes the model and color of `bike` over the row `bike.id`, stamped
    /// now, with the stored version plus one.
    pub fn update(&mut self, bike: &Bicycle) -> (r: Result<Bicycle, RepositoryError>)
        ensures
            final(self)@.wf(),
            update_outcome(old(self)@, *bike, final(self)@, r),
    {
        proof {
            use_type_invariant(&*self);
        }
        let k = match self.position(bike.id) {
            Some(k) => k,
            None => return Err(RepositoryError::IdDoesNotExist),
        };
        let record = match revise(&self.rows[k], bike, self.clock) {
            Ok(record) => record,
            Err(e) => return Err(e),
        };
        let result = record.bike.fresh_copy();
        let ghost before = self@;
        let mut rows = Vec::new();
        std::mem::swap(&mut rows, &mut self.rows);
        rows[k] = record;
        proof {
            lemma_updated_wf(before, *bike);
            assert(rows@ =~= updated(before, *bike).rows);
        }
        self.rows = rows;
        Ok(result)
    }

    /// The read-modify-write primitive. With no id, `transform(None)` is
    /// inserted. With an id, the stored bicycle is handed to `transform` and
    /// its result is written back under that same id, as an update would;
    /// an unknown id fails with `IdDoesNotExist` before `transform` runs.
    pub fn read_modify_write<F: FnOnce(Option<Bicycle>) -> Bicycle>(
        &mut self,
        id: Option<i64>,
        transform: F,
    ) -> (r: Result<Bicycle, RepositoryError>)
        requires
            forall|x: Option<Bicycle>| transform.requires((x,)),
        ensures
            final(self)@.wf(),
            id is None ==> exists|b: Bicycle|
                transform.ensures((None::<Bicycle>,), b) && insert_outcome(
                    old(self)@,
                    b,
                    final(self)@,
                    r,
                ),
            id matches Some(i) ==> match lookup(old(self)@.rows, i) {
                None => final(self)@ == old(self)@ && r == Err::<Bicycle, RepositoryError>(
                    RepositoryError::IdDoesNotExist,
                ),
                Some(prev) => exists|b: Bicycle|
                    transform.ensures((Some(prev),), b) && update_outcome(
                        old(self)@,
                        with_id(b, i),
                        final(self)@,
                        r,
                    ),
            },
    {
        proof {
            use_type_invariant(&*self);
        }
        match id {
            None => {
                let b = transform(None);
                let r = self.insert(&b);
                assert(transform.ensures((None::<Bicycle>,), b) && insert_outcome(
                    old(self)@,
                    b,
                    self@,
                    r,
                ));
                r
            },
            Some(i) => {
                let k = match self.position(i) {
                    Some(k) => k,
                    None => return Err(RepositoryError::IdDoesNotExist),
                };
                let prev = self.rows[k].bike.fresh_copy();
                let ghost arg = prev;
                let b = transform(Some(prev));
                let ghost out = b;
                let target = Bicycle { id: i, model: b.model, color: b.color };
                let r = self.update(&target);
                assert(transform.ensures((Some(arg),), out) && update_outcome(
                    old(self)@,
                    with_id(out, i),
                    self@,
                    r,
                ));
                r
            },
        }
    }

    /// The page `page` of `limit` bicycles in ascending id order; a negative
    /// page or limit is refused with `StorageError`.
    pub fn get_all(&self, page: i64, limit: i64) -> (r: Result<Vec<Bicycle>, RepositoryError>)
        ensures
            page < 0 || limit < 0 ==> r matches Err(RepositoryError::StorageError(_)),
            page >= 0 && limit >= 0 ==> (r matches Ok(v) && v@ == page_of(
                self@.rows,
                page as int,
                limit as int,
            )),
    {
        proof {
            use_type_invariant(self);
        }
        let (n, offset) = match page_bounds(page, limit) {
            Ok(bounds) => bounds,
            Err(e) => return Err(e),
        };
        let len = self.rows.len();
        let start: usize = if offset < len as u64 {
            offset as usize
        } else {
            len
        };
        let end: usize = if n < (len - start) as u64 {
            start + n as usize
        } else {
            len
        };
        let ghost s = start as int;
        proof {
            assert(s == if page * limit < self@.rows.len() { page * limit } else { self@.rows.len() as int });
        }
        let mut out: Vec<Bicycle> = Vec::new();
        let mut k: usize = start;
        while k < end
            invariant
                s == start as int,
                start <= k <= end <= self.rows@.len(),
                out@ == bikes(self@.rows.subrange(s, k as int)),
            decreases end - k,
        {
            out.push(self.rows[k].bike.fresh_copy());
            proof {
                assert(bikes(self@.rows.subrange(s, k + 1)) =~= bikes(
                    self@.rows.subrange(s, k as int),
                ).push(self@.rows[k as int].bike));
            }
            k = k + 1;
        }
        Ok(out)
    }
}

impl Repository for MemoryStore {
    open spec fn gets(&self, id: i64, r: Result<Bicycle, RepositoryError>) -> bool {
        match lookup(self@.rows, id) {
            Some(b) => r == Ok::<Bicycle, RepositoryError>(b),
            None => r == Err::<Bicycle, RepositoryError>(RepositoryError::NotFound),
        }
    }

    open spec fn inserts(
        &self,
        bike: Bicycle,
        after: MemoryStore,
        r: Result<Bicycle, RepositoryError>,
    ) -> bool {
        insert_outcome(self@, bike, after@, r)
    }

    open spec fn updates(
        &self,
        bike: Bicycle,
        after: MemoryStore,
        r: Result<Bicycle, RepositoryError>,
    ) -> bool {
        update_outcome(self@, bike, after@, r)
    }

    open spec fn lists(&self, page: i64, limit: i64, r: Result<Vec<Bicycle>, RepositoryError>) -> bool {
        if page < 0 || limit < 0 {
            r matches Err(RepositoryError::StorageError(_))
        } else {
            r matches Ok(v) && v@ == page_of(self@.rows, page as int, limit as int)
        }
    }

    fn get(&self, id: i64) -> (r: Result<Bicycle, RepositoryError>) {
        MemoryStore::get(self, id)
    }

    fn insert(&mut self, bike: &Bicycle) -> (r: Result<Bicycle, RepositoryError>) {
        proof {
            use_type_invariant(&*self);
        }
        MemoryStore::insert(self, bike)
    }

    fn update(&mut self, bike: &Bicycle) -> (r: Result<Bicycle, RepositoryError>) {
        MemoryStore::update(self, bike)
    }

    fn read_modify_write<F: FnOnce(Option<Bicycle>) -> Bicycle>(
        &mut self,
        id: Option<i64>,
        transform: F,
    ) -> (r: Result<Bicycle, RepositoryError>) {
        MemoryStore::read_modify_write(self, id, transform)
    }

    fn get_all(&self, page: i64, limit: i64) -> (r: Result<Vec<Bicycle>, RepositoryError>) {
        proof {
            use_type_invariant(self);
            if page >= 0 && limit >= 0 {
                lemma_page_in_order(self@, page as int, limit as int);
            }
        }
        MemoryStore::get_all(self, page, limit)
    }
}

} // verus!
