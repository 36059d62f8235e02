use vstd::prelude::*;

use crate::model::{Bicycle, RepositoryError};
use crate::repository::{
    contains_id, index_of, insert_outcome, lemma_index_unique, lookup, page_of, record_wf,
    revised, update_outcome, updated, with_id, StoreModel, StoredRecord,
};

verus! {

/// A page holds at most `limit` bicycles, in strictly ascending id order, and
/// its `k`-th bicycle is the row at position `page * limit + k`.
pub proof fn lemma_page_in_order(m: StoreModel, page: int, limit: int)
    requires
        m.wf(),
        page >= 0,
        limit >= 0,
    ensures
        page_of(m.rows, page, limit).len() <= limit,
        limit == 0 ==> page_of(m.rows, page, limit).len() == 0,
        forall|k: int|
            0 <= k < page_of(m.rows, page, limit).len() ==> #[trigger] page_of(m.rows, page, limit)[k]
                == m.rows[page * limit + k].bike,
        forall|i: int, j: int|
            0 <= i < j < page_of(m.rows, page, limit).len() ==> #[trigger] page_of(
                m.rows,
                page,
                limit,
            )[i].id < #[trigger] page_of(m.rows, page, limit)[j].id,
{
    let p = page_of(m.rows, page, limit);
    assert(0 <= page * limit) by (nonlinear_arith)
        requires
            page >= 0,
            limit >= 0,
    ;
    assert forall|i: int, j: int| 0 <= i < j < p.len() implies #[trigger] p[i].id < #[trigger] p[j].id by {
        let start = page * limit;
        assert(m.rows[start + i].bike.id < m.rows[start + j].bike.id);
    }
}

/// A successful insert adds one row, at the end, at version 0, created and
/// updated at the same instant, and returns that row's bicycle.
pub proof fn lemma_insert_starts_at_version_zero(
    m: StoreModel,
    bike: Bicycle,
    new: StoreModel,
    r: Result<Bicycle, RepositoryError>,
)
    requires
        m.wf(),
        insert_outcome(m, bike, new, r),
        r is Ok,
    ensures
        new.rows.len() == m.rows.len() + 1,
        new.rows.last().version == 0,
        new.rows.last().created_at == new.rows.last().updated_at,
        r == Ok::<Bicycle, RepositoryError>(new.rows.last().bike),
{
}

/// An update that finds its row and a version below the maximum leaves a
/// well-formed store in which only that row changed, its id kept.
pub proof fn lemma_updated_wf(m: StoreModel, bike: Bicycle)
    requires
        m.wf(),
        contains_id(m.rows, bike.id),
        m.rows[index_of(m.rows, bike.id)].version < i64::MAX,
    ensures
        updated(m, bike).wf(),
        updated(m, bike).rows.len() == m.rows.len(),
        forall|i: int|
            0 <= i < m.rows.len() ==> #[trigger] updated(m, bike).rows[i].bike.id == m.rows[i].bike.id,
{
    let k = index_of(m.rows, bike.id);
    let n = updated(m, bike);
    assert(record_wf(m.rows[k], m.next_id, m.clock));
    assert forall|i: int| 0 <= i < n.rows.len() implies record_wf(#[trigger] n.rows[i], n.next_id, n.clock) by {
        assert(record_wf(m.rows[i], m.next_id, m.clock));
    }
    assert forall|i: int, j: int| 0 <= i < j < n.rows.len() implies #[trigger] n.rows[i].bike.id
        < #[trigger] n.rows[j].bike.id by {
        assert(m.rows[i].bike.id < m.rows[j].bike.id);
    }
}

/// After a successful update the row's version is one more than before, its
/// update time is not earlier than before, its creation time is kept, and it
/// carries the id, model and color of the request.
pub proof fn lemma_update_bumps_version(
    m: StoreModel,
    bike: Bicycle,
    new: StoreModel,
    r: Result<Bicycle, RepositoryError>,
)
    requires
        m.wf(),
        update_outcome(m, bike, new, r),
        r is Ok,
    ensures
        contains_id(new.rows, bike.id),
        index_of(new.rows, bike.id) == index_of(m.rows, bike.id),
        new.rows[index_of(m.rows, bike.id)].version == m.rows[index_of(m.rows, bike.id)].version + 1,
        new.rows[index_of(m.rows, bike.id)].updated_at >= m.rows[index_of(m.rows, bike.id)].updated_at,
        new.rows[index_of(m.rows, bike.id)].created_at == m.rows[index_of(m.rows, bike.id)].created_at,
        new.rows[index_of(m.rows, bike.id)].bike == bike,
{
    let k = index_of(m.rows, bike.id);
    assert(record_wf(m.rows[k], m.next_id, m.clock));
    lemma_updated_wf(m, bike);
    lemma_index_unique(new, k);
}

/// An update of an id that no row has fails with `IdDoesNotExist` and
/// changes nothing that a read can see.
pub proof fn lemma_update_of_missing_id_changes_nothing(
    m: StoreModel,
    bike: Bicycle,
    new: StoreModel,
    r: Result<Bicycle, RepositoryError>,
)
    requires
        update_outcome(m, bike, new, r),
        !contains_id(m.rows, bike.id),
    ensures
        r == Err::<Bicycle, RepositoryError>(RepositoryError::IdDoesNotExist),
        new == m,
        forall|id: i64| lookup(new.rows, id) == lookup(m.rows, id),
        forall|page: int, limit: int| page_of(new.rows, page, limit) == page_of(m.rows, page, limit),
{
}

/// Two updates of one row, one after the other, from version `v` with
/// `v + 2` not past the maximum: both succeed, the second is applied to the
/// row the first wrote (not to the row as it was before), and the final
/// version is `v + 2`.
pub proof fn lemma_updates_do_not_lose_writes(
    m: StoreModel,
    first: Bicycle,
    second: Bicycle,
    mid: StoreModel,
    r1: Result<Bicycle, RepositoryError>,
    last: StoreModel,
    r2: Result<Bicycle, RepositoryError>,
)
    requires
        m.wf(),
        first.id == second.id,
        contains_id(m.rows, first.id),
        m.rows[index_of(m.rows, first.id)].version + 2 <= i64::MAX,
        update_outcome(m, first, mid, r1),
        update_outcome(mid, second, last, r2),
    ensures
        r1 is Ok,
        r2 is Ok,
        index_of(mid.rows, second.id) == index_of(m.rows, first.id),
        mid.rows[index_of(m.rows, first.id)] == revised(
            m.rows[index_of(m.rows, first.id)],
            first,
            m.clock,
        ),
        last.rows[index_of(m.rows, first.id)] == revised(
            mid.rows[index_of(m.rows, first.id)],
            second,
            mid.clock,
        ),
        last.rows[index_of(m.rows, first.id)].version == m.rows[index_of(m.rows, first.id)].version + 2,
        last.rows[index_of(m.rows, first.id)].bike == with_id(second, first.id),
{
    let k = index_of(m.rows, first.id);
    lemma_updated_wf(m, first);
    lemma_index_unique(mid, k);
    lemma_updated_wf(mid, second);
}

/// Whatever time the writer read, a revised row is never stamped earlier
/// than the row it overwrites, and a row created no later than it was last
/// updated stays so.
pub proof fn lemma_revision_keeps_time_order(locked: StoredRecord, bike: Bicycle, now: i64)
    requires
        locked.created_at <= locked.updated_at,
    ensures
        revised(locked, bike, now).updated_at >= locked.updated_at,
        revised(locked, bike, now).updated_at >= now,
        revised(locked, bike, now).created_at == locked.created_at,
        revised(locked, bike, now).created_at <= revised(locked, bike, now).updated_at,
{
}

} // verus!
