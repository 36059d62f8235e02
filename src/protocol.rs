use vstd::prelude::*;

use crate::model::{Bicycle, RepositoryError};
use crate::repository::{first_record, fresh, fresh_record, revise, revised, StoredRecord};

verus! {

/// Where a write transaction against a SQL store stands.
pub enum TxState {
    /// The insert statement ran; the generated id is awaited.
    AwaitingId,
    /// The inserted row, which the store gave the id `id`, is being read back.
    Rereading { id: i64 },
    /// The target row is being read under an exclusive lock, to be
    /// overwritten with the fields of `bike` at time `now`.
    Locking { bike: Bicycle, now: i64 },
    /// The row `id` is being read under lock, for a read-modify-write.
    Fetching { id: i64, now: i64 },
    /// The locked row, which carries the requested id, was handed to the
    /// caller's transform; its result is awaited.
    Transforming { locked: StoredRecord, now: i64 },
    /// The revised row is being written; `written` is what it holds.
    Writing { written: Bicycle },
    /// The commit is awaited; `result` is returned once it succeeds.
    Committing { result: Bicycle },
    /// The transaction is being rolled back; `error` is returned afterwards.
    RollingBack { error: RepositoryError },
    /// Nothing is pending.
    Finished,
}

/// What the store reported for the last action.
pub enum TxEvent {
    /// The insert ran; the store's generated id, if it gave one.
    Inserted(Option<u64>),
    /// The rows a read returned.
    Rows(Vec<StoredRecord>),
    /// The caller's transform returned this bicycle.
    Transformed(Bicycle),
    /// The update statement ran.
    Written,
    /// The commit succeeded.
    Committed,
    /// The rollback succeeded.
    RolledBack,
    /// The last action failed, or a returned row could not be read.
    Failed(RepositoryError),
}

/// What the driver of a transaction does next.
pub enum TxAction {
    /// Run the insert statement for this row (its id is ignored: the store assigns one).
    InsertRow(StoredRecord),
    /// Read the row with this id.
    ReadRow(i64),
    /// Read the row with this id under an exclusive lock.
    LockRow(i64),
    /// Hand this bicycle to the caller's transform.
    Transform(Bicycle),
    /// Write this row over the row with its id.
    WriteRow(StoredRecord),
    /// Commit the transaction.
    Commit,
    /// Roll the transaction back.
    Rollback,
    /// The transaction is over; return this.
    Finish(Result<Bicycle, RepositoryError>),
}

/// Whether a transaction in state `s` is still open on the store.
pub open spec fn is_open(s: TxState) -> bool {
    !(s is RollingBack) && !(s is Finished)
}

/// Whether `e` is the answer that a transaction in state `s` waits for.
pub open spec fn expected(s: TxState, e: TxEvent) -> bool {
    match s {
        TxState::AwaitingId => e is Inserted,
        TxState::Rereading { .. } => e is Rows,
        TxState::Locking { .. } => e is Rows,
        TxState::Fetching { .. } => e is Rows,
        TxState::Transforming { .. } => e is Transformed,
        TxState::Writing { .. } => e is Written,
        TxState::Committing { .. } => e is Committed,
        TxState::RollingBack { .. } => e is RolledBack,
        TxState::Finished => false,
    }
}

/// The error an unexpected event turns into.
fn out_of_order() -> (r: RepositoryError)
    ensures
        r is StorageError,
{
    RepositoryError::StorageError("the store answered out of order".to_owned())
}

/// Starts an insert of `bike` at time `now`.
pub fn begin_insert(bike: &Bicycle, now: i64) -> (r: (TxState, TxAction))
    ensures
        r.0 is AwaitingId,
        r.1 == TxAction::InsertRow(fresh_record(0, *bike, now)),
{
    (TxState::AwaitingId, TxAction::InsertRow(fresh(0, bike, now)))
}

/// Starts an update that writes the fields of `bike` over the row `bike.id` at time `now`.
pub fn begin_update(bike: Bicycle, now: i64) -> (r: (TxState, TxAction))
    ensures
        r.1 == TxAction::LockRow(bike.id),
        r.0 == (TxState::Locking { bike, now }),
{
    let id = bike.id;
    (TxState::Locking { bike, now }, TxAction::LockRow(id))
}

/// Starts a read-modify-write of the row `id` at time `now`.
pub fn begin_modify(id: i64, now: i64) -> (r: (TxState, TxAction))
    ensures
        r.1 == TxAction::LockRow(id),
        r.0 == (TxState::Fetching { id, now }),
{
    (TxState::Fetching { id, now }, TxAction::LockRow(id))
}

/// Decides the next action of a write transaction from its state and the
/// store's answer. Every failure in an open transaction leads to a rollback
/// before the error is returned; a row is written only after it was read
/// under lock, with that row's id and its version plus one.
pub fn step(state: TxState, event: TxEvent) -> (r: (TxState, TxAction))
    ensures
        // A failure while the transaction is open rolls it back.
        is_open(state) ==> (event matches TxEvent::Failed(e) ==> r.0 == (TxState::RollingBack {
            error: e,
        }) && r.1 is Rollback),
        // Once rolled back (or if the rollback fails) the saved error is returned.
        state matches TxState::RollingBack { error } ==> (r.0 is Finished && r.1
            == TxAction::Finish(Err(error))),
        state is Finished ==> (r.0 is Finished && (r.1 matches TxAction::Finish(Err(e))
            && e is StorageError)),
        // The generated id leads to reading the row back; a missing id rolls back.
        state is AwaitingId ==> (event matches TxEvent::Inserted(o) ==> match o {
            Some(id) => if id <= i64::MAX {
                r.0 == (TxState::Rereading { id: id as i64 }) && r.1 == TxAction::ReadRow(id as i64)
            } else {
                r.0 == (TxState::RollingBack { error: RepositoryError::IdDoesNotExist })
                    && r.1 is Rollback
            },
            None => r.0 == (TxState::RollingBack { error: RepositoryError::IdDoesNotExist })
                && r.1 is Rollback,
        }),
        state matches TxState::Rereading { id } ==> (event matches TxEvent::Rows(rows) ==> if rows@.len() > 0 && rows@[0].bike.id == id {
            r.0 == (TxState::Committing { result: rows@[0].bike }) && r.1 is Commit
        } else {
            r.0 == (TxState::RollingBack { error: RepositoryError::IdDoesNotExist })
                && r.1 is Rollback
        }),
        // Under lock: a missing row rolls back; otherwise the revised row is written.
        state matches TxState::Locking { bike, now } ==> (event matches TxEvent::Rows(rows) ==> if rows@.len() == 0 || rows@[0].bike.id != bike.id {
            r.0 == (TxState::RollingBack { error: RepositoryError::IdDoesNotExist })
                && r.1 is Rollback
        } else if rows@[0].version == i64::MAX {
            r.1 is Rollback && (r.0 matches TxState::RollingBack { error } && error is StorageError)
        } else {
            r.0 == (TxState::Writing { written: revised(rows@[0], bike, now).bike })
                && r.1 == TxAction::WriteRow(revised(rows@[0], bike, now))
        }),
        state matches TxState::Fetching { id, now } ==> (event matches TxEvent::Rows(rows) ==> if rows@.len() == 0 || rows@[0].bike.id != id {
            r.0 == (TxState::RollingBack { error: RepositoryError::IdDoesNotExist })
                && r.1 is Rollback
        } else {
            r.0 == (TxState::Transforming { locked: rows@[0], now })
                && r.1 == TxAction::Transform(rows@[0].bike)
        }),
        // The transform's result is written under the locked row's id.
        state matches TxState::Transforming { locked, now } ==> (event matches TxEvent::Transformed(out) ==> if locked.version == i64::MAX {
            r.1 is Rollback && (r.0 matches TxState::RollingBack { error } && error is StorageError)
        } else {
            r.0 == (TxState::Writing { written: revised(locked, out, now).bike })
                && r.1 == TxAction::WriteRow(revised(locked, out, now))
        }),
        state matches TxState::Writing { written } ==> (event is Written ==> r.0 == (
        TxState::Committing { result: written }) && r.1 is Commit),
        state matches TxState::Committing { result } ==> (event is Committed ==> r.0 is Finished
            && r.1 == TxAction::Finish(Ok(result))),
        // Any other answer while open is a protocol fault, and rolls back.
        is_open(state) && !(event is Failed) && !expected(state, event) ==> (r.1 is Rollback && (
        r.0 matches TxState::RollingBack { error } && error is StorageError)),
        // An error is returned only once the transaction was rolled back, and
        // success only after a commit.
        r.1 matches TxAction::Finish(Err(_)) ==> !is_open(state),
        r.1 matches TxAction::Finish(Ok(_)) ==> (state is Committing && event is Committed),
        // A write always targets the requested row as it was read under lock,
        // one version on, and is never stamped earlier than that row.
        r.1 matches TxAction::WriteRow(w) ==> ((state is Locking || state is Transforming)
            && (state matches TxState::Locking { bike, now } ==> (event matches TxEvent::Rows(rows)
            && rows@.len() > 0 && w.bike.id == rows@[0].bike.id && w.bike.id == bike.id
            && w.version == rows@[0].version + 1 && w.updated_at >= rows@[0].updated_at
            && w.updated_at >= now && w.created_at == rows@[0].created_at))
            && (state matches TxState::Transforming { locked, now } ==> w.bike.id == locked.bike.id
            && w.version == locked.version + 1 && w.updated_at >= locked.updated_at
            && w.updated_at >= now && w.created_at == locked.created_at)),
{
    match state {
        TxState::RollingBack { error } => (TxState::Finished, TxAction::Finish(Err(error))),
        TxState::Finished => (TxState::Finished, TxAction::Finish(Err(out_of_order()))),
        TxState::AwaitingId => match event {
            TxEvent::Inserted(Some(id)) => {
                if id <= i64::MAX as u64 {
                    (TxState::Rereading { id: id as i64 }, TxAction::ReadRow(id as i64))
                } else {
                    (TxState::RollingBack { error: RepositoryError::IdDoesNotExist }, TxAction::Rollback)
                }
            },
            TxEvent::Inserted(None) => (
                TxState::RollingBack { error: RepositoryError::IdDoesNotExist },
                TxAction::Rollback,
            ),
            TxEvent::Failed(e) => (TxState::RollingBack { error: e }, TxAction::Rollback),
            _ => (TxState::RollingBack { error: out_of_order() }, TxAction::Rollback),
        },
        TxState::Rereading { id } => match event {
            TxEvent::Rows(rows) => match first_record(rows, RepositoryError::IdDoesNotExist) {
                Ok(row) => if row.bike.id != id {
                    (TxState::RollingBack { error: RepositoryError::IdDoesNotExist }, TxAction::Rollback)
                } else {
                    (TxState::Committing { result: row.bike }, TxAction::Commit)
                },
                Err(e) => (TxState::RollingBack { error: e }, TxAction::Rollback),
            },
            TxEvent::Failed(e) => (TxState::RollingBack { error: e }, TxAction::Rollback),
            _ => (TxState::RollingBack { error: out_of_order() }, TxAction::Rollback),
        },
        TxState::Locking { bike, now } => match event {
            TxEvent::Rows(rows) => match first_record(rows, RepositoryError::IdDoesNotExist) {
                Ok(locked) => if locked.bike.id != bike.id {
                    (TxState::RollingBack { error: RepositoryError::IdDoesNotExist }, TxAction::Rollback)
                } else {
                    match revise(&locked, &bike, now) {
                    Ok(row) => {
                        let written = row.bike.fresh_copy();
                        (TxState::Writing { written }, TxAction::WriteRow(row))
                    },
                    Err(e) => (TxState::RollingBack { error: e }, TxAction::Rollback),
                    }
                },
                Err(e) => (TxState::RollingBack { error: e }, TxAction::Rollback),
            },
            TxEvent::Failed(e) => (TxState::RollingBack { error: e }, TxAction::Rollback),
            _ => (TxState::RollingBack { error: out_of_order() }, TxAction::Rollback),
        },
        TxState::Fetching { id, now } => match event {
            TxEvent::Rows(rows) => match first_record(rows, RepositoryError::IdDoesNotExist) {
                Ok(locked) => if locked.bike.id != id {
                    (TxState::RollingBack { error: RepositoryError::IdDoesNotExist }, TxAction::Rollback)
                } else {
                    let prev = locked.bike.fresh_copy();
                    (TxState::Transforming { locked, now }, TxAction::Transform(prev))
                },
                Err(e) => (TxState::RollingBack { error: e }, TxAction::Rollback),
            },
            TxEvent::Failed(e) => (TxState::RollingBack { error: e }, TxAction::Rollback),
            _ => (TxState::RollingBack { error: out_of_order() }, TxAction::Rollback),
        },
        TxState::Transforming { locked, now } => match event {
            TxEvent::Transformed(out) => match revise(&locked, &out, now) {
                Ok(row) => {
                    let written = row.bike.fresh_copy();
                    (TxState::Writing { written }, TxAction::WriteRow(row))
                },
                Err(e) => (TxState::RollingBack { error: e }, TxAction::Rollback),
            },
            TxEvent::Failed(e) => (TxState::RollingBack { error: e }, TxAction::Rollback),
            _ => (TxState::RollingBack { error: out_of_order() }, TxAction::Rollback),
        },
        TxState::Writing { written } => match event {
            TxEvent::Written => (TxState::Committing { result: written }, TxAction::Commit),
            TxEvent::Failed(e) => (TxState::RollingBack { error: e }, TxAction::Rollback),
            _ => (TxState::RollingBack { error: out_of_order() }, TxAction::Rollback),
        },
        TxState::Committing { result } => match event {
            TxEvent::Committed => (TxState::Finished, TxAction::Finish(Ok(result))),
            TxEvent::Failed(e) => (TxState::RollingBack { error: e }, TxAction::Rollback),
            _ => (TxState::RollingBack { error: out_of_order() }, TxAction::Rollback),
        },
    }
}

} // verus!
