use bike_inventory::model::{Bicycle, Color, RepositoryError};
use bike_inventory::protocol::{begin_insert, begin_modify, begin_update, step, TxAction, TxEvent, TxState};
use bike_inventory::repository::{fresh, StoredRecord};

fn bike(id: i64, model: &str, color: Color) -> Bicycle {
    Bicycle { id, model: model.to_string(), color }
}

fn row(id: i64, model: &str, version: i64) -> StoredRecord {
    StoredRecord { bike: bike(id, model, Color::Red), created_at: 5, updated_at: 6, version }
}

#[test]
fn insert_runs_insert_reread_commit() {
    let (s, a) = begin_insert(&bike(33, "Roadster", Color::Blue), 100);
    match a {
        TxAction::InsertRow(r) => {
            assert_eq!(r.version, 0);
            assert_eq!(r.created_at, 100);
            assert_eq!(r.updated_at, 100);
            assert_eq!(r.bike.model, "Roadster");
        }
        _ => panic!("expected an insert"),
    }
    let (s, a) = step(s, TxEvent::Inserted(Some(8)));
    assert!(matches!(a, TxAction::ReadRow(8)));
    let (s, a) = step(s, TxEvent::Rows(vec![fresh(8, &bike(0, "Roadster", Color::Blue), 100)]));
    assert!(matches!(a, TxAction::Commit));
    let (s, a) = step(s, TxEvent::Committed);
    assert!(matches!(s, TxState::Finished));
    match a {
        TxAction::Finish(Ok(b)) => {
            assert_eq!(b.id, 8);
            assert_eq!(b.color, Color::Blue);
        }
        _ => panic!("expected success"),
    }
}

#[test]
fn insert_without_generated_id_rolls_back() {
    let (s, _) = begin_insert(&bike(0, "Roadster", Color::Blue), 1);
    let (s, a) = step(s, TxEvent::Inserted(None));
    assert!(matches!(a, TxAction::Rollback));
    let (_, a) = step(s, TxEvent::RolledBack);
    assert!(matches!(a, TxAction::Finish(Err(RepositoryError::IdDoesNotExist))));
}

#[test]
fn update_locks_then_writes_next_version() {
    let (s, a) = begin_update(bike(4, "Roadster X", Color::Gray), 200);
    assert!(matches!(a, TxAction::LockRow(4)));
    let (s, a) = step(s, TxEvent::Rows(vec![row(4, "Roadster", 3)]));
    match a {
        TxAction::WriteRow(w) => {
            assert_eq!(w.bike.id, 4);
            assert_eq!(w.version, 4);
            assert_eq!(w.updated_at, 200);
            assert_eq!(w.created_at, 5);
            assert_eq!(w.bike.model, "Roadster X");
        }
        _ => panic!("expected a write"),
    }
    let (s, a) = step(s, TxEvent::Written);
    assert!(matches!(a, TxAction::Commit));
    let (_, a) = step(s, TxEvent::Committed);
    match a {
        TxAction::Finish(Ok(b)) => {
            assert_eq!(b.model, "Roadster X");
            assert_eq!(b.color, Color::Gray);
        }
        _ => panic!("expected success"),
    }
}

#[test]
fn update_of_missing_row_rolls_back() {
    let (s, _) = begin_update(bike(999999, "X", Color::Gray), 1);
    let (s, a) = step(s, TxEvent::Rows(Vec::new()));
    assert!(matches!(a, TxAction::Rollback));
    let (s, a) = step(s, TxEvent::RolledBack);
    assert!(matches!(a, TxAction::Finish(Err(RepositoryError::IdDoesNotExist))));
    let (_, a) = step(s, TxEvent::Committed);
    assert!(matches!(a, TxAction::Finish(Err(RepositoryError::StorageError(_)))));
}

#[test]
fn statement_failure_rolls_back_with_its_error() {
    let (s, _) = begin_update(bike(4, "X", Color::Gray), 1);
    let (s, _) = step(s, TxEvent::Rows(vec![row(4, "Y", 0)]));
    let (s, a) = step(s, TxEvent::Failed(RepositoryError::StorageError("deadlock".to_string())));
    assert!(matches!(a, TxAction::Rollback));
    let (_, a) = step(s, TxEvent::Failed(RepositoryError::StorageError("gone".to_string())));
    match a {
        TxAction::Finish(Err(RepositoryError::StorageError(m))) => assert_eq!(m, "deadlock"),
        _ => panic!("expected the statement's error"),
    }
}

#[test]
fn out_of_order_answer_rolls_back() {
    let (s, _) = begin_update(bike(4, "X", Color::Gray), 1);
    let (s, a) = step(s, TxEvent::Committed);
    assert!(matches!(a, TxAction::Rollback));
    assert!(matches!(s, TxState::RollingBack { error: RepositoryError::StorageError(_) }));
}

#[test]
fn modify_hands_the_locked_row_to_the_transform() {
    let (s, a) = begin_modify(4, 50);
    assert!(matches!(a, TxAction::LockRow(4)));
    let (s, a) = step(s, TxEvent::Rows(vec![row(4, "Old", 1)]));
    match a {
        TxAction::Transform(prev) => assert_eq!(prev.model, "Old"),
        _ => panic!("expected the transform"),
    }
    let (_, a) = step(s, TxEvent::Transformed(bike(17, "New", Color::White)));
    match a {
        TxAction::WriteRow(w) => {
            assert_eq!(w.bike.id, 4);
            assert_eq!(w.version, 2);
            assert_eq!(w.bike.model, "New");
        }
        _ => panic!("expected a write"),
    }
}

#[test]
fn exhausted_version_rolls_back_as_storage_error() {
    let (s, _) = begin_update(bike(4, "X", Color::Gray), 1);
    let (s, a) = step(s, TxEvent::Rows(vec![row(4, "Y", i64::MAX)]));
    assert!(matches!(a, TxAction::Rollback));
    assert!(matches!(s, TxState::RollingBack { error: RepositoryError::StorageError(_) }));
}

#[test]
fn update_never_stamps_earlier_than_the_locked_row() {
    let locked = StoredRecord { bike: bike(4, "Old", Color::Red), created_at: 10, updated_at: 101, version: 2 };
    let (s, _) = begin_update(bike(4, "New", Color::Blue), 100);
    let (_, a) = step(s, TxEvent::Rows(vec![locked]));
    match a {
        TxAction::WriteRow(w) => {
            assert_eq!(w.updated_at, 101);
            assert_eq!(w.created_at, 10);
            assert_eq!(w.version, 3);
        }
        _ => panic!("expected a write"),
    }
}

#[test]
fn locked_row_with_another_id_rolls_back() {
    let (s, _) = begin_update(bike(4, "New", Color::Blue), 100);
    let (s, a) = step(s, TxEvent::Rows(vec![row(5, "Other", 0)]));
    assert!(matches!(a, TxAction::Rollback));
    assert!(matches!(s, TxState::RollingBack { error: RepositoryError::IdDoesNotExist }));
    let (s, _) = begin_modify(4, 100);
    let (s, a) = step(s, TxEvent::Rows(vec![row(5, "Other", 0)]));
    assert!(matches!(a, TxAction::Rollback));
    assert!(matches!(s, TxState::RollingBack { error: RepositoryError::IdDoesNotExist }));
}

#[test]
fn reread_of_another_id_rolls_back() {
    let (s, _) = begin_insert(&bike(0, "Roadster", Color::Blue), 1);
    let (s, a) = step(s, TxEvent::Inserted(Some(8)));
    assert!(matches!(a, TxAction::ReadRow(8)));
    assert!(matches!(s, TxState::Rereading { id: 8 }));
    let (s, a) = step(s, TxEvent::Rows(vec![row(9, "Other", 0)]));
    assert!(matches!(a, TxAction::Rollback));
    let (_, a) = step(s, TxEvent::RolledBack);
    assert!(matches!(a, TxAction::Finish(Err(RepositoryError::IdDoesNotExist))));
}

#[test]
fn unexpected_written_while_locking_rolls_back() {
    let (s, _) = begin_update(bike(4, "X", Color::Gray), 1);
    let (s, a) = step(s, TxEvent::Written);
    assert!(matches!(a, TxAction::Rollback));
    assert!(matches!(s, TxState::RollingBack { error: RepositoryError::StorageError(_) }));
}
