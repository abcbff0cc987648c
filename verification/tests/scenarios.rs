use account_store::account::{Account, Location};
use account_store::db::Db;
use account_store::error::StorageError;

/// Opens a handle on a durable location after clearing any accounts table a
/// previous run may have left there, so every test starts from a blank
/// store with fresh identifiers.
fn fresh_durable_db(path: &str) -> Db {
    let conn = rusqlite::Connection::open(path).unwrap();
    conn.execute_batch("DROP TABLE IF EXISTS accounts").unwrap();
    Db::new(Location::Persistent(path.to_string()))
}

#[test]
fn init_is_idempotent() {
    let db = fresh_durable_db("/tmp/account_store_init_twice.sqlite");
    db.init().unwrap();
    db.init().unwrap();
    // The table still has its expected shape: inserts and reads work.
    let mut tx = db.transaction().unwrap();
    assert_eq!(tx.add_account(&Account::new("after second init")).unwrap(), 1);
    assert_eq!(tx.get_accounts().unwrap().len(), 1);
    tx.commit().unwrap();
    db.init().unwrap();
    let tx2 = db.transaction().unwrap();
    assert_eq!(tx2.get_accounts().unwrap().len(), 1);
}

#[test]
fn scenario_durable_commit() {
    let db = fresh_durable_db("/tmp/account_store_scenario_commit.sqlite");
    db.init().unwrap();
    let mut tx = db.transaction().unwrap();
    assert_eq!(tx.add_account(&Account::new("Account A1")).unwrap(), 1);
    assert_eq!(tx.add_account(&Account::new("Account A2")).unwrap(), 2);
    assert_eq!(tx.add_account(&Account::new("Account A3")).unwrap(), 3);
    let accounts = tx.get_accounts().unwrap();
    assert_eq!(accounts.len(), 3);
    for (i, a) in accounts.iter().enumerate() {
        assert_eq!(a.id(), (i + 1) as i64);
        assert_eq!(a.name().as_str(), format!("Account A{}", i + 1));
    }
    tx.commit().unwrap();

    // Reopening and reading yields the same three rows.
    let tx2 = db.transaction().unwrap();
    let again = tx2.get_accounts().unwrap();
    assert_eq!(again.len(), 3);
    for (i, a) in again.iter().enumerate() {
        assert_eq!(a.id(), (i + 1) as i64);
        assert_eq!(a.name().as_str(), format!("Account A{}", i + 1));
    }
}

#[test]
fn scenario_drop_without_commit_rolls_back() {
    let db = fresh_durable_db("/tmp/account_store_scenario_drop.sqlite");
    db.init().unwrap();
    {
        let mut tx = db.transaction().unwrap();
        assert_eq!(tx.add_account(&Account::new("Account A1")).unwrap(), 1);
        assert_eq!(tx.add_account(&Account::new("Account A2")).unwrap(), 2);
        // The guard leaves scope without a commit: automatic rollback.
    }
    let tx2 = db.transaction().unwrap();
    assert_eq!(tx2.get_accounts().unwrap().len(), 0);
}

#[test]
fn explicit_rollback_isolates_writes() {
    let db = fresh_durable_db("/tmp/account_store_rollback.sqlite");
    db.init().unwrap();
    let mut tx = db.transaction().unwrap();
    assert_eq!(tx.add_account(&Account::new("discarded 1")).unwrap(), 1);
    assert_eq!(tx.add_account(&Account::new("discarded 2")).unwrap(), 2);
    tx.rollback().unwrap();
    let tx2 = db.transaction().unwrap();
    assert_eq!(tx2.get_accounts().unwrap().len(), 0);
}

#[test]
fn commit_visibility_accumulates_with_increasing_ids() {
    let db = fresh_durable_db("/tmp/account_store_visibility.sqlite");
    db.init().unwrap();

    let mut tx1 = db.transaction().unwrap();
    tx1.add_account(&Account::new("first batch 1")).unwrap();
    tx1.add_account(&Account::new("first batch 2")).unwrap();
    tx1.commit().unwrap();

    let mut tx2 = db.transaction().unwrap();
    tx2.add_account(&Account::new("second batch 1")).unwrap();
    tx2.commit().unwrap();

    let tx3 = db.transaction().unwrap();
    let accounts = tx3.get_accounts().unwrap();
    assert_eq!(accounts.len(), 3);
    let names: Vec<&str> = accounts.iter().map(|a| a.name().as_str()).collect();
    assert_eq!(
        names,
        vec!["first batch 1", "first batch 2", "second batch 1"]
    );
    for pair in accounts.windows(2) {
        assert!(pair[0].id() < pair[1].id());
    }
    assert!(accounts.iter().all(|a| a.id() >= 1));
}

#[test]
fn read_your_writes_before_any_commit() {
    let db = fresh_durable_db("/tmp/account_store_ryw.sqlite");
    db.init().unwrap();
    let mut tx = db.transaction().unwrap();
    for i in 0..5 {
        let name = format!("pending {}", i);
        tx.add_account(&Account::new(&name)).unwrap();
    }
    // All five uncommitted writes are already visible within the guard.
    let pending = tx.get_accounts().unwrap();
    assert_eq!(pending.len(), 5);
    for (i, a) in pending.iter().enumerate() {
        assert_eq!(a.name().as_str(), format!("pending {}", i));
    }
    tx.rollback().unwrap();
    // ... and gone after the rollback.
    let tx2 = db.transaction().unwrap();
    assert_eq!(tx2.get_accounts().unwrap().len(), 0);
}

#[test]
fn committed_guard_never_rolls_back_on_release() {
    let db = fresh_durable_db("/tmp/account_store_commit_release.sqlite");
    db.init().unwrap();
    {
        let mut tx = db.transaction().unwrap();
        tx.add_account(&Account::new("kept")).unwrap();
        tx.commit().unwrap();
        // The committed guard was released here; its release must not undo
        // the committed write.
    }
    let tx2 = db.transaction().unwrap();
    let accounts = tx2.get_accounts().unwrap();
    assert_eq!(accounts.len(), 1);
    assert_eq!(accounts[0].name().as_str(), "kept");
}

#[test]
fn scenario_ephemeral_connections_share_nothing() {
    // Each operation opens its own connection, so an ephemeral store's
    // schema and writes die with the connection that made them: this is the
    // documented limitation of the fresh-connection-per-transaction design.
    let db = Db::new(Location::Memory);
    db.init().unwrap();
    let mut tx1 = db.transaction().unwrap();
    let r = tx1.add_account(&Account::new("nowhere to go"));
    assert!(matches!(r, Err(StorageError::ConstraintError(_))));
    let tx2 = db.transaction().unwrap();
    assert!(matches!(
        tx2.get_accounts(),
        Err(StorageError::QueryError(_))
    ));
}

#[test]
fn unreachable_location_is_a_connection_error() {
    let db = Db::new(Location::Persistent(
        "/nonexistent-dir-for-account-store/db.sqlite".to_string(),
    ));
    let err = db.init().unwrap_err();
    assert!(matches!(err, StorageError::ConnectionError(_)));
    assert!(!err.message().is_empty());
    assert!(matches!(
        db.transaction(),
        Err(StorageError::ConnectionError(_))
    ));
}

#[test]
fn rejected_commit_is_a_transaction_error() {
    let db = fresh_durable_db("/tmp/account_store_busy_commit.sqlite");
    db.init().unwrap();
    let mut writer = db.transaction().unwrap();
    writer.add_account(&Account::new("contested")).unwrap();
    // A concurrent reader holds a shared lock for the life of its session,
    // so the writer's commit is rejected by the backend.
    let reader = db.transaction().unwrap();
    assert_eq!(reader.get_accounts().unwrap().len(), 0);
    assert!(matches!(
        writer.commit(),
        Err(StorageError::TransactionError(_))
    ));
    drop(reader);
    // The failed commit consumed the guard and its release rolled back.
    let tx = db.transaction().unwrap();
    assert_eq!(tx.get_accounts().unwrap().len(), 0);
}
