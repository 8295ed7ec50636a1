use libsql_shim::db::{authorizer, busy_timeout_ms, is_remote_path, Authorization, Database, Options};
use libsql_shim::errors::ShimError;
use libsql_shim::rowiter::IterStep;
use libsql_shim::rows::Column;
use libsql_shim::stmt::Statement;
use libsql_shim::txn::{begin_sql, TransactionWrapper, TxAction, TxEvent, TxPhase};
use libsql_shim::value::{CallerValue, Value};

fn col(name: &str) -> Column {
    Column {
        name: name.to_string(),
        origin_name: None,
        table_name: None,
        database_name: None,
        decl_type: None,
    }
}

#[test]
fn iterator_yields_each_row_then_done_forever() {
    let stmt = Statement::new(vec![col("a")], vec![], true);
    let mut it = stmt.iterate();
    assert!(it.should_fetch());
    let s1 = it.next(Some(vec![Value::Integer(1)]));
    assert_eq!(
        s1,
        IterStep::Yielded(CallerValue::Obj(vec![
            ("a".to_string(), CallerValue::BigInt { value: 1, lossless: true }),
        ]))
    );
    assert!(it.should_fetch());
    let s2 = it.next(Some(vec![Value::Integer(2)]));
    assert_eq!(
        s2,
        IterStep::Yielded(CallerValue::Obj(vec![
            ("a".to_string(), CallerValue::BigInt { value: 2, lossless: true }),
        ]))
    );
    // The cursor ends: the first empty pull is terminal.
    assert!(it.should_fetch());
    assert_eq!(it.next(None), IterStep::Done);
    // Exhausted is absorbing: no more pulls, done forever.
    assert!(!it.should_fetch());
    assert_eq!(it.next(None), IterStep::Done);
    assert_eq!(it.next(None), IterStep::Done);
    assert!(!it.should_fetch());
}

#[test]
fn iterator_captures_raw_flag() {
    let mut stmt = Statement::new(vec![col("a")], vec![], true);
    stmt.raw(Some(true)).unwrap();
    let mut it = stmt.iterate();
    let s = it.next(Some(vec![Value::Integer(3)]));
    assert_eq!(
        s,
        IterStep::Yielded(CallerValue::List(vec![CallerValue::BigInt {
            value: 3,
            lossless: true
        }]))
    );
}

#[test]
fn transaction_commit_path() {
    let mut m = TransactionWrapper::wrap();
    assert_eq!(m.phase, TxPhase::Ready);
    assert_eq!(m.step(TxEvent::BeginOk), TxAction::RunCallback);
    assert_eq!(m.step(TxEvent::CallbackReturned), TxAction::ExecCommit);
    assert_eq!(m.step(TxEvent::CommitOk), TxAction::ReturnResult);
    assert_eq!(m.phase, TxPhase::Done);
}

#[test]
fn transaction_rollback_swallows_rollback_failure() {
    for rollback_outcome in [TxEvent::RollbackOk, TxEvent::RollbackFailed] {
        let mut m = TransactionWrapper::wrap();
        assert_eq!(m.step(TxEvent::BeginOk), TxAction::RunCallback);
        assert_eq!(m.step(TxEvent::CallbackRaised), TxAction::ExecRollback);
        // The callback's original failure is re-raised either way.
        assert_eq!(m.step(rollback_outcome), TxAction::RaiseCallbackError);
        assert_eq!(m.phase, TxPhase::Done);
    }
}

#[test]
fn transaction_begin_failure_skips_callback() {
    let mut m = TransactionWrapper::wrap();
    assert_eq!(m.step(TxEvent::BeginFailed), TxAction::RaiseBeginError);
    assert_eq!(m.phase, TxPhase::Done);
}

#[test]
fn begin_sql_modes() {
    assert_eq!(begin_sql(""), "BEGIN");
    assert_eq!(begin_sql("IMMEDIATE"), "BEGIN IMMEDIATE");
    assert_eq!(begin_sql("EXCLUSIVE"), "BEGIN EXCLUSIVE");
}

#[test]
fn database_lifecycle_one_way_and_idempotent() {
    let mut db = Database::new("test.db".to_string());
    assert!(db.open);
    assert!(db.check_open().is_ok());
    db.close();
    assert!(!db.open);
    assert!(matches!(db.check_open(), Err(ShimError::Closed)));
    // Closing again is a no-op success.
    db.close();
    assert!(!db.open);
}

#[test]
fn closed_database_gates_exec_and_prepare() {
    let mut db = Database::new(":memory:".to_string());
    db.close();
    assert!(matches!(db.exec("SELECT 1"), Err(ShimError::Closed)));
    assert!(matches!(db.prepare(vec![], vec![]), Err(ShimError::Closed)));
    assert!(matches!(db.transaction(), Err(ShimError::Closed)));
    assert!(!db.in_transaction(None));
}

#[test]
fn memory_flag_follows_reserved_path() {
    let db = Database::new(":memory:".to_string());
    assert!(db.memory());
    let db = Database::new("file.db".to_string());
    assert!(!db.memory());
}

#[test]
fn prepared_statement_inherits_default_policy() {
    let mut db = Database::new(":memory:".to_string());
    let s = db.prepare(vec![col("a")], vec![":a".to_string()]).unwrap();
    assert!(!s.safe_ints && !s.raw && !s.pluck);
    db.defaultSafeIntegers(None);
    let s = db.prepare(vec![col("a")], vec![]).unwrap();
    assert!(s.safe_ints);
    db.defaultSafeIntegers(Some(false));
    let s = db.prepare(vec![], vec![]).unwrap();
    assert!(!s.safe_ints);
}

#[test]
fn remote_paths_are_recognized() {
    assert!(is_remote_path("libsql://db.example"));
    assert!(is_remote_path("http://db.example"));
    assert!(is_remote_path("https://db.example"));
    assert!(!is_remote_path("local.db"));
    assert!(!is_remote_path(":memory:"));
    assert!(!is_remote_path("httpx://db.example"));
}

#[test]
fn in_transaction_reads_autocommit() {
    let db = Database::new(":memory:".to_string());
    assert!(!db.in_transaction(Some(true)));
    assert!(db.in_transaction(Some(false)));
}

#[test]
fn busy_timeout_only_when_positive() {
    assert_eq!(busy_timeout_ms(&None), None);
    assert_eq!(busy_timeout_ms(&Some(Options { timeout: None })), None);
    assert_eq!(busy_timeout_ms(&Some(Options { timeout: Some(0) })), None);
    assert_eq!(busy_timeout_ms(&Some(Options { timeout: Some(250) })), Some(250));
}

#[test]
fn authorizer_answers() {
    assert_eq!(authorizer(Some("allow")), Authorization::Allow);
    assert_eq!(authorizer(Some("deny")), Authorization::Deny);
    assert_eq!(authorizer(Some("ignore")), Authorization::Ignore);
    assert_eq!(authorizer(Some("whatever")), Authorization::Deny);
    assert_eq!(authorizer(None), Authorization::Deny);
}
