//! End-to-end scenarios against a real in-memory engine: a thin driver
//! mirrors the embedding layer, while every decision — liveness gates,
//! binding, materialization, run summaries, iteration, transaction
//! bracketing — goes through the library.
use libsql_shim::db::Database as ShimDb;
use libsql_shim::params::Params;
use libsql_shim::rowiter::IterStep;
use libsql_shim::rows::Column;
use libsql_shim::stmt::{RunResult, Statement as ShimStatement};
use libsql_shim::txn::{begin_sql, TransactionWrapper, TxAction, TxEvent};
use libsql_shim::value::{CallerValue, Value};
use tokio::runtime::Runtime;

fn to_engine_value(v: Value) -> libsql::Value {
    match v {
        Value::Null => libsql::Value::Null,
        Value::Integer(i) => libsql::Value::Integer(i),
        Value::Real(bits) => libsql::Value::Real(f64::from_bits(bits)),
        Value::Text(s) => libsql::Value::Text(s),
        Value::Blob(b) => libsql::Value::Blob(b),
    }
}

fn from_engine_value(v: libsql::Value) -> Value {
    match v {
        libsql::Value::Null => Value::Null,
        libsql::Value::Integer(i) => Value::Integer(i),
        libsql::Value::Real(f) => Value::Real(f.to_bits()),
        libsql::Value::Text(s) => Value::Text(s),
        libsql::Value::Blob(b) => Value::Blob(b),
    }
}

fn to_engine_params(p: Params) -> libsql::params::Params {
    match p {
        Params::Empty => libsql::params::Params::None,
        Params::Positional(vs) => libsql::params::Params::Positional(
            vs.into_iter().map(to_engine_value).collect(),
        ),
        Params::Named(vs) => libsql::params::Params::Named(
            vs.into_iter().map(|(n, v)| (n, to_engine_value(v))).collect(),
        ),
    }
}

fn shim_columns(stmt: &libsql::Statement) -> Vec<Column> {
    stmt.columns()
        .iter()
        .map(|c| Column {
            name: c.name().to_string(),
            origin_name: c.origin_name().map(|s| s.to_string()),
            table_name: c.table_name().map(|s| s.to_string()),
            database_name: c.database_name().map(|s| s.to_string()),
            decl_type: c.decl_type().map(|s| s.to_string()),
        })
        .collect()
}

fn shim_parameter_names(stmt: &libsql::Statement) -> Vec<String> {
    (1..=stmt.parameter_count())
        .filter_map(|i| stmt.parameter_name(i as i32).map(|s| s.to_string()))
        .collect()
}

struct Driver {
    rt: Runtime,
    // Keeps the engine database alive for the connection's lifetime.
    _db: libsql::Database,
    conn: libsql::Connection,
    shim: ShimDb,
}

struct PreparedPair {
    stmt: libsql::Statement,
    shim: ShimStatement,
}

impl Driver {
    fn open_memory() -> Driver {
        let rt = Runtime::new().unwrap();
        let db = rt
            .block_on(libsql::Builder::new_local(":memory:").build())
            .unwrap();
        let conn = db.connect().unwrap();
        let shim = ShimDb::new(":memory:".to_string());
        Driver { rt, _db: db, conn, shim }
    }

    fn exec(&self, sql: &str) -> Result<(), String> {
        let gated = self.shim.exec(sql).map_err(|e| e.message())?;
        self.rt
            .block_on(self.conn.execute_batch(gated))
            .map(|_| ())
            .map_err(|e| e.to_string())
    }

    fn prepare(&self, sql: &str) -> PreparedPair {
        self.shim.check_open().map_err(|e| e.message()).unwrap();
        let stmt = self.rt.block_on(self.conn.prepare(sql)).unwrap();
        let shim = self
            .shim
            .prepare(shim_columns(&stmt), shim_parameter_names(&stmt))
            .unwrap();
        PreparedPair { stmt, shim }
    }

    fn query(&self, pair: &mut PreparedPair, arg: Option<CallerValue>) -> libsql::Rows {
        pair.stmt.reset();
        let params = pair.shim.bind(arg).unwrap();
        self.rt
            .block_on(pair.stmt.query(to_engine_params(params)))
            .unwrap()
    }

    fn run(&self, pair: &mut PreparedPair, arg: Option<CallerValue>) -> RunResult {
        let before = self.conn.total_changes();
        let start = std::time::Instant::now();
        let _rows = self.query(pair, arg);
        let after = self.conn.total_changes();
        let changes = self.conn.changes();
        let rowid = self.conn.last_insert_rowid();
        let duration_bits = start.elapsed().as_secs_f64().to_bits();
        pair.shim.run(before, after, changes, rowid, duration_bits)
    }

    fn fetch_row(&self, rows: &mut libsql::Rows) -> Option<Vec<Value>> {
        let row = self.rt.block_on(rows.next()).unwrap()?;
        let n = rows.column_count();
        Some((0..n).map(|i| from_engine_value(row.get_value(i).unwrap())).collect())
    }

    fn get(&self, pair: &mut PreparedPair, arg: Option<CallerValue>) -> CallerValue {
        let start = std::time::Instant::now();
        let mut rows = self.query(pair, arg);
        let row = self.fetch_row(&mut rows);
        let duration_bits = start.elapsed().as_secs_f64().to_bits();
        pair.shim.get(row, duration_bits)
    }

    fn all(&self, pair: &mut PreparedPair, arg: Option<CallerValue>) -> Vec<CallerValue> {
        let mut rows = self.query(pair, arg);
        let mut fetched = Vec::new();
        while let Some(row) = self.fetch_row(&mut rows) {
            fetched.push(row);
        }
        pair.shim.all(&fetched)
    }
}

fn int_arg(v: i64) -> Option<CallerValue> {
    Some(CallerValue::List(vec![CallerValue::BigInt { value: v, lossless: true }]))
}

#[test]
fn insert_run_result_counts_one_change() {
    let d = Driver::open_memory();
    d.exec("CREATE TABLE t (a INTEGER PRIMARY KEY)").unwrap();
    let mut pair = d.prepare("INSERT INTO t(a) VALUES (?)");
    let r = d.run(&mut pair, int_arg(5));
    assert_eq!(r.changes, 1);
    assert_eq!(r.lastInsertRowid, 5);
    let duration = f64::from_bits(r.duration_bits);
    assert!(duration.is_finite() && duration >= 0.0);
}

#[test]
fn run_changes_zero_iff_counter_unmoved() {
    let d = Driver::open_memory();
    d.exec("CREATE TABLE t (a INTEGER)").unwrap();
    d.exec("INSERT INTO t VALUES (1), (2)").unwrap();
    let mut del = d.prepare("DELETE FROM t WHERE a = 99");
    let r = d.run(&mut del, None);
    assert_eq!(r.changes, 0);
    let mut upd = d.prepare("UPDATE t SET a = a + 1");
    let r = d.run(&mut upd, None);
    assert_eq!(r.changes, 2);
}

#[test]
fn get_named_bind_returns_record_with_metadata() {
    let d = Driver::open_memory();
    d.exec("CREATE TABLE t (a INTEGER)").unwrap();
    d.exec("INSERT INTO t VALUES (5)").unwrap();
    let mut pair = d.prepare("SELECT a FROM t WHERE a = :a");
    let arg = CallerValue::Obj(vec![
        ("a".to_string(), CallerValue::BigInt { value: 5, lossless: true }),
    ]);
    let got = d.get(&mut pair, Some(arg));
    match got {
        CallerValue::Obj(pairs) => {
            assert_eq!(
                pairs[0],
                ("a".to_string(), CallerValue::Number(5.0f64.to_bits()))
            );
            assert_eq!(pairs[1].0, "_metadata");
            match &pairs[1].1 {
                CallerValue::Obj(meta) => {
                    assert_eq!(meta[0].0, "duration");
                    match meta[0].1 {
                        CallerValue::Number(bits) => {
                            let duration = f64::from_bits(bits);
                            assert!(duration.is_finite() && duration >= 0.0);
                        }
                        ref other => panic!("duration is not a number: {:?}", other),
                    }
                }
                other => panic!("metadata is not a record: {:?}", other),
            }
        }
        other => panic!("not a record: {:?}", other),
    }
}

#[test]
fn get_plucked_returns_value_directly() {
    let d = Driver::open_memory();
    d.exec("CREATE TABLE t (a INTEGER)").unwrap();
    d.exec("INSERT INTO t VALUES (5)").unwrap();
    let mut pair = d.prepare("SELECT a FROM t WHERE a = :a");
    pair.shim.pluck(Some(true));
    let arg = CallerValue::Obj(vec![
        ("a".to_string(), CallerValue::BigInt { value: 5, lossless: true }),
    ]);
    let got = d.get(&mut pair, Some(arg));
    assert_eq!(got, CallerValue::Number(5.0f64.to_bits()));
}

#[test]
fn named_bind_omits_absent_parameter() {
    let d = Driver::open_memory();
    d.exec("CREATE TABLE t (a INTEGER, b INTEGER)").unwrap();
    d.exec("INSERT INTO t VALUES (1, NULL)").unwrap();
    // :b is declared but absent from the mapping: it stays unbound (NULL),
    // and the stray key binds nothing.
    let mut pair = d.prepare("SELECT a FROM t WHERE a = :a AND b IS :b");
    let arg = CallerValue::Obj(vec![
        ("a".to_string(), CallerValue::BigInt { value: 1, lossless: true }),
        ("stray".to_string(), CallerValue::BigInt { value: 9, lossless: true }),
    ]);
    pair.shim.pluck(Some(true));
    let got = d.get(&mut pair, Some(arg));
    assert_eq!(got, CallerValue::Number(1.0f64.to_bits()));
}

#[test]
fn iterate_yields_each_row_then_done() {
    let d = Driver::open_memory();
    d.exec("CREATE TABLE t (a INTEGER)").unwrap();
    d.exec("INSERT INTO t VALUES (1), (2), (3)").unwrap();
    let mut pair = d.prepare("SELECT a FROM t ORDER BY a");
    pair.shim.safeIntegers(Some(true));
    let mut rows = d.query(&mut pair, None);
    let mut it = pair.shim.iterate();
    let mut yielded = Vec::new();
    loop {
        let fetched = if it.should_fetch() { d.fetch_row(&mut rows) } else { None };
        match it.next(fetched) {
            IterStep::Yielded(v) => yielded.push(v),
            IterStep::Done => break,
        }
    }
    assert_eq!(yielded.len(), 3);
    assert_eq!(
        yielded[2],
        CallerValue::Obj(vec![
            ("a".to_string(), CallerValue::BigInt { value: 3, lossless: true }),
        ])
    );
    // After exhaustion every further step reports the end again.
    assert!(!it.should_fetch());
    assert_eq!(it.next(None), IterStep::Done);
    assert_eq!(it.next(None), IterStep::Done);
}

#[test]
fn raw_mode_needs_columns_and_changes_row_shape() {
    let d = Driver::open_memory();
    d.exec("CREATE TABLE t (a INTEGER, b TEXT)").unwrap();
    d.exec("INSERT INTO t VALUES (1, 'x')").unwrap();
    let mut insert = d.prepare("INSERT INTO t VALUES (2, 'y')");
    // No output columns: raw mode is refused before any execution.
    assert!(insert.shim.raw(Some(true)).is_err());
    let mut select = d.prepare("SELECT a, b FROM t");
    select.shim.safeIntegers(Some(true));
    assert!(select.shim.raw(Some(true)).is_ok());
    let got = d.all(&mut select, None);
    assert_eq!(
        got,
        vec![CallerValue::List(vec![
            CallerValue::BigInt { value: 1, lossless: true },
            CallerValue::Str("x".to_string()),
        ])]
    );
}

#[test]
fn transaction_commit_keeps_writes_and_restores_autocommit() {
    let d = Driver::open_memory();
    d.exec("CREATE TABLE t (a INTEGER)").unwrap();
    let mut m = d.shim.transaction().unwrap();
    assert!(d.conn.is_autocommit());
    let begin = begin_sql("");
    d.rt.block_on(d.conn.execute_batch(&begin)).unwrap();
    assert_eq!(m.step(TxEvent::BeginOk), TxAction::RunCallback);
    assert!(d.shim.in_transaction(Some(d.conn.is_autocommit())));
    // The callback returns normally after writing.
    d.rt
        .block_on(d.conn.execute_batch("INSERT INTO t VALUES (7)"))
        .unwrap();
    assert_eq!(m.step(TxEvent::CallbackReturned), TxAction::ExecCommit);
    d.rt.block_on(d.conn.execute_batch("COMMIT")).unwrap();
    assert_eq!(m.step(TxEvent::CommitOk), TxAction::ReturnResult);
    // Autocommit is restored and the write is visible.
    assert!(d.conn.is_autocommit());
    assert!(!d.shim.in_transaction(Some(d.conn.is_autocommit())));
    let mut pair = d.prepare("SELECT count(*) FROM t");
    pair.shim.pluck(Some(true));
    assert_eq!(d.get(&mut pair, None), CallerValue::Number(1.0f64.to_bits()));
}

#[test]
fn transaction_failure_rolls_back_and_restores_autocommit() {
    let d = Driver::open_memory();
    d.exec("CREATE TABLE t (a INTEGER)").unwrap();
    let mut m = d.shim.transaction().unwrap();
    let begin = begin_sql("");
    d.rt.block_on(d.conn.execute_batch(&begin)).unwrap();
    assert_eq!(m.step(TxEvent::BeginOk), TxAction::RunCallback);
    d.rt
        .block_on(d.conn.execute_batch("INSERT INTO t VALUES (7)"))
        .unwrap();
    // The callback raises: the bracket rolls back and re-raises the
    // original failure whatever the rollback outcome.
    assert_eq!(m.step(TxEvent::CallbackRaised), TxAction::ExecRollback);
    d.rt.block_on(d.conn.execute_batch("ROLLBACK")).unwrap();
    assert_eq!(m.step(TxEvent::RollbackOk), TxAction::RaiseCallbackError);
    assert!(d.conn.is_autocommit());
    let mut pair = d.prepare("SELECT count(*) FROM t");
    pair.shim.pluck(Some(true));
    assert_eq!(d.get(&mut pair, None), CallerValue::Number(0.0f64.to_bits()));
}

#[test]
fn closed_database_fails_before_any_engine_call() {
    let mut d = Driver::open_memory();
    d.exec("CREATE TABLE t (a INTEGER)").unwrap();
    d.shim.close();
    let err = d.exec("SELECT 1").unwrap_err();
    assert_eq!(err, "The database connection is not open");
}

#[test]
fn engine_error_maps_to_symbolic_code() {
    let d = Driver::open_memory();
    d.exec("CREATE TABLE t (a INTEGER PRIMARY KEY)").unwrap();
    d.exec("INSERT INTO t VALUES (1)").unwrap();
    let outcome = d.rt.block_on(d.conn.execute_batch("INSERT INTO t VALUES (1)"));
    let err = outcome.err().expect("duplicate key must fail");
    match err {
        libsql::Error::SqliteFailure(raw, msg) => {
            let e = libsql_shim::errors::sqlite_failure_to_error(raw, msg);
            assert_eq!(e.code, "SQLITE_CONSTRAINT_PRIMARYKEY");
            let payload = libsql_shim::json::error_payload_json(&e);
            let parsed: serde_json::Value = serde_json::from_str(&payload).unwrap();
            assert_eq!(parsed["libsqlError"], serde_json::Value::Bool(true));
            assert_eq!(parsed["rawCode"].as_i64().unwrap(), raw as i64);
        }
        other => panic!("unexpected error shape: {:?}", other),
    }
}
