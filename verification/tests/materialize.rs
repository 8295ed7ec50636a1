use libsql_shim::rows::{convert_row, convert_row_raw, materialize_row, Column};
use libsql_shim::stmt::Statement;
use libsql_shim::value::{CallerValue, Value};

fn col(name: &str) -> Column {
    Column {
        name: name.to_string(),
        origin_name: None,
        table_name: None,
        database_name: None,
        decl_type: None,
    }
}

#[test]
fn record_in_column_order() {
    let cols = vec![col("a"), col("b")];
    let row = vec![Value::Integer(1), Value::Text("x".to_string())];
    let rec = convert_row(&cols, true, &row);
    assert_eq!(
        rec,
        vec![
            ("a".to_string(), CallerValue::BigInt { value: 1, lossless: true }),
            ("b".to_string(), CallerValue::Str("x".to_string())),
        ]
    );
}

#[test]
fn record_duplicate_name_overwrites_in_place() {
    let cols = vec![col("a"), col("b"), col("a")];
    let row = vec![Value::Integer(1), Value::Integer(2), Value::Integer(3)];
    let rec = convert_row(&cols, true, &row);
    assert_eq!(
        rec,
        vec![
            ("a".to_string(), CallerValue::BigInt { value: 3, lossless: true }),
            ("b".to_string(), CallerValue::BigInt { value: 2, lossless: true }),
        ]
    );
}

#[test]
fn raw_row_in_column_order() {
    let row = vec![Value::Null, Value::Real(1.5f64.to_bits())];
    let arr = convert_row_raw(false, &row);
    assert_eq!(
        arr,
        vec![CallerValue::Null, CallerValue::Number(1.5f64.to_bits())]
    );
}

#[test]
fn materialize_default_is_keyed_record() {
    let cols = vec![col("a")];
    let row = vec![Value::Integer(7)];
    let got = materialize_row(&cols, &row, false, false, true);
    assert_eq!(
        got,
        CallerValue::Obj(vec![
            ("a".to_string(), CallerValue::BigInt { value: 7, lossless: true }),
        ])
    );
}

#[test]
fn materialize_raw_is_ordered_array() {
    let cols = vec![col("a"), col("b")];
    let row = vec![Value::Integer(1), Value::Integer(2)];
    let got = materialize_row(&cols, &row, true, false, true);
    assert_eq!(
        got,
        CallerValue::List(vec![
            CallerValue::BigInt { value: 1, lossless: true },
            CallerValue::BigInt { value: 2, lossless: true },
        ])
    );
}

#[test]
fn materialize_pluck_takes_first_column() {
    let cols = vec![col("a"), col("b")];
    let row = vec![Value::Integer(1), Value::Integer(2)];
    let got = materialize_row(&cols, &row, false, true, true);
    assert_eq!(got, CallerValue::BigInt { value: 1, lossless: true });
    let got = materialize_row(&cols, &row, true, true, true);
    assert_eq!(got, CallerValue::BigInt { value: 1, lossless: true });
}

#[test]
fn get_attaches_duration_metadata_in_record_mode() {
    let stmt = Statement::new(vec![col("a")], vec![], true);
    let bits = 0.25f64.to_bits();
    let got = stmt.get(Some(vec![Value::Integer(5)]), bits);
    assert_eq!(
        got,
        CallerValue::Obj(vec![
            ("a".to_string(), CallerValue::BigInt { value: 5, lossless: true }),
            (
                "_metadata".to_string(),
                CallerValue::Obj(vec![("duration".to_string(), CallerValue::Number(bits))])
            ),
        ])
    );
}

#[test]
fn get_without_row_is_undefined() {
    let stmt = Statement::new(vec![col("a")], vec![], false);
    assert_eq!(stmt.get(None, 0), CallerValue::Undefined);
}

#[test]
fn get_plucked_has_no_metadata() {
    let mut stmt = Statement::new(vec![col("a")], vec![], true);
    stmt.pluck(Some(true));
    let got = stmt.get(Some(vec![Value::Integer(5)]), 0.25f64.to_bits());
    assert_eq!(got, CallerValue::BigInt { value: 5, lossless: true });
}

#[test]
fn all_materializes_each_row() {
    let mut stmt = Statement::new(vec![col("a")], vec![], true);
    stmt.raw(Some(true)).unwrap();
    let rows = vec![vec![Value::Integer(1)], vec![Value::Integer(2)]];
    let got = stmt.all(&rows);
    assert_eq!(
        got,
        vec![
            CallerValue::List(vec![CallerValue::BigInt { value: 1, lossless: true }]),
            CallerValue::List(vec![CallerValue::BigInt { value: 2, lossless: true }]),
        ]
    );
}

#[test]
fn raw_toggle_fails_without_columns() {
    let mut stmt = Statement::new(vec![], vec![], false);
    assert!(stmt.raw(Some(true)).is_err());
    assert!(!stmt.raw);
    let mut with_cols = Statement::new(vec![col("a")], vec![], false);
    assert!(with_cols.raw(Some(true)).is_ok());
    assert!(with_cols.raw);
    assert!(with_cols.raw(Some(false)).is_ok());
    assert!(!with_cols.raw);
}

#[test]
fn flag_setters_default_to_on() {
    let mut stmt = Statement::new(vec![col("a")], vec![], false);
    stmt.pluck(None);
    assert!(stmt.pluck);
    stmt.safeIntegers(None);
    assert!(stmt.safe_ints);
    stmt.raw(None).unwrap();
    assert!(stmt.raw);
}

#[test]
fn run_reports_zero_changes_when_counter_still() {
    let stmt = Statement::new(vec![], vec![], false);
    let r = stmt.run(10, 10, 4, 99, 0);
    assert_eq!(r.changes, 0);
    assert_eq!(r.lastInsertRowid, 99);
    let r = stmt.run(10, 11, 4, 100, 0);
    assert_eq!(r.changes, 4);
    assert_eq!(r.lastInsertRowid, 100);
}
