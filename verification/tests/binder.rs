use libsql_shim::errors::BindError;
use libsql_shim::params::{map_params, map_params_array, map_params_object, map_params_single, Params};
use libsql_shim::value::{CallerValue, Value};

fn names(v: &[&str]) -> Vec<String> {
    v.iter().map(|s| s.to_string()).collect()
}

#[test]
fn no_argument_binds_nothing() {
    assert_eq!(map_params(&names(&[]), None), Ok(Params::Empty));
}

#[test]
fn scalar_binds_single_positional() {
    let r = map_params(&names(&[]), Some(CallerValue::Bool(true)));
    assert_eq!(r, Ok(Params::Positional(vec![Value::Integer(1)])));
    let r = map_params_single(CallerValue::Str("s".to_string()));
    assert_eq!(r, Ok(Params::Positional(vec![Value::Text("s".to_string())])));
}

#[test]
fn buffer_argument_is_a_scalar() {
    // A byte buffer is not an ordered list or keyed mapping: it binds as
    // one positional blob.
    let r = map_params(&names(&[":a"]), Some(CallerValue::Buffer(vec![1, 2])));
    assert_eq!(r, Ok(Params::Positional(vec![Value::Blob(vec![1, 2])])));
}

#[test]
fn list_binds_positionally_in_order() {
    let arg = CallerValue::List(vec![
        CallerValue::Number(1.5f64.to_bits()),
        CallerValue::Null,
        CallerValue::Str("x".to_string()),
    ]);
    let r = map_params(&names(&[]), Some(arg));
    assert_eq!(
        r,
        Ok(Params::Positional(vec![
            Value::Real(1.5f64.to_bits()),
            Value::Null,
            Value::Text("x".to_string()),
        ]))
    );
}

#[test]
fn list_first_error_wins() {
    let items = vec![
        CallerValue::Null,
        CallerValue::BigInt { value: 0, lossless: false },
        CallerValue::Unsupported,
    ];
    assert_eq!(map_params_array(&items), Err(BindError::BigIntOutOfRange));
}

#[test]
fn object_binds_by_declared_name_with_sigil_stripped() {
    let obj = CallerValue::Obj(vec![
        ("a".to_string(), CallerValue::BigInt { value: 5, lossless: true }),
        ("b".to_string(), CallerValue::Str("t".to_string())),
    ]);
    let r = map_params(&names(&[":a", "@b"]), Some(obj));
    assert_eq!(
        r,
        Ok(Params::Named(vec![
            (":a".to_string(), Value::Integer(5)),
            ("@b".to_string(), Value::Text("t".to_string())),
        ]))
    );
}

#[test]
fn declared_name_absent_from_mapping_is_omitted() {
    let obj = vec![("a".to_string(), CallerValue::BigInt { value: 5, lossless: true })];
    let r = map_params_object(&names(&[":a", ":missing"]), &obj);
    assert_eq!(r, Ok(Params::Named(vec![(":a".to_string(), Value::Integer(5))])));
}

#[test]
fn mapping_key_not_declared_is_ignored() {
    let obj = vec![
        ("a".to_string(), CallerValue::BigInt { value: 5, lossless: true }),
        ("stray".to_string(), CallerValue::Unsupported),
    ];
    // The stray key binds nothing, and its unbindable value never errors.
    let r = map_params_object(&names(&[":a"]), &obj);
    assert_eq!(r, Ok(Params::Named(vec![(":a".to_string(), Value::Integer(5))])));
}

#[test]
fn object_bind_reports_encode_errors() {
    let obj = vec![("a".to_string(), CallerValue::Unsupported)];
    let r = map_params_object(&names(&["$a"]), &obj);
    assert_eq!(r, Err(BindError::Unsupported));
}

#[test]
fn empty_object_binds_empty_named_list() {
    let r = map_params(&names(&[":a"]), Some(CallerValue::Obj(vec![])));
    assert_eq!(r, Ok(Params::Named(vec![])));
}
