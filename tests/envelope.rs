use surreal_engine::envelope::{decode_request, failure, success, DecodeError, RpcError};
use surreal_engine::value::Value;

fn obj(entries: Vec<(&str, Value)>) -> Value {
    Value::Object(entries.into_iter().map(|(k, v)| (k.to_string(), v)).collect())
}

fn error_parts(v: &Value) -> (i64, String) {
    match v {
        Value::Object(e) => {
            assert_eq!(e.len(), 1);
            assert_eq!(e[0].0, "error");
            match &e[0].1 {
                Value::Object(f) => {
                    assert_eq!(f[0].0, "code");
                    assert_eq!(f[1].0, "message");
                    match (&f[0].1, &f[1].1) {
                        (Value::Int(c), Value::Str(m)) => (*c, m.clone()),
                        _ => panic!("malformed error body"),
                    }
                }
                _ => panic!("malformed error envelope"),
            }
        }
        _ => panic!("not an object"),
    }
}

#[test]
fn decodes_full_request() {
    let v = obj(vec![
        ("method", Value::Str("query".to_string())),
        ("params", Value::Array(vec![Value::Int(1), Value::Null])),
        ("txn", Value::Uuid(7)),
        ("session", Value::Uuid(9)),
    ]);
    let r = decode_request(v).unwrap();
    assert_eq!(r.method, "query");
    assert_eq!(r.params.len(), 2);
    assert!(matches!(r.params[0], Value::Int(1)));
    assert_eq!(r.txn, Some(7));
    assert_eq!(r.session, Some(9));
}

#[test]
fn absent_and_null_fields_default() {
    let r = decode_request(obj(vec![
        ("session", Value::Null),
        ("method", Value::Str("ping".to_string())),
        ("other", Value::Bool(true)),
    ]))
    .unwrap();
    assert_eq!(r.method, "ping");
    assert!(r.params.is_empty());
    assert_eq!(r.txn, None);
    assert_eq!(r.session, None);
}

#[test]
fn first_entry_of_a_name_counts() {
    let r = decode_request(obj(vec![
        ("method", Value::Str("first".to_string())),
        ("method", Value::Str("second".to_string())),
    ]))
    .unwrap();
    assert_eq!(r.method, "first");
}

#[test]
fn decode_errors() {
    assert_eq!(decode_request(Value::Int(3)).unwrap_err(), DecodeError::NotAnObject);
    assert_eq!(decode_request(obj(vec![])).unwrap_err(), DecodeError::MissingMethod);
    assert_eq!(
        decode_request(obj(vec![("method", Value::Int(1))])).unwrap_err(),
        DecodeError::InvalidMethod
    );
    assert_eq!(
        decode_request(obj(vec![
            ("method", Value::Str("m".to_string())),
            ("params", Value::Int(1))
        ]))
        .unwrap_err(),
        DecodeError::InvalidParams
    );
    assert_eq!(
        decode_request(obj(vec![
            ("method", Value::Str("m".to_string())),
            ("txn", Value::Str("x".to_string()))
        ]))
        .unwrap_err(),
        DecodeError::InvalidTxn
    );
    assert_eq!(
        decode_request(obj(vec![
            ("method", Value::Str("m".to_string())),
            ("session", Value::Int(2))
        ]))
        .unwrap_err(),
        DecodeError::InvalidSession
    );
}

#[test]
fn success_envelope() {
    match success(Value::Int(5)) {
        Value::Object(e) => {
            assert_eq!(e.len(), 1);
            assert_eq!(e[0].0, "result");
            assert!(matches!(e[0].1, Value::Int(5)));
        }
        _ => panic!("not an object"),
    }
}

#[test]
fn error_envelopes() {
    let cases = [
        (RpcError::InvalidParams, -32602, "Invalid params"),
        (RpcError::TransactionNotFound, -32003, "Transaction not found"),
        (RpcError::SessionNotFound, -32004, "Session not found"),
        (RpcError::NotificationsNotEnabled, -32005, "Notifications not enabled"),
        (
            RpcError::Engine { code: -32000, message: "conflict".to_string() },
            -32000,
            "conflict",
        ),
    ];
    for (e, code, msg) in cases {
        assert_eq!(e.code(), code);
        assert_eq!(e.message(), msg);
        let (c, m) = error_parts(&failure(&e));
        assert_eq!(c, code);
        assert_eq!(m, msg);
    }
}
