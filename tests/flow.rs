use surreal_engine::capabilities::{CapabilitiesConfig, CapabilityError, Options, Targets};
use surreal_engine::connect::{configure, engine_endpoint};
use surreal_engine::dispatch::{
    begin_response, dispatch, end_session, finish, finish_unit, is_known_method,
    open_notifications, record_live, teardown, Forward, Step,
};
use surreal_engine::envelope::{decode_request, RpcError};
use surreal_engine::live::LiveQueryRegistry;
use surreal_engine::sessions::{Session, SessionRegistry};
use surreal_engine::transactions::TransactionRegistry;
use surreal_engine::value::Value;

fn request(method: &str, params: Vec<Value>) -> surreal_engine::envelope::Request {
    decode_request(Value::Object(vec![
        ("method".to_string(), Value::Str(method.to_string())),
        ("params".to_string(), Value::Array(params)),
    ]))
    .unwrap()
}

fn result_of(v: &Value) -> &Value {
    match v {
        Value::Object(e) if e.len() == 1 && e[0].0 == "result" => &e[0].1,
        _ => panic!("not a success envelope: {:?}", v),
    }
}

fn error_message_of(v: &Value) -> String {
    match v {
        Value::Object(e) if e.len() == 1 && e[0].0 == "error" => match &e[0].1 {
            Value::Object(f) => match &f[1].1 {
                Value::Str(m) => m.clone(),
                _ => panic!("no message"),
            },
            _ => panic!("no error body"),
        },
        _ => panic!("not an error envelope: {:?}", v),
    }
}

/// A stand-in for the engine's transaction handle.
#[derive(Debug, PartialEq, Clone)]
struct Handle(u32);

#[test]
fn begin_commit_commit_again() {
    let settings = configure(None).unwrap();
    assert!(!settings.strict);
    assert_eq!(engine_endpoint("memory"), "memory");
    let mut sessions = SessionRegistry::new(Session::new(true));
    let mut live = LiveQueryRegistry::new();
    let mut txns: TransactionRegistry<Handle> = TransactionRegistry::new();

    // begin
    let step = dispatch(request("begin", vec![]), &mut sessions, &mut live, &mut txns);
    assert!(matches!(step, Step::Begin));
    let (reply, refused) = begin_response(&mut txns, Handle(1));
    assert!(refused.is_none());
    let id = match result_of(&reply) {
        Value::Uuid(u) => *u,
        other => panic!("expected an identifier, got {:?}", other),
    };

    // commit
    let step = dispatch(request("commit", vec![Value::Uuid(id)]), &mut sessions, &mut live, &mut txns);
    match step {
        Step::Commit(h) => assert_eq!(h, Handle(1)),
        other => panic!("expected a commit, got {:?}", other),
    }
    let reply = finish_unit(Ok(()));
    assert!(matches!(result_of(&reply), Value::Null));

    // commit again
    let step = dispatch(request("commit", vec![Value::Uuid(id)]), &mut sessions, &mut live, &mut txns);
    match step {
        Step::Reply(v) => assert_eq!(error_message_of(&v), "Transaction not found"),
        other => panic!("expected a reply, got {:?}", other),
    }
}

#[test]
fn commit_or_cancel_of_unknown_transaction() {
    let mut sessions = SessionRegistry::new(Session::new(true));
    let mut live = LiveQueryRegistry::new();
    let mut txns: TransactionRegistry<Handle> = TransactionRegistry::new();
    txns.begin_with(3, Handle(3)).unwrap();
    for m in ["commit", "cancel"] {
        match dispatch(request(m, vec![Value::Uuid(99)]), &mut sessions, &mut live, &mut txns) {
            Step::Reply(v) => assert_eq!(error_message_of(&v), "Transaction not found"),
            other => panic!("expected a reply, got {:?}", other),
        }
    }
    assert_eq!(txns.len(), 1);
}

#[test]
fn cancel_then_commit_same_id() {
    let mut sessions = SessionRegistry::new(Session::new(true));
    let mut live = LiveQueryRegistry::new();
    let mut txns: TransactionRegistry<Handle> = TransactionRegistry::new();
    let id = txns.begin(Handle(8)).unwrap();
    match dispatch(request("cancel", vec![Value::Uuid(id)]), &mut sessions, &mut live, &mut txns) {
        Step::Cancel(h) => assert_eq!(h, Handle(8)),
        other => panic!("expected a cancel, got {:?}", other),
    }
    match dispatch(request("commit", vec![Value::Uuid(id)]), &mut sessions, &mut live, &mut txns) {
        Step::Reply(v) => assert_eq!(error_message_of(&v), "Transaction not found"),
        other => panic!("expected a reply, got {:?}", other),
    }
}

#[test]
fn commit_without_identifier_is_invalid_params() {
    let mut sessions = SessionRegistry::new(Session::new(true));
    let mut live = LiveQueryRegistry::new();
    let mut txns: TransactionRegistry<Handle> = TransactionRegistry::new();
    for params in [vec![], vec![Value::Str("x".to_string())]] {
        match dispatch(request("commit", params), &mut sessions, &mut live, &mut txns) {
            Step::Reply(v) => assert_eq!(error_message_of(&v), "Invalid params"),
            other => panic!("expected a reply, got {:?}", other),
        }
    }
}

#[test]
fn engine_error_on_commit_is_passed_on() {
    let reply = finish_unit(Err(RpcError::Engine { code: -32000, message: "conflict".to_string() }));
    assert_eq!(error_message_of(&reply), "conflict");
}

#[test]
fn unknown_session_is_refused() {
    let mut sessions = SessionRegistry::new(Session::new(true));
    let mut live = LiveQueryRegistry::new();
    let mut txns: TransactionRegistry<Handle> = TransactionRegistry::new();
    let req = decode_request(Value::Object(vec![
        ("method".to_string(), Value::Str("query".to_string())),
        ("session".to_string(), Value::Uuid(4)),
    ]))
    .unwrap();
    match dispatch(req, &mut sessions, &mut live, &mut txns) {
        Step::Reply(v) => assert_eq!(error_message_of(&v), "Session not found"),
        other => panic!("expected a reply, got {:?}", other),
    }
}

#[test]
fn other_methods_are_forwarded() {
    let mut sessions = SessionRegistry::new(Session::new(true));
    let mut live = LiveQueryRegistry::new();
    sessions.set(Some(4), Session::new(false));
    let mut txns: TransactionRegistry<Handle> = TransactionRegistry::new();
    let t = txns.begin_with(10, Handle(10)).unwrap();
    let req = decode_request(Value::Object(vec![
        ("method".to_string(), Value::Str("query".to_string())),
        ("params".to_string(), Value::Array(vec![Value::Str("SELECT 1".to_string())])),
        ("session".to_string(), Value::Uuid(4)),
        ("txn".to_string(), Value::Uuid(t)),
    ]))
    .unwrap();
    match dispatch(req, &mut sessions, &mut live, &mut txns) {
        Step::Forward(f) => {
            assert_eq!(f.method, "query");
            assert_eq!(f.params.len(), 1);
            assert_eq!(f.session, Some(4));
            assert_eq!(f.txn, Some(t));
            assert_eq!(f.handle, Some(Handle(10)));
        }
        other => panic!("expected a forward, got {:?}", other),
    }
    assert!(txns.contains(t));
    let reply = finish(Ok(Value::Int(1)));
    assert!(matches!(result_of(&reply), Value::Int(1)));
}

#[test]
fn forward_with_unknown_transaction() {
    let mut sessions = SessionRegistry::new(Session::new(true));
    let mut live = LiveQueryRegistry::new();
    let mut txns: TransactionRegistry<Handle> = TransactionRegistry::new();
    let req = decode_request(Value::Object(vec![
        ("method".to_string(), Value::Str("query".to_string())),
        ("txn".to_string(), Value::Uuid(123)),
    ]))
    .unwrap();
    match dispatch(req, &mut sessions, &mut live, &mut txns) {
        Step::Reply(v) => assert_eq!(error_message_of(&v), "Transaction not found"),
        other => panic!("expected a reply, got {:?}", other),
    }
}

#[test]
fn notifications_refused_without_real_time_support() {
    match open_notifications(false) {
        Err(e) => {
            assert!(matches!(e, RpcError::NotificationsNotEnabled));
            assert_eq!(e.message(), "Notifications not enabled");
        }
        Ok(_) => panic!("no channel may be created"),
    }
    assert!(open_notifications(true).is_ok());
}

#[test]
fn ending_a_session_drains_its_live_queries() {
    let mut sessions = SessionRegistry::new(Session::new(true));
    sessions.set(Some(1), Session::new(true));
    sessions.set(Some(2), Session::new(true));
    let mut live = LiveQueryRegistry::new();
    live.register(10, Some(1));
    live.register(11, Some(2));
    live.register(12, Some(1));
    let mut released = end_session(&mut sessions, &mut live, 1);
    released.sort();
    assert_eq!(released, vec![10, 12]);
    assert!(!sessions.contains(Some(1)));
    assert!(sessions.contains(Some(2)));
    assert_eq!(live.len(), 1);
}

#[test]
fn teardown_releases_everything() {
    let mut live = LiveQueryRegistry::new();
    live.register(1, None);
    live.register(2, Some(5));
    let mut txns: TransactionRegistry<Handle> = TransactionRegistry::new();
    txns.begin_with(1, Handle(1)).unwrap();
    txns.begin_with(2, Handle(2)).unwrap();
    let mut sessions = SessionRegistry::new(Session::new(true));
    sessions.set(Some(5), Session::new(true));
    sessions.set_var(None, "x".to_string(), Value::Int(1));
    let (mut lqs, open) = teardown(&mut sessions, &mut live, &mut txns);
    assert!(sessions.sessions().is_empty());
    assert!(sessions.get(None).unwrap().variables.is_empty());
    lqs.sort();
    assert_eq!(lqs, vec![1, 2]);
    assert_eq!(open.len(), 2);
    assert_eq!(live.len(), 0);
    assert_eq!(txns.len(), 0);
}

#[test]
fn memory_endpoints() {
    assert_eq!(engine_endpoint("mem://"), "memory");
    assert_eq!(engine_endpoint("mem:"), "memory");
    assert_eq!(engine_endpoint("memory"), "memory");
    assert_eq!(engine_endpoint("surrealkv://data"), "surrealkv://data");
    assert_eq!(engine_endpoint("me"), "me");
}

#[test]
fn options_resolve_into_settings() {
    let s = configure(Some(Options {
        strict: Some(true),
        query_timeout: Some(5),
        transaction_timeout: None,
        capabilities: Some(CapabilitiesConfig::Bool(true)),
    }))
    .unwrap();
    assert!(s.strict);
    assert_eq!(s.query_timeout_secs, Some(5));
    assert_eq!(s.transaction_timeout_secs, None);
    assert!(s.capabilities.scripting);

    let s = configure(Some(Options {
        strict: None,
        query_timeout: None,
        transaction_timeout: Some(255),
        capabilities: None,
    }))
    .unwrap();
    assert!(!s.strict);
    assert_eq!(s.transaction_timeout_secs, Some(255));
    assert!(!s.capabilities.scripting);

    let bad = configure(Some(Options {
        strict: None,
        query_timeout: None,
        transaction_timeout: None,
        capabilities: Some(CapabilitiesConfig::Capabilities {
            scripting: None,
            guest_access: None,
            live_query_notifications: None,
            functions: None,
            network_targets: None,
            experimental: Some(Targets::Array(vec![" ".to_string()])),
        }),
    }));
    assert!(matches!(bad, Err(CapabilityError::InvalidTarget { .. })));
}

fn reply_of(step: Step<Handle>) -> Value {
    match step {
        Step::Reply(v) => v,
        other => panic!("expected a reply, got {:?}", other),
    }
}

#[test]
fn unknown_method_is_refused() {
    let mut sessions = SessionRegistry::new(Session::new(true));
    let mut live = LiveQueryRegistry::new();
    let mut txns: TransactionRegistry<Handle> = TransactionRegistry::new();
    let v = reply_of(dispatch(request("foo", vec![]), &mut sessions, &mut live, &mut txns));
    assert_eq!(error_message_of(&v), "Method not found");
    assert!(!is_known_method("foo"));
    assert!(is_known_method("query"));
    assert!(is_known_method("insert_relation"));
}

#[test]
fn set_use_unset_change_the_session() {
    let mut sessions = SessionRegistry::new(Session::new(true));
    let mut live = LiveQueryRegistry::new();
    let mut txns: TransactionRegistry<Handle> = TransactionRegistry::new();
    let v = reply_of(dispatch(
        request("set", vec![Value::Str("a".to_string()), Value::Int(7)]),
        &mut sessions,
        &mut live,
        &mut txns,
    ));
    assert!(matches!(result_of(&v), Value::Null));
    let v = reply_of(dispatch(
        request("use", vec![Value::Str("ns".to_string()), Value::Str("db".to_string())]),
        &mut sessions,
        &mut live,
        &mut txns,
    ));
    assert!(matches!(result_of(&v), Value::Null));
    {
        let d = sessions.get(None).unwrap();
        assert_eq!(d.namespace.as_deref(), Some("ns"));
        assert_eq!(d.database.as_deref(), Some("db"));
        assert!(d.variables.iter().any(|(k, v)| k == "a" && matches!(v, Value::Int(7))));
    }
    // a missing database keeps it, null clears the namespace
    reply_of(dispatch(request("use", vec![Value::Null]), &mut sessions, &mut live, &mut txns));
    {
        let d = sessions.get(None).unwrap();
        assert_eq!(d.namespace, None);
        assert_eq!(d.database.as_deref(), Some("db"));
    }
    reply_of(dispatch(
        request("unset", vec![Value::Str("a".to_string())]),
        &mut sessions,
        &mut live,
        &mut txns,
    ));
    assert!(sessions.get(None).unwrap().variables.is_empty());
}

#[test]
fn let_on_a_named_session_leaves_others() {
    let mut sessions = SessionRegistry::new(Session::new(true));
    sessions.set(Some(3), Session::new(true));
    let mut live = LiveQueryRegistry::new();
    let mut txns: TransactionRegistry<Handle> = TransactionRegistry::new();
    let req = decode_request(Value::Object(vec![
        ("method".to_string(), Value::Str("let".to_string())),
        ("params".to_string(), Value::Array(vec![Value::Str("x".to_string()), Value::Bool(true)])),
        ("session".to_string(), Value::Uuid(3)),
    ]))
    .unwrap();
    reply_of(dispatch(req, &mut sessions, &mut live, &mut txns));
    assert_eq!(sessions.get(Some(3)).unwrap().variables.len(), 1);
    assert!(sessions.get(None).unwrap().variables.is_empty());
}

#[test]
fn malformed_session_requests() {
    let mut sessions = SessionRegistry::new(Session::new(true));
    let mut live = LiveQueryRegistry::new();
    let mut txns: TransactionRegistry<Handle> = TransactionRegistry::new();
    for (m, p) in [
        ("set", vec![Value::Str("a".to_string())]),
        ("set", vec![Value::Int(1), Value::Int(2)]),
        ("unset", vec![]),
        ("use", vec![Value::Int(1)]),
        ("kill", vec![Value::Str("q".to_string())]),
    ] {
        let v = reply_of(dispatch(request(m, p), &mut sessions, &mut live, &mut txns));
        assert_eq!(error_message_of(&v), "Invalid params");
    }
}

#[test]
fn invalidate_and_reset() {
    let mut s = Session::new(true);
    s.token = Some("t".to_string());
    s.namespace = Some("ns".to_string());
    let mut sessions = SessionRegistry::new(s);
    let mut live = LiveQueryRegistry::new();
    let mut txns: TransactionRegistry<Handle> = TransactionRegistry::new();
    reply_of(dispatch(request("invalidate", vec![]), &mut sessions, &mut live, &mut txns));
    assert_eq!(sessions.get(None).unwrap().token, None);
    assert_eq!(sessions.get(None).unwrap().namespace.as_deref(), Some("ns"));
    reply_of(dispatch(request("reset", vec![]), &mut sessions, &mut live, &mut txns));
    assert_eq!(sessions.get(None).unwrap().namespace, None);
    assert!(sessions.get(None).unwrap().rt);
}

#[test]
fn live_then_kill_releases_once() {
    let mut sessions = SessionRegistry::new(Session::new(true));
    let mut live = LiveQueryRegistry::new();
    let mut txns: TransactionRegistry<Handle> = TransactionRegistry::new();
    let call = match dispatch(request("live", vec![Value::Str("person".to_string())]), &mut sessions, &mut live, &mut txns) {
        Step::Forward(f) => f,
        other => panic!("expected a forward, got {:?}", other),
    };
    record_live(&mut live, &call, &Ok(Value::Uuid(42)));
    assert_eq!(live.session_of(42), Some(None));
    // an answer that is not an identifier records nothing
    record_live(&mut live, &call, &Err(RpcError::InvalidParams));
    assert_eq!(live.len(), 1);
    match dispatch(request("kill", vec![Value::Uuid(42)]), &mut sessions, &mut live, &mut txns) {
        Step::Kill(q) => assert_eq!(q, 42),
        other => panic!("expected a kill, got {:?}", other),
    }
    assert_eq!(live.len(), 0);
    let v = reply_of(dispatch(request("kill", vec![Value::Uuid(42)]), &mut sessions, &mut live, &mut txns));
    assert_eq!(error_message_of(&v), "Live query not found");
}

#[test]
fn record_live_ignores_other_methods() {
    let mut live = LiveQueryRegistry::new();
    let call: Forward<Handle> = Forward {
        method: "query".to_string(),
        params: vec![],
        session: None,
        txn: None,
        handle: None,
    };
    record_live(&mut live, &call, &Ok(Value::Uuid(1)));
    assert_eq!(live.len(), 0);
}

#[test]
fn begin_when_identifiers_are_exhausted() {
    let mut txns: TransactionRegistry<Handle> = TransactionRegistry::new();
    txns.begin_with(u128::MAX, Handle(0)).unwrap();
    let (reply, refused) = begin_response(&mut txns, Handle(1));
    assert_eq!(refused, Some(Handle(1)));
    assert_eq!(error_message_of(&reply), "No transaction identifier is left");
    assert_eq!(txns.len(), 1);
}

#[test]
fn attach_and_detach_a_session() {
    let mut sessions = SessionRegistry::new(Session::new(true));
    let mut live = LiveQueryRegistry::new();
    let mut txns: TransactionRegistry<Handle> = TransactionRegistry::new();
    let with_session = |m: &str| {
        decode_request(Value::Object(vec![
            ("method".to_string(), Value::Str(m.to_string())),
            ("session".to_string(), Value::Uuid(9)),
        ]))
        .unwrap()
    };
    let v = reply_of(dispatch(with_session("attach"), &mut sessions, &mut live, &mut txns));
    assert!(matches!(result_of(&v), Value::Null));
    assert_eq!(sessions.sessions(), vec![9]);
    // attaching again keeps the session as it is
    sessions.set_var(Some(9), "k".to_string(), Value::Int(1));
    reply_of(dispatch(with_session("attach"), &mut sessions, &mut live, &mut txns));
    assert_eq!(sessions.get(Some(9)).unwrap().variables.len(), 1);
    live.register(50, Some(9));
    live.register(51, None);
    match dispatch(with_session("detach"), &mut sessions, &mut live, &mut txns) {
        Step::Release(ids) => assert_eq!(ids, vec![50]),
        other => panic!("expected a release, got {:?}", other),
    }
    assert!(sessions.sessions().is_empty());
    assert_eq!(live.len(), 1);
    let v = reply_of(dispatch(with_session("detach"), &mut sessions, &mut live, &mut txns));
    assert_eq!(error_message_of(&v), "Session not found");
}

#[test]
fn attach_or_detach_without_session_is_invalid() {
    let mut sessions = SessionRegistry::new(Session::new(true));
    let mut live = LiveQueryRegistry::new();
    let mut txns: TransactionRegistry<Handle> = TransactionRegistry::new();
    for m in ["attach", "detach"] {
        let v = reply_of(dispatch(request(m, vec![]), &mut sessions, &mut live, &mut txns));
        assert_eq!(error_message_of(&v), "Invalid params");
    }
    assert!(sessions.contains(None));
}
