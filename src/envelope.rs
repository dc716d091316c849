//! Request and response envelopes. A request is an object with a `method`
//! string, optional `params` array and optional `txn` and `session`
//! identifiers; a response is `{result: v}` or `{error: {code, message}}`.
use vstd::prelude::*;
use crate::value::{field, is_object, single_entry, text, Value};

verus! {

/// A decoded request.
#[derive(Debug)]
pub struct Request {
    pub method: String,
    pub params: Vec<Value>,
    pub txn: Option<u128>,
    pub session: Option<u128>,
}

/// Why bytes that decoded to a value do not form a request: a transport-level
/// failure, reported apart from protocol errors.
#[derive(Debug, Clone, Copy, PartialEq, Eq, Structural)]
pub enum DecodeError {
    NotAnObject,
    MissingMethod,
    InvalidMethod,
    InvalidParams,
    InvalidTxn,
    InvalidSession,
}

/// The parameters that an optional `params` entry stands for; `None` when it is malformed.
pub open spec fn params_of(f: Option<Value>) -> Option<Seq<Value>> {
    match f {
        None => Some(Seq::empty()),
        Some(Value::Null) => Some(Seq::empty()),
        Some(Value::Array(v)) => Some(v@),
        _ => None,
    }
}

/// The identifier that an optional identifier entry stands for; `None` when it is malformed.
pub open spec fn id_of(f: Option<Value>) -> Option<Option<u128>> {
    match f {
        None => Some(None),
        Some(Value::Null) => Some(None),
        Some(Value::Uuid(u)) => Some(Some(u)),
        _ => None,
    }
}

/// The first check that the entries of a request object fail, if any.
pub open spec fn request_error(e: Seq<(String, Value)>) -> Option<DecodeError> {
    if field(e, "method"@) is None {
        Some(DecodeError::MissingMethod)
    } else if !(field(e, "method"@) matches Some(Value::Str(_))) {
        Some(DecodeError::InvalidMethod)
    } else if params_of(field(e, "params"@)) is None {
        Some(DecodeError::InvalidParams)
    } else if id_of(field(e, "txn"@)) is None {
        Some(DecodeError::InvalidTxn)
    } else if id_of(field(e, "session"@)) is None {
        Some(DecodeError::InvalidSession)
    } else {
        None
    }
}

/// Whether `req` is what the entries of a well-formed request object say.
pub open spec fn request_from(e: Seq<(String, Value)>, req: Request) -> bool {
    &&& field(e, "method"@) == Some(Value::Str(req.method))
    &&& params_of(field(e, "params"@)) == Some(req.params@)
    &&& id_of(field(e, "txn"@)) == Some(req.txn)
    &&& id_of(field(e, "session"@)) == Some(req.session)
}

fn params_from(f: Option<Value>) -> (r: Option<Vec<Value>>)
    ensures
        params_of(f) is None <==> r is None,
        r matches Some(p) ==> params_of(f) == Some(p@),
{
    match f {
        None => Some(Vec::new()),
        Some(Value::Null) => Some(Vec::new()),
        Some(Value::Array(v)) => Some(v),
        _ => None,
    }
}

fn id_from(f: Option<Value>) -> (r: Option<Option<u128>>)
    ensures
        r == id_of(f),
{
    match f {
        None => Some(None),
        Some(Value::Null) => Some(None),
        Some(Value::Uuid(u)) => Some(Some(u)),
        _ => None,
    }
}

/// Reads a request from a decoded value.
pub fn decode_request(v: Value) -> (r: Result<Request, DecodeError>)
    ensures
        !(v matches Value::Object(_)) ==> r == Err::<Request, DecodeError>(DecodeError::NotAnObject),
        v matches Value::Object(e) ==> match request_error(e@) {
            Some(err) => r == Err::<Request, DecodeError>(err),
            None => r matches Ok(req) && request_from(e@, req),
        },
{
    let mut entries = match v {
        Value::Object(e) => e,
        _ => {
            return Err(DecodeError::NotAnObject);
        },
    };
    let ghost all = entries@;
    let ghost n = all.len();
    let mut method: Option<Value> = None;
    let mut params: Option<Value> = None;
    let mut txn: Option<Value> = None;
    let mut session: Option<Value> = None;
    while entries.len() > 0
        invariant
            entries@ == all.subrange(0, entries@.len() as int),
            entries@.len() <= n,
            n == all.len(),
            method == field(all.subrange(entries@.len() as int, n as int), "method"@),
            params == field(all.subrange(entries@.len() as int, n as int), "params"@),
            txn == field(all.subrange(entries@.len() as int, n as int), "txn"@),
            session == field(all.subrange(entries@.len() as int, n as int), "session"@),
        decreases entries@.len(),
    {
        let ghost i = entries@.len() - 1;
        let (name, value) = entries.pop().unwrap();
        proof {
            let tail = all.subrange(i + 1, n as int);
            let longer = all.subrange(i, n as int);
            assert(longer.drop_first() =~= tail);
            assert(longer[0] == all[i]);
            assert(entries@ =~= all.subrange(0, i));
            reveal_strlit("method");
            reveal_strlit("params");
            reveal_strlit("txn");
            reveal_strlit("session");
            assert("method"@[0] != "params"@[0]);
            assert("method"@.len() != "txn"@.len() && "method"@.len() != "session"@.len());
            assert("params"@.len() != "txn"@.len() && "params"@.len() != "session"@.len());
            assert("txn"@.len() != "session"@.len());
        }
        if crate::value::text_eq(name.as_str(), "method") {
            method = Some(value);
        } else if crate::value::text_eq(name.as_str(), "params") {
            params = Some(value);
        } else if crate::value::text_eq(name.as_str(), "txn") {
            txn = Some(value);
        } else if crate::value::text_eq(name.as_str(), "session") {
            session = Some(value);
        }
    }
    proof {
        assert(all.subrange(0, n as int) =~= all);
    }
    let method = match method {
        None => {
            return Err(DecodeError::MissingMethod);
        },
        Some(Value::Str(s)) => s,
        Some(_) => {
            return Err(DecodeError::InvalidMethod);
        },
    };
    let params = match params_from(params) {
        None => {
            return Err(DecodeError::InvalidParams);
        },
        Some(p) => p,
    };
    let txn = match id_from(txn) {
        None => {
            return Err(DecodeError::InvalidTxn);
        },
        Some(t) => t,
    };
    let session = match id_from(session) {
        None => {
            return Err(DecodeError::InvalidSession);
        },
        Some(s) => s,
    };
    Ok(Request { method, params, txn, session })
}

/// An error returned to the caller inside a response envelope.
#[derive(Debug)]
pub enum RpcError {
    /// The method name is not one that the dispatcher knows.
    MethodNotFound,
    /// A required parameter is missing or malformed.
    InvalidParams,
    /// The transaction identifier names no open transaction.
    TransactionNotFound,
    /// The session identifier names no session.
    SessionNotFound,
    /// The connection was not configured for real-time delivery.
    NotificationsNotEnabled,
    /// The live-query identifier names no subscription of this connection.
    LiveQueryNotFound,
    /// Every transaction identifier has been issued.
    IdentifiersExhausted,
    /// An error that the engine reported, passed on unchanged.
    Engine { code: i64, message: String },
}

/// Code of an unknown method.
pub const METHOD_NOT_FOUND: i64 = -32601;

/// Code of a missing or malformed parameter.
pub const INVALID_PARAMS: i64 = -32602;

/// Code of a transaction identifier that names no open transaction.
pub const TRANSACTION_NOT_FOUND: i64 = -32003;

/// Code of a session identifier that names no session.
pub const SESSION_NOT_FOUND: i64 = -32004;

/// Code of a notification stream asked of a connection without real-time delivery.
pub const NOTIFICATIONS_NOT_ENABLED: i64 = -32005;

/// Code of a live-query identifier that names no subscription.
pub const LIVE_QUERY_NOT_FOUND: i64 = -32006;

/// Code of a `begin` after the last transaction identifier was issued.
pub const IDENTIFIERS_EXHAUSTED: i64 = -32007;

/// The numeric code of an error.
pub open spec fn error_code(e: RpcError) -> i64 {
    match e {
        RpcError::MethodNotFound => METHOD_NOT_FOUND,
        RpcError::InvalidParams => INVALID_PARAMS,
        RpcError::TransactionNotFound => TRANSACTION_NOT_FOUND,
        RpcError::SessionNotFound => SESSION_NOT_FOUND,
        RpcError::NotificationsNotEnabled => NOTIFICATIONS_NOT_ENABLED,
        RpcError::LiveQueryNotFound => LIVE_QUERY_NOT_FOUND,
        RpcError::IdentifiersExhausted => IDENTIFIERS_EXHAUSTED,
        RpcError::Engine { code, .. } => code,
    }
}

/// The text of an error.
pub open spec fn error_message(e: RpcError) -> Seq<char> {
    match e {
        RpcError::MethodNotFound => "Method not found"@,
        RpcError::InvalidParams => "Invalid params"@,
        RpcError::TransactionNotFound => "Transaction not found"@,
        RpcError::SessionNotFound => "Session not found"@,
        RpcError::NotificationsNotEnabled => "Notifications not enabled"@,
        RpcError::LiveQueryNotFound => "Live query not found"@,
        RpcError::IdentifiersExhausted => "No transaction identifier is left"@,
        RpcError::Engine { message, .. } => message@,
    }
}

impl RpcError {
    /// The numeric code of the error.
    pub fn code(&self) -> (r: i64)
        ensures
            r == error_code(*self),
    {
        match self {
            RpcError::MethodNotFound => METHOD_NOT_FOUND,
            RpcError::InvalidParams => INVALID_PARAMS,
            RpcError::TransactionNotFound => TRANSACTION_NOT_FOUND,
            RpcError::SessionNotFound => SESSION_NOT_FOUND,
            RpcError::NotificationsNotEnabled => NOTIFICATIONS_NOT_ENABLED,
            RpcError::LiveQueryNotFound => LIVE_QUERY_NOT_FOUND,
            RpcError::IdentifiersExhausted => IDENTIFIERS_EXHAUSTED,
            RpcError::Engine { code, .. } => *code,
        }
    }

    /// The text of the error.
    pub fn message(&self) -> (r: String)
        ensures
            r@ == error_message(*self),
    {
        match self {
            RpcError::MethodNotFound => text("Method not found"),
            RpcError::InvalidParams => text("Invalid params"),
            RpcError::TransactionNotFound => text("Transaction not found"),
            RpcError::SessionNotFound => text("Session not found"),
            RpcError::NotificationsNotEnabled => text("Notifications not enabled"),
            RpcError::LiveQueryNotFound => text("Live query not found"),
            RpcError::IdentifiersExhausted => text("No transaction identifier is left"),
            RpcError::Engine { message, .. } => message.clone(),
        }
    }
}

/// Whether `r` is the success envelope `{result: v}`.
pub open spec fn is_success_response(r: Value, v: Value) -> bool {
    is_object(r, seq!["result"@], seq![v])
}

/// Whether `r` is the error envelope `{error: {code, message}}` with these contents.
pub open spec fn is_error_response(r: Value, code: i64, message: Seq<char>) -> bool {
    r matches Value::Object(e) && e@.len() == 1 && e@[0].0@ == "error"@ && error_body(
        e@[0].1,
        code,
        message,
    )
}

/// Whether `b` is the body `{code, message}` of an error envelope.
pub open spec fn error_body(b: Value, code: i64, message: Seq<char>) -> bool {
    b matches Value::Object(f) && f@.len() == 2 && f@[0].0@ == "code"@ && f@[0].1 == Value::Int(
        code,
    ) && f@[1].0@ == "message"@ && (f@[1].1 matches Value::Str(m) && m@ == message)
}

/// Wraps a result value: `{result: v}`.
pub fn success(v: Value) -> (r: Value)
    ensures
        is_success_response(r, v),
{
    single_entry("result", v)
}

/// Wraps an error: `{error: {code, message}}`.
pub fn failure(e: &RpcError) -> (r: Value)
    ensures
        is_error_response(r, error_code(*e), error_message(*e)),
{
    let mut f: Vec<(String, Value)> = Vec::new();
    f.push((text("code"), Value::Int(e.code())));
    f.push((text("message"), Value::Str(e.message())));
    single_entry("error", Value::Object(f))
}

/// The envelope of an outcome: its value, or its error.
pub fn respond(outcome: Result<Value, RpcError>) -> (r: Value)
    ensures
        outcome matches Ok(v) ==> is_success_response(r, v),
        outcome matches Err(e) ==> is_error_response(r, error_code(e), error_message(e)),
{
    match outcome {
        Ok(v) => success(v),
        Err(e) => failure(&e),
    }
}

} // verus!
