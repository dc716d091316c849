//! The request dispatcher and the connection-level operations around it.
//! The dispatcher decides and keeps the registries; the host performs the
//! engine call that a step asks for and hands the outcome back to be wrapped
//! in a response.
use vstd::prelude::*;
use crate::entries::{entries_map, keys_distinct};
use crate::envelope::{
    RpcError, Request, error_code, error_message, failure, is_error_response, is_success_response,
    success,
};
use crate::live::{LiveQueryRegistry, of_session, without_session};
use crate::notifications::NotificationChannel;
use crate::sessions::{
    NamespaceDatabase, Nullable, Session, SessionRegistry, invalidated, is_reset, selected,
    var_assigned, var_removed,
};
use crate::transactions::{TransactionRegistry, began};
use crate::value::{text_eq, Value};

verus! {

/// The methods of the protocol.
pub open spec fn known_method(m: Seq<char>) -> bool {
    ||| m == "attach"@
        || m == "detach"@
        || m == "ping"@
        || m == "info"@
        || m == "use"@
        || m == "signup"@
        || m == "signin"@
        || m == "authenticate"@
        || m == "invalidate"@
        || m == "reset"@
        || m == "kill"@
        || m == "live"@
        || m == "let"@
        || m == "set"@
        || m == "unset"@
        || m == "select"@
        || m == "insert"@
        || m == "insert_relation"@
        || m == "create"@
        || m == "upsert"@
        || m == "update"@
        || m == "merge"@
        || m == "patch"@
        || m == "delete"@
        || m == "version"@
        || m == "query"@
        || m == "relate"@
        || m == "run"@
        || m == "graphql"@
        || m == "begin"@
        || m == "commit"@
        || m == "cancel"@
}

/// Whether `m` is a method of the protocol.
pub fn is_known_method(m: &str) -> (r: bool)
    ensures
        r == known_method(m@),
{
    text_eq(m, "attach")
        || text_eq(m, "detach")
        || text_eq(m, "ping")
        || text_eq(m, "info")
        || text_eq(m, "use")
        || text_eq(m, "signup")
        || text_eq(m, "signin")
        || text_eq(m, "authenticate")
        || text_eq(m, "invalidate")
        || text_eq(m, "reset")
        || text_eq(m, "kill")
        || text_eq(m, "live")
        || text_eq(m, "let")
        || text_eq(m, "set")
        || text_eq(m, "unset")
        || text_eq(m, "select")
        || text_eq(m, "insert")
        || text_eq(m, "insert_relation")
        || text_eq(m, "create")
        || text_eq(m, "upsert")
        || text_eq(m, "update")
        || text_eq(m, "merge")
        || text_eq(m, "patch")
        || text_eq(m, "delete")
        || text_eq(m, "version")
        || text_eq(m, "query")
        || text_eq(m, "relate")
        || text_eq(m, "run")
        || text_eq(m, "graphql")
        || text_eq(m, "begin")
        || text_eq(m, "commit")
        || text_eq(m, "cancel")
}

/// What the host does next for a request.
#[derive(Debug)]
pub enum Step<H> {
    /// Send this response; no engine call is needed.
    Reply(Value),
    /// Ask the engine for a new transaction, then call `begin_response`.
    Begin,
    /// Commit this transaction, now removed from the registry, then call `finish_unit`.
    Commit(H),
    /// Cancel this transaction, now removed from the registry, then call `finish_unit`.
    Cancel(H),
    /// Release this live query on the engine, now removed from the registry,
    /// then call `finish_unit`.
    Kill(u128),
    /// Release these live queries on the engine, now removed from the
    /// registry with their session, then reply `{result: null}`.
    Release(Vec<u128>),
    /// Run the method on the engine, then call `record_live` and `finish`.
    Forward(Forward<H>),
}

/// A request that the engine runs, with its session and transaction resolved.
#[derive(Debug)]
pub struct Forward<H> {
    pub method: String,
    pub params: Vec<Value>,
    /// The session, which exists (`None`: the default session).
    pub session: Option<u128>,
    /// The transaction, which was open when the request was dispatched.
    pub txn: Option<u128>,
    /// A copy of that transaction's handle, taken under the same lock.
    pub handle: Option<H>,
}

/// The identifier that commit, cancel and kill take as first parameter.
pub open spec fn id_param(params: Seq<Value>) -> Option<u128> {
    if params.len() > 0 {
        match params[0] {
            Value::Uuid(u) => Some(u),
            _ => None,
        }
    } else {
        None
    }
}

fn first_uuid(params: &Vec<Value>) -> (r: Option<u128>)
    ensures
        r == id_param(params@),
{
    if params.len() == 0 {
        return None;
    }
    match &params[0] {
        Value::Uuid(u) => Some(*u),
        _ => None,
    }
}

/// The update of one side of a `use` request that a parameter stands for:
/// null clears, a string selects; anything else is malformed.
pub open spec fn nullable_value(v: Value) -> Option<Nullable> {
    match v {
        Value::Null => Some(Nullable::Clear),
        Value::Str(s) => Some(Nullable::Assign(s)),
        _ => None,
    }
}

fn nullable_from_value(v: Value) -> (r: Option<Nullable>)
    ensures
        r == nullable_value(v),
{
    match v {
        Value::Null => Some(Nullable::Clear),
        Value::Str(s) => Some(Nullable::Assign(s)),
        _ => None,
    }
}

/// One side of a `use` request: a missing parameter keeps the setting.
pub open spec fn use_side(params: Seq<Value>, i: int) -> Option<Nullable> {
    if i < params.len() {
        nullable_value(params[i])
    } else {
        Some(Nullable::Keep)
    }
}

/// The selection that the parameters `[namespace, database]` of `use` stand for.
pub open spec fn use_params(params: Seq<Value>) -> Option<NamespaceDatabase> {
    match (use_side(params, 0), use_side(params, 1)) {
        (Some(n), Some(d)) => Some(NamespaceDatabase { namespace: n, database: d }),
        _ => None,
    }
}

fn take_use_params(params: Vec<Value>) -> (r: Option<NamespaceDatabase>)
    ensures
        r == use_params(params@),
{
    let mut p = params;
    let ghost orig = p@;
    let database = if p.len() >= 2 {
        nullable_from_value(p.remove(1))
    } else {
        Some(Nullable::Keep)
    };
    proof {
        if orig.len() >= 2 {
            assert(p@[0] == orig[0]);
        }
    }
    let namespace = if p.len() >= 1 {
        nullable_from_value(p.remove(0))
    } else {
        Some(Nullable::Keep)
    };
    match (namespace, database) {
        (Some(n), Some(d)) => Some(NamespaceDatabase { namespace: n, database: d }),
        _ => None,
    }
}

/// The name and value that the parameters `[name, value]` of `set` stand for.
pub open spec fn var_params(params: Seq<Value>) -> Option<(String, Value)> {
    if params.len() >= 2 {
        match params[0] {
            Value::Str(n) => Some((n, params[1])),
            _ => None,
        }
    } else {
        None
    }
}

fn take_var_params(params: Vec<Value>) -> (r: Option<(String, Value)>)
    ensures
        r == var_params(params@),
{
    let mut p = params;
    if p.len() < 2 {
        return None;
    }
    let v = p.remove(1);
    match p.remove(0) {
        Value::Str(n) => Some((n, v)),
        _ => None,
    }
}

/// The variable name that the first parameter of `unset` stands for.
pub open spec fn name_param(params: Seq<Value>) -> Option<Seq<char>> {
    if params.len() > 0 {
        match params[0] {
            Value::Str(n) => Some(n@),
            _ => None,
        }
    } else {
        None
    }
}

fn first_name(params: &Vec<Value>) -> (r: Option<&str>)
    ensures
        r is None <==> name_param(params@) is None,
        r matches Some(n) ==> name_param(params@) == Some(n@),
{
    if params.len() == 0 {
        return None;
    }
    match &params[0] {
        Value::Str(n) => Some(n.as_str()),
        _ => None,
    }
}

/// Whether `step` is the reply that carries `e`.
pub open spec fn replies_error<H>(step: Step<H>, e: RpcError) -> bool {
    step matches Step::Reply(v) && is_error_response(v, error_code(e), error_message(e))
}

/// Whether `step` is the reply `{result: null}`.
pub open spec fn replies_done<H>(step: Step<H>) -> bool {
    step matches Step::Reply(v) && is_success_response(v, Value::Null)
}

/// A session as `attach` creates it: nothing selected, not authenticated,
/// no variables, real-time.
pub open spec fn fresh_session(s: Session) -> bool {
    &&& s.namespace is None
    &&& s.database is None
    &&& s.token is None
    &&& s.variables@.len() == 0
    &&& s.rt
}

/// What `dispatch` does with a request, given the sessions (`sb`, `sa`), the
/// live queries (`lb`, `la`) and the open transactions before and after.
pub open spec fn dispatched<H>(
    req: Request,
    sb: Map<Option<u128>, Session>,
    sa: Map<Option<u128>, Session>,
    lb: Map<u128, Option<u128>>,
    la: Map<u128, Option<u128>>,
    before: Map<u128, H>,
    after: Map<u128, H>,
    r: Step<H>,
) -> bool {
    let m = req.method@;
    let sid = req.session;
    if m == "attach"@ {
        &&& la == lb
        &&& after == before
        &&& if sid is None {
            replies_error(r, RpcError::InvalidParams) && sa == sb
        } else if sb.contains_key(sid) {
            replies_done(r) && sa == sb
        } else {
            replies_done(r) && sa == sb.insert(sid, sa[sid]) && fresh_session(sa[sid])
        }
    } else if !sb.contains_key(sid) {
        replies_error(r, RpcError::SessionNotFound) && sa == sb && la == lb && after == before
    } else if !known_method(m) {
        replies_error(r, RpcError::MethodNotFound) && sa == sb && la == lb && after == before
    } else if m == "begin"@ {
        r is Begin && sa == sb && la == lb && after == before
    } else if m == "commit"@ || m == "cancel"@ {
        &&& sa == sb
        &&& la == lb
        &&& match id_param(req.params@) {
            None => replies_error(r, RpcError::InvalidParams) && after == before,
            Some(id) => if before.contains_key(id) {
                &&& after == before.remove(id)
                &&& m == "commit"@ ==> r == Step::Commit(before[id])
                &&& m == "cancel"@ ==> r == Step::Cancel(before[id])
            } else {
                replies_error(r, RpcError::TransactionNotFound) && after == before
            },
        }
    } else if m == "detach"@ {
        &&& after == before
        &&& if sid is None {
            replies_error(r, RpcError::InvalidParams) && sa == sb && la == lb
        } else {
            &&& sa == sb.remove(sid)
            &&& la == without_session(lb, sid)
            &&& r matches Step::Release(v) && v@.to_set() == of_session(lb, sid) && v@.no_duplicates()
        }
    } else if m == "kill"@ {
        &&& sa == sb
        &&& after == before
        &&& match id_param(req.params@) {
            None => replies_error(r, RpcError::InvalidParams) && la == lb,
            Some(q) => if lb.contains_key(q) {
                r == Step::<H>::Kill(q) && la == lb.remove(q)
            } else {
                replies_error(r, RpcError::LiveQueryNotFound) && la == lb
            },
        }
    } else if m == "use"@ {
        &&& la == lb
        &&& after == before
        &&& match use_params(req.params@) {
            None => replies_error(r, RpcError::InvalidParams) && sa == sb,
            Some(nsdb) => replies_done(r) && sa == sb.insert(sid, sa[sid]) && selected(
                sb[sid],
                sa[sid],
                nsdb,
            ),
        }
    } else if m == "set"@ || m == "let"@ {
        &&& la == lb
        &&& after == before
        &&& match var_params(req.params@) {
            None => replies_error(r, RpcError::InvalidParams) && sa == sb,
            Some((n, v)) => replies_done(r) && sa == sb.insert(sid, sa[sid]) && var_assigned(
                sb[sid],
                sa[sid],
                n@,
                v,
            ),
        }
    } else if m == "unset"@ {
        &&& la == lb
        &&& after == before
        &&& match name_param(req.params@) {
            None => replies_error(r, RpcError::InvalidParams) && sa == sb,
            Some(n) => replies_done(r) && sa == sb.insert(sid, sa[sid]) && var_removed(
                sb[sid],
                sa[sid],
                n,
            ),
        }
    } else if m == "invalidate"@ {
        &&& la == lb
        &&& after == before
        &&& replies_done(r)
        &&& sa == sb.insert(sid, sa[sid])
        &&& invalidated(sb[sid], sa[sid])
    } else if m == "reset"@ {
        &&& la == lb
        &&& after == before
        &&& replies_done(r)
        &&& sa == sb.insert(sid, sa[sid])
        &&& is_reset(sb[sid], sa[sid])
    } else {
        &&& sa == sb
        &&& la == lb
        &&& after == before
        &&& req.txn is Some && !before.contains_key(req.txn->0) ==> replies_error(
            r,
            RpcError::TransactionNotFound,
        )
        &&& (req.txn is Some ==> before.contains_key(req.txn->0)) ==> (r matches Step::Forward(f)
            && f.method == req.method && f.params == req.params && f.session == req.session
            && f.txn == req.txn && (f.handle is Some <==> req.txn is Some))
    }
}

/// Dispatches a request. The session must exist and the method must be one
/// of the protocol's. `attach` creates the named session of the request
/// (before the session check), `detach` ends it and hands out its live
/// queries for release. `begin` asks for a new transaction. `commit` and
/// `cancel` take the transaction named by their first parameter out of the
/// registry and hand it over, or reply "transaction not found"; `kill` does
/// the same with a live query. `use`, `set` (or `let`), `unset`,
/// `invalidate` and `reset` change the request's session and reply
/// `{result: null}`. Any other method is forwarded, with its transaction,
/// which must be open. No malformed or unknown request reaches the engine.
pub fn dispatch<H: Clone>(
    req: Request,
    sessions: &mut SessionRegistry,
    live: &mut LiveQueryRegistry,
    txns: &mut TransactionRegistry<H>,
) -> (r: Step<H>)
    requires
        old(sessions).wf(),
        old(live).wf(),
        old(txns).wf(),
    ensures
        final(sessions).wf(),
        final(live).wf(),
        final(txns).wf(),
        final(txns).high_water() == old(txns).high_water(),
        dispatched(
            req,
            old(sessions)@,
            final(sessions)@,
            old(live)@,
            final(live)@,
            old(txns)@,
            final(txns)@,
            r,
        ),
{
    let sid = req.session;
    if text_eq(req.method.as_str(), "attach") {
        return match sid {
            None => Step::Reply(failure(&RpcError::InvalidParams)),
            Some(_) => {
                if !sessions.contains(sid) {
                    sessions.set(sid, Session::new(true));
                }
                Step::Reply(success(Value::Null))
            },
        };
    }
    if !sessions.contains(sid) {
        return Step::Reply(failure(&RpcError::SessionNotFound));
    }
    if !is_known_method(req.method.as_str()) {
        return Step::Reply(failure(&RpcError::MethodNotFound));
    }
    if text_eq(req.method.as_str(), "begin") {
        return Step::Begin;
    }
    let is_commit = text_eq(req.method.as_str(), "commit");
    let is_cancel = text_eq(req.method.as_str(), "cancel");
    if is_commit || is_cancel {
        proof {
            reveal_strlit("commit");
            reveal_strlit("cancel");
            assert("commit"@[1] != "cancel"@[1]);
        }
        return match first_uuid(&req.params) {
            None => Step::Reply(failure(&RpcError::InvalidParams)),
            Some(id) => match txns.take(id) {
                None => {
                    proof {
                        assert(txns@ =~= old(txns)@);
                    }
                    Step::Reply(failure(&RpcError::TransactionNotFound))
                },
                Some(h) => if is_commit {
                    Step::Commit(h)
                } else {
                    Step::Cancel(h)
                },
            },
        };
    }
    if text_eq(req.method.as_str(), "detach") {
        return match sid {
            None => Step::Reply(failure(&RpcError::InvalidParams)),
            Some(k) => Step::Release(end_session(sessions, live, k)),
        };
    }
    if text_eq(req.method.as_str(), "kill") {
        return match first_uuid(&req.params) {
            None => Step::Reply(failure(&RpcError::InvalidParams)),
            Some(q) => if live.unregister(q) {
                Step::Kill(q)
            } else {
                proof {
                    assert(live@ =~= old(live)@);
                }
                Step::Reply(failure(&RpcError::LiveQueryNotFound))
            },
        };
    }
    if text_eq(req.method.as_str(), "use") {
        return match take_use_params(req.params) {
            None => Step::Reply(failure(&RpcError::InvalidParams)),
            Some(nsdb) => {
                sessions.yuse(sid, nsdb);
                Step::Reply(success(Value::Null))
            },
        };
    }
    if text_eq(req.method.as_str(), "set") || text_eq(req.method.as_str(), "let") {
        return match take_var_params(req.params) {
            None => Step::Reply(failure(&RpcError::InvalidParams)),
            Some((n, v)) => {
                sessions.set_var(sid, n, v);
                Step::Reply(success(Value::Null))
            },
        };
    }
    if text_eq(req.method.as_str(), "unset") {
        return match first_name(&req.params) {
            None => Step::Reply(failure(&RpcError::InvalidParams)),
            Some(n) => {
                sessions.unset_var(sid, n);
                Step::Reply(success(Value::Null))
            },
        };
    }
    if text_eq(req.method.as_str(), "invalidate") {
        sessions.invalidate(sid);
        return Step::Reply(success(Value::Null));
    }
    if text_eq(req.method.as_str(), "reset") {
        sessions.reset(sid);
        return Step::Reply(success(Value::Null));
    }
    let handle = match req.txn {
        None => None,
        Some(t) => match txns.get(t) {
            None => {
                return Step::Reply(failure(&RpcError::TransactionNotFound));
            },
            Some(h) => Some(h.clone()),
        },
    };
    Step::Forward(
        Forward {
            method: req.method,
            params: req.params,
            session: req.session,
            txn: req.txn,
            handle,
        },
    )
}

/// What `record_live` does: a `live` request that the engine answered with
/// an identifier becomes a subscription of the request's session; any other
/// outcome leaves the registry as it was.
pub open spec fn recorded<H>(
    f: Forward<H>,
    outcome: Result<Value, RpcError>,
    lb: Map<u128, Option<u128>>,
    la: Map<u128, Option<u128>>,
) -> bool {
    match outcome {
        Ok(Value::Uuid(q)) => if f.method@ == "live"@ {
            la == lb.insert(q, f.session)
        } else {
            la == lb
        },
        _ => la == lb,
    }
}

/// Records the subscription that a forwarded `live` request created.
pub fn record_live<H>(
    live: &mut LiveQueryRegistry,
    f: &Forward<H>,
    outcome: &Result<Value, RpcError>,
)
    requires
        old(live).wf(),
    ensures
        final(live).wf(),
        recorded(*f, *outcome, old(live)@, final(live)@),
{
    if text_eq(f.method.as_str(), "live") {
        if let Ok(Value::Uuid(q)) = outcome {
            live.register(*q, f.session);
        }
    }
}

/// Registers the transaction that the engine began and replies with its
/// identifier. When no identifier is left, replies with that error and hands
/// the handle back, so that the host can cancel it.
pub fn begin_response<H>(txns: &mut TransactionRegistry<H>, handle: H) -> (r: (Value, Option<H>))
    requires
        old(txns).wf(),
    ensures
        final(txns).wf(),
        r.1 is None ==> exists|id: u128|
            began(*old(txns), *final(txns), id) && final(txns)@ == old(txns)@.insert(id, handle)
                && is_success_response(r.0, Value::Uuid(id)),
        r.1 is Some ==> r.1 == Some(handle) && final(txns)@ == old(txns)@ && old(txns).high_water()
            == u128::MAX && is_error_response(
            r.0,
            error_code(RpcError::IdentifiersExhausted),
            error_message(RpcError::IdentifiersExhausted),
        ),
{
    match txns.begin(handle) {
        Ok(id) => (success(Value::Uuid(id)), None),
        Err(h) => (failure(&RpcError::IdentifiersExhausted), Some(h)),
    }
}

/// The response to an engine call that returns a value.
pub fn finish(outcome: Result<Value, RpcError>) -> (r: Value)
    ensures
        outcome matches Ok(v) ==> is_success_response(r, v),
        outcome matches Err(e) ==> is_error_response(r, error_code(e), error_message(e)),
{
    crate::envelope::respond(outcome)
}

/// The response to a commit, cancel or kill: `{result: null}`, or the engine's error.
pub fn finish_unit(outcome: Result<(), RpcError>) -> (r: Value)
    ensures
        outcome is Ok ==> is_success_response(r, Value::Null),
        outcome matches Err(e) ==> is_error_response(r, error_code(e), error_message(e)),
{
    match outcome {
        Ok(()) => success(Value::Null),
        Err(e) => failure(&e),
    }
}

/// Opens the notification stream of a connection, or refuses at once, with
/// no channel made, when the engine has no notification source.
pub fn open_notifications(source_present: bool) -> (r: Result<NotificationChannel, RpcError>)
    ensures
        source_present ==> (r matches Ok(c) && c.wf() && c.accepted().len() == 0
            && c.queued().len() == 0 && !c.is_closed() && !c.is_abandoned()),
        !source_present ==> r matches Err(RpcError::NotificationsNotEnabled),
{
    if source_present {
        Ok(NotificationChannel::new())
    } else {
        Err(RpcError::NotificationsNotEnabled)
    }
}

/// Ends a named session: removes it and drains its live queries, whose
/// identifiers are returned so that each is released on the engine once.
pub fn end_session(sessions: &mut SessionRegistry, live: &mut LiveQueryRegistry, id: u128) -> (r: Vec<
    u128,
>)
    requires
        old(sessions).wf(),
        old(live).wf(),
    ensures
        final(sessions).wf(),
        final(live).wf(),
        final(sessions)@ == old(sessions)@.remove(Some(id)),
        final(live)@ == without_session(old(live)@, Some(id)),
        r@.to_set() == of_session(old(live)@, Some(id)),
        r@.no_duplicates(),
{
    let _ = sessions.remove(id);
    live.drain_for_session(Some(id))
}

/// Tears a connection down: removes every named session and resets the
/// default one, drains every live query and takes every open transaction's
/// handle, for the host to release and cancel.
pub fn teardown<H>(
    sessions: &mut SessionRegistry,
    live: &mut LiveQueryRegistry,
    txns: &mut TransactionRegistry<H>,
) -> (r: (Vec<u128>, Vec<(u128, H)>))
    requires
        old(sessions).wf(),
        old(live).wf(),
        old(txns).wf(),
    ensures
        final(sessions).wf(),
        final(live).wf(),
        final(txns).wf(),
        final(sessions)@ == Map::<Option<u128>, Session>::empty().insert(None, final(sessions)@[None]),
        is_reset(old(sessions)@[None], final(sessions)@[None]),
        final(live)@ == Map::<u128, Option<u128>>::empty(),
        final(txns)@ == Map::<u128, H>::empty(),
        final(txns).high_water() == old(txns).high_water(),
        r.0@.to_set() == old(live)@.dom(),
        r.0@.no_duplicates(),
        keys_distinct(r.1@),
        entries_map(r.1@) == old(txns)@,
{
    sessions.clear();
    let lqs = live.drain_all();
    let open = txns.take_all();
    (lqs, open)
}

/// A transaction is consumed once: after a commit or cancel has taken it, a
/// second commit or cancel of the same identifier, from any existing session,
/// replies "transaction not found" and reaches no engine.
pub proof fn lemma_consumed_transaction_not_found<H>(
    first: Request,
    second: Request,
    s0: Map<Option<u128>, Session>,
    s1: Map<Option<u128>, Session>,
    s2: Map<Option<u128>, Session>,
    l0: Map<u128, Option<u128>>,
    l1: Map<u128, Option<u128>>,
    l2: Map<u128, Option<u128>>,
    m0: Map<u128, H>,
    m1: Map<u128, H>,
    m2: Map<u128, H>,
    r1: Step<H>,
    r2: Step<H>,
)
    requires
        dispatched(first, s0, s1, l0, l1, m0, m1, r1),
        dispatched(second, s1, s2, l1, l2, m1, m2, r2),
        r1 is Commit || r1 is Cancel,
        second.method@ == "commit"@ || second.method@ == "cancel"@,
        s1.contains_key(second.session),
        id_param(second.params@) == id_param(first.params@),
    ensures
        replies_error(r2, RpcError::TransactionNotFound),
        m2 == m1,
{
    reveal_strlit("begin");
    reveal_strlit("commit");
    reveal_strlit("cancel");
    assert("begin"@.len() != "commit"@.len());
    assert("begin"@.len() != "cancel"@.len());
    reveal_strlit("attach");
    reveal_strlit("detach");
    assert("attach"@[0] != "commit"@[0] && "attach"@[0] != "cancel"@[0]);
    assert("detach"@[0] != "commit"@[0] && "detach"@[0] != "cancel"@[0]);
    assert(known_method("commit"@));
    assert(known_method("cancel"@));
}

/// A method that is not the protocol's is answered "method not found" with
/// no engine call and no registry changed.
pub proof fn lemma_unknown_method_refused<H>(
    req: Request,
    sb: Map<Option<u128>, Session>,
    sa: Map<Option<u128>, Session>,
    lb: Map<u128, Option<u128>>,
    la: Map<u128, Option<u128>>,
    before: Map<u128, H>,
    after: Map<u128, H>,
    r: Step<H>,
)
    requires
        dispatched(req, sb, sa, lb, la, before, after, r),
        sb.contains_key(req.session),
        !known_method(req.method@),
    ensures
        replies_error(r, RpcError::MethodNotFound),
        sa == sb,
        la == lb,
        after == before,
{
}

} // verus!
