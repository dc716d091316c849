//! Sessions: the logical clients multiplexed over one connection, each with
//! its selected namespace and database, authentication and variables. The
//! default session (identifier `None`) exists for the connection's lifetime.
use vstd::prelude::*;
use crate::entries::Entries;
use crate::value::{field, text_eq, Value};

verus! {

/// An update of one optional setting: keep it, clear it, or set it.
#[derive(Debug, Clone)]
pub enum Nullable {
    Keep,
    Clear,
    Assign(String),
}

/// A change of the selected namespace and database.
#[derive(Debug, Clone)]
pub struct NamespaceDatabase {
    pub namespace: Nullable,
    pub database: Nullable,
}

/// What a host object holds under a property name.
#[derive(Debug, Clone)]
pub enum Property {
    Undefined,
    Null,
    Text(String),
    /// Anything else: a number, an object, ...
    Other,
}

/// Why a namespace/database selection was refused.
#[derive(Debug, Clone, Copy, PartialEq, Eq, Structural)]
pub enum NsDbError {
    /// The namespace was neither a string, null, nor undefined.
    NamespaceNotText,
    /// The database was neither a string, null, nor undefined.
    DatabaseNotText,
}

/// The update that a property stands for: undefined keeps, null clears, a
/// string sets; anything else has none.
pub open spec fn nullable_of(p: Property) -> Option<Nullable> {
    match p {
        Property::Undefined => Some(Nullable::Keep),
        Property::Null => Some(Nullable::Clear),
        Property::Text(s) => Some(Nullable::Assign(s)),
        Property::Other => None,
    }
}

fn nullable_from(p: Property) -> (r: Option<Nullable>)
    ensures
        r == nullable_of(p),
{
    match p {
        Property::Undefined => Some(Nullable::Keep),
        Property::Null => Some(Nullable::Clear),
        Property::Text(s) => Some(Nullable::Assign(s)),
        Property::Other => None,
    }
}

/// Reads a namespace/database selection from the two properties of a host object.
pub fn get_ns_db(namespace: Property, database: Property) -> (r: Result<NamespaceDatabase, NsDbError>)
    ensures
        nullable_of(namespace) is None ==> r == Err::<NamespaceDatabase, NsDbError>(
            NsDbError::NamespaceNotText,
        ),
        nullable_of(namespace) is Some && nullable_of(database) is None ==> r == Err::<
            NamespaceDatabase,
            NsDbError,
        >(NsDbError::DatabaseNotText),
        nullable_of(namespace) is Some && nullable_of(database) is Some ==> r == Ok::<
            NamespaceDatabase,
            NsDbError,
        >(
            NamespaceDatabase {
                namespace: nullable_of(namespace)->0,
                database: nullable_of(database)->0,
            },
        ),
{
    let namespace = match nullable_from(namespace) {
        Some(n) => n,
        None => {
            return Err(NsDbError::NamespaceNotText);
        },
    };
    let database = match nullable_from(database) {
        Some(d) => d,
        None => {
            return Err(NsDbError::DatabaseNotText);
        },
    };
    Ok(NamespaceDatabase { namespace, database })
}

/// A setting after an update.
pub open spec fn updated(current: Option<String>, u: Nullable) -> Option<String> {
    match u {
        Nullable::Keep => current,
        Nullable::Clear => None,
        Nullable::Assign(s) => Some(s),
    }
}

fn apply(current: Option<String>, u: Nullable) -> (r: Option<String>)
    ensures
        r == updated(current, u),
{
    match u {
        Nullable::Keep => current,
        Nullable::Clear => None,
        Nullable::Assign(s) => Some(s),
    }
}

/// `after` is `before` with the namespace/database selection applied.
pub open spec fn selected(before: Session, after: Session, nsdb: NamespaceDatabase) -> bool {
    &&& after.namespace == updated(before.namespace, nsdb.namespace)
    &&& after.database == updated(before.database, nsdb.database)
    &&& after.token == before.token
    &&& after.variables == before.variables
    &&& after.rt == before.rt
}

/// `after` is `before` with variable `name` set to `v` and nothing else changed.
pub open spec fn var_assigned(before: Session, after: Session, name: Seq<char>, v: Value) -> bool {
    &&& after.var(name) == Some(v)
    &&& forall|n: Seq<char>| n != name ==> #[trigger] after.var(n) == before.var(n)
    &&& after.namespace == before.namespace
    &&& after.database == before.database
    &&& after.token == before.token
    &&& after.rt == before.rt
}

/// `after` is `before` without variable `name` and nothing else changed.
pub open spec fn var_removed(before: Session, after: Session, name: Seq<char>) -> bool {
    &&& after.var(name) is None
    &&& forall|n: Seq<char>| n != name ==> #[trigger] after.var(n) == before.var(n)
    &&& after.namespace == before.namespace
    &&& after.database == before.database
    &&& after.token == before.token
    &&& after.rt == before.rt
}

/// `after` is `before` signed out.
pub open spec fn invalidated(before: Session, after: Session) -> bool {
    &&& after.token is None
    &&& after.namespace == before.namespace
    &&& after.database == before.database
    &&& after.variables == before.variables
    &&& after.rt == before.rt
}

/// `after` is a fresh session with `before`'s real-time flag.
pub open spec fn is_reset(before: Session, after: Session) -> bool {
    &&& after.namespace is None
    &&& after.database is None
    &&& after.token is None
    &&& after.variables@.len() == 0
    &&& after.rt == before.rt
}

/// One logical client.
#[derive(Debug)]
pub struct Session {
    pub namespace: Option<String>,
    pub database: Option<String>,
    /// The authentication token, once authenticated.
    pub token: Option<String>,
    /// Session variables, each name at most once.
    pub variables: Vec<(String, Value)>,
    /// Whether live queries may be started in this session.
    pub rt: bool,
}

/// `field` of a list with one more entry at its end.
proof fn lemma_field_push(e: Seq<(String, Value)>, x: (String, Value), n: Seq<char>)
    ensures
        field(e.push(x), n) == (if field(e, n) is Some {
            field(e, n)
        } else if x.0@ == n {
            Some(x.1)
        } else {
            None
        }),
    decreases e.len(),
{
    let p = e.push(x);
    if e.len() > 0 {
        assert(p.drop_first() =~= e.drop_first().push(x));
        assert(p[0] == e[0]);
        lemma_field_push(e.drop_first(), x, n);
        if e[0].0@ != n {
            assert(field(p, n) == field(p.drop_first(), n));
            assert(field(e, n) == field(e.drop_first(), n));
        }
    } else {
        assert(p[0] == x);
        assert(p.drop_first() =~= Seq::<(String, Value)>::empty());
        assert(field(p.drop_first(), n) is None);
        assert(field(e, n) is None);
    }
}

/// Removes every entry named `name`, keeping the others in order.
fn without_var(vars: Vec<(String, Value)>, name: &str) -> (r: Vec<(String, Value)>)
    ensures
        field(r@, name@) is None,
        forall|n: Seq<char>| n != name@ ==> #[trigger] field(r@, n) == field(vars@, n),
{
    let mut rest = vars;
    let ghost all = rest@;
    let ghost len = all.len();
    let mut kept: Vec<(String, Value)> = Vec::new();
    while rest.len() > 0
        invariant
            rest@ == all.subrange(0, rest@.len() as int),
            rest@.len() <= len,
            len == all.len(),
            field(kept@, name@) is None,
            forall|n: Seq<char>|
                n != name@ ==> #[trigger] field(kept@, n) == field(
                    all.subrange(rest@.len() as int, len as int),
                    n,
                ),
        decreases rest@.len(),
    {
        let ghost i = rest@.len() - 1;
        let ghost before = kept@;
        let (k, v) = rest.pop().unwrap();
        proof {
            let longer = all.subrange(i, len as int);
            assert(longer.drop_first() =~= all.subrange(i + 1, len as int));
            assert(longer[0] == all[i]);
            assert(rest@ =~= all.subrange(0, i));
        }
        let ghost key = k@;
        let ghost val = v;
        if !text_eq(k.as_str(), name) {
            kept.insert(0, (k, v));
            proof {
                assert(kept@.drop_first() =~= before);
                assert(kept@[0].0@ == key && kept@[0].1 == val);
            }
        }
        proof {
            let longer = all.subrange(i, len as int);
            assert(longer[0].0@ == key && longer[0].1 == val);
            assert forall|n: Seq<char>| n != name@ implies #[trigger] field(kept@, n) == field(
                longer,
                n,
            ) by {
                assert(field(before, n) == field(all.subrange(i + 1, len as int), n));
            }
        }
    }
    proof {
        assert(all.subrange(0, len as int) =~= all);
    }
    kept
}

impl Session {
    /// A fresh session: nothing selected, not authenticated, no variables.
    pub fn new(rt: bool) -> (r: Session)
        ensures
            r.namespace is None && r.database is None && r.token is None,
            r.variables@.len() == 0,
            r.rt == rt,
    {
        Session { namespace: None, database: None, token: None, variables: Vec::new(), rt }
    }

    /// Applies a namespace/database selection.
    pub fn yuse(&mut self, nsdb: NamespaceDatabase)
        ensures
            selected(*old(self), *final(self), nsdb),
    {
        let ns = self.namespace.take();
        self.namespace = apply(ns, nsdb.namespace);
        let db = self.database.take();
        self.database = apply(db, nsdb.database);
    }

    /// The value of variable `name`, if set.
    pub open spec fn var(&self, name: Seq<char>) -> Option<Value> {
        field(self.variables@, name)
    }

    /// Signs the session out: the authentication is dropped, all else stays.
    pub fn invalidate(&mut self)
        ensures
            invalidated(*old(self), *final(self)),
    {
        self.token = None;
    }

    /// Returns the session to its fresh state, keeping whether it is real-time.
    pub fn reset(&mut self)
        ensures
            is_reset(*old(self), *final(self)),
    {
        self.namespace = None;
        self.database = None;
        self.token = None;
        self.variables = Vec::new();
    }

    /// Sets variable `name` to `v`; the other variables stay.
    pub fn set_var(&mut self, name: String, v: Value)
        ensures
            var_assigned(*old(self), *final(self), name@, v),
    {
        let mut vars: Vec<(String, Value)> = Vec::new();
        std::mem::swap(&mut vars, &mut self.variables);
        let mut kept = without_var(vars, name.as_str());
        let ghost before = kept@;
        let ghost key = name@;
        kept.push((name, v));
        proof {
            assert forall|n: Seq<char>| true implies #[trigger] field(kept@, n) == (if field(
                before,
                n,
            ) is Some {
                field(before, n)
            } else if key == n {
                Some(v)
            } else {
                None
            }) by {
                lemma_field_push(before, kept@.last(), n);
                assert(kept@ == before.push(kept@.last()));
            }
        }
        self.variables = kept;
    }

    /// Removes variable `name`; the other variables stay.
    pub fn unset_var(&mut self, name: &str)
        ensures
            var_removed(*old(self), *final(self), name@),
    {
        let mut vars: Vec<(String, Value)> = Vec::new();
        std::mem::swap(&mut vars, &mut self.variables);
        self.variables = without_var(vars, name);
    }
}

/// The sessions of a connection: the default one, and the named ones by identifier.
pub struct SessionRegistry {
    default: Session,
    named: Entries<Session>,
}

impl View for SessionRegistry {
    type V = Map<Option<u128>, Session>;

    /// Every session by its identifier; `None` always maps to the default session.
    closed spec fn view(&self) -> Map<Option<u128>, Session> {
        Map::new(
            |id: Option<u128>|
                match id {
                    None => true,
                    Some(k) => self.named@.contains_key(k),
                },
            |id: Option<u128>|
                match id {
                    None => self.default,
                    Some(k) => self.named@[k],
                },
        )
    }
}

impl SessionRegistry {
    /// The invariant of the named sessions' map.
    pub closed spec fn wf(&self) -> bool {
        self.named.wf()
    }

    /// A registry that holds the default session alone.
    pub fn new(default: Session) -> (r: Self)
        ensures
            r.wf(),
            r@ == Map::<Option<u128>, Session>::empty().insert(None, default),
    {
        let r = SessionRegistry { default, named: Entries::new() };
        proof {
            assert(r@ =~= Map::<Option<u128>, Session>::empty().insert(None, default));
        }
        r
    }

    /// Whether `id` names a session; the default session always exists.
    pub fn contains(&self, id: Option<u128>) -> (r: bool)
        requires
            self.wf(),
        ensures
            r == self@.contains_key(id),
            id is None ==> r,
    {
        match id {
            None => true,
            Some(k) => self.named.contains(k),
        }
    }

    /// The session `id`, if there is one.
    pub fn get(&self, id: Option<u128>) -> (r: Option<&Session>)
        requires
            self.wf(),
        ensures
            self@.contains_key(id) ==> r == Some(&self@[id]),
            !self@.contains_key(id) ==> r is None,
    {
        match id {
            None => Some(&self.default),
            Some(k) => self.named.get(k),
        }
    }

    /// Stores `s` as session `id`, replacing what was there.
    pub fn set(&mut self, id: Option<u128>, s: Session)
        requires
            old(self).wf(),
        ensures
            final(self).wf(),
            final(self)@ == old(self)@.insert(id, s),
    {
        match id {
            None => {
                self.default = s;
            },
            Some(k) => {
                let _ = self.named.insert(k, s);
            },
        }
        proof {
            assert(self@ =~= old(self)@.insert(id, s));
        }
    }

    /// Removes the named session `id` and hands it out, if there was one. The
    /// default session cannot be removed.
    pub fn remove(&mut self, id: u128) -> (r: Option<Session>)
        requires
            old(self).wf(),
        ensures
            final(self).wf(),
            final(self)@ == old(self)@.remove(Some(id)),
            final(self)@.contains_key(None),
            old(self)@.contains_key(Some(id)) ==> r == Some(old(self)@[Some(id)]),
            !old(self)@.contains_key(Some(id)) ==> r is None,
    {
        let r = self.named.remove(id);
        proof {
            assert(self@ =~= old(self)@.remove(Some(id)));
        }
        r
    }

    /// Sets variable `name` of session `id`; every other session stays.
    pub fn set_var(&mut self, id: Option<u128>, name: String, v: Value)
        requires
            old(self).wf(),
            old(self)@.contains_key(id),
        ensures
            final(self).wf(),
            final(self)@ == old(self)@.insert(id, final(self)@[id]),
            var_assigned(old(self)@[id], final(self)@[id], name@, v),
    {
        match id {
            None => self.default.set_var(name, v),
            Some(k) => {
                let mut s = self.named.remove(k).unwrap();
                s.set_var(name, v);
                let _ = self.named.insert(k, s);
            },
        }
        proof {
            assert(self@ =~= old(self)@.insert(id, self@[id]));
        }
    }

    /// Removes variable `name` of session `id`; every other session stays.
    pub fn unset_var(&mut self, id: Option<u128>, name: &str)
        requires
            old(self).wf(),
            old(self)@.contains_key(id),
        ensures
            final(self).wf(),
            final(self)@ == old(self)@.insert(id, final(self)@[id]),
            var_removed(old(self)@[id], final(self)@[id], name@),
    {
        match id {
            None => self.default.unset_var(name),
            Some(k) => {
                let mut s = self.named.remove(k).unwrap();
                s.unset_var(name);
                let _ = self.named.insert(k, s);
            },
        }
        proof {
            assert(self@ =~= old(self)@.insert(id, self@[id]));
        }
    }

    /// Applies a namespace/database selection to session `id`; every other
    /// session stays.
    pub fn yuse(&mut self, id: Option<u128>, nsdb: NamespaceDatabase)
        requires
            old(self).wf(),
            old(self)@.contains_key(id),
        ensures
            final(self).wf(),
            final(self)@ == old(self)@.insert(id, final(self)@[id]),
            selected(old(self)@[id], final(self)@[id], nsdb),
    {
        match id {
            None => self.default.yuse(nsdb),
            Some(k) => {
                let mut s = self.named.remove(k).unwrap();
                s.yuse(nsdb);
                let _ = self.named.insert(k, s);
            },
        }
        proof {
            assert(self@ =~= old(self)@.insert(id, self@[id]));
        }
    }

    /// Signs session `id` out; every other session stays.
    pub fn invalidate(&mut self, id: Option<u128>)
        requires
            old(self).wf(),
            old(self)@.contains_key(id),
        ensures
            final(self).wf(),
            final(self)@ == old(self)@.insert(id, final(self)@[id]),
            invalidated(old(self)@[id], final(self)@[id]),
    {
        match id {
            None => self.default.invalidate(),
            Some(k) => {
                let mut s = self.named.remove(k).unwrap();
                s.invalidate();
                let _ = self.named.insert(k, s);
            },
        }
        proof {
            assert(self@ =~= old(self)@.insert(id, self@[id]));
        }
    }

    /// Resets session `id` to a fresh state; every other session stays.
    pub fn reset(&mut self, id: Option<u128>)
        requires
            old(self).wf(),
            old(self)@.contains_key(id),
        ensures
            final(self).wf(),
            final(self)@ == old(self)@.insert(id, final(self)@[id]),
            is_reset(old(self)@[id], final(self)@[id]),
    {
        match id {
            None => self.default.reset(),
            Some(k) => {
                let mut s = self.named.remove(k).unwrap();
                s.reset();
                let _ = self.named.insert(k, s);
            },
        }
        proof {
            assert(self@ =~= old(self)@.insert(id, self@[id]));
        }
    }

    /// Removes every named session and resets the default one.
    pub fn clear(&mut self)
        requires
            old(self).wf(),
        ensures
            final(self).wf(),
            final(self)@ == Map::<Option<u128>, Session>::empty().insert(None, final(self)@[None]),
            is_reset(old(self)@[None], final(self)@[None]),
    {
        self.named = Entries::new();
        self.default.reset();
        proof {
            assert(self@ =~= Map::<Option<u128>, Session>::empty().insert(None, self@[None]));
        }
    }

    /// The identifiers of the named sessions, each once.
    pub fn sessions(&self) -> (r: Vec<u128>)
        requires
            self.wf(),
        ensures
            forall|k: u128| r@.contains(k) <==> self@.contains_key(Some(k)),
            r@.no_duplicates(),
    {
        let r = self.named.keys();
        proof {
            assert forall|k: u128| r@.contains(k) <==> self@.contains_key(Some(k)) by {
                if r@.contains(k) {
                    assert(r@.to_set().contains(k));
                }
                if self@.contains_key(Some(k)) {
                    assert(r@.to_set().contains(k));
                }
            }
        }
        r
    }
}

} // verus!
