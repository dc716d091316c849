//! The live-query registry: which session registered each live query, so that
//! the subscriptions of a session, or of the whole connection, can be released.
use vstd::prelude::*;
use crate::entries::{entries_map, keys_distinct, lemma_entries_map_contains, Entries};

verus! {

/// Live-query identifiers, each with the session (`None`: the default
/// session) that registered it.
pub struct LiveQueryRegistry {
    subs: Entries<Option<u128>>,
}

/// The subscriptions of `m` that do not belong to `session`.
pub open spec fn without_session(m: Map<u128, Option<u128>>, session: Option<u128>) -> Map<
    u128,
    Option<u128>,
> {
    Map::new(|k: u128| m.contains_key(k) && m[k] != session, |k: u128| m[k])
}

/// The live queries of `m` that belong to `session`.
pub open spec fn of_session(m: Map<u128, Option<u128>>, session: Option<u128>) -> Set<u128> {
    Set::new(|k: u128| m.contains_key(k) && m[k] == session)
}

impl View for LiveQueryRegistry {
    type V = Map<u128, Option<u128>>;

    closed spec fn view(&self) -> Map<u128, Option<u128>> {
        self.subs@
    }
}

fn same_session(a: Option<u128>, b: Option<u128>) -> (r: bool)
    ensures
        r == (a == b),
{
    match (a, b) {
        (None, None) => true,
        (Some(x), Some(y)) => x == y,
        _ => false,
    }
}

impl LiveQueryRegistry {
    /// The invariant of the underlying map.
    pub closed spec fn wf(&self) -> bool {
        self.subs.wf()
    }

    /// A registry with no subscription.
    pub fn new() -> (r: Self)
        ensures
            r.wf(),
            r@ == Map::<u128, Option<u128>>::empty(),
    {
        LiveQueryRegistry { subs: Entries::new() }
    }

    /// The number of subscriptions.
    pub fn len(&self) -> (r: usize)
        requires
            self.wf(),
        ensures
            r == self@.len(),
    {
        self.subs.len()
    }

    /// The session that registered `lqid`: `None` when there is no such
    /// subscription, `Some(None)` for the default session.
    pub fn session_of(&self, lqid: u128) -> (r: Option<Option<u128>>)
        requires
            self.wf(),
        ensures
            self@.contains_key(lqid) ==> r == Some(self@[lqid]),
            !self@.contains_key(lqid) ==> r is None,
    {
        match self.subs.get(lqid) {
            Some(s) => Some(*s),
            None => None,
        }
    }

    /// Records that `session` registered the live query `lqid`.
    pub fn register(&mut self, lqid: u128, session: Option<u128>)
        requires
            old(self).wf(),
        ensures
            final(self).wf(),
            final(self)@ == old(self)@.insert(lqid, session),
    {
        let _ = self.subs.insert(lqid, session);
    }

    /// Removes the subscription `lqid`; says whether there was one, so that
    /// the engine-side registration is released exactly when it was.
    pub fn unregister(&mut self, lqid: u128) -> (r: bool)
        requires
            old(self).wf(),
        ensures
            final(self).wf(),
            final(self)@ == old(self)@.remove(lqid),
            r == old(self)@.contains_key(lqid),
    {
        self.subs.remove(lqid).is_some()
    }

    /// Removes every subscription of `session` and returns their identifiers,
    /// each once; the subscriptions of other sessions stay.
    pub fn drain_for_session(&mut self, session: Option<u128>) -> (r: Vec<u128>)
        requires
            old(self).wf(),
        ensures
            final(self).wf(),
            final(self)@ == without_session(old(self)@, session),
            r@.to_set() == of_session(old(self)@, session),
            r@.no_duplicates(),
    {
        let all = self.subs.take_all();
        let ghost m = entries_map(all@);
        let mut drained: Vec<u128> = Vec::new();
        let mut i: usize = 0;
        while i < all.len()
            invariant
                i <= all@.len(),
                keys_distinct(all@),
                self.subs.wf(),
                self@ == without_session(entries_map(all@.take(i as int)), session),
                drained@.to_set() == of_session(entries_map(all@.take(i as int)), session),
                drained@.no_duplicates(),
            decreases all@.len() - i,
        {
            let (k, s) = all[i];
            proof {
                let mi = entries_map(all@.take(i as int));
                assert(all@.take(i as int + 1).drop_last() =~= all@.take(i as int));
                assert(all@.take(i as int + 1).last() == all@[i as int]);
                lemma_entries_map_contains(all@.take(i as int), k);
                assert forall|j: int| 0 <= j < i implies (#[trigger] all@.take(i as int)[j]).0
                    != k by {
                    assert(all@.take(i as int)[j] == all@[j]);
                }
                assert(!mi.contains_key(k));
                assert(!drained@.contains(k)) by {
                    if drained@.contains(k) {
                        assert(drained@.to_set().contains(k));
                    }
                }
            }
            if same_session(s, session) {
                proof {
                    let mi = entries_map(all@.take(i as int));
                    let mn = entries_map(all@.take(i as int + 1));
                    assert(without_session(mn, session) =~= without_session(mi, session));
                    drained@.lemma_push_to_set_commute(k);
                    assert(of_session(mn, session) =~= of_session(mi, session).insert(k));
                }
                drained.push(k);
            } else {
                proof {
                    let mi = entries_map(all@.take(i as int));
                    let mn = entries_map(all@.take(i as int + 1));
                    assert(without_session(mn, session) =~= without_session(mi, session).insert(
                        k,
                        s,
                    ));
                    assert(of_session(mn, session) =~= of_session(mi, session));
                }
                let _ = self.subs.insert(k, s);
            }
            i = i + 1;
        }
        proof {
            assert(all@.take(all@.len() as int) =~= all@);
        }
        drained
    }

    /// Removes every subscription and returns their identifiers, each once.
    pub fn drain_all(&mut self) -> (r: Vec<u128>)
        requires
            old(self).wf(),
        ensures
            final(self).wf(),
            final(self)@ == Map::<u128, Option<u128>>::empty(),
            r@.to_set() == old(self)@.dom(),
            r@.no_duplicates(),
    {
        let all = self.subs.take_all();
        let mut ids: Vec<u128> = Vec::new();
        let mut i: usize = 0;
        while i < all.len()
            invariant
                i <= all@.len(),
                keys_distinct(all@),
                ids@.to_set() == entries_map(all@.take(i as int)).dom(),
                ids@.no_duplicates(),
            decreases all@.len() - i,
        {
            let (k, _) = all[i];
            proof {
                assert(all@.take(i as int + 1).drop_last() =~= all@.take(i as int));
                assert(all@.take(i as int + 1).last() == all@[i as int]);
                lemma_entries_map_contains(all@.take(i as int), k);
                assert forall|j: int| 0 <= j < i implies (#[trigger] all@.take(i as int)[j]).0
                    != k by {
                    assert(all@.take(i as int)[j] == all@[j]);
                }
                assert(!ids@.contains(k)) by {
                    if ids@.contains(k) {
                        assert(ids@.to_set().contains(k));
                    }
                }
                ids@.lemma_push_to_set_commute(k);
            }
            ids.push(k);
            proof {
                assert(ids@.to_set() =~= entries_map(all@.take(i as int + 1)).dom());
            }
            i = i + 1;
        }
        proof {
            assert(all@.take(all@.len() as int) =~= all@);
        }
        ids
    }
}

/// Draining one session removes exactly that session's subscriptions: every
/// subscription of another session stays, with its owner, and none of the
/// drained session is left.
pub proof fn lemma_drain_for_session_exact(
    before: Map<u128, Option<u128>>,
    session: Option<u128>,
    lqid: u128,
)
    ensures
        before.contains_key(lqid) && before[lqid] != session ==> without_session(
            before,
            session,
        ).contains_key(lqid) && without_session(before, session)[lqid] == before[lqid],
        !(without_session(before, session).contains_key(lqid) && without_session(
            before,
            session,
        )[lqid] == session),
        of_session(before, session).contains(lqid) <==> (before.contains_key(lqid)
            && before[lqid] == session),
        !(of_session(before, session).contains(lqid) && without_session(
            before,
            session,
        ).contains_key(lqid)),
{
}

} // verus!
