//! The transaction registry: open transaction handles by identifier, each
//! owned by the registry until one `take` hands it out for commit or cancel.
use vstd::prelude::*;
use crate::entries::{entries_map, keys_distinct, Entries};
use crate::ids::time_ordered_id;

verus! {

/// Open transactions, keyed by identifier. Identifiers are issued in strictly
/// increasing order, so none is ever issued twice.
pub struct TransactionRegistry<H> {
    open: Entries<H>,
    issued: u128,
}

/// One `begin` that issued `id`: the identifier exceeds every one issued
/// before, becomes the new mark, and names an entry that was not there.
pub open spec fn began<H>(
    before: TransactionRegistry<H>,
    after: TransactionRegistry<H>,
    id: u128,
) -> bool {
    &&& id > before.high_water()
    &&& after.high_water() == id
    &&& !before@.contains_key(id)
    &&& after@.dom() == before@.dom().insert(id)
}

impl<H> View for TransactionRegistry<H> {
    type V = Map<u128, H>;

    closed spec fn view(&self) -> Map<u128, H> {
        self.open@
    }
}

impl<H> TransactionRegistry<H> {
    /// The greatest identifier issued so far (zero before the first).
    pub closed spec fn high_water(&self) -> u128 {
        self.issued
    }

    /// The registry's invariant: every open identifier is positive and none
    /// lies above the mark.
    pub closed spec fn wf(&self) -> bool {
        &&& self.open.wf()
        &&& forall|k: u128| #[trigger] self.open@.contains_key(k) ==> 0 < k <= self.issued
    }

    /// An empty registry that has issued nothing.
    pub fn new() -> (r: Self)
        ensures
            r.wf(),
            r@ == Map::<u128, H>::empty(),
            r.high_water() == 0,
    {
        TransactionRegistry { open: Entries::new(), issued: 0 }
    }

    /// The number of open transactions.
    pub fn len(&self) -> (r: usize)
        requires
            self.wf(),
        ensures
            r == self@.len(),
    {
        self.open.len()
    }

    /// Whether `id` names an open transaction.
    pub fn contains(&self, id: u128) -> (r: bool)
        requires
            self.wf(),
        ensures
            r == self@.contains_key(id),
    {
        self.open.contains(id)
    }

    /// Stores `handle` under `candidate` where that exceeds every identifier
    /// issued so far, else under the next identifier after the mark. Fails,
    /// handing the handle back, only when no identifier is left.
    pub fn begin_with(&mut self, candidate: u128, handle: H) -> (r: Result<u128, H>)
        requires
            old(self).wf(),
        ensures
            final(self).wf(),
            r matches Ok(id) ==> began(*old(self), *final(self), id) && final(self)@ == old(
                self,
            )@.insert(id, handle) && (candidate > old(self).high_water() ==> id == candidate)
                && (candidate <= old(self).high_water() ==> id == old(self).high_water() + 1),
            r matches Err(h) ==> h == handle && *final(self) == *old(self) && candidate
                <= old(self).high_water() && old(self).high_water() == u128::MAX,
    {
        let id = if candidate > self.issued {
            candidate
        } else if self.issued < u128::MAX {
            self.issued + 1
        } else {
            return Err(handle);
        };
        let _ = self.open.insert(id, handle);
        self.issued = id;
        Ok(id)
    }

    /// Opens a transaction under a fresh time-ordered identifier.
    pub fn begin(&mut self, handle: H) -> (r: Result<u128, H>)
        requires
            old(self).wf(),
        ensures
            final(self).wf(),
            r matches Ok(id) ==> began(*old(self), *final(self), id) && final(self)@ == old(
                self,
            )@.insert(id, handle),
            r matches Err(h) ==> h == handle && *final(self) == *old(self)
                && old(self).high_water() == u128::MAX,
    {
        let candidate = time_ordered_id();
        self.begin_with(candidate, handle)
    }

    /// Removes the transaction `id` and hands out its handle, or `None` when
    /// `id` names no open transaction. The mark is kept, so `id` is never
    /// issued again.
    pub fn take(&mut self, id: u128) -> (r: Option<H>)
        requires
            old(self).wf(),
        ensures
            final(self).wf(),
            final(self)@ == old(self)@.remove(id),
            final(self).high_water() == old(self).high_water(),
            old(self)@.contains_key(id) ==> r == Some(old(self)@[id]),
            !old(self)@.contains_key(id) ==> r is None,
    {
        self.open.remove(id)
    }

    /// Removes every open transaction and hands out the identifiers and
    /// handles. The mark is kept.
    pub fn take_all(&mut self) -> (r: Vec<(u128, H)>)
        requires
            old(self).wf(),
        ensures
            final(self).wf(),
            final(self)@ == Map::<u128, H>::empty(),
            final(self).high_water() == old(self).high_water(),
            keys_distinct(r@),
            entries_map(r@) == old(self)@,
    {
        self.open.take_all()
    }

    /// The handle of the open transaction `id`, if there is one.
    pub fn get(&self, id: u128) -> (r: Option<&H>)
        requires
            self.wf(),
        ensures
            self@.contains_key(id) ==> r == Some(&self@[id]),
            !self@.contains_key(id) ==> r is None,
    {
        self.open.get(id)
    }
}

/// Identifiers that consecutive `begin` calls return are pairwise distinct:
/// each one exceeds all that came before it.
pub proof fn lemma_begin_ids_distinct<H>(states: Seq<TransactionRegistry<H>>, ids: Seq<u128>)
    requires
        states.len() == ids.len() + 1,
        forall|i: int| 0 <= i < ids.len() ==> began(states[i], #[trigger] states[i + 1], ids[i]),
    ensures
        forall|i: int, j: int| 0 <= i < j < ids.len() ==> ids[i] < ids[j],
        forall|i: int, j: int|
            0 <= i < ids.len() && 0 <= j < ids.len() && i != j ==> #[trigger] ids[i] != #[trigger] ids[j],
{
    assert forall|i: int, j: int| 0 <= i < j < ids.len() implies ids[i] < ids[j] by {
        lemma_marks_grow(states, ids, i, j);
    }
}

proof fn lemma_marks_grow<H>(states: Seq<TransactionRegistry<H>>, ids: Seq<u128>, i: int, j: int)
    requires
        states.len() == ids.len() + 1,
        forall|k: int| 0 <= k < ids.len() ==> began(states[k], #[trigger] states[k + 1], ids[k]),
        0 <= i < j < ids.len(),
    ensures
        ids[i] < ids[j],
    decreases j - i,
{
    assert(began(states[j], states[j + 1], ids[j]));
    assert(began(states[i], states[i + 1], ids[i]));
    if j > i + 1 {
        lemma_marks_grow(states, ids, i, j - 1);
        let k = j - 1;
        assert(began(states[k], states[k + 1], ids[k]));
    }
}

} // verus!
