//! A finite map keyed by 128-bit identifiers, held as a list of entries with
//! distinct keys. The registries of a connection are built on it.
use vstd::prelude::*;

verus! {

/// The map that a list of entries with distinct keys stands for.
pub open spec fn entries_map<H>(entries: Seq<(u128, H)>) -> Map<u128, H>
    decreases entries.len(),
{
    if entries.len() == 0 {
        Map::empty()
    } else {
        entries_map(entries.drop_last()).insert(entries.last().0, entries.last().1)
    }
}

/// Whether the keys of a list of entries are pairwise distinct.
pub open spec fn keys_distinct<H>(entries: Seq<(u128, H)>) -> bool {
    forall|i: int, j: int|
        0 <= i < entries.len() && 0 <= j < entries.len() && i != j ==> (#[trigger] entries[i]).0
            != (#[trigger] entries[j]).0
}

pub proof fn lemma_entries_map_contains<H>(entries: Seq<(u128, H)>, k: u128)
    requires
        keys_distinct(entries),
    ensures
        entries_map(entries).contains_key(k) <==> exists|i: int|
            0 <= i < entries.len() && (#[trigger] entries[i]).0 == k,
        forall|i: int|
            0 <= i < entries.len() && (#[trigger] entries[i]).0 == k ==> entries_map(entries)[k]
                == entries[i].1,
    decreases entries.len(),
{
    if entries.len() > 0 {
        let init = entries.drop_last();
        assert(keys_distinct(init)) by {
            assert forall|i: int, j: int|
                0 <= i < init.len() && 0 <= j < init.len() && i != j implies (#[trigger] init[i]).0
                != (#[trigger] init[j]).0 by {
                assert(init[i] == entries[i] && init[j] == entries[j]);
            }
        }
        lemma_entries_map_contains(init, k);
        if entries_map(entries).contains_key(k) && entries.last().0 != k {
            let i = choose|i: int| 0 <= i < init.len() && (#[trigger] init[i]).0 == k;
            assert(entries[i] == init[i]);
        }
        assert forall|i: int|
            0 <= i < entries.len() && (#[trigger] entries[i]).0 == k implies entries_map(
            entries,
        )[k] == entries[i].1 by {
            if i < entries.len() - 1 {
                assert(init[i] == entries[i]);
                assert(entries[entries.len() - 1].0 != k);
            }
        }
        if exists|i: int| 0 <= i < entries.len() && (#[trigger] entries[i]).0 == k {
            let i = choose|i: int| 0 <= i < entries.len() && (#[trigger] entries[i]).0 == k;
            if i < entries.len() - 1 {
                assert(init[i] == entries[i]);
            }
        }
    }
}

proof fn lemma_entries_map_push<H>(entries: Seq<(u128, H)>, e: (u128, H))
    ensures
        entries_map(entries.push(e)) == entries_map(entries).insert(e.0, e.1),
{
    assert(entries.push(e).drop_last() =~= entries);
}

proof fn lemma_entries_map_remove<H>(entries: Seq<(u128, H)>, i: int)
    requires
        keys_distinct(entries),
        0 <= i < entries.len(),
    ensures
        keys_distinct(entries.remove(i)),
        entries_map(entries.remove(i)) == entries_map(entries).remove(entries[i].0),
{
    let rest = entries.remove(i);
    let k = entries[i].0;
    assert(keys_distinct(rest)) by {
        assert forall|a: int, b: int|
            0 <= a < rest.len() && 0 <= b < rest.len() && a != b implies (#[trigger] rest[a]).0
            != (#[trigger] rest[b]).0 by {
            let a2 = if a < i { a } else { a + 1 };
            let b2 = if b < i { b } else { b + 1 };
            assert(rest[a] == entries[a2] && rest[b] == entries[b2]);
        }
    }
    assert forall|x: u128|
        entries_map(rest).contains_key(x) <==> entries_map(entries).remove(k).contains_key(x) by {
        lemma_entries_map_contains(rest, x);
        lemma_entries_map_contains(entries, x);
        if entries_map(entries).remove(k).contains_key(x) {
            let j = choose|j: int| 0 <= j < entries.len() && (#[trigger] entries[j]).0 == x;
            assert(j != i);
            let j2 = if j < i { j } else { j - 1 };
            assert(rest[j2] == entries[j]);
        }
        if entries_map(rest).contains_key(x) {
            let j = choose|j: int| 0 <= j < rest.len() && (#[trigger] rest[j]).0 == x;
            let j2 = if j < i { j } else { j + 1 };
            assert(rest[j] == entries[j2]);
        }
    }
    assert forall|x: u128| #[trigger]
        entries_map(rest).contains_key(x) implies entries_map(rest)[x] == entries_map(
        entries,
    ).remove(k)[x] by {
        lemma_entries_map_contains(rest, x);
        lemma_entries_map_contains(entries, x);
        let j = choose|j: int| 0 <= j < rest.len() && (#[trigger] rest[j]).0 == x;
        let j2 = if j < i { j } else { j + 1 };
        assert(rest[j] == entries[j2]);
    }
    assert(entries_map(rest) =~= entries_map(entries).remove(k));
}

/// Finds the position of a key among entries.
fn find_entry<H>(entries: &Vec<(u128, H)>, id: u128) -> (r: Option<usize>)
    requires
        keys_distinct(entries@),
    ensures
        r is None <==> !entries_map(entries@).contains_key(id),
        r matches Some(i) ==> i < entries@.len() && entries@[i as int].0 == id,
{
    let mut i: usize = 0;
    while i < entries.len()
        invariant
            i <= entries@.len(),
            keys_distinct(entries@),
            forall|j: int| 0 <= j < i ==> (#[trigger] entries@[j]).0 != id,
        decreases entries@.len() - i,
    {
        if entries[i].0 == id {
            proof {
                lemma_entries_map_contains(entries@, id);
            }
            return Some(i);
        }
        i = i + 1;
    }
    proof {
        lemma_entries_map_contains(entries@, id);
    }
    None
}

proof fn lemma_map_len<H>(entries: Seq<(u128, H)>)
    requires
        keys_distinct(entries),
    ensures
        entries_map(entries).len() == entries.len(),
        entries_map(entries).dom().finite(),
    decreases entries.len(),
{
    if entries.len() > 0 {
        let init = entries.drop_last();
        assert(keys_distinct(init)) by {
            assert forall|i: int, j: int|
                0 <= i < init.len() && 0 <= j < init.len() && i != j implies (#[trigger] init[i]).0
                != (#[trigger] init[j]).0 by {
                assert(init[i] == entries[i] && init[j] == entries[j]);
            }
        }
        lemma_map_len(init);
        lemma_entries_map_contains(init, entries.last().0);
        if entries_map(init).contains_key(entries.last().0) {
            let i = choose|i: int| 0 <= i < init.len() && (#[trigger] init[i]).0 == entries.last().0;
            assert(init[i] == entries[i]);
        }
    }
}


/// A finite map from identifiers to values.
pub struct Entries<V> {
    items: Vec<(u128, V)>,
}

impl<V> View for Entries<V> {
    type V = Map<u128, V>;

    closed spec fn view(&self) -> Map<u128, V> {
        entries_map(self.items@)
    }
}

impl<V> Entries<V> {
    /// The invariant: no key twice.
    pub closed spec fn wf(&self) -> bool {
        keys_distinct(self.items@)
    }

    /// The empty map.
    pub fn new() -> (r: Self)
        ensures
            r.wf(),
            r@ == Map::<u128, V>::empty(),
    {
        Entries { items: Vec::new() }
    }

    /// The number of keys.
    pub fn len(&self) -> (r: usize)
        requires
            self.wf(),
        ensures
            r == self@.len(),
            self@.dom().finite(),
    {
        proof {
            lemma_map_len(self.items@);
        }
        self.items.len()
    }

    /// Whether `k` is a key.
    pub fn contains(&self, k: u128) -> (r: bool)
        requires
            self.wf(),
        ensures
            r == self@.contains_key(k),
    {
        find_entry(&self.items, k).is_some()
    }

    /// The value under `k`, if any.
    pub fn get(&self, k: u128) -> (r: Option<&V>)
        requires
            self.wf(),
        ensures
            self@.contains_key(k) ==> r == Some(&self@[k]),
            !self@.contains_key(k) ==> r is None,
    {
        match find_entry(&self.items, k) {
            None => None,
            Some(i) => {
                proof {
                    lemma_entries_map_contains(self.items@, k);
                }
                Some(&self.items[i].1)
            },
        }
    }

    /// Removes `k` and hands out its value, if it was a key.
    pub fn remove(&mut self, k: u128) -> (r: Option<V>)
        requires
            old(self).wf(),
        ensures
            final(self).wf(),
            final(self)@ == old(self)@.remove(k),
            old(self)@.contains_key(k) ==> r == Some(old(self)@[k]),
            !old(self)@.contains_key(k) ==> r is None,
    {
        match find_entry(&self.items, k) {
            None => {
                proof {
                    assert(self@ =~= self@.remove(k));
                }
                None
            },
            Some(i) => {
                proof {
                    lemma_entries_map_contains(self.items@, k);
                    lemma_entries_map_remove(self.items@, i as int);
                }
                let (_, v) = self.items.remove(i);
                Some(v)
            },
        }
    }

    /// Stores `v` under `k`, handing out the value it replaces, if any.
    pub fn insert(&mut self, k: u128, v: V) -> (r: Option<V>)
        requires
            old(self).wf(),
        ensures
            final(self).wf(),
            final(self)@ == old(self)@.insert(k, v),
            old(self)@.contains_key(k) ==> r == Some(old(self)@[k]),
            !old(self)@.contains_key(k) ==> r is None,
    {
        let prev = self.remove(k);
        proof {
            lemma_entries_map_contains(self.items@, k);
            lemma_entries_map_push(self.items@, (k, v));
            assert(old(self)@.remove(k).insert(k, v) =~= old(self)@.insert(k, v));
        }
        let ghost before = self.items@;
        self.items.push((k, v));
        proof {
            assert(self.items@ == before.push((k, v)));
            assert forall|i: int, j: int|
                0 <= i < self.items@.len() && 0 <= j < self.items@.len() && i != j implies (
                #[trigger] self.items@[i]).0 != (#[trigger] self.items@[j]).0 by {
                if i < before.len() && j < before.len() {
                    assert(self.items@[i] == before[i] && self.items@[j] == before[j]);
                } else if i < before.len() {
                    assert(self.items@[i] == before[i]);
                } else if j < before.len() {
                    assert(self.items@[j] == before[j]);
                }
            }
        }
        prev
    }

    /// The keys, each once.
    pub fn keys(&self) -> (r: Vec<u128>)
        requires
            self.wf(),
        ensures
            r@.to_set() == self@.dom(),
            r@.no_duplicates(),
    {
        let mut ks: Vec<u128> = Vec::new();
        let mut i: usize = 0;
        while i < self.items.len()
            invariant
                i <= self.items@.len(),
                keys_distinct(self.items@),
                ks@.to_set() == entries_map(self.items@.take(i as int)).dom(),
                ks@.no_duplicates(),
            decreases self.items@.len() - i,
        {
            let k = self.items[i].0;
            proof {
                let pre = self.items@.take(i as int);
                assert(self.items@.take(i as int + 1).drop_last() =~= pre);
                assert(self.items@.take(i as int + 1).last() == self.items@[i as int]);
                lemma_entries_map_contains(pre, k);
                assert forall|j: int| 0 <= j < i implies (#[trigger] pre[j]).0 != k by {
                    assert(pre[j] == self.items@[j]);
                }
                assert(!ks@.contains(k)) by {
                    if ks@.contains(k) {
                        assert(ks@.to_set().contains(k));
                    }
                }
                ks@.lemma_push_to_set_commute(k);
            }
            ks.push(k);
            proof {
                assert(ks@.to_set() =~= entries_map(self.items@.take(i as int + 1)).dom());
            }
            i = i + 1;
        }
        proof {
            assert(self.items@.take(self.items@.len() as int) =~= self.items@);
        }
        ks
    }

    /// Empties the map and hands out all its entries.
    pub fn take_all(&mut self) -> (r: Vec<(u128, V)>)
        requires
            old(self).wf(),
        ensures
            final(self).wf(),
            final(self)@ == Map::<u128, V>::empty(),
            keys_distinct(r@),
            entries_map(r@) == old(self)@,
    {
        let mut all: Vec<(u128, V)> = Vec::new();
        std::mem::swap(&mut all, &mut self.items);
        all
    }
}

} // verus!
