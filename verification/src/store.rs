//! A keyed entity collection with a map view: the building block of
//! the entity cache. Keys are unique; entries keep insertion order, so
//! reads that scan (the per-channel voice-state listing) are
//! deterministic.

use vstd::prelude::*;

verus! {

/// The key of a cached entity: up to two numeric ids. Kinds keyed by
/// a single id set `b = 0`; the current-user singleton uses both zero.
#[derive(Clone, Copy, PartialEq, Eq, Structural, Debug)]
pub struct EntityKey {
    pub a: u64,
    pub b: u64,
}

/// One stored entity.
pub struct StoreEntry<V> {
    pub key: EntityKey,
    pub value: V,
}

/// A keyed entity collection: unique keys, insertion-ordered entries.
pub struct KeyedStore<V> {
    entries: Vec<StoreEntry<V>>,
}

/// The map a sequence of entries denotes.
pub open spec fn entries_map<V>(s: Seq<StoreEntry<V>>) -> Map<EntityKey, V>
    decreases s.len(),
{
    if s.len() == 0 {
        Map::empty()
    } else {
        entries_map(s.drop_last()).insert(s.last().key, s.last().value)
    }
}

/// No two entries share a key.
pub open spec fn distinct_keys<V>(s: Seq<StoreEntry<V>>) -> bool {
    forall|i: int, j: int| 0 <= i < j < s.len() ==> s[i].key != s[j].key
}

/// The index of the first entry with key `k`, or -1 if there is none.
pub open spec fn find_index<V>(s: Seq<StoreEntry<V>>, k: EntityKey) -> int
    decreases s.len(),
{
    if s.len() == 0 {
        -1
    } else if s.first().key == k {
        0
    } else {
        let r = find_index(s.drop_first(), k);
        if r == -1 {
            -1
        } else {
            r + 1
        }
    }
}

/// What `find_index` finds: the first entry with key `k`, or the fact
/// that no entry has it.
pub proof fn lemma_find_index<V>(s: Seq<StoreEntry<V>>, k: EntityKey)
    ensures
        -1 <= find_index(s, k) < s.len(),
        find_index(s, k) == -1 ==> forall|j: int| 0 <= j < s.len() ==> (#[trigger] s[j]).key != k,
        find_index(s, k) >= 0 ==> s[find_index(s, k)].key == k && forall|j: int|
            0 <= j < find_index(s, k) ==> (#[trigger] s[j]).key != k,
    decreases s.len(),
{
    if s.len() > 0 && s.first().key != k {
        lemma_find_index(s.drop_first(), k);
        if find_index(s, k) == -1 {
            assert forall|j: int| 0 <= j < s.len() implies (#[trigger] s[j]).key != k by {
                if j >= 1 {
                    assert(s.drop_first()[j - 1] == s[j]);
                }
            }
        } else {
            let fi = find_index(s, k);
            assert(s[fi] == s.drop_first()[fi - 1]);
            assert forall|j: int| 0 <= j < fi implies (#[trigger] s[j]).key != k by {
                if j >= 1 {
                    assert(s.drop_first()[j - 1] == s[j]);
                }
            }
        }
    }
}

/// Under distinct keys, each entry's key maps to its value.
pub proof fn lemma_map_index<V>(s: Seq<StoreEntry<V>>, i: int)
    requires
        distinct_keys(s),
        0 <= i < s.len(),
    ensures
        entries_map(s).contains_key(s[i].key),
        entries_map(s)[s[i].key] == s[i].value,
    decreases s.len(),
{
    if i < s.len() - 1 {
        assert(distinct_keys(s.drop_last()));
        lemma_map_index(s.drop_last(), i);
        assert(s.drop_last()[i] == s[i]);
        assert(s.last().key != s[i].key);
    }
}

/// A key no entry holds is not in the map.
pub proof fn lemma_map_absent<V>(s: Seq<StoreEntry<V>>, k: EntityKey)
    requires
        forall|j: int| 0 <= j < s.len() ==> (#[trigger] s[j]).key != k,
    ensures
        !entries_map(s).contains_key(k),
    decreases s.len(),
{
    if s.len() > 0 {
        assert(forall|j: int| 0 <= j < s.drop_last().len() ==> #[trigger] s.drop_last()[j] == s[j]);
        lemma_map_absent(s.drop_last(), k);
    }
}

/// Appending an entry with a fresh key inserts it into the map.
pub proof fn lemma_map_push<V>(s: Seq<StoreEntry<V>>, e: StoreEntry<V>)
    requires
        distinct_keys(s),
        forall|j: int| 0 <= j < s.len() ==> (#[trigger] s[j]).key != e.key,
    ensures
        distinct_keys(s.push(e)),
        entries_map(s.push(e)) == entries_map(s).insert(e.key, e.value),
{
    assert(s.push(e).drop_last() =~= s);
    assert(forall|j: int| 0 <= j < s.len() ==> #[trigger] s.push(e)[j] == s[j]);
}

/// Overwriting the entry that holds a key updates that key in the map.
pub proof fn lemma_map_update<V>(s: Seq<StoreEntry<V>>, i: int, e: StoreEntry<V>)
    requires
        distinct_keys(s),
        0 <= i < s.len(),
        e.key == s[i].key,
    ensures
        distinct_keys(s.update(i, e)),
        entries_map(s.update(i, e)) == entries_map(s).insert(e.key, e.value),
    decreases s.len(),
{
    let s2 = s.update(i, e);
    assert(forall|x: int| 0 <= x < s.len() && x != i ==> #[trigger] s2[x] == s[x]);
    if i == s.len() - 1 {
        assert(s2.drop_last() =~= s.drop_last());
        assert(s2.last() == e);
        assert(entries_map(s2) =~= entries_map(s).insert(e.key, e.value));
    } else {
        assert(distinct_keys(s.drop_last()));
        lemma_map_update(s.drop_last(), i, e);
        assert(s2.drop_last() =~= s.drop_last().update(i, e));
        assert(s2.last() == s.last());
        assert(s.last().key != e.key);
        assert(entries_map(s2) =~= entries_map(s).insert(e.key, e.value));
    }
}

/// Removing the entry that holds a key removes that key from the map.
pub proof fn lemma_map_remove<V>(s: Seq<StoreEntry<V>>, i: int)
    requires
        distinct_keys(s),
        0 <= i < s.len(),
    ensures
        distinct_keys(s.remove(i)),
        entries_map(s.remove(i)) == entries_map(s).remove(s[i].key),
    decreases s.len(),
{
    let k = s[i].key;
    let s2 = s.remove(i);
    assert(forall|x: int| 0 <= x < i ==> #[trigger] s2[x] == s[x]);
    assert(forall|x: int| i <= x < s2.len() ==> #[trigger] s2[x] == s[x + 1]);
    if i == s.len() - 1 {
        assert(s2 =~= s.drop_last());
        assert(forall|j: int|
            0 <= j < s.drop_last().len() ==> #[trigger] s.drop_last()[j] == s[j]);
        lemma_map_absent(s.drop_last(), k);
        assert(entries_map(s2) =~= entries_map(s).remove(k));
    } else {
        assert(distinct_keys(s.drop_last()));
        lemma_map_remove(s.drop_last(), i);
        assert(s2.drop_last() =~= s.drop_last().remove(i));
        assert(s2.last() == s.last());
        assert(s.last().key != k);
        assert(entries_map(s2) =~= entries_map(s).remove(k));
    }
}

impl<V> KeyedStore<V> {
    /// The entries, in insertion order.
    pub closed spec fn as_seq(self) -> Seq<StoreEntry<V>> {
        self.entries@
    }

    /// The entries as a map from key to value.
    pub open spec fn as_map(self) -> Map<EntityKey, V> {
        entries_map(self.as_seq())
    }

    /// Keys are unique.
    pub open spec fn wf(self) -> bool {
        distinct_keys(self.as_seq())
    }

    /// An empty store.
    pub fn new() -> (s: Self)
        ensures
            s.wf(),
            s.as_seq() == Seq::<StoreEntry<V>>::empty(),
            s.as_map() == Map::<EntityKey, V>::empty(),
    {
        let s = KeyedStore { entries: Vec::new() };
        proof {
            assert(s.as_seq() =~= Seq::<StoreEntry<V>>::empty());
            assert(s.as_map() =~= Map::<EntityKey, V>::empty());
        }
        s
    }

    /// The position of the entry holding `key`, if any.
    fn find(&self, key: &EntityKey) -> (r: Option<usize>)
        ensures
            match r {
                Some(i) => i == find_index(self.as_seq(), *key),
                None => find_index(self.as_seq(), *key) == -1,
            },
    {
        proof {
            lemma_find_index(self.as_seq(), *key);
        }
        let mut i: usize = 0;
        while i < self.entries.len()
            invariant
                i <= self.entries@.len(),
                forall|j: int| 0 <= j < i ==> (#[trigger] self.entries@[j]).key != *key,
                -1 <= find_index(self.entries@, *key) < self.entries@.len(),
                find_index(self.entries@, *key) == -1 ==> forall|j: int|
                    0 <= j < self.entries@.len() ==> (#[trigger] self.entries@[j]).key != *key,
                find_index(self.entries@, *key) >= 0 ==> self.entries@[find_index(
                    self.entries@,
                    *key,
                )].key == *key,
            decreases self.entries@.len() - i,
        {
            if self.entries[i].key == *key {
                proof {
                    lemma_find_index(self.as_seq(), *key);
                }
                return Some(i);
            }
            i = i + 1;
        }
        None
    }

    /// Looks the key up: the result is the value the map view holds
    /// for it, and absence means the key is not in the map.
    pub fn get(&self, key: &EntityKey) -> (r: Option<&V>)
        requires
            self.wf(),
        ensures
            match r {
                Some(v) => self.as_map().contains_key(*key) && *v == self.as_map()[*key],
                None => !self.as_map().contains_key(*key),
            },
    {
        match self.find(key) {
            Some(i) => {
                proof {
                    lemma_find_index(self.as_seq(), *key);
                    lemma_map_index(self.as_seq(), i as int);
                }
                Some(&self.entries[i].value)
            },
            None => {
                proof {
                    lemma_find_index(self.as_seq(), *key);
                    lemma_map_absent(self.as_seq(), *key);
                }
                None
            },
        }
    }

    /// Inserts or replaces the value for `key`: exactly that key
    /// changes in the map view. A fresh key appends an entry; a known
    /// key overwrites its entry in place.
    pub fn put(&mut self, key: EntityKey, value: V)
        requires
            old(self).wf(),
        ensures
            final(self).wf(),
            final(self).as_map() == old(self).as_map().insert(key, value),
            final(self).as_seq() == if find_index(old(self).as_seq(), key) == -1 {
                old(self).as_seq().push((StoreEntry { key, value }))
            } else {
                old(self).as_seq().update(
                    find_index(old(self).as_seq(), key),
                    (StoreEntry { key, value }),
                )
            },
    {
        match self.find(&key) {
            Some(i) => {
                proof {
                    lemma_find_index(self.as_seq(), key);
                    lemma_map_update(self.as_seq(), i as int, (StoreEntry { key, value }));
                }
                self.entries[i] = StoreEntry { key, value };
            },
            None => {
                proof {
                    lemma_find_index(self.as_seq(), key);
                    lemma_map_push(self.as_seq(), (StoreEntry { key, value }));
                }
                self.entries.push(StoreEntry { key, value });
            },
        }
    }

    /// Drops the value for `key`, if any: exactly that key leaves the
    /// map view.
    pub fn remove(&mut self, key: &EntityKey)
        requires
            old(self).wf(),
        ensures
            final(self).wf(),
            final(self).as_map() == old(self).as_map().remove(*key),
            final(self).as_seq() == if find_index(old(self).as_seq(), *key) == -1 {
                old(self).as_seq()
            } else {
                old(self).as_seq().remove(find_index(old(self).as_seq(), *key))
            },
    {
        match self.find(key) {
            Some(i) => {
                proof {
                    lemma_find_index(self.as_seq(), *key);
                    lemma_map_remove(self.as_seq(), i as int);
                }
                self.entries.remove(i);
            },
            None => {
                proof {
                    lemma_find_index(self.as_seq(), *key);
                    lemma_map_absent(self.as_seq(), *key);
                    assert(self.as_map() =~= self.as_map().remove(*key));
                }
            },
        }
    }

    /// How many entities are stored.
    pub fn len(&self) -> (n: usize)
        ensures
            n == self.as_seq().len(),
    {
        self.entries.len()
    }

    /// The entry at position `i` of the insertion order.
    pub fn entry_at(&self, i: usize) -> (e: &StoreEntry<V>)
        requires
            i < self.as_seq().len(),
        ensures
            *e == self.as_seq()[i as int],
    {
        &self.entries[i]
    }
}

} // verus!
