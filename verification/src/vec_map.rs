//! A map from keys to values, kept as a list of entries.
//!
//! The keys of this crate (type identities and socket addresses) are few, so a lookup walks the
//! list. Keys are compared through [`Key::same`], whose contract says that it decides equality.
use vstd::prelude::*;

verus! {

/// A key that can be compared with another one of its type.
pub trait Key: Sized {
    /// Whether the two keys are equal.
    fn same(&self, other: &Self) -> (same: bool)
        ensures
            same == (*self == *other),
    ;
}

/// A map that holds at most one value per key.
#[derive(Debug, PartialEq)]
#[verifier::reject_recursive_types(K)]
pub struct VecMap<K, V> {
    entries: Vec<(K, V)>,
}

/// Whether some entry of `entries` has the key `key`.
pub open spec fn has_key<K, V>(entries: Seq<(K, V)>, key: K) -> bool {
    exists|i: int| 0 <= i < entries.len() && (#[trigger] entries[i]).0 == key
}

/// A position in `entries` at which the key `key` stands.
pub open spec fn position_of<K, V>(entries: Seq<(K, V)>, key: K) -> int {
    choose|i: int| 0 <= i < entries.len() && (#[trigger] entries[i]).0 == key
}

/// The map that a list of entries stands for.
pub open spec fn map_of<K, V>(entries: Seq<(K, V)>) -> Map<K, V> {
    Map::new(|key: K| has_key(entries, key), |key: K| entries[position_of(entries, key)].1)
}

impl<K, V> View for VecMap<K, V> {
    type V = Map<K, V>;

    closed spec fn view(&self) -> Map<K, V> {
        map_of(self.entries@)
    }
}

impl<K, V> VecMap<K, V> {
    /// The entries in the order in which [`VecMap::entry`] hands them out.
    pub closed spec fn entries(&self) -> Seq<(K, V)> {
        self.entries@
    }

    /// No key occurs in two entries.
    pub closed spec fn wf(&self) -> bool {
        distinct_keys(self.entries@)
    }
}

/// No key occurs in two entries of the list.
pub open spec fn distinct_keys<K, V>(entries: Seq<(K, V)>) -> bool {
    forall|i: int, j: int|
        0 <= i < entries.len() && 0 <= j < entries.len() && i != j ==> (#[trigger] entries[i]).0
            != (#[trigger] entries[j]).0
}

/// The map of a list with distinct keys holds, under the key of each entry, that entry's value.
proof fn lemma_map_of_at<K, V>(entries: Seq<(K, V)>, i: int)
    requires
        distinct_keys(entries),
        0 <= i < entries.len(),
    ensures
        map_of(entries).contains_key(entries[i].0),
        map_of(entries)[entries[i].0] == entries[i].1,
        position_of(entries, entries[i].0) == i,
{
    let j = position_of(entries, entries[i].0);
    assert(entries[j].0 == entries[i].0);
}

impl<K: Key, V> VecMap<K, V> {
    /// The empty map.
    pub fn new() -> (map: Self)
        ensures
            map.wf(),
            map@ == Map::<K, V>::empty(),
            map.entries().len() == 0,
    {
        let map = VecMap { entries: Vec::new() };
        assert(map@ =~= Map::<K, V>::empty());
        map
    }

    /// The number of keys.
    pub fn len(&self) -> (len: usize)
        requires
            self.wf(),
        ensures
            len == self.entries().len(),
            self@.dom().finite(),
            len == self@.dom().len(),
    {
        proof {
            self.lemma_entries();
        }
        self.entries.len()
    }

    /// What the list of entries says of the map: it holds exactly these keys, once each, with
    /// these values.
    pub proof fn lemma_entries(&self)
        requires
            self.wf(),
        ensures
            distinct_keys(self.entries()),
            forall|i: int|
                0 <= i < self.entries().len() ==> self@.contains_key(
                    (#[trigger] self.entries()[i]).0,
                ) && self@[self.entries()[i].0] == self.entries()[i].1,
            forall|key: K| #[trigger] self@.contains_key(key) ==> has_key(self.entries(), key),
            self@.dom().finite(),
            self@.dom().len() == self.entries().len(),
    {
        let entries = self.entries@;
        assert forall|i: int| 0 <= i < entries.len() implies self@.contains_key(
            (#[trigger] entries[i]).0,
        ) && self@[entries[i].0] == entries[i].1 by {
            lemma_map_of_at(entries, i);
        }
        let keys = Seq::new(entries.len(), |i: int| entries[i].0);
        assert(keys.no_duplicates());
        keys.unique_seq_to_set();
        assert forall|key: K| self@.dom().contains(key) == keys.to_set().contains(key) by {
            if self@.dom().contains(key) {
                let i = position_of(entries, key);
                assert(keys[i] == key);
            }
            if keys.to_set().contains(key) {
                let i = choose|i: int| 0 <= i < keys.len() && keys[i] == key;
                assert(entries[i].0 == key);
            }
        }
        assert(self@.dom() =~= keys.to_set());
    }

    /// The position of the entry with the key `key`.
    fn find(&self, key: &K) -> (found: Option<usize>)
        requires
            self.wf(),
        ensures
            match found {
                Some(i) => i < self.entries@.len() && self.entries@[i as int].0 == *key
                    && self@.contains_key(*key) && self@[*key] == self.entries@[i as int].1,
                None => !self@.contains_key(*key) && forall|j: int|
                    0 <= j < self.entries@.len() ==> (#[trigger] self.entries@[j]).0 != *key,
            },
    {
        let mut i: usize = 0;
        while i < self.entries.len()
            invariant
                self.wf(),
                i <= self.entries@.len(),
                forall|j: int| 0 <= j < i ==> (#[trigger] self.entries@[j]).0 != *key,
            decreases self.entries@.len() - i,
        {
            if self.entries[i].0.same(key) {
                proof {
                    lemma_map_of_at(self.entries@, i as int);
                }
                return Some(i);
            }
            i += 1;
        }
        None
    }

    /// Whether the map holds the key.
    pub fn contains_key(&self, key: &K) -> (found: bool)
        requires
            self.wf(),
        ensures
            found == self@.contains_key(*key),
    {
        self.find(key).is_some()
    }

    /// The value under the key, if the map holds it.
    pub fn get(&self, key: &K) -> (value: Option<&V>)
        requires
            self.wf(),
        ensures
            match value {
                Some(v) => self@.contains_key(*key) && *v == self@[*key],
                None => !self@.contains_key(*key),
            },
    {
        match self.find(key) {
            Some(i) => Some(&self.entries[i].1),
            None => None,
        }
    }

    /// The entry at a position below [`VecMap::len`].
    pub fn entry(&self, i: usize) -> (entry: (&K, &V))
        requires
            i < self.entries().len(),
        ensures
            *entry.0 == self.entries()[i as int].0,
            *entry.1 == self.entries()[i as int].1,
    {
        let entry = &self.entries[i];
        (&entry.0, &entry.1)
    }

    /// The value under the key, to be changed in place.
    pub fn get_mut(&mut self, key: &K) -> (value: Option<&mut V>)
        requires
            old(self).wf(),
        ensures
            match value {
                Some(v) => old(self)@.contains_key(*key) && *v == old(self)@[*key]
                    && final(self)@ == old(self)@.insert(*key, *final(v)),
                None => !old(self)@.contains_key(*key) && final(self)@ == old(self)@,
            },
            final(self).wf(),
    {
        let ghost before = self.entries@;
        match self.find(key) {
            Some(i) => {
                let value = &mut self.entries[i].1;
                proof {
                    let after = before.update(i as int, (before[i as int].0, *final(value)));
                    lemma_same_map_except(before, after, i as int);
                }
                Some(value)
            },
            None => None,
        }
    }

    /// Writes a value under a key and returns the value that stood there before.
    pub fn insert(&mut self, key: K, value: V) -> (replaced: Option<V>)
        requires
            old(self).wf(),
        ensures
            final(self).wf(),
            final(self)@ == old(self)@.insert(key, value),
            replaced == (if old(self)@.contains_key(key) {
                Some(old(self)@[key])
            } else {
                None
            }),
    {
        let ghost before = self.entries@;
        match self.find(&key) {
            Some(i) => {
                let mut value = value;
                std::mem::swap(&mut self.entries[i].1, &mut value);
                proof {
                    lemma_same_map_except(before, self.entries@, i as int);
                }
                Some(value)
            },
            None => {
                self.entries.push((key, value));
                proof {
                    lemma_push(before, key, value);
                }
                None
            },
        }
    }

    /// Takes a key and its value out of the map.
    pub fn remove(&mut self, key: &K) -> (removed: Option<V>)
        requires
            old(self).wf(),
        ensures
            final(self).wf(),
            final(self)@ == old(self)@.remove(*key),
            removed == (if old(self)@.contains_key(*key) {
                Some(old(self)@[*key])
            } else {
                None
            }),
    {
        let ghost before = self.entries@;
        match self.find(key) {
            Some(i) => {
                let entry = self.entries.remove(i);
                proof {
                    lemma_remove(before, i as int);
                }
                Some(entry.1)
            },
            None => {
                assert(self@ =~= old(self)@.remove(*key));
                None
            },
        }
    }
}

impl<K: Copy, V: Clone> Clone for VecMap<K, V> {
    /// A map with the same keys and clones of the values.
    fn clone(&self) -> (map: Self)
        ensures
            map.wf() == self.wf(),
            map.entries().len() == self.entries().len(),
            forall|i: int|
                0 <= i < map.entries().len() ==> (#[trigger] map.entries()[i]).0
                    == self.entries()[i].0 && cloned(self.entries()[i].1, map.entries()[i].1),
            self.wf() ==> map@.dom() == self@.dom() && forall|key: K| #[trigger]
                map@.contains_key(key) ==> cloned(self@[key], map@[key]),
    {
        let mut entries: Vec<(K, V)> = Vec::new();
        let mut i: usize = 0;
        while i < self.entries.len()
            invariant
                i <= self.entries@.len(),
                entries@.len() == i,
                forall|j: int|
                    0 <= j < i ==> (#[trigger] entries@[j]).0 == self.entries@[j].0 && cloned(
                        self.entries@[j].1,
                        entries@[j].1,
                    ),
            decreases self.entries@.len() - i,
        {
            let value = self.entries[i].1.clone();
            entries.push((self.entries[i].0, value));
            i += 1;
        }
        let map = VecMap { entries };
        proof {
            lemma_same_keys(self.entries@, map.entries@);
            lemma_same_keys(map.entries@, self.entries@);
        }
        map
    }
}

/// Lists with the same keys in the same places have maps with the same keys, and hold values
/// from the same places.
proof fn lemma_same_keys<K, V>(a: Seq<(K, V)>, b: Seq<(K, V)>)
    requires
        a.len() == b.len(),
        forall|i: int| 0 <= i < a.len() ==> (#[trigger] a[i]).0 == b[i].0,
    ensures
        distinct_keys(a) ==> distinct_keys(b),
        map_of(a).dom() == map_of(b).dom(),
        distinct_keys(a) ==> forall|key: K| #[trigger]
            map_of(b).contains_key(key) ==> position_of(a, key) == position_of(b, key) && 0
                <= position_of(a, key) < a.len(),
{
    assert(forall|i: int| 0 <= i < b.len() ==> (#[trigger] b[i]).0 == a[i].0);
    assert forall|key: K| has_key(a, key) == has_key(b, key) by {
        if has_key(a, key) {
            assert(b[position_of(a, key)].0 == key);
        }
        if has_key(b, key) {
            assert(a[position_of(b, key)].0 == key);
        }
    }
    assert(map_of(a).dom() =~= map_of(b).dom());
    if distinct_keys(a) {
        assert forall|i: int, j: int|
            0 <= i < b.len() && 0 <= j < b.len() && i != j implies (#[trigger] b[i]).0 != (
        #[trigger] b[j]).0 by {
            assert(a[i].0 != a[j].0);
        }
        assert forall|key: K| #[trigger] map_of(b).contains_key(key) implies position_of(a, key)
            == position_of(b, key) && 0 <= position_of(a, key) < a.len() by {
            let i = position_of(b, key);
            assert(a[i].0 == key);
            lemma_map_of_at(a, i);
        }
    }
}

/// Appending an entry with a new key inserts it into the map.
proof fn lemma_push<K, V>(before: Seq<(K, V)>, key: K, value: V)
    requires
        distinct_keys(before),
        forall|j: int| 0 <= j < before.len() ==> (#[trigger] before[j]).0 != key,
    ensures
        distinct_keys(before.push((key, value))),
        map_of(before.push((key, value))) == map_of(before).insert(key, value),
{
    let after = before.push((key, value));
    assert forall|k: K|
        map_of(after).contains_key(k) == (k == key || map_of(before).contains_key(k)) by {
        if map_of(before).contains_key(k) {
            assert(after[position_of(before, k)].0 == k);
        }
        assert(after[before.len() as int].0 == key);
    }
    assert forall|k: K| map_of(before).contains_key(k) implies map_of(after)[k]
        == map_of(before)[k] by {
        let j = position_of(before, k);
        assert(after[j] == before[j]);
        lemma_map_of_at(after, j);
    }
    lemma_map_of_at(after, before.len() as int);
    assert(map_of(after) =~= map_of(before).insert(key, value));
}

/// Taking out an entry removes its key from the map.
proof fn lemma_remove<K, V>(before: Seq<(K, V)>, i: int)
    requires
        distinct_keys(before),
        0 <= i < before.len(),
    ensures
        distinct_keys(before.remove(i)),
        map_of(before.remove(i)) == map_of(before).remove(before[i].0),
{
    let after = before.remove(i);
    let source = |j: int| if j < i { j } else { j + 1 };
    let target = |j: int| if j < i { j } else { j - 1 };
    assert forall|j: int, k: int|
        0 <= j < after.len() && 0 <= k < after.len() && j != k implies (#[trigger] after[j]).0 != (
    #[trigger] after[k]).0 by {
        assert(after[j] == before[source(j)]);
        assert(after[k] == before[source(k)]);
    }
    assert forall|k: K|
        map_of(after).contains_key(k) == (k != before[i].0 && map_of(before).contains_key(k)) by {
        if map_of(after).contains_key(k) {
            let j = position_of(after, k);
            assert(before[source(j)].0 == k);
        }
        if k != before[i].0 && map_of(before).contains_key(k) {
            let j = position_of(before, k);
            assert(after[target(j)].0 == k);
        }
    }
    assert forall|k: K| map_of(after).contains_key(k) implies map_of(after)[k]
        == map_of(before)[k] by {
        let j = position_of(after, k);
        assert(after[j] == before[source(j)]);
        lemma_map_of_at(before, source(j));
    }
    assert(map_of(after) =~= map_of(before).remove(before[i].0));
}

/// Two lists with the same keys in the same places, whose values differ at most at `i`.
proof fn lemma_same_map_except<K, V>(before: Seq<(K, V)>, after: Seq<(K, V)>, i: int)
    requires
        distinct_keys(before),
        before.len() == after.len(),
        0 <= i < before.len(),
        forall|j: int| 0 <= j < after.len() ==> (#[trigger] after[j]).0 == before[j].0,
        forall|j: int| 0 <= j < after.len() && j != i ==> #[trigger] after[j] == before[j],
    ensures
        distinct_keys(after),
        map_of(after) == map_of(before).insert(before[i].0, after[i].1),
{
    assert(distinct_keys(after)) by {
        assert forall|j: int, k: int|
            0 <= j < after.len() && 0 <= k < after.len() && j != k implies (#[trigger] after[j]).0
            != (#[trigger] after[k]).0 by {
            assert(before[j].0 != before[k].0);
        }
    }
    assert forall|key: K| map_of(after).contains_key(key) == map_of(before).contains_key(key) by {
        if map_of(after).contains_key(key) {
            assert(before[position_of(after, key)].0 == key);
        }
        if map_of(before).contains_key(key) {
            assert(after[position_of(before, key)].0 == key);
        }
    }
    lemma_map_of_at(before, i);
    lemma_map_of_at(after, i);
    assert forall|key: K| map_of(before).contains_key(key) && key != before[i].0 implies map_of(
        after,
    )[key] == map_of(before)[key] by {
        let j = position_of(before, key);
        lemma_map_of_at(after, j);
        assert(after[j] == before[j]);
    }
    assert(map_of(after) =~= map_of(before).insert(before[i].0, after[i].1));
}

/// What was written under a key is what is found there, what stood there before is handed back,
/// and what stands under other keys stays.
pub proof fn law_what_is_written_is_found<K: Key, V>(
    map: &mut VecMap<K, V>,
    key: K,
    value: V,
    after: VecMap<K, V>,
    replaced: Option<V>,
    other: K,
    at_key: (Option<&V>, Option<&V>),
    at_other: (Option<&V>, Option<&V>),
)
    requires
        call_ensures(VecMap::<K, V>::insert, (map, key, value), replaced),
        *final(map) == after,
        other != key,
        call_ensures(VecMap::<K, V>::get, (&*old(map), &key), at_key.0),
        call_ensures(VecMap::<K, V>::get, (&after, &key), at_key.1),
        call_ensures(VecMap::<K, V>::get, (&*old(map), &other), at_other.0),
        call_ensures(VecMap::<K, V>::get, (&after, &other), at_other.1),
    ensures
        at_key.1 == Some(&value),
        at_other.0 == at_other.1,
        replaced is Some <==> at_key.0 is Some,
        replaced matches Some(v) ==> v == *at_key.0->Some_0,
{
}

/// What was taken out is handed out and found no more, and what stands under other keys stays.
pub proof fn law_what_is_removed_is_gone<K: Key, V>(
    map: &mut VecMap<K, V>,
    key: K,
    after: VecMap<K, V>,
    removed: Option<V>,
    other: K,
    at_key: (Option<&V>, Option<&V>),
    at_other: (Option<&V>, Option<&V>),
)
    requires
        call_ensures(VecMap::<K, V>::remove, (map, &key), removed),
        *final(map) == after,
        other != key,
        call_ensures(VecMap::<K, V>::get, (&*old(map), &key), at_key.0),
        call_ensures(VecMap::<K, V>::get, (&after, &key), at_key.1),
        call_ensures(VecMap::<K, V>::get, (&*old(map), &other), at_other.0),
        call_ensures(VecMap::<K, V>::get, (&after, &other), at_other.1),
    ensures
        at_key.1 is None,
        at_other.0 == at_other.1,
        removed is Some <==> at_key.0 is Some,
        removed matches Some(v) ==> v == *at_key.0->Some_0,
{
}

/// A new map holds no key, and every map holds the keys that a value is found under.
pub proof fn law_keys_are_those_with_a_value<K: Key, V>(
    new: VecMap<K, V>,
    map: VecMap<K, V>,
    key: K,
    in_new: Option<&V>,
    value: Option<&V>,
    found: bool,
)
    requires
        call_ensures(VecMap::<K, V>::new, (), new),
        call_ensures(VecMap::<K, V>::get, (&new, &key), in_new),
        call_ensures(VecMap::<K, V>::get, (&map, &key), value),
        call_ensures(VecMap::<K, V>::contains_key, (&map, &key), found),
    ensures
        in_new is None,
        found <==> value is Some,
{
}

/// What is changed in place is the value under the key, and what is written there is found there;
/// what stands under other keys stays.
pub proof fn law_what_is_changed_in_place_is_found<K: Key, V>(
    map: &mut VecMap<K, V>,
    key: K,
    place: Option<&mut V>,
    after: VecMap<K, V>,
    other: K,
    at_key: (Option<&V>, Option<&V>),
    at_other: (Option<&V>, Option<&V>),
)
    requires
        call_ensures(VecMap::<K, V>::get_mut, (map, &key), place),
        *final(map) == after,
        other != key,
        call_ensures(VecMap::<K, V>::get, (&*old(map), &key), at_key.0),
        call_ensures(VecMap::<K, V>::get, (&after, &key), at_key.1),
        call_ensures(VecMap::<K, V>::get, (&*old(map), &other), at_other.0),
        call_ensures(VecMap::<K, V>::get, (&after, &other), at_other.1),
    ensures
        at_other.0 == at_other.1,
        match place {
            Some(value) => at_key.0 == Some(&*value) && at_key.1 == Some(&*final(value)),
            None => at_key.0 is None && at_key.1 is None,
        },
{
}

}
