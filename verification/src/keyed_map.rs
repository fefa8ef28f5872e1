//! A map over a vector of distinct keys.
//!
//! The view of a [`KeyedMap`] is a `Map` from the views of its keys to its
//! values; `pairs` also gives the order in which the entries are kept.

use vstd::prelude::*;

verus! {

/// A key that can be compared by its view.
pub trait MapKey: Sized + View {
    /// Whether two keys have the same view.
    fn same_key(&self, other: &Self) -> (r: bool)
        ensures
            r == (self@ == other@),
    ;
}

impl MapKey for String {
    fn same_key(&self, other: &Self) -> (r: bool) {
        *self == *other
    }
}

/// The key `k` stands in `pairs` at position `i`.
pub open spec fn key_stands_at<K: MapKey, V>(pairs: Seq<(K, V)>, k: K::V, i: int) -> bool {
    0 <= i < pairs.len() && pairs[i].0@ == k
}

/// The position of the key `k` in `pairs`, where it occurs.
pub open spec fn position_of<K: MapKey, V>(pairs: Seq<(K, V)>, k: K::V) -> int {
    choose|i: int| key_stands_at(pairs, k, i)
}

/// No key occurs twice.
pub open spec fn distinct_keys<K: MapKey, V>(pairs: Seq<(K, V)>) -> bool {
    forall|i: int, j: int|
        0 <= i < j < pairs.len() ==> (#[trigger] pairs[i]).0@ != (#[trigger] pairs[j]).0@
}

/// The map that `pairs` stands for.
pub open spec fn map_of<K: MapKey, V>(pairs: Seq<(K, V)>) -> Map<K::V, V> {
    Map::new(
        |k: K::V| exists|i: int| #[trigger] key_stands_at(pairs, k, i),
        |k: K::V| pairs[position_of(pairs, k)].1,
    )
}

/// Entries with distinct keys, in the order in which the keys first came.
pub struct KeyedMap<K: MapKey, V> {
    entries: Vec<(K, V)>,
}

impl<K: MapKey, V> View for KeyedMap<K, V> {
    type V = Map<K::V, V>;

    closed spec fn view(&self) -> Map<K::V, V> {
        map_of(self.entries@)
    }
}

proof fn lemma_position<K: MapKey, V>(pairs: Seq<(K, V)>, i: int)
    requires
        distinct_keys(pairs),
        0 <= i < pairs.len(),
    ensures
        position_of(pairs, pairs[i].0@) == i,
        map_of(pairs).dom().contains(pairs[i].0@),
        map_of(pairs)[pairs[i].0@] == pairs[i].1,
{
    assert(key_stands_at(pairs, pairs[i].0@, i));
    let p = position_of(pairs, pairs[i].0@);
    assert(key_stands_at(pairs, pairs[i].0@, p));
    if p < i {
        assert(pairs[p].0@ != pairs[i].0@);
    } else if i < p {
        assert(pairs[i].0@ != pairs[p].0@);
    }
}

proof fn lemma_absent<K: MapKey, V>(pairs: Seq<(K, V)>, k: K::V)
    requires
        forall|i: int| 0 <= i < pairs.len() ==> (#[trigger] pairs[i]).0@ != k,
    ensures
        !map_of(pairs).dom().contains(k),
{
    if map_of(pairs).dom().contains(k) {
        let i = choose|i: int| key_stands_at(pairs, k, i);
        assert(pairs[i].0@ != k);
    }
}

proof fn lemma_push<K: MapKey, V>(pairs: Seq<(K, V)>, key: K, value: V)
    requires
        distinct_keys(pairs),
        forall|i: int| 0 <= i < pairs.len() ==> (#[trigger] pairs[i]).0@ != key@,
    ensures
        distinct_keys(pairs.push((key, value))),
        map_of(pairs.push((key, value))) == map_of(pairs).insert(key@, value),
{
    let longer = pairs.push((key, value));
    assert forall|i: int, j: int| 0 <= i < j < longer.len() implies (#[trigger] longer[i]).0@ != (
    #[trigger] longer[j]).0@ by {
        if j == pairs.len() {
            assert(pairs[i].0@ != key@);
        } else {
            assert(pairs[i].0@ != pairs[j].0@);
        }
    }
    lemma_position(longer, pairs.len() as int);
    let whole = map_of(longer);
    let expected = map_of(pairs).insert(key@, value);
    assert forall|k: K::V| whole.dom().contains(k) == #[trigger] expected.dom().contains(k) by {
        if whole.dom().contains(k) {
            let i = choose|i: int| key_stands_at(longer, k, i);
            if i < pairs.len() {
                assert(key_stands_at(pairs, k, i));
            }
        }
        if map_of(pairs).dom().contains(k) {
            let i = choose|i: int| key_stands_at(pairs, k, i);
            assert(key_stands_at(longer, k, i));
        }
    }
    assert forall|k: K::V| #[trigger] expected.dom().contains(k) implies whole[k] == expected[k] by {
        let i = choose|i: int| key_stands_at(longer, k, i);
        lemma_position(longer, i);
        if i < pairs.len() {
            lemma_position(pairs, i);
        }
    }
    assert(whole =~= expected);
}

proof fn lemma_update<K: MapKey, V>(pairs: Seq<(K, V)>, at: int, key: K, value: V)
    requires
        distinct_keys(pairs),
        0 <= at < pairs.len(),
        pairs[at].0@ == key@,
    ensures
        distinct_keys(pairs.update(at, (key, value))),
        map_of(pairs.update(at, (key, value))) == map_of(pairs).insert(key@, value),
{
    let changed = pairs.update(at, (key, value));
    assert forall|i: int| 0 <= i < pairs.len() implies (#[trigger] changed[i]).0@ == pairs[i].0@ by {
    }
    assert forall|i: int, j: int| 0 <= i < j < changed.len() implies (#[trigger] changed[i]).0@ != (
    #[trigger] changed[j]).0@ by {
        assert(pairs[i].0@ != pairs[j].0@);
    }
    let whole = map_of(changed);
    let expected = map_of(pairs).insert(key@, value);
    lemma_position(changed, at);
    assert forall|k: K::V| whole.dom().contains(k) == #[trigger] expected.dom().contains(k) by {
        if whole.dom().contains(k) {
            let i = choose|i: int| key_stands_at(changed, k, i);
            assert(key_stands_at(pairs, k, i));
        }
        if map_of(pairs).dom().contains(k) {
            let i = choose|i: int| key_stands_at(pairs, k, i);
            assert(key_stands_at(changed, k, i));
        }
    }
    assert forall|k: K::V| #[trigger] expected.dom().contains(k) implies whole[k] == expected[k] by {
        let i = choose|i: int| key_stands_at(changed, k, i);
        lemma_position(changed, i);
        lemma_position(pairs, i);
    }
    assert(whole =~= expected);
}

proof fn lemma_removed<K: MapKey, V>(pairs: Seq<(K, V)>, at: int)
    requires
        distinct_keys(pairs),
        0 <= at < pairs.len(),
    ensures
        distinct_keys(pairs.remove(at)),
        map_of(pairs.remove(at)) == map_of(pairs).remove(pairs[at].0@),
{
    let fewer = pairs.remove(at);
    assert forall|i: int, j: int| 0 <= i < j < fewer.len() implies (#[trigger] fewer[i]).0@ != (
    #[trigger] fewer[j]).0@ by {
        let a = if i < at {
            i
        } else {
            i + 1
        };
        let b = if j < at {
            j
        } else {
            j + 1
        };
        assert(fewer[i] == pairs[a]);
        assert(fewer[j] == pairs[b]);
        assert(pairs[a].0@ != pairs[b].0@);
    }
    let whole = map_of(fewer);
    let expected = map_of(pairs).remove(pairs[at].0@);
    assert forall|k: K::V| whole.dom().contains(k) == #[trigger] expected.dom().contains(k) by {
        if whole.dom().contains(k) {
            let i = choose|i: int| key_stands_at(fewer, k, i);
            let a = if i < at {
                i
            } else {
                i + 1
            };
            assert(fewer[i] == pairs[a]);
            assert(key_stands_at(pairs, k, a));
            if a < at {
                assert(pairs[a].0@ != pairs[at].0@);
            } else {
                assert(pairs[at].0@ != pairs[a].0@);
            }
        }
        if expected.dom().contains(k) {
            let i = choose|i: int| key_stands_at(pairs, k, i);
            assert(i != at);
            let a = if i < at {
                i
            } else {
                i - 1
            };
            assert(fewer[a] == pairs[i]);
            assert(key_stands_at(fewer, k, a));
        }
    }
    assert forall|k: K::V| #[trigger] expected.dom().contains(k) implies whole[k] == expected[k] by {
        assert(whole.dom().contains(k));
        let i = choose|i: int| key_stands_at(fewer, k, i);
        lemma_position(fewer, i);
        let a = if i < at {
            i
        } else {
            i + 1
        };
        assert(fewer[i] == pairs[a]);
        lemma_position(pairs, a);
    }
    assert(whole =~= expected);
}

proof fn lemma_size<K: MapKey, V>(pairs: Seq<(K, V)>)
    requires
        distinct_keys(pairs),
    ensures
        map_of(pairs).dom().finite(),
        map_of(pairs).dom().len() == pairs.len(),
    decreases pairs.len(),
{
    if pairs.len() == 0 {
        assert(map_of(pairs).dom() =~= Set::<K::V>::empty());
    } else {
        let rest = pairs.drop_last();
        let (key, value) = pairs.last();
        assert forall|i: int, j: int| 0 <= i < j < rest.len() implies (#[trigger] rest[i]).0@ != (
        #[trigger] rest[j]).0@ by {
            assert(pairs[i].0@ != pairs[j].0@);
        }
        lemma_size(rest);
        assert forall|i: int| 0 <= i < rest.len() implies (#[trigger] rest[i]).0@ != key@ by {
            assert(pairs[i].0@ != pairs[pairs.len() - 1].0@);
        }
        lemma_absent(rest, key@);
        lemma_push(rest, key, value);
        assert(rest.push((key, value)) =~= pairs);
    }
}

impl<K: MapKey, V> KeyedMap<K, V> {
    #[verifier::type_invariant]
    spec fn keys_are_distinct(self) -> bool {
        distinct_keys(self.entries@)
    }

    /// The entries in order.
    pub closed spec fn pairs(&self) -> Seq<(K, V)> {
        self.entries@
    }

    /// A map without entries.
    pub fn new() -> (r: Self)
        ensures
            r@ == Map::<K::V, V>::empty(),
            r.pairs() == Seq::<(K, V)>::empty(),
    {
        let r = KeyedMap { entries: Vec::new() };
        proof {
            assert(r@ =~= Map::<K::V, V>::empty());
        }
        r
    }

    /// The number of entries. No key occurs twice among them.
    pub fn len(&self) -> (r: usize)
        ensures
            r == self.pairs().len(),
            distinct_keys(self.pairs()),
            self@ == map_of(self.pairs()),
            self@.dom().finite(),
            r == self@.dom().len(),
    {
        proof {
            use_type_invariant(self);
            lemma_size(self.entries@);
        }
        self.entries.len()
    }

    fn find(&self, key: &K) -> (r: Option<usize>)
        ensures
            r matches Some(i) ==> i < self.entries@.len() && self.entries@[i as int].0@ == key@,
            r is None ==> forall|i: int|
                0 <= i < self.entries@.len() ==> (#[trigger] self.entries@[i]).0@ != key@,
    {
        let mut i: usize = 0;
        while i < self.entries.len()
            invariant
                i <= self.entries@.len(),
                forall|j: int| 0 <= j < i ==> (#[trigger] self.entries@[j]).0@ != key@,
            decreases self.entries@.len() - i,
        {
            if self.entries[i].0.same_key(key) {
                return Some(i);
            }
            i += 1;
        }
        None
    }

    /// The value under `key`.
    pub fn get(&self, key: &K) -> (r: Option<&V>)
        ensures
            r.is_some() == self@.dom().contains(key@),
            r matches Some(v) ==> *v == self@[key@],
    {
        proof {
            use_type_invariant(self);
        }
        match self.find(key) {
            Some(i) => {
                proof {
                    lemma_position(self.entries@, i as int);
                }
                Some(&self.entries[i].1)
            },
            None => {
                proof {
                    lemma_absent(self.entries@, key@);
                }
                None
            },
        }
    }

    /// Whether there is a value under `key`.
    pub fn contains_key(&self, key: &K) -> (r: bool)
        ensures
            r == self@.dom().contains(key@),
    {
        self.get(key).is_some()
    }

    /// The key of the `i`-th entry.
    pub fn key_at(&self, i: usize) -> (r: &K)
        requires
            i < self.pairs().len(),
        ensures
            *r == self.pairs()[i as int].0,
            self@.dom().contains(r@),
            self@[r@] == self.pairs()[i as int].1,
    {
        proof {
            use_type_invariant(self);
            lemma_position(self.entries@, i as int);
        }
        &self.entries[i].0
    }

    /// The value of the `i`-th entry.
    pub fn value_at(&self, i: usize) -> (r: &V)
        requires
            i < self.pairs().len(),
        ensures
            *r == self.pairs()[i as int].1,
            self@.dom().contains(self.pairs()[i as int].0@),
            self@[self.pairs()[i as int].0@] == *r,
    {
        proof {
            use_type_invariant(self);
            lemma_position(self.entries@, i as int);
        }
        &self.entries[i].1
    }

    /// Puts `value` under `key`, in place of what stood there. A new key goes
    /// to the end.
    pub fn insert(&mut self, key: K, value: V)
        ensures
            final(self)@ == old(self)@.insert(key@, value),
            distinct_keys(old(self).pairs()),
            old(self)@ == map_of(old(self).pairs()),
            old(self)@.dom().contains(key@) ==> {
                let at = position_of(old(self).pairs(), key@);
                &&& key_stands_at(old(self).pairs(), key@, at)
                &&& final(self).pairs() == old(self).pairs().update(at, (key, value))
            },
            !old(self)@.dom().contains(key@) ==> final(self).pairs() == old(self).pairs().push(
                (key, value),
            ),
    {
        proof {
            use_type_invariant(&*self);
        }
        let found: Option<usize> = self.find(&key);
        let mut entries: Vec<(K, V)> = Vec::new();
        std::mem::swap(&mut entries, &mut self.entries);
        match found {
            Some(i) => {
                proof {
                    lemma_position(entries@, i as int);
                    lemma_update(entries@, i as int, key, value);
                }
                entries.set(i, (key, value));
            },
            None => {
                proof {
                    lemma_absent(entries@, key@);
                    lemma_push(entries@, key, value);
                }
                entries.push((key, value));
            },
        }
        self.entries = entries;
    }

    /// Replaces the value of the `i`-th entry.
    pub fn set_value_at(&mut self, i: usize, value: V)
        requires
            i < old(self).pairs().len(),
        ensures
            final(self).pairs() == old(self).pairs().update(
                i as int,
                (old(self).pairs()[i as int].0, value),
            ),
            final(self)@ == old(self)@.insert(old(self).pairs()[i as int].0@, value),
    {
        proof {
            use_type_invariant(&*self);
        }
        let mut entries: Vec<(K, V)> = Vec::new();
        std::mem::swap(&mut entries, &mut self.entries);
        proof {
            lemma_update(entries@, i as int, entries@[i as int].0, value);
        }
        let (key, _) = entries.remove(i);
        entries.insert(i, (key, value));
        proof {
            assert(entries@ == old(self).pairs().update(
                i as int,
                (old(self).pairs()[i as int].0, value),
            ));
        }
        self.entries = entries;
    }

    /// Takes the entry under `key` out.
    pub fn remove(&mut self, key: &K) -> (r: Option<V>)
        ensures
            final(self)@ == old(self)@.remove(key@),
            r.is_some() == old(self)@.dom().contains(key@),
            r matches Some(v) ==> v == old(self)@[key@],
    {
        proof {
            use_type_invariant(&*self);
        }
        let found: Option<usize> = self.find(key);
        match found {
            Some(i) => {
                let mut entries: Vec<(K, V)> = Vec::new();
                std::mem::swap(&mut entries, &mut self.entries);
                proof {
                    lemma_position(entries@, i as int);
                    lemma_removed(entries@, i as int);
                }
                let (_, value) = entries.remove(i);
                self.entries = entries;
                Some(value)
            },
            None => {
                proof {
                    lemma_absent(self.entries@, key@);
                    assert(old(self)@.remove(key@) =~= old(self)@);
                }
                None
            },
        }
    }
}

} // verus!
