//! A map keyed by text that remembers the order in which its keys arrived.
//!
//! The entries are kept in two lists. Of a hash map of the standard library
//! with `String` for its key Verus proves nothing, not even that a key is
//! found after it was inserted: what `vstd` says of such a map holds only for
//! keys whose hashing it knows, and `String` is not among them.

use vstd::prelude::*;

use crate::text::same_text;

verus! {

/// The index of `key` among `keys`, where it occurs.
pub open spec fn position(keys: Seq<Seq<char>>, key: Seq<char>) -> int {
    choose|i: int| 0 <= i < keys.len() && keys[i] == key
}

/// The map that a list of distinct keys and a list of values of the same
/// length stand for.
pub open spec fn as_map<V>(keys: Seq<Seq<char>>, values: Seq<V>) -> Map<Seq<char>, V> {
    Map::new(|k: Seq<char>| keys.contains(k), |k: Seq<char>| values[position(keys, k)])
}

/// Appending a fresh key inserts it.
pub proof fn lemma_push_inserts<V>(keys: Seq<Seq<char>>, values: Seq<V>, key: Seq<char>, value: V)
    requires
        keys.len() == values.len(),
        keys.no_duplicates(),
        !keys.contains(key),
    ensures
        keys.push(key).no_duplicates(),
        as_map(keys.push(key), values.push(value)) == as_map(keys, values).insert(key, value),
{
    let keys2 = keys.push(key);
    let values2 = values.push(value);
    assert(keys2[keys.len() as int] == key);
    assert forall|k: Seq<char>| keys2.contains(k) <==> (k == key || keys.contains(k)) by {
        if keys.contains(k) {
            let i = position(keys, k);
            assert(keys2[i] == k);
        }
    }
    assert forall|k: Seq<char>| keys2.contains(k) implies #[trigger] as_map(keys2, values2)[k]
        == as_map(keys, values).insert(key, value)[k] by {
        let i = position(keys2, k);
        if k != key {
            let j = position(keys, k);
            assert(keys2[j] == k);
        }
    }
    assert(as_map(keys2, values2) =~= as_map(keys, values).insert(key, value));
}

/// Replacing the value at an index inserts it under that index's key.
pub proof fn lemma_update_inserts<V>(keys: Seq<Seq<char>>, values: Seq<V>, i: int, value: V)
    requires
        keys.len() == values.len(),
        keys.no_duplicates(),
        0 <= i < keys.len(),
    ensures
        as_map(keys, values.update(i, value)) == as_map(keys, values).insert(keys[i], value),
{
    let values2 = values.update(i, value);
    assert(keys.contains(keys[i]));
    assert forall|k: Seq<char>| keys.contains(k) implies #[trigger] as_map(keys, values2)[k]
        == as_map(keys, values).insert(keys[i], value)[k] by {
        let j = position(keys, k);
    }
    assert(as_map(keys, values2) =~= as_map(keys, values).insert(keys[i], value));
}

/// Taking out the entry at an index removes that index's key.
pub proof fn lemma_remove_removes<V>(keys: Seq<Seq<char>>, values: Seq<V>, i: int)
    requires
        keys.len() == values.len(),
        keys.no_duplicates(),
        0 <= i < keys.len(),
    ensures
        keys.remove(i).no_duplicates(),
        !keys.remove(i).contains(keys[i]),
        as_map(keys.remove(i), values.remove(i)) == as_map(keys, values).remove(keys[i]),
{
    let keys2 = keys.remove(i);
    let values2 = values.remove(i);
    assert forall|a: int, b: int|
        0 <= a < keys2.len() && 0 <= b < keys2.len() && a != b implies keys2[a] != keys2[b] by {
        let a1 = if a < i { a } else { a + 1 };
        let b1 = if b < i { b } else { b + 1 };
        assert(keys2[a] == keys[a1] && keys2[b] == keys[b1]);
    }
    assert forall|k: Seq<char>| keys2.contains(k) <==> (keys.contains(k) && k != keys[i]) by {
        if keys2.contains(k) {
            let a = position(keys2, k);
            let a1 = if a < i { a } else { a + 1 };
            assert(keys[a1] == k);
        }
        if keys.contains(k) && k != keys[i] {
            let j = position(keys, k);
            let j2 = if j < i { j } else { j - 1 };
            assert(keys2[j2] == k);
        }
    }
    assert forall|k: Seq<char>| keys2.contains(k) implies #[trigger] as_map(keys2, values2)[k]
        == as_map(keys, values).remove(keys[i])[k] by {
        let a = position(keys2, k);
        let a1 = if a < i { a } else { a + 1 };
        assert(keys[a1] == k);
        let j = position(keys, k);
        assert(j == a1);
    }
    assert(as_map(keys2, values2) =~= as_map(keys, values).remove(keys[i]));
}

/// The texts of a list of strings.
pub open spec fn texts(names: Seq<String>) -> Seq<Seq<char>> {
    Seq::new(names.len(), |i: int| names[i]@)
}

/// A map from text to `V`, kept as a list of distinct keys in the order in
/// which they were first inserted, and the list of their values.
#[derive(Debug)]
pub struct StringMap<V> {
    names: Vec<String>,
    items: Vec<V>,
}

impl<V> View for StringMap<V> {
    type V = Map<Seq<char>, V>;

    open spec fn view(&self) -> Map<Seq<char>, V> {
        as_map(self.keys(), self.values())
    }
}

impl<V> StringMap<V> {
    /// The keys, in the order in which they were first inserted.
    pub closed spec fn keys(&self) -> Seq<Seq<char>> {
        texts(self.names@)
    }

    /// The values, each at the index of its key.
    pub closed spec fn values(&self) -> Seq<V> {
        self.items@
    }

    #[verifier::type_invariant]
    spec fn lined_up(&self) -> bool {
        &&& self.names@.len() == self.items@.len()
        &&& texts(self.names@).no_duplicates()
    }

    /// The keys and the values line up, and no key occurs twice.
    pub open spec fn wf(&self) -> bool {
        &&& self.keys().len() == self.values().len()
        &&& self.keys().no_duplicates()
    }

    /// A map without entries.
    pub fn new() -> (m: Self)
        ensures
            m.wf(),
            m.keys() == Seq::<Seq<char>>::empty(),
            m.values() == Seq::<V>::empty(),
            m@ == Map::<Seq<char>, V>::empty(),
    {
        let m = StringMap { names: Vec::new(), items: Vec::new() };
        assert(m.keys() =~= Seq::<Seq<char>>::empty());
        assert(m@ =~= Map::<Seq<char>, V>::empty());
        m
    }

    /// Moves the two lists out and leaves the map empty.
    fn take(&mut self) -> (lists: (Vec<String>, Vec<V>))
        ensures
            lists.0 == old(self).names,
            lists.1 == old(self).items,
    {
        let mut taken = StringMap::new();
        std::mem::swap(self, &mut taken);
        (taken.names, taken.items)
    }

    /// The number of entries.
    pub fn len(&self) -> (n: usize)
        ensures
            n == self.keys().len(),
            n == self.values().len(),
            self.wf(),
    {
        proof {
            use_type_invariant(self);
        }
        self.names.len()
    }

    /// The index of `key`, if the map holds it.
    pub fn index_of(&self, key: &str) -> (r: Option<usize>)
        ensures
            self.wf(),
            match r {
                Some(i) => {
                    &&& i < self.keys().len()
                    &&& self.keys()[i as int] == key@
                    &&& position(self.keys(), key@) == i
                    &&& self@.contains_key(key@)
                    &&& self@[key@] == self.values()[i as int]
                },
                None => !self.keys().contains(key@) && !self@.contains_key(key@),
            },
    {
        proof {
            use_type_invariant(self);
        }
        let mut i: usize = 0;
        while i < self.names.len()
            invariant
                i <= self.names.len(),
                self.names@.len() == self.items@.len(),
                self.keys() == texts(self.names@),
                self.values() == self.items@,
                self.keys().no_duplicates(),
                forall|j: int| 0 <= j < i ==> self.keys()[j] != key@,
            decreases self.names.len() - i,
        {
            if same_text(self.names[i].as_str(), key) {
                assert(self.keys()[i as int] == key@);
                return Some(i);
            }
            i += 1;
        }
        None
    }

    /// Whether the map holds `key`.
    pub fn contains_key(&self, key: &str) -> (r: bool)
        ensures
            r == self@.contains_key(key@),
    {
        self.index_of(key).is_some()
    }

    /// The value under `key`.
    pub fn get(&self, key: &str) -> (r: Option<&V>)
        ensures
            match r {
                Some(v) => self@.contains_key(key@) && *v == self@[key@],
                None => !self@.contains_key(key@),
            },
    {
        match self.index_of(key) {
            Some(i) => Some(&self.items[i]),
            None => None,
        }
    }

    /// The key at index `i`.
    pub fn key_at(&self, i: usize) -> (k: &str)
        requires
            i < self.keys().len(),
        ensures
            k@ == self.keys()[i as int],
    {
        self.names[i].as_str()
    }

    /// The value at index `i`.
    pub fn value_at(&self, i: usize) -> (v: &V)
        requires
            i < self.values().len(),
        ensures
            *v == self.values()[i as int],
    {
        &self.items[i]
    }

    /// The value at index `i`, to change in place.
    pub fn value_at_mut(&mut self, i: usize) -> (v: &mut V)
        requires
            i < old(self).values().len(),
        ensures
            *v == old(self).values()[i as int],
            old(self).wf(),
            final(self).keys() == old(self).keys(),
            final(self).values() == old(self).values().update(i as int, *final(v)),
    {
        proof {
            use_type_invariant(&*self);
        }
        &mut self.items[i]
    }

    /// Puts `value` under `key`: in place of the value that the key had, or
    /// as a new last entry.
    pub fn insert(&mut self, key: String, value: V)
        ensures
            final(self).wf(),
            final(self)@ == old(self)@.insert(key@, value),
            old(self)@.contains_key(key@) ==> final(self).keys() == old(self).keys()
                && final(self).values() == old(self).values().update(
                position(old(self).keys(), key@),
                value,
            ),
            !old(self)@.contains_key(key@) ==> final(self).keys() == old(self).keys().push(key@)
                && final(self).values() == old(self).values().push(value),
    {
        proof {
            use_type_invariant(&*self);
        }
        match self.index_of(key.as_str()) {
            Some(i) => {
                proof {
                    lemma_update_inserts(self.keys(), self.values(), i as int, value);
                }
                let (names, mut items) = self.take();
                items.set(i, value);
                *self = StringMap { names, items };
            },
            None => {
                proof {
                    lemma_push_inserts(self.keys(), self.values(), key@, value);
                }
                let (mut names, mut items) = self.take();
                names.push(key);
                items.push(value);
                assert(texts(names@) =~= old(self).keys().push(key@));
                *self = StringMap { names, items };
            },
        }
    }

    /// Takes out `key` and hands back the value that it had.
    pub fn remove(&mut self, key: &str) -> (r: Option<V>)
        ensures
            final(self).wf(),
            final(self)@ == old(self)@.remove(key@),
            match r {
                Some(v) => {
                    &&& old(self)@.contains_key(key@)
                    &&& v == old(self)@[key@]
                    &&& final(self).keys() == old(self).keys().remove(
                        position(old(self).keys(), key@),
                    )
                    &&& final(self).values() == old(self).values().remove(
                        position(old(self).keys(), key@),
                    )
                },
                None => {
                    &&& !old(self)@.contains_key(key@)
                    &&& final(self).keys() == old(self).keys()
                    &&& final(self).values() == old(self).values()
                },
            },
    {
        proof {
            use_type_invariant(&*self);
        }
        match self.index_of(key) {
            Some(i) => {
                proof {
                    lemma_remove_removes(self.keys(), self.values(), i as int);
                }
                let (mut names, mut items) = self.take();
                names.remove(i);
                let item = items.remove(i);
                assert(texts(names@) =~= old(self).keys().remove(i as int));
                *self = StringMap { names, items };
                Some(item)
            },
            None => {
                assert(old(self)@.remove(key@) =~= old(self)@);
                None
            },
        }
    }
}

} // verus!
