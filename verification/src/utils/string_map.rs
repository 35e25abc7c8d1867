//! A map from strings to values that remembers the order in which keys were first inserted.

use vstd::prelude::*;
use crate::text::views;

verus! {

/// The map that holds `values[i]` under `keys[i]` for every index, later indices winning.
pub open spec fn map_of<T>(keys: Seq<Seq<char>>, values: Seq<T>) -> Map<Seq<char>, T>
    decreases keys.len(),
{
    if keys.len() == 0 || values.len() != keys.len() {
        Map::empty()
    } else {
        map_of(keys.drop_last(), values.drop_last()).insert(keys.last(), values.last())
    }
}

/// No key occurs twice in `keys`.
pub open spec fn distinct(keys: Seq<Seq<char>>) -> bool {
    forall|i: int, j: int| 0 <= i < j < keys.len() ==> keys[i] != keys[j]
}

/// The keys of `map_of` are the members of `keys`, and with distinct keys each index holds
/// its own value.
pub proof fn lemma_map_of<T>(keys: Seq<Seq<char>>, values: Seq<T>)
    requires
        keys.len() == values.len(),
    ensures
        forall|k: Seq<char>| #[trigger] map_of(keys, values).contains_key(k) <==> keys.contains(k),
        distinct(keys) ==> forall|i: int|
            0 <= i < keys.len() ==> #[trigger] map_of(keys, values)[keys[i]] == values[i],
    decreases keys.len(),
{
    if keys.len() > 0 {
        let front_keys = keys.drop_last();
        let front_values = values.drop_last();
        lemma_map_of(front_keys, front_values);
        assert(map_of(keys, values) == map_of(front_keys, front_values).insert(
            keys.last(),
            values.last(),
        ));
        assert forall|k: Seq<char>| #[trigger]
            map_of(keys, values).contains_key(k) <==> keys.contains(k) by {
            assert(map_of(front_keys, front_values).contains_key(k) <==> front_keys.contains(k));
            if keys.contains(k) {
                let i = choose|i: int| 0 <= i < keys.len() && keys[i] == k;
                if i < keys.len() - 1 {
                    assert(front_keys[i] == k);
                    assert(front_keys.contains(k));
                }
            }
            if front_keys.contains(k) {
                let i = choose|i: int| 0 <= i < front_keys.len() && front_keys[i] == k;
                assert(keys[i] == k);
            }
            if k == keys.last() {
                assert(keys[keys.len() - 1] == k);
            }
        }
        if distinct(keys) {
            assert(distinct(front_keys)) by {
                assert forall|i: int, j: int| 0 <= i < j < front_keys.len() implies front_keys[i]
                    != front_keys[j] by {
                    assert(keys[i] != keys[j]);
                }
            }
            assert forall|i: int| 0 <= i < keys.len() implies #[trigger] map_of(
                keys,
                values,
            )[keys[i]] == values[i] by {
                if i < keys.len() - 1 {
                    assert(keys[i] != keys[keys.len() - 1]);
                    assert(front_keys[i] == keys[i]);
                    assert(front_values[i] == values[i]);
                    assert(map_of(front_keys, front_values)[front_keys[i]] == front_values[i]);
                }
            }
        }
    } else {
        assert forall|k: Seq<char>| #[trigger]
            map_of(keys, values).contains_key(k) <==> keys.contains(k) by {
            if keys.contains(k) {
                let i = choose|i: int| 0 <= i < keys.len() && keys[i] == k;
            }
        }
    }
}

/// Replacing the value at index `i` of distinct keys is an insertion under `keys[i]`.
pub proof fn lemma_map_of_update<T>(keys: Seq<Seq<char>>, values: Seq<T>, i: int, value: T)
    requires
        keys.len() == values.len(),
        distinct(keys),
        0 <= i < keys.len(),
    ensures
        map_of(keys, values.update(i, value)) == map_of(keys, values).insert(keys[i], value),
    decreases keys.len(),
{
    let front_keys = keys.drop_last();
    let front_values = values.drop_last();
    let updated = values.update(i, value);
    if i == keys.len() - 1 {
        assert(updated.drop_last() == front_values);
        assert(map_of(keys, updated) == map_of(keys, values).insert(keys[i], value));
    } else {
        assert(distinct(front_keys)) by {
            assert forall|a: int, b: int| 0 <= a < b < front_keys.len() implies front_keys[a]
                != front_keys[b] by {
                assert(keys[a] != keys[b]);
            }
        }
        lemma_map_of_update(front_keys, front_values, i, value);
        assert(updated.drop_last() == front_values.update(i, value));
        assert(front_keys[i] == keys[i]);
        assert(keys[i] != keys[keys.len() - 1]);
        assert(map_of(keys, updated) == map_of(keys, values).insert(keys[i], value));
    }
}

/// A map from strings to values. Keys keep the order of their first insertion.
#[derive(Debug)]
#[verifier::reject_recursive_types(T)]
pub struct StringMap<T> {
    keys: Vec<String>,
    values: Vec<T>,
}

impl<T> View for StringMap<T> {
    type V = Map<Seq<char>, T>;

    closed spec fn view(&self) -> Map<Seq<char>, T> {
        map_of(self.key_seq(), self.values@)
    }
}

impl<T> StringMap<T> {
    #[verifier::type_invariant]
    spec fn well_formed(self) -> bool {
        &&& self.keys@.len() == self.values@.len()
        &&& distinct(self.key_seq())
    }

    /// The keys in the order of their first insertion.
    pub closed spec fn key_seq(self) -> Seq<Seq<char>> {
        views(self.keys@)
    }

    /// The values in the order of their keys.
    pub closed spec fn value_seq(self) -> Seq<T> {
        self.values@
    }

    /// How the ordered keys and values relate to the view.
    pub proof fn lemma_entries(self)
        requires
            self.key_seq().len() == self.value_seq().len(),
        ensures
            self@ == map_of(self.key_seq(), self.value_seq()),
            forall|k: Seq<char>| #[trigger] self@.contains_key(k) <==> self.key_seq().contains(k),
            distinct(self.key_seq()) ==> forall|i: int|
                0 <= i < self.key_seq().len() ==> #[trigger] self@[self.key_seq()[i]]
                    == self.value_seq()[i],
    {
        lemma_map_of(self.key_seq(), self.values@);
    }

    /// The empty map.
    pub fn new() -> (out: Self)
        ensures
            out@ == Map::<Seq<char>, T>::empty(),
            out.key_seq() == Seq::<Seq<char>>::empty(),
            out.value_seq() == Seq::<T>::empty(),
    {
        let out = StringMap { keys: Vec::new(), values: Vec::new() };
        assert(out.key_seq() == Seq::<Seq<char>>::empty());
        out
    }

    /// The number of keys. Keys are distinct, and each has one value.
    pub fn len(&self) -> (n: usize)
        ensures
            n == self.key_seq().len(),
            n == self.value_seq().len(),
            distinct(self.key_seq()),
    {
        proof {
            use_type_invariant(self);
        }
        self.keys.len()
    }

    /// The index of `key` among the keys, if it is one of them.
    pub fn position(&self, key: &str) -> (out: Option<usize>)
        ensures
            match out {
                Some(i) => i < self.key_seq().len() && self.key_seq()[i as int] == key@,
                None => !self.key_seq().contains(key@),
            },
    {
        let wanted = key.to_owned();
        let mut i: usize = 0;
        while i < self.keys.len()
            invariant
                i <= self.keys.len(),
                wanted@ == key@,
                forall|j: int| 0 <= j < i ==> self.key_seq()[j] != key@,
            decreases self.keys.len() - i,
        {
            if self.keys[i] == wanted {
                return Some(i);
            }
            i = i + 1;
        }
        None
    }

    /// Whether `key` is in the map.
    pub fn contains_key(&self, key: &str) -> (found: bool)
        ensures
            found == self@.contains_key(key@),
    {
        proof {
            use_type_invariant(self);
            self.lemma_entries();
        }
        self.position(key).is_some()
    }

    /// The value held under `key`, if there is one.
    pub fn get(&self, key: &str) -> (out: Option<&T>)
        ensures
            match out {
                Some(value) => self@.contains_key(key@) && *value == self@[key@],
                None => !self@.contains_key(key@),
            },
    {
        proof {
            use_type_invariant(self);
            self.lemma_entries();
        }
        match self.position(key) {
            Some(i) => Some(&self.values[i]),
            None => None,
        }
    }

    /// The key at index `i` in insertion order.
    pub fn key_at(&self, i: usize) -> (key: &String)
        requires
            i < self.key_seq().len(),
        ensures
            key@ == self.key_seq()[i as int],
    {
        &self.keys[i]
    }

    /// The value of the key at index `i` in insertion order.
    pub fn value_at(&self, i: usize) -> (value: &T)
        requires
            i < self.value_seq().len(),
        ensures
            *value == self.value_seq()[i as int],
    {
        &self.values[i]
    }

    /// Holds `value` under `key`, in place of any value held there before. A new key goes
    /// behind the others; a known key keeps its place.
    pub fn insert(&mut self, key: String, value: T)
        ensures
            final(self)@ == old(self)@.insert(key@, value),
            old(self)@.contains_key(key@) ==> final(self).key_seq() == old(self).key_seq()
                && final(self).value_seq().len() == old(self).value_seq().len() && forall|i: int|
                0 <= i < old(self).key_seq().len() ==> #[trigger] final(self).value_seq()[i] == if old(
                    self,
                ).key_seq()[i] == key@ {
                    value
                } else {
                    old(self).value_seq()[i]
                },
            !old(self)@.contains_key(key@) ==> final(self).key_seq() == old(
                self,
            ).key_seq().push(key@) && final(self).value_seq() == old(self).value_seq().push(value),
    {
        proof {
            use_type_invariant(&*self);
            self.lemma_entries();
        }
        let ghost old_keys = self.key_seq();
        let ghost old_values = self.values@;
        let found = self.position(key.as_str());
        let mut taken = StringMap::new();
        core::mem::swap(self, &mut taken);
        let StringMap { keys: mut keys, values: mut values } = taken;
        match found {
            Some(i) => {
                proof {
                    lemma_map_of_update(old_keys, old_values, i as int, value);
                }
                values.set(i, value);
                *self = StringMap { keys, values };
            },
            None => {
                keys.push(key);
                values.push(value);
                proof {
                    let new_keys = views(keys@);
                    assert(new_keys == old_keys.push(key@));
                    assert(new_keys.drop_last() == old_keys);
                    assert(values@.drop_last() == old_values);
                    assert(distinct(new_keys)) by {
                        assert forall|a: int, b: int| 0 <= a < b < new_keys.len() implies new_keys[a]
                            != new_keys[b] by {
                            if b == new_keys.len() - 1 {
                                assert(old_keys.contains(old_keys[a]));
                            } else {
                                assert(old_keys[a] != old_keys[b]);
                            }
                        }
                    }
                }
                *self = StringMap { keys, values };
            },
        }
    }
}

} // verus!
