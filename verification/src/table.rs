//! A map from text keys to values that remembers the order in which the keys
//! arrived.

use crate::text::text_seq;
use vstd::hash_map::StringHashMap;
use vstd::prelude::*;

verus! {

/// Values under text keys. Each key is stored once; a key keeps the place at
/// which it first arrived, whatever is stored under it later.
pub struct KeyedTable<V> {
    index: StringHashMap<usize>,
    keys: Vec<String>,
    values: Vec<V>,
}

impl<V> KeyedTable<V> {
    /// The invariant: the index leads from each key to its place, and every
    /// place is reached from its key.
    pub closed spec fn wf(&self) -> bool {
        &&& self.keys.len() == self.values.len()
        &&& forall|k: Seq<char>| #[trigger]
            self.index@.contains_key(k) ==> self.index@[k] < self.keys.len()
                && self.keys[self.index@[k] as int]@ == k
        &&& forall|i: int|
            0 <= i < self.keys.len() ==> self.index@.contains_key(#[trigger] self.keys[i]@)
                && self.index@[self.keys[i]@] == i
    }

    /// The keys, in the order of their arrival.
    pub closed spec fn ids(&self) -> Seq<Seq<char>> {
        text_seq(self.keys@)
    }

    /// The values, each at the place of its key.
    pub closed spec fn entries(&self) -> Seq<V> {
        self.values@
    }

    /// The place of a key.
    pub closed spec fn place(&self, k: Seq<char>) -> int {
        self.index@[k] as int
    }

    /// The table as a map.
    pub closed spec fn view(&self) -> Map<Seq<char>, V> {
        Map::new(
            |k: Seq<char>| self.index@.contains_key(k),
            |k: Seq<char>| self.values[self.index@[k] as int],
        )
    }

    /// How the keys, the values and the map of a table belong together.
    pub proof fn lemma_shape(&self)
        requires
            self.wf(),
        ensures
            self.ids().len() == self.entries().len(),
            self.ids().no_duplicates(),
            forall|i: int|
                0 <= i < self.ids().len() ==> self@.contains_key(#[trigger] self.ids()[i])
                    && self@[self.ids()[i]] == self.entries()[i] && self.place(self.ids()[i]) == i,
            forall|k: Seq<char>| #[trigger]
                self@.contains_key(k) ==> 0 <= self.place(k) < self.ids().len() && self.ids()[self.place(
                    k,
                )] == k && self.entries()[self.place(k)] == self@[k],
    {
        assert forall|i: int, j: int|
            0 <= i < self.ids().len() && 0 <= j < self.ids().len() && i != j implies self.ids()[i]
            != self.ids()[j] by {
            assert(self.index@[self.keys[i]@] == i);
            assert(self.index@[self.keys[j]@] == j);
        }
        assert forall|i: int| 0 <= i < self.ids().len() implies self@.contains_key(
            #[trigger] self.ids()[i],
        ) && self@[self.ids()[i]] == self.entries()[i] && self.place(self.ids()[i]) == i by {
            assert(self.index@.contains_key(self.keys[i]@));
        }
    }

    /// An empty table.
    pub fn new() -> (r: Self)
        ensures
            r.wf(),
            r@ == Map::<Seq<char>, V>::empty(),
            r.ids() == Seq::<Seq<char>>::empty(),
            r.entries() == Seq::<V>::empty(),
    {
        let r = KeyedTable { index: StringHashMap::new(), keys: Vec::new(), values: Vec::new() };
        assert(r@ =~= Map::<Seq<char>, V>::empty());
        assert(r.ids() =~= Seq::<Seq<char>>::empty());
        r
    }

    /// The number of keys.
    pub fn len(&self) -> (r: usize)
        requires
            self.wf(),
        ensures
            r == self.ids().len(),
            r == self.entries().len(),
    {
        self.keys.len()
    }

    /// The place of `key`, if the table holds it.
    pub fn position(&self, key: &str) -> (r: Option<usize>)
        requires
            self.wf(),
        ensures
            match r {
                Some(i) => self@.contains_key(key@) && i == self.place(key@) && i
                    < self.ids().len() && self.ids()[i as int] == key@,
                None => !self@.contains_key(key@),
            },
    {
        match self.index.get(key) {
            Some(i) => Some(*i),
            None => None,
        }
    }

    /// The value under `key`, if the table holds it.
    pub fn get(&self, key: &str) -> (r: Option<&V>)
        requires
            self.wf(),
        ensures
            match r {
                Some(v) => self@.contains_key(key@) && *v == self@[key@],
                None => !self@.contains_key(key@),
            },
    {
        match self.index.get(key) {
            Some(i) => Some(&self.values[*i]),
            None => None,
        }
    }

    /// The key at place `i`.
    pub fn key_at(&self, i: usize) -> (r: &String)
        requires
            self.wf(),
            i < self.ids().len(),
        ensures
            r@ == self.ids()[i as int],
    {
        &self.keys[i]
    }

    /// The value at place `i`.
    pub fn value_at(&self, i: usize) -> (r: &V)
        requires
            self.wf(),
            i < self.entries().len(),
        ensures
            *r == self.entries()[i as int],
    {
        &self.values[i]
    }

    /// Stores `value` under `key`. A key that the table holds already keeps
    /// its place; a new key takes the place behind all others.
    pub fn insert(&mut self, key: String, value: V)
        requires
            old(self).wf(),
        ensures
            final(self).wf(),
            final(self)@ == old(self)@.insert(key@, value),
            old(self)@.contains_key(key@) ==> final(self).ids() == old(self).ids()
                && final(self).entries() == old(self).entries().update(
                old(self).place(key@),
                value,
            ),
            !old(self)@.contains_key(key@) ==> final(self).ids() == old(self).ids().push(key@)
                && final(self).entries() == old(self).entries().push(value),
    {
        let found = self.position(key.as_str());
        match found {
            Some(i) => {
                self.values.set(i, value);
                assert(final(self)@ =~= old(self)@.insert(key@, value)) by {
                    assert forall|k: Seq<char>| old(self)@.insert(key@, value).contains_key(k)
                        implies #[trigger] self@[k] == old(self)@.insert(key@, value)[k] by {
                        if k != key@ {
                            assert(self.index@.contains_key(k));
                            assert(self.keys[self.index@[k] as int]@ == k);
                        }
                    }
                }
            },
            None => {
                let n = self.keys.len();
                let ghost before = *self;
                self.index.insert(key.clone(), n);
                self.keys.push(key);
                self.values.push(value);
                assert(self.wf()) by {
                    assert forall|k: Seq<char>| #[trigger]
                        self.index@.contains_key(k) implies self.index@[k] < self.keys.len()
                        && self.keys[self.index@[k] as int]@ == k by {
                        if k != key@ {
                            assert(before.index@.contains_key(k));
                        }
                    }
                    assert forall|i: int| 0 <= i < self.keys.len() implies self.index@.contains_key(
                        #[trigger] self.keys[i]@,
                    ) && self.index@[self.keys[i]@] == i by {
                        if i < n {
                            assert(before.index@.contains_key(before.keys[i]@));
                        }
                    }
                }
                assert(final(self)@ =~= old(self)@.insert(key@, value)) by {
                    assert forall|k: Seq<char>| old(self)@.insert(key@, value).contains_key(k)
                        implies #[trigger] self@[k] == old(self)@.insert(key@, value)[k] by {
                        if k != key@ {
                            assert(before.index@.contains_key(k));
                        }
                    }
                }
                assert(self.ids() =~= old(self).ids().push(key@));
            },
        }
    }

    /// Exchanges the value at place `i` with `value`.
    pub fn swap_value(&mut self, i: usize, value: &mut V)
        requires
            old(self).wf(),
            i < old(self).entries().len(),
        ensures
            final(self).wf(),
            final(self).ids() == old(self).ids(),
            final(self).entries() == old(self).entries().update(i as int, *old(value)),
            *final(value) == old(self).entries()[i as int],
            final(self)@ == old(self)@.insert(old(self).ids()[i as int], *old(value)),
            forall|k: Seq<char>| final(self).place(k) == old(self).place(k),
    {
        proof {
            self.lemma_shape();
        }
        std::mem::swap(&mut self.values[i], value);
        assert(self@ =~= old(self)@.insert(old(self).ids()[i as int], *old(value))) by {
            assert forall|k: Seq<char>| self@.contains_key(k) implies #[trigger] self@[k] == old(
                self,
            )@.insert(old(self).ids()[i as int], *old(value))[k] by {
                assert(self.index@.contains_key(k));
                if k != old(self).ids()[i as int] {
                    assert(self.keys[self.index@[k] as int]@ == k);
                }
            }
        }
    }
}

} // verus!
