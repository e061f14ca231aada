use vstd::prelude::*;

use crate::kinds::{Currency, Exchange};
use crate::types::InstrumentKey;

verus! {

/// What a table can be searched by.
pub trait Key: Sized {
    type K;

    /// What decides whether two keys are the same.
    spec fn key(&self) -> Self::K;

    fn same_key(&self, other: &Self) -> (r: bool)
        ensures
            r == (self.key() == other.key()),
    ;

    fn copy_key(&self) -> (r: Self)
        ensures
            r == *self,
    ;
}

impl Key for String {
    type K = Seq<char>;

    open spec fn key(&self) -> Seq<char> {
        self@
    }

    fn same_key(&self, other: &String) -> (r: bool) {
        self.as_str().eq(other.as_str())
    }

    fn copy_key(&self) -> (r: String) {
        self.clone()
    }
}

impl Key for InstrumentKey {
    type K = InstrumentKey;

    open spec fn key(&self) -> InstrumentKey {
        *self
    }

    fn same_key(&self, other: &InstrumentKey) -> (r: bool) {
        *self == *other
    }

    fn copy_key(&self) -> (r: InstrumentKey) {
        *self
    }
}

impl Key for Exchange {
    type K = Exchange;

    open spec fn key(&self) -> Exchange {
        *self
    }

    fn same_key(&self, other: &Exchange) -> (r: bool) {
        *self == *other
    }

    fn copy_key(&self) -> (r: Exchange) {
        *self
    }
}

impl Key for Currency {
    type K = Currency;

    open spec fn key(&self) -> Currency {
        *self
    }

    fn same_key(&self, other: &Currency) -> (r: bool) {
        *self == *other
    }

    fn copy_key(&self) -> (r: Currency) {
        *self
    }
}

/// A map from keys to values.
#[derive(Debug)]
pub struct Table<K: Key, V> {
    entries: Vec<(K, V)>,
}

/// No two entries have the same key.
pub open spec fn distinct<K: Key, V>(entries: Seq<(K, V)>) -> bool {
    forall|i: int, j: int|
        #![trigger entries[i], entries[j]]
        0 <= i < j < entries.len() ==> entries[i].0.key() != entries[j].0.key()
}

/// Whether an entry has a key.
pub open spec fn holds<K: Key, V>(entries: Seq<(K, V)>, k: K::K) -> bool {
    exists|i: int| 0 <= i < entries.len() && (#[trigger] entries[i]).0.key() == k
}

/// The position of a key.
pub open spec fn position<K: Key, V>(entries: Seq<(K, V)>, k: K::K) -> int {
    choose|i: int| 0 <= i < entries.len() && (#[trigger] entries[i]).0.key() == k
}

/// As many keys as there are entries.
pub proof fn rows_count<K: Key, V>(rows: Seq<(K, V)>, map: Map<K::K, V>)
    requires
        distinct(rows),
        forall|k: K::K| #[trigger] map.contains_key(k) <==> holds(rows, k),
    ensures
        map.dom().finite(),
        map.dom().len() == rows.len(),
{
    let keys = rows.map_values(|r: (K, V)| r.0.key());
    assert(keys.no_duplicates()) by {
        assert forall|i: int, j: int| 0 <= i < keys.len() && 0 <= j < keys.len() && i != j implies keys[i] != keys[j] by {
            assert(rows[i].0.key() == keys[i]);
            assert(rows[j].0.key() == keys[j]);
        }
    }
    keys.unique_seq_to_set();
    assert(map.dom() =~= keys.to_set()) by {
        assert forall|k: K::K| map.dom().contains(k) <==> keys.to_set().contains(k) by {
            if map.contains_key(k) {
                let i = choose|i: int| 0 <= i < rows.len() && (#[trigger] rows[i]).0.key() == k;
                assert(keys[i] == k);
            }
            if keys.contains(k) {
                let i = choose|i: int| 0 <= i < keys.len() && keys[i] == k;
                assert(rows[i].0.key() == k);
            }
        }
    }
}

impl<K: Key, V> View for Table<K, V> {
    type V = Map<K::K, V>;

    closed spec fn view(&self) -> Map<K::K, V> {
        Map::new(|k: K::K| holds(self.entries@, k), |k: K::K| self.entries@[position(self.entries@, k)].1)
    }
}

impl<K: Key, V> Table<K, V> {
    /// The entries in the order in which their keys first came in.
    pub closed spec fn rows(&self) -> Seq<(K, V)> {
        self.entries@
    }

    #[verifier::type_invariant]
    spec fn inv(self) -> bool {
        distinct(self.entries@)
    }

    proof fn lemma_row(&self, i: int)
        requires
            self.inv(),
            0 <= i < self.entries@.len(),
        ensures
            self@.contains_key(self.entries@[i].0.key()),
            self@[self.entries@[i].0.key()] == self.entries@[i].1,
    {
        let k = self.entries@[i].0.key();
        assert(holds(self.entries@, k));
        assert(position(self.entries@, k) == i);
    }

    /// A table without entries.
    pub fn new() -> (r: Table<K, V>)
        ensures
            r@ == Map::<K::K, V>::empty(),
            r.rows().len() == 0,
    {
        let r = Table { entries: Vec::new() };
        assert(r@ =~= Map::<K::K, V>::empty());
        r
    }

    /// How many keys there are. The entries are exactly the map's, each key once.
    pub fn len(&self) -> (r: usize)
        ensures
            r == self.rows().len(),
            distinct(self.rows()),
            forall|i: int|
                #![trigger self.rows()[i]]
                0 <= i < r ==> self@.contains_key(self.rows()[i].0.key()) && self@[self.rows()[i].0.key()]
                    == self.rows()[i].1,
            forall|k: K::K| #[trigger] self@.contains_key(k) <==> holds(self.rows(), k),
    {
        proof {
            use_type_invariant(self);
            assert forall|i: int|
                #![trigger self.rows()[i]]
                0 <= i < self.entries@.len() implies self@.contains_key(self.rows()[i].0.key()) && self@[self.rows()[i].0.key()]
                == self.rows()[i].1 by {
                self.lemma_row(i);
            }
        }
        self.entries.len()
    }

    /// The entry at a position; every entry is the one that the map has under its key.
    pub fn row(&self, i: usize) -> (r: (&K, &V))
        requires
            i < self.rows().len(),
        ensures
            *r.0 == self.rows()[i as int].0,
            *r.1 == self.rows()[i as int].1,
            self@.contains_key(r.0.key()),
            self@[r.0.key()] == *r.1,
    {
        proof {
            use_type_invariant(self);
            self.lemma_row(i as int);
        }
        let entry = &self.entries[i];
        (&entry.0, &entry.1)
    }

    /// Every key of the map is at one position and no other.
    pub fn index_of(&self, key: &K) -> (r: Option<usize>)
        ensures
            match r {
                Some(i) => {
                    &&& i < self.rows().len()
                    &&& self.rows()[i as int].0.key() == key.key()
                    &&& self@.contains_key(key.key())
                    &&& self@[key.key()] == self.rows()[i as int].1
                },
                None => !self@.contains_key(key.key()),
            },
    {
        proof {
            use_type_invariant(self);
        }
        for i in 0..self.entries.len()
            invariant
                self.inv(),
                forall|j: int| 0 <= j < i ==> (#[trigger] self.entries@[j]).0.key() != key.key(),
        {
            if self.entries[i].0.same_key(key) {
                proof {
                    self.lemma_row(i as int);
                }
                return Some(i);
            }
        }
        None
    }

    /// The value of a key.
    pub fn get(&self, key: &K) -> (r: Option<&V>)
        ensures
            match r {
                Some(v) => self@.contains_key(key.key()) && self@[key.key()] == *v,
                None => !self@.contains_key(key.key()),
            },
    {
        match self.index_of(key) {
            Some(i) => Some(&self.entries[i].1),
            None => None,
        }
    }

    pub fn contains(&self, key: &K) -> (r: bool)
        ensures
            r == self@.contains_key(key.key()),
    {
        self.index_of(key).is_some()
    }

    /// Gives a key a value, in place of the one that it may have.
    pub fn insert(&mut self, key: K, value: V)
        ensures
            final(self)@ == old(self)@.insert(key.key(), value),
            // A new key comes last.
            !old(self)@.contains_key(key.key()) ==> final(self).rows() == old(self).rows().push((key, value)),
    {
        let at = self.index_of(&key);
        proof {
            use_type_invariant(&*self);
        }
        let mut entries: Vec<(K, V)> = Vec::new();
        std::mem::swap(&mut entries, &mut self.entries);
        let ghost before = entries@;
        match at {
            Some(i) => {
                entries.set(i, (key, value));
                assert(entries@ =~= before.update(i as int, (key, value)));
                assert(distinct(entries@)) by {
                    assert forall|a: int, b: int|
                        #![trigger entries@[a], entries@[b]]
                        0 <= a < b < entries@.len() implies entries@[a].0.key() != entries@[b].0.key() by {
                        assert(before[a].0.key() == entries@[a].0.key());
                        assert(before[b].0.key() == entries@[b].0.key());
                    }
                }
            },
            None => {
                entries.push((key, value));
                assert(distinct(entries@)) by {
                    assert forall|a: int, b: int|
                        #![trigger entries@[a], entries@[b]]
                        0 <= a < b < entries@.len() implies entries@[a].0.key() != entries@[b].0.key() by {
                        assert(before[a] == entries@[a]);
                        if b < before.len() {
                            assert(before[b] == entries@[b]);
                        } else {
                            assert(!holds(before, key.key()));
                        }
                    }
                }
            },
        }
        self.entries = entries;
        proof {
            let k0 = key.key();
            let at_k0 = if at is Some { at->0 as int } else { before.len() as int };
            assert(self.entries@[at_k0] == (key, value));
            self.lemma_row(at_k0);
            assert forall|k: K::K| k != k0 implies #[trigger] self@.contains_key(k) == old(self)@.contains_key(k) && (
            self@.contains_key(k) ==> self@[k] == old(self)@[k]) by {
                if holds(self.entries@, k) {
                    let i = position(self.entries@, k);
                    assert(self.entries@[i].0.key() == k);
                    assert(before[i].0.key() == k);
                    assert(holds(before, k));
                    let j = position(before, k);
                    assert(before[j].0.key() == k);
                    assert(i == j);
                }
                if holds(before, k) {
                    let i = position(before, k);
                    assert(before[i].0.key() == k);
                    assert(self.entries@[i].0.key() == k);
                }
            }
            assert(self@ =~= old(self)@.insert(k0, value));
        }
    }

    /// Takes a key out and hands over the value that it had.
    pub fn remove(&mut self, key: &K) -> (r: Option<V>)
        ensures
            final(self)@ == old(self)@.remove(key.key()),
            match r {
                Some(v) => old(self)@.contains_key(key.key()) && old(self)@[key.key()] == v,
                None => !old(self)@.contains_key(key.key()),
            },
            r is None ==> *final(self) == *old(self),
    {
        let at = self.index_of(key);
        proof {
            use_type_invariant(&*self);
        }
        match at {
            Some(i) => {
                let mut entries: Vec<(K, V)> = Vec::new();
                std::mem::swap(&mut entries, &mut self.entries);
                let ghost before = entries@;
                let (_, value) = entries.remove(i);
                assert(entries@ =~= before.remove(i as int));
                assert(distinct(entries@)) by {
                    assert forall|a: int, b: int|
                        #![trigger entries@[a], entries@[b]]
                        0 <= a < b < entries@.len() implies entries@[a].0.key() != entries@[b].0.key() by {
                        let a2 = if a < i { a } else { a + 1 };
                        let b2 = if b < i { b } else { b + 1 };
                        assert(before[a2] == entries@[a]);
                        assert(before[b2] == entries@[b]);
                    }
                }
                self.entries = entries;
                proof {
                    assert forall|k: K::K| #[trigger] self@.contains_key(k) == (k != key.key() && old(
                        self,
                    )@.contains_key(k)) && (self@.contains_key(k) ==> self@[k] == old(self)@[k]) by {
                        if holds(self.entries@, k) {
                            let a = position(self.entries@, k);
                            assert(self.entries@[a].0.key() == k);
                            let a2 = if a < i { a } else { a + 1 };
                            assert(before[a2] == self.entries@[a]);
                            assert(before[i as int].0.key() == key.key());
                            assert(holds(before, k));
                            let b = position(before, k);
                            assert(before[b].0.key() == k);
                            assert(b == a2);
                        }
                        if k != key.key() && holds(before, k) {
                            let b = position(before, k);
                            assert(before[b].0.key() == k);
                            assert(b != i);
                            let a = if b < i { b } else { b - 1 };
                            assert(self.entries@[a] == before[b]);
                        }
                    }
                    assert(self@ =~= old(self)@.remove(key.key()));
                }
                Some(value)
            },
            None => {
                assert(self@ =~= old(self)@.remove(key.key()));
                None
            },
        }
    }
}

} // verus!
