//! A small unbounded map, kept as a list of entries.
//!
//! Keys are compared by their views, so the view of a table is a `Map` from
//! key views to value views. Where a key should occur more than once in the list,
//! its last entry is the one that counts.

use crate::ident::FileId;
use vstd::prelude::*;

verus! {

/// A key of a [`Table`]: two keys are the same when their views are equal.
pub trait Key: View + Sized {
    /// Whether `self` and `other` are the same key.
    fn same_key(&self, other: &Self) -> (r: bool)
        ensures
            r == (self@ == other@),
    ;
}

impl Key for FileId {
    fn same_key(&self, other: &Self) -> (r: bool) {
        self.same(other)
    }
}

impl Key for String {
    fn same_key(&self, other: &Self) -> (r: bool) {
        *self == *other
    }
}

/// The map that a list of entries stands for.
pub open spec fn entries_map<K: Key, V: View>(entries: Seq<(K, V)>) -> Map<K::V, V::V>
    decreases entries.len(),
{
    if entries.len() == 0 {
        Map::empty()
    } else {
        entries_map(entries.drop_last()).insert(entries.last().0@, entries.last().1@)
    }
}

/// An unbounded map from `K` to `V`.
#[derive(Debug)]
pub struct Table<K: Key, V: View> {
    entries: Vec<(K, V)>,
}

impl<K: Key, V: View> View for Table<K, V> {
    type V = Map<K::V, V::V>;

    closed spec fn view(&self) -> Map<K::V, V::V> {
        entries_map(self.entries@)
    }
}

impl<K: Key, V: View> Table<K, V> {
    /// An empty table.
    pub fn new() -> (r: Self)
        ensures
            r@ == Map::<K::V, V::V>::empty(),
    {
        Table { entries: Vec::new() }
    }

    /// The position of the entry that counts for `key`, if there is one.
    fn position(&self, key: &K) -> (r: Option<usize>)
        ensures
            match r {
                Some(i) => i < self.entries.len() && self.entries@[i as int].0@ == key@
                    && forall|j: int|
                    i < j < self.entries.len() ==> (#[trigger] self.entries@[j]).0@ != key@,
                None => forall|j: int|
                    0 <= j < self.entries.len() ==> (#[trigger] self.entries@[j]).0@ != key@,
            },
    {
        let mut i: usize = self.entries.len();
        while i > 0
            invariant
                i <= self.entries.len(),
                forall|j: int|
                    i <= j < self.entries.len() ==> (#[trigger] self.entries@[j]).0@ != key@,
            decreases i,
        {
            i = i - 1;
            if self.entries[i].0.same_key(key) {
                return Some(i);
            }
        }
        None
    }

    /// Whether `key` has a value.
    pub fn contains_key(&self, key: &K) -> (r: bool)
        ensures
            r == self@.contains_key(key@),
    {
        let found = self.position(key);
        proof {
            match found {
                Some(i) => lemma_last_entry_counts(self.entries@, i as int),
                None => lemma_absent(self.entries@, key@),
            }
        }
        found.is_some()
    }

    /// The value stored under `key`, if there is one.
    pub fn get(&self, key: &K) -> (r: Option<&V>)
        ensures
            match r {
                Some(v) => self@.contains_key(key@) && v@ == self@[key@],
                None => !self@.contains_key(key@),
            },
    {
        match self.position(key) {
            Some(i) => {
                proof {
                    lemma_last_entry_counts(self.entries@, i as int);
                }
                Some(&self.entries[i].1)
            },
            None => {
                proof {
                    lemma_absent(self.entries@, key@);
                }
                None
            },
        }
    }

    /// Stores `value` under `key`, in place of what was stored under it before.
    pub fn insert(&mut self, key: K, value: V)
        ensures
            final(self)@ == old(self)@.insert(key@, value@),
    {
        let ghost before = self.entries@;
        match self.position(&key) {
            Some(i) => {
                self.entries[i] = (key, value);
                proof {
                    lemma_replace(before, i as int, key, value);
                }
            },
            None => {
                self.entries.push((key, value));
                assert(self.entries@.drop_last() =~= before);
            },
        }
    }
}

/// A key that no entry has is not in the map.
pub proof fn lemma_absent<K: Key, V: View>(entries: Seq<(K, V)>, key: K::V)
    requires
        forall|j: int| 0 <= j < entries.len() ==> (#[trigger] entries[j]).0@ != key,
    ensures
        !entries_map(entries).contains_key(key),
    decreases entries.len(),
{
    if entries.len() > 0 {
        let front = entries.drop_last();
        assert forall|j: int| 0 <= j < front.len() implies (#[trigger] front[j]).0@ != key by {
            assert(entries[j].0@ != key);
        }
        lemma_absent(front, key);
        assert(entries[entries.len() - 1].0@ != key);
    }
}

/// The last entry with a given key is what the map holds for that key.
pub proof fn lemma_last_entry_counts<K: Key, V: View>(entries: Seq<(K, V)>, i: int)
    requires
        0 <= i < entries.len(),
        forall|j: int| i < j < entries.len() ==> (#[trigger] entries[j]).0@ != entries[i].0@,
    ensures
        entries_map(entries).contains_key(entries[i].0@),
        entries_map(entries)[entries[i].0@] == entries[i].1@,
    decreases entries.len(),
{
    if i < entries.len() - 1 {
        let front = entries.drop_last();
        assert forall|j: int| i < j < front.len() implies (#[trigger] front[j]).0@
            != front[i].0@ by {
            assert(entries[j].0@ != entries[i].0@);
        }
        lemma_last_entry_counts(front, i);
        assert(entries[entries.len() - 1].0@ != entries[i].0@);
    }
}

/// Replacing the last entry of a key by one with the same key stores the new value.
pub proof fn lemma_replace<K: Key, V: View>(entries: Seq<(K, V)>, i: int, key: K, value: V)
    requires
        0 <= i < entries.len(),
        entries[i].0@ == key@,
        forall|j: int| i < j < entries.len() ==> (#[trigger] entries[j]).0@ != key@,
    ensures
        entries_map(entries.update(i, (key, value))) == entries_map(entries).insert(key@, value@),
    decreases entries.len(),
{
    let after = entries.update(i, (key, value));
    let front = entries.drop_last();
    if i == entries.len() - 1 {
        assert(after.drop_last() =~= front);
        assert(entries_map(after) =~= entries_map(entries).insert(key@, value@));
    } else {
        let last = entries.last();
        assert(entries[entries.len() - 1].0@ != key@);
        assert forall|j: int| i < j < front.len() implies (#[trigger] front[j]).0@ != key@ by {
            assert(entries[j].0@ != key@);
        }
        lemma_replace(front, i, key, value);
        assert(after.drop_last() =~= front.update(i, (key, value)));
        assert(after.last() == last);
        assert(entries_map(after) =~= entries_map(entries).insert(key@, value@));
    }
}

} // verus!
