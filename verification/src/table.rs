//! A table of create-once records, each stored under the identity of the
//! asset it describes.

use crate::error::PlatformError;
use crate::identity::Identity;
use vstd::prelude::*;

verus! {

struct Entry<R> {
    key: Identity,
    record: R,
}

/// Records stored under identities. A record is created once under its key;
/// after that it can be read and replaced, and it is never removed.
pub struct Table<R: View> {
    entries: Vec<Entry<R>>,
}

impl<R: View> View for Table<R> {
    type V = Map<Identity, R::V>;

    /// The stored records, each under its key.
    closed spec fn view(&self) -> Map<Identity, R::V> {
        Map::new(
            |key: Identity| Self::holds(self.entries@, key),
            |key: Identity| self.entries@[Self::position(self.entries@, key)].record@,
        )
    }
}

impl<R: View> Table<R> {
    spec fn holds(entries: Seq<Entry<R>>, key: Identity) -> bool {
        exists|i: int| 0 <= i < entries.len() && #[trigger] entries[i].key == key
    }

    spec fn position(entries: Seq<Entry<R>>, key: Identity) -> int {
        choose|i: int| 0 <= i < entries.len() && #[trigger] entries[i].key == key
    }

    spec fn distinct(entries: Seq<Entry<R>>) -> bool {
        forall|i: int, j: int|
            0 <= i < j < entries.len() ==> #[trigger] entries[i].key != #[trigger] entries[j].key
    }

    /// No two records are stored under one key.
    pub closed spec fn well_formed(&self) -> bool {
        Self::distinct(self.entries@)
    }

    proof fn lemma_position(entries: Seq<Entry<R>>, i: int)
        requires
            Self::distinct(entries),
            0 <= i < entries.len(),
        ensures
            Self::holds(entries, entries[i].key),
            Self::position(entries, entries[i].key) == i,
    {
        let found = Self::position(entries, entries[i].key);
        assert(entries[found].key == entries[i].key);
        if found < i {
            assert(entries[found].key != entries[i].key);
        } else if i < found {
            assert(entries[i].key != entries[found].key);
        }
    }

    /// A table that holds no record.
    pub fn new() -> (table: Table<R>)
        ensures
            table.well_formed(),
            table@ == Map::<Identity, R::V>::empty(),
    {
        let table = Table { entries: Vec::new() };
        assert(table@ =~= Map::<Identity, R::V>::empty());
        table
    }

    fn find(&self, key: &Identity) -> (found: Option<usize>)
        ensures
            match found {
                Some(i) => i < self.entries@.len() && self.entries@[i as int].key == *key,
                None => !Self::holds(self.entries@, *key),
            },
    {
        let mut i: usize = 0;
        while i < self.entries.len()
            invariant
                i <= self.entries@.len(),
                forall|j: int| 0 <= j < i ==> self.entries@[j].key != *key,
            decreases self.entries@.len() - i,
        {
            if self.entries[i].key == *key {
                return Some(i);
            }
            i += 1;
        }
        None
    }

    /// Whether a record is stored under `key`.
    pub fn contains(&self, key: &Identity) -> (present: bool)
        ensures
            present == self@.dom().contains(*key),
    {
        self.find(key).is_some()
    }

    /// The record stored under `key`, if there is one.
    pub fn get(&self, key: &Identity) -> (found: Option<&R>)
        requires
            self.well_formed(),
        ensures
            match found {
                Some(record) => self@.dom().contains(*key) && record@ == self@[*key],
                None => !self@.dom().contains(*key),
            },
    {
        match self.find(key) {
            Some(i) => {
                proof {
                    Self::lemma_position(self.entries@, i as int);
                }
                Some(&self.entries[i].record)
            },
            None => None,
        }
    }

    /// Stores `record` under `key`, where no record is stored yet. Where one
    /// is, the table stays as it was.
    pub fn create(&mut self, key: Identity, record: R) -> (result: Result<(), PlatformError>)
        requires
            old(self).well_formed(),
        ensures
            final(self).well_formed(),
            old(self)@.dom().contains(key) ==> {
                &&& result matches Err(error)
                &&& error == PlatformError::DuplicateRecord
                &&& final(self)@ == old(self)@
            },
            !old(self)@.dom().contains(key) ==> {
                &&& result is Ok
                &&& final(self)@ == old(self)@.insert(key, record@)
            },
    {
        if self.find(&key).is_some() {
            return Err(PlatformError::DuplicateRecord);
        }
        let ghost before = self.entries@;
        let ghost stored = record@;
        self.entries.push(Entry { key, record });
        proof {
            let after = self.entries@;
            assert(Self::distinct(after));
            assert forall|k: Identity| Self::holds(after, k) <==> (k == key || Self::holds(
                before,
                k,
            )) by {
                if Self::holds(after, k) {
                    let i = choose|i: int| 0 <= i < after.len() && #[trigger] after[i].key == k;
                    if i < before.len() {
                        assert(before[i].key == k);
                    }
                }
                if k == key {
                    assert(after[before.len() as int].key == k);
                }
                if Self::holds(before, k) {
                    let i = choose|i: int| 0 <= i < before.len() && #[trigger] before[i].key == k;
                    assert(after[i].key == k);
                }
            }
            assert forall|k: Identity| Self::holds(before, k) implies after[Self::position(
                after,
                k,
            )].record@ == before[Self::position(before, k)].record@ by {
                let i = Self::position(before, k);
                assert(after[i].key == k);
                Self::lemma_position(after, i);
            }
            Self::lemma_position(after, before.len() as int);
            assert(self@ =~= old(self)@.insert(key, stored));
        }
        Ok(())
    }

    /// Replaces the record stored under `key` by `record`. Where none is
    /// stored, the table stays as it was.
    pub fn update(&mut self, key: Identity, record: R) -> (result: Result<(), PlatformError>)
        requires
            old(self).well_formed(),
        ensures
            final(self).well_formed(),
            old(self)@.dom().contains(key) ==> {
                &&& result is Ok
                &&& final(self)@ == old(self)@.insert(key, record@)
            },
            !old(self)@.dom().contains(key) ==> {
                &&& result matches Err(error)
                &&& error == PlatformError::RecordNotFound
                &&& final(self)@ == old(self)@
            },
    {
        let i: usize = match self.find(&key) {
            Some(i) => i,
            None => {
                return Err(PlatformError::RecordNotFound);
            },
        };
        let ghost before = self.entries@;
        let ghost stored = record@;
        self.entries.set(i, Entry { key, record });
        proof {
            let after = self.entries@;
            assert(forall|j: int| 0 <= j < after.len() ==> #[trigger] after[j].key == before[j].key);
            assert(Self::distinct(after));
            assert forall|k: Identity| Self::holds(after, k) <==> Self::holds(before, k) by {
                if Self::holds(after, k) {
                    let j = choose|j: int| 0 <= j < after.len() && #[trigger] after[j].key == k;
                    assert(before[j].key == k);
                }
                if Self::holds(before, k) {
                    let j = choose|j: int| 0 <= j < before.len() && #[trigger] before[j].key == k;
                    assert(after[j].key == k);
                }
            }
            assert(before[i as int].key == key);
            Self::lemma_position(before, i as int);
            Self::lemma_position(after, i as int);
            assert forall|k: Identity| Self::holds(before, k) && k != key implies after[Self::position(
                after,
                k,
            )].record@ == before[Self::position(before, k)].record@ by {
                let j = Self::position(before, k);
                assert(after[j].key == k);
                Self::lemma_position(after, j);
            }
            assert(self@ =~= old(self)@.insert(key, stored));
        }
        Ok(())
    }
}

} // verus!
