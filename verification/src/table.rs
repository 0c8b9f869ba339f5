//! A table of rows that are found by their key.

use crate::types::{ApprovalKey, SpendingKey};
use vstd::prelude::*;

verus! {

/// A key by which a row is found.
pub trait TableKey: Copy {
    /// Whether two keys are the same.
    fn same(&self, other: &Self) -> (same: bool)
        ensures
            same == (*self == *other),
    ;
}

impl TableKey for u64 {
    fn same(&self, other: &Self) -> (same: bool) {
        *self == *other
    }
}

impl TableKey for ApprovalKey {
    fn same(&self, other: &Self) -> (same: bool) {
        *self == *other
    }
}

impl TableKey for SpendingKey {
    fn same(&self, other: &Self) -> (same: bool) {
        *self == *other
    }
}

/// A table with at most one row per key.
pub struct Table<K, V> {
    rows: Vec<(K, V)>,
}

impl<K, V> View for Table<K, V> {
    type V = Map<K, V>;

    /// The value in each row, by its key.
    closed spec fn view(&self) -> Map<K, V> {
        Map::new(
            |key: K| exists|i: int| 0 <= i < self.rows@.len() && (#[trigger] self.rows@[i]).0 == key,
            |key: K| self.rows@[self.position(key)].1,
        )
    }
}

impl<K, V> Table<K, V> {
    spec fn position(&self, key: K) -> int {
        choose|i: int| 0 <= i < self.rows@.len() && (#[trigger] self.rows@[i]).0 == key
    }

    /// No key has two rows.
    pub closed spec fn wf(&self) -> bool {
        forall|i: int, j: int|
            0 <= i < self.rows@.len() && 0 <= j < self.rows@.len() && (#[trigger] self.rows@[i]).0
                == (#[trigger] self.rows@[j]).0 ==> i == j
    }

    proof fn lemma_row(&self, i: int)
        requires
            self.wf(),
            0 <= i < self.rows@.len(),
        ensures
            self@.contains_key(self.rows@[i].0),
            self@[self.rows@[i].0] == self.rows@[i].1,
    {
        let p: int = self.position(self.rows@[i].0);
        assert(0 <= p < self.rows@.len() && self.rows@[p].0 == self.rows@[i].0);
    }
}

impl<K: TableKey, V> Table<K, V> {
    /// A table without rows.
    pub fn new() -> (table: Table<K, V>)
        ensures
            table.wf(),
            table@ == Map::<K, V>::empty(),
    {
        let table: Table<K, V> = Table { rows: Vec::new() };
        assert(table@ =~= Map::<K, V>::empty());
        table
    }

    fn find(&self, key: K) -> (found: Option<usize>)
        requires
            self.wf(),
        ensures
            match found {
                Some(i) => i < self.rows@.len() && self.rows@[i as int].0 == key,
                None => !self@.contains_key(key),
            },
    {
        let mut i: usize = 0;
        while i < self.rows.len()
            invariant
                i <= self.rows@.len(),
                forall|j: int| 0 <= j < i ==> (#[trigger] self.rows@[j]).0 != key,
            decreases self.rows@.len() - i,
        {
            if self.rows[i].0.same(&key) {
                return Some(i);
            }
            i = i + 1;
        }
        None
    }

    /// The value under `key`, if there is one.
    pub fn get(&self, key: K) -> (value: Option<&V>)
        requires
            self.wf(),
        ensures
            match value {
                Some(v) => self@.contains_key(key) && *v == self@[key],
                None => !self@.contains_key(key),
            },
    {
        match self.find(key) {
            Some(i) => {
                proof {
                    self.lemma_row(i as int);
                }
                Some(&self.rows[i].1)
            },
            None => None,
        }
    }

    /// Stores `value` under `key`, in place of what was there.
    pub fn set(&mut self, key: K, value: V)
        requires
            old(self).wf(),
        ensures
            final(self).wf(),
            final(self)@ == old(self)@.insert(key, value),
    {
        let ghost before = *self;
        match self.find(key) {
            Some(i) => {
                self.rows.set(i, (key, value));
                proof {
                    assert(self.rows@ == before.rows@.update(i as int, (key, value)));
                    assert forall|k: K| self@.contains_key(k) == before@.contains_key(k) by {
                        if self@.contains_key(k) {
                            let p: int = self.position(k);
                            assert(before.rows@[p].0 == k);
                        }
                        if before@.contains_key(k) {
                            let p: int = before.position(k);
                            assert(self.rows@[p].0 == k);
                        }
                    }
                    before.lemma_row(i as int);
                    assert(self.wf()) by {
                        assert forall|a: int, b: int|
                            0 <= a < self.rows@.len() && 0 <= b < self.rows@.len() && (
                            #[trigger] self.rows@[a]).0 == (#[trigger] self.rows@[b]).0 implies a
                            == b by {
                            assert(before.rows@[a].0 == before.rows@[b].0);
                        }
                    }
                    assert forall|k: K| #[trigger] self@.contains_key(k) implies self@[k]
                        == before@.insert(key, value)[k] by {
                        let p: int = self.position(k);
                        self.lemma_row(p);
                        before.lemma_row(p);
                    }
                    assert(self@ =~= before@.insert(key, value));
                }
            },
            None => {
                self.rows.push((key, value));
                proof {
                    let n: int = before.rows@.len() as int;
                    assert(self.rows@ == before.rows@.push((key, value)));
                    assert(self.rows@[n].0 == key);
                    assert forall|i: int| 0 <= i < n implies (#[trigger] before.rows@[i]).0 != key by {
                        before.lemma_row(i);
                    }
                    assert(self.wf()) by {
                        assert forall|a: int, b: int|
                            0 <= a < self.rows@.len() && 0 <= b < self.rows@.len() && (
                            #[trigger] self.rows@[a]).0 == (#[trigger] self.rows@[b]).0 implies a
                            == b by {
                            if a < n {
                                assert(before.rows@[a].0 == self.rows@[a].0);
                            }
                            if b < n {
                                assert(before.rows@[b].0 == self.rows@[b].0);
                            }
                        }
                    }
                    assert forall|k: K|
                        self@.contains_key(k) == before@.insert(key, value).contains_key(k) by {
                        if self@.contains_key(k) {
                            let p: int = self.position(k);
                            if p < n {
                                assert(before.rows@[p].0 == k);
                            }
                        }
                        if before@.contains_key(k) {
                            let p: int = before.position(k);
                            assert(self.rows@[p].0 == k);
                        }
                    }
                    assert forall|k: K| #[trigger] self@.contains_key(k) implies self@[k]
                        == before@.insert(key, value)[k] by {
                        let p: int = self.position(k);
                        self.lemma_row(p);
                        if p < n {
                            before.lemma_row(p);
                        }
                    }
                    assert(self@ =~= before@.insert(key, value));
                }
            },
        }
    }
}

} // verus!
