use vstd::prelude::*;
use crate::address::Address;

verus! {

/// A value that can be copied exactly.
pub trait Duplicate: Sized {
    /// A copy equal to the value it was made from.
    fn duplicate(&self) -> (copy: Self)
        ensures
            copy == *self,
    ;
}

impl Duplicate for u64 {
    fn duplicate(&self) -> (copy: u64) {
        *self
    }
}

impl Duplicate for Option<u64> {
    fn duplicate(&self) -> (copy: Option<u64>) {
        *self
    }
}

/// A finite map from addresses to values, kept as two parallel lists in
/// which no address occurs twice.
pub struct Table<V> {
    keys: Vec<Address>,
    values: Vec<V>,
}

impl<V> Table<V> {
    /// The two lists have one length and no address occurs twice.
    pub closed spec fn wf(&self) -> bool {
        &&& self.keys@.len() == self.values@.len()
        &&& self.keys@.no_duplicates()
    }

    /// The map that the table holds.
    pub closed spec fn view(&self) -> Map<Address, V> {
        Map::new(
            |key: Address| self.keys@.contains(key),
            |key: Address| self.values@[self.keys@.index_of(key)],
        )
    }

    /// The empty table.
    pub fn new() -> (table: Table<V>)
        ensures
            table.wf(),
            table.view() == Map::<Address, V>::empty(),
    {
        let table = Table { keys: Vec::new(), values: Vec::new() };
        assert(table.view() =~= Map::<Address, V>::empty());
        table
    }

    fn position(&self, key: &Address) -> (at: Option<usize>)
        ensures
            match at {
                Some(i) => i < self.keys@.len() && self.keys@[i as int] == *key,
                None => !self.keys@.contains(*key),
            },
    {
        let mut i: usize = 0;
        while i < self.keys.len()
            invariant
                i <= self.keys@.len(),
                forall|j: int| 0 <= j < i ==> self.keys@[j] != *key,
            decreases self.keys@.len() - i,
        {
            if self.keys[i] == *key {
                return Some(i);
            }
            i += 1;
        }
        None
    }

    /// The value recorded for `key`, if any.
    pub fn get(&self, key: &Address) -> (value: Option<&V>)
        requires
            self.wf(),
        ensures
            match value {
                Some(v) => self.view().contains_key(*key) && *v == self.view()[*key],
                None => !self.view().contains_key(*key),
            },
    {
        match self.position(key) {
            Some(i) => {
                proof {
                    self.keys@.index_of_first_ensures(*key);
                    assert(self.keys@.index_of(*key) == i);
                }
                Some(&self.values[i])
            },
            None => None,
        }
    }

    /// Whether a value is recorded for `key`.
    pub fn contains_key(&self, key: &Address) -> (yes: bool)
        ensures
            yes == self.view().contains_key(*key),
    {
        self.position(key).is_some()
    }

    /// Records `value` for `key`, in place of any value recorded before.
    pub fn insert(&mut self, key: Address, value: V)
        requires
            old(self).wf(),
        ensures
            final(self).wf(),
            final(self).view() == old(self).view().insert(key, value),
    {
        match self.position(&key) {
            Some(i) => {
                self.values[i] = value;
                proof {
                    assert forall|k: Address| self.keys@.contains(k) implies #[trigger] self.view()[k]
                        == old(self).view().insert(key, value)[k] by {
                        if k == key {
                            assert(self.keys@.index_of(k) == i);
                        }
                    }
                    assert(self.view() =~= old(self).view().insert(key, value));
                }
            },
            None => {
                self.keys.push(key);
                self.values.push(value);
                proof {
                    let n = old(self).keys@.len() as int;
                    assert(self.keys@[n] == key);
                    assert forall|k: Address|
                        old(self).view().insert(key, value).contains_key(k) implies (
                    #[trigger] self.view().contains_key(k)) && self.view()[k] == old(
                        self,
                    ).view().insert(key, value)[k] by {
                        if k == key {
                            assert(self.keys@.contains(k));
                            assert(self.keys@.index_of(k) == n);
                        } else {
                            let j = old(self).keys@.index_of(k);
                            assert(self.keys@[j] == k);
                            assert(self.keys@.index_of(k) == j);
                        }
                    }
                    assert forall|k: Address| #[trigger]
                        self.view().contains_key(k) implies old(self).view().insert(
                        key,
                        value,
                    ).contains_key(k) by {
                        let j = self.keys@.index_of(k);
                        if j < n {
                            assert(old(self).keys@[j] == k);
                        }
                    }
                    assert(self.view() =~= old(self).view().insert(key, value));
                }
            },
        }
    }
}

impl<V: Duplicate> Table<V> {
    /// A copy of the table.
    pub fn snapshot(&self) -> (copy: Table<V>)
        requires
            self.wf(),
        ensures
            copy.wf(),
            copy.view() == self.view(),
    {
        let mut keys: Vec<Address> = Vec::new();
        let mut values: Vec<V> = Vec::new();
        let mut i: usize = 0;
        while i < self.keys.len()
            invariant
                i <= self.keys@.len(),
                self.keys@.len() == self.values@.len(),
                keys@ == self.keys@.subrange(0, i as int),
                values@ == self.values@.subrange(0, i as int),
            decreases self.keys@.len() - i,
        {
            keys.push(self.keys[i]);
            values.push(self.values[i].duplicate());
            i += 1;
            assert(keys@ =~= self.keys@.subrange(0, i as int));
            assert(values@ =~= self.values@.subrange(0, i as int));
        }
        assert(keys@ =~= self.keys@);
        assert(values@ =~= self.values@);
        let copy = Table { keys, values };
        assert(copy.view() =~= self.view());
        copy
    }
}

} // verus!
