//! A keyed store of records in memory: allocate at a fresh key, read, overwrite.

use crate::address::Address;
use vstd::prelude::*;

verus! {

/// A record under its key.
struct Entry<T> {
    key: Address,
    record: T,
}

/// Records under distinct keys, in the order in which they were allocated.
pub struct Store<T> {
    entries: Vec<Entry<T>>,
}

impl<T: View> View for Store<T> {
    type V = Map<Seq<u8>, T::V>;

    /// The store as a map from keys to records.
    closed spec fn view(&self) -> Map<Seq<u8>, T::V> {
        Map::new(
            |key: Seq<u8>| self.holds(key),
            |key: Seq<u8>| self.entries[self.index_of(key)].record@,
        )
    }
}

impl<T: View> Store<T> {
    /// Whether some entry has this key.
    spec fn holds(&self, key: Seq<u8>) -> bool {
        exists|i: int| 0 <= i < self.entries.len() && #[trigger] self.entries[i].key@ == key
    }

    /// The place of an entry with this key.
    spec fn index_of(&self, key: Seq<u8>) -> int {
        choose|i: int| 0 <= i < self.entries.len() && #[trigger] self.entries[i].key@ == key
    }

    /// No key occurs twice, and the map holds as many keys as there are entries.
    pub closed spec fn well_formed(&self) -> bool {
        &&& forall|i: int, j: int|
            0 <= i < j < self.entries.len() ==> #[trigger] self.entries[i].key@
                != #[trigger] self.entries[j].key@
        &&& self@.dom().finite()
        &&& self@.dom().len() == self.entries.len()
    }

    /// In a well-formed store the entry at place `i` is what the map holds under its key.
    proof fn lemma_entry(&self, i: int)
        requires
            self.well_formed(),
            0 <= i < self.entries.len(),
        ensures
            self@.dom().contains(self.entries[i].key@),
            self@[self.entries[i].key@] == self.entries[i].record@,
            self.index_of(self.entries[i].key@) == i,
    {
        let key = self.entries[i].key@;
        assert(self.holds(key));
        let j = self.index_of(key);
        assert(self.entries[j].key@ == key);
        if i < j {
            assert(self.entries[i].key@ != self.entries[j].key@);
        } else if j < i {
            assert(self.entries[j].key@ != self.entries[i].key@);
        }
    }

    /// The keys of a well-formed store are finitely many: as many as its records.
    pub proof fn lemma_finite(&self)
        requires
            self.well_formed(),
        ensures
            self@.dom().finite(),
            self@.dom().len() == self.spec_len(),
    {
    }

    /// The number of records.
    pub closed spec fn spec_len(&self) -> nat {
        self.entries@.len()
    }

    /// A store without records.
    pub fn new() -> (store: Store<T>)
        ensures
            store.well_formed(),
            store@ == Map::<Seq<u8>, T::V>::empty(),
    {
        let store = Store { entries: Vec::new() };
        assert(store@ =~= Map::<Seq<u8>, T::V>::empty());
        store
    }

    /// The number of records.
    pub fn len(&self) -> (count: usize)
        ensures
            count == self.spec_len(),
    {
        self.entries.len()
    }

    /// The place of the entry with this key, if there is one.
    fn find(&self, key: &Address) -> (place: Option<usize>)
        requires
            self.well_formed(),
        ensures
            match place {
                Some(i) => i < self.entries.len() && self.entries[i as int].key@ == key@
                    && self@.dom().contains(key@) && self@[key@] == self.entries[i as int].record@,
                None => !self@.dom().contains(key@),
            },
    {
        let mut i: usize = 0;
        while i < self.entries.len()
            invariant
                self.well_formed(),
                i <= self.entries.len(),
                forall|j: int| 0 <= j < i ==> self.entries[j].key@ != key@,
            decreases self.entries.len() - i,
        {
            if self.entries[i].key == *key {
                proof {
                    self.lemma_entry(i as int);
                }
                return Some(i);
            }
            i = i + 1;
        }
        None
    }

    /// Tells whether a record is stored under this key.
    pub fn contains(&self, key: &Address) -> (held: bool)
        requires
            self.well_formed(),
        ensures
            held == self@.dom().contains(key@),
    {
        self.find(key).is_some()
    }

    /// The record stored under this key, if there is one.
    pub fn read(&self, key: &Address) -> (found: Option<&T>)
        requires
            self.well_formed(),
        ensures
            match found {
                Some(record) => self@.dom().contains(key@) && record@ == self@[key@],
                None => !self@.dom().contains(key@),
            },
    {
        match self.find(key) {
            Some(i) => Some(&self.entries[i].record),
            None => None,
        }
    }

    /// Stores a record under a key that holds none yet. Where the key is taken, nothing
    /// changes and the answer is `false`.
    pub fn allocate(&mut self, key: Address, record: T) -> (allocated: bool)
        requires
            old(self).well_formed(),
        ensures
            final(self).well_formed(),
            allocated == !old(self)@.dom().contains(key@),
            allocated ==> final(self)@ == old(self)@.insert(key@, record@),
            !allocated ==> final(self)@ == old(self)@,
    {
        if self.find(&key).is_some() {
            return false;
        }
        let ghost before = *self;
        self.entries.push(Entry { key, record });
        proof {
            let n = before.entries.len() as int;
            assert forall|k: Seq<u8>| self.holds(k) <==> (before.holds(k) || k == key@) by {
                if before.holds(k) {
                    let i = before.index_of(k);
                    assert(self.entries[i].key@ == k);
                }
                if k == key@ {
                    assert(self.entries[n].key@ == k);
                }
            }
            assert forall|k: Seq<u8>| before.holds(k) implies self.entries[self.index_of(k)].record@
                == before.entries[before.index_of(k)].record@ by {
                let i = before.index_of(k);
                assert(self.entries[i].key@ == k);
                let j = self.index_of(k);
                assert(self.entries[j].key@ == k);
                assert(j < n);
                before.lemma_entry(j);
            }
            assert(self.holds(key@));
            let j = self.index_of(key@);
            assert(j == n) by {
                if j < n {
                    assert(before.entries[j].key@ == key@);
                    assert(before.holds(key@));
                }
            }
            assert(self@ =~= before@.insert(key@, record@));
        }
        true
    }

    /// Replaces the record stored under a key. Where the key holds none, nothing changes
    /// and the answer is `false`.
    pub fn write(&mut self, key: &Address, record: T) -> (written: bool)
        requires
            old(self).well_formed(),
        ensures
            final(self).well_formed(),
            written == old(self)@.dom().contains(key@),
            written ==> final(self)@ == old(self)@.insert(key@, record@),
            !written ==> final(self)@ == old(self)@,
    {
        match self.find(key) {
            None => false,
            Some(i) => {
                let ghost before = *self;
                let held = self.entries[i].key;
                self.entries[i] = Entry { key: held, record };
                proof {
                    assert forall|p: int| 0 <= p < self.entries.len() implies #[trigger] self.entries[p].key@
                        == before.entries[p].key@ by {}
                    assert forall|k: Seq<u8>| self.holds(k) <==> before.holds(k) by {
                        if before.holds(k) {
                            let p = before.index_of(k);
                            assert(self.entries[p].key@ == k);
                        }
                        if self.holds(k) {
                            let p = self.index_of(k);
                            assert(before.entries[p].key@ == k);
                        }
                    }
                    assert forall|k: Seq<u8>| before.holds(k) implies self.entries[self.index_of(k)].record@
                        == (if k == key@ {
                        record@
                    } else {
                        before.entries[before.index_of(k)].record@
                    }) by {
                        let p = self.index_of(k);
                        assert(self.entries[p].key@ == k);
                        assert(before.entries[p].key@ == k);
                        before.lemma_entry(p);
                        before.lemma_entry(i as int);
                    }
                    assert(self@ =~= before@.insert(key@, record@));
                    assert(self@.dom() =~= before@.dom());
                }
                true
            },
        }
    }
}

} // verus!
