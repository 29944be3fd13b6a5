//! A map keyed by addresses.
use vstd::prelude::*;

use crate::types::Address;

verus! {

/// Entries in the order in which their keys first came in.
#[derive(Debug)]
pub struct AddressMap<V> {
    entries: Vec<(Address, V)>,
}

/// `key` has an entry in `entries`.
spec fn has_entry<V>(entries: Seq<(Address, V)>, key: Address) -> bool {
    exists|i: int| 0 <= i < entries.len() && (#[trigger] entries[i]).0 == key
}

/// The position of the entry of `key`.
spec fn entry_position<V>(entries: Seq<(Address, V)>, key: Address) -> int {
    choose|i: int| 0 <= i < entries.len() && (#[trigger] entries[i]).0 == key
}

/// No key has two entries.
spec fn keys_unique<V>(entries: Seq<(Address, V)>) -> bool {
    forall|i: int, j: int|
        0 <= i < entries.len() && 0 <= j < entries.len() && (#[trigger] entries[i]).0 == (
        #[trigger] entries[j]).0 ==> i == j
}

/// The map that the entries stand for.
spec fn entries_map<V>(entries: Seq<(Address, V)>) -> Map<Address, V> {
    Map::new(
        |key: Address| has_entry(entries, key),
        |key: Address| entries[entry_position(entries, key)].1,
    )
}

proof fn lemma_entry_at<V>(entries: Seq<(Address, V)>, i: int)
    requires
        keys_unique(entries),
        0 <= i < entries.len(),
    ensures
        entries_map(entries).contains_key(entries[i].0),
        entries_map(entries)[entries[i].0] == entries[i].1,
{
    assert(has_entry(entries, entries[i].0));
}

proof fn lemma_push<V>(entries: Seq<(Address, V)>, key: Address, value: V)
    requires
        keys_unique(entries),
        !has_entry(entries, key),
    ensures
        keys_unique(entries.push((key, value))),
        entries_map(entries.push((key, value))) == entries_map(entries).insert(key, value),
{
    let after = entries.push((key, value));
    assert forall|i: int| 0 <= i < entries.len() implies (#[trigger] after[i]) == entries[i] by {}
    assert(keys_unique(after));
    assert forall|k: Address| has_entry(after, k) <==> (has_entry(entries, k) || k == key) by {
        if has_entry(entries, k) {
            let i = entry_position(entries, k);
            assert(after[i].0 == k);
        }
        if k == key {
            assert(after[entries.len() as int].0 == k);
        }
    }
    assert forall|k: Address| #[trigger] has_entry(after, k) implies entries_map(after)[k]
        == entries_map(entries).insert(key, value)[k] by {
        let j = entry_position(after, k);
        if k == key {
            assert(after[entries.len() as int].0 == k);
        } else {
            let i = entry_position(entries, k);
            assert(after[i].0 == k);
        }
    }
    assert(entries_map(after) =~= entries_map(entries).insert(key, value));
}

proof fn lemma_update<V>(entries: Seq<(Address, V)>, at: int, value: V)
    requires
        keys_unique(entries),
        0 <= at < entries.len(),
    ensures
        keys_unique(entries.update(at, (entries[at].0, value))),
        entries_map(entries.update(at, (entries[at].0, value))) == entries_map(entries).insert(
            entries[at].0,
            value,
        ),
{
    let key = entries[at].0;
    let after = entries.update(at, (key, value));
    assert forall|i: int| 0 <= i < entries.len() implies (#[trigger] after[i]).0 == entries[i].0 by {}
    assert forall|k: Address| has_entry(after, k) <==> has_entry(entries, k) by {
        if has_entry(entries, k) {
            assert(after[entry_position(entries, k)].0 == k);
        }
        if has_entry(after, k) {
            assert(entries[entry_position(after, k)].0 == k);
        }
    }
    assert forall|k: Address| #[trigger] has_entry(after, k) implies entries_map(after)[k]
        == entries_map(entries).insert(key, value)[k] by {
        let j = entry_position(after, k);
        assert(entries[j].0 == k);
    }
    assert(has_entry(entries, key));
    assert(entries_map(after) =~= entries_map(entries).insert(key, value));
}

proof fn lemma_remove<V>(entries: Seq<(Address, V)>, at: int)
    requires
        keys_unique(entries),
        0 <= at < entries.len(),
    ensures
        keys_unique(entries.remove(at)),
        entries_map(entries.remove(at)) == entries_map(entries).remove(entries[at].0),
{
    let key = entries[at].0;
    let after = entries.remove(at);
    assert forall|i: int| 0 <= i < after.len() implies (#[trigger] after[i]) == (if i < at {
        entries[i]
    } else {
        entries[i + 1]
    }) by {}
    assert(keys_unique(after));
    assert forall|k: Address| has_entry(after, k) <==> (has_entry(entries, k) && k != key) by {
        if has_entry(entries, k) && k != key {
            let i = entry_position(entries, k);
            if i < at {
                assert(after[i].0 == k);
            } else {
                assert(after[i - 1].0 == k);
            }
        }
        if has_entry(after, k) {
            let j = entry_position(after, k);
            if j < at {
                assert(entries[j].0 == k);
            } else {
                assert(entries[j + 1].0 == k);
            }
        }
    }
    assert forall|k: Address| #[trigger] has_entry(after, k) implies entries_map(after)[k]
        == entries_map(entries).remove(key)[k] by {
        let j = entry_position(after, k);
        if j < at {
            assert(entries[j].0 == k);
        } else {
            assert(entries[j + 1].0 == k);
        }
    }
    assert(entries_map(after) =~= entries_map(entries).remove(key));
}

impl<V> View for AddressMap<V> {
    type V = Map<Address, V>;

    closed spec fn view(&self) -> Map<Address, V> {
        entries_map(self.entries@)
    }
}

impl<V> AddressMap<V> {
    /// No address has two entries.
    pub closed spec fn wf(&self) -> bool {
        keys_unique(self.entries@)
    }

    /// The entries, in the order in which their keys first came in.
    pub closed spec fn listing(&self) -> Seq<(Address, V)> {
        self.entries@
    }

    /// The listing shows the map: each of its entries, once, and no other.
    pub proof fn law_listing_shows_the_map(&self)
        requires
            self.wf(),
        ensures
            self@.dom().finite(),
            self@.dom().len() == self.listing().len(),
            forall|key: Address| #[trigger]
                self@.contains_key(key) <==> exists|i: int|
                    0 <= i < self.listing().len() && (#[trigger] self.listing()[i]).0 == key,
            forall|i: int|
                0 <= i < self.listing().len() ==> self@[(#[trigger] self.listing()[i]).0]
                    == self.listing()[i].1,
    {
        let entries = self.entries@;
        assert forall|i: int| 0 <= i < entries.len() implies self@[(#[trigger] entries[i]).0]
            == entries[i].1 by {
            lemma_entry_at(entries, i);
        }
        let keys = entries.map_values(|entry: (Address, V)| entry.0);
        assert(keys.no_duplicates());
        keys.unique_seq_to_set();
        assert forall|key: Address| self@.dom().contains(key) <==> keys.to_set().contains(key) by {
            if has_entry(entries, key) {
                assert(keys[entry_position(entries, key)] == key);
            }
            if keys.contains(key) {
                let i = choose|i: int| 0 <= i < keys.len() && keys[i] == key;
                assert(entries[i].0 == key);
            }
        }
        assert(self@.dom() =~= keys.to_set());
    }

    /// Returns the number of entries.
    pub fn len(&self) -> (length: usize)
        ensures
            length == self.listing().len(),
    {
        self.entries.len()
    }

    /// Returns the entry at a position of the listing.
    pub fn entry(&self, position: usize) -> (entry: &(Address, V))
        requires
            position < self.listing().len(),
        ensures
            *entry == self.listing()[position as int],
    {
        &self.entries[position]
    }

    /// Returns an empty map.
    pub fn new() -> (map: Self)
        ensures
            map.wf(),
            map@ == Map::<Address, V>::empty(),
    {
        let map = AddressMap { entries: Vec::new() };
        assert(map@ =~= Map::<Address, V>::empty());
        map
    }

    fn find(&self, key: &Address) -> (position: Option<usize>)
        requires
            self.wf(),
        ensures
            position is Some <==> self@.contains_key(*key),
            position is Some ==> position->0 < self.entries@.len() && self.entries@[position->0 as int].0
                == *key,
    {
        let mut i: usize = 0;
        while i < self.entries.len()
            invariant
                i <= self.entries@.len(),
                forall|j: int| 0 <= j < i ==> (#[trigger] self.entries@[j]).0 != *key,
            decreases self.entries@.len() - i,
        {
            if self.entries[i].0 == *key {
                proof {
                    assert(has_entry(self.entries@, *key));
                }
                return Some(i);
            }
            i = i + 1;
        }
        None
    }

    /// Returns the value of `key`.
    pub fn get(&self, key: &Address) -> (value: Option<&V>)
        requires
            self.wf(),
        ensures
            value is Some <==> self@.contains_key(*key),
            value is Some ==> *(value->0) == self@[*key],
    {
        match self.find(key) {
            Some(i) => {
                proof {
                    lemma_entry_at(self.entries@, i as int);
                }
                Some(&self.entries[i].1)
            },
            None => None,
        }
    }

    /// Gives `key` the value `value`, in place of an earlier one.
    pub fn insert(&mut self, key: Address, value: V)
        requires
            old(self).wf(),
        ensures
            final(self).wf(),
            final(self)@ == old(self)@.insert(key, value),
    {
        match self.find(&key) {
            Some(i) => {
                proof {
                    lemma_update(self.entries@, i as int, value);
                }
                self.entries.set(i, (key, value));
            },
            None => {
                proof {
                    lemma_push(self.entries@, key, value);
                }
                self.entries.push((key, value));
            },
        }
    }

    /// Takes the entry of `key` out.
    pub fn remove(&mut self, key: &Address)
        requires
            old(self).wf(),
        ensures
            final(self).wf(),
            final(self)@ == old(self)@.remove(*key),
    {
        match self.find(key) {
            Some(i) => {
                proof {
                    lemma_remove(self.entries@, i as int);
                }
                let _ = self.entries.remove(i);
            },
            None => {
                assert(self@.remove(*key) =~= self@);
            },
        }
    }
}

} // verus!
