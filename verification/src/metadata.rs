//! Short texts that the parties of a subscription keep under keys.
use vstd::prelude::*;

use crate::operations::Operation;
use crate::types::{
    Address, Error, SubscriptionStatus, MAX_METADATA_KEYS, MAX_METADATA_KEY_LENGTH,
    MAX_METADATA_VALUE_LENGTH,
};
use crate::vault::{SubscriptionVault, VaultState};

verus! {

/// A key and its value.
#[derive(Debug, PartialEq, Eq)]
pub struct MetadataEntry {
    pub key: Vec<u8>,
    pub value: Vec<u8>,
}

impl View for MetadataEntry {
    type V = (Seq<u8>, Seq<u8>);

    open spec fn view(&self) -> (Seq<u8>, Seq<u8>) {
        (self.key@, self.value@)
    }
}

/// Keys and values, in the order in which the keys came in.
pub type Pairs = Seq<(Seq<u8>, Seq<u8>)>;

/// The keys and values of a list of entries.
pub open spec fn pairs(entries: Seq<MetadataEntry>) -> Pairs {
    entries.map_values(|entry: MetadataEntry| entry@)
}

/// `key` has a value.
pub open spec fn has_key(list: Pairs, key: Seq<u8>) -> bool {
    exists|i: int| 0 <= i < list.len() && (#[trigger] list[i]).0 == key
}

/// Where `key` stands in the list.
pub open spec fn key_position(list: Pairs, key: Seq<u8>) -> int {
    choose|i: int| 0 <= i < list.len() && (#[trigger] list[i]).0 == key
}

/// No key occurs twice.
pub open spec fn keys_distinct(list: Pairs) -> bool {
    forall|i: int, j: int|
        0 <= i < list.len() && 0 <= j < list.len() && (#[trigger] list[i]).0 == (
        #[trigger] list[j]).0 ==> i == j
}

/// The value of `key`.
pub open spec fn lookup(list: Pairs, key: Seq<u8>) -> Option<Seq<u8>> {
    if has_key(list, key) {
        Some(list[key_position(list, key)].1)
    } else {
        None
    }
}

/// The list with `key` set to `value`: in its place if it is there already,
/// else at the end.
pub open spec fn put(list: Pairs, key: Seq<u8>, value: Seq<u8>) -> Pairs {
    if has_key(list, key) {
        list.update(key_position(list, key), (key, value))
    } else {
        list.push((key, value))
    }
}

/// The list without `key`.
pub open spec fn drop_key(list: Pairs, key: Seq<u8>) -> Pairs {
    if has_key(list, key) {
        list.remove(key_position(list, key))
    } else {
        list
    }
}

/// Setting a key sets that key alone, and keeps keys distinct.
pub proof fn lemma_put(list: Pairs, key: Seq<u8>, value: Seq<u8>)
    requires
        keys_distinct(list),
    ensures
        keys_distinct(put(list, key, value)),
        lookup(put(list, key, value), key) == Some(value),
        forall|other: Seq<u8>|
            other != key ==> #[trigger] lookup(put(list, key, value), other) == lookup(list, other),
{
    let after = put(list, key, value);
    if has_key(list, key) {
        let at = key_position(list, key);
        assert forall|i: int| 0 <= i < list.len() implies (#[trigger] after[i]).0 == list[i].0 by {}
        assert(after[at].0 == key);
        assert forall|other: Seq<u8>| other != key implies #[trigger] lookup(after, other)
            == lookup(list, other) by {
            if has_key(list, other) {
                assert(after[key_position(list, other)].0 == other);
            }
            if has_key(after, other) {
                assert(list[key_position(after, other)].0 == other);
            }
        }
    } else {
        let at = list.len() as int;
        assert forall|i: int| 0 <= i < list.len() implies (#[trigger] after[i]) == list[i] by {}
        assert(after[at].0 == key);
        assert forall|other: Seq<u8>| other != key implies #[trigger] lookup(after, other)
            == lookup(list, other) by {
            if has_key(list, other) {
                assert(after[key_position(list, other)].0 == other);
            }
            if has_key(after, other) {
                assert(list[key_position(after, other)].0 == other);
            }
        }
    }
}

/// Dropping a key drops that key alone, and keeps keys distinct.
pub proof fn lemma_drop_key(list: Pairs, key: Seq<u8>)
    requires
        keys_distinct(list),
    ensures
        keys_distinct(drop_key(list, key)),
        lookup(drop_key(list, key), key) is None,
        forall|other: Seq<u8>|
            other != key ==> #[trigger] lookup(drop_key(list, key), other) == lookup(list, other),
        drop_key(list, key).len() == if has_key(list, key) {
            list.len() - 1
        } else {
            list.len() as int
        },
{
    if has_key(list, key) {
        let at = key_position(list, key);
        let after = drop_key(list, key);
        assert forall|i: int| 0 <= i < after.len() implies (#[trigger] after[i]) == (if i < at {
            list[i]
        } else {
            list[i + 1]
        }) by {}
        assert(keys_distinct(after));
        assert forall|other: Seq<u8>| other != key implies #[trigger] lookup(after, other)
            == lookup(list, other) by {
            if has_key(list, other) {
                let i = key_position(list, other);
                assert(after[if i < at {
                    i
                } else {
                    i - 1
                }].0 == other);
            }
            if has_key(after, other) {
                let j = key_position(after, other);
                assert(list[if j < at {
                    j
                } else {
                    j + 1
                }].0 == other);
            }
        }
    }
}

/// Compares two byte strings.
pub fn bytes_equal(a: &Vec<u8>, b: &Vec<u8>) -> (r: bool)
    ensures
        r == (a@ == b@),
{
    if a.len() != b.len() {
        return false;
    }
    let mut i: usize = 0;
    while i < a.len()
        invariant
            a@.len() == b@.len(),
            i <= a@.len(),
            forall|j: int| 0 <= j < i ==> a@[j] == b@[j],
        decreases a@.len() - i,
    {
        if a[i] != b[i] {
            return false;
        }
        i = i + 1;
    }
    assert(a@ =~= b@);
    true
}

/// Finds the entry of `key`.
pub fn find_key(entries: &Vec<MetadataEntry>, key: &Vec<u8>) -> (position: Option<usize>)
    requires
        keys_distinct(pairs(entries@)),
    ensures
        position is Some <==> has_key(pairs(entries@), key@),
        position is Some ==> position->0 == key_position(pairs(entries@), key@) && position->0
            < entries@.len() && entries@[position->0 as int].key@ == key@,
{
    let ghost list = pairs(entries@);
    let mut i: usize = 0;
    while i < entries.len()
        invariant
            list == pairs(entries@),
            i <= entries@.len(),
            keys_distinct(list),
            forall|j: int| 0 <= j < i ==> (#[trigger] list[j]).0 != key@,
        decreases entries@.len() - i,
    {
        assert(list[i as int] == entries@[i as int]@);
        if bytes_equal(&entries[i].key, key) {
            assert(has_key(list, key@));
            return Some(i);
        }
        i = i + 1;
    }
    None
}

/// The keys of a list of entries, in order.
pub open spec fn keys_of(list: Pairs) -> Seq<Seq<u8>> {
    list.map_values(|pair: (Seq<u8>, Seq<u8>)| pair.0)
}

impl VaultState {
    /// The state with `list` as the metadata of subscription `id`.
    pub open spec fn with_metadata(self, id: u32, list: Pairs) -> VaultState {
        VaultState { metadata: self.metadata.insert(id, list), ..self }
    }

    /// Why `actor` may not set `key` to `value`, if so.
    pub open spec fn set_metadata_refusal(
        self,
        id: u32,
        actor: Address,
        key: Seq<u8>,
        value: Seq<u8>,
    ) -> Option<Error> {
        if !self.accounts.contains_key(id) {
            Some(Error::NotFound)
        } else if !self.accounts[id].has_party(actor) {
            Some(Error::Forbidden)
        } else if self.accounts[id].sub.status is Cancelled {
            Some(Error::NotActive)
        } else if key.len() == 0 || key.len() > MAX_METADATA_KEY_LENGTH {
            Some(Error::MetadataKeyInvalid)
        } else if value.len() > MAX_METADATA_VALUE_LENGTH {
            Some(Error::MetadataValueTooLong)
        } else if !has_key(self.metadata_of(id), key) && self.metadata_of(id).len()
            >= MAX_METADATA_KEYS {
            Some(Error::MetadataKeyLimitReached)
        } else {
            None
        }
    }

    /// Why `actor` may not delete `key`, if so.
    pub open spec fn delete_metadata_refusal(self, id: u32, actor: Address, key: Seq<u8>) -> Option<
        Error,
    > {
        if !self.accounts.contains_key(id) {
            Some(Error::NotFound)
        } else if !self.accounts[id].has_party(actor) {
            Some(Error::Forbidden)
        } else if !has_key(self.metadata_of(id), key) {
            Some(Error::NotFound)
        } else {
            None
        }
    }
}

impl SubscriptionVault {
    /// Takes the metadata of subscription `id` out of the vault.
    pub(crate) fn take_metadata(&mut self, id: u32) -> (entries: Vec<MetadataEntry>)
        requires
            old(self).wf(),
        ensures
            final(self).tables_wf(),
            final(self)@ == (VaultState { metadata: old(self)@.metadata.remove(id), ..old(self)@ }),
            pairs(entries@) == old(self)@.metadata_of(id),
    {
        let taken = self.metadata.remove(&id);
        assert(self@.metadata =~= old(self)@.metadata.remove(id));
        match taken {
            Some(entries) => entries,
            None => {
                let entries: Vec<MetadataEntry> = Vec::new();
                assert(pairs(entries@) =~= Seq::empty());
                entries
            },
        }
    }

    /// Puts the metadata of subscription `id` into the vault.
    pub(crate) fn store_metadata(&mut self, id: u32, entries: Vec<MetadataEntry>)
        requires
            old(self).tables_wf(),
        ensures
            final(self).tables_wf(),
            final(self)@ == old(self)@.with_metadata(id, pairs(entries@)),
    {
        let _ = self.metadata.insert(id, entries);
        assert(self@.metadata =~= old(self)@.metadata.insert(id, pairs(entries@)));
    }

    /// Sets a key of the metadata of a subscription.
    pub fn set_metadata(
        &mut self,
        subscription_id: u32,
        actor: Address,
        key: Vec<u8>,
        value: Vec<u8>,
    ) -> (r: Result<(), Error>)
        requires
            old(self).wf(),
        ensures
            final(self).wf(),
            final(self)@ == old(self)@.after(
                (Operation::SetMetadata { id: subscription_id, actor, key: key@, value: value@ }),
            ),
            match old(self)@.set_metadata_refusal(subscription_id, actor, key@, value@) {
                Some(e) => r == Err::<(), Error>(e) && final(self)@ == old(self)@,
                None => r == Ok::<(), Error>(()) && final(self)@ == old(self)@.with_metadata(
                    subscription_id,
                    put(old(self)@.metadata_of(subscription_id), key@, value@),
                ),
            },
    {
        let account = match self.account(subscription_id) {
            Ok(account) => account,
            Err(e) => return Err(e),
        };
        if actor != account.sub.subscriber && actor != account.sub.merchant {
            return Err(Error::Forbidden);
        }
        if account.sub.status == SubscriptionStatus::Cancelled {
            return Err(Error::NotActive);
        }
        if key.len() == 0 || key.len() > MAX_METADATA_KEY_LENGTH {
            return Err(Error::MetadataKeyInvalid);
        }
        if value.len() > MAX_METADATA_VALUE_LENGTH {
            return Err(Error::MetadataValueTooLong);
        }
        let ghost before = self@;
        let ghost list = before.metadata_of(subscription_id);
        let ghost after = before.with_metadata(subscription_id, put(list, key@, value@));
        let (position, count) = match self.metadata.get(&subscription_id) {
            Some(entries) => {
                assert(pairs(entries@) == list);
                (find_key(entries, &key), entries.len())
            },
            None => (None, 0usize),
        };
        assert(count == list.len());
        if position.is_none() && count >= MAX_METADATA_KEYS {
            return Err(Error::MetadataKeyLimitReached);
        }
        proof {
            lemma_put(list, key@, value@);
        }
        let mut entries = self.take_metadata(subscription_id);
        let ghost taken = entries@;
        let ghost entry = MetadataEntry { key, value };
        match position {
            Some(i) => {
                entries.set(i, MetadataEntry { key, value });
                assert(pairs(entries@) =~= pairs(taken).update(i as int, entry@));
            },
            None => {
                entries.push(MetadataEntry { key, value });
                assert(pairs(entries@) =~= pairs(taken).push(entry@));
            },
        }
        self.store_metadata(subscription_id, entries);
        proof {
            assert(self@.metadata =~= after.metadata);
            assert(self@ =~= after);
            assert(after.snapshots_valid());
        }
        Ok(())
    }

    /// Deletes a key of the metadata of a subscription.
    pub fn delete_metadata(&mut self, subscription_id: u32, actor: Address, key: Vec<u8>) -> (r:
        Result<(), Error>)
        requires
            old(self).wf(),
        ensures
            final(self).wf(),
            final(self)@ == old(self)@.after(
                (Operation::DeleteMetadata { id: subscription_id, actor, key: key@ }),
            ),
            match old(self)@.delete_metadata_refusal(subscription_id, actor, key@) {
                Some(e) => r == Err::<(), Error>(e) && final(self)@ == old(self)@,
                None => r == Ok::<(), Error>(()) && final(self)@ == old(self)@.with_metadata(
                    subscription_id,
                    drop_key(old(self)@.metadata_of(subscription_id), key@),
                ),
            },
    {
        let account = match self.account(subscription_id) {
            Ok(account) => account,
            Err(e) => return Err(e),
        };
        if actor != account.sub.subscriber && actor != account.sub.merchant {
            return Err(Error::Forbidden);
        }
        let ghost before = self@;
        let ghost list = before.metadata_of(subscription_id);
        let ghost after = before.with_metadata(subscription_id, drop_key(list, key@));
        let position = match self.metadata.get(&subscription_id) {
            Some(entries) => {
                assert(pairs(entries@) == list);
                find_key(entries, &key)
            },
            None => None,
        };
        let i: usize = match position {
            Some(i) => i,
            None => return Err(Error::NotFound),
        };
        proof {
            lemma_drop_key(list, key@);
        }
        let mut entries = self.take_metadata(subscription_id);
        let ghost taken = entries@;
        let _ = entries.remove(i);
        assert(pairs(entries@) =~= pairs(taken).remove(i as int));
        self.store_metadata(subscription_id, entries);
        proof {
            assert(self@.metadata =~= after.metadata);
            assert(self@ =~= after);
            assert(after.snapshots_valid());
        }
        Ok(())
    }

    /// Reads a key of the metadata of a subscription.
    pub fn get_metadata(&self, subscription_id: u32, key: &Vec<u8>) -> (r: Result<Vec<u8>, Error>)
        requires
            self.wf(),
        ensures
            match lookup(self@.metadata_of(subscription_id), key@) {
                Some(value) => r is Ok && r->Ok_0@ == value,
                None => r == Err::<Vec<u8>, Error>(Error::NotFound),
            },
    {
        match self.metadata.get(&subscription_id) {
            Some(entries) => {
                assert(pairs(entries@) == self@.metadata_of(subscription_id));
                match find_key(entries, key) {
                    Some(i) => {
                        assert(pairs(entries@)[i as int] == entries@[i as int]@);
                        Ok(entries[i].value.clone())
                    },
                    None => Err(Error::NotFound),
                }
            },
            None => Err(Error::NotFound),
        }
    }

    /// Lists the keys of the metadata of a subscription, in the order in which
    /// they came in.
    pub fn list_metadata_keys(&self, subscription_id: u32) -> (r: Result<Vec<Vec<u8>>, Error>)
        requires
            self.wf(),
        ensures
            self@.accounts.contains_key(subscription_id) ==> r is Ok && r->Ok_0@.map_values(
                |key: Vec<u8>| key@,
            ) == keys_of(self@.metadata_of(subscription_id)),
            !self@.accounts.contains_key(subscription_id) ==> r == Err::<Vec<Vec<u8>>, Error>(
                Error::NotFound,
            ),
    {
        match self.account(subscription_id) {
            Ok(_) => {},
            Err(e) => return Err(e),
        }
        let mut keys: Vec<Vec<u8>> = Vec::new();
        let ghost list = self@.metadata_of(subscription_id);
        if let Some(entries) = self.metadata.get(&subscription_id) {
            assert(pairs(entries@) == list);
            let mut i: usize = 0;
            while i < entries.len()
                invariant
                    list == pairs(entries@),
                    i <= entries@.len(),
                    keys@.len() == i,
                    forall|j: int| 0 <= j < i ==> (#[trigger] keys@[j])@ == list[j].0,
                decreases entries@.len() - i,
            {
                assert(list[i as int] == entries@[i as int]@);
                let key = entries[i].key.clone();
                assert(key@ =~= list[i as int].0);
                keys.push(key);
                i = i + 1;
            }
        }
        assert(keys@.map_values(|key: Vec<u8>| key@) =~= keys_of(list));
        Ok(keys)
    }
}

} // verus!
