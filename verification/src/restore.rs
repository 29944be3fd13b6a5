//! Putting a vault together from the records that were kept of it. A record
//! that no operation could have left is refused, so what comes out is a vault
//! like any other.
use vstd::prelude::*;

use crate::metadata::{find_key, has_key, lemma_put, pairs, put, MetadataEntry};
use crate::types::{
    Account, Address, BillingPeriodSnapshot, BlocklistEntry, Config, Error, SubscriptionStatus,
    BPS_DENOMINATOR, MAX_METADATA_KEYS, MAX_METADATA_KEY_LENGTH, MAX_METADATA_VALUE_LENGTH,
};
use crate::vault::{initial_state, SubscriptionVault, VaultState};

verus! {

/// What a vault holds besides its tables.
#[derive(Clone, Copy, Debug, PartialEq, Eq)]
pub struct Settings {
    pub config: Option<Config>,
    pub emergency_stop: bool,
    pub treasury: Option<Address>,
    pub protocol_fee_bps: u32,
    pub next_id: u32,
    pub treasury_balance: i128,
}

impl Settings {
    /// Settings that a vault may have.
    pub open spec fn sound(self) -> bool {
        self.protocol_fee_bps <= BPS_DENOMINATOR && self.treasury_balance >= 0
    }
}

impl VaultState {
    /// The settings of a vault.
    pub open spec fn settings(self) -> Settings {
        Settings {
            config: self.config,
            emergency_stop: self.emergency_stop,
            treasury: self.treasury,
            protocol_fee_bps: self.protocol_fee_bps,
            next_id: self.next_id,
            treasury_balance: self.treasury_balance,
        }
    }

    /// `account` can be the record of subscription `id`, which has none yet.
    pub open spec fn accepts_account(self, id: u32, account: Account) -> bool {
        &&& id < self.next_id
        &&& !self.accounts.contains_key(id)
        &&& account.wf()
        &&& self.config is Some
        &&& account.token == self.config->0.token
    }

    /// `key` and `value` can be a record of the metadata of subscription `id`,
    /// which has no such key yet.
    pub open spec fn accepts_metadata(self, id: u32, key: Seq<u8>, value: Seq<u8>) -> bool {
        &&& self.accounts.contains_key(id)
        &&& 1 <= key.len() <= MAX_METADATA_KEY_LENGTH
        &&& value.len() <= MAX_METADATA_VALUE_LENGTH
        &&& !has_key(self.metadata_of(id), key)
        &&& self.metadata_of(id).len() < MAX_METADATA_KEYS
    }

    /// `snapshot` can be the record of a billing period that has none yet.
    pub open spec fn accepts_snapshot(self, snapshot: BillingPeriodSnapshot) -> bool {
        &&& self.accounts.contains_key(snapshot.subscription_id)
        &&& snapshot.period_index
            < self.accounts[snapshot.subscription_id].sub.current_period_index
        &&& forall|i: int|
            0 <= i < self.snapshots.len() ==> !((#[trigger] self.snapshots[i]).subscription_id
                == snapshot.subscription_id && self.snapshots[i].period_index
                == snapshot.period_index)
    }
}

impl Account {
    /// Tells whether a vault can hold this account.
    pub fn is_sound(&self) -> (sound: bool)
        ensures
            sound == self.wf(),
    {
        let sub = &self.sub;
        let within_cap = match sub.lifetime_cap {
            Some(cap) => cap > 0 && (sub.lifetime_charged < cap || (sub.lifetime_charged == cap
                && sub.status == SubscriptionStatus::Cancelled)),
            None => true,
        };
        sub.amount > 0 && sub.interval_seconds > 0 && sub.prepaid_balance >= 0 && 0
            <= sub.current_period_usage_units && sub.current_period_usage_units
            <= self.period_amount_charged && self.period_amount_charged <= sub.lifetime_charged
            && within_cap
    }
}

impl SubscriptionVault {
    /// Makes a vault with the given settings and empty tables.
    pub fn restore(settings: Settings) -> (r: Result<SubscriptionVault, Error>)
        ensures
            settings.sound() ==> {
                &&& r is Ok
                &&& r->Ok_0.wf()
                &&& r->Ok_0@ == (VaultState {
                    config: settings.config,
                    emergency_stop: settings.emergency_stop,
                    treasury: settings.treasury,
                    protocol_fee_bps: settings.protocol_fee_bps,
                    next_id: settings.next_id,
                    treasury_balance: settings.treasury_balance,
                    ..initial_state()
                })
            },
            !settings.sound() ==> r == Err::<SubscriptionVault, Error>(Error::InvalidInput),
    {
        if settings.protocol_fee_bps > BPS_DENOMINATOR || settings.treasury_balance < 0 {
            return Err(Error::InvalidInput);
        }
        let mut vault = SubscriptionVault::new();
        vault.config = settings.config;
        vault.emergency_stop = settings.emergency_stop;
        vault.treasury = settings.treasury;
        vault.protocol_fee_bps = settings.protocol_fee_bps;
        vault.next_id = settings.next_id;
        vault.treasury_balance = settings.treasury_balance;
        assert(vault@.snapshots_valid());
        Ok(vault)
    }

    /// Returns the settings, for the record.
    pub fn settings(&self) -> (settings: Settings)
        ensures
            settings == self@.settings(),
            self.wf() ==> settings.sound(),
    {
        Settings {
            config: self.config,
            emergency_stop: self.emergency_stop,
            treasury: self.treasury,
            protocol_fee_bps: self.protocol_fee_bps,
            next_id: self.next_id,
            treasury_balance: self.treasury_balance,
        }
    }

    /// Puts the record of a subscription back.
    pub fn restore_account(&mut self, id: u32, account: Account) -> (r: Result<(), Error>)
        requires
            old(self).wf(),
        ensures
            final(self).wf(),
            old(self)@.accepts_account(id, account) ==> r == Ok::<(), Error>(()) && final(self)@
                == old(self)@.with_account(id, account),
            !old(self)@.accepts_account(id, account) ==> r == Err::<(), Error>(Error::InvalidInput)
                && final(self)@ == old(self)@,
    {
        let config = match self.config {
            Some(config) => config,
            None => return Err(Error::InvalidInput),
        };
        if id >= self.next_id || self.account(id).is_ok() || !account.is_sound() || account.token
            != config.token {
            return Err(Error::InvalidInput);
        }
        self.put_account(id, account);
        assert(self@.snapshots_valid());
        Ok(())
    }

    /// Puts the record of what a merchant has earned back.
    pub fn restore_merchant_balance(&mut self, merchant: Address, balance: i128) -> (r: Result<
        (),
        Error,
    >)
        requires
            old(self).wf(),
        ensures
            final(self).wf(),
            balance >= 0 ==> r == Ok::<(), Error>(()) && final(self)@ == (VaultState {
                merchant_balances: old(self)@.merchant_balances.insert(merchant, balance),
                ..old(self)@
            }),
            balance < 0 ==> r == Err::<(), Error>(Error::InvalidInput) && final(self)@ == old(
                self,
            )@,
    {
        if balance < 0 {
            return Err(Error::InvalidInput);
        }
        self.merchant_balances.insert(merchant, balance);
        assert(self@.snapshots_valid());
        Ok(())
    }

    /// Puts the record of a barred subscriber back.
    pub fn restore_blocklist_entry(&mut self, entry: BlocklistEntry)
        requires
            old(self).wf(),
        ensures
            final(self).wf(),
            final(self)@ == old(self)@.with_blocked(entry),
    {
        self.blocklist.insert(entry.subscriber, entry);
        assert(self@.snapshots_valid());
    }

    /// Puts a record of the metadata of a subscription back.
    pub fn restore_metadata(&mut self, id: u32, key: Vec<u8>, value: Vec<u8>) -> (r: Result<
        (),
        Error,
    >)
        requires
            old(self).wf(),
        ensures
            final(self).wf(),
            old(self)@.accepts_metadata(id, key@, value@) ==> r == Ok::<(), Error>(()) && final(
                self)@ == old(self)@.with_metadata(
                id,
                put(old(self)@.metadata_of(id), key@, value@),
            ),
            !old(self)@.accepts_metadata(id, key@, value@) ==> r == Err::<(), Error>(
                Error::InvalidInput,
            ) && final(self)@ == old(self)@,
    {
        if self.account(id).is_err() || key.len() == 0 || key.len() > MAX_METADATA_KEY_LENGTH
            || value.len() > MAX_METADATA_VALUE_LENGTH {
            return Err(Error::InvalidInput);
        }
        let ghost before = self@;
        let ghost list = before.metadata_of(id);
        let ghost after = before.with_metadata(id, put(list, key@, value@));
        let full = match self.metadata.get(&id) {
            Some(entries) => {
                assert(pairs(entries@) == list);
                find_key(entries, &key).is_some() || entries.len() >= MAX_METADATA_KEYS
            },
            None => false,
        };
        if full {
            return Err(Error::InvalidInput);
        }
        proof {
            lemma_put(list, key@, value@);
        }
        let mut entries = self.take_metadata(id);
        let ghost taken = entries@;
        let ghost entry = MetadataEntry { key, value };
        entries.push(MetadataEntry { key, value });
        assert(pairs(entries@) =~= pairs(taken).push(entry@));
        self.store_metadata(id, entries);
        proof {
            assert(self@.metadata =~= after.metadata);
            assert(after.snapshots_valid());
        }
        Ok(())
    }

    /// Puts the record of a closed billing period back.
    pub fn restore_snapshot(&mut self, snapshot: BillingPeriodSnapshot) -> (r: Result<(), Error>)
        requires
            old(self).wf(),
        ensures
            final(self).wf(),
            old(self)@.accepts_snapshot(snapshot) ==> r == Ok::<(), Error>(()) && final(self)@ == (
            VaultState { snapshots: old(self)@.snapshots.push(snapshot), ..old(self)@ }),
            !old(self)@.accepts_snapshot(snapshot) ==> r == Err::<(), Error>(Error::InvalidInput)
                && final(self)@ == old(self)@,
    {
        let account = match self.account(snapshot.subscription_id) {
            Ok(account) => account,
            Err(_) => return Err(Error::InvalidInput),
        };
        if snapshot.period_index >= account.sub.current_period_index
            || self.get_billing_period_snapshot(snapshot.subscription_id, snapshot.period_index).is_ok() {
            proof {
                if snapshot.period_index < account.sub.current_period_index {
                    let found = choose|found: BillingPeriodSnapshot| #[trigger]
                        self@.has_snapshot(
                            snapshot.subscription_id,
                            snapshot.period_index,
                            found,
                        );
                    let i = self@.snapshots.index_of(found);
                    assert(self@.snapshots[i] == found);
                }
            }
            return Err(Error::InvalidInput);
        }
        proof {
            assert forall|i: int| 0 <= i < self@.snapshots.len() implies !((
            #[trigger] self@.snapshots[i]).subscription_id == snapshot.subscription_id
                && self@.snapshots[i].period_index == snapshot.period_index) by {
                let earlier = self@.snapshots[i];
                if earlier.subscription_id == snapshot.subscription_id && earlier.period_index
                    == snapshot.period_index {
                    assert(self@.has_snapshot(
                        snapshot.subscription_id,
                        snapshot.period_index,
                        earlier,
                    ));
                }
            }
        }
        let ghost before = self@;
        self.snapshots.push(snapshot);
        proof {
            let n = before.snapshots.len() as int;
            assert(self@.snapshots[n] == snapshot);
            assert forall|i: int| 0 <= i < n implies self@.snapshots[i] == before.snapshots[i] by {}
            assert(self@.snapshots_valid());
        }
        Ok(())
    }
}

/// The records of a valid vault are accepted when it is put together again:
/// accounts in any order, then the billing periods in theirs.
pub proof fn law_own_records_are_accepted(s: VaultState, partial: VaultState, id: u32, i: int)
    requires
        s.valid(),
        partial.config == s.config,
        partial.next_id == s.next_id,
    ensures
        s.settings().sound(),
        s.accounts.contains_key(id) && !partial.accounts.contains_key(id)
            ==> partial.accepts_account(id, s.accounts[id]),
        0 <= i < s.snapshots.len() && partial.accounts == s.accounts && partial.snapshots
            == s.snapshots.take(i) ==> partial.accepts_snapshot(s.snapshots[i]),
{
    if 0 <= i < s.snapshots.len() && partial.accounts == s.accounts && partial.snapshots
        == s.snapshots.take(i) {
        assert forall|j: int| 0 <= j < partial.snapshots.len() implies !((
        #[trigger] partial.snapshots[j]).subscription_id == s.snapshots[i].subscription_id
            && partial.snapshots[j].period_index == s.snapshots[i].period_index) by {
            assert(s.snapshots[j] == partial.snapshots[j]);
        }
    }
}

/// The metadata of a subscription is accepted key by key when a vault is put
/// together again, and comes out in its order.
pub proof fn law_own_metadata_is_accepted(s: VaultState, partial: VaultState, id: u32, i: int)
    requires
        s.valid(),
        partial.accounts == s.accounts,
        0 <= i < s.metadata_of(id).len(),
        partial.metadata_of(id) == s.metadata_of(id).take(i),
    ensures
        ({
            let list = s.metadata_of(id);
            &&& partial.accepts_metadata(id, list[i].0, list[i].1)
            &&& put(partial.metadata_of(id), list[i].0, list[i].1) == list.take(i + 1)
        }),
{
    let list = s.metadata_of(id);
    let some = partial.metadata_of(id);
    assert(s.metadata.contains_key(id));
    assert(!has_key(some, list[i].0)) by {
        assert forall|j: int| 0 <= j < some.len() implies (#[trigger] some[j]).0 != list[i].0 by {
            assert(some[j] == list[j]);
        }
    }
    assert(put(some, list[i].0, list[i].1) =~= list.take(i + 1));
}

} // verus!
