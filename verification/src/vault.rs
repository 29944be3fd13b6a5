//! What the vault holds, and the state that contracts speak of.
use std::collections::BTreeMap;

use vstd::prelude::*;

use crate::address_map::AddressMap;
use crate::metadata::{keys_distinct, pairs, MetadataEntry, Pairs};
use crate::types::{
    Account, Address, BillingPeriodSnapshot, BillingStatement, BlocklistEntry, Config, Error, Event,
    EventView, PlanTemplate, TransferOrder, BPS_DENOMINATOR, MAX_METADATA_KEYS,
    MAX_METADATA_KEY_LENGTH, MAX_METADATA_VALUE_LENGTH,
};

verus! {

/// The vault. `events` and `transfers` collect what a call announces and which
/// token movements it asks for; the host takes them out after the call.
#[derive(Debug)]
pub struct SubscriptionVault {
    /// Set once, by `init`.
    pub config: Option<Config>,
    pub emergency_stop: bool,
    pub treasury: Option<Address>,
    /// Share of every charge that goes to the treasury, in basis points.
    pub protocol_fee_bps: u32,
    /// Id of the next subscription.
    pub next_id: u32,
    pub accounts: BTreeMap<u32, Account>,
    /// A plan's id is its position.
    pub plans: Vec<PlanTemplate>,
    pub merchant_balances: AddressMap<i128>,
    pub treasury_balance: i128,
    pub paused_merchants: AddressMap<()>,
    pub blocklist: AddressMap<BlocklistEntry>,
    pub metadata: BTreeMap<u32, Vec<MetadataEntry>>,
    pub statements: Vec<BillingStatement>,
    pub snapshots: Vec<BillingPeriodSnapshot>,
    /// Reference texts of metered charges, each with its subscription.
    pub references: Vec<(u32, Vec<u8>)>,
    pub events: Vec<Event>,
    pub transfers: Vec<TransferOrder>,
}

/// The state of a vault, in mathematical terms.
#[verifier::ext_equal]
pub struct VaultState {
    pub config: Option<Config>,
    pub emergency_stop: bool,
    pub treasury: Option<Address>,
    pub protocol_fee_bps: u32,
    pub next_id: u32,
    pub accounts: Map<u32, Account>,
    pub plans: Seq<PlanTemplate>,
    pub merchant_balances: Map<Address, i128>,
    pub treasury_balance: i128,
    pub paused_merchants: Set<Address>,
    pub blocklist: Map<Address, BlocklistEntry>,
    pub metadata: Map<u32, Pairs>,
    pub statements: Seq<BillingStatement>,
    pub snapshots: Seq<BillingPeriodSnapshot>,
    pub references: Seq<(u32, Seq<u8>)>,
    pub events: Seq<EventView>,
    pub transfers: Seq<TransferOrder>,
}

/// Terms on which a subscription may run.
pub open spec fn terms_valid(amount: i128, interval_seconds: u64, lifetime_cap: Option<i128>) -> bool {
    &&& amount > 0
    &&& interval_seconds > 0
    &&& lifetime_cap is Some ==> lifetime_cap->0 > 0
}

/// Metadata that a subscription may hold.
pub open spec fn metadata_valid(list: Pairs) -> bool {
    &&& keys_distinct(list)
    &&& list.len() <= MAX_METADATA_KEYS
    &&& forall|i: int|
        0 <= i < list.len() ==> 1 <= (#[trigger] list[i]).0.len() <= MAX_METADATA_KEY_LENGTH
            && list[i].1.len() <= MAX_METADATA_VALUE_LENGTH
}

impl VaultState {
    /// What every operation keeps.
    pub open spec fn valid(self) -> bool {
        &&& forall|id: u32| #[trigger]
            self.accounts.contains_key(id) ==> {
                &&& id < self.next_id
                &&& self.accounts[id].wf()
                &&& self.config is Some
                &&& self.accounts[id].token == self.config->0.token
            }
        &&& forall|i: int|
            0 <= i < self.plans.len() ==> terms_valid(
                (#[trigger] self.plans[i]).amount,
                self.plans[i].interval_seconds,
                self.plans[i].lifetime_cap,
            )
        &&& self.plans.len() <= u32::MAX
        &&& self.merchant_balances.dom().finite()
        &&& forall|merchant: Address| #[trigger]
            self.merchant_balances.contains_key(merchant) ==> self.merchant_balances[merchant] >= 0
        &&& self.treasury_balance >= 0
        &&& self.protocol_fee_bps <= BPS_DENOMINATOR
        &&& forall|subscriber: Address| #[trigger]
            self.blocklist.contains_key(subscriber) ==> self.blocklist[subscriber].subscriber
                == subscriber
        &&& forall|id: u32| #[trigger]
            self.metadata.contains_key(id) ==> self.accounts.contains_key(id) && metadata_valid(
                self.metadata[id],
            )
        &&& self.snapshots_valid()
    }

    /// A snapshot belongs to a closed period of an account, and no period has
    /// two.
    pub open spec fn snapshots_valid(self) -> bool {
        &&& forall|i: int|
            0 <= i < self.snapshots.len() ==> {
                let snapshot = #[trigger] self.snapshots[i];
                &&& self.accounts.contains_key(snapshot.subscription_id)
                &&& snapshot.period_index
                    < self.accounts[snapshot.subscription_id].sub.current_period_index
            }
        &&& forall|i: int, j: int|
            0 <= i < self.snapshots.len() && 0 <= j < self.snapshots.len() && (
            #[trigger] self.snapshots[i]).subscription_id == (
            #[trigger] self.snapshots[j]).subscription_id && self.snapshots[i].period_index
                == self.snapshots[j].period_index ==> i == j
    }

    /// What `merchant` has earned and not yet withdrawn.
    pub open spec fn merchant_balance(self, merchant: Address) -> i128 {
        if self.merchant_balances.contains_key(merchant) {
            self.merchant_balances[merchant]
        } else {
            0
        }
    }

    /// The grace period in force.
    pub open spec fn grace_period(self) -> u64 {
        match self.config {
            Some(config) => config.grace_period,
            None => 0,
        }
    }

    /// The metadata of subscription `id`.
    pub open spec fn metadata_of(self, id: u32) -> Pairs {
        if self.metadata.contains_key(id) {
            self.metadata[id]
        } else {
            Seq::empty()
        }
    }

    /// Why `caller` may not act as admin, if so.
    pub open spec fn admin_refusal(self, caller: Address) -> Option<Error> {
        match self.config {
            None => Some(Error::NotFound),
            Some(config) => if config.admin == caller {
                None
            } else {
                Some(Error::Unauthorized)
            },
        }
    }

    /// The state with subscription `id` as `account`.
    pub open spec fn with_account(self, id: u32, account: Account) -> VaultState {
        VaultState { accounts: self.accounts.insert(id, account), ..self }
    }

    /// The state after `event` was announced.
    pub open spec fn with_event(self, event: EventView) -> VaultState {
        VaultState { events: self.events.push(event), ..self }
    }

    /// The state after a token movement was asked for.
    pub open spec fn with_transfer(self, order: TransferOrder) -> VaultState {
        VaultState { transfers: self.transfers.push(order), ..self }
    }

    /// The state with one more line of billing history.
    pub open spec fn with_statement(self, statement: BillingStatement) -> VaultState {
        VaultState { statements: self.statements.push(statement), ..self }
    }
}

impl View for SubscriptionVault {
    type V = VaultState;

    open spec fn view(&self) -> VaultState {
        VaultState {
            config: self.config,
            emergency_stop: self.emergency_stop,
            treasury: self.treasury,
            protocol_fee_bps: self.protocol_fee_bps,
            next_id: self.next_id,
            accounts: self.accounts@,
            plans: self.plans@,
            merchant_balances: self.merchant_balances@,
            treasury_balance: self.treasury_balance,
            paused_merchants: self.paused_merchants@.dom(),
            blocklist: self.blocklist@,
            metadata: self.metadata@.map_values(|list: Vec<MetadataEntry>| pairs(list@)),
            statements: self.statements@,
            snapshots: self.snapshots@,
            references: self.references@.map_values(
                |reference: (u32, Vec<u8>)| (reference.0, reference.1@),
            ),
            events: self.events@.map_values(|event: Event| event@),
            transfers: self.transfers@,
        }
    }
}

impl SubscriptionVault {
    /// The tables keyed by address are in order.
    pub open spec fn tables_wf(&self) -> bool {
        &&& self.merchant_balances.wf()
        &&& self.paused_merchants.wf()
        &&& self.blocklist.wf()
    }

    /// What every operation keeps.
    pub open spec fn wf(&self) -> bool {
        &&& self.tables_wf()
        &&& self@.valid()
    }

    /// Returns a vault that nothing has happened to.
    pub fn new() -> (vault: SubscriptionVault)
        ensures
            vault.wf(),
            vault@ == initial_state(),
    {
        let vault = SubscriptionVault {
            config: None,
            emergency_stop: false,
            treasury: None,
            protocol_fee_bps: 0,
            next_id: 0,
            accounts: BTreeMap::new(),
            plans: Vec::new(),
            merchant_balances: AddressMap::new(),
            treasury_balance: 0,
            paused_merchants: AddressMap::new(),
            blocklist: AddressMap::new(),
            metadata: BTreeMap::new(),
            statements: Vec::new(),
            snapshots: Vec::new(),
            references: Vec::new(),
            events: Vec::new(),
            transfers: Vec::new(),
        };
        assert(vault@ =~= initial_state());
        vault
    }

    /// Reads the account of subscription `id`.
    pub fn account(&self, id: u32) -> (r: Result<Account, Error>)
        ensures
            self@.accounts.contains_key(id) ==> r == Ok::<Account, Error>(self@.accounts[id]),
            !self@.accounts.contains_key(id) ==> r == Err::<Account, Error>(Error::NotFound),
    {
        match self.accounts.get(&id) {
            Some(account) => Ok(*account),
            None => Err(Error::NotFound),
        }
    }

    pub(crate) fn put_account(&mut self, id: u32, account: Account)
        requires
            old(self).tables_wf(),
        ensures
            final(self).tables_wf(),
            final(self)@ == old(self)@.with_account(id, account),
    {
        let _ = self.accounts.insert(id, account);
        assert(self@ =~= old(self)@.with_account(id, account));
    }

    pub(crate) fn announce(&mut self, event: Event)
        requires
            old(self).tables_wf(),
        ensures
            final(self).tables_wf(),
            final(self)@ == old(self)@.with_event(event@),
    {
        self.events.push(event);
        assert(self@.events =~= old(self)@.events.push(event@));
    }

    pub(crate) fn append_statement(&mut self, statement: BillingStatement)
        requires
            old(self).tables_wf(),
        ensures
            final(self).tables_wf(),
            final(self)@ == old(self)@.with_statement(statement),
    {
        self.statements.push(statement);
    }

    pub(crate) fn order_transfer(&mut self, order: TransferOrder)
        requires
            old(self).tables_wf(),
        ensures
            final(self).tables_wf(),
            final(self)@ == old(self)@.with_transfer(order),
    {
        self.transfers.push(order);
    }
}

/// The state of a vault that nothing has happened to.
pub open spec fn initial_state() -> VaultState {
    VaultState {
        config: None,
        emergency_stop: false,
        treasury: None,
        protocol_fee_bps: 0,
        next_id: 0,
        accounts: Map::empty(),
        plans: Seq::empty(),
        merchant_balances: Map::empty(),
        treasury_balance: 0,
        paused_merchants: Set::empty(),
        blocklist: Map::empty(),
        metadata: Map::empty(),
        statements: Seq::empty(),
        snapshots: Seq::empty(),
        references: Seq::empty(),
        events: Seq::empty(),
        transfers: Seq::empty(),
    }
}

} // verus!
