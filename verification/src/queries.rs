//! Reading the vault.
use vstd::prelude::*;

use crate::charge_core::due_time;
use crate::id_list::{append_to_list, listed, new_list};
use crate::safe_math::{fits, safe_mul};
use crate::types::{
    Account, Address, BillingPeriodSnapshot, CapInfo, Error, NextChargeInfo, Subscription,
    SubscriptionStatus, SubscriptionSummary,
};
use crate::vault::{SubscriptionVault, VaultState};

verus! {

/// Which subscriptions a listing shows.
#[derive(Clone, Copy, Debug, PartialEq, Eq)]
pub enum Selection {
    All,
    OfSubscriber(Address),
    OfMerchant(Address),
}

impl Selection {
    /// The listing shows `account`.
    pub open spec fn shows(self, account: Account) -> bool {
        match self {
            Selection::All => true,
            Selection::OfSubscriber(subscriber) => account.sub.subscriber == subscriber,
            Selection::OfMerchant(merchant) => account.sub.merchant == merchant,
        }
    }

    fn admits(&self, account: &Account) -> (r: bool)
        ensures
            r == self.shows(*account),
    {
        match *self {
            Selection::All => true,
            Selection::OfSubscriber(subscriber) => account.sub.subscriber == subscriber,
            Selection::OfMerchant(merchant) => account.sub.merchant == merchant,
        }
    }
}

/// A page of the subscriptions of one subscriber.
pub struct SubscriptionsPage {
    pub subscription_ids: soroban_sdk::Vec<u32>,
    /// The subscriber has more subscriptions behind the page.
    pub has_next: bool,
}

impl VaultState {
    /// The ids from `from` up to but not including `to` whose accounts the
    /// selection shows, in ascending order.
    pub open spec fn ids(self, selection: Selection, from: int, to: int) -> Seq<u32>
        decreases to - from,
    {
        if to <= from {
            Seq::empty()
        } else {
            let id = (to - 1) as u32;
            let earlier = self.ids(selection, from, to - 1);
            if self.accounts.contains_key(id) && selection.shows(self.accounts[id]) {
                earlier.push(id)
            } else {
                earlier
            }
        }
    }

    /// The ids of all accounts that the selection shows, from `from` on.
    pub open spec fn ids_from(self, selection: Selection, from: u32) -> Seq<u32> {
        self.ids(selection, from as int, self.next_id as int)
    }

    /// The subscriptions that the ids stand for.
    pub open spec fn subscriptions(self, ids: Seq<u32>) -> Seq<Subscription> {
        ids.map_values(|id: u32| self.accounts[id].sub)
    }

    /// The subscriptions that the ids stand for, each with its id.
    pub open spec fn summaries(self, ids: Seq<u32>) -> Seq<SubscriptionSummary> {
        ids.map_values(
            |id: u32|
                SubscriptionSummary { subscription_id: id, subscription: self.accounts[id].sub },
        )
    }

    /// The totals of billing period `period_index` of subscription `id` are on
    /// file as `snapshot`.
    pub open spec fn has_snapshot(
        self,
        id: u32,
        period_index: u32,
        snapshot: BillingPeriodSnapshot,
    ) -> bool {
        &&& self.snapshots.contains(snapshot)
        &&& snapshot.subscription_id == id
        &&& snapshot.period_index == period_index
    }

    /// What the prepaid balance of subscription `id` lacks for `num_intervals`
    /// recurring charges.
    pub open spec fn topup_needed(self, id: u32, num_intervals: u32) -> int {
        let sub = self.accounts[id].sub;
        let lacking = sub.amount * num_intervals - sub.prepaid_balance;
        if lacking > 0 {
            lacking
        } else {
            0
        }
    }
}

impl VaultState {
    /// What `estimate_topup_for_intervals` answers.
    pub open spec fn topup_answer(self, id: u32, num_intervals: u32) -> Result<i128, Error> {
        if !self.accounts.contains_key(id) {
            Err(Error::NotFound)
        } else if !fits(self.accounts[id].sub.amount * num_intervals) {
            Err(Error::Overflow)
        } else {
            Ok(self.topup_needed(id, num_intervals) as i128)
        }
    }
}

/// At most `limit` items of `items`, from position `start` on.
pub open spec fn page_of(items: Seq<u32>, start: u32, limit: u32) -> Seq<u32> {
    let first = if start < items.len() {
        start as int
    } else {
        items.len() as int
    };
    let last = if first + limit < items.len() {
        first + limit
    } else {
        items.len() as int
    };
    items.subrange(first, last)
}

/// Whether and when the next recurring charge of `sub` falls due.
pub open spec fn next_charge(sub: Subscription) -> NextChargeInfo {
    NextChargeInfo {
        next_charge_timestamp: if due_time(sub) <= u64::MAX {
            due_time(sub) as u64
        } else {
            u64::MAX
        },
        is_charge_expected: !(sub.status is Paused) && !(sub.status is Cancelled),
    }
}

/// State of the lifetime cap of `sub`.
pub open spec fn cap_state(sub: Subscription) -> CapInfo {
    CapInfo {
        lifetime_cap: sub.lifetime_cap,
        lifetime_charged: sub.lifetime_charged,
        remaining_cap: match sub.lifetime_cap {
            Some(cap) => Some((cap - sub.lifetime_charged) as i128),
            None => None,
        },
        cap_reached: sub.cap_reached(),
    }
}

/// A listing holds at most one id per number, each of an account that it shows,
/// in ascending order; and it holds each such id.
pub proof fn lemma_ids(s: VaultState, selection: Selection, from: int, to: int)
    requires
        0 <= from,
        to <= u32::MAX,
    ensures
        s.ids(selection, from, to).len() <= if to > from {
            to - from
        } else {
            0
        },
        forall|i: int|
            0 <= i < s.ids(selection, from, to).len() ==> {
                let id = #[trigger] s.ids(selection, from, to)[i];
                from <= id < to && s.accounts.contains_key(id) && selection.shows(s.accounts[id])
            },
        forall|i: int, j: int|
            0 <= i < j < s.ids(selection, from, to).len() ==> (#[trigger] s.ids(
                selection,
                from,
                to,
            )[i]) < (#[trigger] s.ids(selection, from, to)[j]),
        forall|id: u32|
            from <= id < to && #[trigger] s.accounts.contains_key(id) && selection.shows(
                s.accounts[id],
            ) ==> s.ids(selection, from, to).contains(id),
    decreases to - from,
{
    if to > from {
        lemma_ids(s, selection, from, to - 1);
        let earlier = s.ids(selection, from, to - 1);
        let all = s.ids(selection, from, to);
        let last = (to - 1) as u32;
        assert forall|id: u32|
            from <= id < to && #[trigger] s.accounts.contains_key(id) && selection.shows(
                s.accounts[id],
            ) implies all.contains(id) by {
            if id == last {
                assert(all[all.len() - 1] == id);
            } else {
                let i = choose|i: int| 0 <= i < earlier.len() && earlier[i] == id;
                assert(earlier.contains(id));
                assert(all[i] == id);
            }
        }
    }
}

/// Works out whether and when the next recurring charge of `sub` falls due. A
/// due time past the end of time counts as the end of time.
pub fn compute_next_charge_info(sub: &Subscription) -> (info: NextChargeInfo)
    ensures
        info == next_charge(*sub),
{
    let next_charge_timestamp: u64 = match sub.last_payment_timestamp.checked_add(
        sub.interval_seconds,
    ) {
        Some(timestamp) => timestamp,
        None => u64::MAX,
    };
    NextChargeInfo {
        next_charge_timestamp,
        is_charge_expected: sub.status != SubscriptionStatus::Paused && sub.status
            != SubscriptionStatus::Cancelled,
    }
}

impl SubscriptionVault {
    /// Reads a subscription.
    pub fn get_subscription(&self, subscription_id: u32) -> (r: Result<Subscription, Error>)
        ensures
            self@.accounts.contains_key(subscription_id) ==> r == Ok::<Subscription, Error>(
                self@.accounts[subscription_id].sub,
            ),
            !self@.accounts.contains_key(subscription_id) ==> r == Err::<Subscription, Error>(
                Error::NotFound,
            ),
    {
        match self.account(subscription_id) {
            Ok(account) => Ok(account.sub),
            Err(e) => Err(e),
        }
    }

    /// Works out what must be paid in so that the prepaid balance covers
    /// `num_intervals` recurring charges.
    pub fn estimate_topup_for_intervals(&self, subscription_id: u32, num_intervals: u32) -> (r:
        Result<i128, Error>)
        requires
            self.wf(),
        ensures
            r == self@.topup_answer(subscription_id, num_intervals),
            if !self@.accounts.contains_key(subscription_id) {
                r == Err::<i128, Error>(Error::NotFound)
            } else if !fits(self@.accounts[subscription_id].sub.amount * num_intervals) {
                r == Err::<i128, Error>(Error::Overflow)
            } else {
                r is Ok && r->Ok_0 == self@.topup_needed(subscription_id, num_intervals)
            },
    {
        let sub = match self.get_subscription(subscription_id) {
            Ok(sub) => sub,
            Err(e) => return Err(e),
        };
        let required: i128 = match safe_mul(sub.amount, num_intervals as i128) {
            Ok(required) => required,
            Err(e) => return Err(e),
        };
        proof {
            assert(self@.accounts[subscription_id].wf());
            assert(required >= 0) by (nonlinear_arith)
                requires
                    required == sub.amount * num_intervals,
                    sub.amount > 0,
                    num_intervals >= 0,
            ;
        }
        if required > sub.prepaid_balance {
            Ok(required - sub.prepaid_balance)
        } else {
            Ok(0)
        }
    }

    /// Tells whether and when the next recurring charge of a subscription falls
    /// due.
    pub fn get_next_charge_info(&self, subscription_id: u32) -> (r: Result<NextChargeInfo, Error>)
        ensures
            self@.accounts.contains_key(subscription_id) ==> r == Ok::<NextChargeInfo, Error>(
                next_charge(self@.accounts[subscription_id].sub),
            ),
            !self@.accounts.contains_key(subscription_id) ==> r == Err::<NextChargeInfo, Error>(
                Error::NotFound,
            ),
    {
        match self.get_subscription(subscription_id) {
            Ok(sub) => Ok(compute_next_charge_info(&sub)),
            Err(e) => Err(e),
        }
    }

    /// Reads the state of the lifetime cap of a subscription.
    pub fn get_cap_info(&self, subscription_id: u32) -> (r: Result<CapInfo, Error>)
        requires
            self.wf(),
        ensures
            self@.accounts.contains_key(subscription_id) ==> r == Ok::<CapInfo, Error>(
                cap_state(self@.accounts[subscription_id].sub),
            ),
            !self@.accounts.contains_key(subscription_id) ==> r == Err::<CapInfo, Error>(
                Error::NotFound,
            ),
    {
        let sub = match self.get_subscription(subscription_id) {
            Ok(sub) => sub,
            Err(e) => return Err(e),
        };
        assert(self@.accounts[subscription_id].wf());
        let (remaining_cap, cap_reached) = match sub.lifetime_cap {
            Some(cap) => (Some(cap - sub.lifetime_charged), sub.lifetime_charged >= cap),
            None => (None, false),
        };
        Ok(
            CapInfo {
                lifetime_cap: sub.lifetime_cap,
                lifetime_charged: sub.lifetime_charged,
                remaining_cap,
                cap_reached,
            },
        )
    }

    /// Collects the ids of the accounts that the selection shows, from `from`
    /// on.
    fn collect_ids(&self, selection: Selection, from: u32) -> (ids: Vec<u32>)
        ensures
            ids@ == self@.ids_from(selection, from),
    {
        let mut ids: Vec<u32> = Vec::new();
        let mut id: u32 = from;
        while id < self.next_id
            invariant
                from <= id,
                from <= self.next_id ==> id <= self.next_id,
                from > self.next_id ==> id == from,
                ids@ == self@.ids(selection, from as int, id as int),
            decreases self.next_id - id,
        {
            if let Ok(account) = self.account(id) {
                if selection.admits(&account) {
                    ids.push(id);
                }
            }
            id = id + 1;
        }
        ids
    }

    /// Lists subscriptions of a merchant in the order of their ids, at most
    /// `limit` of them, leaving out the first `start`.
    pub fn get_subscriptions_by_merchant(&self, merchant: Address, start: u32, limit: u32) -> (list:
        Vec<Subscription>)
        ensures
            list@ == self@.subscriptions(
                page_of(self@.ids_from(Selection::OfMerchant(merchant), 0), start, limit),
            ),
    {
        let ids = self.collect_ids(Selection::OfMerchant(merchant), 0);
        let ghost page = page_of(ids@, start, limit);
        proof {
            lemma_ids(self@, Selection::OfMerchant(merchant), 0, self.next_id as int);
        }
        let mut list: Vec<Subscription> = Vec::new();
        let mut position: usize = start as usize;
        while position < ids.len() && list.len() < limit as usize
            invariant
                page == page_of(ids@, start, limit),
                position == start + list@.len(),
                position <= ids@.len() || list@.len() == 0,
                list@.len() <= page.len(),
                list@ == self@.subscriptions(page).take(list@.len() as int),
                forall|i: int| 0 <= i < ids@.len() ==> self@.accounts.contains_key(#[trigger] ids@[i]),
            decreases ids@.len() - position,
        {
            let ghost shown = list@.len() as int;
            assert(page[shown] == ids@[position as int]);
            if let Ok(account) = self.account(ids[position]) {
                list.push(account.sub);
            }
            assert(list@ =~= self@.subscriptions(page).take(shown + 1));
            position = position + 1;
        }
        assert(list@ =~= self@.subscriptions(page));
        list
    }

    /// Counts the subscriptions of a merchant.
    pub fn get_merchant_subscription_count(&self, merchant: Address) -> (count: u32)
        ensures
            count == self@.ids_from(Selection::OfMerchant(merchant), 0).len(),
    {
        let ids = self.collect_ids(Selection::OfMerchant(merchant), 0);
        proof {
            lemma_ids(self@, Selection::OfMerchant(merchant), 0, self.next_id as int);
        }
        ids.len() as u32
    }

    /// Lists the subscriptions of a subscriber in the order of their ids, at
    /// most `limit` of them, from `start_from_id` on.
    pub fn list_subscriptions_by_subscriber(
        &self,
        env: &soroban_sdk::Env,
        subscriber: Address,
        start_from_id: u32,
        limit: u32,
    ) -> (r: Result<SubscriptionsPage, Error>)
        ensures
            limit == 0 ==> r == Err::<SubscriptionsPage, Error>(Error::InvalidInput),
            limit > 0 ==> ({
                let ids = self@.ids_from(Selection::OfSubscriber(subscriber), start_from_id);
                &&& r is Ok
                &&& listed(r->Ok_0.subscription_ids) == page_of(ids, 0, limit).map_values(
                    |id: u32| Some(id),
                )
                &&& r->Ok_0.has_next == (ids.len() > limit)
            }),
    {
        if limit == 0 {
            return Err(Error::InvalidInput);
        }
        let ids = self.collect_ids(Selection::OfSubscriber(subscriber), start_from_id);
        let ghost page = page_of(ids@, 0, limit).map_values(|id: u32| Some(id));
        let mut subscription_ids = new_list(env);
        let mut i: u32 = 0;
        while (i as usize) < ids.len() && i < limit
            invariant
                page == page_of(ids@, 0, limit).map_values(|id: u32| Some(id)),
                i <= ids@.len(),
                i <= limit,
                listed(subscription_ids) == page.take(i as int),
                i <= page.len(),
            decreases limit - i,
        {
            append_to_list(&mut subscription_ids, ids[i as usize]);
            assert(listed(subscription_ids) =~= page.take(i + 1));
            i = i + 1;
        }
        assert(listed(subscription_ids) =~= page);
        Ok(SubscriptionsPage { subscription_ids, has_next: ids.len() > limit as usize })
    }

    /// Reads the totals of a closed billing period.
    pub fn get_billing_period_snapshot(&self, subscription_id: u32, period_index: u32) -> (r: Result<
        BillingPeriodSnapshot,
        Error,
    >)
        requires
            self.wf(),
        ensures
            forall|snapshot: BillingPeriodSnapshot| #[trigger]
                self@.has_snapshot(subscription_id, period_index, snapshot) ==> r == Ok::<
                    BillingPeriodSnapshot,
                    Error,
                >(snapshot),
            r is Ok ==> self@.has_snapshot(subscription_id, period_index, r->Ok_0),
            r is Err ==> r == Err::<BillingPeriodSnapshot, Error>(Error::NotFound),
    {
        let mut i: usize = 0;
        while i < self.snapshots.len()
            invariant
                i <= self.snapshots@.len(),
                self.wf(),
                forall|j: int|
                    0 <= j < i ==> !((#[trigger] self.snapshots@[j]).subscription_id
                        == subscription_id && self.snapshots@[j].period_index == period_index),
            decreases self.snapshots@.len() - i,
        {
            let snapshot = self.snapshots[i];
            if snapshot.subscription_id == subscription_id && snapshot.period_index == period_index {
                assert(self@.snapshots[i as int] == snapshot);
                assert(self@.has_snapshot(subscription_id, period_index, snapshot));
                return Ok(snapshot);
            }
            i = i + 1;
        }
        Err(Error::NotFound)
    }

    /// Exports subscriptions in the order of their ids, at most `limit` of them,
    /// from `start_id` on.
    pub fn export_subscription_summaries(&self, admin: Address, start_id: u32, limit: u32) -> (r:
        Result<Vec<SubscriptionSummary>, Error>)
        ensures
            match self@.admin_refusal(admin) {
                Some(e) => r == Err::<Vec<SubscriptionSummary>, Error>(e),
                None => r is Ok && r->Ok_0@ == self@.summaries(
                    page_of(self@.ids_from(Selection::All, start_id), 0, limit),
                ),
            },
    {
        match self.require_admin(admin) {
            Ok(_) => {},
            Err(e) => return Err(e),
        }
        let ids = self.collect_ids(Selection::All, start_id);
        let ghost page = page_of(ids@, 0, limit);
        proof {
            lemma_ids(self@, Selection::All, start_id as int, self.next_id as int);
        }
        let mut list: Vec<SubscriptionSummary> = Vec::new();
        while list.len() < ids.len() && list.len() < limit as usize
            invariant
                page == page_of(ids@, 0, limit),
                list@.len() <= page.len(),
                list@ == self@.summaries(page).take(list@.len() as int),
                forall|i: int| 0 <= i < ids@.len() ==> self@.accounts.contains_key(#[trigger] ids@[i]),
            decreases page.len() - list@.len(),
        {
            let ghost shown = list@.len() as int;
            let id: u32 = ids[list.len()];
            assert(page[shown] == id);
            if let Ok(account) = self.account(id) {
                list.push(SubscriptionSummary { subscription_id: id, subscription: account.sub });
            }
            assert(list@ =~= self@.summaries(page).take(shown + 1));
        }
        assert(list@ =~= self@.summaries(page));
        Ok(list)
    }
}

} // verus!
