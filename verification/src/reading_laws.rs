//! What reading the vault gives, told by the plain fields that are read.
use vstd::prelude::*;

use crate::billing_laws::{charge_runs, chargeable, unused};
use crate::charge_core::charge_result;
use crate::metadata::{keys_of, Pairs};
use crate::queries::{cap_state, lemma_ids, next_charge, page_of, Selection};
use crate::safe_math::fits;
use crate::types::{
    Address, BillingPeriodSnapshot, Bytes32, ChargeExecutionResult, Error, Subscription,
};
use crate::vault::VaultState;

verus! {

/// An amount can be represented if it lies in the range of `i128`.
pub proof fn law_amounts_that_fit(value: int)
    ensures
        fits(value) <==> value == (value as i128) as int,
        fits(value) <==> i128::MIN <= value <= i128::MAX,
{
}

/// The next charge falls due one interval after the last payment, or at the end
/// of time if that comes first, and is expected unless the subscription is paused
/// or cancelled.
pub proof fn law_next_charge(sub: Subscription)
    ensures
        ({
            let info = next_charge(sub);
            let moment = sub.last_payment_timestamp + sub.interval_seconds;
            &&& moment <= u64::MAX ==> info.next_charge_timestamp == moment
            &&& moment > u64::MAX ==> info.next_charge_timestamp == u64::MAX
            &&& info.is_charge_expected <==> sub.status is Active || sub.status
                is InsufficientBalance || sub.status is GracePeriod
        }),
{
}

/// The time that is told for the next charge is the first at which it is not
/// refused because the interval is not over.
pub proof fn law_next_charge_is_the_first_moment(
    s: VaultState,
    id: u32,
    now: u64,
    key: Option<Bytes32>,
    amount: i128,
)
    requires
        s.valid(),
        chargeable(s, id),
        unused(s.accounts[id], now, key),
        s.accounts[id].sub.last_payment_timestamp + s.accounts[id].sub.interval_seconds <= u64::MAX,
    ensures
        charge_result(s, id, now, key, Ok(amount)) == Err::<ChargeExecutionResult, Error>(
            Error::IntervalNotElapsed,
        ) <==> now < next_charge(s.accounts[id].sub).next_charge_timestamp,
{
    assert(s.accounts[id].wf());
}

/// After a charge that was paid the next one falls due an interval later, if
/// that comes before the end of time.
pub proof fn law_next_charge_after_a_paid_one(
    s: VaultState,
    id: u32,
    now: u64,
    key: Option<Bytes32>,
    amount: i128,
)
    requires
        s.valid(),
        charge_runs(s, id, now, key),
        charge_result(s, id, now, key, Ok(amount)) == Ok::<ChargeExecutionResult, Error>(
            ChargeExecutionResult::Charged,
        ),
        s.accounts[id].sub.lifetime_cap is None,
        now + s.accounts[id].sub.interval_seconds <= u64::MAX,
    ensures
        ({
            let after = s.charged_once(id, now, key, Ok(amount)).accounts[id].sub;
            &&& next_charge(after).next_charge_timestamp == now
                + s.accounts[id].sub.interval_seconds
            &&& next_charge(after).is_charge_expected
        }),
{
    assert(s.accounts[id].wf());
}

/// The state of a cap adds up: what was charged and what remains make the cap,
/// which is reached when nothing remains. Without a cap nothing is reached.
pub proof fn law_cap_info(s: VaultState, id: u32)
    requires
        s.valid(),
        s.accounts.contains_key(id),
    ensures
        ({
            let sub = s.accounts[id].sub;
            let info = cap_state(sub);
            &&& info.lifetime_cap == sub.lifetime_cap
            &&& info.lifetime_charged == sub.lifetime_charged
            &&& info.remaining_cap is Some <==> sub.lifetime_cap is Some
            &&& sub.lifetime_cap is Some ==> {
                &&& info.remaining_cap->0 >= 0
                &&& info.remaining_cap->0 + sub.lifetime_charged == sub.lifetime_cap->0
                &&& info.cap_reached <==> info.remaining_cap->0 == 0
            }
            &&& sub.lifetime_cap is None ==> !info.cap_reached
        }),
{
    assert(s.accounts[id].wf());
}

/// What must be paid in for a number of intervals is what they cost beyond the
/// balance, and nothing if the balance covers them. It is told for every
/// subscription whose cost can be represented.
pub proof fn law_topup(s: VaultState, id: u32, num_intervals: u32)
    requires
        s.valid(),
    ensures
        ({
            let sub = s.accounts[id].sub;
            let cost = sub.amount * num_intervals;
            let there = s.accounts.contains_key(id);
            let answer = s.topup_answer(id, num_intervals);
            &&& !there ==> answer == Err::<i128, Error>(Error::NotFound)
            &&& there && cost > i128::MAX ==> answer == Err::<i128, Error>(Error::Overflow)
            &&& there && cost <= i128::MAX ==> answer is Ok && answer->Ok_0 == s.topup_needed(
                id,
                num_intervals,
            )
        }),
        ({
            let sub = s.accounts[id].sub;
            let cost = sub.amount * num_intervals;
            let topup = s.topup_needed(id, num_intervals);
            &&& topup >= 0
            &&& cost > sub.prepaid_balance ==> sub.prepaid_balance + topup == cost
            &&& cost <= sub.prepaid_balance ==> topup == 0
        }),
{
    let sub = s.accounts[id].sub;
    if s.accounts.contains_key(id) {
        assert(s.accounts[id].wf());
        let cost = sub.amount * num_intervals;
        assert(cost >= 0) by (nonlinear_arith)
            requires
                cost == sub.amount * num_intervals,
                sub.amount > 0,
                num_intervals >= 0,
        ;
    }
}

/// The totals of a billing period are those on file under its subscription and
/// its number.
pub proof fn law_snapshots_are_read_from_file(
    s: VaultState,
    id: u32,
    period_index: u32,
    snapshot: BillingPeriodSnapshot,
)
    requires
        s.valid(),
    ensures
        s.has_snapshot(id, period_index, snapshot) <==> exists|i: int|
            0 <= i < s.snapshots.len() && #[trigger] s.snapshots[i] == snapshot
                && snapshot.subscription_id == id && snapshot.period_index == period_index,
        forall|other: BillingPeriodSnapshot|
            s.has_snapshot(id, period_index, snapshot) && #[trigger] s.has_snapshot(
                id,
                period_index,
                other,
            ) ==> other == snapshot,
{
    assert forall|other: BillingPeriodSnapshot|
        s.has_snapshot(id, period_index, snapshot) && #[trigger] s.has_snapshot(
            id,
            period_index,
            other,
        ) implies other == snapshot by {
        let i = s.snapshots.index_of(snapshot);
        let j = s.snapshots.index_of(other);
        assert(s.snapshots[i] == snapshot && s.snapshots[j] == other);
    }
}

/// A listing shows what it is named after.
pub proof fn law_selections(s: VaultState, id: u32, party: Address)
    ensures
        Selection::All.shows(s.accounts[id]),
        Selection::OfSubscriber(party).shows(s.accounts[id]) <==> s.accounts[id].sub.subscriber
            == party,
        Selection::OfMerchant(party).shows(s.accounts[id]) <==> s.accounts[id].sub.merchant == party,
{
}

/// A listing from an id on holds just the ids of the accounts from there on that
/// it shows, in ascending order.
pub proof fn law_listing_from(s: VaultState, selection: Selection, from: u32, id: u32)
    requires
        s.valid(),
    ensures
        s.ids_from(selection, from).contains(id) <==> from <= id && s.accounts.contains_key(id)
            && selection.shows(s.accounts[id]),
        forall|i: int, j: int|
            0 <= i < j < s.ids_from(selection, from).len() ==> (#[trigger] s.ids_from(
                selection,
                from,
            )[i]) < (#[trigger] s.ids_from(selection, from)[j]),
{
    lemma_ids(s, selection, from as int, s.next_id as int);
}

/// A page leaves out the first `start` items and shows the next, in their order:
/// as many as there are, but at most `limit`.
pub proof fn law_page(items: Seq<u32>, start: u32, limit: u32)
    ensures
        ({
            let page = page_of(items, start, limit);
            &&& page.len() <= limit
            &&& start >= items.len() ==> page.len() == 0
            &&& start < items.len() && start + limit <= items.len() ==> page.len() == limit
            &&& start < items.len() < start + limit ==> page.len() == items.len() - start
            &&& forall|i: int| 0 <= i < page.len() ==> #[trigger] page[i] == items[start + i]
        }),
{
}

/// Subscriptions and summaries are shown one for each id, in the order of the ids.
pub proof fn law_listed_subscriptions(s: VaultState, ids: Seq<u32>, i: int)
    requires
        0 <= i < ids.len(),
    ensures
        s.subscriptions(ids).len() == ids.len(),
        s.subscriptions(ids)[i] == s.accounts[ids[i]].sub,
        s.summaries(ids).len() == ids.len(),
        s.summaries(ids)[i].subscription_id == ids[i],
        s.summaries(ids)[i].subscription == s.accounts[ids[i]].sub,
{
}

/// The keys of metadata are listed one for each entry, in order.
pub proof fn law_listed_keys(list: Pairs, i: int)
    requires
        0 <= i < list.len(),
    ensures
        keys_of(list).len() == list.len(),
        keys_of(list)[i] == list[i].0,
{
}

/// What the readers of balances, of grace and of metadata see: nothing, where
/// nothing is kept.
pub proof fn law_defaults(s: VaultState, merchant: Address, id: u32)
    ensures
        s.merchant_balances.contains_key(merchant) ==> s.merchant_balance(merchant)
            == s.merchant_balances[merchant],
        !s.merchant_balances.contains_key(merchant) ==> s.merchant_balance(merchant) == 0,
        s.config is Some ==> s.grace_period() == s.config->0.grace_period,
        s.config is None ==> s.grace_period() == 0,
        s.metadata.contains_key(id) ==> s.metadata_of(id) == s.metadata[id],
        !s.metadata.contains_key(id) ==> s.metadata_of(id).len() == 0,
{
}

} // verus!
