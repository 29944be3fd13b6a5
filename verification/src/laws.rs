//! What holds of the vault across calls.
use vstd::prelude::*;

use crate::billing::batch_state;
use crate::charge_core::{
    after_charge, after_paid, after_unpaid, after_usage, calls_in_window, charge_decision,
    closing_snapshot, due_time, period_of, usage_decision, ChargeOutcome, UsageOutcome,
};
use crate::custody::law_operations_keep_validity;
use crate::merchant::{lemma_fee_within_amount, protocol_fee};
use crate::metadata::{drop_key, has_key, lemma_drop_key, lemma_put, lookup, put};
use crate::operations::Operation;
use crate::queries::{lemma_ids, page_of, Selection};
use crate::state_machine::allowed;
use crate::types::{
    Account, Address, BlocklistEntry, Bytes32, Error, PlanTemplate, SubscriptionStatus,
    TransferOrder,
};
use crate::vault::VaultState;

verus! {

// The lifecycle.

/// Cancellation is final: no other status follows it.
pub proof fn law_cancelled_is_final(to: SubscriptionStatus)
    ensures
        allowed(SubscriptionStatus::Cancelled, to) <==> to is Cancelled,
{
}

/// The status changes that recurring charges make, one or several in a row.
spec fn charging_change(from: SubscriptionStatus, to: SubscriptionStatus) -> bool {
    from == to || ((from is Active || from is GracePeriod) && !(to is Paused))
}

/// What an operation may do to an account that is already there.
pub open spec fn continues(before: Account, after: Account) -> bool {
    // The parties and the terms stay.
    &&& after.sub.subscriber == before.sub.subscriber
    &&& after.sub.merchant == before.sub.merchant
    &&& after.sub.amount == before.sub.amount
    &&& after.sub.interval_seconds == before.sub.interval_seconds
    &&& after.sub.usage_enabled == before.sub.usage_enabled
    &&& after.sub.expiration == before.sub.expiration
    &&& after.sub.lifetime_cap == before.sub.lifetime_cap
    &&& after.sub.billing_anchor_timestamp == before.sub.billing_anchor_timestamp
    &&& after.token == before.token
    // Billing goes forward.
    &&& after.sub.lifetime_charged >= before.sub.lifetime_charged
    &&& after.sub.current_period_index >= before.sub.current_period_index
    &&& after.sub.last_payment_timestamp >= before.sub.last_payment_timestamp
    &&& before.charged_period is Some ==> after.charged_period is Some
        && after.charged_period->0 >= before.charged_period->0
    // The lifecycle is kept.
    &&& allowed(before.sub.status, after.sub.status)
}

proof fn lemma_charge_continues(
    s: VaultState,
    id: u32,
    now: u64,
    idempotency_key: Option<Bytes32>,
    resolved: Result<i128, Error>,
    other: u32,
)
    requires
        s.valid(),
        s.accounts.contains_key(other),
    ensures
        s.charged_once(id, now, idempotency_key, resolved).accounts.contains_key(other),
        continues(
            s.accounts[other],
            s.charged_once(id, now, idempotency_key, resolved).accounts[other],
        ),
        charging_change(
            s.accounts[other].sub.status,
            s.charged_once(id, now, idempotency_key, resolved).accounts[other].sub.status,
        ),
        s.charged_once(id, now, idempotency_key, resolved).accounts[other].sub.prepaid_balance
            <= s.accounts[other].sub.prepaid_balance,
{
    assert(s.accounts[other].wf());
}

proof fn lemma_batch_continues(s: VaultState, items: Seq<Option<u32>>, now: u64, other: u32)
    requires
        s.valid(),
        s.accounts.contains_key(other),
    ensures
        batch_state(s, items, now).valid(),
        batch_state(s, items, now).accounts.contains_key(other),
        continues(s.accounts[other], batch_state(s, items, now).accounts[other]),
        charging_change(
            s.accounts[other].sub.status,
            batch_state(s, items, now).accounts[other].sub.status,
        ),
        batch_state(s, items, now).accounts[other].sub.prepaid_balance
            <= s.accounts[other].sub.prepaid_balance,
    decreases items.len(),
{
    if items.len() > 0 {
        lemma_batch_continues(s, items.drop_last(), now, other);
        let before = batch_state(s, items.drop_last(), now);
        if let Some(id) = items.last() {
            let resolved = before.recurring_amount(id);
            lemma_charge_continues(before, id, now, None, resolved, other);
            law_operations_keep_validity(
                before,
                Operation::ChargeOne { id, now, idempotency_key: None, resolved },
            );
        }
    }
}

proof fn lemma_usage_continues(
    s: VaultState,
    id: u32,
    usage_amount: i128,
    reference: Seq<u8>,
    now: u64,
    other: u32,
)
    requires
        s.valid(),
        s.accounts.contains_key(other),
    ensures
        s.used_once(id, usage_amount, reference, now).accounts.contains_key(other),
        continues(
            s.accounts[other],
            s.used_once(id, usage_amount, reference, now).accounts[other],
        ),
        s.used_once(id, usage_amount, reference, now).accounts[other].sub.prepaid_balance
            <= s.accounts[other].sub.prepaid_balance,
{
    assert(s.accounts[other].wf());
}

/// A state whose accounts are those of another, but for one, continues it.
proof fn lemma_one_account_continues(s: VaultState, after: VaultState, id: u32, other: u32)
    requires
        s.accounts.contains_key(other),
        after.accounts == s.accounts || after.accounts == s.accounts.insert(id, after.accounts[id]),
        s.accounts.contains_key(id) ==> continues(s.accounts[id], after.accounts[id]),
    ensures
        after.accounts.contains_key(other),
        continues(s.accounts[other], after.accounts[other]),
{
}

/// No operation removes a subscription, changes its parties or its terms, takes
/// its billing back, or changes its status against the lifecycle.
pub proof fn law_subscriptions_continue(s: VaultState, operation: Operation, id: u32)
    requires
        s.valid(),
        s.accounts.contains_key(id),
    ensures
        s.after(operation).accounts.contains_key(id),
        continues(s.accounts[id], s.after(operation).accounts[id]),
{
    let after = s.after(operation);
    match operation {
        Operation::ChargeOne { id: charged, now, idempotency_key, resolved } => {
            lemma_charge_continues(s, charged, now, idempotency_key, resolved, id);
        },
        Operation::ChargeSubscription { id: charged, now } => {
            lemma_charge_continues(s, charged, now, None, s.recurring_amount(charged), id);
        },
        Operation::BatchCharge { items, now } => {
            lemma_batch_continues(s, items, now, id);
        },
        Operation::ChargeUsageOne { id: charged, usage_amount, reference, now } => {
            lemma_usage_continues(s, charged, usage_amount, reference, now, id);
        },
        Operation::ChargeUsage { id: charged, usage_amount, now } => {
            lemma_usage_continues(s, charged, usage_amount, Seq::empty(), now, id);
        },
        Operation::CreateSubscription { .. } | Operation::CreateFromPlan { .. } => {
            lemma_one_account_continues(s, after, s.next_id, id);
        },
        Operation::Deposit { id: changed, .. } => {
            lemma_one_account_continues(s, after, changed, id);
        },
        Operation::ChangeStatus { id: changed, .. } => {
            lemma_one_account_continues(s, after, changed, id);
        },
        Operation::SetUsageCap { id: changed, .. } => {
            lemma_one_account_continues(s, after, changed, id);
        },
        Operation::SetRateLimit { id: changed, .. } => {
            lemma_one_account_continues(s, after, changed, id);
        },
        Operation::ChargeOneOff { id: changed, .. } => {
            lemma_one_account_continues(s, after, changed, id);
        },
        Operation::WithdrawSubscriberFunds { id: changed, .. } => {
            lemma_one_account_continues(s, after, changed, id);
        },
        _ => {
            assert(after.accounts == s.accounts);
        },
    }
}

/// A prepaid balance grows by deposits only.
pub proof fn law_only_deposits_add_to_a_balance(s: VaultState, operation: Operation, id: u32)
    requires
        s.valid(),
        s.accounts.contains_key(id),
        !(operation is Deposit),
    ensures
        s.after(operation).accounts[id].sub.prepaid_balance
            <= s.accounts[id].sub.prepaid_balance,
{
    assert(s.accounts[id].wf());
    match operation {
        Operation::ChargeOne { id: charged, now, idempotency_key, resolved } => {
            lemma_charge_continues(s, charged, now, idempotency_key, resolved, id);
        },
        Operation::ChargeSubscription { id: charged, now } => {
            lemma_charge_continues(s, charged, now, None, s.recurring_amount(charged), id);
        },
        Operation::BatchCharge { items, now } => {
            lemma_batch_continues(s, items, now, id);
        },
        Operation::ChargeUsageOne { id: charged, usage_amount, reference, now } => {
            lemma_usage_continues(s, charged, usage_amount, reference, now, id);
        },
        Operation::ChargeUsage { id: charged, usage_amount, now } => {
            lemma_usage_continues(s, charged, usage_amount, Seq::empty(), now, id);
        },
        _ => {},
    }
}

/// Once cancelled, a subscription stays cancelled, whatever happens.
pub proof fn law_cancellation_lasts(s: VaultState, operation: Operation, id: u32)
    requires
        s.valid(),
        s.accounts.contains_key(id),
        s.accounts[id].sub.status is Cancelled,
    ensures
        s.after(operation).accounts[id].sub.status is Cancelled,
{
    law_subscriptions_continue(s, operation, id);
}

/// A cancelled subscription is never charged again, in any way.
pub proof fn law_cancelled_is_not_charged(
    s: VaultState,
    id: u32,
    now: u64,
    idempotency_key: Option<Bytes32>,
    resolved: Result<i128, Error>,
    merchant: Address,
    amount: i128,
)
    requires
        s.accounts.contains_key(id),
        s.accounts[id].sub.status is Cancelled,
    ensures
        charge_decision(s, id, now, idempotency_key, resolved) is Err,
        usage_decision(s, id, amount, now) is Err,
        s.one_off_refusal(id, merchant, amount) is Some,
{
}

/// Pausing an active subscription and resuming it leaves everything as it was.
pub proof fn law_pause_then_resume(s: VaultState, id: u32, first: Address, second: Address)
    requires
        s.accounts.contains_key(id),
        s.accounts[id].sub.status is Active,
        s.accounts[id].has_party(first),
        s.accounts[id].has_party(second),
    ensures
        s.status_refusal(id, first, SubscriptionStatus::Paused) is None,
        s.with_status(id, SubscriptionStatus::Paused).status_refusal(
            id,
            second,
            SubscriptionStatus::Active,
        ) is None,
        s.with_status(id, SubscriptionStatus::Paused).with_status(id, SubscriptionStatus::Active)
            == s,
{
    let paused = s.with_status(id, SubscriptionStatus::Paused);
    let resumed = paused.with_status(id, SubscriptionStatus::Active);
    assert(resumed.accounts =~= s.accounts);
}

/// Cancelling twice, or pausing twice, is the same as doing it once.
pub proof fn law_status_changes_are_idempotent(
    s: VaultState,
    id: u32,
    authorizer: Address,
    to: SubscriptionStatus,
)
    requires
        s.status_refusal(id, authorizer, to) is None,
    ensures
        s.with_status(id, to).status_refusal(id, authorizer, to) is None,
        s.with_status(id, to).with_status(id, to) == s.with_status(id, to),
{
    let once = s.with_status(id, to);
    assert(once.with_status(id, to).accounts =~= once.accounts);
}

/// Only the two parties of a subscription may cancel, pause or resume it.
pub proof fn law_strangers_change_no_status(
    s: VaultState,
    id: u32,
    stranger: Address,
    to: SubscriptionStatus,
)
    requires
        s.accounts.contains_key(id),
        stranger != s.accounts[id].sub.subscriber,
        stranger != s.accounts[id].sub.merchant,
    ensures
        s.status_refusal(id, stranger, to) == Some(Error::Forbidden),
{
}

// Settings.

/// The operation is entitled to change settings: it makes them for the first
/// time, or the admin calls it.
pub open spec fn may_change_settings(s: VaultState, operation: Operation) -> bool {
    match operation {
        Operation::Init { .. } => s.config is None,
        Operation::SetMinTopup { admin, .. } => s.admin_refusal(admin) is None,
        Operation::SetGracePeriod { admin, .. } => s.admin_refusal(admin) is None,
        Operation::RotateAdmin { admin, .. } => s.admin_refusal(admin) is None,
        Operation::SetTreasury { admin, .. } => s.admin_refusal(admin) is None,
        Operation::SetProtocolFee { admin, .. } => s.admin_refusal(admin) is None,
        Operation::SetEmergencyStop { admin, .. } => s.admin_refusal(admin) is None,
        _ => false,
    }
}

/// The settings are the same in both states.
pub open spec fn same_settings(s: VaultState, t: VaultState) -> bool {
    &&& s.config == t.config
    &&& s.treasury == t.treasury
    &&& s.protocol_fee_bps == t.protocol_fee_bps
    &&& s.emergency_stop == t.emergency_stop
}

proof fn lemma_charge_keeps_settings(
    s: VaultState,
    id: u32,
    now: u64,
    idempotency_key: Option<Bytes32>,
    resolved: Result<i128, Error>,
)
    ensures
        same_settings(s, s.charged_once(id, now, idempotency_key, resolved)),
{
}

proof fn lemma_usage_keeps_settings(
    s: VaultState,
    id: u32,
    usage_amount: i128,
    reference: Seq<u8>,
    now: u64,
)
    ensures
        same_settings(s, s.used_once(id, usage_amount, reference, now)),
{
}

proof fn lemma_batch_keeps_settings(s: VaultState, items: Seq<Option<u32>>, now: u64)
    ensures
        same_settings(s, batch_state(s, items, now)),
    decreases items.len(),
{
    if items.len() > 0 {
        lemma_batch_keeps_settings(s, items.drop_last(), now);
        let before = batch_state(s, items.drop_last(), now);
        if let Some(id) = items.last() {
            lemma_charge_keeps_settings(before, id, now, None, before.recurring_amount(id));
        }
    }
}

/// Nobody but the admin changes the settings once they are made.
pub proof fn law_only_the_admin_changes_settings(s: VaultState, operation: Operation)
    requires
        !may_change_settings(s, operation),
    ensures
        same_settings(s, s.after(operation)),
{
    match operation {
        Operation::ChargeOne { id, now, idempotency_key, resolved } => {
            lemma_charge_keeps_settings(s, id, now, idempotency_key, resolved);
        },
        Operation::ChargeSubscription { id, now } => {
            lemma_charge_keeps_settings(s, id, now, None, s.recurring_amount(id));
        },
        Operation::ChargeUsageOne { id, usage_amount, reference, now } => {
            lemma_usage_keeps_settings(s, id, usage_amount, reference, now);
        },
        Operation::ChargeUsage { id, usage_amount, now } => {
            lemma_usage_keeps_settings(s, id, usage_amount, Seq::empty(), now);
        },
        Operation::BatchCharge { items, now } => {
            lemma_batch_keeps_settings(s, items, now);
        },
        _ => {
            assert(same_settings(s, s.after(operation)));
        },
    }
}

// Recurring charges.

/// A recurring charge runs only for a subscription that is active or in grace,
/// and only if its merchant has not paused.
pub proof fn law_charge_runs_only_when_chargeable(
    s: VaultState,
    id: u32,
    now: u64,
    idempotency_key: Option<Bytes32>,
    resolved: Result<i128, Error>,
)
    requires
        charge_decision(s, id, now, idempotency_key, resolved) is Ok,
    ensures
        s.accounts.contains_key(id),
        s.accounts[id].sub.status is Active || s.accounts[id].sub.status is GracePeriod,
        !s.paused_merchants.contains(s.accounts[id].sub.merchant),
{
}

/// A paid charge takes from the prepaid balance what it gives to the merchant
/// and the treasury together, and counts it towards the lifetime cap. The
/// treasury's part is the protocol fee.
pub proof fn law_paid_charge_is_shared_out(
    s: VaultState,
    id: u32,
    now: u64,
    idempotency_key: Option<Bytes32>,
    amount: i128,
)
    requires
        s.valid(),
        charge_decision(s, id, now, idempotency_key, Ok(amount)) == Ok::<ChargeOutcome, Error>(
            ChargeOutcome::Paid,
        ),
    ensures
        ({
            let after = after_paid(s, id, now, idempotency_key, amount);
            let before_sub = s.accounts[id].sub;
            let after_sub = after.accounts[id].sub;
            let merchant = before_sub.merchant;
            &&& before_sub.prepaid_balance - after_sub.prepaid_balance == amount
            &&& after_sub.lifetime_charged - before_sub.lifetime_charged == amount
            &&& after.treasury_balance - s.treasury_balance == protocol_fee(
                amount,
                s.protocol_fee_bps,
            )
            &&& (after.merchant_balance(merchant) - s.merchant_balance(merchant)) + (
            after.treasury_balance - s.treasury_balance) == amount
        }),
{
    lemma_fee_within_amount(amount, s.protocol_fee_bps);
}

/// A charge that the balance does not cover moves no money: but for the status
/// of the one subscription and the announcement of the failure, everything
/// stays. The status is one from which the subscription can recover.
pub proof fn law_unpaid_charge_moves_no_money(
    s: VaultState,
    id: u32,
    now: u64,
    idempotency_key: Option<Bytes32>,
    amount: i128,
    status: SubscriptionStatus,
)
    requires
        charge_decision(s, id, now, idempotency_key, Ok(amount)) == Ok::<ChargeOutcome, Error>(
            ChargeOutcome::Unpaid { status },
        ),
    ensures
        status is GracePeriod || status is InsufficientBalance,
        allowed(status, SubscriptionStatus::Active),
        ({
            let after = after_unpaid(s, id, now, amount, status);
            &&& after == (VaultState { events: after.events, ..s.with_status(id, status) })
            &&& after.events.len() == s.events.len() + 1
        }),
{
}

/// After a paid charge no other is paid in the same or an earlier billing
/// period. A repetition with the key of the first charge does nothing, and one
/// without it is refused as a replay.
pub proof fn law_one_charge_per_period(
    s: VaultState,
    id: u32,
    now: u64,
    key: Option<Bytes32>,
    amount: i128,
    later: u64,
    later_key: Option<Bytes32>,
    later_amount: i128,
)
    requires
        s.valid(),
        charge_decision(s, id, now, key, Ok(amount)) == Ok::<ChargeOutcome, Error>(
            ChargeOutcome::Paid,
        ),
        period_of(s.accounts[id].sub, later) <= period_of(s.accounts[id].sub, now),
    ensures
        ({
            let after = after_paid(s, id, now, key, amount);
            let repetition = charge_decision(after, id, later, later_key, Ok(later_amount));
            if after.accounts[id].sub.status is Cancelled {
                repetition == Err::<ChargeOutcome, Error>(Error::NotActive)
            } else if later_key is Some && after.accounts[id].idempotency_key == later_key {
                repetition == Ok::<ChargeOutcome, Error>(ChargeOutcome::AlreadyProcessed)
            } else {
                repetition == Err::<ChargeOutcome, Error>(Error::Replay)
            }
        }),
{
    assert(s.accounts[id].wf());
}

/// A charge that is repeated with its idempotency key, at any time, is reported
/// as done and changes nothing, unless the first one used the lifetime cap up.
pub proof fn law_idempotency_key_works_once(
    s: VaultState,
    id: u32,
    now: u64,
    key: Bytes32,
    amount: i128,
    later: u64,
    later_amount: i128,
)
    requires
        s.valid(),
        charge_decision(s, id, now, Some(key), Ok(amount)) == Ok::<ChargeOutcome, Error>(
            ChargeOutcome::Paid,
        ),
        !after_paid(s, id, now, Some(key), amount).accounts[id].sub.cap_reached(),
    ensures
        ({
            let after = after_paid(s, id, now, Some(key), amount);
            &&& charge_decision(after, id, later, Some(key), Ok(later_amount)) == Ok::<
                ChargeOutcome,
                Error,
            >(ChargeOutcome::AlreadyProcessed)
            &&& after.charged_once(id, later, Some(key), Ok(later_amount)) == after
        }),
{
}

/// Money is not taken, and the status is not changed, before a full interval has
/// passed since the last payment.
pub proof fn law_no_charge_before_due_time(
    s: VaultState,
    id: u32,
    now: u64,
    idempotency_key: Option<Bytes32>,
    resolved: Result<i128, Error>,
)
    requires
        s.accounts.contains_key(id),
        now < due_time(s.accounts[id].sub),
    ensures
        s.charged_once(id, now, idempotency_key, resolved) == s,
{
}

/// Two paid charges of a subscription lie at least one interval apart.
pub proof fn law_paid_charges_are_spaced(
    s: VaultState,
    id: u32,
    now: u64,
    key: Option<Bytes32>,
    amount: i128,
    later: u64,
    later_key: Option<Bytes32>,
    later_amount: i128,
)
    requires
        charge_decision(s, id, now, key, Ok(amount)) == Ok::<ChargeOutcome, Error>(
            ChargeOutcome::Paid,
        ),
        charge_decision(
            after_paid(s, id, now, key, amount),
            id,
            later,
            later_key,
            Ok(later_amount),
        ) == Ok::<ChargeOutcome, Error>(ChargeOutcome::Paid),
    ensures
        later >= now + s.accounts[id].sub.interval_seconds,
{
}

/// A charge leaves all other subscriptions alone.
pub proof fn law_charge_touches_one_subscription(
    s: VaultState,
    id: u32,
    now: u64,
    idempotency_key: Option<Bytes32>,
    resolved: Result<i128, Error>,
    usage_amount: i128,
    reference: Seq<u8>,
    other: u32,
)
    requires
        other != id,
        s.accounts.contains_key(other),
    ensures
        s.charged_once(id, now, idempotency_key, resolved).accounts.contains_key(other),
        s.charged_once(id, now, idempotency_key, resolved).accounts[other] == s.accounts[other],
        s.used_once(id, usage_amount, reference, now).accounts.contains_key(other),
        s.used_once(id, usage_amount, reference, now).accounts[other] == s.accounts[other],
{
}

/// A paid charge files the totals of the billing period that it closes, and
/// they are what the period charged.
pub proof fn law_paid_charge_files_a_snapshot(
    s: VaultState,
    id: u32,
    now: u64,
    idempotency_key: Option<Bytes32>,
    amount: i128,
)
    requires
        s.valid(),
        charge_decision(s, id, now, idempotency_key, Ok(amount)) == Ok::<ChargeOutcome, Error>(
            ChargeOutcome::Paid,
        ),
    ensures
        after_paid(s, id, now, idempotency_key, amount).has_snapshot(
            id,
            s.accounts[id].sub.current_period_index,
            closing_snapshot(id, s.accounts[id], now),
        ),
        closing_snapshot(id, s.accounts[id], now).total_amount_charged
            == s.accounts[id].period_amount_charged,
        closing_snapshot(id, s.accounts[id], now).total_usage_units
            == s.accounts[id].sub.current_period_usage_units,
{
    let after = after_paid(s, id, now, idempotency_key, amount);
    let snapshot = closing_snapshot(id, s.accounts[id], now);
    assert(after.snapshots[s.snapshots.len() as int] == snapshot);
}

// Lifetime caps.

/// Recurring and metered charges never take more than the lifetime cap, and a
/// subscription that has used it up is cancelled.
pub proof fn law_lifetime_cap_holds(s: VaultState, operation: Operation, id: u32)
    requires
        s.valid(),
        s.after(operation).accounts.contains_key(id),
        s.after(operation).accounts[id].sub.lifetime_cap is Some,
    ensures
        s.after(operation).accounts[id].sub.lifetime_charged <= s.after(
            operation,
        ).accounts[id].sub.lifetime_cap->0,
        s.after(operation).accounts[id].sub.lifetime_charged == s.after(
            operation,
        ).accounts[id].sub.lifetime_cap->0 ==> s.after(operation).accounts[id].sub.status is Cancelled,
{
    law_operations_keep_validity(s, operation);
    assert(s.after(operation).accounts[id].wf());
}

/// A charge that the lifetime cap has no room for takes nothing and cancels the
/// subscription.
pub proof fn law_exhausted_cap_cancels(
    s: VaultState,
    id: u32,
    now: u64,
    idempotency_key: Option<Bytes32>,
    amount: i128,
)
    requires
        charge_decision(s, id, now, idempotency_key, Ok(amount)) == Ok::<ChargeOutcome, Error>(
            ChargeOutcome::CapExhausted,
        ),
    ensures
        ({
            let after = after_charge(
                s,
                id,
                now,
                idempotency_key,
                amount,
                ChargeOutcome::CapExhausted,
            );
            after == (VaultState {
                events: after.events,
                ..s.with_status(id, SubscriptionStatus::Cancelled)
            })
        }),
{
}

// Metered usage.

/// A metered charge that goes through takes from the prepaid balance what it
/// gives to the merchant and the treasury together.
pub proof fn law_usage_is_shared_out(
    s: VaultState,
    id: u32,
    usage_amount: i128,
    reference: Seq<u8>,
    now: u64,
)
    requires
        s.valid(),
        usage_decision(s, id, usage_amount, now) == Ok::<UsageOutcome, Error>(UsageOutcome::Paid),
    ensures
        ({
            let after = after_usage(s, id, usage_amount, reference, now, UsageOutcome::Paid);
            let before_sub = s.accounts[id].sub;
            let merchant = before_sub.merchant;
            &&& before_sub.prepaid_balance - after.accounts[id].sub.prepaid_balance == usage_amount
            &&& (after.merchant_balance(merchant) - s.merchant_balance(merchant)) + (
            after.treasury_balance - s.treasury_balance) == usage_amount
        }),
{
    lemma_fee_within_amount(usage_amount, s.protocol_fee_bps);
    assert(s.accounts[id].wf());
}

/// Metered charges that go through stay within the cap of the billing period and
/// within the rate limit.
pub proof fn law_usage_limits_hold(
    s: VaultState,
    id: u32,
    usage_amount: i128,
    reference: Seq<u8>,
    now: u64,
)
    requires
        s.valid(),
        usage_decision(s, id, usage_amount, now) == Ok::<UsageOutcome, Error>(UsageOutcome::Paid),
    ensures
        ({
            let used = after_usage(
                s,
                id,
                usage_amount,
                reference,
                now,
                UsageOutcome::Paid,
            ).accounts[id];
            &&& used.sub.usage_cap_units is Some ==> used.sub.current_period_usage_units
                <= used.sub.usage_cap_units->0
            &&& used.sub.usage_rate_limit_max_calls is Some && used.sub.usage_rate_window_secs > 0
                ==> calls_in_window(used, now) <= used.sub.usage_rate_limit_max_calls->0
                && calls_in_window(used, now) == calls_in_window(s.accounts[id], now) + 1
        }),
{
    assert(s.accounts[id].wf());
}

/// A paid recurring charge starts the count of metered units afresh.
pub proof fn law_usage_count_restarts(
    s: VaultState,
    id: u32,
    now: u64,
    idempotency_key: Option<Bytes32>,
    amount: i128,
)
    requires
        charge_decision(s, id, now, idempotency_key, Ok(amount)) == Ok::<ChargeOutcome, Error>(
            ChargeOutcome::Paid,
        ),
    ensures
        after_paid(s, id, now, idempotency_key, amount).accounts[id].sub.current_period_usage_units
            == 0,
{
}

/// A metered charge that takes the last of the prepaid balance leaves the
/// subscription underfunded, or cancelled if it used up the lifetime cap too.
pub proof fn law_spent_balance_shows_in_status(
    s: VaultState,
    id: u32,
    reference: Seq<u8>,
    now: u64,
)
    requires
        s.valid(),
        usage_decision(s, id, s.accounts[id].sub.prepaid_balance, now) == Ok::<UsageOutcome, Error>(
            UsageOutcome::Paid,
        ),
    ensures
        ({
            let used = after_usage(
                s,
                id,
                s.accounts[id].sub.prepaid_balance,
                reference,
                now,
                UsageOutcome::Paid,
            ).accounts[id].sub;
            &&& used.prepaid_balance == 0
            &&& used.status is InsufficientBalance || (used.status is Cancelled
                && used.cap_reached())
        }),
{
}

// The emergency stop.

/// While the emergency stop is on, no subscription is created by its terms, no
/// deposit is taken, and no recurring or metered charge runs for a caller.
pub proof fn law_emergency_stop_blocks(s: VaultState, operation: Operation)
    requires
        s.emergency_stop,
        operation is CreateSubscription || operation is Deposit || operation is ChargeSubscription
            || operation is ChargeUsage || operation is BatchCharge,
    ensures
        s.after(operation) == s,
{
}

/// The emergency stop keeps nobody from cancelling and being paid back.
pub proof fn law_emergency_stop_lets_subscribers_leave(
    s: VaultState,
    id: u32,
    subscriber: Address,
    stopped: bool,
)
    ensures
        ({
            let other = VaultState { emergency_stop: stopped, ..s };
            &&& other.status_refusal(id, subscriber, SubscriptionStatus::Cancelled)
                == s.status_refusal(id, subscriber, SubscriptionStatus::Cancelled)
            &&& other.refund_refusal(id, subscriber) == s.refund_refusal(id, subscriber)
        }),
{
}

// Paying in and out.

/// What a subscriber has paid in and was not charged comes back in full: after
/// cancelling, a withdrawal orders the whole balance paid out and leaves none.
pub proof fn law_cancel_then_withdraw_returns_the_balance(s: VaultState, id: u32)
    requires
        s.valid(),
        s.accounts.contains_key(id),
        s.accounts[id].sub.prepaid_balance > 0,
    ensures
        ({
            let subscriber = s.accounts[id].sub.subscriber;
            let cancelled = s.with_status(id, SubscriptionStatus::Cancelled);
            let refunded = cancelled.refunded(id);
            &&& s.status_refusal(id, subscriber, SubscriptionStatus::Cancelled) is None
            &&& cancelled.refund_refusal(id, subscriber) is None
            &&& refunded.accounts[id].sub.prepaid_balance == 0
            &&& refunded.transfers == s.transfers.push(
                TransferOrder::Outbound {
                    account: subscriber,
                    amount: s.accounts[id].sub.prepaid_balance,
                },
            )
        }),
{
}

/// After a deposit of what the estimate names, the prepaid balance covers the
/// intervals that were asked for; with any less it does not.
pub proof fn law_topup_estimate_is_exact(s: VaultState, id: u32, num_intervals: u32, amount: i128)
    requires
        s.valid(),
        s.accounts.contains_key(id),
        amount >= 0,
    ensures
        s.accounts[id].sub.prepaid_balance + amount >= s.accounts[id].sub.amount * num_intervals
            <==> amount >= s.topup_needed(id, num_intervals),
{
}

// Metadata.

/// A key that was set reads back as what it was set to, and all other keys, of
/// this and of all other subscriptions, read as before.
pub proof fn law_metadata_set_then_get(
    s: VaultState,
    id: u32,
    key: Seq<u8>,
    value: Seq<u8>,
    other_id: u32,
    other_key: Seq<u8>,
)
    requires
        s.valid(),
    ensures
        ({
            let after = s.with_metadata(id, put(s.metadata_of(id), key, value));
            &&& lookup(after.metadata_of(id), key) == Some(value)
            &&& (other_id != id || other_key != key) ==> lookup(
                after.metadata_of(other_id),
                other_key,
            ) == lookup(s.metadata_of(other_id), other_key)
        }),
{
    lemma_put(s.metadata_of(id), key, value);
}

/// A key that was deleted is gone, and all other keys, of this and of all other
/// subscriptions, read as before.
pub proof fn law_metadata_delete_then_get(
    s: VaultState,
    id: u32,
    key: Seq<u8>,
    other_id: u32,
    other_key: Seq<u8>,
)
    requires
        s.valid(),
    ensures
        ({
            let after = s.with_metadata(id, drop_key(s.metadata_of(id), key));
            &&& lookup(after.metadata_of(id), key) is None
            &&& (other_id != id || other_key != key) ==> lookup(
                after.metadata_of(other_id),
                other_key,
            ) == lookup(s.metadata_of(other_id), other_key)
        }),
{
    lemma_drop_key(s.metadata_of(id), key);
}

/// Metadata has no bearing on anything else: setting or deleting it leaves all
/// the rest of the vault as it was.
pub proof fn law_metadata_touches_nothing_else(s: VaultState, operation: Operation)
    requires
        operation is SetMetadata || operation is DeleteMetadata,
    ensures
        s.after(operation) == (VaultState { metadata: s.after(operation).metadata, ..s }),
{
}

/// Cancelling a subscription ends the setting of metadata, but what is there can
/// still be deleted.
pub proof fn law_metadata_of_cancelled(
    s: VaultState,
    id: u32,
    actor: Address,
    key: Seq<u8>,
    value: Seq<u8>,
)
    requires
        s.accounts.contains_key(id),
    ensures
        ({
            let cancelled = s.with_status(id, SubscriptionStatus::Cancelled);
            &&& cancelled.set_metadata_refusal(id, actor, key, value) is Some
            &&& cancelled.delete_metadata_refusal(id, actor, key) == s.delete_metadata_refusal(
                id,
                actor,
                key,
            )
        }),
{
}

/// Deleting a key makes room for another, and setting a key that is there
/// needs none.
pub proof fn law_metadata_slots(
    s: VaultState,
    id: u32,
    actor: Address,
    key: Seq<u8>,
    new_key: Seq<u8>,
    value: Seq<u8>,
)
    requires
        s.valid(),
        has_key(s.metadata_of(id), key),
    ensures
        s.set_metadata_refusal(id, actor, key, value) != Some(Error::MetadataKeyLimitReached),
        s.with_metadata(id, drop_key(s.metadata_of(id), key)).set_metadata_refusal(
            id,
            actor,
            new_key,
            value,
        ) != Some(Error::MetadataKeyLimitReached),
        put(s.metadata_of(id), key, value).len() == s.metadata_of(id).len(),
{
    lemma_drop_key(s.metadata_of(id), key);
}

// The blocklist.

/// A barred subscriber enters no new commitment: no subscription, from a plan or
/// not, and no deposit.
pub proof fn law_blocklist_bars_commitments(
    s: VaultState,
    subscriber: Address,
    plan: PlanTemplate,
    expiration: Option<u64>,
    now: u64,
    plan_template_id: u32,
    id: u32,
    amount: i128,
)
    requires
        s.blocklist.contains_key(subscriber),
    ensures
        s.create_refusal(subscriber, plan, expiration, now) is Some,
        s.create_from_plan_refusal(subscriber, plan_template_id) == Some(
            Error::SubscriberBlocklisted,
        ),
        s.deposit_refusal(id, subscriber, amount) is Some,
{
}

/// Being barred changes nothing for what is there: no account is touched, and
/// charging, cancelling and being paid back go on as before.
pub proof fn law_blocklist_spares_what_is_there(
    s: VaultState,
    entry: BlocklistEntry,
    id: u32,
    party: Address,
    to: SubscriptionStatus,
    now: u64,
    idempotency_key: Option<Bytes32>,
    resolved: Result<i128, Error>,
    usage_amount: i128,
)
    ensures
        ({
            let barred = s.with_blocked(entry);
            &&& barred == (VaultState { blocklist: barred.blocklist, ..s })
            &&& charge_decision(barred, id, now, idempotency_key, resolved) == charge_decision(
                s,
                id,
                now,
                idempotency_key,
                resolved,
            )
            &&& usage_decision(barred, id, usage_amount, now) == usage_decision(
                s,
                id,
                usage_amount,
                now,
            )
            &&& barred.status_refusal(id, party, to) == s.status_refusal(id, party, to)
            &&& barred.refund_refusal(id, party) == s.refund_refusal(id, party)
        }),
{
}

/// Taking a subscriber off the blocklist undoes putting them on it.
pub proof fn law_unblocking_undoes_blocking(s: VaultState, entry: BlocklistEntry, admin: Address)
    requires
        !s.blocklist.contains_key(entry.subscriber),
        s.admin_refusal(admin) is None,
    ensures
        s.with_blocked(entry).unblock_refusal(admin, entry.subscriber) is None,
        s.with_blocked(entry).with_unblocked(entry.subscriber) == s,
{
    assert(s.with_blocked(entry).with_unblocked(entry.subscriber).blocklist =~= s.blocklist);
}

// Ids and listings.

/// Every subscription gets an id that none had before.
pub proof fn law_ids_are_fresh(
    s: VaultState,
    subscriber: Address,
    plan: PlanTemplate,
    expiration: Option<u64>,
    now: u64,
)
    requires
        s.valid(),
        s.opening_refusal(subscriber, plan) is None,
    ensures
        !s.accounts.contains_key(s.next_id),
        s.opened(subscriber, plan, expiration, now).accounts.contains_key(s.next_id),
        s.opened(subscriber, plan, expiration, now).next_id == s.next_id + 1,
{
}

/// A listing of a merchant read page by page is the same as read in one piece.
pub proof fn law_pages_join(ids: Seq<u32>, start: u32, first: u32, second: u32)
    requires
        start + first + second <= u32::MAX,
    ensures
        page_of(ids, start, first) + page_of(ids, (start + first) as u32, second) == page_of(
            ids,
            start,
            (first + second) as u32,
        ),
{
    assert(page_of(ids, start, first) + page_of(ids, (start + first) as u32, second) =~= page_of(
        ids,
        start,
        (first + second) as u32,
    ));
}

proof fn lemma_ids_split(s: VaultState, selection: Selection, from: int, middle: int, to: int)
    requires
        from <= middle <= to,
    ensures
        s.ids(selection, from, to) == s.ids(selection, from, middle) + s.ids(selection, middle, to),
    decreases to - middle,
{
    if middle < to {
        lemma_ids_split(s, selection, from, middle, to - 1);
        assert(s.ids(selection, from, to) =~= s.ids(selection, from, middle) + s.ids(
            selection,
            middle,
            to,
        ));
    } else {
        assert(s.ids(selection, from, to) =~= s.ids(selection, from, middle) + s.ids(
            selection,
            middle,
            to,
        ));
    }
}

/// A listing of a subscriber goes on behind the last id of a page: the page and
/// what is listed from the next id on are together the whole listing.
pub proof fn law_listing_goes_on_behind_a_page(
    s: VaultState,
    selection: Selection,
    from: u32,
    limit: u32,
)
    requires
        limit > 0,
        s.ids_from(selection, from).len() > limit,
    ensures
        ({
            let page = page_of(s.ids_from(selection, from), 0, limit);
            &&& page.len() == limit
            &&& page.last() < s.next_id
            &&& s.ids_from(selection, from) == page + s.ids_from(
                selection,
                (page.last() + 1) as u32,
            )
        }),
{
    let to = s.next_id as int;
    let all = s.ids_from(selection, from);
    let page = page_of(all, 0, limit);
    lemma_ids(s, selection, from as int, to);
    assert(page.last() == all[limit - 1]);
    let middle = page.last() + 1;
    lemma_ids_split(s, selection, from as int, middle, to);
    lemma_ids(s, selection, from as int, middle);
    lemma_ids(s, selection, middle, to);
    let head = s.ids(selection, from as int, middle);
    let tail = s.ids(selection, middle, to);
    assert(all == head + tail);
    if head.len() < limit {
        assert(all[limit - 1] == tail[limit - 1 - head.len()]);
    }
    if head.len() > limit {
        assert(all[limit as int] == head[limit as int]);
        assert(all[limit as int] < middle);
    }
    assert(page =~= head);
}

/// A listing is complete and without strangers: it holds the id of just the
/// accounts that it is about, each once, in ascending order.
pub proof fn law_listing_is_complete(s: VaultState, selection: Selection, id: u32)
    requires
        s.valid(),
    ensures
        s.ids_from(selection, 0).contains(id) <==> s.accounts.contains_key(id) && selection.shows(
            s.accounts[id],
        ),
        forall|i: int, j: int|
            0 <= i < j < s.ids_from(selection, 0).len() ==> (#[trigger] s.ids_from(
                selection,
                0,
            )[i]) < (#[trigger] s.ids_from(selection, 0)[j]),
{
    lemma_ids(s, selection, 0, s.next_id as int);
}

// Errors.

/// Callers can tell errors apart by their numbers, and none has the number that
/// stands for success.
pub proof fn law_error_codes_are_distinct(a: Error, b: Error)
    ensures
        a.spec_code() == b.spec_code() <==> a == b,
        a.spec_code() != 0,
{
}

} // verus!
