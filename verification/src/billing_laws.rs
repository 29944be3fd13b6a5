//! What charges do, told by the plain fields of the accounts and balances
//! before and after.
use vstd::prelude::*;

use crate::billing::{batch_report, batch_reports, batch_state};
use crate::charge_core::{charge_result, usage_decision};
use crate::custody::law_operations_keep_validity;
use crate::merchant::protocol_fee;
use crate::operations::Operation;
use crate::types::{
    Account, Address, BatchChargeResult, BillingChargeKind, BillingPeriodSnapshot, BillingStatement,
    Bytes32, ChargeExecutionResult, Error, EventView, LifetimeCapReachedEvent, Subscription,
    SubscriptionChargeFailedEvent, SubscriptionChargedEvent, SubscriptionStatus, UsageStatementView,
    BILLING_SNAPSHOT_FLAG_CLOSED, BILLING_SNAPSHOT_FLAG_INTERVAL_CHARGED,
    BILLING_SNAPSHOT_FLAG_USAGE_CHARGED,
};
use crate::vault::VaultState;

verus! {

/// A subscription that can be asked for its recurring amount: it is there, its
/// merchant has not paused, and it is active or in grace.
pub open spec fn chargeable(s: VaultState, id: u32) -> bool {
    &&& s.accounts.contains_key(id)
    &&& !s.paused_merchants.contains(s.accounts[id].sub.merchant)
    &&& s.accounts[id].sub.status is Active || s.accounts[id].sub.status is GracePeriod
}

/// The charge was not made before: neither its key nor its billing period was
/// used.
pub open spec fn unused(account: Account, now: u64, key: Option<Bytes32>) -> bool {
    &&& key is Some ==> account.idempotency_key != key
    &&& account.charged_period is Some ==> now / account.sub.interval_seconds
        > account.charged_period->0
}

/// A full interval has passed since the last payment.
pub open spec fn due(account: Account, now: u64) -> bool {
    account.sub.last_payment_timestamp + account.sub.interval_seconds <= now
}

/// The charge runs: only the cap, the balance and the size of numbers decide
/// what comes of it.
pub open spec fn charge_runs(s: VaultState, id: u32, now: u64, key: Option<Bytes32>) -> bool {
    chargeable(s, id) && unused(s.accounts[id], now, key) && due(s.accounts[id], now)
}

/// The lifetime cap, if there is one, has room for `amount` more.
pub open spec fn cap_has_room(sub: Subscription, amount: i128) -> bool {
    sub.lifetime_cap is Some ==> sub.lifetime_charged + amount <= sub.lifetime_cap->0
}

/// What `merchant` has earned: nothing where no balance is kept.
pub open spec fn earned(s: VaultState, merchant: Address) -> int {
    if s.merchant_balances.contains_key(merchant) {
        s.merchant_balances[merchant] as int
    } else {
        0
    }
}

/// The treasury's part of `amount`: the basis points of it, rounded down.
pub open spec fn treasury_part(s: VaultState, amount: i128) -> int {
    (amount * s.protocol_fee_bps) / 10_000
}

/// No number grows past what can be represented when `amount` is shared out.
pub open spec fn shares_fit(s: VaultState, merchant: Address, amount: i128) -> bool {
    let fee = treasury_part(s, amount);
    &&& amount * s.protocol_fee_bps <= i128::MAX
    &&& earned(s, merchant) + amount - fee <= i128::MAX
    &&& s.treasury_balance + fee <= i128::MAX
}

/// `amount` was shared out between `merchant` and the treasury, and no other
/// balance of a merchant changed.
pub open spec fn shared_out(s: VaultState, t: VaultState, merchant: Address, amount: i128) -> bool {
    let fee = treasury_part(s, amount);
    &&& earned(t, merchant) == earned(s, merchant) + amount - fee
    &&& t.treasury_balance == s.treasury_balance + fee
    &&& forall|other: Address| other != merchant ==> #[trigger] earned(t, other) == earned(s, other)
}

/// But for the account `id`, and what charges write to, the states are the same.
pub open spec fn only_charged(s: VaultState, t: VaultState, id: u32) -> bool {
    &&& t.accounts.contains_key(id)
    &&& t.accounts == s.accounts.insert(id, t.accounts[id])
    &&& t == (VaultState {
        accounts: t.accounts,
        merchant_balances: t.merchant_balances,
        treasury_balance: t.treasury_balance,
        statements: t.statements,
        snapshots: t.snapshots,
        references: t.references,
        events: t.events,
        ..s
    })
}

/// Only the status of subscription `id` changed, to `status`, and `event` was
/// announced.
pub open spec fn only_status_changed(
    s: VaultState,
    t: VaultState,
    id: u32,
    status: SubscriptionStatus,
    event: EventView,
) -> bool {
    let account = s.accounts[id];
    &&& t.accounts == s.accounts.insert(
        id,
        Account { sub: Subscription { status, ..account.sub }, ..account },
    )
    &&& t.events == s.events.push(event)
    &&& t == (VaultState { accounts: t.accounts, events: t.events, ..s })
}

proof fn lemma_product_sign(amount: i128, bps: u32)
    requires
        amount >= 0,
        bps <= 10_000,
    ensures
        0 <= amount * bps,
        0 <= (amount * bps) / 10_000 <= amount,
{
    let product = amount * bps;
    assert(0 <= product <= amount * 10_000) by (nonlinear_arith)
        requires
            product == amount * bps,
            amount >= 0,
            0 <= bps <= 10_000,
    ;
}

/// The fee is the largest whole number that is not more than its share.
pub proof fn law_fee_is_the_share_rounded_down(amount: i128, fee_bps: u32)
    ensures
        protocol_fee(amount, fee_bps) * 10_000 <= amount * fee_bps,
        amount * fee_bps < (protocol_fee(amount, fee_bps) + 1) * 10_000,
{
}

// Recurring charges.

/// A recurring charge that cannot run is refused for the first reason in the
/// way: no subscription, a paused merchant, no amount, a status that lets no
/// charge run, a period already charged, an interval not yet over. Nothing
/// changes. A key that was used is answered as charged, and nothing changes
/// either.
pub proof fn law_charge_that_cannot_run(
    s: VaultState,
    id: u32,
    now: u64,
    key: Option<Bytes32>,
    resolved: Result<i128, Error>,
)
    requires
        s.valid(),
        resolved is Ok ==> !charge_runs(s, id, now, key),
    ensures
        s.charged_once(id, now, key, resolved) == s,
        ({
            let answer = charge_result(s, id, now, key, resolved);
            let account = s.accounts[id];
            let sub = account.sub;
            let there = s.accounts.contains_key(id);
            let open = there && !s.paused_merchants.contains(sub.merchant);
            let asked = chargeable(s, id) && resolved is Ok;
            let key_used = key is Some && account.idempotency_key == key;
            let period_used = account.charged_period is Some && now / sub.interval_seconds
                <= account.charged_period->0;
            &&& !there ==> answer == Err::<ChargeExecutionResult, Error>(Error::NotFound)
            &&& there && !open ==> answer == Err::<ChargeExecutionResult, Error>(
                Error::MerchantPaused,
            )
            &&& open && resolved is Err ==> answer == Err::<ChargeExecutionResult, Error>(
                resolved->Err_0,
            )
            &&& open && resolved is Ok && !chargeable(s, id) ==> answer == Err::<
                ChargeExecutionResult,
                Error,
            >(Error::NotActive)
            &&& asked && key_used ==> answer == Ok::<ChargeExecutionResult, Error>(
                ChargeExecutionResult::Charged,
            )
            &&& asked && !key_used && period_used ==> answer == Err::<ChargeExecutionResult, Error>(
                Error::Replay,
            )
            &&& asked && !key_used && !period_used && sub.last_payment_timestamp
                + sub.interval_seconds > u64::MAX ==> answer == Err::<ChargeExecutionResult, Error>(
                Error::Overflow,
            )
            &&& asked && !key_used && !period_used && now < sub.last_payment_timestamp
                + sub.interval_seconds <= u64::MAX ==> answer == Err::<ChargeExecutionResult, Error>(
                Error::IntervalNotElapsed,
            )
        }),
{
    if s.accounts.contains_key(id) {
        assert(s.accounts[id].wf());
    }
}

/// A charge that runs and is more than the lifetime cap has left takes nothing,
/// cancels the subscription, announces that the cap is reached, and is answered
/// as charged.
pub proof fn law_charge_beyond_the_cap_cancels(
    s: VaultState,
    id: u32,
    now: u64,
    key: Option<Bytes32>,
    amount: i128,
)
    requires
        s.valid(),
        charge_runs(s, id, now, key),
        !cap_has_room(s.accounts[id].sub, amount),
    ensures
        charge_result(s, id, now, key, Ok(amount)) == Ok::<ChargeExecutionResult, Error>(
            ChargeExecutionResult::Charged,
        ),
        only_status_changed(
            s,
            s.charged_once(id, now, key, Ok(amount)),
            id,
            SubscriptionStatus::Cancelled,
            EventView::LifetimeCapReached(
                LifetimeCapReachedEvent {
                    subscription_id: id,
                    lifetime_cap: s.accounts[id].sub.lifetime_cap->0,
                    lifetime_charged: s.accounts[id].sub.lifetime_charged,
                    timestamp: now,
                },
            ),
        ),
{
    assert(s.accounts[id].wf());
}

/// A charge that runs and that the cap has room for, but the prepaid balance does
/// not cover, takes nothing and is answered as insufficient. The subscription is
/// in grace while the grace period runs from the due time, else underfunded; the
/// failure is announced with what is lacking. It is never cancelled for that.
pub proof fn law_uncovered_charge_is_missed(
    s: VaultState,
    id: u32,
    now: u64,
    key: Option<Bytes32>,
    amount: i128,
)
    requires
        s.valid(),
        charge_runs(s, id, now, key),
        cap_has_room(s.accounts[id].sub, amount),
        amount < 0 || amount > s.accounts[id].sub.prepaid_balance,
    ensures
        ({
            let sub = s.accounts[id].sub;
            let answer = charge_result(s, id, now, key, Ok(amount));
            let t = s.charged_once(id, now, key, Ok(amount));
            let grace = if s.config is Some {
                s.config->0.grace_period as int
            } else {
                0
            };
            let grace_end = sub.last_payment_timestamp + sub.interval_seconds + grace;
            let status = if now < grace_end {
                SubscriptionStatus::GracePeriod
            } else {
                SubscriptionStatus::InsufficientBalance
            };
            if grace_end > u64::MAX {
                answer == Err::<ChargeExecutionResult, Error>(Error::Overflow) && t == s
            } else {
                &&& answer == Ok::<ChargeExecutionResult, Error>(
                    ChargeExecutionResult::InsufficientBalance,
                )
                &&& only_status_changed(
                    s,
                    t,
                    id,
                    status,
                    EventView::ChargeFailed(
                        SubscriptionChargeFailedEvent {
                            subscription_id: id,
                            merchant: sub.merchant,
                            required_amount: amount,
                            available_balance: sub.prepaid_balance,
                            shortfall: if amount > 0 {
                                (amount - sub.prepaid_balance) as i128
                            } else {
                                0
                            },
                            resulting_status: status,
                            timestamp: now,
                        },
                    ),
                )
            }
        }),
{
    assert(s.accounts[id].wf());
}

/// A charge that runs, that the cap has room for and the prepaid balance covers,
/// is paid: the amount leaves the balance, is shared out, counts towards the
/// cap, and closes the billing period. The subscription is active afterwards,
/// or cancelled if the cap is now used up.
pub proof fn law_covered_charge_is_paid(
    s: VaultState,
    id: u32,
    now: u64,
    key: Option<Bytes32>,
    amount: i128,
)
    requires
        s.valid(),
        charge_runs(s, id, now, key),
        cap_has_room(s.accounts[id].sub, amount),
        0 <= amount <= s.accounts[id].sub.prepaid_balance,
    ensures
        ({
            let before = s.accounts[id];
            let answer = charge_result(s, id, now, key, Ok(amount));
            let t = s.charged_once(id, now, key, Ok(amount));
            let after = t.accounts[id];
            let fitting = shares_fit(s, before.sub.merchant, amount) && before.sub.lifetime_charged
                + amount <= i128::MAX && before.sub.current_period_index < u32::MAX;
            if !fitting {
                answer == Err::<ChargeExecutionResult, Error>(Error::Overflow) && t == s
            } else {
                &&& answer == Ok::<ChargeExecutionResult, Error>(ChargeExecutionResult::Charged)
                &&& only_charged(s, t, id)
                &&& shared_out(s, t, before.sub.merchant, amount)
                &&& paid_from_to(before, after, now, key, amount)
            }
        }),
{
    let before = s.accounts[id];
    assert(before.wf());
    lemma_product_sign(amount, s.protocol_fee_bps);
    let t = s.charged_once(id, now, key, Ok(amount));
    assert(t.accounts =~= s.accounts.insert(id, t.accounts[id]));
}

/// How an account differs before and after a paid charge.
pub open spec fn paid_from_to(
    before: Account,
    after: Account,
    now: u64,
    key: Option<Bytes32>,
    amount: i128,
) -> bool {
    let used_up = before.sub.lifetime_cap is Some && after.sub.lifetime_charged
        == before.sub.lifetime_cap->0;
    &&& after.sub.prepaid_balance == before.sub.prepaid_balance - amount
    &&& after.sub.lifetime_charged == before.sub.lifetime_charged + amount
    &&& after.sub.last_payment_timestamp == now
    &&& after.sub.current_period_index == before.sub.current_period_index + 1
    &&& after.sub.current_period_usage_units == 0
    &&& used_up ==> after.sub.status is Cancelled
    &&& !used_up ==> after.sub.status is Active
    &&& after.charged_period == Some((now / before.sub.interval_seconds) as u64)
    &&& key is Some ==> after.idempotency_key == key
    &&& key is None ==> after.idempotency_key == before.idempotency_key
    &&& before.sub.status is GracePeriod ==> after.grace_start_timestamp is None
    &&& before.sub.status is Active ==> after.grace_start_timestamp
        == before.grace_start_timestamp
    &&& after.period_amount_charged == amount
    &&& after.period_interval_charged
    &&& after == (Account {
        sub: Subscription {
            prepaid_balance: after.sub.prepaid_balance,
            lifetime_charged: after.sub.lifetime_charged,
            last_payment_timestamp: now,
            current_period_index: after.sub.current_period_index,
            current_period_usage_units: 0,
            status: after.sub.status,
            ..before.sub
        },
        charged_period: after.charged_period,
        idempotency_key: after.idempotency_key,
        grace_start_timestamp: after.grace_start_timestamp,
        period_amount_charged: amount,
        period_interval_charged: true,
        ..before
    })
}

/// A paid charge is written down: one line of history from the last payment to
/// now, the totals of the billing period that it closes, and an announcement
/// with what was charged so far, followed by another one if the cap is used up.
pub proof fn law_paid_charge_is_written_down(
    s: VaultState,
    id: u32,
    now: u64,
    key: Option<Bytes32>,
    amount: i128,
)
    requires
        s.valid(),
        charge_runs(s, id, now, key),
        s.charged_once(id, now, key, Ok(amount)).accounts[id].sub.last_payment_timestamp
            != s.accounts[id].sub.last_payment_timestamp,
    ensures
        ({
            let before = s.accounts[id];
            let t = s.charged_once(id, now, key, Ok(amount));
            let after = t.accounts[id];
            let charged = EventView::Charged(
                SubscriptionChargedEvent {
                    subscription_id: id,
                    merchant: before.sub.merchant,
                    amount,
                    lifetime_charged: after.sub.lifetime_charged,
                },
            );
            let usage_flag = if before.sub.current_period_usage_units > 0 {
                BILLING_SNAPSHOT_FLAG_USAGE_CHARGED as int
            } else {
                0
            };
            let interval_flag = if before.period_interval_charged {
                BILLING_SNAPSHOT_FLAG_INTERVAL_CHARGED as int
            } else {
                0
            };
            &&& t.statements == s.statements.push(
                BillingStatement {
                    subscription_id: id,
                    amount,
                    merchant: before.sub.merchant,
                    kind: BillingChargeKind::Interval,
                    period_start: before.sub.last_payment_timestamp,
                    period_end: now,
                },
            )
            &&& t.snapshots == s.snapshots.push(
                BillingPeriodSnapshot {
                    subscription_id: id,
                    period_index: before.sub.current_period_index,
                    period_start: before.sub.last_payment_timestamp,
                    period_end: now,
                    total_amount_charged: before.period_amount_charged,
                    total_usage_units: before.sub.current_period_usage_units,
                    status_flags: (BILLING_SNAPSHOT_FLAG_CLOSED + usage_flag
                        + interval_flag) as u32,
                },
            )
            &&& t.references == s.references
            &&& if after.sub.status is Cancelled {
                t.events == s.events.push(charged).push(
                    EventView::LifetimeCapReached(
                        LifetimeCapReachedEvent {
                            subscription_id: id,
                            lifetime_cap: before.sub.lifetime_cap->0,
                            lifetime_charged: after.sub.lifetime_charged,
                            timestamp: now,
                        },
                    ),
                )
            } else {
                t.events == s.events.push(charged)
            }
        }),
{
    assert(s.accounts[id].wf());
}

/// A recurring charge cancels a subscription only if the cap has no room for the
/// amount, or if taking it uses the cap up to the last unit.
pub proof fn law_charge_cancels_only_for_the_cap(
    s: VaultState,
    id: u32,
    now: u64,
    key: Option<Bytes32>,
    amount: i128,
)
    requires
        s.valid(),
        s.accounts.contains_key(id),
        !(s.accounts[id].sub.status is Cancelled),
        s.charged_once(id, now, key, Ok(amount)).accounts[id].sub.status is Cancelled,
    ensures
        s.accounts[id].sub.lifetime_cap is Some,
        s.accounts[id].sub.lifetime_charged + amount >= s.accounts[id].sub.lifetime_cap->0,
        s.accounts[id].sub.lifetime_charged + amount == s.accounts[id].sub.lifetime_cap->0
            ==> s.charged_once(id, now, key, Ok(amount)).accounts[id].sub.prepaid_balance
            == s.accounts[id].sub.prepaid_balance - amount,
{
    assert(s.accounts[id].wf());
}

/// The entry point for one subscription charges its recurring amount without a
/// key. While the emergency stop is on it is refused; a balance that does not
/// cover the amount is an error; and with any error nothing changes.
pub proof fn law_charge_subscription_charges_the_recurring_amount(s: VaultState, id: u32, now: u64)
    ensures
        ({
            let answer = s.charge_answer(id, now);
            let t = s.after(Operation::ChargeSubscription { id, now });
            let amount = Ok::<i128, Error>(s.accounts[id].sub.amount);
            let inner = charge_result(s, id, now, None, amount);
            &&& answer is Err ==> t == s
            &&& s.emergency_stop ==> answer == Err::<(), Error>(Error::EmergencyStopActive)
            &&& !s.emergency_stop && !s.accounts.contains_key(id) ==> answer == Err::<(), Error>(
                Error::NotFound,
            )
            &&& !s.emergency_stop && s.accounts.contains_key(id) ==> {
                &&& inner is Err ==> answer == Err::<(), Error>(inner->Err_0)
                &&& inner is Ok && inner->Ok_0 is InsufficientBalance ==> answer == Err::<
                    (),
                    Error,
                >(Error::InsufficientBalance)
                &&& inner is Ok && inner->Ok_0 is Charged ==> answer == Ok::<(), Error>(()) && t
                    == s.charged_once(id, now, None, amount)
            }
        }),
{
}

// Metered usage.

/// A metered charge is refused for the first reason in the way, in the order of
/// the clauses, and then nothing changes.
pub proof fn law_usage_refusals(s: VaultState, id: u32, usage_amount: i128, reference: Seq<u8>, now: u64)
    requires
        s.valid(),
    ensures
        ({
            let account = s.accounts[id];
            let sub = account.sub;
            let answer = usage_decision(s, id, usage_amount, now);
            let there = s.accounts.contains_key(id);
            let open = there && !s.paused_merchants.contains(sub.merchant);
            let active = open && sub.status is Active;
            let metered = active && sub.usage_enabled;
            let positive = metered && usage_amount > 0;
            let covered = positive && usage_amount <= sub.prepaid_balance;
            &&& answer is Err ==> s.used_once(id, usage_amount, reference, now) == s
            &&& answer is Ok ==> covered
            &&& !there ==> answer->Err_0 is NotFound
            &&& there && !open ==> answer->Err_0 is MerchantPaused
            &&& open && !active ==> answer->Err_0 is NotActive
            &&& active && !metered ==> answer->Err_0 is UsageNotEnabled
            &&& metered && !positive ==> answer->Err_0 is InvalidAmount
            &&& positive && !covered ==> answer->Err_0 is InsufficientPrepaidBalance
            &&& covered && answer is Err ==> {
                ||| answer->Err_0 is UsageCapExceeded && !units_left(sub, usage_amount)
                ||| answer->Err_0 is RateLimitExceeded && units_left(sub, usage_amount)
                    && !call_left(account, now)
                ||| answer->Err_0 is Overflow && units_left(sub, usage_amount) && call_left(
                    account,
                    now,
                ) && (sub.lifetime_charged + usage_amount > i128::MAX || (cap_has_room(
                    sub,
                    usage_amount,
                ) && !shares_fit(s, sub.merchant, usage_amount)))
            }
        }),
{
    if s.accounts.contains_key(id) {
        assert(s.accounts[id].wf());
        if usage_amount > 0 {
            lemma_product_sign(usage_amount, s.protocol_fee_bps);
        }
    }
}

/// The cap of the billing period, if there is one, has that many units left.
pub open spec fn units_left(sub: Subscription, usage_amount: i128) -> bool {
    sub.usage_cap_units is Some ==> sub.current_period_usage_units + usage_amount
        <= sub.usage_cap_units->0
}

/// The rate limit, if there is one, has a call left: fewer were made in the
/// window that runs from its first call, or that window is over and any call is
/// allowed.
pub open spec fn call_left(account: Account, now: u64) -> bool {
    account.sub.usage_rate_limit_max_calls is Some ==> {
        let most = account.sub.usage_rate_limit_max_calls->0;
        if now < account.usage_window_start + account.sub.usage_rate_window_secs {
            account.usage_window_calls < most
        } else {
            0 < most
        }
    }
}

/// A metered charge that nothing stands in the way of goes through: it takes the
/// units if the lifetime cap has room for them, else it cancels the subscription
/// and takes nothing.
pub proof fn law_usage_goes_through(
    s: VaultState,
    id: u32,
    usage_amount: i128,
    reference: Seq<u8>,
    now: u64,
)
    requires
        s.valid(),
        s.accounts.contains_key(id),
        !s.paused_merchants.contains(s.accounts[id].sub.merchant),
        s.accounts[id].sub.status is Active,
        s.accounts[id].sub.usage_enabled,
        0 < usage_amount <= s.accounts[id].sub.prepaid_balance,
        units_left(s.accounts[id].sub, usage_amount),
        call_left(s.accounts[id], now),
        s.accounts[id].sub.lifetime_charged + usage_amount <= i128::MAX,
        cap_has_room(s.accounts[id].sub, usage_amount) ==> shares_fit(
            s,
            s.accounts[id].sub.merchant,
            usage_amount,
        ),
    ensures
        usage_decision(s, id, usage_amount, now) is Ok,
        ({
            let before = s.accounts[id];
            let t = s.used_once(id, usage_amount, reference, now);
            if cap_has_room(before.sub, usage_amount) {
                &&& only_charged(s, t, id)
                &&& shared_out(s, t, before.sub.merchant, usage_amount)
                &&& used_from_to(before, t.accounts[id], usage_amount, now)
            } else {
                only_status_changed(
                    s,
                    t,
                    id,
                    SubscriptionStatus::Cancelled,
                    EventView::LifetimeCapReached(
                        LifetimeCapReachedEvent {
                            subscription_id: id,
                            lifetime_cap: before.sub.lifetime_cap->0,
                            lifetime_charged: before.sub.lifetime_charged,
                            timestamp: now,
                        },
                    ),
                )
            }
        }),
{
    assert(s.accounts[id].wf());
    lemma_product_sign(usage_amount, s.protocol_fee_bps);
    let t = s.used_once(id, usage_amount, reference, now);
    assert(t.accounts =~= s.accounts.insert(id, t.accounts[id]));
}

/// How an account differs before and after metered units were taken. The status
/// changes only if the lifetime cap or the prepaid balance is used up.
pub open spec fn used_from_to(before: Account, after: Account, usage_amount: i128, now: u64) -> bool {
    let used_up = before.sub.lifetime_cap is Some && after.sub.lifetime_charged
        == before.sub.lifetime_cap->0;
    let in_window = now < before.usage_window_start + before.sub.usage_rate_window_secs;
    &&& after.sub.prepaid_balance == before.sub.prepaid_balance - usage_amount
    &&& after.sub.lifetime_charged == before.sub.lifetime_charged + usage_amount
    &&& after.sub.current_period_usage_units == before.sub.current_period_usage_units
        + usage_amount
    &&& after.period_amount_charged == before.period_amount_charged + usage_amount
    &&& used_up ==> after.sub.status is Cancelled
    &&& !used_up && after.sub.prepaid_balance == 0 ==> after.sub.status is InsufficientBalance
    &&& !used_up && after.sub.prepaid_balance > 0 ==> after.sub.status is Active
    &&& before.sub.usage_rate_limit_max_calls is None ==> after.usage_window_start
        == before.usage_window_start && after.usage_window_calls == before.usage_window_calls
    &&& before.sub.usage_rate_limit_max_calls is Some && in_window ==> after.usage_window_start
        == before.usage_window_start && after.usage_window_calls == before.usage_window_calls + 1
    &&& before.sub.usage_rate_limit_max_calls is Some && !in_window ==> after.usage_window_start
        == now && after.usage_window_calls == 1
    &&& after == (Account {
        sub: Subscription {
            prepaid_balance: after.sub.prepaid_balance,
            lifetime_charged: after.sub.lifetime_charged,
            current_period_usage_units: after.sub.current_period_usage_units,
            status: after.sub.status,
            ..before.sub
        },
        period_amount_charged: after.period_amount_charged,
        usage_window_start: after.usage_window_start,
        usage_window_calls: after.usage_window_calls,
        ..before
    })
}

/// A metered charge that took units is written down with its reference: one line
/// of history and one announcement, after that of the cap if it is used up.
pub proof fn law_usage_is_written_down(
    s: VaultState,
    id: u32,
    usage_amount: i128,
    reference: Seq<u8>,
    now: u64,
)
    requires
        s.valid(),
        s.accounts.contains_key(id),
        s.used_once(id, usage_amount, reference, now).accounts[id].sub.prepaid_balance
            != s.accounts[id].sub.prepaid_balance,
    ensures
        ({
            let before = s.accounts[id];
            let t = s.used_once(id, usage_amount, reference, now);
            let after = t.accounts[id];
            let used = EventView::UsageStatement(
                UsageStatementView {
                    subscription_id: id,
                    merchant: before.sub.merchant,
                    usage_amount,
                    token: before.token,
                    timestamp: now,
                    reference,
                },
            );
            &&& t.statements == s.statements.push(
                BillingStatement {
                    subscription_id: id,
                    amount: usage_amount,
                    merchant: before.sub.merchant,
                    kind: BillingChargeKind::Usage,
                    period_start: now,
                    period_end: now,
                },
            )
            &&& t.references == s.references.push((id, reference))
            &&& t.snapshots == s.snapshots
            &&& if after.sub.status is Cancelled {
                t.events == s.events.push(
                    EventView::LifetimeCapReached(
                        LifetimeCapReachedEvent {
                            subscription_id: id,
                            lifetime_cap: before.sub.lifetime_cap->0,
                            lifetime_charged: after.sub.lifetime_charged,
                            timestamp: now,
                        },
                    ),
                ).push(used)
            } else {
                t.events == s.events.push(used)
            }
        }),
{
    assert(s.accounts[id].wf());
}

/// As long as balance is left and no cap or limit is set, metered charges follow
/// one another: a second one goes through if the balance covers both.
pub proof fn law_usage_can_be_repeated(
    s: VaultState,
    id: u32,
    first: i128,
    second: i128,
    reference: Seq<u8>,
    now: u64,
    later: u64,
)
    requires
        s.valid(),
        usage_decision(s, id, first, now) is Ok,
        s.accounts[id].sub.lifetime_cap is None,
        s.accounts[id].sub.usage_cap_units is None,
        s.accounts[id].sub.usage_rate_limit_max_calls is None,
        second > 0,
        first + second <= s.accounts[id].sub.prepaid_balance,
        s.accounts[id].sub.lifetime_charged + first + second <= i128::MAX,
        shares_fit(
            s.used_once(id, first, reference, now),
            s.accounts[id].sub.merchant,
            second,
        ),
    ensures
        usage_decision(s.used_once(id, first, reference, now), id, second, later) is Ok,
        s.used_once(id, first, reference, now).used_once(
            id,
            second,
            reference,
            later,
        ).accounts[id].sub.prepaid_balance == s.accounts[id].sub.prepaid_balance - first - second,
{
    assert(s.accounts[id].wf());
    let t = s.used_once(id, first, reference, now);
    lemma_product_sign(first, s.protocol_fee_bps);
    lemma_product_sign(second, s.protocol_fee_bps);
}

/// The entry point for metered usage charges without a reference and passes the
/// answer on, unless the emergency stop is on: then it is refused.
pub proof fn law_charge_usage_has_no_reference(s: VaultState, id: u32, usage_amount: i128, now: u64)
    ensures
        ({
            let answer = s.usage_answer(id, usage_amount, now);
            let inner = usage_decision(s, id, usage_amount, now);
            &&& s.emergency_stop ==> answer == Err::<(), Error>(Error::EmergencyStopActive)
            &&& !s.emergency_stop ==> (answer is Ok <==> inner is Ok)
            &&& !s.emergency_stop && inner is Err ==> answer == Err::<(), Error>(inner->Err_0)
        }),
        ({
            let t = s.after(Operation::ChargeUsage { id, usage_amount, now });
            &&& s.emergency_stop ==> t == s
            &&& !s.emergency_stop ==> t == s.after(
                Operation::ChargeUsageOne { id, usage_amount, reference: Seq::empty(), now },
            )
        }),
{
}

// Batches.

/// A batch of one id does what charging the recurring amount of that
/// subscription does, and reports success just when that is answered as
/// charged; else it reports the number of the error, or that of an insufficient
/// balance.
pub proof fn law_batch_of_one(s: VaultState, id: u32, now: u64)
    requires
        s.accounts.contains_key(id),
    ensures
        ({
            let amount = Ok::<i128, Error>(s.accounts[id].sub.amount);
            let answer = charge_result(s, id, now, None, amount);
            let reports = batch_reports(s, seq![Some(id)], now);
            &&& batch_state(s, seq![Some(id)], now) == s.charged_once(id, now, None, amount)
            &&& reports.len() == 1
            &&& reports[0].success <==> answer == Ok::<ChargeExecutionResult, Error>(
                ChargeExecutionResult::Charged,
            )
            &&& reports[0].success ==> reports[0].error_code == 0
            &&& answer is Err ==> reports[0].error_code == answer->Err_0.spec_code()
            &&& answer is Ok && answer->Ok_0 is InsufficientBalance ==> reports[0].error_code
                == Error::InsufficientBalance.spec_code()
        }),
{
    let items = seq![Some(id)];
    assert(items.drop_last() =~= Seq::<Option<u32>>::empty());
    assert(items.take(0) =~= Seq::<Option<u32>>::empty());
    reveal_with_fuel(batch_state, 2);
}

/// An item of a batch that stands for no subscription changes nothing and is
/// reported as such: an unknown id as not found, anything else as bad input.
pub proof fn law_batch_item_without_subscription(s: VaultState, item: Option<u32>, now: u64)
    requires
        item is Some ==> !s.accounts.contains_key(item->0),
    ensures
        batch_state(s, seq![item], now) == s,
        batch_reports(s, seq![item], now) == seq![
            BatchChargeResult {
                success: false,
                error_code: if item is Some {
                    Error::NotFound.spec_code()
                } else {
                    Error::InvalidInput.spec_code()
                },
            },
        ],
{
    let items = seq![item];
    assert(items.drop_last() =~= Seq::<Option<u32>>::empty());
    assert(items.take(0) =~= Seq::<Option<u32>>::empty());
    reveal_with_fuel(batch_state, 2);
    assert(batch_reports(s, items, now) =~= seq![batch_report(s, item, now)]);
}

proof fn lemma_batch_joins(
    s: VaultState,
    first: Seq<Option<u32>>,
    second: Seq<Option<u32>>,
    now: u64,
)
    ensures
        batch_state(s, first + second, now) == batch_state(
            batch_state(s, first, now),
            second,
            now,
        ),
    decreases second.len(),
{
    if second.len() == 0 {
        assert(first + second =~= first);
    } else {
        lemma_batch_joins(s, first, second.drop_last(), now);
        assert((first + second).drop_last() =~= first + second.drop_last());
        assert((first + second).last() == second.last());
    }
}

/// Two batches one after the other do and report what one batch of all their
/// items does and reports.
pub proof fn law_batches_join(
    s: VaultState,
    first: Seq<Option<u32>>,
    second: Seq<Option<u32>>,
    now: u64,
)
    ensures
        batch_state(s, first + second, now) == batch_state(
            batch_state(s, first, now),
            second,
            now,
        ),
        batch_reports(s, first + second, now) == batch_reports(s, first, now) + batch_reports(
            batch_state(s, first, now),
            second,
            now,
        ),
{
    lemma_batch_joins(s, first, second, now);
    let joined = first + second;
    let parts = batch_reports(s, first, now) + batch_reports(
        batch_state(s, first, now),
        second,
        now,
    );
    assert forall|i: int| 0 <= i < joined.len() implies batch_reports(s, joined, now)[i]
        == parts[i] by {
        if i < first.len() {
            assert(joined.take(i) =~= first.take(i));
        } else {
            let j = i - first.len();
            assert(joined.take(i) =~= first + second.take(j));
            lemma_batch_joins(s, first, second.take(j), now);
        }
    }
    assert(batch_reports(s, joined, now) =~= parts);
}

/// An empty batch does and reports nothing, and no batch runs while the
/// emergency stop is on.
pub proof fn law_batch_that_does_nothing(s: VaultState, items: Seq<Option<u32>>, now: u64)
    ensures
        batch_state(s, Seq::empty(), now) == s,
        batch_reports(s, Seq::empty(), now).len() == 0,
        s.emergency_stop ==> s.after(Operation::BatchCharge { items, now }) == s,
        !s.emergency_stop ==> s.after(Operation::BatchCharge { items, now }) == batch_state(
            s,
            items,
            now,
        ),
{
}

/// A subscription in grace whose subscriber pays in enough is paid and active
/// again when its recurring amount is charged, on its own or in a batch.
pub proof fn law_deposit_and_charge_end_the_grace(
    s: VaultState,
    id: u32,
    deposit: i128,
    now: u64,
)
    requires
        s.valid(),
        charge_runs(s, id, now, None),
        s.accounts[id].sub.status is GracePeriod,
        s.accounts[id].sub.lifetime_cap is None,
        s.deposit_refusal(id, s.accounts[id].sub.subscriber, deposit) is None,
        s.accounts[id].sub.prepaid_balance + deposit >= s.accounts[id].sub.amount,
        shares_fit(s, s.accounts[id].sub.merchant, s.accounts[id].sub.amount),
        s.accounts[id].sub.lifetime_charged + s.accounts[id].sub.amount <= i128::MAX,
        s.accounts[id].sub.current_period_index < u32::MAX,
    ensures
        ({
            let sub = s.accounts[id].sub;
            let funded = s.after(
                Operation::Deposit { id, subscriber: sub.subscriber, amount: deposit },
            );
            let charged = funded.after(Operation::ChargeSubscription { id, now });
            &&& funded.charge_answer(id, now) == Ok::<(), Error>(())
            &&& charged.accounts[id].sub.status is Active
            &&& charged.accounts[id].sub.prepaid_balance == sub.prepaid_balance + deposit
                - sub.amount
            &&& batch_state(funded, seq![Some(id)], now) == charged
            &&& batch_reports(funded, seq![Some(id)], now)[0].success
        }),
{
    let sub = s.accounts[id].sub;
    let funded = s.after(Operation::Deposit { id, subscriber: sub.subscriber, amount: deposit });
    assert(s.accounts[id].wf());
    law_operations_keep_validity(
        s,
        Operation::Deposit { id, subscriber: sub.subscriber, amount: deposit },
    );
    assert(charge_runs(funded, id, now, None));
    law_covered_charge_is_paid(funded, id, now, None, sub.amount);
    law_charge_subscription_charges_the_recurring_amount(funded, id, now);
    law_batch_of_one(funded, id, now);
}

} // verus!
