//! Charging one subscription: the recurring amount, or metered usage.
//!
//! A recurring charge runs only in status `Active` or `GracePeriod`. When the
//! prepaid balance does not cover it, the subscription moves to a status from
//! which it can recover, and the failure is announced; no money moves. When the
//! lifetime cap is used up the subscription is cancelled.
use vstd::prelude::*;

use crate::merchant::lemma_fee_within_amount;
use crate::operations::Operation;
use crate::safe_math::{fits, safe_add, safe_sub, safe_sub_balance};
use crate::state_machine::validate_status_transition;
use crate::types::{
    Account, BillingChargeKind, BillingPeriodSnapshot, BillingStatement, Bytes32,
    ChargeExecutionResult, Error, Event, EventView, LifetimeCapReachedEvent,
    SubscriptionChargeFailedEvent, SubscriptionChargedEvent, Subscription, SubscriptionStatus,
    UsageStatementEvent, UsageStatementView, BILLING_SNAPSHOT_FLAG_CLOSED,
    BILLING_SNAPSHOT_FLAG_INTERVAL_CHARGED, BILLING_SNAPSHOT_FLAG_USAGE_CHARGED,
};
use crate::vault::{SubscriptionVault, VaultState};

verus! {

/// What a recurring charge comes to.
#[derive(Clone, Copy, Debug, PartialEq, Eq, Structural)]
pub enum ChargeOutcome {
    /// The idempotency key was seen before: nothing is done.
    AlreadyProcessed,
    /// The lifetime cap leaves no room: the subscription is cancelled unpaid.
    CapExhausted,
    /// The amount is taken.
    Paid,
    /// The balance does not cover the amount: the status changes.
    Unpaid { status: SubscriptionStatus },
}

/// The first moment at which the next recurring charge may run.
pub open spec fn due_time(sub: Subscription) -> int {
    sub.last_payment_timestamp + sub.interval_seconds
}

/// The billing period that `now` falls into, counted from the epoch.
pub open spec fn period_of(sub: Subscription, now: u64) -> u64 {
    now / sub.interval_seconds
}

/// The status that a missed charge leads to while `grace` seconds of grace run
/// from the due time.
pub open spec fn unpaid_status(sub: Subscription, grace: u64, now: u64) -> SubscriptionStatus {
    if grace > 0 && now < due_time(sub) + grace {
        SubscriptionStatus::GracePeriod
    } else {
        SubscriptionStatus::InsufficientBalance
    }
}

/// What a recurring charge of subscription `id` at time `now` comes to, where
/// `resolved` is the amount to charge or the reason why there is none.
pub open spec fn charge_decision(
    s: VaultState,
    id: u32,
    now: u64,
    idempotency_key: Option<Bytes32>,
    resolved: Result<i128, Error>,
) -> Result<ChargeOutcome, Error> {
    if !s.accounts.contains_key(id) {
        Err(Error::NotFound)
    } else {
        let account = s.accounts[id];
        let sub = account.sub;
        if s.paused_merchants.contains(sub.merchant) {
            Err(Error::MerchantPaused)
        } else {
            match resolved {
                Err(e) => Err(e),
                Ok(amount) => if !sub.interval_chargeable() {
                    Err(Error::NotActive)
                } else if idempotency_key is Some && account.idempotency_key == idempotency_key {
                    Ok(ChargeOutcome::AlreadyProcessed)
                } else if account.charged_period is Some && period_of(sub, now)
                    <= account.charged_period->0 {
                    Err(Error::Replay)
                } else if due_time(sub) > u64::MAX {
                    Err(Error::Overflow)
                } else if now < due_time(sub) {
                    Err(Error::IntervalNotElapsed)
                } else if sub.cap_forbids(amount) {
                    Ok(ChargeOutcome::CapExhausted)
                } else if 0 <= amount <= sub.prepaid_balance {
                    if s.credit_fits(sub.merchant, amount) && fits(sub.lifetime_charged + amount)
                        && sub.current_period_index < u32::MAX {
                        Ok(ChargeOutcome::Paid)
                    } else {
                        Err(Error::Overflow)
                    }
                } else if due_time(sub) + s.grace_period() > u64::MAX {
                    Err(Error::Overflow)
                } else {
                    Ok(ChargeOutcome::Unpaid { status: unpaid_status(sub, s.grace_period(), now) })
                },
            }
        }
    }
}

/// What the caller of a charge is told of its outcome.
pub open spec fn reported(outcome: ChargeOutcome) -> ChargeExecutionResult {
    if outcome is Unpaid {
        ChargeExecutionResult::InsufficientBalance
    } else {
        ChargeExecutionResult::Charged
    }
}

/// What the caller of a recurring charge is answered.
pub open spec fn charge_result(
    s: VaultState,
    id: u32,
    now: u64,
    idempotency_key: Option<Bytes32>,
    resolved: Result<i128, Error>,
) -> Result<ChargeExecutionResult, Error> {
    match charge_decision(s, id, now, idempotency_key, resolved) {
        Ok(outcome) => Ok(reported(outcome)),
        Err(e) => Err(e),
    }
}

/// The account after `amount` was taken for the period that `now` opens.
pub open spec fn paid_account(
    account: Account,
    now: u64,
    idempotency_key: Option<Bytes32>,
    amount: i128,
) -> Account {
    let sub = account.sub;
    let paid = Subscription {
        prepaid_balance: (sub.prepaid_balance - amount) as i128,
        lifetime_charged: (sub.lifetime_charged + amount) as i128,
        last_payment_timestamp: now,
        status: SubscriptionStatus::Active,
        current_period_index: (sub.current_period_index + 1) as u32,
        current_period_usage_units: 0,
        ..sub
    };
    Account {
        sub: Subscription {
            status: if paid.cap_reached() {
                SubscriptionStatus::Cancelled
            } else {
                SubscriptionStatus::Active
            },
            ..paid
        },
        grace_start_timestamp: if sub.status is GracePeriod {
            None
        } else {
            account.grace_start_timestamp
        },
        charged_period: Some(period_of(sub, now)),
        idempotency_key: if idempotency_key is Some {
            idempotency_key
        } else {
            account.idempotency_key
        },
        period_amount_charged: amount,
        period_interval_charged: true,
        ..account
    }
}

/// The totals of the billing period that a charge at `now` closes.
pub open spec fn closing_snapshot(id: u32, account: Account, now: u64) -> BillingPeriodSnapshot {
    BillingPeriodSnapshot {
        subscription_id: id,
        period_index: account.sub.current_period_index,
        period_start: account.sub.last_payment_timestamp,
        period_end: now,
        total_amount_charged: account.period_amount_charged,
        total_usage_units: account.sub.current_period_usage_units,
        status_flags: (BILLING_SNAPSHOT_FLAG_CLOSED + (if account.sub.current_period_usage_units
            > 0 {
            BILLING_SNAPSHOT_FLAG_USAGE_CHARGED as int
        } else {
            0
        }) + (if account.period_interval_charged {
            BILLING_SNAPSHOT_FLAG_INTERVAL_CHARGED as int
        } else {
            0
        })) as u32,
    }
}

/// The announcement that `sub` has used up its lifetime cap.
pub open spec fn cap_event(id: u32, sub: Subscription, now: u64) -> EventView {
    EventView::LifetimeCapReached(
        LifetimeCapReachedEvent {
            subscription_id: id,
            lifetime_cap: sub.lifetime_cap->0,
            lifetime_charged: sub.lifetime_charged,
            timestamp: now,
        },
    )
}

/// The state with subscription `id` cancelled because of its lifetime cap.
pub open spec fn after_cap_exhausted(s: VaultState, id: u32, now: u64) -> VaultState {
    let account = s.accounts[id];
    s.with_account(
        id,
        Account {
            sub: Subscription { status: SubscriptionStatus::Cancelled, ..account.sub },
            ..account
        },
    ).with_event(cap_event(id, account.sub, now))
}

/// The state after a recurring charge was paid.
pub open spec fn after_paid(
    s: VaultState,
    id: u32,
    now: u64,
    idempotency_key: Option<Bytes32>,
    amount: i128,
) -> VaultState {
    let account = s.accounts[id];
    let paid = paid_account(account, now, idempotency_key, amount);
    let charged = VaultState {
        snapshots: s.snapshots.push(closing_snapshot(id, account, now)),
        ..s.credited(account.sub.merchant, amount).with_account(id, paid).with_statement(
            BillingStatement {
                subscription_id: id,
                amount,
                merchant: account.sub.merchant,
                kind: BillingChargeKind::Interval,
                period_start: account.sub.last_payment_timestamp,
                period_end: now,
            },
        ).with_event(
            EventView::Charged(
                SubscriptionChargedEvent {
                    subscription_id: id,
                    merchant: account.sub.merchant,
                    amount,
                    lifetime_charged: paid.sub.lifetime_charged,
                },
            ),
        )
    };
    if paid.sub.cap_reached() {
        charged.with_event(cap_event(id, paid.sub, now))
    } else {
        charged
    }
}

/// The state after a recurring charge was missed.
pub open spec fn after_unpaid(
    s: VaultState,
    id: u32,
    now: u64,
    amount: i128,
    status: SubscriptionStatus,
) -> VaultState {
    let account = s.accounts[id];
    s.with_account(
        id,
        Account { sub: Subscription { status, ..account.sub }, ..account },
    ).with_event(
        EventView::ChargeFailed(
            SubscriptionChargeFailedEvent {
                subscription_id: id,
                merchant: account.sub.merchant,
                required_amount: amount,
                available_balance: account.sub.prepaid_balance,
                shortfall: if amount > account.sub.prepaid_balance {
                    (amount - account.sub.prepaid_balance) as i128
                } else {
                    0
                },
                resulting_status: status,
                timestamp: now,
            },
        ),
    )
}

/// The state after a recurring charge with the given outcome.
pub open spec fn after_charge(
    s: VaultState,
    id: u32,
    now: u64,
    idempotency_key: Option<Bytes32>,
    amount: i128,
    outcome: ChargeOutcome,
) -> VaultState {
    match outcome {
        ChargeOutcome::AlreadyProcessed => s,
        ChargeOutcome::CapExhausted => after_cap_exhausted(s, id, now),
        ChargeOutcome::Paid => after_paid(s, id, now, idempotency_key, amount),
        ChargeOutcome::Unpaid { status } => after_unpaid(s, id, now, amount, status),
    }
}

/// A charge keeps the vault valid.
pub proof fn lemma_after_charge_valid(
    s: VaultState,
    id: u32,
    now: u64,
    idempotency_key: Option<Bytes32>,
    amount: i128,
)
    requires
        s.valid(),
        charge_decision(s, id, now, idempotency_key, Ok(amount)) is Ok,
    ensures
        after_charge(
            s,
            id,
            now,
            idempotency_key,
            amount,
            charge_decision(s, id, now, idempotency_key, Ok(amount))->Ok_0,
        ).valid(),
{
    let outcome = charge_decision(s, id, now, idempotency_key, Ok(amount))->Ok_0;
    let after = after_charge(s, id, now, idempotency_key, amount, outcome);
    let account = s.accounts[id];
    assert(account.wf());
    if outcome is Paid {
        lemma_fee_within_amount(amount, s.protocol_fee_bps);
        assert(after.accounts[id].wf());
        let n = s.snapshots.len() as int;
        assert(after.snapshots[n] == closing_snapshot(id, account, now));
        assert forall|i: int| 0 <= i < n implies after.snapshots[i] == s.snapshots[i] by {}
        assert(after.snapshots_valid());
    }
}

/// Works out what a recurring charge comes to.
pub(crate) fn decide_charge(
    vault: &SubscriptionVault,
    subscription_id: u32,
    now: u64,
    idempotency_key: Option<Bytes32>,
    resolved: Result<i128, Error>,
) -> (r: Result<ChargeOutcome, Error>)
    requires
        vault.wf(),
    ensures
        r == charge_decision(vault@, subscription_id, now, idempotency_key, resolved),
{
    let account = match vault.account(subscription_id) {
        Ok(account) => account,
        Err(e) => return Err(e),
    };
    let sub = account.sub;
    assert(account.wf());

    if vault.get_merchant_paused(&sub.merchant) {
        return Err(Error::MerchantPaused);
    }
    let amount: i128 = match resolved {
        Ok(amount) => amount,
        Err(e) => return Err(e),
    };
    if sub.status != SubscriptionStatus::Active && sub.status != SubscriptionStatus::GracePeriod {
        return Err(Error::NotActive);
    }
    let period_index: u64 = now / sub.interval_seconds;

    if let Some(key) = idempotency_key {
        if let Some(stored) = account.idempotency_key {
            if stored == key {
                return Ok(ChargeOutcome::AlreadyProcessed);
            }
        }
    }
    if let Some(stored_period) = account.charged_period {
        if period_index <= stored_period {
            return Err(Error::Replay);
        }
    }
    let next_allowed: u64 = match sub.last_payment_timestamp.checked_add(sub.interval_seconds) {
        Some(next_allowed) => next_allowed,
        None => return Err(Error::Overflow),
    };
    if now < next_allowed {
        return Err(Error::IntervalNotElapsed);
    }
    if let Some(cap) = sub.lifetime_cap {
        let remaining: i128 = match safe_sub(cap, sub.lifetime_charged) {
            Ok(remaining) => remaining,
            Err(_) => 0,
        };
        if remaining <= 0 || amount > remaining {
            match validate_status_transition(&sub.status, &SubscriptionStatus::Cancelled) {
                Ok(()) => {},
                Err(e) => return Err(e),
            }
            return Ok(ChargeOutcome::CapExhausted);
        }
    }
    match safe_sub_balance(sub.prepaid_balance, amount) {
        Ok(_) => {
            match vault.preview_credit(&sub.merchant, amount) {
                Ok(_) => {},
                Err(e) => return Err(e),
            }
            match safe_add(sub.lifetime_charged, amount) {
                Ok(_) => {},
                Err(e) => return Err(e),
            }
            if sub.current_period_index == u32::MAX {
                return Err(Error::Overflow);
            }
            Ok(ChargeOutcome::Paid)
        },
        Err(_) => {
            let grace_duration: u64 = match vault.config {
                Some(config) => config.grace_period,
                None => 0,
            };
            let grace_expires: u64 = match next_allowed.checked_add(grace_duration) {
                Some(grace_expires) => grace_expires,
                None => return Err(Error::Overflow),
            };
            let status = if grace_duration > 0 && now < grace_expires {
                SubscriptionStatus::GracePeriod
            } else {
                SubscriptionStatus::InsufficientBalance
            };
            match validate_status_transition(&sub.status, &status) {
                Ok(()) => {},
                Err(e) => return Err(e),
            }
            Ok(ChargeOutcome::Unpaid { status })
        },
    }
}

/// Works out the account after a recurring charge.
fn settle(
    account: Account,
    now: u64,
    idempotency_key: Option<Bytes32>,
    amount: i128,
) -> (paid: Account)
    requires
        account.wf(),
        0 <= amount <= account.sub.prepaid_balance,
        fits(account.sub.lifetime_charged + amount),
        account.sub.current_period_index < u32::MAX,
    ensures
        paid == paid_account(account, now, idempotency_key, amount),
{
    let mut paid = account;
    paid.sub.prepaid_balance = account.sub.prepaid_balance - amount;
    paid.sub.last_payment_timestamp = now;
    paid.sub.lifetime_charged = account.sub.lifetime_charged + amount;
    if account.sub.status == SubscriptionStatus::GracePeriod {
        paid.grace_start_timestamp = None;
    }
    paid.sub.status = if cap_is_reached(&paid.sub) {
        SubscriptionStatus::Cancelled
    } else {
        SubscriptionStatus::Active
    };
    paid.sub.current_period_index = account.sub.current_period_index + 1;
    paid.sub.current_period_usage_units = 0;
    paid.period_amount_charged = amount;
    paid.period_interval_charged = true;
    paid.charged_period = Some(now / account.sub.interval_seconds);
    if idempotency_key.is_some() {
        paid.idempotency_key = idempotency_key;
    }
    paid
}

/// Tells whether the lifetime cap, if there is one, is used up.
pub fn cap_is_reached(sub: &Subscription) -> (r: bool)
    ensures
        r == sub.cap_reached(),
{
    match sub.lifetime_cap {
        Some(cap) => sub.lifetime_charged >= cap,
        None => false,
    }
}

/// Totals up the billing period that a charge at `now` closes.
fn close_period(id: u32, account: &Account, now: u64) -> (snapshot: BillingPeriodSnapshot)
    ensures
        snapshot == closing_snapshot(id, *account, now),
{
    let usage_flag: u32 = if account.sub.current_period_usage_units > 0 {
        BILLING_SNAPSHOT_FLAG_USAGE_CHARGED
    } else {
        0
    };
    let interval_flag: u32 = if account.period_interval_charged {
        BILLING_SNAPSHOT_FLAG_INTERVAL_CHARGED
    } else {
        0
    };
    BillingPeriodSnapshot {
        subscription_id: id,
        period_index: account.sub.current_period_index,
        period_start: account.sub.last_payment_timestamp,
        period_end: now,
        total_amount_charged: account.period_amount_charged,
        total_usage_units: account.sub.current_period_usage_units,
        status_flags: BILLING_SNAPSHOT_FLAG_CLOSED + usage_flag + interval_flag,
    }
}

impl SubscriptionVault {
    fn announce_cap_reached(&mut self, id: u32, sub: &Subscription, now: u64)
        requires
            old(self).tables_wf(),
            sub.lifetime_cap is Some,
        ensures
            final(self).tables_wf(),
            final(self)@ == old(self)@.with_event(cap_event(id, *sub, now)),
    {
        if let Some(cap) = sub.lifetime_cap {
            self.announce(
                Event::LifetimeCapReached(
                    LifetimeCapReachedEvent {
                        subscription_id: id,
                        lifetime_cap: cap,
                        lifetime_charged: sub.lifetime_charged,
                        timestamp: now,
                    },
                ),
            );
        }
    }

    fn cancel_for_cap(&mut self, id: u32, now: u64)
        requires
            old(self).tables_wf(),
            old(self)@.accounts.contains_key(id),
            old(self)@.accounts[id].sub.lifetime_cap is Some,
        ensures
            final(self).tables_wf(),
            final(self)@ == after_cap_exhausted(old(self)@, id, now),
    {
        if let Ok(account) = self.account(id) {
            let mut cancelled = account;
            cancelled.sub.status = SubscriptionStatus::Cancelled;
            self.put_account(id, cancelled);
            self.announce_cap_reached(id, &account.sub, now);
        }
    }

    fn record_paid(&mut self, id: u32, now: u64, idempotency_key: Option<Bytes32>, amount: i128)
        requires
            old(self).wf(),
            charge_decision(old(self)@, id, now, idempotency_key, Ok(amount)) == Ok::<
                ChargeOutcome,
                Error,
            >(ChargeOutcome::Paid),
        ensures
            final(self).tables_wf(),
            final(self)@ == after_paid(old(self)@, id, now, idempotency_key, amount),
    {
        if let Ok(account) = self.account(id) {
            let paid = settle(account, now, idempotency_key, amount);
            let merchant = account.sub.merchant;
            let _ = self.credit_merchant_balance(&merchant, amount);
            self.put_account(id, paid);
            self.append_statement(
                BillingStatement {
                    subscription_id: id,
                    amount,
                    merchant,
                    kind: BillingChargeKind::Interval,
                    period_start: account.sub.last_payment_timestamp,
                    period_end: now,
                },
            );
            self.snapshots.push(close_period(id, &account, now));
            self.announce(
                Event::Charged(
                    SubscriptionChargedEvent {
                        subscription_id: id,
                        merchant,
                        amount,
                        lifetime_charged: paid.sub.lifetime_charged,
                    },
                ),
            );
            if cap_is_reached(&paid.sub) {
                self.announce_cap_reached(id, &paid.sub, now);
            }
            assert(self@ =~= after_paid(old(self)@, id, now, idempotency_key, amount));
        }
    }

    fn record_unpaid(&mut self, id: u32, now: u64, amount: i128, status: SubscriptionStatus)
        requires
            old(self).wf(),
            old(self)@.accounts.contains_key(id),
        ensures
            final(self).tables_wf(),
            final(self)@ == after_unpaid(old(self)@, id, now, amount, status),
    {
        if let Ok(account) = self.account(id) {
            assert(account.wf());
            let mut missed = account;
            missed.sub.status = status;
            self.put_account(id, missed);
            let shortfall: i128 = if amount > account.sub.prepaid_balance {
                amount - account.sub.prepaid_balance
            } else {
                0
            };
            self.announce(
                Event::ChargeFailed(
                    SubscriptionChargeFailedEvent {
                        subscription_id: id,
                        merchant: account.sub.merchant,
                        required_amount: amount,
                        available_balance: account.sub.prepaid_balance,
                        shortfall,
                        resulting_status: status,
                        timestamp: now,
                    },
                ),
            );
        }
    }
}

/// Runs a recurring charge, at most once per billing period and once per
/// idempotency key. `resolved` is the amount to charge, or the reason why none
/// could be found.
pub fn charge_one(
    vault: &mut SubscriptionVault,
    subscription_id: u32,
    now: u64,
    idempotency_key: Option<Bytes32>,
    resolved: Result<i128, Error>,
) -> (r: Result<ChargeExecutionResult, Error>)
    requires
        old(vault).wf(),
    ensures
        final(vault).wf(),
        final(vault)@ == old(vault)@.after(
            (Operation::ChargeOne { id: subscription_id, now, idempotency_key, resolved }),
        ),
        r == charge_result(old(vault)@, subscription_id, now, idempotency_key, resolved),
        match charge_decision(old(vault)@, subscription_id, now, idempotency_key, resolved) {
            Err(e) => r == Err::<ChargeExecutionResult, Error>(e) && final(vault)@ == old(vault)@,
            Ok(outcome) => r == Ok::<ChargeExecutionResult, Error>(reported(outcome))
                && final(vault)@ == after_charge(
                old(vault)@,
                subscription_id,
                now,
                idempotency_key,
                resolved->Ok_0,
                outcome,
            ),
        },
{
    let outcome = match decide_charge(vault, subscription_id, now, idempotency_key, resolved) {
        Ok(outcome) => outcome,
        Err(e) => return Err(e),
    };
    let amount: i128 = match resolved {
        Ok(amount) => amount,
        Err(e) => return Err(e),
    };
    proof {
        lemma_after_charge_valid(vault@, subscription_id, now, idempotency_key, amount);
    }
    match outcome {
        ChargeOutcome::AlreadyProcessed => Ok(ChargeExecutionResult::Charged),
        ChargeOutcome::CapExhausted => {
            vault.cancel_for_cap(subscription_id, now);
            Ok(ChargeExecutionResult::Charged)
        },
        ChargeOutcome::Paid => {
            vault.record_paid(subscription_id, now, idempotency_key, amount);
            Ok(ChargeExecutionResult::Charged)
        },
        ChargeOutcome::Unpaid { status } => {
            vault.record_unpaid(subscription_id, now, amount, status);
            Ok(ChargeExecutionResult::InsufficientBalance)
        },
    }
}

/// What a metered charge comes to.
#[derive(Clone, Copy, Debug, PartialEq, Eq, Structural)]
pub enum UsageOutcome {
    /// The lifetime cap leaves no room: the subscription is cancelled unpaid.
    CapExhausted,
    /// The usage is taken.
    Paid,
}

/// `now` still falls into the rate window that is running.
pub open spec fn window_running(account: Account, now: u64) -> bool {
    now < account.usage_window_start + account.sub.usage_rate_window_secs
}

/// Metered charges that count against the rate limit at `now`.
pub open spec fn calls_in_window(account: Account, now: u64) -> u32 {
    if window_running(account, now) {
        account.usage_window_calls
    } else {
        0
    }
}

/// `usage_amount` more units exceed the cap of the billing period.
pub open spec fn exceeds_usage_cap(sub: Subscription, usage_amount: i128) -> bool {
    sub.usage_cap_units is Some && sub.current_period_usage_units + usage_amount
        > sub.usage_cap_units->0
}

/// One more metered charge at `now` exceeds the rate limit.
pub open spec fn exceeds_rate_limit(account: Account, now: u64) -> bool {
    account.sub.usage_rate_limit_max_calls is Some && calls_in_window(account, now)
        >= account.sub.usage_rate_limit_max_calls->0
}

/// What charging `usage_amount` metered units at time `now` comes to.
pub open spec fn usage_decision(s: VaultState, id: u32, usage_amount: i128, now: u64) -> Result<
    UsageOutcome,
    Error,
> {
    if !s.accounts.contains_key(id) {
        Err(Error::NotFound)
    } else {
        let account = s.accounts[id];
        let sub = account.sub;
        if s.paused_merchants.contains(sub.merchant) {
            Err(Error::MerchantPaused)
        } else if !(sub.status is Active) {
            Err(Error::NotActive)
        } else if !sub.usage_enabled {
            Err(Error::UsageNotEnabled)
        } else if usage_amount <= 0 {
            Err(Error::InvalidAmount)
        } else if sub.prepaid_balance < usage_amount {
            Err(Error::InsufficientPrepaidBalance)
        } else if exceeds_usage_cap(sub, usage_amount) {
            Err(Error::UsageCapExceeded)
        } else if exceeds_rate_limit(account, now) {
            Err(Error::RateLimitExceeded)
        } else if !fits(sub.lifetime_charged + usage_amount) {
            Err(Error::Overflow)
        } else if sub.cap_forbids(usage_amount) {
            Ok(UsageOutcome::CapExhausted)
        } else if !s.credit_fits(sub.merchant, usage_amount) {
            Err(Error::Overflow)
        } else {
            Ok(UsageOutcome::Paid)
        }
    }
}

/// The account after `usage_amount` metered units were taken.
pub open spec fn used_account(account: Account, usage_amount: i128, now: u64) -> Account {
    let sub = account.sub;
    let limited = sub.usage_rate_limit_max_calls is Some;
    let used = Subscription {
        prepaid_balance: (sub.prepaid_balance - usage_amount) as i128,
        lifetime_charged: (sub.lifetime_charged + usage_amount) as i128,
        current_period_usage_units: (sub.current_period_usage_units + usage_amount) as i128,
        ..sub
    };
    Account {
        sub: Subscription {
            status: if used.cap_reached() {
                SubscriptionStatus::Cancelled
            } else if used.prepaid_balance == 0 {
                SubscriptionStatus::InsufficientBalance
            } else {
                sub.status
            },
            ..used
        },
        period_amount_charged: (account.period_amount_charged + usage_amount) as i128,
        usage_window_start: if limited && !window_running(account, now) {
            now
        } else {
            account.usage_window_start
        },
        usage_window_calls: if limited {
            (calls_in_window(account, now) + 1) as u32
        } else {
            account.usage_window_calls
        },
        ..account
    }
}

/// The state after metered usage was charged.
pub open spec fn after_used(
    s: VaultState,
    id: u32,
    usage_amount: i128,
    reference: Seq<u8>,
    now: u64,
) -> VaultState {
    let account = s.accounts[id];
    let used = used_account(account, usage_amount, now);
    let debited = s.credited(account.sub.merchant, usage_amount).with_account(id, used);
    let announced = if used.sub.cap_reached() {
        debited.with_event(cap_event(id, used.sub, now))
    } else {
        debited
    };
    VaultState {
        references: s.references.push((id, reference)),
        ..announced.with_statement(
            BillingStatement {
                subscription_id: id,
                amount: usage_amount,
                merchant: account.sub.merchant,
                kind: BillingChargeKind::Usage,
                period_start: now,
                period_end: now,
            },
        ).with_event(
            EventView::UsageStatement(
                UsageStatementView {
                    subscription_id: id,
                    merchant: account.sub.merchant,
                    usage_amount,
                    token: account.token,
                    timestamp: now,
                    reference,
                },
            ),
        )
    }
}

/// The state after a metered charge with the given outcome.
pub open spec fn after_usage(
    s: VaultState,
    id: u32,
    usage_amount: i128,
    reference: Seq<u8>,
    now: u64,
    outcome: UsageOutcome,
) -> VaultState {
    match outcome {
        UsageOutcome::CapExhausted => after_cap_exhausted(s, id, now),
        UsageOutcome::Paid => after_used(s, id, usage_amount, reference, now),
    }
}

/// A metered charge keeps the vault valid.
pub proof fn lemma_after_usage_valid(
    s: VaultState,
    id: u32,
    usage_amount: i128,
    reference: Seq<u8>,
    now: u64,
)
    requires
        s.valid(),
        usage_decision(s, id, usage_amount, now) is Ok,
    ensures
        after_usage(
            s,
            id,
            usage_amount,
            reference,
            now,
            usage_decision(s, id, usage_amount, now)->Ok_0,
        ).valid(),
{
    let outcome = usage_decision(s, id, usage_amount, now)->Ok_0;
    let after = after_usage(s, id, usage_amount, reference, now, outcome);
    assert(s.accounts[id].wf());
    if outcome is Paid {
        lemma_fee_within_amount(usage_amount, s.protocol_fee_bps);
        assert(after.accounts[id].wf());
        assert(after.snapshots_valid());
    }
}

/// Works out what a metered charge comes to.
fn decide_usage(vault: &SubscriptionVault, subscription_id: u32, usage_amount: i128, now: u64) -> (r:
    Result<UsageOutcome, Error>)
    requires
        vault.wf(),
    ensures
        r == usage_decision(vault@, subscription_id, usage_amount, now),
{
    let account = match vault.account(subscription_id) {
        Ok(account) => account,
        Err(e) => return Err(e),
    };
    let sub = account.sub;
    assert(account.wf());

    if vault.get_merchant_paused(&sub.merchant) {
        return Err(Error::MerchantPaused);
    }
    if sub.status != SubscriptionStatus::Active {
        return Err(Error::NotActive);
    }
    if !sub.usage_enabled {
        return Err(Error::UsageNotEnabled);
    }
    if usage_amount <= 0 {
        return Err(Error::InvalidAmount);
    }
    if sub.prepaid_balance < usage_amount {
        return Err(Error::InsufficientPrepaidBalance);
    }
    if let Some(cap) = sub.usage_cap_units {
        match sub.current_period_usage_units.checked_add(usage_amount) {
            Some(units) => {
                if units > cap {
                    return Err(Error::UsageCapExceeded);
                }
            },
            None => return Err(Error::UsageCapExceeded),
        }
    }
    if let Some(max_calls) = sub.usage_rate_limit_max_calls {
        if count_calls(&account, now) >= max_calls {
            return Err(Error::RateLimitExceeded);
        }
    }
    let new_charged: i128 = match safe_add(sub.lifetime_charged, usage_amount) {
        Ok(new_charged) => new_charged,
        Err(e) => return Err(e),
    };
    if let Some(cap) = sub.lifetime_cap {
        if new_charged > cap {
            match validate_status_transition(&sub.status, &SubscriptionStatus::Cancelled) {
                Ok(()) => {},
                Err(e) => return Err(e),
            }
            return Ok(UsageOutcome::CapExhausted);
        }
    }
    match vault.preview_credit(&sub.merchant, usage_amount) {
        Ok(_) => Ok(UsageOutcome::Paid),
        Err(e) => Err(e),
    }
}

/// Counts the metered charges in the rate window that `now` falls into.
fn count_calls(account: &Account, now: u64) -> (calls: u32)
    ensures
        calls == calls_in_window(*account, now),
{
    if window_is_running(account, now) {
        account.usage_window_calls
    } else {
        0
    }
}

/// Tells whether `now` still falls into the rate window that is running.
fn window_is_running(account: &Account, now: u64) -> (r: bool)
    ensures
        r == window_running(*account, now),
{
    now < account.usage_window_start || now - account.usage_window_start
        < account.sub.usage_rate_window_secs
}

/// Works out the account after a metered charge.
fn consume(account: Account, usage_amount: i128, now: u64) -> (used: Account)
    requires
        account.wf(),
        0 < usage_amount <= account.sub.prepaid_balance,
        fits(account.sub.lifetime_charged + usage_amount),
        !exceeds_rate_limit(account, now),
    ensures
        used == used_account(account, usage_amount, now),
{
    let mut used = account;
    used.sub.lifetime_charged = account.sub.lifetime_charged + usage_amount;
    used.sub.prepaid_balance = account.sub.prepaid_balance - usage_amount;
    used.sub.current_period_usage_units = account.sub.current_period_usage_units + usage_amount;
    used.period_amount_charged = account.period_amount_charged + usage_amount;
    if account.sub.usage_rate_limit_max_calls.is_some() {
        used.usage_window_calls = count_calls(&account, now) + 1;
        if !window_is_running(&account, now) {
            used.usage_window_start = now;
        }
    }
    if used.sub.prepaid_balance == 0 {
        used.sub.status = SubscriptionStatus::InsufficientBalance;
    }
    if cap_is_reached(&used.sub) {
        used.sub.status = SubscriptionStatus::Cancelled;
    }
    used
}

/// Takes `usage_amount` metered units from the prepaid balance of a
/// subscription, and files `reference` with the charge.
pub fn charge_usage_one(
    vault: &mut SubscriptionVault,
    subscription_id: u32,
    usage_amount: i128,
    reference: Vec<u8>,
    now: u64,
) -> (r: Result<(), Error>)
    requires
        old(vault).wf(),
    ensures
        final(vault).wf(),
        final(vault)@ == old(vault)@.after(
            (Operation::ChargeUsageOne {
                id: subscription_id,
                usage_amount,
                reference: reference@,
                now,
            }),
        ),
        match usage_decision(old(vault)@, subscription_id, usage_amount, now) {
            Err(e) => r == Err::<(), Error>(e) && final(vault)@ == old(vault)@,
            Ok(outcome) => r == Ok::<(), Error>(()) && final(vault)@ == after_usage(
                old(vault)@,
                subscription_id,
                usage_amount,
                reference@,
                now,
                outcome,
            ),
        },
{
    let outcome = match decide_usage(vault, subscription_id, usage_amount, now) {
        Ok(outcome) => outcome,
        Err(e) => return Err(e),
    };
    let account = match vault.account(subscription_id) {
        Ok(account) => account,
        Err(e) => return Err(e),
    };
    let ghost text = reference@;
    proof {
        lemma_after_usage_valid(vault@, subscription_id, usage_amount, text, now);
        assert(account.wf());
    }
    if outcome == UsageOutcome::CapExhausted {
        vault.cancel_for_cap(subscription_id, now);
        return Ok(());
    }
    let used = consume(account, usage_amount, now);
    let merchant = account.sub.merchant;
    let _ = vault.credit_merchant_balance(&merchant, usage_amount);
    vault.put_account(subscription_id, used);
    if cap_is_reached(&used.sub) {
        vault.announce_cap_reached(subscription_id, &used.sub, now);
    }
    let copy = reference.clone();
    let ghost before = vault@;
    vault.references.push((subscription_id, copy));
    assert(vault@.references =~= before.references.push((subscription_id, text)));
    vault.append_statement(
        BillingStatement {
            subscription_id,
            amount: usage_amount,
            merchant,
            kind: BillingChargeKind::Usage,
            period_start: now,
            period_end: now,
        },
    );
    vault.announce(
        Event::UsageStatement(
            UsageStatementEvent {
                subscription_id,
                merchant,
                usage_amount,
                token: account.token,
                timestamp: now,
                reference,
            },
        ),
    );
    assert(vault@ =~= after_used(old(vault)@, subscription_id, usage_amount, text, now));
    Ok(())
}

} // verus!
