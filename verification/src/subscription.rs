//! Opening subscriptions, paying in, the lifecycle, limits and paying out.
use vstd::prelude::*;

use crate::merchant::lemma_fee_within_amount;
use crate::operations::Operation;
use crate::safe_math::{fits, safe_add};
use crate::state_machine::{allowed, validate_status_transition};
use crate::types::{
    Account, Address, BillingChargeKind, BillingStatement, Error, PlanTemplate, Subscription,
    SubscriptionStatus, TransferOrder, MAX_SUBSCRIPTION_ID,
};
use crate::vault::{terms_valid, SubscriptionVault, VaultState};

verus! {

/// Why a subscription may not run on these terms, if so.
pub open spec fn terms_refusal(amount: i128, interval_seconds: u64, lifetime_cap: Option<i128>) -> Option<
    Error,
> {
    if amount <= 0 {
        Some(Error::InvalidAmount)
    } else if interval_seconds == 0 {
        Some(Error::InvalidInput)
    } else if lifetime_cap is Some && lifetime_cap->0 <= 0 {
        Some(Error::InvalidAmount)
    } else {
        None
    }
}

/// A fresh account, opened at `now`.
pub open spec fn fresh_account(
    token: Address,
    subscriber: Address,
    plan: PlanTemplate,
    expiration: Option<u64>,
    now: u64,
) -> Account {
    Account {
        sub: Subscription {
            subscriber,
            merchant: plan.merchant,
            amount: plan.amount,
            interval_seconds: plan.interval_seconds,
            last_payment_timestamp: now,
            status: SubscriptionStatus::Active,
            prepaid_balance: 0,
            usage_enabled: plan.usage_enabled,
            expiration,
            billing_anchor_timestamp: now,
            current_period_index: 0,
            current_period_usage_units: 0,
            usage_cap_units: None,
            usage_rate_limit_max_calls: None,
            usage_rate_window_secs: 0,
            lifetime_cap: plan.lifetime_cap,
            lifetime_charged: 0,
        },
        token,
        grace_start_timestamp: None,
        charged_period: None,
        idempotency_key: None,
        usage_window_start: 0,
        usage_window_calls: 0,
        period_amount_charged: 0,
        period_interval_charged: false,
    }
}

impl VaultState {
    /// Why `subscriber` may not open a subscription on the terms of `plan`, if
    /// so.
    pub open spec fn opening_refusal(self, subscriber: Address, plan: PlanTemplate) -> Option<Error> {
        if self.blocklist.contains_key(subscriber) {
            Some(Error::SubscriberBlocklisted)
        } else if terms_refusal(plan.amount, plan.interval_seconds, plan.lifetime_cap) is Some {
            terms_refusal(plan.amount, plan.interval_seconds, plan.lifetime_cap)
        } else if self.config is None {
            Some(Error::NotFound)
        } else if self.next_id == MAX_SUBSCRIPTION_ID {
            Some(Error::SubscriptionLimitReached)
        } else {
            None
        }
    }

    /// Why `plan` may not be offered, if so.
    pub open spec fn plan_refusal(self, plan: PlanTemplate) -> Option<Error> {
        if terms_refusal(plan.amount, plan.interval_seconds, plan.lifetime_cap) is Some {
            terms_refusal(plan.amount, plan.interval_seconds, plan.lifetime_cap)
        } else if self.plans.len() == u32::MAX {
            Some(Error::SubscriptionLimitReached)
        } else {
            None
        }
    }

    /// The state with one more subscription, under the next id.
    pub open spec fn opened(
        self,
        subscriber: Address,
        plan: PlanTemplate,
        expiration: Option<u64>,
        now: u64,
    ) -> VaultState {
        VaultState {
            accounts: self.accounts.insert(
                self.next_id,
                fresh_account(self.config->0.token, subscriber, plan, expiration, now),
            ),
            next_id: (self.next_id + 1) as u32,
            ..self
        }
    }

    /// Why `create_subscription` is refused, if so.
    pub open spec fn create_refusal(
        self,
        subscriber: Address,
        plan: PlanTemplate,
        expiration: Option<u64>,
        now: u64,
    ) -> Option<Error> {
        if self.emergency_stop {
            Some(Error::EmergencyStopActive)
        } else if expiration is Some && expiration->0 <= now {
            Some(Error::InvalidInput)
        } else {
            self.opening_refusal(subscriber, plan)
        }
    }

    /// Why `create_subscription_from_plan` is refused, if so.
    pub open spec fn create_from_plan_refusal(self, subscriber: Address, plan_template_id: u32) -> Option<
        Error,
    > {
        if self.blocklist.contains_key(subscriber) {
            Some(Error::SubscriberBlocklisted)
        } else if plan_template_id >= self.plans.len() {
            Some(Error::NotFound)
        } else {
            self.opening_refusal(subscriber, self.plans[plan_template_id as int])
        }
    }

    /// Why a deposit is refused, if so.
    pub open spec fn deposit_refusal(self, id: u32, subscriber: Address, amount: i128) -> Option<Error> {
        if self.emergency_stop {
            Some(Error::EmergencyStopActive)
        } else if !self.accounts.contains_key(id) {
            Some(Error::NotFound)
        } else if subscriber != self.accounts[id].sub.subscriber {
            Some(Error::Forbidden)
        } else if self.blocklist.contains_key(subscriber) {
            Some(Error::SubscriberBlocklisted)
        } else if amount <= 0 {
            Some(Error::InvalidAmount)
        } else if amount < self.config->0.min_topup {
            Some(Error::BelowMinimumTopup)
        } else if !fits(self.accounts[id].sub.prepaid_balance + amount) {
            Some(Error::Overflow)
        } else {
            None
        }
    }

    /// The state with the prepaid balance of subscription `id` at `balance`.
    pub open spec fn with_prepaid(self, id: u32, balance: i128) -> VaultState {
        let account = self.accounts[id];
        self.with_account(
            id,
            Account { sub: Subscription { prepaid_balance: balance, ..account.sub }, ..account },
        )
    }

    /// The state after a deposit.
    pub open spec fn deposited(self, id: u32, amount: i128) -> VaultState {
        let account = self.accounts[id];
        self.with_prepaid(id, (account.sub.prepaid_balance + amount) as i128).with_transfer(
            TransferOrder::Inbound { account: account.sub.subscriber, amount },
        )
    }

    /// Why `authorizer` may not put subscription `id` into status `to`, if so.
    pub open spec fn status_refusal(
        self,
        id: u32,
        authorizer: Address,
        to: SubscriptionStatus,
    ) -> Option<Error> {
        if !self.accounts.contains_key(id) {
            Some(Error::NotFound)
        } else if !self.accounts[id].has_party(authorizer) {
            Some(Error::Forbidden)
        } else if !allowed(self.accounts[id].sub.status, to) {
            Some(Error::InvalidStatusTransition)
        } else {
            None
        }
    }

    /// The state with subscription `id` in status `to`.
    pub open spec fn with_status(self, id: u32, to: SubscriptionStatus) -> VaultState {
        let account = self.accounts[id];
        self.with_account(
            id,
            Account { sub: Subscription { status: to, ..account.sub }, ..account },
        )
    }

    /// Why `merchant` may not act for subscription `id`, if so.
    pub open spec fn merchant_refusal(self, id: u32, merchant: Address) -> Option<Error> {
        if !self.accounts.contains_key(id) {
            Some(Error::NotFound)
        } else if merchant != self.accounts[id].sub.merchant {
            Some(Error::Forbidden)
        } else {
            None
        }
    }

    /// The state with a new cap on the metered units of subscription `id`.
    pub open spec fn with_usage_cap(self, id: u32, usage_cap_units: Option<i128>) -> VaultState {
        let account = self.accounts[id];
        self.with_account(
            id,
            Account { sub: Subscription { usage_cap_units, ..account.sub }, ..account },
        )
    }

    /// The state with a new rate limit on the metered charges of subscription
    /// `id`.
    pub open spec fn with_rate_limit(
        self,
        id: u32,
        max_calls: Option<u32>,
        window_seconds: u64,
    ) -> VaultState {
        let account = self.accounts[id];
        self.with_account(
            id,
            Account {
                sub: Subscription {
                    usage_rate_limit_max_calls: max_calls,
                    usage_rate_window_secs: window_seconds,
                    ..account.sub
                },
                ..account
            },
        )
    }

    /// Why a one-off charge is refused, if so.
    pub open spec fn one_off_refusal(self, id: u32, merchant: Address, amount: i128) -> Option<Error> {
        if self.merchant_refusal(id, merchant) is Some {
            self.merchant_refusal(id, merchant)
        } else if self.paused_merchants.contains(merchant) {
            Some(Error::MerchantPaused)
        } else if !(self.accounts[id].sub.status is Active) {
            Some(Error::NotActive)
        } else if amount <= 0 {
            Some(Error::InvalidAmount)
        } else if self.accounts[id].sub.prepaid_balance < amount {
            Some(Error::InsufficientPrepaidBalance)
        } else if !self.credit_fits(merchant, amount) {
            Some(Error::Overflow)
        } else {
            None
        }
    }

    /// The state after a one-off charge.
    pub open spec fn charged_one_off(self, id: u32, amount: i128, now: u64) -> VaultState {
        let account = self.accounts[id];
        self.credited(account.sub.merchant, amount).with_prepaid(
            id,
            (account.sub.prepaid_balance - amount) as i128,
        ).with_statement(
            BillingStatement {
                subscription_id: id,
                amount,
                merchant: account.sub.merchant,
                kind: BillingChargeKind::OneOff,
                period_start: now,
                period_end: now,
            },
        )
    }

    /// Why `subscriber` may not take the balance of subscription `id` out, if
    /// so.
    pub open spec fn refund_refusal(self, id: u32, subscriber: Address) -> Option<Error> {
        if !self.accounts.contains_key(id) {
            Some(Error::NotFound)
        } else if subscriber != self.accounts[id].sub.subscriber {
            Some(Error::Forbidden)
        } else if !(self.accounts[id].sub.status is Cancelled) {
            Some(Error::InvalidStatusTransition)
        } else {
            None
        }
    }

    /// The state after the whole balance of subscription `id` was paid back.
    pub open spec fn refunded(self, id: u32) -> VaultState {
        let account = self.accounts[id];
        if account.sub.prepaid_balance > 0 {
            self.with_prepaid(id, 0).with_transfer(
                TransferOrder::Outbound {
                    account: account.sub.subscriber,
                    amount: account.sub.prepaid_balance,
                },
            )
        } else {
            self
        }
    }
}

/// Replacing an account by a well-formed one that has closed at least as many
/// periods keeps the vault valid.
pub proof fn lemma_with_account_valid(s: VaultState, id: u32, account: Account)
    requires
        s.valid(),
        s.accounts.contains_key(id),
        account.wf(),
        account.token == s.accounts[id].token,
        account.sub.current_period_index >= s.accounts[id].sub.current_period_index,
    ensures
        s.with_account(id, account).valid(),
{
    let after = s.with_account(id, account);
    assert(after.snapshots_valid());
}

fn check_terms(amount: i128, interval_seconds: u64, lifetime_cap: Option<i128>) -> (r: Result<
    (),
    Error,
>)
    ensures
        match terms_refusal(amount, interval_seconds, lifetime_cap) {
            Some(e) => r == Err::<(), Error>(e),
            None => r == Ok::<(), Error>(()) && terms_valid(amount, interval_seconds, lifetime_cap),
        },
{
    if amount <= 0 {
        return Err(Error::InvalidAmount);
    }
    if interval_seconds == 0 {
        return Err(Error::InvalidInput);
    }
    if let Some(cap) = lifetime_cap {
        if cap <= 0 {
            return Err(Error::InvalidAmount);
        }
    }
    Ok(())
}

impl SubscriptionVault {
    /// Refuses a call while the emergency stop is on.
    pub fn require_not_emergency_stop(&self) -> (r: Result<(), Error>)
        ensures
            self@.emergency_stop ==> r == Err::<(), Error>(Error::EmergencyStopActive),
            !self@.emergency_stop ==> r == Ok::<(), Error>(()),
    {
        if self.emergency_stop {
            return Err(Error::EmergencyStopActive);
        }
        Ok(())
    }

    /// Opens a subscription on the terms of `plan`.
    fn open_subscription(
        &mut self,
        subscriber: Address,
        plan: PlanTemplate,
        expiration: Option<u64>,
        now: u64,
    ) -> (r: Result<u32, Error>)
        requires
            old(self).wf(),
        ensures
            final(self).wf(),
            match old(self)@.opening_refusal(subscriber, plan) {
                Some(e) => r == Err::<u32, Error>(e) && final(self)@ == old(self)@,
                None => r == Ok::<u32, Error>(old(self)@.next_id) && final(self)@ == old(
                    self,
                )@.opened(subscriber, plan, expiration, now),
            },
    {
        if self.blocklist.get(&subscriber).is_some() {
            return Err(Error::SubscriberBlocklisted);
        }
        match check_terms(plan.amount, plan.interval_seconds, plan.lifetime_cap) {
            Ok(()) => {},
            Err(e) => return Err(e),
        }
        let config = match self.config {
            Some(config) => config,
            None => return Err(Error::NotFound),
        };
        let id: u32 = self.next_id;
        if id == MAX_SUBSCRIPTION_ID {
            return Err(Error::SubscriptionLimitReached);
        }
        let account = Account {
            sub: Subscription {
                subscriber,
                merchant: plan.merchant,
                amount: plan.amount,
                interval_seconds: plan.interval_seconds,
                last_payment_timestamp: now,
                status: SubscriptionStatus::Active,
                prepaid_balance: 0,
                usage_enabled: plan.usage_enabled,
                expiration,
                billing_anchor_timestamp: now,
                current_period_index: 0,
                current_period_usage_units: 0,
                usage_cap_units: None,
                usage_rate_limit_max_calls: None,
                usage_rate_window_secs: 0,
                lifetime_cap: plan.lifetime_cap,
                lifetime_charged: 0,
            },
            token: config.token,
            grace_start_timestamp: None,
            charged_period: None,
            idempotency_key: None,
            usage_window_start: 0,
            usage_window_calls: 0,
            period_amount_charged: 0,
            period_interval_charged: false,
        };
        self.put_account(id, account);
        self.next_id = id + 1;
        proof {
            let ghost before = old(self)@;
            let ghost after = before.opened(subscriber, plan, expiration, now);
            assert(self@ =~= after);
            assert(after.snapshots_valid());
        }
        Ok(id)
    }

    /// Opens a subscription. Its id is the one after the last.
    pub fn create_subscription(
        &mut self,
        subscriber: Address,
        merchant: Address,
        amount: i128,
        interval_seconds: u64,
        usage_enabled: bool,
        lifetime_cap: Option<i128>,
        expiration: Option<u64>,
        now: u64,
    ) -> (r: Result<u32, Error>)
        requires
            old(self).wf(),
        ensures
            final(self).wf(),
            final(self)@ == old(self)@.after(
                (Operation::CreateSubscription {
                    subscriber,
                    plan: PlanTemplate {
                        merchant,
                        amount,
                        interval_seconds,
                        usage_enabled,
                        lifetime_cap,
                    },
                    expiration,
                    now,
                }),
            ),
            ({
                let plan = PlanTemplate {
                    merchant,
                    amount,
                    interval_seconds,
                    usage_enabled,
                    lifetime_cap,
                };
                match old(self)@.create_refusal(subscriber, plan, expiration, now) {
                    Some(e) => r == Err::<u32, Error>(e) && final(self)@ == old(self)@,
                    None => r == Ok::<u32, Error>(old(self)@.next_id) && final(self)@ == old(
                        self,
                    )@.opened(subscriber, plan, expiration, now),
                }
            }),
    {
        match self.require_not_emergency_stop() {
            Ok(()) => {},
            Err(e) => return Err(e),
        }
        if let Some(moment) = expiration {
            if moment <= now {
                return Err(Error::InvalidInput);
            }
        }
        let plan = PlanTemplate { merchant, amount, interval_seconds, usage_enabled, lifetime_cap };
        self.open_subscription(subscriber, plan, expiration, now)
    }

    /// Offers terms to any subscriber. The id of the plan is the number of
    /// plans before it.
    pub fn create_plan_template(
        &mut self,
        merchant: Address,
        amount: i128,
        interval_seconds: u64,
        usage_enabled: bool,
        lifetime_cap: Option<i128>,
    ) -> (r: Result<u32, Error>)
        requires
            old(self).wf(),
        ensures
            final(self).wf(),
            final(self)@ == old(self)@.after(
                (Operation::CreatePlan {
                    plan: PlanTemplate {
                        merchant,
                        amount,
                        interval_seconds,
                        usage_enabled,
                        lifetime_cap,
                    },
                }),
            ),
            ({
                let plan = PlanTemplate {
                    merchant,
                    amount,
                    interval_seconds,
                    usage_enabled,
                    lifetime_cap,
                };
                match old(self)@.plan_refusal(plan) {
                    Some(e) => r == Err::<u32, Error>(e) && final(self)@ == old(self)@,
                    None => r == Ok::<u32, Error>(old(self)@.plans.len() as u32) && final(self)@
                        == (VaultState { plans: old(self)@.plans.push(plan), ..old(self)@ }),
                }
            }),
    {
        match check_terms(amount, interval_seconds, lifetime_cap) {
            Ok(()) => {},
            Err(e) => return Err(e),
        }
        let count: usize = self.plans.len();
        if count == u32::MAX as usize {
            return Err(Error::SubscriptionLimitReached);
        }
        self.plans.push(
            PlanTemplate { merchant, amount, interval_seconds, usage_enabled, lifetime_cap },
        );
        assert(self@.snapshots_valid());
        Ok(count as u32)
    }

    /// Reads a plan.
    pub fn get_plan_template(&self, plan_template_id: u32) -> (r: Result<PlanTemplate, Error>)
        ensures
            plan_template_id < self@.plans.len() ==> r == Ok::<PlanTemplate, Error>(
                self@.plans[plan_template_id as int],
            ),
            plan_template_id >= self@.plans.len() ==> r == Err::<PlanTemplate, Error>(
                Error::NotFound,
            ),
    {
        if (plan_template_id as usize) < self.plans.len() {
            Ok(self.plans[plan_template_id as usize])
        } else {
            Err(Error::NotFound)
        }
    }

    /// Opens a subscription on the terms of a plan.
    pub fn create_subscription_from_plan(
        &mut self,
        subscriber: Address,
        plan_template_id: u32,
        now: u64,
    ) -> (r: Result<u32, Error>)
        requires
            old(self).wf(),
        ensures
            final(self).wf(),
            final(self)@ == old(self)@.after(
                (Operation::CreateFromPlan { subscriber, plan_template_id, now }),
            ),
            match old(self)@.create_from_plan_refusal(subscriber, plan_template_id) {
                Some(e) => r == Err::<u32, Error>(e) && final(self)@ == old(self)@,
                None => r == Ok::<u32, Error>(old(self)@.next_id) && final(self)@ == old(
                    self,
                )@.opened(subscriber, old(self)@.plans[plan_template_id as int], None, now),
            },
    {
        if self.blocklist.get(&subscriber).is_some() {
            return Err(Error::SubscriberBlocklisted);
        }
        let plan = match self.get_plan_template(plan_template_id) {
            Ok(plan) => plan,
            Err(e) => return Err(e),
        };
        self.open_subscription(subscriber, plan, None, now)
    }

    /// Replaces an account by one that keeps its token and its period.
    fn replace_account(&mut self, id: u32, account: Account)
        requires
            old(self).wf(),
            old(self)@.accounts.contains_key(id),
            account.wf(),
            account.token == old(self)@.accounts[id].token,
            account.sub.current_period_index == old(
                self,
            )@.accounts[id].sub.current_period_index,
        ensures
            final(self).wf(),
            final(self)@ == old(self)@.with_account(id, account),
    {
        proof {
            lemma_with_account_valid(self@, id, account);
        }
        self.put_account(id, account);
    }

    /// Adds to the prepaid balance of a subscription.
    pub fn deposit_funds(&mut self, subscription_id: u32, subscriber: Address, amount: i128) -> (r:
        Result<(), Error>)
        requires
            old(self).wf(),
        ensures
            final(self).wf(),
            final(self)@ == old(self)@.after(
                (Operation::Deposit { id: subscription_id, subscriber, amount }),
            ),
            match old(self)@.deposit_refusal(subscription_id, subscriber, amount) {
                Some(e) => r == Err::<(), Error>(e) && final(self)@ == old(self)@,
                None => r == Ok::<(), Error>(()) && final(self)@ == old(self)@.deposited(
                    subscription_id,
                    amount,
                ),
            },
    {
        match self.require_not_emergency_stop() {
            Ok(()) => {},
            Err(e) => return Err(e),
        }
        let account = match self.account(subscription_id) {
            Ok(account) => account,
            Err(e) => return Err(e),
        };
        if subscriber != account.sub.subscriber {
            return Err(Error::Forbidden);
        }
        if self.blocklist.get(&subscriber).is_some() {
            return Err(Error::SubscriberBlocklisted);
        }
        if amount <= 0 {
            return Err(Error::InvalidAmount);
        }
        if let Some(config) = self.config {
            if amount < config.min_topup {
                return Err(Error::BelowMinimumTopup);
            }
        }
        let balance: i128 = match safe_add(account.sub.prepaid_balance, amount) {
            Ok(balance) => balance,
            Err(e) => return Err(e),
        };
        let mut topped_up = account;
        topped_up.sub.prepaid_balance = balance;
        self.replace_account(subscription_id, topped_up);
        self.order_transfer(TransferOrder::Inbound { account: subscriber, amount });
        assert(self@.snapshots_valid());
        Ok(())
    }

    fn change_status(&mut self, id: u32, authorizer: Address, to: SubscriptionStatus) -> (r: Result<
        (),
        Error,
    >)
        requires
            old(self).wf(),
        ensures
            final(self).wf(),
            match old(self)@.status_refusal(id, authorizer, to) {
                Some(e) => r == Err::<(), Error>(e) && final(self)@ == old(self)@,
                None => r == Ok::<(), Error>(()) && final(self)@ == old(self)@.with_status(id, to),
            },
    {
        let account = match self.account(id) {
            Ok(account) => account,
            Err(e) => return Err(e),
        };
        if authorizer != account.sub.subscriber && authorizer != account.sub.merchant {
            return Err(Error::Forbidden);
        }
        match validate_status_transition(&account.sub.status, &to) {
            Ok(()) => {},
            Err(e) => return Err(e),
        }
        let mut changed = account;
        changed.sub.status = to;
        self.replace_account(id, changed);
        Ok(())
    }

    /// Ends a subscription for good.
    pub fn cancel_subscription(&mut self, subscription_id: u32, authorizer: Address) -> (r: Result<
        (),
        Error,
    >)
        requires
            old(self).wf(),
        ensures
            final(self).wf(),
            final(self)@ == old(self)@.after(
                (Operation::ChangeStatus {
                    id: subscription_id,
                    authorizer,
                    to: SubscriptionStatus::Cancelled,
                }),
            ),
            match old(self)@.status_refusal(
                subscription_id,
                authorizer,
                SubscriptionStatus::Cancelled,
            ) {
                Some(e) => r == Err::<(), Error>(e) && final(self)@ == old(self)@,
                None => r == Ok::<(), Error>(()) && final(self)@ == old(self)@.with_status(
                    subscription_id,
                    SubscriptionStatus::Cancelled,
                ),
            },
    {
        self.change_status(subscription_id, authorizer, SubscriptionStatus::Cancelled)
    }

    /// Suspends a subscription.
    pub fn pause_subscription(&mut self, subscription_id: u32, authorizer: Address) -> (r: Result<
        (),
        Error,
    >)
        requires
            old(self).wf(),
        ensures
            final(self).wf(),
            final(self)@ == old(self)@.after(
                (Operation::ChangeStatus {
                    id: subscription_id,
                    authorizer,
                    to: SubscriptionStatus::Paused,
                }),
            ),
            match old(self)@.status_refusal(
                subscription_id,
                authorizer,
                SubscriptionStatus::Paused,
            ) {
                Some(e) => r == Err::<(), Error>(e) && final(self)@ == old(self)@,
                None => r == Ok::<(), Error>(()) && final(self)@ == old(self)@.with_status(
                    subscription_id,
                    SubscriptionStatus::Paused,
                ),
            },
    {
        self.change_status(subscription_id, authorizer, SubscriptionStatus::Paused)
    }

    /// Takes a suspended or underfunded subscription up again.
    pub fn resume_subscription(&mut self, subscription_id: u32, authorizer: Address) -> (r: Result<
        (),
        Error,
    >)
        requires
            old(self).wf(),
        ensures
            final(self).wf(),
            final(self)@ == old(self)@.after(
                (Operation::ChangeStatus {
                    id: subscription_id,
                    authorizer,
                    to: SubscriptionStatus::Active,
                }),
            ),
            match old(self)@.status_refusal(
                subscription_id,
                authorizer,
                SubscriptionStatus::Active,
            ) {
                Some(e) => r == Err::<(), Error>(e) && final(self)@ == old(self)@,
                None => r == Ok::<(), Error>(()) && final(self)@ == old(self)@.with_status(
                    subscription_id,
                    SubscriptionStatus::Active,
                ),
            },
    {
        self.change_status(subscription_id, authorizer, SubscriptionStatus::Active)
    }

    fn account_for_merchant(&self, id: u32, merchant: Address) -> (r: Result<Account, Error>)
        ensures
            match self@.merchant_refusal(id, merchant) {
                Some(e) => r == Err::<Account, Error>(e),
                None => r == Ok::<Account, Error>(self@.accounts[id]),
            },
    {
        match self.account(id) {
            Ok(account) => if merchant == account.sub.merchant {
                Ok(account)
            } else {
                Err(Error::Forbidden)
            },
            Err(e) => Err(e),
        }
    }

    /// Limits the metered units per billing period, or lifts the limit.
    pub fn set_usage_cap(
        &mut self,
        subscription_id: u32,
        authorizer: Address,
        usage_cap_units: Option<i128>,
    ) -> (r: Result<(), Error>)
        requires
            old(self).wf(),
        ensures
            final(self).wf(),
            final(self)@ == old(self)@.after(
                (Operation::SetUsageCap { id: subscription_id, authorizer, usage_cap_units }),
            ),
            match old(self)@.merchant_refusal(subscription_id, authorizer) {
                Some(e) => r == Err::<(), Error>(e) && final(self)@ == old(self)@,
                None => r == Ok::<(), Error>(()) && final(self)@ == old(self)@.with_usage_cap(
                    subscription_id,
                    usage_cap_units,
                ),
            },
    {
        let mut account = match self.account_for_merchant(subscription_id, authorizer) {
            Ok(account) => account,
            Err(e) => return Err(e),
        };
        account.sub.usage_cap_units = usage_cap_units;
        self.replace_account(subscription_id, account);
        Ok(())
    }

    /// Limits the metered charges per time window, or lifts the limit.
    pub fn set_usage_rate_limit(
        &mut self,
        subscription_id: u32,
        authorizer: Address,
        max_calls: Option<u32>,
        window_seconds: u64,
    ) -> (r: Result<(), Error>)
        requires
            old(self).wf(),
        ensures
            final(self).wf(),
            final(self)@ == old(self)@.after(
                (Operation::SetRateLimit {
                    id: subscription_id,
                    authorizer,
                    max_calls,
                    window_seconds,
                }),
            ),
            match old(self)@.merchant_refusal(subscription_id, authorizer) {
                Some(e) => r == Err::<(), Error>(e) && final(self)@ == old(self)@,
                None => r == Ok::<(), Error>(()) && final(self)@ == old(self)@.with_rate_limit(
                    subscription_id,
                    max_calls,
                    window_seconds,
                ),
            },
    {
        let mut account = match self.account_for_merchant(subscription_id, authorizer) {
            Ok(account) => account,
            Err(e) => return Err(e),
        };
        account.sub.usage_rate_limit_max_calls = max_calls;
        account.sub.usage_rate_window_secs = window_seconds;
        self.replace_account(subscription_id, account);
        Ok(())
    }

    /// Takes an amount that the merchant names, once. It does not count towards
    /// the lifetime cap.
    pub fn charge_one_off(
        &mut self,
        subscription_id: u32,
        merchant: Address,
        amount: i128,
        now: u64,
    ) -> (r: Result<(), Error>)
        requires
            old(self).wf(),
        ensures
            final(self).wf(),
            final(self)@ == old(self)@.after(
                (Operation::ChargeOneOff { id: subscription_id, merchant, amount, now }),
            ),
            match old(self)@.one_off_refusal(subscription_id, merchant, amount) {
                Some(e) => r == Err::<(), Error>(e) && final(self)@ == old(self)@,
                None => r == Ok::<(), Error>(()) && final(self)@ == old(self)@.charged_one_off(
                    subscription_id,
                    amount,
                    now,
                ),
            },
    {
        let account = match self.account_for_merchant(subscription_id, merchant) {
            Ok(account) => account,
            Err(e) => return Err(e),
        };
        if self.get_merchant_paused(&merchant) {
            return Err(Error::MerchantPaused);
        }
        if account.sub.status != SubscriptionStatus::Active {
            return Err(Error::NotActive);
        }
        if amount <= 0 {
            return Err(Error::InvalidAmount);
        }
        if account.sub.prepaid_balance < amount {
            return Err(Error::InsufficientPrepaidBalance);
        }
        proof {
            lemma_fee_within_amount(amount, self.protocol_fee_bps);
        }
        match self.credit_merchant_balance(&merchant, amount) {
            Ok(()) => {},
            Err(e) => return Err(e),
        }
        let mut charged = account;
        charged.sub.prepaid_balance = account.sub.prepaid_balance - amount;
        self.replace_account(subscription_id, charged);
        self.append_statement(
            BillingStatement {
                subscription_id,
                amount,
                merchant,
                kind: BillingChargeKind::OneOff,
                period_start: now,
                period_end: now,
            },
        );
        assert(self@.snapshots_valid());
        Ok(())
    }

    /// Pays the balance of a cancelled subscription back to its subscriber.
    pub fn withdraw_subscriber_funds(&mut self, subscription_id: u32, subscriber: Address) -> (r:
        Result<(), Error>)
        requires
            old(self).wf(),
        ensures
            final(self).wf(),
            final(self)@ == old(self)@.after(
                (Operation::WithdrawSubscriberFunds { id: subscription_id, subscriber }),
            ),
            match old(self)@.refund_refusal(subscription_id, subscriber) {
                Some(e) => r == Err::<(), Error>(e) && final(self)@ == old(self)@,
                None => r == Ok::<(), Error>(()) && final(self)@ == old(self)@.refunded(
                    subscription_id,
                ),
            },
    {
        let account = match self.account(subscription_id) {
            Ok(account) => account,
            Err(e) => return Err(e),
        };
        if subscriber != account.sub.subscriber {
            return Err(Error::Forbidden);
        }
        if account.sub.status != SubscriptionStatus::Cancelled {
            return Err(Error::InvalidStatusTransition);
        }
        let balance: i128 = account.sub.prepaid_balance;
        if balance > 0 {
            let mut emptied = account;
            emptied.sub.prepaid_balance = 0;
            self.replace_account(subscription_id, emptied);
            self.order_transfer(TransferOrder::Outbound { account: subscriber, amount: balance });
            assert(self@.snapshots_valid());
        }
        Ok(())
    }
}

} // verus!
