//! What calls on subscriptions, balances, settings and records do, told by the
//! plain fields before and after.
use vstd::prelude::*;

use crate::billing_laws::{earned, only_charged, shared_out, shares_fit};
use crate::merchant::lemma_fee_within_amount;
use crate::metadata::{
    drop_key, has_key, key_position, keys_distinct, lemma_drop_key, lemma_put, lookup, put, Pairs,
};
use crate::operations::Operation;
use crate::restore::Settings;
use crate::state_machine::{allowed, lemma_targets_are_allowed, targets};
use crate::types::{
    Account, Address, BillingChargeKind, BillingPeriodSnapshot, BillingStatement, BlocklistEntry,
    Config, Error, PlanTemplate, Subscription, SubscriptionStatus, TransferOrder,
    MAX_SUBSCRIPTION_ID,
};
use crate::vault::{initial_state, VaultState};

verus! {

// The lifecycle.

/// The lifecycle: every status can be kept, and every status but `Cancelled` can
/// be left for `Active` and for `Cancelled`; `Paused` and `GracePeriod` are
/// entered from `Active` only, `InsufficientBalance` from `Active` and from
/// `GracePeriod`; and `Cancelled` is never left.
pub proof fn law_lifecycle(from: SubscriptionStatus, to: SubscriptionStatus)
    ensures
        from == to ==> allowed(from, to),
        from is Cancelled && from != to ==> !allowed(from, to),
        to is Active && !(from is Cancelled) ==> allowed(from, to),
        to is Cancelled ==> allowed(from, to),
        to is Paused && from != to ==> (allowed(from, to) <==> from is Active),
        to is GracePeriod && from != to ==> (allowed(from, to) <==> from is Active),
        to is InsufficientBalance && from != to ==> (allowed(from, to) <==> from is Active
            || from is GracePeriod),
{
}

/// The listing of a status names each status that it may change into once, and
/// no other.
pub proof fn law_targets_are_listed_once(from: SubscriptionStatus, to: SubscriptionStatus)
    ensures
        targets(from).contains(to) <==> allowed(from, to) && from != to,
        targets(from).no_duplicates(),
{
    lemma_targets_are_allowed(from, to);
}

/// A change of status is refused if the subscription is not there, if a stranger
/// asks for it, or if the lifecycle does not allow it, for the first of these
/// reasons; else the status, and nothing but the status, becomes the one asked
/// for.
pub proof fn law_status_change(s: VaultState, id: u32, authorizer: Address, to: SubscriptionStatus)
    ensures
        ({
            let refusal = s.status_refusal(id, authorizer, to);
            let t = s.after(Operation::ChangeStatus { id, authorizer, to });
            let sub = s.accounts[id].sub;
            let there = s.accounts.contains_key(id);
            let entitled = there && (authorizer == sub.subscriber || authorizer == sub.merchant);
            &&& !there ==> refusal == Some(Error::NotFound)
            &&& there && !entitled ==> refusal == Some(Error::Forbidden)
            &&& entitled && !allowed(sub.status, to) ==> refusal == Some(
                Error::InvalidStatusTransition,
            )
            &&& refusal is Some <==> !(entitled && allowed(sub.status, to))
            &&& refusal is Some ==> t == s
            &&& refusal is None ==> only_subscription_changed(
                s,
                t,
                id,
                Subscription { status: to, ..sub },
            )
        }),
{
}

/// Subscription `id` became `sub`, and nothing else changed.
pub open spec fn only_subscription_changed(
    s: VaultState,
    t: VaultState,
    id: u32,
    sub: Subscription,
) -> bool {
    &&& t.accounts == s.accounts.insert(id, Account { sub, ..s.accounts[id] })
    &&& t == (VaultState { accounts: t.accounts, ..s })
}

// Opening.

/// Terms are refused if the amount or the interval is not positive, or the cap,
/// where there is one, is not.
pub open spec fn good_terms(amount: i128, interval_seconds: u64, lifetime_cap: Option<i128>) -> bool {
    amount >= 1 && interval_seconds >= 1 && (lifetime_cap is Some ==> lifetime_cap->0 >= 1)
}

/// A subscription that was opened: active, with the terms and parties that were
/// asked for, in the token of the vault, paid up to now, and with nothing in it.
pub open spec fn newly_opened(
    account: Account,
    token: Address,
    subscriber: Address,
    plan: PlanTemplate,
    expiration: Option<u64>,
    now: u64,
) -> bool {
    let sub = account.sub;
    &&& sub.subscriber == subscriber
    &&& sub.merchant == plan.merchant
    &&& sub.amount == plan.amount
    &&& sub.interval_seconds == plan.interval_seconds
    &&& sub.usage_enabled == plan.usage_enabled
    &&& sub.lifetime_cap == plan.lifetime_cap
    &&& sub.expiration == expiration
    &&& account.token == token
    &&& sub.status is Active
    &&& sub.last_payment_timestamp == now
    &&& sub.billing_anchor_timestamp == now
    &&& sub.prepaid_balance == 0
    &&& sub.lifetime_charged == 0
    &&& sub.current_period_index == 0
    &&& sub.current_period_usage_units == 0
    &&& sub.usage_cap_units is None
    &&& sub.usage_rate_limit_max_calls is None
    &&& sub.usage_rate_window_secs == 0
    &&& account.charged_period is None
    &&& account.idempotency_key is None
    &&& account.grace_start_timestamp is None
    &&& account.usage_window_start == 0
    &&& account.usage_window_calls == 0
    &&& account.period_amount_charged == 0
    &&& !account.period_interval_charged
}

/// One subscription was opened under the next id, and nothing else changed.
pub open spec fn one_more_subscription(
    s: VaultState,
    t: VaultState,
    subscriber: Address,
    plan: PlanTemplate,
    expiration: Option<u64>,
    now: u64,
) -> bool {
    let id = s.next_id;
    &&& t.next_id == id + 1
    &&& t.accounts == s.accounts.insert(id, t.accounts[id])
    &&& newly_opened(t.accounts[id], s.config->0.token, subscriber, plan, expiration, now)
    &&& t == (VaultState { accounts: t.accounts, next_id: t.next_id, ..s })
}

/// Creating a subscription goes through if the emergency stop is off, the
/// expiration lies ahead, the subscriber is not barred, the terms are good, the
/// vault has settings and ids are left. Then one subscription is opened under the
/// next id. Else an error names the first reason that holds, and nothing changes.
pub proof fn law_create_subscription(
    s: VaultState,
    subscriber: Address,
    plan: PlanTemplate,
    expiration: Option<u64>,
    now: u64,
)
    ensures
        ({
            let refusal = s.create_refusal(subscriber, plan, expiration, now);
            let t = s.after(Operation::CreateSubscription { subscriber, plan, expiration, now });
            let past = expiration is Some && expiration->0 <= now;
            let barred = s.blocklist.contains_key(subscriber);
            let good = good_terms(plan.amount, plan.interval_seconds, plan.lifetime_cap);
            let full = s.next_id == 0xffff_ffff;
            &&& refusal is None <==> !s.emergency_stop && !past && !barred && good && s.config is Some
                && !full
            &&& s.emergency_stop ==> refusal == Some(Error::EmergencyStopActive)
            &&& !s.emergency_stop && past ==> refusal == Some(Error::InvalidInput)
            &&& !s.emergency_stop && !past && barred ==> refusal == Some(
                Error::SubscriberBlocklisted,
            )
            &&& !s.emergency_stop && !past && !barred && !good ==> bad_terms_named(plan, refusal)
            &&& !s.emergency_stop && !past && !barred && good && s.config is None ==> refusal
                == Some(Error::NotFound)
            &&& !s.emergency_stop && !past && !barred && good && s.config is Some && full
                ==> refusal == Some(Error::SubscriptionLimitReached)
            &&& refusal is Some ==> t == s
            &&& refusal is None ==> one_more_subscription(s, t, subscriber, plan, expiration, now)
        }),
{
}

/// The refusal names what is wrong with the terms: the amount, or else the
/// interval, or else the cap.
pub open spec fn bad_terms_named(plan: PlanTemplate, refusal: Option<Error>) -> bool {
    &&& plan.amount < 1 ==> refusal == Some(Error::InvalidAmount)
    &&& plan.amount >= 1 && plan.interval_seconds < 1 ==> refusal == Some(Error::InvalidInput)
    &&& plan.amount >= 1 && plan.interval_seconds >= 1 ==> refusal == Some(Error::InvalidAmount)
}

/// A plan with good terms is kept under the number of plans before it, and is
/// read back from there; other terms are refused.
pub proof fn law_create_plan(s: VaultState, plan: PlanTemplate)
    requires
        s.valid(),
    ensures
        ({
            let refusal = s.plan_refusal(plan);
            let t = s.after(Operation::CreatePlan { plan });
            let good = good_terms(plan.amount, plan.interval_seconds, plan.lifetime_cap);
            &&& refusal is None <==> good && s.plans.len() < 0xffff_ffff
            &&& !good ==> bad_terms_named(plan, refusal)
            &&& good && refusal is Some ==> refusal == Some(Error::SubscriptionLimitReached)
            &&& refusal is Some ==> t == s
            &&& refusal is None ==> {
                &&& t.plans.len() == s.plans.len() + 1
                &&& t.plans[s.plans.len() as int] == plan
                &&& forall|i: int| 0 <= i < s.plans.len() ==> #[trigger] t.plans[i] == s.plans[i]
                &&& t == (VaultState { plans: t.plans, ..s })
            }
        }),
{
}

/// Taking up a plan opens the subscription that its terms describe, without an
/// expiration. A barred subscriber is refused before anything else, an unknown
/// plan as not found.
pub proof fn law_create_from_plan(s: VaultState, subscriber: Address, plan_template_id: u32, now: u64)
    requires
        s.valid(),
    ensures
        ({
            let refusal = s.create_from_plan_refusal(subscriber, plan_template_id);
            let t = s.after(Operation::CreateFromPlan { subscriber, plan_template_id, now });
            let plan = s.plans[plan_template_id as int];
            let barred = s.blocklist.contains_key(subscriber);
            let known = plan_template_id < s.plans.len();
            &&& refusal is None <==> !barred && known && s.config is Some && s.next_id
                < 0xffff_ffff
            &&& barred ==> refusal == Some(Error::SubscriberBlocklisted)
            &&& !barred && !known ==> refusal == Some(Error::NotFound)
            &&& !barred && known && s.config is None ==> refusal == Some(Error::NotFound)
            &&& !barred && known && s.config is Some && refusal is Some ==> refusal == Some(
                Error::SubscriptionLimitReached,
            )
            &&& refusal is Some ==> t == s
            &&& refusal is None ==> one_more_subscription(s, t, subscriber, plan, None, now)
        }),
{
}

/// Where neither the emergency stop nor an expiration is in play, taking up a
/// plan and asking for its terms directly are the same.
pub proof fn law_plan_is_as_good_as_its_terms(
    s: VaultState,
    subscriber: Address,
    plan_template_id: u32,
    now: u64,
)
    requires
        !s.emergency_stop,
        plan_template_id < s.plans.len(),
    ensures
        s.after(Operation::CreateFromPlan { subscriber, plan_template_id, now }) == s.after(
            Operation::CreateSubscription {
                subscriber,
                plan: s.plans[plan_template_id as int],
                expiration: None,
                now,
            },
        ),
{
}

// Money in and out.

/// A deposit goes through if the emergency stop is off and the subscriber of the
/// subscription, who is not barred, brings a positive amount that is not less
/// than the minimum. Then the prepaid balance grows by just that amount, just
/// that amount is ordered in from the subscriber, and nothing else changes.
pub proof fn law_deposit(s: VaultState, id: u32, subscriber: Address, amount: i128)
    requires
        s.valid(),
    ensures
        ({
            let refusal = s.deposit_refusal(id, subscriber, amount);
            let t = s.after(Operation::Deposit { id, subscriber, amount });
            let sub = s.accounts[id].sub;
            let there = s.accounts.contains_key(id);
            let own = there && subscriber == sub.subscriber;
            let barred = s.blocklist.contains_key(subscriber);
            let least = s.config->0.min_topup;
            &&& refusal is None <==> !s.emergency_stop && own && !barred && amount > 0 && amount
                >= least && sub.prepaid_balance + amount <= i128::MAX
            &&& s.emergency_stop ==> refusal == Some(Error::EmergencyStopActive)
            &&& !s.emergency_stop && !there ==> refusal == Some(Error::NotFound)
            &&& !s.emergency_stop && there && !own ==> refusal == Some(Error::Forbidden)
            &&& !s.emergency_stop && own && barred ==> refusal == Some(
                Error::SubscriberBlocklisted,
            )
            &&& !s.emergency_stop && own && !barred && amount <= 0 ==> refusal == Some(
                Error::InvalidAmount,
            )
            &&& !s.emergency_stop && own && !barred && 0 < amount < least ==> refusal == Some(
                Error::BelowMinimumTopup,
            )
            &&& !s.emergency_stop && own && !barred && amount > 0 && amount >= least && refusal
                is Some ==> refusal == Some(Error::Overflow)
            &&& refusal is Some ==> t == s
            &&& refusal is None ==> {
                let after = t.accounts[id];
                &&& after.sub.prepaid_balance == sub.prepaid_balance + amount
                &&& after == (Account {
                    sub: Subscription { prepaid_balance: after.sub.prepaid_balance, ..sub },
                    ..s.accounts[id]
                })
                &&& t.accounts == s.accounts.insert(id, after)
                &&& t.transfers == s.transfers.push(
                    TransferOrder::Inbound { account: subscriber, amount },
                )
                &&& t == (VaultState { accounts: t.accounts, transfers: t.transfers, ..s })
            }
        }),
{
    if s.accounts.contains_key(id) {
        assert(s.accounts[id].wf());
    }
}

/// Two deposits leave the balance that one deposit of their sum leaves.
pub proof fn law_deposits_add_up(s: VaultState, id: u32, subscriber: Address, first: i128, second: i128)
    requires
        s.valid(),
        s.deposit_refusal(id, subscriber, first) is None,
        s.deposit_refusal(id, subscriber, second) is None,
        s.accounts[id].sub.prepaid_balance + first + second <= i128::MAX,
    ensures
        s.after(Operation::Deposit { id, subscriber, amount: first }).after(
            Operation::Deposit { id, subscriber, amount: second },
        ).accounts == s.after(
            Operation::Deposit { id, subscriber, amount: (first + second) as i128 },
        ).accounts,
{
    assert(s.accounts[id].wf());
    let twice = s.after(Operation::Deposit { id, subscriber, amount: first }).after(
        Operation::Deposit { id, subscriber, amount: second },
    );
    let once = s.after(Operation::Deposit { id, subscriber, amount: (first + second) as i128 });
    assert(twice.accounts =~= once.accounts);
}

/// A one-off charge goes through if the merchant of the subscription, who has not
/// paused, takes a positive amount that the prepaid balance of an active
/// subscription covers. It leaves the balance and is shared out; only the balance
/// of the subscription changes, and one line of history is written.
pub proof fn law_one_off_charge(s: VaultState, id: u32, merchant: Address, amount: i128, now: u64)
    requires
        s.valid(),
    ensures
        ({
            let refusal = s.one_off_refusal(id, merchant, amount);
            let t = s.after(Operation::ChargeOneOff { id, merchant, amount, now });
            let sub = s.accounts[id].sub;
            let there = s.accounts.contains_key(id);
            let own = there && merchant == sub.merchant;
            let paused = s.paused_merchants.contains(merchant);
            let asked = own && !paused && sub.status is Active;
            &&& refusal is None <==> own && !s.paused_merchants.contains(merchant) && sub.status
                is Active && 0 < amount <= sub.prepaid_balance && shares_fit(s, merchant, amount)
            &&& !there ==> refusal == Some(Error::NotFound)
            &&& there && !own ==> refusal == Some(Error::Forbidden)
            &&& own && paused ==> refusal == Some(Error::MerchantPaused)
            &&& own && !paused && !(sub.status is Active) ==> refusal == Some(Error::NotActive)
            &&& asked && amount <= 0 ==> refusal == Some(Error::InvalidAmount)
            &&& asked && amount > 0 && amount > sub.prepaid_balance ==> refusal == Some(
                Error::InsufficientPrepaidBalance,
            )
            &&& asked && 0 < amount <= sub.prepaid_balance && refusal is Some ==> refusal == Some(
                Error::Overflow,
            )
            &&& refusal is Some ==> t == s
            &&& refusal is None ==> {
                let after = t.accounts[id];
                &&& only_charged(s, t, id)
                &&& shared_out(s, t, merchant, amount)
                &&& after.sub.prepaid_balance == sub.prepaid_balance - amount
                &&& after == (Account {
                    sub: Subscription { prepaid_balance: after.sub.prepaid_balance, ..sub },
                    ..s.accounts[id]
                })
                &&& t.statements == s.statements.push(
                    BillingStatement {
                        subscription_id: id,
                        amount,
                        merchant,
                        kind: BillingChargeKind::OneOff,
                        period_start: now,
                        period_end: now,
                    },
                )
                &&& t.snapshots == s.snapshots
                &&& t.references == s.references
                &&& t.events == s.events
            }
        }),
{
    if s.accounts.contains_key(id) {
        assert(s.accounts[id].wf());
    }
    if amount > 0 {
        lemma_fee_within_amount(amount, s.protocol_fee_bps);
        let product = amount * s.protocol_fee_bps;
        assert(product >= 0) by (nonlinear_arith)
            requires
                product == amount * s.protocol_fee_bps,
                amount > 0,
                s.protocol_fee_bps >= 0,
        ;
    }
    let t = s.after(Operation::ChargeOneOff { id, merchant, amount, now });
    if s.one_off_refusal(id, merchant, amount) is None {
        assert(t.accounts =~= s.accounts.insert(id, t.accounts[id]));
    }
}

/// A merchant is paid a positive amount that it has earned, and has that much
/// less afterwards; no other balance changes. Else nothing does.
pub proof fn law_merchant_withdrawal(s: VaultState, merchant: Address, amount: i128)
    requires
        s.valid(),
    ensures
        ({
            let refusal = s.merchant_withdrawal_refusal(merchant, amount);
            let t = s.after(Operation::WithdrawMerchantFunds { merchant, amount });
            &&& refusal is None <==> 0 < amount <= earned(s, merchant)
            &&& amount <= 0 ==> refusal == Some(Error::InvalidAmount)
            &&& amount > 0 && refusal is Some ==> refusal == Some(Error::InsufficientBalance)
            &&& refusal is Some ==> t == s
            &&& refusal is None ==> {
                &&& earned(t, merchant) == earned(s, merchant) - amount
                &&& forall|other: Address|
                    other != merchant ==> #[trigger] earned(t, other) == earned(s, other)
                &&& t.transfers == s.transfers.push(
                    TransferOrder::Outbound { account: merchant, amount },
                )
                &&& t == (VaultState {
                    merchant_balances: t.merchant_balances,
                    transfers: t.transfers,
                    ..s
                })
            }
        }),
{
}

/// The admin pays a positive amount of the collected fees out to the treasury,
/// which has that much less afterwards. Else nothing changes.
pub proof fn law_treasury_withdrawal(s: VaultState, admin: Address, amount: i128)
    requires
        s.valid(),
    ensures
        ({
            let refusal = s.treasury_withdrawal_refusal(admin, amount);
            let t = s.after(Operation::WithdrawTreasuryFunds { admin, amount });
            let entitled = s.config is Some && s.config->0.admin == admin;
            &&& refusal is None <==> entitled && s.treasury is Some && 0 < amount
                <= s.treasury_balance
            &&& s.config is None ==> refusal == Some(Error::NotFound)
            &&& s.config is Some && !entitled ==> refusal == Some(Error::Unauthorized)
            &&& entitled && s.treasury is None ==> refusal == Some(Error::NotFound)
            &&& entitled && s.treasury is Some && amount <= 0 ==> refusal == Some(
                Error::InvalidAmount,
            )
            &&& entitled && s.treasury is Some && amount > 0 && refusal is Some ==> refusal == Some(
                Error::InsufficientBalance,
            )
            &&& refusal is Some ==> t == s
            &&& refusal is None ==> {
                &&& t.treasury_balance == s.treasury_balance - amount
                &&& t.transfers == s.transfers.push(
                    TransferOrder::Outbound { account: s.treasury->0, amount },
                )
                &&& t == (VaultState {
                    treasury_balance: t.treasury_balance,
                    transfers: t.transfers,
                    ..s
                })
            }
        }),
{
}

/// The subscriber of a cancelled subscription is paid its whole balance, which is
/// nothing afterwards. Where there is none, or the call is refused, nothing
/// changes.
pub proof fn law_refund(s: VaultState, id: u32, subscriber: Address)
    requires
        s.valid(),
    ensures
        ({
            let refusal = s.refund_refusal(id, subscriber);
            let t = s.after(Operation::WithdrawSubscriberFunds { id, subscriber });
            let sub = s.accounts[id].sub;
            let there = s.accounts.contains_key(id);
            let own = there && subscriber == sub.subscriber;
            &&& !there ==> refusal == Some(Error::NotFound)
            &&& there && !own ==> refusal == Some(Error::Forbidden)
            &&& own && !(sub.status is Cancelled) ==> refusal == Some(
                Error::InvalidStatusTransition,
            )
            &&& refusal is None <==> own && sub.status is Cancelled
            &&& refusal is Some || sub.prepaid_balance == 0 ==> t == s
            &&& refusal is None && sub.prepaid_balance != 0 ==> {
                &&& t.accounts == s.accounts.insert(
                    id,
                    Account { sub: Subscription { prepaid_balance: 0, ..sub }, ..s.accounts[id] },
                )
                &&& t.transfers == s.transfers.push(
                    TransferOrder::Outbound { account: subscriber, amount: sub.prepaid_balance },
                )
                &&& t == (VaultState { accounts: t.accounts, transfers: t.transfers, ..s })
            }
        }),
{
    if s.accounts.contains_key(id) {
        assert(s.accounts[id].wf());
    }
}

// Limits and pauses.

/// The merchant of a subscription, and nobody else, sets its usage cap and its
/// rate limit, to what is asked for, and nothing else changes.
pub proof fn law_usage_limits_are_set(
    s: VaultState,
    id: u32,
    authorizer: Address,
    usage_cap_units: Option<i128>,
    max_calls: Option<u32>,
    window_seconds: u64,
)
    ensures
        ({
            let refusal = s.merchant_refusal(id, authorizer);
            let capped = s.after(Operation::SetUsageCap { id, authorizer, usage_cap_units });
            let limited = s.after(
                Operation::SetRateLimit { id, authorizer, max_calls, window_seconds },
            );
            let sub = s.accounts[id].sub;
            let there = s.accounts.contains_key(id);
            &&& !there ==> refusal == Some(Error::NotFound)
            &&& there && authorizer != sub.merchant ==> refusal == Some(Error::Forbidden)
            &&& there && authorizer == sub.merchant ==> refusal is None
            &&& refusal is Some ==> capped == s && limited == s
            &&& refusal is None ==> {
                &&& only_subscription_changed(
                    s,
                    capped,
                    id,
                    Subscription { usage_cap_units, ..sub },
                )
                &&& only_subscription_changed(
                    s,
                    limited,
                    id,
                    Subscription {
                        usage_rate_limit_max_calls: max_calls,
                        usage_rate_window_secs: window_seconds,
                        ..sub
                    },
                )
            }
        }),
{
}

/// Pausing is for one merchant: it is paused just when that was asked for last,
/// all others are as before, and nothing else changes.
pub proof fn law_merchant_pause(s: VaultState, merchant: Address, paused: bool, other: Address)
    ensures
        ({
            let t = s.after(Operation::SetMerchantPaused { merchant, paused });
            &&& t.paused_merchants.contains(merchant) == paused
            &&& other != merchant ==> t.paused_merchants.contains(other)
                == s.paused_merchants.contains(other)
            &&& t == (VaultState { paused_merchants: t.paused_merchants, ..s })
        }),
{
}

// Settings.

/// Who may act as admin: the admin of a vault that has settings. Without settings
/// the answer is that nothing is found, else a stranger is not authorised.
pub proof fn law_admin_is_asked_for(s: VaultState, caller: Address)
    ensures
        s.config is None ==> s.admin_refusal(caller) == Some(Error::NotFound),
        s.config is Some && s.config->0.admin != caller ==> s.admin_refusal(caller) == Some(
            Error::Unauthorized,
        ),
        s.config is Some && s.config->0.admin == caller ==> s.admin_refusal(caller) is None,
{
}

/// Settings are made once, and are those that were given.
pub proof fn law_init(s: VaultState, config: Config)
    ensures
        s.config is Some ==> s.after(Operation::Init { config }) == s,
        s.config is None ==> s.after(Operation::Init { config }) == (VaultState {
            config: Some(config),
            ..s
        }),
{
}

/// A call that sets one setting sets that one, to what was asked for, if the
/// admin makes it, and nothing else in any case.
pub proof fn law_settings_are_set(
    s: VaultState,
    admin: Address,
    min_topup: i128,
    grace_period: u64,
    other: Address,
    stopped: bool,
)
    ensures
        ({
            let entitled = s.config is Some && s.config->0.admin == admin;
            let config = s.config->0;
            let topup = s.after(Operation::SetMinTopup { admin, min_topup });
            let grace = s.after(Operation::SetGracePeriod { admin, grace_period });
            let rotated = s.after(Operation::RotateAdmin { admin, new_admin: other });
            let treasury = s.after(Operation::SetTreasury { admin, treasury: other });
            let stop = s.after(Operation::SetEmergencyStop { admin, stopped });
            &&& !entitled ==> topup == s && grace == s && rotated == s && treasury == s && stop == s
            &&& entitled ==> {
                &&& topup == (VaultState { config: Some(Config { min_topup, ..config }), ..s })
                &&& grace == (VaultState { config: Some(Config { grace_period, ..config }), ..s })
                &&& rotated == (VaultState { config: Some(Config { admin: other, ..config }), ..s })
                &&& treasury == (VaultState { treasury: Some(other), ..s })
                &&& stop == (VaultState { emergency_stop: stopped, ..s })
            }
        }),
{
}

/// The admin sets the protocol fee to any share up to the whole.
pub proof fn law_fee_is_set(s: VaultState, admin: Address, fee_bps: u32)
    ensures
        ({
            let entitled = s.config is Some && s.config->0.admin == admin;
            let refusal = s.fee_refusal(admin, fee_bps);
            let t = s.after(Operation::SetProtocolFee { admin, fee_bps });
            &&& refusal is None <==> entitled && fee_bps <= 10_000
            &&& entitled && fee_bps > 10_000 ==> refusal == Some(Error::InvalidInput)
            &&& s.config is None ==> refusal == Some(Error::NotFound)
            &&& s.config is Some && !entitled ==> refusal == Some(Error::Unauthorized)
            &&& refusal is Some ==> t == s
            &&& refusal is None ==> t == (VaultState { protocol_fee_bps: fee_bps, ..s })
        }),
{
}

/// Stranded funds are recovered by the admin, and only a positive amount.
pub proof fn law_recovery(s: VaultState, admin: Address, amount: i128)
    ensures
        ({
            let entitled = s.config is Some && s.config->0.admin == admin;
            let refusal = s.recovery_refusal(admin, amount);
            &&& refusal is None <==> entitled && amount > 0
            &&& s.config is None ==> refusal == Some(Error::NotFound)
            &&& s.config is Some && !entitled ==> refusal == Some(Error::Unauthorized)
            &&& entitled && amount <= 0 ==> refusal == Some(Error::InvalidAmount)
        }),
{
}

// Metadata.

/// A party of a subscription that is not cancelled sets a key of 1 to 32 bytes to
/// a value of at most 256, as long as there are at most 10 keys. An error names the
/// first reason that holds.
pub proof fn law_set_metadata(
    s: VaultState,
    id: u32,
    actor: Address,
    key: Seq<u8>,
    value: Seq<u8>,
)
    requires
        s.valid(),
    ensures
        ({
            let refusal = s.set_metadata_refusal(id, actor, key, value);
            let t = s.after(Operation::SetMetadata { id, actor, key, value });
            let sub = s.accounts[id].sub;
            let there = s.accounts.contains_key(id);
            let entitled = there && (actor == sub.subscriber || actor == sub.merchant);
            let list = s.metadata_of(id);
            let known = exists|i: int| 0 <= i < list.len() && (#[trigger] list[i]).0 == key;
            let open = entitled && !(sub.status is Cancelled);
            let good_key = 1 <= key.len() <= 32;
            &&& refusal is None <==> entitled && !(sub.status is Cancelled) && 1 <= key.len() <= 32
                && value.len() <= 256 && (known || list.len() < 10)
            &&& !there ==> refusal == Some(Error::NotFound)
            &&& there && !entitled ==> refusal == Some(Error::Forbidden)
            &&& entitled && sub.status is Cancelled ==> refusal == Some(Error::NotActive)
            &&& open && !good_key ==> refusal == Some(Error::MetadataKeyInvalid)
            &&& open && good_key && value.len() > 256 ==> refusal == Some(
                Error::MetadataValueTooLong,
            )
            &&& open && good_key && value.len() <= 256 && refusal is Some ==> refusal == Some(
                Error::MetadataKeyLimitReached,
            )
            &&& refusal is Some ==> t == s
            &&& refusal is None ==> {
                &&& t == (VaultState { metadata: t.metadata, ..s })
                &&& t.metadata == s.metadata.insert(id, t.metadata_of(id))
                &&& entry_was_set(list, t.metadata_of(id), key, value)
            }
        }),
{
    lemma_put(s.metadata_of(id), key, value);
    let t = s.after(Operation::SetMetadata { id, actor, key, value });
    if s.set_metadata_refusal(id, actor, key, value) is None {
        law_put(s.metadata_of(id), key, value);
        assert(t.metadata =~= s.metadata.insert(id, t.metadata_of(id)));
    }
}

/// `after` is `before` with `key` at `value`: in its place if it was there, else
/// behind the others. All other entries stay, in their places.
pub open spec fn entry_was_set(before: Pairs, after: Pairs, key: Seq<u8>, value: Seq<u8>) -> bool {
    let known = exists|i: int| 0 <= i < before.len() && (#[trigger] before[i]).0 == key;
    &&& known ==> after.len() == before.len()
    &&& !known ==> after.len() == before.len() + 1 && after[before.len() as int] == (key, value)
    &&& forall|i: int|
        0 <= i < before.len() ==> #[trigger] after[i] == if before[i].0 == key {
            (key, value)
        } else {
            before[i]
        }
}

/// Setting a key changes the entry of that key alone.
pub proof fn law_put(list: Pairs, key: Seq<u8>, value: Seq<u8>)
    requires
        keys_distinct(list),
    ensures
        entry_was_set(list, put(list, key, value), key, value),
{
    if has_key(list, key) {
        let at = key_position(list, key);
        assert forall|i: int| 0 <= i < list.len() implies #[trigger] put(list, key, value)[i]
            == if list[i].0 == key {
            (key, value)
        } else {
            list[i]
        } by {
            if list[i].0 == key {
                assert(list[at].0 == list[i].0);
            }
        }
    }
}

/// A lookup gives back a value just if the key stands in the list with it.
pub proof fn law_lookup(list: Pairs, key: Seq<u8>, value: Seq<u8>)
    requires
        keys_distinct(list),
    ensures
        lookup(list, key) == Some(value) <==> list.contains((key, value)),
        lookup(list, key) is None <==> forall|i: int|
            0 <= i < list.len() ==> (#[trigger] list[i]).0 != key,
{
    if has_key(list, key) {
        let at = key_position(list, key);
        assert(list[at].0 == key);
        assert(list[at] == (key, list[at].1));
        if list.contains((key, value)) {
            let i = list.index_of((key, value));
            assert(list[i].0 == list[at].0);
        }
    } else if list.contains((key, value)) {
        let i = list.index_of((key, value));
        assert(list[i].0 == key);
    }
}

/// A party of a subscription, cancelled or not, deletes a key that is there; the
/// other entries stay, in their order.
pub proof fn law_delete_metadata(s: VaultState, id: u32, actor: Address, key: Seq<u8>)
    requires
        s.valid(),
    ensures
        ({
            let refusal = s.delete_metadata_refusal(id, actor, key);
            let t = s.after(Operation::DeleteMetadata { id, actor, key });
            let sub = s.accounts[id].sub;
            let there = s.accounts.contains_key(id);
            let entitled = there && (actor == sub.subscriber || actor == sub.merchant);
            let list = s.metadata_of(id);
            let known = exists|i: int| 0 <= i < list.len() && (#[trigger] list[i]).0 == key;
            &&& refusal is None <==> entitled && known
            &&& there && !entitled ==> refusal == Some(Error::Forbidden)
            &&& !there || (entitled && !known) ==> refusal == Some(Error::NotFound)
            &&& refusal is Some ==> t == s
            &&& refusal is None ==> {
                let rest = t.metadata_of(id);
                &&& t == (VaultState { metadata: t.metadata, ..s })
                &&& t.metadata == s.metadata.insert(id, rest)
                &&& exists|at: int|
                    0 <= at < list.len() && list[at].0 == key && rest == #[trigger] list.remove(at)
            }
        }),
{
    let t = s.after(Operation::DeleteMetadata { id, actor, key });
    let list = s.metadata_of(id);
    if s.delete_metadata_refusal(id, actor, key) is None {
        let at = key_position(list, key);
        assert(list[at].0 == key);
        assert(t.metadata_of(id) == list.remove(at));
        assert(t.metadata =~= s.metadata.insert(id, t.metadata_of(id)));
    }
}

/// What comes after a key is deleted and set again: it stands last, with its new
/// value, and the number of keys is as before.
pub proof fn law_metadata_delete_then_set(list: Pairs, key: Seq<u8>, value: Seq<u8>)
    requires
        keys_distinct(list),
        has_key(list, key),
    ensures
        put(drop_key(list, key), key, value).len() == list.len(),
        put(drop_key(list, key), key, value).last() == (key, value),
{
    lemma_drop_key(list, key);
}

// The blocklist.

/// The admin bars anybody, a merchant those who have a subscription with it, and
/// nobody else bars anyone. The entry is kept as given.
pub proof fn law_add_to_blocklist(s: VaultState, entry: BlocklistEntry, id: u32, other: Address)
    ensures
        ({
            let t = s.after(Operation::AddToBlocklist { entry });
            let is_admin = s.config is Some && s.config->0.admin == entry.added_by;
            let may = s.may_block(entry.added_by, entry.subscriber);
            let has_customer = exists|with: u32| #[trigger]
                s.accounts.contains_key(with) && s.accounts[with].sub.subscriber
                    == entry.subscriber && s.accounts[with].sub.merchant == entry.added_by;
            &&& may <==> is_admin || has_customer
            &&& !may ==> t == s
            &&& may ==> {
                &&& t.blocklist.contains_key(entry.subscriber)
                &&& t.blocklist[entry.subscriber] == entry
                &&& other != entry.subscriber ==> {
                    &&& t.blocklist.contains_key(other) == s.blocklist.contains_key(other)
                    &&& t.blocklist.contains_key(other) ==> t.blocklist[other] == s.blocklist[other]
                }
                &&& t == (VaultState { blocklist: t.blocklist, ..s })
            }
        }),
{
}

/// The admin takes a barred subscriber off the blocklist, and no other.
pub proof fn law_remove_from_blocklist(
    s: VaultState,
    admin: Address,
    subscriber: Address,
    other: Address,
)
    ensures
        ({
            let refusal = s.unblock_refusal(admin, subscriber);
            let t = s.after(Operation::RemoveFromBlocklist { admin, subscriber });
            let entitled = s.config is Some && s.config->0.admin == admin;
            &&& refusal is None <==> entitled && s.blocklist.contains_key(subscriber)
            &&& s.config is Some && !entitled ==> refusal == Some(Error::Unauthorized)
            &&& s.config is None || (entitled && refusal is Some) ==> refusal == Some(
                Error::NotFound,
            )
            &&& refusal is Some ==> t == s
            &&& refusal is None ==> {
                &&& !t.blocklist.contains_key(subscriber)
                &&& other != subscriber ==> {
                    &&& t.blocklist.contains_key(other) == s.blocklist.contains_key(other)
                    &&& t.blocklist.contains_key(other) ==> t.blocklist[other] == s.blocklist[other]
                }
                &&& t == (VaultState { blocklist: t.blocklist, ..s })
            }
        }),
{
}

// Records.

/// An account can be put back just if its numbers fit together: positive terms,
/// no negative balance, no more metered than charged in the period, no more
/// charged in the period than ever, no more ever than the cap, and cancelled if
/// the cap is used up.
pub proof fn law_accepted_accounts(s: VaultState, id: u32, account: Account)
    ensures
        s.accepts_account(id, account) <==> {
            let sub = account.sub;
            &&& id < s.next_id
            &&& !s.accounts.contains_key(id)
            &&& s.config is Some
            &&& account.token == s.config->0.token
            &&& good_terms(sub.amount, sub.interval_seconds, sub.lifetime_cap)
            &&& sub.prepaid_balance >= 0
            &&& 0 <= sub.current_period_usage_units <= account.period_amount_charged
                <= sub.lifetime_charged
            &&& sub.lifetime_cap is Some ==> sub.lifetime_charged < sub.lifetime_cap->0 || (
            sub.lifetime_charged == sub.lifetime_cap->0 && sub.status is Cancelled)
        },
{
}

/// Settings are recorded as they are, and can be put back if the fee is at most
/// the whole and the treasury's balance is not negative.
pub proof fn law_accepted_settings(s: VaultState, settings: Settings)
    ensures
        s.settings().config == s.config,
        s.settings().emergency_stop == s.emergency_stop,
        s.settings().treasury == s.treasury,
        s.settings().protocol_fee_bps == s.protocol_fee_bps,
        s.settings().next_id == s.next_id,
        s.settings().treasury_balance == s.treasury_balance,
        settings.sound() <==> settings.protocol_fee_bps <= 10_000 && settings.treasury_balance >= 0,
{
}

/// A metadata entry can be put back if it is within the limits and its key is
/// new; a billing period if it is closed and not on file.
pub proof fn law_accepted_records(
    s: VaultState,
    id: u32,
    key: Seq<u8>,
    value: Seq<u8>,
    snapshot: BillingPeriodSnapshot,
)
    ensures
        s.accepts_metadata(id, key, value) <==> {
            let list = s.metadata_of(id);
            &&& s.accounts.contains_key(id)
            &&& 1 <= key.len() <= 32
            &&& value.len() <= 256
            &&& list.len() < 10
            &&& forall|i: int| 0 <= i < list.len() ==> (#[trigger] list[i]).0 != key
        },
        s.accepts_snapshot(snapshot) <==> {
            let of = snapshot.subscription_id;
            &&& s.accounts.contains_key(of)
            &&& snapshot.period_index < s.accounts[of].sub.current_period_index
            &&& forall|i: int|
                0 <= i < s.snapshots.len() ==> (#[trigger] s.snapshots[i]).subscription_id != of
                    || s.snapshots[i].period_index != snapshot.period_index
        },
{
}

/// A new vault has no settings, charges no fee, is not stopped, and holds nothing.
pub proof fn law_new_vault_is_empty()
    ensures
        ({
            let s = initial_state();
            &&& s.config is None
            &&& s.treasury is None
            &&& !s.emergency_stop
            &&& s.protocol_fee_bps == 0
            &&& s.next_id == 0
            &&& s.treasury_balance == 0
            &&& s.plans.len() == 0
            &&& s.statements.len() == 0
            &&& s.snapshots.len() == 0
            &&& s.references.len() == 0
            &&& s.events.len() == 0
            &&& s.transfers.len() == 0
            &&& forall|id: u32| !(#[trigger] s.accounts.contains_key(id))
            &&& forall|id: u32| !(#[trigger] s.metadata.contains_key(id))
            &&& forall|merchant: Address| !(#[trigger] s.merchant_balances.contains_key(merchant))
            &&& forall|merchant: Address| !(#[trigger] s.paused_merchants.contains(merchant))
            &&& forall|subscriber: Address| !(#[trigger] s.blocklist.contains_key(subscriber))
        }),
{
}

/// The ids that can be handed out are those below the largest number.
pub proof fn law_id_limit()
    ensures
        MAX_SUBSCRIPTION_ID == u32::MAX,
{
}

} // verus!
