//! All calls that change a vault, as one type, so that laws can speak of every
//! operation at once. Putting a vault together from records is not among them.
use vstd::prelude::*;

use crate::billing::batch_state;
use crate::charge_core::{after_charge, after_usage, charge_decision, usage_decision};
use crate::metadata::{drop_key, put};
use crate::types::{
    Address, BlocklistEntry, Bytes32, Config, Error, PlanTemplate, SubscriptionStatus,
};
use crate::vault::VaultState;

verus! {

/// A call that may change the vault, with its arguments.
pub enum Operation {
    Init { config: Config },
    SetMinTopup { admin: Address, min_topup: i128 },
    SetGracePeriod { admin: Address, grace_period: u64 },
    RotateAdmin { admin: Address, new_admin: Address },
    SetTreasury { admin: Address, treasury: Address },
    SetProtocolFee { admin: Address, fee_bps: u32 },
    SetEmergencyStop { admin: Address, stopped: bool },
    CreateSubscription {
        subscriber: Address,
        plan: PlanTemplate,
        expiration: Option<u64>,
        now: u64,
    },
    CreatePlan { plan: PlanTemplate },
    CreateFromPlan { subscriber: Address, plan_template_id: u32, now: u64 },
    Deposit { id: u32, subscriber: Address, amount: i128 },
    ChangeStatus { id: u32, authorizer: Address, to: SubscriptionStatus },
    SetUsageCap { id: u32, authorizer: Address, usage_cap_units: Option<i128> },
    SetRateLimit { id: u32, authorizer: Address, max_calls: Option<u32>, window_seconds: u64 },
    ChargeOne {
        id: u32,
        now: u64,
        idempotency_key: Option<Bytes32>,
        resolved: Result<i128, Error>,
    },
    ChargeSubscription { id: u32, now: u64 },
    ChargeUsageOne { id: u32, usage_amount: i128, reference: Seq<u8>, now: u64 },
    ChargeUsage { id: u32, usage_amount: i128, now: u64 },
    BatchCharge { items: Seq<Option<u32>>, now: u64 },
    ChargeOneOff { id: u32, merchant: Address, amount: i128, now: u64 },
    WithdrawMerchantFunds { merchant: Address, amount: i128 },
    WithdrawTreasuryFunds { admin: Address, amount: i128 },
    WithdrawSubscriberFunds { id: u32, subscriber: Address },
    SetMerchantPaused { merchant: Address, paused: bool },
    SetMetadata { id: u32, actor: Address, key: Seq<u8>, value: Seq<u8> },
    DeleteMetadata { id: u32, actor: Address, key: Seq<u8> },
    AddToBlocklist { entry: BlocklistEntry },
    RemoveFromBlocklist { admin: Address, subscriber: Address },
}

impl VaultState {
    /// This state if the operation is refused, else `done`.
    pub open spec fn unless(self, refusal: Option<Error>, done: VaultState) -> VaultState {
        if refusal is Some {
            self
        } else {
            done
        }
    }

    /// The state after a recurring charge of a resolved amount.
    pub open spec fn charged_once(
        self,
        id: u32,
        now: u64,
        idempotency_key: Option<Bytes32>,
        resolved: Result<i128, Error>,
    ) -> VaultState {
        match charge_decision(self, id, now, idempotency_key, resolved) {
            Ok(outcome) => after_charge(self, id, now, idempotency_key, resolved->Ok_0, outcome),
            Err(_) => self,
        }
    }

    /// The state after a metered charge.
    pub open spec fn used_once(
        self,
        id: u32,
        usage_amount: i128,
        reference: Seq<u8>,
        now: u64,
    ) -> VaultState {
        match usage_decision(self, id, usage_amount, now) {
            Ok(outcome) => after_usage(self, id, usage_amount, reference, now, outcome),
            Err(_) => self,
        }
    }

    /// The state that an operation leaves.
    pub open spec fn after(self, operation: Operation) -> VaultState {
        match operation {
            Operation::Init { config } => if self.config is None {
                self.with_config(config)
            } else {
                self
            },
            Operation::SetMinTopup { admin, min_topup } => self.unless(
                self.admin_refusal(admin),
                self.with_config(Config { min_topup, ..self.config->0 }),
            ),
            Operation::SetGracePeriod { admin, grace_period } => self.unless(
                self.admin_refusal(admin),
                self.with_config(Config { grace_period, ..self.config->0 }),
            ),
            Operation::RotateAdmin { admin, new_admin } => self.unless(
                self.admin_refusal(admin),
                self.with_config(Config { admin: new_admin, ..self.config->0 }),
            ),
            Operation::SetTreasury { admin, treasury } => self.unless(
                self.admin_refusal(admin),
                VaultState { treasury: Some(treasury), ..self },
            ),
            Operation::SetProtocolFee { admin, fee_bps } => self.unless(
                self.fee_refusal(admin, fee_bps),
                VaultState { protocol_fee_bps: fee_bps, ..self },
            ),
            Operation::SetEmergencyStop { admin, stopped } => self.unless(
                self.admin_refusal(admin),
                VaultState { emergency_stop: stopped, ..self },
            ),
            Operation::CreateSubscription { subscriber, plan, expiration, now } => self.unless(
                self.create_refusal(subscriber, plan, expiration, now),
                self.opened(subscriber, plan, expiration, now),
            ),
            Operation::CreatePlan { plan } => self.unless(
                self.plan_refusal(plan),
                VaultState { plans: self.plans.push(plan), ..self },
            ),
            Operation::CreateFromPlan { subscriber, plan_template_id, now } => self.unless(
                self.create_from_plan_refusal(subscriber, plan_template_id),
                self.opened(subscriber, self.plans[plan_template_id as int], None, now),
            ),
            Operation::Deposit { id, subscriber, amount } => self.unless(
                self.deposit_refusal(id, subscriber, amount),
                self.deposited(id, amount),
            ),
            Operation::ChangeStatus { id, authorizer, to } => self.unless(
                self.status_refusal(id, authorizer, to),
                self.with_status(id, to),
            ),
            Operation::SetUsageCap { id, authorizer, usage_cap_units } => self.unless(
                self.merchant_refusal(id, authorizer),
                self.with_usage_cap(id, usage_cap_units),
            ),
            Operation::SetRateLimit { id, authorizer, max_calls, window_seconds } => self.unless(
                self.merchant_refusal(id, authorizer),
                self.with_rate_limit(id, max_calls, window_seconds),
            ),
            Operation::ChargeOne { id, now, idempotency_key, resolved } => self.charged_once(
                id,
                now,
                idempotency_key,
                resolved,
            ),
            Operation::ChargeSubscription { id, now } => if self.charge_answer(id, now) is Ok {
                self.recurring_charged(id, now)
            } else {
                self
            },
            Operation::ChargeUsageOne { id, usage_amount, reference, now } => self.used_once(
                id,
                usage_amount,
                reference,
                now,
            ),
            Operation::ChargeUsage { id, usage_amount, now } => if self.emergency_stop {
                self
            } else {
                self.used_once(id, usage_amount, Seq::empty(), now)
            },
            Operation::BatchCharge { items, now } => if self.emergency_stop {
                self
            } else {
                batch_state(self, items, now)
            },
            Operation::ChargeOneOff { id, merchant, amount, now } => self.unless(
                self.one_off_refusal(id, merchant, amount),
                self.charged_one_off(id, amount, now),
            ),
            Operation::WithdrawMerchantFunds { merchant, amount } => self.unless(
                self.merchant_withdrawal_refusal(merchant, amount),
                self.merchant_withdrawn(merchant, amount),
            ),
            Operation::WithdrawTreasuryFunds { admin, amount } => self.unless(
                self.treasury_withdrawal_refusal(admin, amount),
                self.treasury_withdrawn(amount),
            ),
            Operation::WithdrawSubscriberFunds { id, subscriber } => self.unless(
                self.refund_refusal(id, subscriber),
                self.refunded(id),
            ),
            Operation::SetMerchantPaused { merchant, paused } => self.with_merchant_paused(
                merchant,
                paused,
            ),
            Operation::SetMetadata { id, actor, key, value } => self.unless(
                self.set_metadata_refusal(id, actor, key, value),
                self.with_metadata(id, put(self.metadata_of(id), key, value)),
            ),
            Operation::DeleteMetadata { id, actor, key } => self.unless(
                self.delete_metadata_refusal(id, actor, key),
                self.with_metadata(id, drop_key(self.metadata_of(id), key)),
            ),
            Operation::AddToBlocklist { entry } => if self.may_block(
                entry.added_by,
                entry.subscriber,
            ) {
                self.with_blocked(entry)
            } else {
                self
            },
            Operation::RemoveFromBlocklist { admin, subscriber } => self.unless(
                self.unblock_refusal(admin, subscriber),
                self.with_unblocked(subscriber),
            ),
        }
    }
}

} // verus!
