//! Charges as callers of the vault ask for them: one subscription, metered
//! usage, or a batch.
use vstd::prelude::*;

use crate::charge_core::{
    after_charge, after_usage, charge_decision, charge_one, charge_usage_one, decide_charge, reported,
    usage_decision, ChargeOutcome,
};
use crate::id_list::{list_item, list_len, listed};
use crate::operations::Operation;
use crate::types::{BatchChargeResult, ChargeExecutionResult, Error};
use crate::vault::{SubscriptionVault, VaultState};

verus! {

impl VaultState {
    /// The recurring amount of subscription `id`.
    pub open spec fn recurring_amount(self, id: u32) -> Result<i128, Error> {
        if self.accounts.contains_key(id) {
            Ok(self.accounts[id].sub.amount)
        } else {
            Err(Error::NotFound)
        }
    }

    /// What charging the recurring amount of subscription `id` at `now` comes
    /// to.
    pub open spec fn recurring_decision(self, id: u32, now: u64) -> Result<ChargeOutcome, Error> {
        charge_decision(self, id, now, None, self.recurring_amount(id))
    }

    /// The state after an attempt to charge the recurring amount of
    /// subscription `id`.
    pub open spec fn recurring_charged(self, id: u32, now: u64) -> VaultState {
        match self.recurring_decision(id, now) {
            Ok(outcome) => after_charge(self, id, now, None, self.recurring_amount(id)->Ok_0, outcome),
            Err(_) => self,
        }
    }

    /// What `charge_subscription` answers.
    pub open spec fn charge_answer(self, id: u32, now: u64) -> Result<(), Error> {
        if self.emergency_stop {
            Err(Error::EmergencyStopActive)
        } else {
            match self.recurring_decision(id, now) {
                Err(e) => Err(e),
                Ok(ChargeOutcome::Unpaid { .. }) => Err(Error::InsufficientBalance),
                Ok(_) => Ok(()),
            }
        }
    }
}

impl VaultState {
    /// What `charge_usage` answers.
    pub open spec fn usage_answer(self, id: u32, usage_amount: i128, now: u64) -> Result<(), Error> {
        if self.emergency_stop {
            Err(Error::EmergencyStopActive)
        } else {
            match usage_decision(self, id, usage_amount, now) {
                Err(e) => Err(e),
                Ok(_) => Ok(()),
            }
        }
    }
}

/// The state after one item of a batch. An item that is no id changes nothing.
pub open spec fn batch_step(s: VaultState, item: Option<u32>, now: u64) -> VaultState {
    match item {
        Some(id) => s.recurring_charged(id, now),
        None => s,
    }
}

/// The report on an item that failed.
pub open spec fn failure(e: Error) -> BatchChargeResult {
    BatchChargeResult { success: false, error_code: e.spec_code() }
}

/// The report on one item of a batch.
pub open spec fn batch_report(s: VaultState, item: Option<u32>, now: u64) -> BatchChargeResult {
    match item {
        None => failure(Error::InvalidInput),
        Some(id) => match s.recurring_decision(id, now) {
            Err(e) => failure(e),
            Ok(outcome) => if reported(outcome) is Charged {
                BatchChargeResult { success: true, error_code: 0 }
            } else {
                failure(Error::InsufficientBalance)
            },
        },
    }
}

/// The state after the items of a batch were charged one after the other.
pub open spec fn batch_state(s: VaultState, items: Seq<Option<u32>>, now: u64) -> VaultState
    decreases items.len(),
{
    if items.len() == 0 {
        s
    } else {
        batch_step(batch_state(s, items.drop_last(), now), items.last(), now)
    }
}

/// The reports on the items of a batch, in their order. Each item meets the
/// state that the items before it have left.
pub open spec fn batch_reports(s: VaultState, items: Seq<Option<u32>>, now: u64) -> Seq<
    BatchChargeResult,
> {
    Seq::new(
        items.len(),
        |i: int| batch_report(batch_state(s, items.take(i), now), items[i], now),
    )
}

impl SubscriptionVault {
    /// Looks up the amount that a recurring charge takes.
    fn resolve_charge_amount(&self, id: u32) -> (r: Result<i128, Error>)
        ensures
            r == self@.recurring_amount(id),
    {
        match self.account(id) {
            Ok(account) => Ok(account.sub.amount),
            Err(e) => Err(e),
        }
    }

    /// Charges the recurring amount of a subscription. A balance that does not
    /// cover it is an error here, and leaves the vault as it was.
    pub fn charge_subscription(&mut self, subscription_id: u32, now: u64) -> (r: Result<(), Error>)
        requires
            old(self).wf(),
        ensures
            final(self).wf(),
            final(self)@ == old(self)@.after(
                (Operation::ChargeSubscription { id: subscription_id, now }),
            ),
            r == old(self)@.charge_answer(subscription_id, now),
            final(self)@ == if r is Ok {
                old(self)@.recurring_charged(subscription_id, now)
            } else {
                old(self)@
            },
    {
        match self.require_not_emergency_stop() {
            Ok(()) => {},
            Err(e) => return Err(e),
        }
        let resolved = self.resolve_charge_amount(subscription_id);
        match decide_charge(self, subscription_id, now, None, resolved) {
            Ok(ChargeOutcome::Unpaid { .. }) => return Err(Error::InsufficientBalance),
            Ok(_) => {},
            Err(e) => return Err(e),
        }
        match charge_one(self, subscription_id, now, None, resolved) {
            Ok(_) => Ok(()),
            Err(e) => Err(e),
        }
    }

    /// Charges metered usage.
    pub fn charge_usage(&mut self, subscription_id: u32, usage_amount: i128, now: u64) -> (r: Result<
        (),
        Error,
    >)
        requires
            old(self).wf(),
        ensures
            final(self).wf(),
            final(self)@ == old(self)@.after(
                (Operation::ChargeUsage { id: subscription_id, usage_amount, now }),
            ),
            r == old(self)@.usage_answer(subscription_id, usage_amount, now),
            if old(self)@.emergency_stop {
                r == Err::<(), Error>(Error::EmergencyStopActive) && final(self)@ == old(self)@
            } else {
                match usage_decision(old(self)@, subscription_id, usage_amount, now) {
                    Err(e) => r == Err::<(), Error>(e) && final(self)@ == old(self)@,
                    Ok(outcome) => r == Ok::<(), Error>(()) && final(self)@ == after_usage(
                        old(self)@,
                        subscription_id,
                        usage_amount,
                        Seq::empty(),
                        now,
                        outcome,
                    ),
                }
            },
    {
        match self.require_not_emergency_stop() {
            Ok(()) => {},
            Err(e) => return Err(e),
        }
        charge_usage_one(self, subscription_id, usage_amount, Vec::new(), now)
    }

    /// Charges one item of a batch.
    fn charge_item(&mut self, item: Option<u32>, now: u64) -> (report: BatchChargeResult)
        requires
            old(self).wf(),
        ensures
            final(self).wf(),
            final(self)@ == batch_step(old(self)@, item, now),
            report == batch_report(old(self)@, item, now),
    {
        let id: u32 = match item {
            Some(id) => id,
            None => return BatchChargeResult {
                success: false,
                error_code: Error::InvalidInput.code(),
            },
        };
        let resolved = self.resolve_charge_amount(id);
        match charge_one(self, id, now, None, resolved) {
            Ok(ChargeExecutionResult::Charged) => BatchChargeResult { success: true, error_code: 0 },
            Ok(ChargeExecutionResult::InsufficientBalance) => BatchChargeResult {
                success: false,
                error_code: Error::InsufficientBalance.code(),
            },
            Err(e) => BatchChargeResult { success: false, error_code: e.code() },
        }
    }

    /// Charges the recurring amounts of several subscriptions, one after the
    /// other. A failure of one does not keep the others from being charged.
    pub fn batch_charge(&mut self, subscription_ids: &soroban_sdk::Vec<u32>, now: u64) -> (r: Result<
        Vec<BatchChargeResult>,
        Error,
    >)
        requires
            old(self).wf(),
        ensures
            final(self).wf(),
            final(self)@ == old(self)@.after(
                (Operation::BatchCharge { items: listed(*subscription_ids), now }),
            ),
            old(self)@.emergency_stop ==> r == Err::<Vec<BatchChargeResult>, Error>(
                Error::EmergencyStopActive,
            ) && final(self)@ == old(self)@,
            !old(self)@.emergency_stop ==> {
                &&& r is Ok
                &&& r->Ok_0@ == batch_reports(old(self)@, listed(*subscription_ids), now)
                &&& final(self)@ == batch_state(old(self)@, listed(*subscription_ids), now)
            },
    {
        match self.require_not_emergency_stop() {
            Ok(()) => {},
            Err(e) => return Err(e),
        }
        let ghost items = listed(*subscription_ids);
        let ghost before = self@;
        let length: u32 = list_len(subscription_ids);
        let mut reports: Vec<BatchChargeResult> = Vec::new();
        let mut i: u32 = 0;
        while i < length
            invariant
                self.wf(),
                items == listed(*subscription_ids),
                length == items.len(),
                i <= length,
                self@ == batch_state(before, items.take(i as int), now),
                reports@ == batch_reports(before, items, now).take(i as int),
            decreases length - i,
        {
            assert(items.take(i + 1).drop_last() =~= items.take(i as int));
            let item = list_item(subscription_ids, i);
            let report = self.charge_item(item, now);
            reports.push(report);
            assert(reports@ =~= batch_reports(before, items, now).take(i + 1));
            i = i + 1;
        }
        assert(items.take(i as int) =~= items);
        assert(reports@ =~= batch_reports(before, items, now));
        Ok(reports)
    }
}

} // verus!
