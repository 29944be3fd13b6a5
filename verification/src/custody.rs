//! Where the money in the vault belongs, and that no operation makes or loses
//! any of it.
use vstd::prelude::*;

use crate::billing::batch_state;
use crate::charge_core::{
    charge_decision, lemma_after_charge_valid, lemma_after_usage_valid, usage_decision,
};
use crate::merchant::{lemma_fee_within_amount, protocol_fee};
use crate::metadata::{lemma_drop_key, lemma_put};
use crate::operations::Operation;
use crate::types::{Account, Address, Bytes32, Error, TransferOrder};
use crate::vault::{initial_state, VaultState};

verus! {

/// The prepaid balances of the accounts with ids below `count`.
pub open spec fn prepaid_total(accounts: Map<u32, Account>, count: nat) -> int
    decreases count,
{
    if count == 0 {
        0
    } else {
        let id = (count - 1) as u32;
        prepaid_total(accounts, (count - 1) as nat) + if accounts.contains_key(id) {
            accounts[id].sub.prepaid_balance as int
        } else {
            0
        }
    }
}

/// The sum of the balances of all merchants.
pub open spec fn earned_total(balances: Map<Address, i128>) -> int
    decreases balances.dom().len(),
    when balances.dom().finite()
{
    if balances.dom().len() == 0 {
        0
    } else {
        let merchant = balances.dom().choose();
        balances[merchant] + earned_total(balances.remove(merchant))
    }
}

/// What the token movements bring into the vault, on balance.
pub open spec fn net_inflow(transfers: Seq<TransferOrder>) -> int
    decreases transfers.len(),
{
    if transfers.len() == 0 {
        0
    } else {
        net_inflow(transfers.drop_last()) + match transfers.last() {
            TransferOrder::Inbound { amount, .. } => amount as int,
            TransferOrder::Outbound { amount, .. } => -amount,
        }
    }
}

impl VaultState {
    /// All that the vault owes: to subscribers, to merchants and to the
    /// treasury.
    pub open spec fn obligations(self) -> int {
        prepaid_total(self.accounts, self.next_id as nat) + earned_total(self.merchant_balances)
            + self.treasury_balance
    }

    /// What the vault owes beyond what was paid into it.
    pub open spec fn uncovered(self) -> int {
        self.obligations() - net_inflow(self.transfers)
    }
}

proof fn lemma_prepaid_insert(accounts: Map<u32, Account>, id: u32, account: Account, count: nat)
    requires
        count <= u32::MAX,
    ensures
        prepaid_total(accounts.insert(id, account), count) == prepaid_total(accounts, count) + if id
            < count {
            account.sub.prepaid_balance - if accounts.contains_key(id) {
                accounts[id].sub.prepaid_balance as int
            } else {
                0
            }
        } else {
            0
        },
    decreases count,
{
    if count > 0 {
        lemma_prepaid_insert(accounts, id, account, (count - 1) as nat);
    }
}

proof fn lemma_earned_remove(balances: Map<Address, i128>, merchant: Address)
    requires
        balances.dom().finite(),
        balances.contains_key(merchant),
    ensures
        earned_total(balances) == balances[merchant] + earned_total(balances.remove(merchant)),
    decreases balances.dom().len(),
{
    let first = balances.dom().choose();
    assert(balances.dom().contains(merchant));
    assert(balances.dom().len() > 0);
    if first != merchant {
        let without_first = balances.remove(first);
        let without_merchant = balances.remove(merchant);
        lemma_earned_remove(without_first, merchant);
        lemma_earned_remove(without_merchant, first);
        assert(without_first.remove(merchant) =~= without_merchant.remove(first));
    }
}

proof fn lemma_earned_insert(balances: Map<Address, i128>, merchant: Address, balance: i128)
    requires
        balances.dom().finite(),
    ensures
        earned_total(balances.insert(merchant, balance)) == earned_total(balances) + balance
            - if balances.contains_key(merchant) {
            balances[merchant] as int
        } else {
            0
        },
{
    let after = balances.insert(merchant, balance);
    lemma_earned_remove(after, merchant);
    if balances.contains_key(merchant) {
        lemma_earned_remove(balances, merchant);
        assert(after.remove(merchant) =~= balances.remove(merchant));
    } else {
        assert(after.remove(merchant) =~= balances);
    }
}

proof fn lemma_inflow_push(transfers: Seq<TransferOrder>, order: TransferOrder)
    ensures
        net_inflow(transfers.push(order)) == net_inflow(transfers) + match order {
            TransferOrder::Inbound { amount, .. } => amount as int,
            TransferOrder::Outbound { amount, .. } => -amount,
        },
{
    assert(transfers.push(order).drop_last() =~= transfers);
}

/// Sharing an amount out adds just that amount to what the vault owes.
proof fn lemma_credited(s: VaultState, merchant: Address, amount: i128)
    requires
        s.valid(),
        amount >= 0,
        s.credit_fits(merchant, amount),
    ensures
        s.credited(merchant, amount).obligations() == s.obligations() + amount,
{
    lemma_fee_within_amount(amount, s.protocol_fee_bps);
    let fee = protocol_fee(amount, s.protocol_fee_bps);
    lemma_earned_insert(
        s.merchant_balances,
        merchant,
        (s.merchant_balance(merchant) + (amount - fee)) as i128,
    );
}

/// A recurring charge moves money inside the vault only.
proof fn lemma_charge_keeps(
    s: VaultState,
    id: u32,
    now: u64,
    idempotency_key: Option<Bytes32>,
    resolved: Result<i128, Error>,
)
    requires
        s.valid(),
    ensures
        s.charged_once(id, now, idempotency_key, resolved).valid(),
        s.charged_once(id, now, idempotency_key, resolved).uncovered() == s.uncovered(),
{
    let after = s.charged_once(id, now, idempotency_key, resolved);
    if charge_decision(s, id, now, idempotency_key, resolved) is Ok {
        let amount = resolved->Ok_0;
        lemma_after_charge_valid(s, id, now, idempotency_key, amount);
        lemma_prepaid_insert(s.accounts, id, after.accounts[id], s.next_id as nat);
        if charge_decision(s, id, now, idempotency_key, resolved)->Ok_0 is Paid {
            lemma_credited(s, s.accounts[id].sub.merchant, amount);
            assert(after.accounts =~= s.accounts.insert(id, after.accounts[id]));
        } else {
            assert(after.accounts =~= s.accounts.insert(id, after.accounts[id]));
        }
    }
}

/// A metered charge moves money inside the vault only.
proof fn lemma_usage_keeps(
    s: VaultState,
    id: u32,
    usage_amount: i128,
    reference: Seq<u8>,
    now: u64,
)
    requires
        s.valid(),
    ensures
        s.used_once(id, usage_amount, reference, now).valid(),
        s.used_once(id, usage_amount, reference, now).uncovered() == s.uncovered(),
{
    let after = s.used_once(id, usage_amount, reference, now);
    if usage_decision(s, id, usage_amount, now) is Ok {
        lemma_after_usage_valid(s, id, usage_amount, reference, now);
        lemma_prepaid_insert(s.accounts, id, after.accounts[id], s.next_id as nat);
        assert(after.accounts =~= s.accounts.insert(id, after.accounts[id]));
        if usage_decision(s, id, usage_amount, now)->Ok_0 is Paid {
            lemma_credited(s, s.accounts[id].sub.merchant, usage_amount);
        }
    }
}

/// A one-off charge moves money inside the vault only.
proof fn lemma_one_off_keeps(s: VaultState, id: u32, merchant: Address, amount: i128, now: u64)
    requires
        s.valid(),
    ensures
        s.after((Operation::ChargeOneOff { id, merchant, amount, now })).valid(),
        s.after((Operation::ChargeOneOff { id, merchant, amount, now })).uncovered()
            == s.uncovered(),
{
    let after = s.after(Operation::ChargeOneOff { id, merchant, amount, now });
    if s.one_off_refusal(id, merchant, amount) is None {
        lemma_credited(s, merchant, amount);
        lemma_fee_within_amount(amount, s.protocol_fee_bps);
        lemma_prepaid_insert(s.accounts, id, after.accounts[id], s.next_id as nat);
        assert(after.accounts[id].wf());
        assert(after.snapshots_valid());
    }
}

/// A state that differs in one account, and in what validity does not speak of.
proof fn lemma_replaced(s: VaultState, after: VaultState, id: u32)
    requires
        s.valid(),
        after == s || (s.accounts.contains_key(id) && after == (VaultState {
            transfers: after.transfers,
            ..s.with_account(id, after.accounts[id])
        })),
        after.accounts.contains_key(id) ==> {
            &&& after.accounts[id].wf()
            &&& after.accounts[id].token == s.accounts[id].token
            &&& after.accounts[id].sub.current_period_index
                == s.accounts[id].sub.current_period_index
        },
    ensures
        after.valid(),
{
    assert(after.snapshots_valid());
}

proof fn lemma_batch_keeps(s: VaultState, items: Seq<Option<u32>>, now: u64)
    requires
        s.valid(),
    ensures
        batch_state(s, items, now).valid(),
        batch_state(s, items, now).uncovered() == s.uncovered(),
    decreases items.len(),
{
    if items.len() > 0 {
        lemma_batch_keeps(s, items.drop_last(), now);
        let before = batch_state(s, items.drop_last(), now);
        if let Some(id) = items.last() {
            lemma_charge_keeps(before, id, now, None, before.recurring_amount(id));
        }
    }
}

/// Whatever happens to a valid vault leaves a valid vault.
pub proof fn law_operations_keep_validity(s: VaultState, operation: Operation)
    requires
        s.valid(),
    ensures
        s.after(operation).valid(),
{
    let after = s.after(operation);
    match operation {
        Operation::CreateSubscription { .. } | Operation::CreateFromPlan { .. } => {
            assert(after.snapshots_valid());
        },
        Operation::Deposit { id, .. } => {
            lemma_replaced(s, after, id);
        },
        Operation::ChangeStatus { id, .. } => {
            lemma_replaced(s, after, id);
        },
        Operation::SetUsageCap { id, .. } => {
            lemma_replaced(s, after, id);
        },
        Operation::SetRateLimit { id, .. } => {
            lemma_replaced(s, after, id);
        },
        Operation::WithdrawSubscriberFunds { id, .. } => {
            lemma_replaced(s, after, id);
        },
        Operation::ChargeOne { id, now, idempotency_key, resolved } => {
            lemma_charge_keeps(s, id, now, idempotency_key, resolved);
        },
        Operation::ChargeSubscription { id, now } => {
            lemma_charge_keeps(s, id, now, None, s.recurring_amount(id));
        },
        Operation::ChargeUsageOne { id, usage_amount, reference, now } => {
            lemma_usage_keeps(s, id, usage_amount, reference, now);
        },
        Operation::ChargeUsage { id, usage_amount, now } => {
            lemma_usage_keeps(s, id, usage_amount, Seq::empty(), now);
        },
        Operation::BatchCharge { items, now } => {
            lemma_batch_keeps(s, items, now);
        },
        Operation::ChargeOneOff { id, merchant, amount, .. } => {
            lemma_one_off_keeps(s, id, merchant, amount, operation->ChargeOneOff_now);
        },
        Operation::SetMetadata { id, key, value, .. } => {
            lemma_put(s.metadata_of(id), key, value);
            assert(after.snapshots_valid());
        },
        Operation::DeleteMetadata { id, key, .. } => {
            lemma_drop_key(s.metadata_of(id), key);
            assert(after.snapshots_valid());
        },
        _ => {
            assert(after.snapshots_valid());
        },
    }
}

/// Money enters and leaves the vault with token movements only: what the vault
/// owes its subscribers, its merchants and the treasury changes, in every
/// operation, by just what the operation asks the host to move in or out.
pub proof fn law_money_is_conserved(s: VaultState, operation: Operation)
    requires
        s.valid(),
    ensures
        s.after(operation).obligations() - s.obligations() == net_inflow(
            s.after(operation).transfers,
        ) - net_inflow(s.transfers),
{
    let after = s.after(operation);
    let count = s.next_id as nat;
    match operation {
        Operation::CreateSubscription { .. } | Operation::CreateFromPlan { .. } => {
            if after != s {
                lemma_prepaid_insert(s.accounts, s.next_id, after.accounts[s.next_id], count);
                assert(!s.accounts.contains_key(s.next_id));
            }
        },
        Operation::Deposit { id, .. } => {
            if after != s {
                lemma_prepaid_insert(s.accounts, id, after.accounts[id], count);
                lemma_inflow_push(s.transfers, after.transfers.last());
            }
        },
        Operation::ChangeStatus { id, .. } => {
            lemma_prepaid_insert(s.accounts, id, after.accounts[id], count);
        },
        Operation::SetUsageCap { id, .. } => {
            lemma_prepaid_insert(s.accounts, id, after.accounts[id], count);
        },
        Operation::SetRateLimit { id, .. } => {
            lemma_prepaid_insert(s.accounts, id, after.accounts[id], count);
        },
        Operation::WithdrawSubscriberFunds { id, .. } => {
            if after != s {
                lemma_prepaid_insert(s.accounts, id, after.accounts[id], count);
                lemma_inflow_push(s.transfers, after.transfers.last());
            }
        },
        Operation::WithdrawMerchantFunds { merchant, amount } => {
            if s.merchant_withdrawal_refusal(merchant, amount) is None {
                lemma_earned_insert(
                    s.merchant_balances,
                    merchant,
                    (s.merchant_balance(merchant) - amount) as i128,
                );
                lemma_inflow_push(s.transfers, after.transfers.last());
            }
        },
        Operation::WithdrawTreasuryFunds { admin, amount } => {
            if s.treasury_withdrawal_refusal(admin, amount) is None {
                lemma_inflow_push(s.transfers, after.transfers.last());
            }
        },
        Operation::ChargeOne { id, now, idempotency_key, resolved } => {
            lemma_charge_keeps(s, id, now, idempotency_key, resolved);
        },
        Operation::ChargeSubscription { id, now } => {
            lemma_charge_keeps(s, id, now, None, s.recurring_amount(id));
        },
        Operation::ChargeUsageOne { id, usage_amount, reference, now } => {
            lemma_usage_keeps(s, id, usage_amount, reference, now);
        },
        Operation::ChargeUsage { id, usage_amount, now } => {
            lemma_usage_keeps(s, id, usage_amount, Seq::empty(), now);
        },
        Operation::BatchCharge { items, now } => {
            lemma_batch_keeps(s, items, now);
        },
        Operation::ChargeOneOff { id, merchant, amount, .. } => {
            lemma_one_off_keeps(s, id, merchant, amount, operation->ChargeOneOff_now);
        },
        _ => {},
    }
}

/// A vault owes nothing when it is new.
pub proof fn law_new_vault_owes_nothing()
    ensures
        initial_state().valid(),
        initial_state().obligations() == 0,
        net_inflow(initial_state().transfers) == 0,
{
    assert(initial_state().snapshots_valid());
}

/// The state that a sequence of operations leaves.
pub open spec fn after_all(s: VaultState, operations: Seq<Operation>) -> VaultState
    decreases operations.len(),
{
    if operations.len() == 0 {
        s
    } else {
        after_all(s, operations.drop_last()).after(operations.last())
    }
}

/// After any history a vault is valid, and owes just what was paid into it and
/// not paid out again.
pub proof fn law_vault_is_always_solvent(operations: Seq<Operation>)
    ensures
        after_all(initial_state(), operations).valid(),
        after_all(initial_state(), operations).obligations() == net_inflow(
            after_all(initial_state(), operations).transfers,
        ),
    decreases operations.len(),
{
    if operations.len() == 0 {
        law_new_vault_owes_nothing();
    } else {
        law_vault_is_always_solvent(operations.drop_last());
        let before = after_all(initial_state(), operations.drop_last());
        law_operations_keep_validity(before, operations.last());
        law_money_is_conserved(before, operations.last());
    }
}

} // verus!
