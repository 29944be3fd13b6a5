//! What merchants and the treasury earn, and the protocol fee between them.
use vstd::prelude::*;

use crate::operations::Operation;
use crate::safe_math::{fits, safe_add, safe_mul, safe_sub_balance};
use crate::types::{Address, Error, TransferOrder, BPS_DENOMINATOR};
use crate::vault::{SubscriptionVault, VaultState};

verus! {

/// The treasury's share of `amount`, rounded down.
pub open spec fn protocol_fee(amount: i128, fee_bps: u32) -> int {
    (amount * fee_bps) / (BPS_DENOMINATOR as int)
}

impl VaultState {
    /// `merchant` and the treasury can be credited with `amount`.
    pub open spec fn credit_fits(self, merchant: Address, amount: i128) -> bool {
        let fee = protocol_fee(amount, self.protocol_fee_bps);
        &&& fits(amount * self.protocol_fee_bps)
        &&& fits(self.merchant_balance(merchant) + (amount - fee))
        &&& fits(self.treasury_balance + fee)
    }

    /// The state after `amount` was shared out between `merchant` and the
    /// treasury.
    pub open spec fn credited(self, merchant: Address, amount: i128) -> VaultState {
        let fee = protocol_fee(amount, self.protocol_fee_bps);
        VaultState {
            merchant_balances: self.merchant_balances.insert(
                merchant,
                (self.merchant_balance(merchant) + (amount - fee)) as i128,
            ),
            treasury_balance: (self.treasury_balance + fee) as i128,
            ..self
        }
    }

    /// Why `merchant` may not withdraw `amount`, if so.
    pub open spec fn merchant_withdrawal_refusal(self, merchant: Address, amount: i128) -> Option<
        Error,
    > {
        if amount <= 0 {
            Some(Error::InvalidAmount)
        } else if amount > self.merchant_balance(merchant) {
            Some(Error::InsufficientBalance)
        } else {
            None
        }
    }

    /// The state after `merchant` withdrew `amount`.
    pub open spec fn merchant_withdrawn(self, merchant: Address, amount: i128) -> VaultState {
        VaultState {
            merchant_balances: self.merchant_balances.insert(
                merchant,
                (self.merchant_balance(merchant) - amount) as i128,
            ),
            ..self
        }.with_transfer(TransferOrder::Outbound { account: merchant, amount })
    }

    /// Why `admin` may not pay `amount` out to the treasury, if so.
    pub open spec fn treasury_withdrawal_refusal(self, admin: Address, amount: i128) -> Option<
        Error,
    > {
        if self.admin_refusal(admin) is Some {
            self.admin_refusal(admin)
        } else if self.treasury is None {
            Some(Error::NotFound)
        } else if amount <= 0 {
            Some(Error::InvalidAmount)
        } else if amount > self.treasury_balance {
            Some(Error::InsufficientBalance)
        } else {
            None
        }
    }

    /// The state after `amount` was paid out to the treasury.
    pub open spec fn treasury_withdrawn(self, amount: i128) -> VaultState {
        VaultState {
            treasury_balance: (self.treasury_balance - amount) as i128,
            ..self
        }.with_transfer(TransferOrder::Outbound { account: self.treasury->0, amount })
    }

    /// The state with the charges of `merchant` paused or not.
    pub open spec fn with_merchant_paused(self, merchant: Address, paused: bool) -> VaultState {
        VaultState {
            paused_merchants: if paused {
                self.paused_merchants.insert(merchant)
            } else {
                self.paused_merchants.remove(merchant)
            },
            ..self
        }
    }
}

/// A fee is between nothing and the whole amount.
pub proof fn lemma_fee_within_amount(amount: i128, fee_bps: u32)
    requires
        amount >= 0,
        fee_bps <= BPS_DENOMINATOR,
    ensures
        0 <= protocol_fee(amount, fee_bps) <= amount,
{
    let product = amount * fee_bps;
    assert(0 <= product <= amount * 10_000) by (nonlinear_arith)
        requires
            product == amount * fee_bps,
            0 <= fee_bps <= 10_000,
            amount >= 0,
    ;
}

impl SubscriptionVault {
    /// Tells whether `merchant` has paused its charges.
    pub fn get_merchant_paused(&self, merchant: &Address) -> (paused: bool)
        requires
            self.tables_wf(),
        ensures
            paused == self@.paused_merchants.contains(*merchant),
    {
        self.paused_merchants.get(merchant).is_some()
    }

    /// Returns what `merchant` has earned and not yet withdrawn.
    pub fn get_merchant_balance(&self, merchant: &Address) -> (balance: i128)
        requires
            self.tables_wf(),
        ensures
            balance == self@.merchant_balance(*merchant),
    {
        match self.merchant_balances.get(merchant) {
            Some(balance) => *balance,
            None => 0,
        }
    }

    /// Works out the balances of `merchant` and of the treasury after a credit
    /// of `amount`.
    pub(crate) fn preview_credit(&self, merchant: &Address, amount: i128) -> (r: Result<
        (i128, i128),
        Error,
    >)
        requires
            self.wf(),
            amount >= 0,
        ensures
            self@.credit_fits(*merchant, amount) ==> r == Ok::<(i128, i128), Error>(
                (
                    self@.credited(*merchant, amount).merchant_balances[*merchant],
                    self@.credited(*merchant, amount).treasury_balance,
                ),
            ),
            !self@.credit_fits(*merchant, amount) ==> r == Err::<(i128, i128), Error>(
                Error::Overflow,
            ),
    {
        let scaled: i128 = match safe_mul(amount, self.protocol_fee_bps as i128) {
            Ok(scaled) => scaled,
            Err(e) => return Err(e),
        };
        proof {
            lemma_fee_within_amount(amount, self.protocol_fee_bps);
            assert(scaled >= 0) by (nonlinear_arith)
                requires
                    scaled == amount * self.protocol_fee_bps,
                    amount >= 0,
                    self.protocol_fee_bps >= 0,
            ;
        }
        let fee: i128 = scaled / (BPS_DENOMINATOR as i128);
        let merchant_balance: i128 = match safe_add(
            self.get_merchant_balance(merchant),
            amount - fee,
        ) {
            Ok(balance) => balance,
            Err(e) => return Err(e),
        };
        let treasury_balance: i128 = match safe_add(self.treasury_balance, fee) {
            Ok(balance) => balance,
            Err(e) => return Err(e),
        };
        Ok((merchant_balance, treasury_balance))
    }

    /// Shares `amount` out between `merchant` and the treasury.
    pub(crate) fn credit_merchant_balance(&mut self, merchant: &Address, amount: i128) -> (r: Result<
        (),
        Error,
    >)
        requires
            old(self).wf(),
            amount >= 0,
        ensures
            final(self).wf(),
            old(self)@.credit_fits(*merchant, amount) ==> r == Ok::<(), Error>(()) && final(self)@
                == old(self)@.credited(*merchant, amount),
            !old(self)@.credit_fits(*merchant, amount) ==> r == Err::<(), Error>(Error::Overflow)
                && final(self)@ == old(self)@,
    {
        let (merchant_balance, treasury_balance) = match self.preview_credit(merchant, amount) {
            Ok(balances) => balances,
            Err(e) => return Err(e),
        };
        proof {
            lemma_fee_within_amount(amount, self.protocol_fee_bps);
        }
        self.merchant_balances.insert(*merchant, merchant_balance);
        self.treasury_balance = treasury_balance;
        assert(self@ =~= old(self)@.credited(*merchant, amount));
        Ok(())
    }

    /// Pays `amount` of what `merchant` has earned out to it.
    pub fn withdraw_merchant_funds(&mut self, merchant: Address, amount: i128) -> (r: Result<
        (),
        Error,
    >)
        requires
            old(self).wf(),
        ensures
            final(self).wf(),
            final(self)@ == old(self)@.after(
                (Operation::WithdrawMerchantFunds { merchant, amount }),
            ),
            match old(self)@.merchant_withdrawal_refusal(merchant, amount) {
                Some(e) => r == Err::<(), Error>(e) && final(self)@ == old(self)@,
                None => r == Ok::<(), Error>(()) && final(self)@ == old(self)@.merchant_withdrawn(
                    merchant,
                    amount,
                ),
            },
    {
        if amount <= 0 {
            return Err(Error::InvalidAmount);
        }
        let balance: i128 = match safe_sub_balance(self.get_merchant_balance(&merchant), amount) {
            Ok(balance) => balance,
            Err(e) => return Err(e),
        };
        self.merchant_balances.insert(merchant, balance);
        self.order_transfer(TransferOrder::Outbound { account: merchant, amount });
        assert(self@ =~= old(self)@.merchant_withdrawn(merchant, amount));
        assert(self@.snapshots_valid());
        Ok(())
    }

    /// Pays `amount` of the collected fees out to the treasury.
    pub fn withdraw_treasury_funds(&mut self, admin: Address, amount: i128) -> (r: Result<(), Error>)
        requires
            old(self).wf(),
        ensures
            final(self).wf(),
            final(self)@ == old(self)@.after(
                (Operation::WithdrawTreasuryFunds { admin, amount }),
            ),
            match old(self)@.treasury_withdrawal_refusal(admin, amount) {
                Some(e) => r == Err::<(), Error>(e) && final(self)@ == old(self)@,
                None => r == Ok::<(), Error>(()) && final(self)@ == old(self)@.treasury_withdrawn(
                    amount,
                ),
            },
    {
        match self.require_admin(admin) {
            Ok(_) => {},
            Err(e) => return Err(e),
        }
        let treasury = match self.treasury {
            Some(treasury) => treasury,
            None => return Err(Error::NotFound),
        };
        if amount <= 0 {
            return Err(Error::InvalidAmount);
        }
        let balance: i128 = match safe_sub_balance(self.treasury_balance, amount) {
            Ok(balance) => balance,
            Err(e) => return Err(e),
        };
        self.treasury_balance = balance;
        self.order_transfer(TransferOrder::Outbound { account: treasury, amount });
        assert(self@.snapshots_valid());
        Ok(())
    }

    /// Returns the fees that were collected and not yet paid out.
    pub fn get_treasury_balance(&self) -> (balance: i128)
        ensures
            balance == self@.treasury_balance,
    {
        self.treasury_balance
    }

    /// Pauses the charges of `merchant`, or takes them up again.
    pub fn set_merchant_paused(&mut self, merchant: Address, paused: bool)
        requires
            old(self).wf(),
        ensures
            final(self).wf(),
            final(self)@ == old(self)@.after(
                (Operation::SetMerchantPaused { merchant, paused }),
            ),
            final(self)@ == old(self)@.with_merchant_paused(merchant, paused),
    {
        if paused {
            self.paused_merchants.insert(merchant, ());
        } else {
            self.paused_merchants.remove(&merchant);
        }
        assert(self@ =~= old(self)@.with_merchant_paused(merchant, paused));
        assert(self@.snapshots_valid());
    }
}

} // verus!
