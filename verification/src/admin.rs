//! Settings of the vault, and what only its admin may do.
use vstd::prelude::*;

use crate::operations::Operation;
use crate::types::{
    Address, Config, ContractSnapshot, Error, RecoveryReason, BPS_DENOMINATOR, STORAGE_VERSION,
};
use crate::vault::{SubscriptionVault, VaultState};

verus! {

impl VaultState {
    /// The state with `config` in force.
    pub open spec fn with_config(self, config: Config) -> VaultState {
        VaultState { config: Some(config), ..self }
    }

    /// Why the admin may not move `amount` out as stranded funds, if so.
    pub open spec fn recovery_refusal(self, admin: Address, amount: i128) -> Option<Error> {
        if self.admin_refusal(admin) is Some {
            self.admin_refusal(admin)
        } else if amount <= 0 {
            Some(Error::InvalidAmount)
        } else {
            None
        }
    }

    /// Why the protocol fee may not be set to `fee_bps`, if so.
    pub open spec fn fee_refusal(self, admin: Address, fee_bps: u32) -> Option<Error> {
        if self.admin_refusal(admin) is Some {
            self.admin_refusal(admin)
        } else if fee_bps > BPS_DENOMINATOR {
            Some(Error::InvalidInput)
        } else {
            None
        }
    }
}

impl SubscriptionVault {
    /// Makes the settings, once. A vault without settings holds no
    /// subscriptions.
    pub fn init(
        &mut self,
        token: Address,
        token_decimals: u32,
        admin: Address,
        min_topup: i128,
        grace_period: u64,
    ) -> (r: Result<(), Error>)
        requires
            old(self).wf(),
        ensures
            final(self).wf(),
            final(self)@ == old(self)@.after(
                (Operation::Init {
                    config: Config { token, token_decimals, admin, min_topup, grace_period },
                }),
            ),
            old(self)@.config is Some ==> r == Err::<(), Error>(Error::AlreadyInitialized)
                && final(self)@ == old(self)@,
            old(self)@.config is None ==> r == Ok::<(), Error>(()) && final(self)@ == old(
                self,
            )@.with_config(Config { token, token_decimals, admin, min_topup, grace_period }),
    {
        if self.config.is_some() {
            return Err(Error::AlreadyInitialized);
        }
        self.config = Some(Config { token, token_decimals, admin, min_topup, grace_period });
        assert(self@.snapshots_valid());
        Ok(())
    }

    /// Checks that `caller` is the admin, and returns the settings.
    pub(crate) fn require_admin(&self, caller: Address) -> (r: Result<Config, Error>)
        ensures
            match self@.admin_refusal(caller) {
                Some(e) => r == Err::<Config, Error>(e),
                None => r == Ok::<Config, Error>(self@.config->0) && self@.config is Some,
            },
    {
        match self.config {
            Some(config) => if config.admin == caller {
                Ok(config)
            } else {
                Err(Error::Unauthorized)
            },
            None => Err(Error::NotFound),
        }
    }

    /// Sets the least amount that a deposit may bring.
    pub fn set_min_topup(&mut self, admin: Address, min_topup: i128) -> (r: Result<(), Error>)
        requires
            old(self).wf(),
        ensures
            final(self).wf(),
            final(self)@ == old(self)@.after(
                (Operation::SetMinTopup { admin, min_topup }),
            ),
            match old(self)@.admin_refusal(admin) {
                Some(e) => r == Err::<(), Error>(e) && final(self)@ == old(self)@,
                None => r == Ok::<(), Error>(()) && final(self)@ == old(self)@.with_config(
                    Config { min_topup, ..old(self)@.config->0 },
                ),
            },
    {
        let config = match self.require_admin(admin) {
            Ok(config) => config,
            Err(e) => return Err(e),
        };
        self.config = Some(Config { min_topup, ..config });
        assert(self@.snapshots_valid());
        Ok(())
    }

    /// Returns the least amount that a deposit may bring.
    pub fn get_min_topup(&self) -> (r: Result<i128, Error>)
        ensures
            match self@.config {
                Some(config) => r == Ok::<i128, Error>(config.min_topup),
                None => r == Err::<i128, Error>(Error::NotFound),
            },
    {
        match self.config {
            Some(config) => Ok(config.min_topup),
            None => Err(Error::NotFound),
        }
    }

    /// Sets how long after its due time a missed charge stays in grace.
    pub fn set_grace_period(&mut self, admin: Address, grace_period: u64) -> (r: Result<(), Error>)
        requires
            old(self).wf(),
        ensures
            final(self).wf(),
            final(self)@ == old(self)@.after(
                (Operation::SetGracePeriod { admin, grace_period }),
            ),
            match old(self)@.admin_refusal(admin) {
                Some(e) => r == Err::<(), Error>(e) && final(self)@ == old(self)@,
                None => r == Ok::<(), Error>(()) && final(self)@ == old(self)@.with_config(
                    Config { grace_period, ..old(self)@.config->0 },
                ),
            },
    {
        let config = match self.require_admin(admin) {
            Ok(config) => config,
            Err(e) => return Err(e),
        };
        self.config = Some(Config { grace_period, ..config });
        assert(self@.snapshots_valid());
        Ok(())
    }

    /// Returns how long after its due time a missed charge stays in grace.
    pub fn get_grace_period(&self) -> (r: Result<u64, Error>)
        ensures
            match self@.config {
                Some(config) => r == Ok::<u64, Error>(config.grace_period),
                None => r == Err::<u64, Error>(Error::NotFound),
            },
    {
        match self.config {
            Some(config) => Ok(config.grace_period),
            None => Err(Error::NotFound),
        }
    }

    /// Hands the role of admin over.
    pub fn rotate_admin(&mut self, admin: Address, new_admin: Address) -> (r: Result<(), Error>)
        requires
            old(self).wf(),
        ensures
            final(self).wf(),
            final(self)@ == old(self)@.after(
                (Operation::RotateAdmin { admin, new_admin }),
            ),
            match old(self)@.admin_refusal(admin) {
                Some(e) => r == Err::<(), Error>(e) && final(self)@ == old(self)@,
                None => r == Ok::<(), Error>(()) && final(self)@ == old(self)@.with_config(
                    Config { admin: new_admin, ..old(self)@.config->0 },
                ),
            },
    {
        let config = match self.require_admin(admin) {
            Ok(config) => config,
            Err(e) => return Err(e),
        };
        self.config = Some(Config { admin: new_admin, ..config });
        assert(self@.snapshots_valid());
        Ok(())
    }

    /// Returns the admin.
    pub fn get_admin(&self) -> (r: Result<Address, Error>)
        ensures
            match self@.config {
                Some(config) => r == Ok::<Address, Error>(config.admin),
                None => r == Err::<Address, Error>(Error::NotFound),
            },
    {
        match self.config {
            Some(config) => Ok(config.admin),
            None => Err(Error::NotFound),
        }
    }

    /// Names the account that protocol fees are for.
    pub fn set_treasury(&mut self, admin: Address, treasury: Address) -> (r: Result<(), Error>)
        requires
            old(self).wf(),
        ensures
            final(self).wf(),
            final(self)@ == old(self)@.after(
                (Operation::SetTreasury { admin, treasury }),
            ),
            match old(self)@.admin_refusal(admin) {
                Some(e) => r == Err::<(), Error>(e) && final(self)@ == old(self)@,
                None => r == Ok::<(), Error>(()) && final(self)@ == (VaultState {
                    treasury: Some(treasury),
                    ..old(self)@
                }),
            },
    {
        match self.require_admin(admin) {
            Ok(_) => {},
            Err(e) => return Err(e),
        }
        self.treasury = Some(treasury);
        assert(self@.snapshots_valid());
        Ok(())
    }

    /// Returns the account that protocol fees are for.
    pub fn get_treasury(&self) -> (r: Result<Address, Error>)
        ensures
            match self@.treasury {
                Some(treasury) => r == Ok::<Address, Error>(treasury),
                None => r == Err::<Address, Error>(Error::NotFound),
            },
    {
        match self.treasury {
            Some(treasury) => Ok(treasury),
            None => Err(Error::NotFound),
        }
    }

    /// Sets the share of every charge that goes to the treasury.
    pub fn set_protocol_fee_bps(&mut self, admin: Address, fee_bps: u32) -> (r: Result<(), Error>)
        requires
            old(self).wf(),
        ensures
            final(self).wf(),
            final(self)@ == old(self)@.after(
                (Operation::SetProtocolFee { admin, fee_bps }),
            ),
            match old(self)@.fee_refusal(admin, fee_bps) {
                Some(e) => r == Err::<(), Error>(e) && final(self)@ == old(self)@,
                None => r == Ok::<(), Error>(()) && final(self)@ == (VaultState {
                    protocol_fee_bps: fee_bps,
                    ..old(self)@
                }),
            },
    {
        match self.require_admin(admin) {
            Ok(_) => {},
            Err(e) => return Err(e),
        }
        if fee_bps > BPS_DENOMINATOR {
            return Err(Error::InvalidInput);
        }
        self.protocol_fee_bps = fee_bps;
        assert(self@.snapshots_valid());
        Ok(())
    }

    /// Returns the share of every charge that goes to the treasury.
    pub fn get_protocol_fee_bps(&self) -> (fee_bps: u32)
        ensures
            fee_bps == self@.protocol_fee_bps,
    {
        self.protocol_fee_bps
    }

    /// Stops new subscriptions, deposits and charges.
    pub fn enable_emergency_stop(&mut self, admin: Address) -> (r: Result<(), Error>)
        requires
            old(self).wf(),
        ensures
            final(self).wf(),
            final(self)@ == old(self)@.after(
                (Operation::SetEmergencyStop { admin, stopped: true }),
            ),
            match old(self)@.admin_refusal(admin) {
                Some(e) => r == Err::<(), Error>(e) && final(self)@ == old(self)@,
                None => r == Ok::<(), Error>(()) && final(self)@ == (VaultState {
                    emergency_stop: true,
                    ..old(self)@
                }),
            },
    {
        match self.require_admin(admin) {
            Ok(_) => {},
            Err(e) => return Err(e),
        }
        self.emergency_stop = true;
        assert(self@.snapshots_valid());
        Ok(())
    }

    /// Lets new subscriptions, deposits and charges run again.
    pub fn disable_emergency_stop(&mut self, admin: Address) -> (r: Result<(), Error>)
        requires
            old(self).wf(),
        ensures
            final(self).wf(),
            final(self)@ == old(self)@.after(
                (Operation::SetEmergencyStop { admin, stopped: false }),
            ),
            match old(self)@.admin_refusal(admin) {
                Some(e) => r == Err::<(), Error>(e) && final(self)@ == old(self)@,
                None => r == Ok::<(), Error>(()) && final(self)@ == (VaultState {
                    emergency_stop: false,
                    ..old(self)@
                }),
            },
    {
        match self.require_admin(admin) {
            Ok(_) => {},
            Err(e) => return Err(e),
        }
        self.emergency_stop = false;
        assert(self@.snapshots_valid());
        Ok(())
    }

    /// Tells whether the emergency stop is on.
    pub fn get_emergency_stop_status(&self) -> (stopped: bool)
        ensures
            stopped == self@.emergency_stop,
    {
        self.emergency_stop
    }

    /// Accepts or refuses a request to move funds out that no balance of the
    /// vault accounts for. No token movement is asked for.
    pub fn recover_stranded_funds(
        &self,
        admin: Address,
        _recipient: Address,
        amount: i128,
        _reason: RecoveryReason,
    ) -> (r: Result<(), Error>)
        ensures
            match self@.recovery_refusal(admin, amount) {
                Some(e) => r == Err::<(), Error>(e),
                None => r == Ok::<(), Error>(()),
            },
    {
        match self.require_admin(admin) {
            Ok(_) => {},
            Err(e) => return Err(e),
        }
        if amount <= 0 {
            return Err(Error::InvalidAmount);
        }
        Ok(())
    }

    /// Exports the settings.
    pub fn export_contract_snapshot(&self, admin: Address) -> (r: Result<ContractSnapshot, Error>)
        ensures
            match self@.admin_refusal(admin) {
                Some(e) => r == Err::<ContractSnapshot, Error>(e),
                None => r == Ok::<ContractSnapshot, Error>(
                    ContractSnapshot {
                        admin,
                        token: self@.config->0.token,
                        min_topup: self@.config->0.min_topup,
                        next_id: self@.next_id,
                        storage_version: STORAGE_VERSION,
                    },
                ),
            },
    {
        match self.require_admin(admin) {
            Ok(config) => Ok(
                ContractSnapshot {
                    admin,
                    token: config.token,
                    min_topup: config.min_topup,
                    next_id: self.next_id,
                    storage_version: STORAGE_VERSION,
                },
            ),
            Err(e) => Err(e),
        }
    }
}

} // verus!
