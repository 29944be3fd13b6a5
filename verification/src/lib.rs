//! A vault that holds prepaid subscription balances and bills them.
//!
//! Subscribers pay in, merchants are paid per interval or per metered usage, and
//! the treasury gets a protocol fee. `SubscriptionVault` is the whole state;
//! its methods, spread over the modules by topic, are the calls. Each method
//! says what it answers and what it leaves in terms of `VaultState`.
pub mod account_laws;
pub mod address_map;
pub mod admin;
pub mod billing;
pub mod billing_laws;
pub mod blocklist;
pub mod charge_core;
pub mod custody;
pub mod id_list;
pub mod laws;
pub mod merchant;
pub mod metadata;
pub mod operations;
pub mod queries;
pub mod reading_laws;
pub mod restore;
pub mod safe_math;
pub mod state_machine;
pub mod subscription;
pub mod types;
pub mod vault;

pub use crate::charge_core::{charge_one, charge_usage_one};
pub use crate::queries::{compute_next_charge_info, SubscriptionsPage};
pub use crate::state_machine::{can_transition, get_allowed_transitions, validate_status_transition};
pub use crate::types::{
    Account, Address, BatchChargeResult, BillingChargeKind, BillingPeriodSnapshot, BillingStatement,
    BlocklistEntry, Bytes32, CapInfo, ChargeExecutionResult, Config, ContractSnapshot, Error, Event,
    LifetimeCapReachedEvent, NextChargeInfo, PlanTemplate, RecoveryReason, Subscription,
    SubscriptionChargeFailedEvent, SubscriptionChargedEvent, SubscriptionStatus,
    SubscriptionSummary, TransferOrder, UsageStatementEvent, BILLING_SNAPSHOT_FLAG_CLOSED,
    BILLING_SNAPSHOT_FLAG_INTERVAL_CHARGED, BILLING_SNAPSHOT_FLAG_USAGE_CHARGED, BPS_DENOMINATOR,
    MAX_METADATA_KEYS, MAX_METADATA_KEY_LENGTH, MAX_METADATA_VALUE_LENGTH, MAX_SUBSCRIPTION_ID,
    STORAGE_VERSION,
};
pub use crate::vault::SubscriptionVault;
