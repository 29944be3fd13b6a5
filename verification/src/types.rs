//! Plain data of the vault: accounts, plans, events, errors and the records
//! that the vault keeps about a subscription.
use vstd::prelude::*;

verus! {

/// Highest value of the id counter. It is never handed out as an id.
pub const MAX_SUBSCRIPTION_ID: u32 = 0xffff_ffff;

/// Basis points that make up the whole of an amount.
pub const BPS_DENOMINATOR: u32 = 10_000;

/// The period of the snapshot is closed.
pub const BILLING_SNAPSHOT_FLAG_CLOSED: u32 = 1;

/// Metered usage was charged in the period of the snapshot.
pub const BILLING_SNAPSHOT_FLAG_USAGE_CHARGED: u32 = 2;

/// The recurring amount was charged in the period of the snapshot.
pub const BILLING_SNAPSHOT_FLAG_INTERVAL_CHARGED: u32 = 4;

/// Version of the layout that an exported snapshot of the contract reports.
pub const STORAGE_VERSION: u32 = 2;

/// Most metadata keys that one subscription may hold.
pub const MAX_METADATA_KEYS: usize = 10;

/// Longest metadata key, in bytes.
pub const MAX_METADATA_KEY_LENGTH: usize = 32;

/// Longest metadata value, in bytes.
pub const MAX_METADATA_VALUE_LENGTH: usize = 256;

/// Thirty-two bytes, as four big-endian words.
#[derive(Clone, Copy, Debug, PartialEq, Eq, Structural)]
pub struct Bytes32 {
    pub w0: u64,
    pub w1: u64,
    pub w2: u64,
    pub w3: u64,
}

/// A party on the ledger: the public key of an account, or the hash that
/// identifies a contract.
#[derive(Clone, Copy, Debug, PartialEq, Eq, Structural)]
pub struct Address {
    pub is_contract: bool,
    pub key: Bytes32,
}

/// Where a subscription stands in its lifecycle.
#[derive(Clone, Copy, Debug, PartialEq, Eq, Structural)]
pub enum SubscriptionStatus {
    Active,
    Paused,
    Cancelled,
    InsufficientBalance,
    GracePeriod,
}

/// Why a call was refused.
#[derive(Clone, Copy, Debug, PartialEq, Eq, Structural)]
pub enum Error {
    InvalidStatusTransition,
    Unauthorized,
    BelowMinimumTopup,
    Forbidden,
    NotFound,
    AlreadyInitialized,
    SubscriptionLimitReached,
    IntervalNotElapsed,
    NotActive,
    InsufficientBalance,
    UsageNotEnabled,
    InsufficientPrepaidBalance,
    InvalidAmount,
    Replay,
    InvalidInput,
    EmergencyStopActive,
    Overflow,
    Underflow,
    MerchantPaused,
    SubscriberBlocklisted,
    UsageCapExceeded,
    RateLimitExceeded,
    MetadataKeyLimitReached,
    MetadataKeyInvalid,
    MetadataValueTooLong,
}

impl Error {
    /// The number under which callers of the contract see the error.
    pub open spec fn spec_code(self) -> u32 {
        match self {
            Error::InvalidStatusTransition => 400,
            Error::Unauthorized => 401,
            Error::BelowMinimumTopup => 402,
            Error::Forbidden => 403,
            Error::NotFound => 404,
            Error::AlreadyInitialized => 409,
            Error::SubscriptionLimitReached => 429,
            Error::IntervalNotElapsed => 1001,
            Error::NotActive => 1002,
            Error::InsufficientBalance => 1003,
            Error::UsageNotEnabled => 1004,
            Error::InsufficientPrepaidBalance => 1005,
            Error::InvalidAmount => 1006,
            Error::Replay => 1007,
            Error::InvalidInput => 1008,
            Error::EmergencyStopActive => 1009,
            Error::Overflow => 1010,
            Error::Underflow => 1011,
            Error::MerchantPaused => 1012,
            Error::SubscriberBlocklisted => 1013,
            Error::UsageCapExceeded => 1014,
            Error::RateLimitExceeded => 1015,
            Error::MetadataKeyLimitReached => 1023,
            Error::MetadataKeyInvalid => 1024,
            Error::MetadataValueTooLong => 1025,
        }
    }

    /// Returns the number of the error.
    pub fn code(self) -> (code: u32)
        ensures
            code == self.spec_code(),
    {
        match self {
            Error::InvalidStatusTransition => 400,
            Error::Unauthorized => 401,
            Error::BelowMinimumTopup => 402,
            Error::Forbidden => 403,
            Error::NotFound => 404,
            Error::AlreadyInitialized => 409,
            Error::SubscriptionLimitReached => 429,
            Error::IntervalNotElapsed => 1001,
            Error::NotActive => 1002,
            Error::InsufficientBalance => 1003,
            Error::UsageNotEnabled => 1004,
            Error::InsufficientPrepaidBalance => 1005,
            Error::InvalidAmount => 1006,
            Error::Replay => 1007,
            Error::InvalidInput => 1008,
            Error::EmergencyStopActive => 1009,
            Error::Overflow => 1010,
            Error::Underflow => 1011,
            Error::MerchantPaused => 1012,
            Error::SubscriberBlocklisted => 1013,
            Error::UsageCapExceeded => 1014,
            Error::RateLimitExceeded => 1015,
            Error::MetadataKeyLimitReached => 1023,
            Error::MetadataKeyInvalid => 1024,
            Error::MetadataValueTooLong => 1025,
        }
    }
}

/// What came of an attempt to charge one subscription.
#[derive(Clone, Copy, Debug, PartialEq, Eq, Structural)]
pub enum ChargeExecutionResult {
    Charged,
    InsufficientBalance,
}

/// Which kind of charge moved money.
#[derive(Clone, Copy, Debug, PartialEq, Eq, Structural)]
pub enum BillingChargeKind {
    Interval,
    Usage,
    OneOff,
}

/// Why stranded funds are recovered.
#[derive(Clone, Copy, Debug, PartialEq, Eq, Structural)]
pub enum RecoveryReason {
    AccidentalTransfer,
}

/// Settings that `init` makes.
#[derive(Clone, Copy, Debug, PartialEq, Eq)]
pub struct Config {
    pub token: Address,
    pub token_decimals: u32,
    pub admin: Address,
    pub min_topup: i128,
    pub grace_period: u64,
}

/// An agreement between a subscriber and a merchant, with its prepaid balance.
#[derive(Clone, Copy, Debug, PartialEq, Eq)]
pub struct Subscription {
    pub subscriber: Address,
    pub merchant: Address,
    /// Amount charged once per interval.
    pub amount: i128,
    pub interval_seconds: u64,
    pub last_payment_timestamp: u64,
    pub status: SubscriptionStatus,
    pub prepaid_balance: i128,
    pub usage_enabled: bool,
    pub expiration: Option<u64>,
    pub billing_anchor_timestamp: u64,
    pub current_period_index: u32,
    /// Metered units charged in the current billing period.
    pub current_period_usage_units: i128,
    /// Most metered units per billing period.
    pub usage_cap_units: Option<i128>,
    pub usage_rate_limit_max_calls: Option<u32>,
    pub usage_rate_window_secs: u64,
    /// Most that interval and usage charges may ever take.
    pub lifetime_cap: Option<i128>,
    /// What interval and usage charges have taken so far.
    pub lifetime_charged: i128,
}

impl Subscription {
    /// The lifetime cap, if there is one, is used up.
    pub open spec fn cap_reached(self) -> bool {
        self.lifetime_cap is Some && self.lifetime_charged >= self.lifetime_cap->0
    }

    /// Charging `amount` is more than the lifetime cap has left, or nothing is
    /// left of it.
    pub open spec fn cap_forbids(self, amount: i128) -> bool {
        self.lifetime_cap is Some && (self.cap_reached() || self.lifetime_charged + amount
            > self.lifetime_cap->0)
    }

    /// The status lets a recurring charge run.
    pub open spec fn interval_chargeable(self) -> bool {
        self.status is Active || self.status is GracePeriod
    }
}

/// A subscription together with the billing records kept beside it.
#[derive(Clone, Copy, Debug, PartialEq, Eq)]
pub struct Account {
    pub sub: Subscription,
    pub token: Address,
    pub grace_start_timestamp: Option<u64>,
    /// Billing period of the last recurring charge, counted from the epoch.
    pub charged_period: Option<u64>,
    /// Idempotency key of the last recurring charge that carried one.
    pub idempotency_key: Option<Bytes32>,
    pub usage_window_start: u64,
    pub usage_window_calls: u32,
    /// Charged in the current billing period.
    pub period_amount_charged: i128,
    /// The recurring amount was charged in the current billing period.
    pub period_interval_charged: bool,
}

impl Account {
    /// What holds of every account that the vault keeps.
    pub open spec fn wf(self) -> bool {
        let sub = self.sub;
        &&& sub.amount > 0
        &&& sub.interval_seconds > 0
        &&& sub.prepaid_balance >= 0
        &&& 0 <= sub.current_period_usage_units <= self.period_amount_charged
        &&& self.period_amount_charged <= sub.lifetime_charged
        &&& sub.lifetime_cap is Some ==> {
            &&& sub.lifetime_cap->0 > 0
            &&& sub.lifetime_charged <= sub.lifetime_cap->0
        }
        &&& sub.cap_reached() ==> sub.status is Cancelled
    }

    /// `party` is one of the two sides of the subscription.
    pub open spec fn has_party(self, party: Address) -> bool {
        party == self.sub.subscriber || party == self.sub.merchant
    }
}

/// Terms that a merchant offers to any subscriber.
#[derive(Clone, Copy, Debug, PartialEq, Eq)]
pub struct PlanTemplate {
    pub merchant: Address,
    pub amount: i128,
    pub interval_seconds: u64,
    pub usage_enabled: bool,
    pub lifetime_cap: Option<i128>,
}

/// One line of the billing history.
#[derive(Clone, Copy, Debug, PartialEq, Eq)]
pub struct BillingStatement {
    pub subscription_id: u32,
    pub amount: i128,
    pub merchant: Address,
    pub kind: BillingChargeKind,
    pub period_start: u64,
    pub period_end: u64,
}

/// Totals of one closed billing period.
#[derive(Clone, Copy, Debug, PartialEq, Eq)]
pub struct BillingPeriodSnapshot {
    pub subscription_id: u32,
    pub period_index: u32,
    pub period_start: u64,
    pub period_end: u64,
    pub total_amount_charged: i128,
    pub total_usage_units: i128,
    pub status_flags: u32,
}

/// A token movement that a call asks the host to carry out.
#[derive(Clone, Copy, Debug, PartialEq, Eq)]
pub enum TransferOrder {
    /// From the account into the vault.
    Inbound { account: Address, amount: i128 },
    /// Out of the vault to the account.
    Outbound { account: Address, amount: i128 },
}

/// A subscriber barred from new commitments.
#[derive(Debug, PartialEq, Eq)]
pub struct BlocklistEntry {
    pub subscriber: Address,
    pub added_by: Address,
    pub reason: Option<Vec<u8>>,
    pub added_at: u64,
}

/// Whether and when the next recurring charge falls due.
#[derive(Clone, Copy, Debug, PartialEq, Eq)]
pub struct NextChargeInfo {
    pub next_charge_timestamp: u64,
    pub is_charge_expected: bool,
}

/// State of the lifetime cap of a subscription.
#[derive(Clone, Copy, Debug, PartialEq, Eq)]
pub struct CapInfo {
    pub lifetime_cap: Option<i128>,
    pub lifetime_charged: i128,
    pub remaining_cap: Option<i128>,
    pub cap_reached: bool,
}

/// Outcome of one item of a batch. `error_code` is 0 on success.
#[derive(Clone, Copy, Debug, PartialEq, Eq)]
pub struct BatchChargeResult {
    pub success: bool,
    pub error_code: u32,
}

/// Settings of the contract as the admin exports them.
#[derive(Clone, Copy, Debug, PartialEq, Eq)]
pub struct ContractSnapshot {
    pub admin: Address,
    pub token: Address,
    pub min_topup: i128,
    pub next_id: u32,
    pub storage_version: u32,
}

/// One subscription as the admin exports it.
#[derive(Clone, Copy, Debug, PartialEq, Eq)]
pub struct SubscriptionSummary {
    pub subscription_id: u32,
    pub subscription: Subscription,
}

#[derive(Clone, Copy, Debug, PartialEq, Eq)]
pub struct SubscriptionChargedEvent {
    pub subscription_id: u32,
    pub merchant: Address,
    pub amount: i128,
    pub lifetime_charged: i128,
}

#[derive(Clone, Copy, Debug, PartialEq, Eq)]
pub struct LifetimeCapReachedEvent {
    pub subscription_id: u32,
    pub lifetime_cap: i128,
    pub lifetime_charged: i128,
    pub timestamp: u64,
}

#[derive(Clone, Copy, Debug, PartialEq, Eq)]
pub struct SubscriptionChargeFailedEvent {
    pub subscription_id: u32,
    pub merchant: Address,
    pub required_amount: i128,
    pub available_balance: i128,
    pub shortfall: i128,
    pub resulting_status: SubscriptionStatus,
    pub timestamp: u64,
}

/// Event of a metered charge, with the caller's reference text.
#[derive(Debug, PartialEq, Eq)]
pub struct UsageStatementEvent {
    pub subscription_id: u32,
    pub merchant: Address,
    pub usage_amount: i128,
    pub token: Address,
    pub timestamp: u64,
    pub reference: Vec<u8>,
}

/// A `UsageStatementEvent` with its text as a sequence.
pub struct UsageStatementView {
    pub subscription_id: u32,
    pub merchant: Address,
    pub usage_amount: i128,
    pub token: Address,
    pub timestamp: u64,
    pub reference: Seq<u8>,
}

impl View for UsageStatementEvent {
    type V = UsageStatementView;

    open spec fn view(&self) -> UsageStatementView {
        UsageStatementView {
            subscription_id: self.subscription_id,
            merchant: self.merchant,
            usage_amount: self.usage_amount,
            token: self.token,
            timestamp: self.timestamp,
            reference: self.reference@,
        }
    }
}

/// What a call announces to observers of the ledger.
#[derive(Debug, PartialEq, Eq)]
pub enum Event {
    Charged(SubscriptionChargedEvent),
    LifetimeCapReached(LifetimeCapReachedEvent),
    ChargeFailed(SubscriptionChargeFailedEvent),
    UsageStatement(UsageStatementEvent),
}

/// An `Event` with its text as a sequence.
pub enum EventView {
    Charged(SubscriptionChargedEvent),
    LifetimeCapReached(LifetimeCapReachedEvent),
    ChargeFailed(SubscriptionChargeFailedEvent),
    UsageStatement(UsageStatementView),
}

impl View for Event {
    type V = EventView;

    open spec fn view(&self) -> EventView {
        match *self {
            Event::Charged(e) => EventView::Charged(e),
            Event::LifetimeCapReached(e) => EventView::LifetimeCapReached(e),
            Event::ChargeFailed(e) => EventView::ChargeFailed(e),
            Event::UsageStatement(e) => EventView::UsageStatement(e@),
        }
    }
}

} // verus!
