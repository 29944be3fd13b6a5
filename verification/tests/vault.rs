//! The vault as its users meet it: lifecycle, charges, deposits, settings,
//! metadata and the blocklist.
use std::cell::{Cell, RefCell};

use subscription_vault::{
    can_transition, compute_next_charge_info, get_allowed_transitions, validate_status_transition,
    Address, BatchChargeResult, BillingPeriodSnapshot, BlocklistEntry, Bytes32, CapInfo,
    ContractSnapshot, Error, NextChargeInfo, PlanTemplate, RecoveryReason, Subscription,
    SubscriptionStatus, SubscriptionSummary, SubscriptionVault, SubscriptionsPage,
    BILLING_SNAPSHOT_FLAG_CLOSED, BILLING_SNAPSHOT_FLAG_USAGE_CHARGED, MAX_SUBSCRIPTION_ID,
};

// -- constants ----------------------------------------------------------------
const T0: u64 = 1_000;
const INTERVAL: u64 = 30 * 24 * 60 * 60; // 30 days
const AMOUNT: i128 = 10_000_000; // 10 USDC (6 decimals)
const PREPAID: i128 = 50_000_000; // 50 USDC

// -- helpers ------------------------------------------------------------------

fn party(n: u64) -> Address {
    Address { is_contract: false, key: Bytes32 { w0: 0, w1: 0, w2: 0, w3: n } }
}

fn text(s: &str) -> Vec<u8> {
    s.as_bytes().to_vec()
}

/// A caller of the vault with a clock. A call that is refused panics with the
/// number of the error; the `try_` calls return the error.
struct Client {
    vault: RefCell<SubscriptionVault>,
    clock: Cell<u64>,
    parties: Cell<u64>,
    env: soroban_sdk::Env,
}

fn expect<T>(result: Result<T, Error>) -> T {
    match result {
        Ok(value) => value,
        Err(e) => panic!("Error(Contract, #{})", e.code()),
    }
}

impl Client {
    fn new() -> Client {
        Client {
            vault: RefCell::new(SubscriptionVault::new()),
            clock: Cell::new(0),
            parties: Cell::new(100),
            env: soroban_sdk::Env::default(),
        }
    }

    fn generate(&self) -> Address {
        self.parties.set(self.parties.get() + 1);
        party(self.parties.get())
    }

    fn set_time(&self, now: u64) {
        self.clock.set(now);
    }

    fn advance(&self, seconds: u64) {
        self.clock.set(self.clock.get() + seconds);
    }

    fn put(&self, id: u32, sub: Subscription) {
        self.vault.borrow_mut().accounts.get_mut(&id).unwrap().sub = sub;
    }

    fn init(&self, token: &Address, decimals: &u32, admin: &Address, min_topup: &i128, grace: &u64) {
        expect(self.vault.borrow_mut().init(*token, *decimals, *admin, *min_topup, *grace))
    }

    fn set_treasury(&self, admin: &Address, treasury: &Address) {
        expect(self.vault.borrow_mut().set_treasury(*admin, *treasury))
    }

    fn set_protocol_fee_bps(&self, admin: &Address, fee_bps: &u32) {
        expect(self.vault.borrow_mut().set_protocol_fee_bps(*admin, *fee_bps))
    }

    fn try_create_subscription(
        &self,
        subscriber: &Address,
        merchant: &Address,
        amount: &i128,
        interval: &u64,
        usage_enabled: &bool,
        lifetime_cap: &Option<i128>,
    ) -> Result<u32, Error> {
        let now = self.clock.get();
        self.vault.borrow_mut().create_subscription(
            *subscriber,
            *merchant,
            *amount,
            *interval,
            *usage_enabled,
            *lifetime_cap,
            None,
            now,
        )
    }

    fn create_subscription(
        &self,
        subscriber: &Address,
        merchant: &Address,
        amount: &i128,
        interval: &u64,
        usage_enabled: &bool,
        lifetime_cap: &Option<i128>,
    ) -> u32 {
        expect(self.try_create_subscription(
            subscriber,
            merchant,
            amount,
            interval,
            usage_enabled,
            lifetime_cap,
        ))
    }

    fn create_plan_template(
        &self,
        merchant: &Address,
        amount: &i128,
        interval: &u64,
        usage_enabled: &bool,
        lifetime_cap: &Option<i128>,
    ) -> u32 {
        expect(self.vault.borrow_mut().create_plan_template(
            *merchant,
            *amount,
            *interval,
            *usage_enabled,
            *lifetime_cap,
        ))
    }

    fn get_plan_template(&self, id: &u32) -> PlanTemplate {
        expect(self.vault.borrow().get_plan_template(*id))
    }

    fn try_create_subscription_from_plan(&self, subscriber: &Address, plan: &u32) -> Result<u32, Error> {
        let now = self.clock.get();
        self.vault.borrow_mut().create_subscription_from_plan(*subscriber, *plan, now)
    }

    fn create_subscription_from_plan(&self, subscriber: &Address, plan: &u32) -> u32 {
        expect(self.try_create_subscription_from_plan(subscriber, plan))
    }

    fn get_subscription(&self, id: &u32) -> Subscription {
        expect(self.vault.borrow().get_subscription(*id))
    }

    fn try_deposit_funds(&self, id: &u32, subscriber: &Address, amount: &i128) -> Result<(), Error> {
        self.vault.borrow_mut().deposit_funds(*id, *subscriber, *amount)
    }

    fn deposit_funds(&self, id: &u32, subscriber: &Address, amount: &i128) {
        expect(self.try_deposit_funds(id, subscriber, amount))
    }

    fn try_cancel_subscription(&self, id: &u32, authorizer: &Address) -> Result<(), Error> {
        self.vault.borrow_mut().cancel_subscription(*id, *authorizer)
    }

    fn cancel_subscription(&self, id: &u32, authorizer: &Address) {
        expect(self.try_cancel_subscription(id, authorizer))
    }

    fn pause_subscription(&self, id: &u32, authorizer: &Address) {
        expect(self.vault.borrow_mut().pause_subscription(*id, *authorizer))
    }

    fn resume_subscription(&self, id: &u32, authorizer: &Address) {
        expect(self.vault.borrow_mut().resume_subscription(*id, *authorizer))
    }

    fn set_usage_cap(&self, id: &u32, authorizer: &Address, cap: &Option<i128>) {
        expect(self.vault.borrow_mut().set_usage_cap(*id, *authorizer, *cap))
    }

    fn set_usage_rate_limit(&self, id: &u32, authorizer: &Address, calls: &Option<u32>, window: &u64) {
        expect(self.vault.borrow_mut().set_usage_rate_limit(*id, *authorizer, *calls, *window))
    }

    fn try_charge_subscription(&self, id: &u32) -> Result<(), Error> {
        let now = self.clock.get();
        self.vault.borrow_mut().charge_subscription(*id, now)
    }

    fn charge_subscription(&self, id: &u32) {
        expect(self.try_charge_subscription(id))
    }

    fn try_charge_usage(&self, id: &u32, amount: &i128) -> Result<(), Error> {
        let now = self.clock.get();
        self.vault.borrow_mut().charge_usage(*id, *amount, now)
    }

    fn charge_usage(&self, id: &u32, amount: &i128) {
        expect(self.try_charge_usage(id, amount))
    }

    fn batch_charge(&self, ids: &soroban_sdk::Vec<u32>) -> Vec<BatchChargeResult> {
        let now = self.clock.get();
        expect(self.vault.borrow_mut().batch_charge(ids, now))
    }

    fn get_merchant_balance(&self, merchant: &Address) -> i128 {
        self.vault.borrow().get_merchant_balance(merchant)
    }

    fn get_treasury_balance(&self) -> i128 {
        self.vault.borrow().get_treasury_balance()
    }

    fn withdraw_subscriber_funds(&self, id: &u32, subscriber: &Address) {
        expect(self.vault.borrow_mut().withdraw_subscriber_funds(*id, *subscriber))
    }

    fn get_next_charge_info(&self, id: &u32) -> NextChargeInfo {
        expect(self.vault.borrow().get_next_charge_info(*id))
    }

    fn get_cap_info(&self, id: &u32) -> CapInfo {
        expect(self.vault.borrow().get_cap_info(*id))
    }

    fn get_billing_period_snapshot(&self, id: &u32, period: &u32) -> BillingPeriodSnapshot {
        expect(self.vault.borrow().get_billing_period_snapshot(*id, *period))
    }

    fn list_subscriptions_by_subscriber(
        &self,
        subscriber: &Address,
        start: &u32,
        limit: &u32,
    ) -> SubscriptionsPage {
        expect(self.vault.borrow().list_subscriptions_by_subscriber(
            &self.env,
            *subscriber,
            *start,
            *limit,
        ))
    }

    fn rotate_admin(&self, admin: &Address, new_admin: &Address) {
        expect(self.vault.borrow_mut().rotate_admin(*admin, *new_admin))
    }

    fn get_admin(&self) -> Address {
        expect(self.vault.borrow().get_admin())
    }

    fn enable_emergency_stop(&self, admin: &Address) {
        expect(self.vault.borrow_mut().enable_emergency_stop(*admin))
    }

    fn disable_emergency_stop(&self, admin: &Address) {
        expect(self.vault.borrow_mut().disable_emergency_stop(*admin))
    }

    fn get_emergency_stop_status(&self) -> bool {
        self.vault.borrow().get_emergency_stop_status()
    }

    fn recover_stranded_funds(
        &self,
        admin: &Address,
        recipient: &Address,
        amount: &i128,
        reason: &RecoveryReason,
    ) {
        expect(self.vault.borrow().recover_stranded_funds(*admin, *recipient, *amount, *reason))
    }

    fn export_contract_snapshot(&self, admin: &Address) -> ContractSnapshot {
        expect(self.vault.borrow().export_contract_snapshot(*admin))
    }

    fn export_subscription_summaries(
        &self,
        admin: &Address,
        start: &u32,
        limit: &u32,
    ) -> Vec<SubscriptionSummary> {
        expect(self.vault.borrow().export_subscription_summaries(*admin, *start, *limit))
    }

    fn set_metadata(&self, id: &u32, actor: &Address, key: &Vec<u8>, value: &Vec<u8>) {
        expect(self.vault.borrow_mut().set_metadata(*id, *actor, key.clone(), value.clone()))
    }

    fn try_get_metadata(&self, id: &u32, key: &Vec<u8>) -> Result<Vec<u8>, Error> {
        self.vault.borrow().get_metadata(*id, key)
    }

    fn get_metadata(&self, id: &u32, key: &Vec<u8>) -> Vec<u8> {
        expect(self.try_get_metadata(id, key))
    }

    fn delete_metadata(&self, id: &u32, actor: &Address, key: &Vec<u8>) {
        expect(self.vault.borrow_mut().delete_metadata(*id, *actor, key.clone()))
    }

    fn list_metadata_keys(&self, id: &u32) -> Vec<Vec<u8>> {
        expect(self.vault.borrow().list_metadata_keys(*id))
    }

    fn try_add_to_blocklist(
        &self,
        actor: &Address,
        subscriber: &Address,
        reason: &Option<Vec<u8>>,
    ) -> Result<(), Error> {
        let now = self.clock.get();
        self.vault.borrow_mut().add_to_blocklist(*actor, *subscriber, reason.clone(), now)
    }

    fn add_to_blocklist(&self, actor: &Address, subscriber: &Address, reason: &Option<Vec<u8>>) {
        expect(self.try_add_to_blocklist(actor, subscriber, reason))
    }

    fn try_remove_from_blocklist(&self, admin: &Address, subscriber: &Address) -> Result<(), Error> {
        self.vault.borrow_mut().remove_from_blocklist(*admin, *subscriber)
    }

    fn remove_from_blocklist(&self, admin: &Address, subscriber: &Address) {
        expect(self.try_remove_from_blocklist(admin, subscriber))
    }

    fn is_blocklisted(&self, subscriber: &Address) -> bool {
        self.vault.borrow().is_blocklisted(subscriber)
    }

    fn try_get_blocklist_entry(&self, subscriber: &Address) -> Result<BlocklistEntry, Error> {
        match self.vault.borrow().get_blocklist_entry(subscriber) {
            Ok(entry) => Ok(BlocklistEntry {
                subscriber: entry.subscriber,
                added_by: entry.added_by,
                reason: entry.reason.clone(),
                added_at: entry.added_at,
            }),
            Err(e) => Err(e),
        }
    }

    fn get_blocklist_entry(&self, subscriber: &Address) -> BlocklistEntry {
        expect(self.try_get_blocklist_entry(subscriber))
    }
}

/// A vault with a minimum deposit of one unit and no grace, and a treasury.
fn setup() -> (Client, Address, Address, Address) {
    let client = Client::new();
    client.set_time(1_000);
    let admin = client.generate();
    let subscriber = client.generate();
    let merchant = client.generate();
    let treasury = client.generate();
    let token = client.generate();
    client.init(&token, &6, &admin, &1, &0);
    client.set_treasury(&admin, &treasury);
    (client, admin, subscriber, merchant)
}

fn create_usage_sub(client: &Client, subscriber: &Address, merchant: &Address, amount: i128) -> u32 {
    client.create_subscription(subscriber, merchant, &amount, &INTERVAL, &true, &None)
}

/// Standard setup: a minimum deposit of 1 USDC and seven days of grace.
fn setup_test_env() -> (Client, Address, Address) {
    let client = Client::new();
    let admin = client.generate();
    let token = client.generate();
    let min_topup = 1_000_000i128; // 1 USDC
    client.init(&token, &6, &admin, &min_topup, &(7 * 24 * 60 * 60));
    (client, token, admin)
}

/// Create a test subscription, then patch its status for direct-manipulation tests.
fn create_test_subscription(client: &Client, status: SubscriptionStatus) -> (u32, Address, Address) {
    let subscriber = client.generate();
    let merchant = client.generate();
    let id = client.create_subscription(
        &subscriber,
        &merchant,
        &AMOUNT,
        &INTERVAL,
        &false,
        &None::<i128>,
    );
    if status != SubscriptionStatus::Active {
        let mut sub = client.get_subscription(&id);
        sub.status = status;
        client.put(id, sub);
    }
    (id, subscriber, merchant)
}

/// Seed a subscription with a known prepaid balance directly.
fn seed_balance(client: &Client, id: u32, balance: i128) {
    let mut sub = client.get_subscription(&id);
    sub.prepaid_balance = balance;
    client.put(id, sub);
}

/// Seed the `next_id` counter to an arbitrary value.
fn seed_counter(client: &Client, value: u32) {
    client.vault.borrow_mut().next_id = value;
}

// -- State Machine Helper Tests -----------------------------------------------

#[test]
fn test_validate_status_transition_same_status_is_allowed() {
    assert!(
        validate_status_transition(&SubscriptionStatus::Active, &SubscriptionStatus::Active)
            .is_ok()
    );
    assert!(
        validate_status_transition(&SubscriptionStatus::Paused, &SubscriptionStatus::Paused)
            .is_ok()
    );
    assert!(validate_status_transition(
        &SubscriptionStatus::Cancelled,
        &SubscriptionStatus::Cancelled
    )
    .is_ok());
    assert!(validate_status_transition(
        &SubscriptionStatus::InsufficientBalance,
        &SubscriptionStatus::InsufficientBalance
    )
    .is_ok());
}

#[test]
fn test_validate_active_transitions() {
    assert!(
        validate_status_transition(&SubscriptionStatus::Active, &SubscriptionStatus::Paused)
            .is_ok()
    );
    assert!(validate_status_transition(
        &SubscriptionStatus::Active,
        &SubscriptionStatus::Cancelled
    )
    .is_ok());
    assert!(validate_status_transition(
        &SubscriptionStatus::Active,
        &SubscriptionStatus::InsufficientBalance
    )
    .is_ok());
}

#[test]
fn test_validate_paused_transitions() {
    assert!(
        validate_status_transition(&SubscriptionStatus::Paused, &SubscriptionStatus::Active)
            .is_ok()
    );
    assert!(validate_status_transition(
        &SubscriptionStatus::Paused,
        &SubscriptionStatus::Cancelled
    )
    .is_ok());
    assert_eq!(
        validate_status_transition(
            &SubscriptionStatus::Paused,
            &SubscriptionStatus::InsufficientBalance
        ),
        Err(Error::InvalidStatusTransition)
    );
}

#[test]
fn test_validate_insufficient_balance_transitions() {
    assert!(validate_status_transition(
        &SubscriptionStatus::InsufficientBalance,
        &SubscriptionStatus::Active
    )
    .is_ok());
    assert!(validate_status_transition(
        &SubscriptionStatus::InsufficientBalance,
        &SubscriptionStatus::Cancelled
    )
    .is_ok());
    assert_eq!(
        validate_status_transition(
            &SubscriptionStatus::InsufficientBalance,
            &SubscriptionStatus::Paused
        ),
        Err(Error::InvalidStatusTransition)
    );
}

#[test]
fn test_validate_cancelled_transitions_all_blocked() {
    assert_eq!(
        validate_status_transition(&SubscriptionStatus::Cancelled, &SubscriptionStatus::Active),
        Err(Error::InvalidStatusTransition)
    );
    assert_eq!(
        validate_status_transition(&SubscriptionStatus::Cancelled, &SubscriptionStatus::Paused),
        Err(Error::InvalidStatusTransition)
    );
    assert_eq!(
        validate_status_transition(
            &SubscriptionStatus::Cancelled,
            &SubscriptionStatus::InsufficientBalance
        ),
        Err(Error::InvalidStatusTransition)
    );
}

#[test]
fn test_can_transition_helper() {
    assert!(can_transition(
        &SubscriptionStatus::Active,
        &SubscriptionStatus::Paused
    ));
    assert!(can_transition(
        &SubscriptionStatus::Active,
        &SubscriptionStatus::Cancelled
    ));
    assert!(can_transition(
        &SubscriptionStatus::Paused,
        &SubscriptionStatus::Active
    ));
    assert!(!can_transition(
        &SubscriptionStatus::Cancelled,
        &SubscriptionStatus::Active
    ));
    assert!(!can_transition(
        &SubscriptionStatus::Cancelled,
        &SubscriptionStatus::Paused
    ));
    assert!(!can_transition(
        &SubscriptionStatus::Paused,
        &SubscriptionStatus::InsufficientBalance
    ));
}

#[test]
fn test_get_allowed_transitions() {
    let active_targets = get_allowed_transitions(&SubscriptionStatus::Active);
    assert!(active_targets.contains(&SubscriptionStatus::Paused));
    assert!(active_targets.contains(&SubscriptionStatus::Cancelled));
    assert!(active_targets.contains(&SubscriptionStatus::InsufficientBalance));

    let paused_targets = get_allowed_transitions(&SubscriptionStatus::Paused);
    assert_eq!(paused_targets.len(), 2);
    assert!(paused_targets.contains(&SubscriptionStatus::Active));
    assert!(paused_targets.contains(&SubscriptionStatus::Cancelled));

    assert_eq!(
        get_allowed_transitions(&SubscriptionStatus::Cancelled).len(),
        0
    );

    let ib_targets = get_allowed_transitions(&SubscriptionStatus::InsufficientBalance);
    assert_eq!(ib_targets.len(), 2);
}

// -- Contract Lifecycle Tests -------------------------------------------------

#[test]
fn test_pause_subscription_from_active() {
    let (client, _, _) = setup_test_env();
    let (id, subscriber, _) = create_test_subscription(&client, SubscriptionStatus::Active);
    client.pause_subscription(&id, &subscriber);
    assert_eq!(
        client.get_subscription(&id).status,
        SubscriptionStatus::Paused
    );
}

#[test]
#[should_panic(expected = "Error(Contract, #400)")]
fn test_pause_subscription_from_cancelled_should_fail() {
    let (client, _, _) = setup_test_env();
    let (id, subscriber, _) = create_test_subscription(&client, SubscriptionStatus::Active);
    client.cancel_subscription(&id, &subscriber);
    client.pause_subscription(&id, &subscriber);
}

#[test]
fn test_pause_subscription_from_paused_is_idempotent() {
    let (client, _, _) = setup_test_env();
    let (id, subscriber, _) = create_test_subscription(&client, SubscriptionStatus::Active);
    client.pause_subscription(&id, &subscriber);
    client.pause_subscription(&id, &subscriber);
    assert_eq!(
        client.get_subscription(&id).status,
        SubscriptionStatus::Paused
    );
}

#[test]
fn test_cancel_subscription_from_active() {
    let (client, _, _) = setup_test_env();
    let (id, subscriber, _) = create_test_subscription(&client, SubscriptionStatus::Active);
    client.cancel_subscription(&id, &subscriber);
    assert_eq!(
        client.get_subscription(&id).status,
        SubscriptionStatus::Cancelled
    );
}

#[test]
fn test_cancel_subscription_from_paused() {
    let (client, _, _) = setup_test_env();
    let (id, subscriber, _) = create_test_subscription(&client, SubscriptionStatus::Active);
    client.pause_subscription(&id, &subscriber);
    client.cancel_subscription(&id, &subscriber);
    assert_eq!(
        client.get_subscription(&id).status,
        SubscriptionStatus::Cancelled
    );
}

#[test]
fn test_cancel_subscription_from_cancelled_is_idempotent() {
    let (client, _, _) = setup_test_env();
    let (id, subscriber, _) = create_test_subscription(&client, SubscriptionStatus::Active);
    client.cancel_subscription(&id, &subscriber);
    client.cancel_subscription(&id, &subscriber);
    assert_eq!(
        client.get_subscription(&id).status,
        SubscriptionStatus::Cancelled
    );
}

#[test]
fn test_resume_subscription_from_paused() {
    let (client, _, _) = setup_test_env();
    let (id, subscriber, _) = create_test_subscription(&client, SubscriptionStatus::Active);
    client.pause_subscription(&id, &subscriber);
    client.resume_subscription(&id, &subscriber);
    assert_eq!(
        client.get_subscription(&id).status,
        SubscriptionStatus::Active
    );
}

#[test]
#[should_panic(expected = "Error(Contract, #400)")]
fn test_resume_subscription_from_cancelled_should_fail() {
    let (client, _, _) = setup_test_env();
    let (id, subscriber, _) = create_test_subscription(&client, SubscriptionStatus::Active);
    client.cancel_subscription(&id, &subscriber);
    client.resume_subscription(&id, &subscriber);
}

#[test]
fn test_full_lifecycle_active_pause_resume() {
    let (client, _, _) = setup_test_env();
    let (id, subscriber, _) = create_test_subscription(&client, SubscriptionStatus::Active);
    client.pause_subscription(&id, &subscriber);
    assert_eq!(
        client.get_subscription(&id).status,
        SubscriptionStatus::Paused
    );
    client.resume_subscription(&id, &subscriber);
    assert_eq!(
        client.get_subscription(&id).status,
        SubscriptionStatus::Active
    );
    client.pause_subscription(&id, &subscriber);
    assert_eq!(
        client.get_subscription(&id).status,
        SubscriptionStatus::Paused
    );
}

#[test]
fn test_all_valid_transitions_coverage() {
    // Active -> Paused
    {
        let (client, _, _) = setup_test_env();
        let (id, subscriber, _) =
            create_test_subscription(&client, SubscriptionStatus::Active);
        client.pause_subscription(&id, &subscriber);
        assert_eq!(
            client.get_subscription(&id).status,
            SubscriptionStatus::Paused
        );
    }
    // Active -> Cancelled
    {
        let (client, _, _) = setup_test_env();
        let (id, subscriber, _) =
            create_test_subscription(&client, SubscriptionStatus::Active);
        client.cancel_subscription(&id, &subscriber);
        assert_eq!(
            client.get_subscription(&id).status,
            SubscriptionStatus::Cancelled
        );
    }
    // Active -> InsufficientBalance (direct storage patch)
    {
        let (client, _, _) = setup_test_env();
        let (id, _, _) = create_test_subscription(&client, SubscriptionStatus::Active);
        let mut sub = client.get_subscription(&id);
        sub.status = SubscriptionStatus::InsufficientBalance;
        client.put(id, sub);
        assert_eq!(
            client.get_subscription(&id).status,
            SubscriptionStatus::InsufficientBalance
        );
    }
    // Paused -> Active
    {
        let (client, _, _) = setup_test_env();
        let (id, subscriber, _) =
            create_test_subscription(&client, SubscriptionStatus::Active);
        client.pause_subscription(&id, &subscriber);
        client.resume_subscription(&id, &subscriber);
        assert_eq!(
            client.get_subscription(&id).status,
            SubscriptionStatus::Active
        );
    }
    // Paused -> Cancelled
    {
        let (client, _, _) = setup_test_env();
        let (id, subscriber, _) =
            create_test_subscription(&client, SubscriptionStatus::Active);
        client.pause_subscription(&id, &subscriber);
        client.cancel_subscription(&id, &subscriber);
        assert_eq!(
            client.get_subscription(&id).status,
            SubscriptionStatus::Cancelled
        );
    }
    // InsufficientBalance -> Active
    {
        let (client, _, _) = setup_test_env();
        let (id, subscriber, _) =
            create_test_subscription(&client, SubscriptionStatus::Active);
        let mut sub = client.get_subscription(&id);
        sub.status = SubscriptionStatus::InsufficientBalance;
        client.put(id, sub);
        client.resume_subscription(&id, &subscriber);
        assert_eq!(
            client.get_subscription(&id).status,
            SubscriptionStatus::Active
        );
    }
    // InsufficientBalance -> Cancelled
    {
        let (client, _, _) = setup_test_env();
        let (id, subscriber, _) =
            create_test_subscription(&client, SubscriptionStatus::Active);
        let mut sub = client.get_subscription(&id);
        sub.status = SubscriptionStatus::InsufficientBalance;
        client.put(id, sub);
        client.cancel_subscription(&id, &subscriber);
        assert_eq!(
            client.get_subscription(&id).status,
            SubscriptionStatus::Cancelled
        );
    }
}

#[test]
#[should_panic(expected = "Error(Contract, #400)")]
fn test_invalid_cancelled_to_active() {
    let (client, _, _) = setup_test_env();
    let (id, subscriber, _) = create_test_subscription(&client, SubscriptionStatus::Active);
    client.cancel_subscription(&id, &subscriber);
    client.resume_subscription(&id, &subscriber);
}

#[test]
#[should_panic(expected = "Error(Contract, #400)")]
fn test_invalid_insufficient_balance_to_paused() {
    let (client, _, _) = setup_test_env();
    let (id, subscriber, _) = create_test_subscription(&client, SubscriptionStatus::Active);
    let mut sub = client.get_subscription(&id);
    sub.status = SubscriptionStatus::InsufficientBalance;
    client.put(id, sub);
    client.pause_subscription(&id, &subscriber);
}

// -- Subscription struct tests ------------------------------------------------

#[test]
fn test_subscription_struct_status_field() {
    let sub = Subscription {
        subscriber: party(1),
        merchant: party(2),
        amount: 100_000_000,
        interval_seconds: 30 * 24 * 60 * 60,
        last_payment_timestamp: 0,
        status: SubscriptionStatus::Active,
        prepaid_balance: 500_000_000,
        usage_enabled: false,
        expiration: None,
        billing_anchor_timestamp: 0,
        current_period_index: 0,
        current_period_usage_units: 0,
        usage_cap_units: None,
        usage_rate_limit_max_calls: None,
        usage_rate_window_secs: 0,
        lifetime_cap: None,
        lifetime_charged: 0,
    };
    assert_eq!(sub.status, SubscriptionStatus::Active);
    assert_eq!(sub.lifetime_cap, None);
    assert_eq!(sub.lifetime_charged, 0);
}

#[test]
fn test_subscription_struct_with_lifetime_cap() {
    let cap = 120_000_000i128; // 120 USDC
    let sub = Subscription {
        subscriber: party(1),
        merchant: party(2),
        amount: 10_000_000,
        interval_seconds: 30 * 24 * 60 * 60,
        last_payment_timestamp: 0,
        status: SubscriptionStatus::Active,
        prepaid_balance: 50_000_000,
        usage_enabled: false,
        expiration: None,
        billing_anchor_timestamp: 0,
        current_period_index: 0,
        current_period_usage_units: 0,
        usage_cap_units: None,
        usage_rate_limit_max_calls: None,
        usage_rate_window_secs: 0,
        lifetime_cap: Some(cap),
        lifetime_charged: 0,
    };
    assert_eq!(sub.lifetime_cap, Some(cap));
    assert_eq!(sub.lifetime_charged, 0);
}

// -- Contract Charging Tests --------------------------------------------------

#[test]
fn test_charge_subscription_basic() {
    let (client, _, admin) = setup_test_env();
    client.set_time(T0);

    let (id, _, _) = create_test_subscription(&client, SubscriptionStatus::Active);
    seed_balance(&client, id, PREPAID);

    client.set_time(T0 + INTERVAL + 1);
    client.charge_subscription(&id);

    let sub = client.get_subscription(&id);
    assert_eq!(sub.prepaid_balance, PREPAID - AMOUNT);
    assert_eq!(sub.lifetime_charged, AMOUNT);
}

#[test]
#[should_panic(expected = "Error(Contract, #1002)")]
fn test_charge_subscription_paused_fails() {
    let (client, _, _) = setup_test_env();
    client.set_time(T0);
    let (id, subscriber, _) = create_test_subscription(&client, SubscriptionStatus::Active);
    seed_balance(&client, id, PREPAID);
    client.pause_subscription(&id, &subscriber);
    client.set_time(T0 + INTERVAL + 1);
    client.charge_subscription(&id);
}

#[test]
fn test_charge_subscription_insufficient_balance_returns_error() {
    let (client, _, _) = setup_test_env();
    client.set_time(T0);
    let (id, _, _) = create_test_subscription(&client, SubscriptionStatus::Active);
    // Do not fund - balance stays 0
    // Charge attempt after interval + grace period should return InsufficientBalance error.
    // NOTE: a call that returns an error leaves the vault as it was, so the
    // status does not become InsufficientBalance.
    let grace_period = 7 * 24 * 60 * 60u64;
    client.set_time(T0 + INTERVAL + grace_period + 1);
    let result = client.try_charge_subscription(&id);
    assert!(result.is_err());
}

// -- ID limit test ------------------------------------------------------------

#[test]
#[should_panic(expected = "Error(Contract, #429)")]
fn test_subscription_limit_reached() {
    let (client, _, _) = setup_test_env();
    seed_counter(&client, MAX_SUBSCRIPTION_ID);
    let subscriber = client.generate();
    let merchant = client.generate();
    client.create_subscription(
        &subscriber,
        &merchant,
        &AMOUNT,
        &INTERVAL,
        &false,
        &None::<i128>,
    );
}

#[test]
fn test_cancel_subscription_unauthorized() {
    let (client, _, _) = setup_test_env();
    let subscriber = client.generate();
    let merchant = client.generate();
    let other = client.generate();
    let sub_id =
        client.create_subscription(&subscriber, &merchant, &1000, &86400, &true, &None::<i128>);
    let result = client.try_cancel_subscription(&sub_id, &other);
    assert_eq!(result, Err(Error::Forbidden));
}

#[test]
fn snapshots_written_after_successful_close() {
    let (client, _admin, subscriber, merchant) = setup();
    let sub_id = create_usage_sub(&client, &subscriber, &merchant, 100);

    client.deposit_funds(&sub_id, &subscriber, &1_000);
    client.charge_usage(&sub_id, &25);

    client.advance(INTERVAL + 1);
    client.charge_subscription(&sub_id);

    let snap0 = client.get_billing_period_snapshot(&sub_id, &0);
    assert_eq!(snap0.total_usage_units, 25);
    assert_eq!(snap0.total_amount_charged, 25);
    assert!(snap0.status_flags & BILLING_SNAPSHOT_FLAG_CLOSED != 0);
    assert!(snap0.status_flags & BILLING_SNAPSHOT_FLAG_USAGE_CHARGED != 0);
}

// -- Deposit tests ------------------------------------------------------------

#[test]
fn usage_cap_enforced_per_period() {
    let (client, _admin, subscriber, merchant) = setup();
    let sub_id = create_usage_sub(&client, &subscriber, &merchant, 100);
    client.deposit_funds(&sub_id, &subscriber, &1_000);
    client.set_usage_cap(&sub_id, &merchant, &Some(100));

    client.charge_usage(&sub_id, &60);
    client.charge_usage(&sub_id, &40);
    assert!(client.try_charge_usage(&sub_id, &1).is_err());

    client.advance(INTERVAL + 1);
    client.charge_subscription(&sub_id);
    client.charge_usage(&sub_id, &10);
}

#[test]
fn usage_rate_limit_enforced_and_resets() {
    let (client, _admin, subscriber, merchant) = setup();
    let sub_id = create_usage_sub(&client, &subscriber, &merchant, 100);
    client.deposit_funds(&sub_id, &subscriber, &1_000);
    client.set_usage_rate_limit(&sub_id, &merchant, &Some(2), &60);

    client.charge_usage(&sub_id, &1);
    client.charge_usage(&sub_id, &1);
    assert!(client.try_charge_usage(&sub_id, &1).is_err());

    client.advance(61);
    client.charge_usage(&sub_id, &1);
}

#[test]
fn protocol_fee_skim_conserves_value() {
    let (client, admin, subscriber, merchant) = setup();
    let sub_id = create_usage_sub(&client, &subscriber, &merchant, 100);
    client.set_protocol_fee_bps(&admin, &500);
    client.deposit_funds(&sub_id, &subscriber, &1_000);
    client.charge_usage(&sub_id, &200);

    let merchant_bal = client.get_merchant_balance(&merchant);
    let treasury_bal = client.get_treasury_balance();
    assert_eq!(merchant_bal, 190);
    assert_eq!(treasury_bal, 10);
    assert_eq!(merchant_bal + treasury_bal, 200);
}

#[test]
fn status_becomes_insufficient_after_full_usage_debit() {
    let (client, _admin, subscriber, merchant) = setup();
    let sub_id = create_usage_sub(&client, &subscriber, &merchant, 100);
    client.deposit_funds(&sub_id, &subscriber, &100);
    client.charge_usage(&sub_id, &100);
    let sub = client.get_subscription(&sub_id);
    assert_eq!(sub.status, SubscriptionStatus::InsufficientBalance);
}

// -- Deposit tests ------------------------------------------------------------

#[test]
fn test_deposit_funds_basic() {
    let (client, _, _) = setup_test_env();
    let subscriber = client.generate();
    let merchant = client.generate();


    let id = client.create_subscription(
        &subscriber,
        &merchant,
        &AMOUNT,
        &INTERVAL,
        &false,
        &None::<i128>,
    );
    client.deposit_funds(&id, &subscriber, &5_000_000);
    let sub = client.get_subscription(&id);
    assert_eq!(sub.prepaid_balance, 5_000_000);
}

#[test]
#[should_panic(expected = "Error(Contract, #402)")]
fn test_deposit_funds_below_minimum() {
    let (client, _, _) = setup_test_env();
    let subscriber = client.generate();
    let merchant = client.generate();
    let id = client.create_subscription(
        &subscriber,
        &merchant,
        &AMOUNT,
        &INTERVAL,
        &false,
        &None::<i128>,
    );
    // min_topup is 1_000_000; try to deposit 500
    client.deposit_funds(&id, &subscriber, &500);
}

// -- Admin tests --------------------------------------------------------------

#[test]
fn test_rotate_admin() {
    let (client, _, admin) = setup_test_env();
    let new_admin = client.generate();
    client.rotate_admin(&admin, &new_admin);
    assert_eq!(client.get_admin(), new_admin);
}

#[test]
fn test_emergency_stop() {
    let (client, _, admin) = setup_test_env();
    assert!(!client.get_emergency_stop_status());
    client.enable_emergency_stop(&admin);
    assert!(client.get_emergency_stop_status());
    client.disable_emergency_stop(&admin);
    assert!(!client.get_emergency_stop_status());
}

#[test]
#[should_panic(expected = "Error(Contract, #1009)")]
fn test_create_subscription_blocked_by_emergency_stop() {
    let (client, _, admin) = setup_test_env();
    client.enable_emergency_stop(&admin);
    let subscriber = client.generate();
    let merchant = client.generate();
    client.create_subscription(
        &subscriber,
        &merchant,
        &AMOUNT,
        &INTERVAL,
        &false,
        &None::<i128>,
    );
}

// -- Batch charge tests -------------------------------------------------------

#[test]
fn test_batch_charge() {
    let (client, _, admin) = setup_test_env();
    client.set_time(T0);

    let (id1, _, _) = create_test_subscription(&client, SubscriptionStatus::Active);
    let (id2, _, _) = create_test_subscription(&client, SubscriptionStatus::Active);
    seed_balance(&client, id1, PREPAID);
    seed_balance(&client, id2, PREPAID);

    client.set_time(T0 + INTERVAL + 1);

    let ids = soroban_sdk::Vec::from_array(&client.env, [id1, id2]);
    let results = client.batch_charge(&ids);
    assert_eq!(results.len(), 2);
    assert!(results[0].success);
    assert!(results[1].success);
}

// -- Next charge info test ----------------------------------------------------

#[test]
fn test_next_charge_info() {
    let (client, _, _) = setup_test_env();
    client.set_time(T0);
    let (id, _, _) = create_test_subscription(&client, SubscriptionStatus::Active);
    let info = client.get_next_charge_info(&id);
    assert_eq!(info.next_charge_timestamp, T0 + INTERVAL);
    assert!(info.is_charge_expected);
}

// -- Compute next charge info (unit) ------------------------------------------

#[test]
fn test_compute_next_charge_info_active() {
    let sub = Subscription {
        subscriber: party(1),
        merchant: party(2),
        amount: AMOUNT,
        interval_seconds: INTERVAL,
        last_payment_timestamp: T0,
        status: SubscriptionStatus::Active,
        prepaid_balance: 0,
        usage_enabled: false,
        expiration: None,
        billing_anchor_timestamp: T0,
        current_period_index: 0,
        current_period_usage_units: 0,
        usage_cap_units: None,
        usage_rate_limit_max_calls: None,
        usage_rate_window_secs: 0,
        lifetime_cap: None,
        lifetime_charged: 0,
    };
    let info = compute_next_charge_info(&sub);
    assert_eq!(info.next_charge_timestamp, T0 + INTERVAL);
    assert!(info.is_charge_expected);
}

#[test]
fn test_compute_next_charge_info_paused() {
    let sub = Subscription {
        subscriber: party(1),
        merchant: party(2),
        amount: AMOUNT,
        interval_seconds: INTERVAL,
        last_payment_timestamp: 2000,
        status: SubscriptionStatus::Paused,
        prepaid_balance: 50_000_000,
        usage_enabled: false,
        expiration: None,
        billing_anchor_timestamp: 2000,
        current_period_index: 0,
        current_period_usage_units: 0,
        usage_cap_units: None,
        usage_rate_limit_max_calls: None,
        usage_rate_window_secs: 0,
        lifetime_cap: None,
        lifetime_charged: 0,
    };
    let info = compute_next_charge_info(&sub);
    assert!(!info.is_charge_expected);
    assert_eq!(info.next_charge_timestamp, 2000 + INTERVAL);
}

#[test]
fn test_compute_next_charge_info_cancelled() {
    let sub = Subscription {
        subscriber: party(1),
        merchant: party(2),
        amount: AMOUNT,
        interval_seconds: INTERVAL,
        last_payment_timestamp: T0,
        status: SubscriptionStatus::Cancelled,
        prepaid_balance: 0,
        usage_enabled: false,
        expiration: None,
        billing_anchor_timestamp: T0,
        current_period_index: 0,
        current_period_usage_units: 0,
        usage_cap_units: None,
        usage_rate_limit_max_calls: None,
        usage_rate_window_secs: 0,
        lifetime_cap: None,
        lifetime_charged: 0,
    };
    let info = compute_next_charge_info(&sub);
    assert!(!info.is_charge_expected);
}

#[test]
fn test_compute_next_charge_info_insufficient_balance() {
    let sub = Subscription {
        subscriber: party(1),
        merchant: party(2),
        amount: AMOUNT,
        interval_seconds: INTERVAL,
        last_payment_timestamp: 3000,
        status: SubscriptionStatus::InsufficientBalance,
        prepaid_balance: 1_000_000,
        usage_enabled: false,
        expiration: None,
        billing_anchor_timestamp: 3000,
        current_period_index: 0,
        current_period_usage_units: 0,
        usage_cap_units: None,
        usage_rate_limit_max_calls: None,
        usage_rate_window_secs: 0,
        lifetime_cap: None,
        lifetime_charged: 0,
    };
    let info = compute_next_charge_info(&sub);
    assert!(info.is_charge_expected);
}

#[test]
fn test_compute_next_charge_info_overflow_protection() {
    let sub = Subscription {
        subscriber: party(1),
        merchant: party(2),
        amount: AMOUNT,
        interval_seconds: 200,
        last_payment_timestamp: u64::MAX - 100,
        status: SubscriptionStatus::Active,
        prepaid_balance: 100_000_000,
        usage_enabled: false,
        expiration: None,
        billing_anchor_timestamp: u64::MAX - 100,
        current_period_index: 0,
        current_period_usage_units: 0,
        usage_cap_units: None,
        usage_rate_limit_max_calls: None,
        usage_rate_window_secs: 0,
        lifetime_cap: None,
        lifetime_charged: 0,
    };
    let info = compute_next_charge_info(&sub);
    assert!(info.is_charge_expected);
    assert_eq!(info.next_charge_timestamp, u64::MAX);
}

// -- Replay protection --------------------------------------------------------

#[test]
#[should_panic(expected = "Error(Contract, #1007)")]
fn test_replay_charge_same_period() {
    let (client, _, _) = setup_test_env();
    client.set_time(T0);
    let (id, _, _) = create_test_subscription(&client, SubscriptionStatus::Active);
    seed_balance(&client, id, PREPAID);

    client.set_time(T0 + INTERVAL + 1);
    client.charge_subscription(&id);
    // Second charge in same period should fail
    client.charge_subscription(&id);
}

// -- Recovery -----------------------------------------------------------------

#[test]
fn test_recover_stranded_funds() {
    let (client, _, admin) = setup_test_env();
    let recipient = client.generate();
    client.recover_stranded_funds(
        &admin,
        &recipient,
        &1_000_000,
        &RecoveryReason::AccidentalTransfer,
    );
    // No panic means success
}

// -- Lifetime cap tests -------------------------------------------------------

#[test]
fn test_lifetime_cap_auto_cancel() {
    let (client, _, _) = setup_test_env();
    client.set_time(T0);

    let subscriber = client.generate();
    let merchant = client.generate();
    // Cap = 2 * AMOUNT, so after 2 charges, should auto-cancel
    let id = client.create_subscription(
        &subscriber,
        &merchant,
        &AMOUNT,
        &INTERVAL,
        &false,
        &Some(2 * AMOUNT),
    );
    seed_balance(&client, id, PREPAID);

    // First charge
    client.set_time(T0 + INTERVAL + 1);
    client.charge_subscription(&id);
    let sub = client.get_subscription(&id);
    assert_eq!(sub.lifetime_charged, AMOUNT);
    assert_eq!(sub.status, SubscriptionStatus::Active);

    // Second charge -> cap reached -> auto-cancel
    client.set_time(T0 + 2 * INTERVAL + 1);
    client.charge_subscription(&id);
    let sub = client.get_subscription(&id);
    assert_eq!(sub.lifetime_charged, 2 * AMOUNT);
    assert_eq!(sub.status, SubscriptionStatus::Cancelled);
}

#[test]
fn test_get_cap_info() {
    let (client, _, _) = setup_test_env();
    let subscriber = client.generate();
    let merchant = client.generate();
    let cap = 100_000_000i128;
    let id = client.create_subscription(
        &subscriber,
        &merchant,
        &AMOUNT,
        &INTERVAL,
        &false,
        &Some(cap),
    );
    let info = client.get_cap_info(&id);
    assert_eq!(info.lifetime_cap, Some(cap));
    assert_eq!(info.lifetime_charged, 0);
    assert_eq!(info.remaining_cap, Some(cap));
    assert!(!info.cap_reached);
}

// -- Plan template tests ------------------------------------------------------

#[test]
fn test_create_and_use_plan_template() {
    let (client, _, _) = setup_test_env();
    let merchant = client.generate();
    let subscriber = client.generate();

    let plan_id = client.create_plan_template(&merchant, &AMOUNT, &INTERVAL, &false, &None::<i128>);
    let plan = client.get_plan_template(&plan_id);
    assert_eq!(plan.amount, AMOUNT);
    assert_eq!(plan.merchant, merchant);

    let sub_id = client.create_subscription_from_plan(&subscriber, &plan_id);
    let sub = client.get_subscription(&sub_id);
    assert_eq!(sub.amount, AMOUNT);
    assert_eq!(sub.merchant, merchant);
    assert_eq!(sub.subscriber, subscriber);
}

// -- Usage charge tests -------------------------------------------------------

#[test]
fn test_charge_usage_basic() {
    let (client, _, _) = setup_test_env();
    client.set_time(T0);

    let subscriber = client.generate();
    let merchant = client.generate();
    let id = client.create_subscription(
        &subscriber,
        &merchant,
        &AMOUNT,
        &INTERVAL,
        &true,
        &None::<i128>,
    );
    seed_balance(&client, id, PREPAID);

    client.charge_usage(&id, &1_000_000);
    let sub = client.get_subscription(&id);
    assert_eq!(sub.prepaid_balance, PREPAID - 1_000_000);
}

#[test]
#[should_panic(expected = "Error(Contract, #1004)")]
fn test_charge_usage_not_enabled() {
    let (client, _, _) = setup_test_env();
    let (id, _, _) = create_test_subscription(&client, SubscriptionStatus::Active);
    seed_balance(&client, id, PREPAID);
    client.charge_usage(&id, &1_000_000);
}

// -- Usage cap tests ----------------------------------------------------------

#[test]
fn test_set_and_enforce_usage_cap() {
    let (client, _, _) = setup_test_env();
    client.set_time(T0);

    let subscriber = client.generate();
    let merchant = client.generate();
    let id = client.create_subscription(
        &subscriber,
        &merchant,
        &AMOUNT,
        &INTERVAL,
        &true,
        &None::<i128>,
    );
    seed_balance(&client, id, PREPAID);

    // Set cap to 2M units
    client.set_usage_cap(&id, &merchant, &Some(2_000_000i128));

    // First usage under cap - OK
    client.charge_usage(&id, &1_500_000);

    // Second usage would exceed cap
    let result = client.try_charge_usage(&id, &1_000_000);
    assert!(result.is_err());
}

// -- Billing period snapshot tests --------------------------------------------

#[test]
fn test_billing_period_snapshot_created_on_charge() {
    let (client, _, _) = setup_test_env();
    client.set_time(T0);

    let (id, _, _) = create_test_subscription(&client, SubscriptionStatus::Active);
    seed_balance(&client, id, PREPAID);

    // First charge
    client.set_time(T0 + INTERVAL + 1);
    client.charge_subscription(&id);

    // Second charge in next period triggers snapshot for period 0
    client.set_time(T0 + 2 * INTERVAL + 1);
    client.charge_subscription(&id);

    let snapshot = client.get_billing_period_snapshot(&id, &0);
    assert_eq!(snapshot.subscription_id, id);
    assert!(snapshot.status_flags & BILLING_SNAPSHOT_FLAG_CLOSED != 0);
}

// -- Protocol fee tests -------------------------------------------------------

#[test]
fn test_protocol_fee_skimming() {
    let (client, _, admin) = setup_test_env();
    let treasury = client.generate();
    client.set_treasury(&admin, &treasury);
    client.set_protocol_fee_bps(&admin, &500); // 5%

    client.set_time(T0);
    let (id, _, _) = create_test_subscription(&client, SubscriptionStatus::Active);
    seed_balance(&client, id, PREPAID);

    client.set_time(T0 + INTERVAL + 1);
    client.charge_subscription(&id);

    // Treasury should get 5% of AMOUNT
    let treasury_balance = client.get_treasury_balance();
    assert_eq!(treasury_balance, AMOUNT * 500 / 10_000);
}

// -- Merchant tests -----------------------------------------------------------

#[test]
fn test_merchant_balance_and_withdrawal() {
    let (client, _, _) = setup_test_env();
    client.set_time(T0);

    let (id, _, merchant) = create_test_subscription(&client, SubscriptionStatus::Active);
    seed_balance(&client, id, PREPAID);

    client.set_time(T0 + INTERVAL + 1);
    client.charge_subscription(&id);

    let balance = client.get_merchant_balance(&merchant);
    assert!(balance > 0);
}

// -- List subscriptions by subscriber test ------------------------------------

#[test]
fn test_list_subscriptions_by_subscriber() {
    let (client, _, _) = setup_test_env();
    let subscriber = client.generate();
    let merchant = client.generate();

    let id1 = client.create_subscription(
        &subscriber,
        &merchant,
        &AMOUNT,
        &INTERVAL,
        &false,
        &None::<i128>,
    );
    let id2 = client.create_subscription(
        &subscriber,
        &merchant,
        &AMOUNT,
        &INTERVAL,
        &false,
        &None::<i128>,
    );

    let page = client.list_subscriptions_by_subscriber(&subscriber, &0, &10);
    assert_eq!(page.subscription_ids.len(), 2);
    assert_eq!(page.subscription_ids.get(0).unwrap(), id1);
    assert_eq!(page.subscription_ids.get(1).unwrap(), id2);
    assert!(!page.has_next);
}

// -- Subscriber withdrawal test -----------------------------------------------

#[test]
fn test_withdraw_subscriber_funds_after_cancel() {
    let (client, _, _) = setup_test_env();
    let subscriber = client.generate();
    let merchant = client.generate();


    let id = client.create_subscription(
        &subscriber,
        &merchant,
        &AMOUNT,
        &INTERVAL,
        &false,
        &None::<i128>,
    );
    client.deposit_funds(&id, &subscriber, &5_000_000);

    let sub = client.get_subscription(&id);
    assert_eq!(sub.prepaid_balance, 5_000_000);

    client.cancel_subscription(&id, &subscriber);
    client.withdraw_subscriber_funds(&id, &subscriber);

    let sub = client.get_subscription(&id);
    assert_eq!(sub.prepaid_balance, 0);
}

// -- Export tests -------------------------------------------------------------

#[test]
fn test_export_contract_snapshot() {
    let (client, _, admin) = setup_test_env();
    let snapshot = client.export_contract_snapshot(&admin);
    assert_eq!(snapshot.admin, admin);
    assert_eq!(snapshot.storage_version, 2);
}

#[test]
fn test_export_subscription_summaries() {
    let (client, _, admin) = setup_test_env();
    let (id, _, _) = create_test_subscription(&client, SubscriptionStatus::Active);
    let summaries = client.export_subscription_summaries(&admin, &0, &10);
    assert_eq!(summaries.len(), 1);
    assert_eq!(summaries[0].subscription_id, id);
}

// =============================================================================
// Metadata Key-Value Store Tests
// =============================================================================

#[test]
fn test_metadata_set_and_get() {
    let (client, _, _) = setup_test_env();
    let (id, subscriber, _) = create_test_subscription(&client, SubscriptionStatus::Active);

    let key = text("invoice_id");
    let value = text("INV-2025-001");

    client.set_metadata(&id, &subscriber, &key, &value);

    let result = client.get_metadata(&id, &key);
    assert_eq!(result, value);
}

#[test]
fn test_metadata_update_existing_key() {
    let (client, _, _) = setup_test_env();
    let (id, subscriber, _) = create_test_subscription(&client, SubscriptionStatus::Active);

    let key = text("customer_id");
    let value1 = text("CUST-001");
    let value2 = text("CUST-002");

    client.set_metadata(&id, &subscriber, &key, &value1);
    assert_eq!(client.get_metadata(&id, &key), value1);

    client.set_metadata(&id, &subscriber, &key, &value2);
    assert_eq!(client.get_metadata(&id, &key), value2);

    // Key count should still be 1 (updated, not duplicated)
    let keys = client.list_metadata_keys(&id);
    assert_eq!(keys.len(), 1);
}

#[test]
fn test_metadata_delete() {
    let (client, _, _) = setup_test_env();
    let (id, subscriber, _) = create_test_subscription(&client, SubscriptionStatus::Active);

    let key = text("tag");
    let value = text("premium");

    client.set_metadata(&id, &subscriber, &key, &value);
    assert_eq!(client.get_metadata(&id, &key), value);

    client.delete_metadata(&id, &subscriber, &key);

    let result = client.try_get_metadata(&id, &key);
    assert!(result.is_err());
}

#[test]
fn test_metadata_list_keys() {
    let (client, _, _) = setup_test_env();
    let (id, subscriber, _) = create_test_subscription(&client, SubscriptionStatus::Active);

    let key1 = text("invoice_id");
    let key2 = text("customer_id");
    let key3 = text("campaign_tag");

    client.set_metadata(&id, &subscriber, &key1, &text("v1"));
    client.set_metadata(&id, &subscriber, &key2, &text("v2"));
    client.set_metadata(&id, &subscriber, &key3, &text("v3"));

    let keys = client.list_metadata_keys(&id);
    assert_eq!(keys.len(), 3);
}

#[test]
fn test_metadata_empty_list_for_new_subscription() {
    let (client, _, _) = setup_test_env();
    let (id, _, _) = create_test_subscription(&client, SubscriptionStatus::Active);

    let keys = client.list_metadata_keys(&id);
    assert_eq!(keys.len(), 0);
}

#[test]
fn test_metadata_merchant_can_set() {
    let (client, _, _) = setup_test_env();
    let (id, _, merchant) = create_test_subscription(&client, SubscriptionStatus::Active);

    let key = text("merchant_ref");
    let value = text("MR-123");

    client.set_metadata(&id, &merchant, &key, &value);
    assert_eq!(client.get_metadata(&id, &key), value);
}

#[test]
fn test_metadata_merchant_can_delete() {
    let (client, _, _) = setup_test_env();
    let (id, subscriber, merchant) =
        create_test_subscription(&client, SubscriptionStatus::Active);

    let key = text("tag");
    let value = text("test");

    // Subscriber sets it
    client.set_metadata(&id, &subscriber, &key, &value);

    // Merchant deletes it
    client.delete_metadata(&id, &merchant, &key);

    let result = client.try_get_metadata(&id, &key);
    assert!(result.is_err());
}

#[test]
#[should_panic(expected = "Error(Contract, #403)")]
fn test_metadata_unauthorized_actor_rejected() {
    let (client, _, _) = setup_test_env();
    let (id, _, _) = create_test_subscription(&client, SubscriptionStatus::Active);

    let stranger = client.generate();
    let key = text("test");
    let value = text("val");

    client.set_metadata(&id, &stranger, &key, &value);
}

#[test]
#[should_panic(expected = "Error(Contract, #403)")]
fn test_metadata_delete_unauthorized_rejected() {
    let (client, _, _) = setup_test_env();
    let (id, subscriber, _) = create_test_subscription(&client, SubscriptionStatus::Active);

    let key = text("test");
    client.set_metadata(&id, &subscriber, &key, &text("val"));

    let stranger = client.generate();
    client.delete_metadata(&id, &stranger, &key);
}

#[test]
#[should_panic(expected = "Error(Contract, #1023)")]
fn test_metadata_key_limit_enforced() {
    let (client, _, _) = setup_test_env();
    let (id, subscriber, _) = create_test_subscription(&client, SubscriptionStatus::Active);

    // Set MAX_METADATA_KEYS (10) keys
    for i in 0..10u32 {
        let key = text(&format!("key_{i}"));
        let value = text("val");
        client.set_metadata(&id, &subscriber, &key, &value);
    }

    // 11th key should fail
    let key = text("key_overflow");
    let value = text("val");
    client.set_metadata(&id, &subscriber, &key, &value);
}

#[test]
fn test_metadata_update_at_limit_succeeds() {
    let (client, _, _) = setup_test_env();
    let (id, subscriber, _) = create_test_subscription(&client, SubscriptionStatus::Active);

    // Fill to max
    for i in 0..10u32 {
        let key = text(&format!("key_{i}"));
        client.set_metadata(&id, &subscriber, &key, &text("val"));
    }

    // Updating an existing key should succeed even at limit
    let key = text("key_0");
    let new_value = text("updated");
    client.set_metadata(&id, &subscriber, &key, &new_value);
    assert_eq!(client.get_metadata(&id, &key), new_value);
}

#[test]
#[should_panic(expected = "Error(Contract, #1024)")]
fn test_metadata_key_too_long_rejected() {
    let (client, _, _) = setup_test_env();
    let (id, subscriber, _) = create_test_subscription(&client, SubscriptionStatus::Active);

    // 33 chars exceeds MAX_METADATA_KEY_LENGTH (32)
    let key = text("aaaaaaaaaaaaaaaaaaaaaaaaaaaaaaaaa");
    let value = text("val");
    client.set_metadata(&id, &subscriber, &key, &value);
}

#[test]
#[should_panic(expected = "Error(Contract, #1024)")]
fn test_metadata_empty_key_rejected() {
    let (client, _, _) = setup_test_env();
    let (id, subscriber, _) = create_test_subscription(&client, SubscriptionStatus::Active);

    let key = text("");
    let value = text("val");
    client.set_metadata(&id, &subscriber, &key, &value);
}

#[test]
#[should_panic(expected = "Error(Contract, #1025)")]
fn test_metadata_value_too_long_rejected() {
    let (client, _, _) = setup_test_env();
    let (id, subscriber, _) = create_test_subscription(&client, SubscriptionStatus::Active);

    let key = text("test");
    // Create a string > 256 bytes
    let long_str = String::from_utf8(vec![b'x'; 257]).unwrap();
    let long_value = text(&long_str);
    client.set_metadata(&id, &subscriber, &key, &long_value);
}

#[test]
#[should_panic(expected = "Error(Contract, #404)")]
fn test_metadata_get_nonexistent_key() {
    let (client, _, _) = setup_test_env();
    let (id, _, _) = create_test_subscription(&client, SubscriptionStatus::Active);

    let key = text("nonexistent");
    client.get_metadata(&id, &key);
}

#[test]
#[should_panic(expected = "Error(Contract, #404)")]
fn test_metadata_delete_nonexistent_key() {
    let (client, _, _) = setup_test_env();
    let (id, subscriber, _) = create_test_subscription(&client, SubscriptionStatus::Active);

    let key = text("nonexistent");
    client.delete_metadata(&id, &subscriber, &key);
}

#[test]
#[should_panic(expected = "Error(Contract, #404)")]
fn test_metadata_operations_on_nonexistent_subscription() {
    let (client, _, _) = setup_test_env();
    let subscriber = client.generate();
    let key = text("test");
    let value = text("val");
    client.set_metadata(&999, &subscriber, &key, &value);
}

#[test]
#[should_panic(expected = "Error(Contract, #1002)")]
fn test_metadata_set_on_cancelled_subscription_rejected() {
    let (client, _, _) = setup_test_env();
    let (id, subscriber, _) = create_test_subscription(&client, SubscriptionStatus::Active);
    client.cancel_subscription(&id, &subscriber);

    let key = text("test");
    let value = text("val");
    client.set_metadata(&id, &subscriber, &key, &value);
}

#[test]
fn test_metadata_does_not_affect_financial_state() {
    let (client, _, _) = setup_test_env();
    let (id, subscriber, _) = create_test_subscription(&client, SubscriptionStatus::Active);
    seed_balance(&client, id, PREPAID);

    let sub_before = client.get_subscription(&id);

    // Set multiple metadata entries
    for i in 0..5u32 {
        let key = text(&format!("key_{i}"));
        let value = text(&format!("value_{i}"));
        client.set_metadata(&id, &subscriber, &key, &value);
    }

    let sub_after = client.get_subscription(&id);

    // Financial state must be unchanged
    assert_eq!(sub_before.prepaid_balance, sub_after.prepaid_balance);
    assert_eq!(sub_before.lifetime_charged, sub_after.lifetime_charged);
    assert_eq!(sub_before.status, sub_after.status);
    assert_eq!(sub_before.amount, sub_after.amount);
}

#[test]
fn test_metadata_delete_then_re_add() {
    let (client, _, _) = setup_test_env();
    let (id, subscriber, _) = create_test_subscription(&client, SubscriptionStatus::Active);

    let key = text("tag");
    let value1 = text("v1");
    let value2 = text("v2");

    client.set_metadata(&id, &subscriber, &key, &value1);
    client.delete_metadata(&id, &subscriber, &key);

    // Re-add same key with different value
    client.set_metadata(&id, &subscriber, &key, &value2);
    assert_eq!(client.get_metadata(&id, &key), value2);

    let keys = client.list_metadata_keys(&id);
    assert_eq!(keys.len(), 1);
}

#[test]
fn test_metadata_delete_frees_key_slot() {
    let (client, _, _) = setup_test_env();
    let (id, subscriber, _) = create_test_subscription(&client, SubscriptionStatus::Active);

    // Fill to max
    for i in 0..10u32 {
        let key = text(&format!("key_{i}"));
        client.set_metadata(&id, &subscriber, &key, &text("v"));
    }

    // Delete one
    client.delete_metadata(&id, &subscriber, &text("key_5"));

    // Should now be able to add a new key
    let new_key = text("key_new");
    client.set_metadata(&id, &subscriber, &new_key, &text("v"));

    let keys = client.list_metadata_keys(&id);
    assert_eq!(keys.len(), 10);
}

#[test]
fn test_metadata_isolation_between_subscriptions() {
    let (client, _, _) = setup_test_env();
    let (id1, sub1, _) = create_test_subscription(&client, SubscriptionStatus::Active);
    let (id2, sub2, _) = create_test_subscription(&client, SubscriptionStatus::Active);

    let key = text("invoice_id");
    let val1 = text("INV-001");
    let val2 = text("INV-002");

    client.set_metadata(&id1, &sub1, &key, &val1);
    client.set_metadata(&id2, &sub2, &key, &val2);

    assert_eq!(client.get_metadata(&id1, &key), val1);
    assert_eq!(client.get_metadata(&id2, &key), val2);
}

#[test]
fn test_metadata_on_paused_subscription_allowed() {
    let (client, _, _) = setup_test_env();
    let (id, subscriber, _) = create_test_subscription(&client, SubscriptionStatus::Active);
    client.pause_subscription(&id, &subscriber);

    let key = text("note");
    let value = text("paused for maintenance");
    client.set_metadata(&id, &subscriber, &key, &value);
    assert_eq!(client.get_metadata(&id, &key), value);
}

#[test]
fn test_metadata_delete_on_cancelled_subscription_allowed() {
    let (client, _, _) = setup_test_env();
    let (id, subscriber, _) = create_test_subscription(&client, SubscriptionStatus::Active);

    let key = text("tag");
    client.set_metadata(&id, &subscriber, &key, &text("v"));

    client.cancel_subscription(&id, &subscriber);

    // Delete should still work on cancelled (cleanup)
    client.delete_metadata(&id, &subscriber, &key);
    let result = client.try_get_metadata(&id, &key);
    assert!(result.is_err());
}

// ── Blocklist Tests ───────────────────────────────────────────────────────────

#[test]
fn test_admin_can_add_subscriber_to_blocklist() {
    let (client, _, admin) = setup_test_env();
    let subscriber = client.generate();
    let reason = text("Fraudulent activity");

    client.add_to_blocklist(&admin, &subscriber, &Some(reason.clone()));

    assert!(client.is_blocklisted(&subscriber));
    let entry = client.get_blocklist_entry(&subscriber);
    assert_eq!(entry.subscriber, subscriber);
    assert_eq!(entry.added_by, admin);
    assert_eq!(entry.reason, Some(reason));
}

#[test]
fn test_merchant_can_blocklist_their_subscriber() {
    let (client, _, _admin) = setup_test_env();
    let subscriber = client.generate();
    let merchant = client.generate();

    // Create subscription

    let sub_id = client.create_subscription(
        &subscriber,
        &merchant,
        &AMOUNT,
        &INTERVAL,
        &false,
        &None::<i128>,
    );
    assert!(sub_id == 0);

    // Merchant can blocklist their subscriber
    let reason = text("Payment disputes");
    client.add_to_blocklist(&merchant, &subscriber, &Some(reason));

    assert!(client.is_blocklisted(&subscriber));
}

#[test]
fn test_merchant_cannot_blocklist_unrelated_subscriber() {
    let (client, _, _admin) = setup_test_env();
    let subscriber = client.generate();
    let merchant = client.generate();

    // Merchant tries to blocklist subscriber without any subscription relationship
    let result = client.try_add_to_blocklist(&merchant, &subscriber, &None);
    assert_eq!(result, Err(Error::Forbidden));
}

#[test]
fn test_blocklisted_subscriber_cannot_create_subscription() {
    let (client, _, admin) = setup_test_env();
    let subscriber = client.generate();
    let merchant = client.generate();

    // Admin blocklists subscriber
    client.add_to_blocklist(&admin, &subscriber, &None);

    // Subscriber tries to create subscription
    let result = client.try_create_subscription(
        &subscriber,
        &merchant,
        &AMOUNT,
        &INTERVAL,
        &false,
        &None::<i128>,
    );
    assert_eq!(result, Err(Error::SubscriberBlocklisted));
}

#[test]
fn test_blocklisted_subscriber_cannot_create_subscription_from_plan() {
    let (client, _, admin) = setup_test_env();
    let subscriber = client.generate();
    let merchant = client.generate();

    // Create plan template
    let plan_id = client.create_plan_template(&merchant, &AMOUNT, &INTERVAL, &false, &None::<i128>);

    // Admin blocklists subscriber
    client.add_to_blocklist(&admin, &subscriber, &None);

    // Subscriber tries to create subscription from plan
    let result = client.try_create_subscription_from_plan(&subscriber, &plan_id);
    assert_eq!(result, Err(Error::SubscriberBlocklisted));
}

#[test]
fn test_blocklisted_subscriber_cannot_deposit_funds() {
    let (client, _, admin) = setup_test_env();
    let subscriber = client.generate();
    let merchant = client.generate();

    // Create subscription first

    let sub_id = client.create_subscription(
        &subscriber,
        &merchant,
        &AMOUNT,
        &INTERVAL,
        &false,
        &None::<i128>,
    );

    // Admin blocklists subscriber
    client.add_to_blocklist(&admin, &subscriber, &None);

    // Subscriber tries to deposit funds
    let result = client.try_deposit_funds(&sub_id, &subscriber, &1_000_000);
    assert_eq!(result, Err(Error::SubscriberBlocklisted));
}

#[test]
fn test_existing_subscription_preserved_after_blocklist() {
    let (client, _, admin) = setup_test_env();
    let subscriber = client.generate();
    let merchant = client.generate();

    // Create subscription and deposit funds

    let sub_id = client.create_subscription(
        &subscriber,
        &merchant,
        &AMOUNT,
        &INTERVAL,
        &false,
        &None::<i128>,
    );
    client.deposit_funds(&sub_id, &subscriber, &PREPAID);

    let sub_before = client.get_subscription(&sub_id);
    assert_eq!(sub_before.prepaid_balance, PREPAID);

    // Admin blocklists subscriber
    client.add_to_blocklist(&admin, &subscriber, &None);

    // Existing subscription is preserved
    let sub_after = client.get_subscription(&sub_id);
    assert_eq!(sub_after.prepaid_balance, PREPAID);
    assert_eq!(sub_after.status, SubscriptionStatus::Active);
}

#[test]
fn test_blocklisted_subscriber_can_cancel_existing_subscription() {
    let (client, _, admin) = setup_test_env();
    let subscriber = client.generate();
    let merchant = client.generate();

    // Create subscription

    let sub_id = client.create_subscription(
        &subscriber,
        &merchant,
        &AMOUNT,
        &INTERVAL,
        &false,
        &None::<i128>,
    );

    // Admin blocklists subscriber
    client.add_to_blocklist(&admin, &subscriber, &None);

    // Subscriber can still cancel their existing subscription
    client.cancel_subscription(&sub_id, &subscriber);
    let sub = client.get_subscription(&sub_id);
    assert_eq!(sub.status, SubscriptionStatus::Cancelled);
}

#[test]
fn test_blocklisted_subscriber_can_withdraw_after_cancellation() {
    let (client, _, admin) = setup_test_env();
    let subscriber = client.generate();
    let merchant = client.generate();

    // Create subscription and deposit funds

    let sub_id = client.create_subscription(
        &subscriber,
        &merchant,
        &AMOUNT,
        &INTERVAL,
        &false,
        &None::<i128>,
    );
    client.deposit_funds(&sub_id, &subscriber, &PREPAID);

    // Admin blocklists subscriber
    client.add_to_blocklist(&admin, &subscriber, &None);

    // Subscriber cancels and withdraws
    client.cancel_subscription(&sub_id, &subscriber);
    client.withdraw_subscriber_funds(&sub_id, &subscriber);

    let sub = client.get_subscription(&sub_id);
    assert_eq!(sub.prepaid_balance, 0);
}

#[test]
fn test_admin_can_remove_from_blocklist() {
    let (client, _, admin) = setup_test_env();
    let subscriber = client.generate();

    // Admin adds to blocklist
    client.add_to_blocklist(&admin, &subscriber, &None);
    assert!(client.is_blocklisted(&subscriber));

    // Admin removes from blocklist
    client.remove_from_blocklist(&admin, &subscriber);
    assert!(!client.is_blocklisted(&subscriber));
}

#[test]
fn test_removed_subscriber_can_create_subscription() {
    let (client, _, admin) = setup_test_env();
    let subscriber = client.generate();
    let merchant = client.generate();

    // Admin adds to blocklist
    client.add_to_blocklist(&admin, &subscriber, &None);

    // Admin removes from blocklist
    client.remove_from_blocklist(&admin, &subscriber);

    // Subscriber can now create subscription
    let sub_id = client.create_subscription(
        &subscriber,
        &merchant,
        &AMOUNT,
        &INTERVAL,
        &false,
        &None::<i128>,
    );
    assert_eq!(sub_id, 0);
}

#[test]
fn test_non_admin_cannot_remove_from_blocklist() {
    let (client, _, admin) = setup_test_env();
    let subscriber = client.generate();
    let non_admin = client.generate();

    // Admin adds to blocklist
    client.add_to_blocklist(&admin, &subscriber, &None);

    // Non-admin tries to remove
    let result = client.try_remove_from_blocklist(&non_admin, &subscriber);
    assert_eq!(result, Err(Error::Unauthorized));
}

#[test]
fn test_blocklist_entry_not_found() {
    let (client, _, _admin) = setup_test_env();
    let subscriber = client.generate();

    let result = client.try_get_blocklist_entry(&subscriber);
    assert_eq!(result, Err(Error::NotFound));
}

#[test]
fn test_remove_nonexistent_blocklist_entry() {
    let (client, _, admin) = setup_test_env();
    let subscriber = client.generate();

    let result = client.try_remove_from_blocklist(&admin, &subscriber);
    assert_eq!(result, Err(Error::NotFound));
}

#[test]
fn test_blocklist_events_emitted() {
    let (client, _, admin) = setup_test_env();
    let subscriber = client.generate();
    let reason = text("Test reason");

    // Add to blocklist
    client.add_to_blocklist(&admin, &subscriber, &Some(reason.clone()));
    assert!(client.is_blocklisted(&subscriber));

    // Remove from blocklist
    client.remove_from_blocklist(&admin, &subscriber);
    assert!(!client.is_blocklisted(&subscriber));
}

#[test]
fn test_blocklist_with_multiple_subscriptions() {
    let (client, _, admin) = setup_test_env();
    let subscriber = client.generate();
    let merchant1 = client.generate();
    let merchant2 = client.generate();

    // Create multiple subscriptions

    let sub_id1 = client.create_subscription(
        &subscriber,
        &merchant1,
        &AMOUNT,
        &INTERVAL,
        &false,
        &None::<i128>,
    );
    let sub_id2 = client.create_subscription(
        &subscriber,
        &merchant2,
        &AMOUNT,
        &INTERVAL,
        &false,
        &None::<i128>,
    );

    // Admin blocklists subscriber
    client.add_to_blocklist(&admin, &subscriber, &None);

    // Both subscriptions are preserved
    let sub1 = client.get_subscription(&sub_id1);
    let sub2 = client.get_subscription(&sub_id2);
    assert_eq!(sub1.status, SubscriptionStatus::Active);
    assert_eq!(sub2.status, SubscriptionStatus::Active);

    // Cannot create new subscription
    let result = client.try_create_subscription(
        &subscriber,
        &merchant1,
        &AMOUNT,
        &INTERVAL,
        &false,
        &None::<i128>,
    );
    assert_eq!(result, Err(Error::SubscriberBlocklisted));
}

#[test]
fn test_blocklist_does_not_affect_charging() {
    let (client, _, admin) = setup_test_env();
    let subscriber = client.generate();
    let merchant = client.generate();

    // Create subscription and deposit funds

    let sub_id = client.create_subscription(
        &subscriber,
        &merchant,
        &AMOUNT,
        &INTERVAL,
        &false,
        &None::<i128>,
    );
    client.deposit_funds(&sub_id, &subscriber, &PREPAID);

    // Admin blocklists subscriber
    client.add_to_blocklist(&admin, &subscriber, &None);

    // Advance time and charge
    client.advance(INTERVAL);
    client.charge_subscription(&sub_id);

    let sub = client.get_subscription(&sub_id);
    assert!(sub.prepaid_balance < PREPAID);
}

#[test]
fn test_blocklist_reason_stored_correctly() {
    let (client, _, admin) = setup_test_env();
    let subscriber = client.generate();
    let reason = text("Repeated chargebacks");

    client.add_to_blocklist(&admin, &subscriber, &Some(reason.clone()));

    let entry = client.get_blocklist_entry(&subscriber);
    assert_eq!(entry.reason, Some(reason));
    assert_eq!(entry.added_by, admin);
}

#[test]
fn test_blocklist_without_reason() {
    let (client, _, admin) = setup_test_env();
    let subscriber = client.generate();

    client.add_to_blocklist(&admin, &subscriber, &None);

    let entry = client.get_blocklist_entry(&subscriber);
    assert_eq!(entry.reason, None);
    assert_eq!(entry.subscriber, subscriber);
}

#[test]
fn test_merchant_blocklist_requires_subscription_relationship() {
    let (client, _, _admin) = setup_test_env();
    let subscriber1 = client.generate();
    let subscriber2 = client.generate();
    let merchant = client.generate();

    // Create subscription with subscriber1

    client.create_subscription(
        &subscriber1,
        &merchant,
        &AMOUNT,
        &INTERVAL,
        &false,
        &None::<i128>,
    );

    // Merchant can blocklist subscriber1
    client.add_to_blocklist(&merchant, &subscriber1, &None);
    assert!(client.is_blocklisted(&subscriber1));

    // Merchant cannot blocklist subscriber2 (no relationship)
    let result = client.try_add_to_blocklist(&merchant, &subscriber2, &None);
    assert_eq!(result, Err(Error::Forbidden));
}
