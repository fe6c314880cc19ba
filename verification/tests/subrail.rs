use std::collections::HashMap;

use subrail::storage::Storage;
use subrail::{
    AccountId, ChargeOutcome, Error, Party, Plan, SubRailContract, Subscription,
    SubscriptionStatus, Transfer,
};

const MONTH: u64 = 30 * 24 * 3_600;
const WEEK: u64 = 7 * 24 * 3_600;
const PRICE: i128 = 50_000_000; // 5 units of a 7-decimal token

/// Drives the protocol the way the host does: keeps the ledger time, and
/// carries out the requested token movements on a simple token ledger.
struct Setup {
    store: Storage,
    now: u64,
    wallets: HashMap<AccountId, i128>,
    escrow: i128,
    token: AccountId,
    merchant: AccountId,
    subscriber: AccountId,
    next_key: u128,
}

impl Setup {
    fn generate(&mut self) -> AccountId {
        self.next_key += 1;
        AccountId::account(0, self.next_key)
    }

    fn apply(&mut self, transfers: &[Transfer]) {
        for t in transfers {
            assert_eq!(t.token, self.token);
            assert!(t.amount > 0);
            match t.from {
                Party::Escrow => self.escrow -= t.amount,
                Party::Account(a) => {
                    let w = self.wallets.entry(a).or_insert(0);
                    assert!(*w >= t.amount, "token balance too low");
                    *w -= t.amount;
                }
            }
            match t.to {
                Party::Escrow => self.escrow += t.amount,
                Party::Account(a) => *self.wallets.entry(a).or_insert(0) += t.amount,
            }
            assert!(self.escrow >= 0);
        }
    }

    fn balance_of(&self, a: &AccountId) -> i128 {
        *self.wallets.get(a).unwrap_or(&0)
    }

    fn try_initialize(&mut self, admin: &AccountId) -> Result<(), Error> {
        SubRailContract::initialize(&mut self.store, *admin)
    }

    fn try_create_plan(
        &mut self,
        merchant: &AccountId,
        token: &AccountId,
        amount: &i128,
        interval: &u64,
        grace: &u64,
        name: &str,
    ) -> Result<u64, Error> {
        SubRailContract::create_plan(
            &mut self.store,
            self.now,
            *merchant,
            *token,
            *amount,
            *interval,
            *grace,
            name.to_string(),
        )
    }

    fn try_subscribe(
        &mut self,
        subscriber: &AccountId,
        plan_id: &u64,
        max_amount: &i128,
        spend_ceiling: &i128,
        deposit: &i128,
    ) -> Result<u64, Error> {
        let (id, t) = SubRailContract::subscribe(
            &mut self.store,
            self.now,
            *subscriber,
            *plan_id,
            *max_amount,
            *spend_ceiling,
            *deposit,
        )?;
        self.apply(&t);
        Ok(id)
    }

    fn subscribe(&mut self, subscriber: &AccountId, plan_id: &u64, max_amount: &i128, spend_ceiling: &i128, deposit: &i128) -> u64 {
        self.try_subscribe(subscriber, plan_id, max_amount, spend_ceiling, deposit).unwrap()
    }

    fn try_charge(&mut self, sub_id: &u64) -> Result<ChargeOutcome, Error> {
        let (o, t) = SubRailContract::charge(&mut self.store, self.now, *sub_id)?;
        self.apply(&t);
        Ok(o)
    }

    fn charge(&mut self, sub_id: &u64) -> ChargeOutcome {
        self.try_charge(sub_id).unwrap()
    }

    fn try_deposit(&mut self, sub_id: &u64, amount: &i128) -> Result<(), Error> {
        let t = SubRailContract::deposit(&mut self.store, *sub_id, *amount)?;
        self.apply(&t);
        Ok(())
    }

    fn try_withdraw(&mut self, sub_id: &u64, amount: &i128) -> Result<(), Error> {
        let t = SubRailContract::withdraw(&mut self.store, *sub_id, *amount)?;
        self.apply(&t);
        Ok(())
    }

    fn try_cancel(&mut self, sub_id: &u64) -> Result<(), Error> {
        let t = SubRailContract::cancel(&mut self.store, *sub_id)?;
        self.apply(&t);
        Ok(())
    }

    fn try_pause(&mut self, sub_id: &u64) -> Result<(), Error> {
        SubRailContract::pause(&mut self.store, self.now, *sub_id)
    }

    fn try_resume(&mut self, sub_id: &u64) -> Result<(), Error> {
        SubRailContract::resume(&mut self.store, self.now, *sub_id)
    }

    fn get_plan(&self, plan_id: &u64) -> Plan {
        SubRailContract::get_plan(&self.store, *plan_id).unwrap()
    }

    fn get_subscription(&self, sub_id: &u64) -> Subscription {
        SubRailContract::get_subscription(&self.store, *sub_id).unwrap()
    }

    fn is_charge_due(&self, sub_id: &u64) -> bool {
        SubRailContract::is_charge_due(&self.store, self.now, *sub_id).unwrap()
    }

    fn get_balance(&self, sub_id: &u64) -> i128 {
        SubRailContract::get_balance(&self.store, *sub_id).unwrap()
    }
}

fn setup() -> Setup {
    let mut s = Setup {
        store: Storage::new(),
        now: 1_700_000_000,
        wallets: HashMap::new(),
        escrow: 0,
        token: AccountId::contract(0, 0),
        merchant: AccountId::account(0, 0),
        subscriber: AccountId::account(0, 0),
        next_key: 0,
    };
    let admin = s.generate();
    s.merchant = s.generate();
    s.subscriber = s.generate();
    s.token = AccountId::contract(7, 7);
    let sub = s.subscriber;
    s.wallets.insert(sub, 10_000_000_000);
    s.try_initialize(&admin).unwrap();
    s
}

fn create_default_plan(s: &mut Setup) -> u64 {
    let (m, t) = (s.merchant, s.token);
    s.try_create_plan(&m, &t, &PRICE, &MONTH, &WEEK, "Pro Monthly").unwrap()
}

fn advance(s: &mut Setup, secs: u64) {
    s.now += secs;
}

// ── Setup & plans ──────────────────────────────────────────────────────────

#[test]
fn initialize_only_once() {
    let mut s = setup();
    let again = s.generate();
    assert_eq!(s.try_initialize(&again), Err(Error::AlreadyInitialized));
}

#[test]
fn get_version_returns_1() {
    let _s = setup();
    assert_eq!(SubRailContract::get_version(), 1);
}

#[test]
fn create_plan_stores_and_indexes() {
    let mut s = setup();
    let plan_id = create_default_plan(&mut s);
    let plan = s.get_plan(&plan_id);

    assert_eq!(plan.id, plan_id);
    assert_eq!(plan.merchant, s.merchant);
    assert_eq!(plan.amount, PRICE);
    assert_eq!(plan.interval, MONTH);
    assert!(plan.active);
    assert_eq!(SubRailContract::get_merchant_plans(&s.store, s.merchant).len(), 1);
}

#[test]
fn create_plan_rejects_bad_inputs() {
    let mut s = setup();
    let (m, t) = (s.merchant, s.token);
    assert_eq!(s.try_create_plan(&m, &t, &0, &MONTH, &WEEK, "x"), Err(Error::InvalidAmount));
    assert_eq!(s.try_create_plan(&m, &t, &PRICE, &60, &WEEK, "x"), Err(Error::InvalidInterval));
}

#[test]
fn set_plan_active_toggles_and_blocks_new_subs() {
    let mut s = setup();
    let plan_id = create_default_plan(&mut s);
    SubRailContract::set_plan_active(&mut s.store, plan_id, false).unwrap();
    assert!(!s.get_plan(&plan_id).active);

    let sub = s.subscriber;
    assert_eq!(s.try_subscribe(&sub, &plan_id, &PRICE, &0, &(PRICE * 3)), Err(Error::PlanInactive));
}

// ── Subscribe ──────────────────────────────────────────────────────────────

#[test]
fn subscribe_charges_first_period_immediately() {
    let mut s = setup();
    let plan_id = create_default_plan(&mut s);
    let subscriber = s.subscriber;
    let sub_id = s.subscribe(&subscriber, &plan_id, &PRICE, &0, &(PRICE * 3));

    let sub = s.get_subscription(&sub_id);
    assert_eq!(sub.status, SubscriptionStatus::Active);
    assert_eq!(sub.periods_paid, 1);
    assert_eq!(sub.total_spent, PRICE);
    assert_eq!(sub.balance, PRICE * 2);
    assert_eq!(s.balance_of(&s.merchant), PRICE);
    assert_eq!(sub.next_charge_at, 1_700_000_000 + MONTH);
}

#[test]
fn subscribe_rejects_cap_below_plan_price() {
    let mut s = setup();
    let plan_id = create_default_plan(&mut s);
    let subscriber = s.subscriber;
    assert_eq!(
        s.try_subscribe(&subscriber, &plan_id, &(PRICE - 1), &0, &(PRICE * 3)),
        Err(Error::CapBelowPlanAmount)
    );
}

#[test]
fn subscribe_rejects_deposit_below_first_charge() {
    let mut s = setup();
    let plan_id = create_default_plan(&mut s);
    let subscriber = s.subscriber;
    assert_eq!(
        s.try_subscribe(&subscriber, &plan_id, &PRICE, &0, &(PRICE - 1)),
        Err(Error::DepositBelowFirstCharge)
    );
}

// ── Charge / keeper flow ───────────────────────────────────────────────────

#[test]
fn charge_settles_when_due() {
    let mut s = setup();
    let plan_id = create_default_plan(&mut s);
    let subscriber = s.subscriber;
    let sub_id = s.subscribe(&subscriber, &plan_id, &PRICE, &0, &(PRICE * 3));

    advance(&mut s, MONTH);
    assert!(s.is_charge_due(&sub_id));
    assert_eq!(s.charge(&sub_id), ChargeOutcome::Charged);

    let sub = s.get_subscription(&sub_id);
    assert_eq!(sub.periods_paid, 2);
    assert_eq!(sub.balance, PRICE);
    assert_eq!(s.balance_of(&s.merchant), PRICE * 2);
}

#[test]
fn charge_too_early_is_rejected() {
    let mut s = setup();
    let plan_id = create_default_plan(&mut s);
    let subscriber = s.subscriber;
    let sub_id = s.subscribe(&subscriber, &plan_id, &PRICE, &0, &(PRICE * 3));

    advance(&mut s, MONTH - 10);
    assert!(!s.is_charge_due(&sub_id));
    assert_eq!(s.try_charge(&sub_id), Err(Error::ChargeNotDue));
}

#[test]
fn underfunded_charge_moves_to_past_due_then_recovers() {
    let mut s = setup();
    let plan_id = create_default_plan(&mut s);
    let subscriber = s.subscriber;
    // Deposit only covers the first period.
    let sub_id = s.subscribe(&subscriber, &plan_id, &PRICE, &0, &PRICE);

    advance(&mut s, MONTH);
    assert_eq!(s.charge(&sub_id), ChargeOutcome::InsufficientFunds);
    let sub = s.get_subscription(&sub_id);
    assert_eq!(sub.status, SubscriptionStatus::PastDue);
    assert_eq!(sub.failed_attempts, 1);

    // Top up within the grace window and retry.
    s.try_deposit(&sub_id, &(PRICE * 2)).unwrap();
    let recovered_at = s.now + 3_600;
    advance(&mut s, 3_600);
    assert_eq!(s.charge(&sub_id), ChargeOutcome::Charged);

    let sub = s.get_subscription(&sub_id);
    assert_eq!(sub.status, SubscriptionStatus::Active);
    assert_eq!(sub.failed_attempts, 0);
    assert_eq!(sub.periods_paid, 2);
    // Recovery re-anchors the schedule at the recovery time.
    assert_eq!(sub.next_charge_at, recovered_at + MONTH);
}

#[test]
fn grace_elapsed_expires_and_refunds_residual() {
    let mut s = setup();
    let plan_id = create_default_plan(&mut s);
    let subscriber = s.subscriber;
    // Leave a residual smaller than one period: deposit 1.5x price.
    let sub_id = s.subscribe(&subscriber, &plan_id, &PRICE, &0, &(PRICE + PRICE / 2));
    let wallet_after_subscribe = s.balance_of(&subscriber);

    // Past due date AND past the grace window.
    advance(&mut s, MONTH + WEEK + 1);
    assert_eq!(s.charge(&sub_id), ChargeOutcome::GraceElapsed);

    let sub = s.get_subscription(&sub_id);
    assert_eq!(sub.status, SubscriptionStatus::Expired);
    assert_eq!(sub.balance, 0);
    // Residual half-period came back to the subscriber's wallet.
    assert_eq!(s.balance_of(&subscriber), wallet_after_subscribe + PRICE / 2);
    // Terminal: further charges are invalid.
    assert_eq!(s.try_charge(&sub_id), Err(Error::InvalidStatus));
}

#[test]
fn spend_ceiling_completes_subscription() {
    let mut s = setup();
    let plan_id = create_default_plan(&mut s);
    let subscriber = s.subscriber;
    // Ceiling of exactly two periods.
    let sub_id = s.subscribe(&subscriber, &plan_id, &PRICE, &(PRICE * 2), &(PRICE * 5));

    advance(&mut s, MONTH);
    assert_eq!(s.charge(&sub_id), ChargeOutcome::Charged);

    advance(&mut s, MONTH);
    assert_eq!(s.charge(&sub_id), ChargeOutcome::CeilingReached);
    let sub = s.get_subscription(&sub_id);
    assert_eq!(sub.status, SubscriptionStatus::Expired);
    assert_eq!(sub.total_spent, PRICE * 2);
}

// ── Deposit / withdraw ─────────────────────────────────────────────────────

#[test]
fn withdraw_keeps_subscriber_in_control() {
    let mut s = setup();
    let plan_id = create_default_plan(&mut s);
    let subscriber = s.subscriber;
    let sub_id = s.subscribe(&subscriber, &plan_id, &PRICE, &0, &(PRICE * 3));

    // Pull everything unused back out.
    s.try_withdraw(&sub_id, &(PRICE * 2)).unwrap();
    assert_eq!(s.get_balance(&sub_id), 0);

    // Over-withdrawal is impossible.
    assert_eq!(s.try_withdraw(&sub_id, &1), Err(Error::InsufficientBalance));
}

// ── Pause / resume / cancel ────────────────────────────────────────────────

#[test]
fn pause_shifts_schedule_by_paused_duration() {
    let mut s = setup();
    let plan_id = create_default_plan(&mut s);
    let subscriber = s.subscriber;
    let sub_id = s.subscribe(&subscriber, &plan_id, &PRICE, &0, &(PRICE * 3));
    let original_due = s.get_subscription(&sub_id).next_charge_at;

    advance(&mut s, WEEK);
    s.try_pause(&sub_id).unwrap();
    assert_eq!(s.get_subscription(&sub_id).status, SubscriptionStatus::Paused);

    // Charging while paused is invalid even after the original due date.
    advance(&mut s, MONTH);
    assert_eq!(s.try_charge(&sub_id), Err(Error::InvalidStatus));

    s.try_resume(&sub_id).unwrap();
    let sub = s.get_subscription(&sub_id);
    assert_eq!(sub.status, SubscriptionStatus::Active);
    // Schedule shifted by exactly the month spent paused.
    assert_eq!(sub.next_charge_at, original_due + MONTH);
}

#[test]
fn cancel_refunds_full_balance_and_is_terminal() {
    let mut s = setup();
    let plan_id = create_default_plan(&mut s);
    let subscriber = s.subscriber;
    let sub_id = s.subscribe(&subscriber, &plan_id, &PRICE, &0, &(PRICE * 3));
    let wallet_before = s.balance_of(&subscriber);

    s.try_cancel(&sub_id).unwrap();

    let sub = s.get_subscription(&sub_id);
    assert_eq!(sub.status, SubscriptionStatus::Cancelled);
    assert_eq!(sub.balance, 0);
    assert_eq!(s.balance_of(&subscriber), wallet_before + PRICE * 2);

    // Terminal: no deposit, no double cancel, no charge.
    assert_eq!(s.try_deposit(&sub_id, &PRICE), Err(Error::InvalidStatus));
    assert_eq!(s.try_cancel(&sub_id), Err(Error::InvalidStatus));
    assert_eq!(s.try_charge(&sub_id), Err(Error::InvalidStatus));
}

// ── Indexes ────────────────────────────────────────────────────────────────

#[test]
fn subscriber_index_tracks_all_subscriptions() {
    let mut s = setup();
    let plan_id = create_default_plan(&mut s);
    let subscriber = s.subscriber;
    let a = s.subscribe(&subscriber, &plan_id, &PRICE, &0, &(PRICE * 2));
    let b = s.subscribe(&subscriber, &plan_id, &PRICE, &0, &(PRICE * 2));

    let ids = SubRailContract::get_subscriber_subscriptions(&s.store, subscriber);
    assert_eq!(ids.len(), 2);
    assert_eq!(ids.get(0), Some(&a));
    assert_eq!(ids.get(1), Some(&b));
}
