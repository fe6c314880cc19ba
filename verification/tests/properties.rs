use subrail::billing::{MAX_INTERVAL, MIN_INTERVAL};
use subrail::storage::{self, Storage};
use subrail::{
    AccountId, ChargeOutcome, Error, Party, Request, SubRailContract, Subscription,
    SubscriptionStatus, Transfer,
};

const MONTH: u64 = 30 * 24 * 3_600;
const WEEK: u64 = 7 * 24 * 3_600;
const PRICE: i128 = 50_000_000;
const T0: u64 = 1_700_000_000;

fn merchant() -> AccountId {
    AccountId::account(1, 1)
}

fn subscriber() -> AccountId {
    AccountId::account(2, 2)
}

fn token() -> AccountId {
    AccountId::contract(3, 3)
}

fn fresh() -> Storage {
    let mut store = Storage::new();
    SubRailContract::initialize(&mut store, AccountId::account(9, 9)).unwrap();
    store
}

fn plan(store: &mut Storage) -> u64 {
    SubRailContract::create_plan(store, T0, merchant(), token(), PRICE, MONTH, WEEK, "Pro".to_string())
        .unwrap()
}

fn open(store: &mut Storage, ceiling: i128, deposit: i128) -> u64 {
    let p = plan(store);
    SubRailContract::subscribe(store, T0, subscriber(), p, PRICE, ceiling, deposit).unwrap().0
}

fn sub(store: &Storage, id: u64) -> Subscription {
    SubRailContract::get_subscription(store, id).unwrap()
}

fn pay(amount: i128) -> Transfer {
    Transfer { token: token(), from: Party::Escrow, to: Party::Account(merchant()), amount }
}

fn refund(amount: i128) -> Transfer {
    Transfer { token: token(), from: Party::Escrow, to: Party::Account(subscriber()), amount }
}

fn fund(amount: i128) -> Transfer {
    Transfer { token: token(), from: Party::Account(subscriber()), to: Party::Escrow, amount }
}

// ── Setup ──────────────────────────────────────────────────────────────────

#[test]
fn admin_is_read_back_after_initialize() {
    let mut store = Storage::new();
    assert_eq!(SubRailContract::get_admin(&store), Err(Error::NotInitialized));
    assert_eq!(SubRailContract::initialize(&mut store, merchant()), Ok(()));
    assert_eq!(SubRailContract::get_admin(&store), Ok(merchant()));
    assert_eq!(
        SubRailContract::initialize(&mut store, subscriber()),
        Err(Error::AlreadyInitialized)
    );
    assert_eq!(SubRailContract::get_admin(&store), Ok(merchant()));
}

#[test]
fn interval_bounds_are_one_hour_to_366_days() {
    let mut store = fresh();
    let mut make = |interval: u64| {
        SubRailContract::create_plan(&mut store, T0, merchant(), token(), PRICE, interval, 0, String::new())
    };
    assert_eq!(MIN_INTERVAL, 3_600);
    assert_eq!(MAX_INTERVAL, 366 * 24 * 3_600);
    assert_eq!(make(3_599), Err(Error::InvalidInterval));
    assert_eq!(make(3_600), Ok(1));
    assert_eq!(make(31_622_400), Ok(2));
    assert_eq!(make(31_622_401), Err(Error::InvalidInterval));
}

#[test]
fn identifiers_are_sequential_and_indexed_per_account() {
    let mut store = fresh();
    let other = AccountId::account(5, 5);
    let a = plan(&mut store);
    let b = SubRailContract::create_plan(&mut store, T0, other, token(), PRICE, MONTH, WEEK, "B".to_string())
        .unwrap();
    let c = plan(&mut store);
    assert_eq!((a, b, c), (1, 2, 3));
    assert_eq!(SubRailContract::get_merchant_plans(&store, merchant()), vec![1, 3]);
    assert_eq!(SubRailContract::get_merchant_plans(&store, other), vec![2]);
    assert_eq!(SubRailContract::get_merchant_plans(&store, subscriber()), Vec::<u64>::new());
    assert_eq!(storage::get_merchant_plans(&store, merchant()), vec![1, 3]);
}

#[test]
fn plan_records_its_terms() {
    let mut store = fresh();
    let id = plan(&mut store);
    let p = SubRailContract::get_plan(&store, id).unwrap();
    assert_eq!(p.token, token());
    assert_eq!(p.grace_period, WEEK);
    assert_eq!(p.name, "Pro");
    assert_eq!(p.created_at, T0);
    assert_eq!(SubRailContract::get_plan(&store, 99).unwrap_err(), Error::PlanNotFound);
    assert_eq!(SubRailContract::set_plan_active(&mut store, 99, false), Err(Error::PlanNotFound));
}

// ── Subscribe ──────────────────────────────────────────────────────────────

#[test]
fn subscribe_funds_escrow_then_pays_first_period() {
    let mut store = fresh();
    let p = plan(&mut store);
    let (id, t) = SubRailContract::subscribe(&mut store, T0, subscriber(), p, PRICE, 0, PRICE * 3).unwrap();
    assert_eq!(id, 1);
    assert_eq!(t, vec![fund(PRICE * 3), pay(PRICE)]);
    assert_eq!(SubRailContract::get_subscriber_subscriptions(&store, subscriber()), vec![1]);
    let s = sub(&store, id);
    assert_eq!(s.plan_id, p);
    assert_eq!(s.subscriber, subscriber());
    assert_eq!(s.max_amount, PRICE);
    assert_eq!(s.created_at, T0);
}

#[test]
fn subscribe_refusals() {
    let mut store = fresh();
    let p = plan(&mut store);
    let mut try_sub = |plan_id: u64, cap: i128, ceiling: i128, deposit: i128| {
        SubRailContract::subscribe(&mut store, T0, subscriber(), plan_id, cap, ceiling, deposit).map(|r| r.0)
    };
    assert_eq!(try_sub(99, PRICE, 0, PRICE), Err(Error::PlanNotFound));
    assert_eq!(try_sub(p, PRICE, -1, PRICE), Err(Error::InvalidAmount));
    assert_eq!(try_sub(p, PRICE, PRICE - 1, PRICE), Err(Error::InvalidAmount));
    assert_eq!(try_sub(p, PRICE - 1, 0, PRICE), Err(Error::CapBelowPlanAmount));
    assert_eq!(try_sub(p, PRICE, 0, 0), Err(Error::DepositBelowFirstCharge));
    // Nothing was stored by the refusals: the next identifier is still 1.
    assert_eq!(try_sub(p, PRICE, PRICE, PRICE), Ok(1));
}

// ── Charge ─────────────────────────────────────────────────────────────────

#[test]
fn charge_is_never_early() {
    let mut store = fresh();
    let id = open(&mut store, 0, PRICE * 3);
    let due = T0 + MONTH;
    assert_eq!(SubRailContract::is_charge_due(&store, due - 1, id), Ok(false));
    assert_eq!(SubRailContract::charge(&mut store, due - 1, id).unwrap_err(), Error::ChargeNotDue);
    assert_eq!(SubRailContract::is_charge_due(&store, due, id), Ok(true));
    let (o, t) = SubRailContract::charge(&mut store, due, id).unwrap();
    assert_eq!(o, ChargeOutcome::Charged);
    assert_eq!(t, vec![pay(PRICE)]);
    // The period just paid cannot be billed again.
    assert_eq!(SubRailContract::charge(&mut store, due, id).unwrap_err(), Error::ChargeNotDue);
    assert_eq!(SubRailContract::charge(&mut store, 99, id).unwrap_err(), Error::ChargeNotDue);
    assert_eq!(SubRailContract::charge(&mut store, due, 99).unwrap_err(), Error::SubscriptionNotFound);
}

#[test]
fn late_keeper_keeps_the_schedule_anchored() {
    let mut store = fresh();
    let id = open(&mut store, 0, PRICE * 3);
    let due = T0 + MONTH;
    let (o, _) = SubRailContract::charge(&mut store, due + 5_000, id).unwrap();
    assert_eq!(o, ChargeOutcome::Charged);
    assert_eq!(sub(&store, id).next_charge_at, due + MONTH);
}

#[test]
fn failed_charge_moves_no_money_and_counts_attempts() {
    let mut store = fresh();
    let id = open(&mut store, 0, PRICE + 10);
    let due = T0 + MONTH;
    for n in 1..=3u32 {
        let (o, t) = SubRailContract::charge(&mut store, due + u64::from(n), id).unwrap();
        assert_eq!(o, ChargeOutcome::InsufficientFunds);
        assert!(t.is_empty());
        let s = sub(&store, id);
        assert_eq!(s.status, SubscriptionStatus::PastDue);
        assert_eq!(s.failed_attempts, n);
        assert_eq!(s.balance, 10);
        assert_eq!(s.next_charge_at, due);
    }
    // At the very end of the grace window it is still only PastDue.
    let (o, _) = SubRailContract::charge(&mut store, due + WEEK, id).unwrap();
    assert_eq!(o, ChargeOutcome::InsufficientFunds);
    // One second later it expires and the residual goes back.
    let (o, t) = SubRailContract::charge(&mut store, due + WEEK + 1, id).unwrap();
    assert_eq!(o, ChargeOutcome::GraceElapsed);
    assert_eq!(t, vec![refund(10)]);
}

#[test]
fn funded_subscription_is_billed_even_after_grace() {
    let mut store = fresh();
    let id = open(&mut store, 0, PRICE * 2);
    let due = T0 + MONTH;
    let (o, _) = SubRailContract::charge(&mut store, due + WEEK + 100, id).unwrap();
    assert_eq!(o, ChargeOutcome::Charged);
}

#[test]
fn ceiling_expiry_refunds_and_never_overspends() {
    let mut store = fresh();
    let id = open(&mut store, PRICE * 2, PRICE * 5);
    let due = T0 + MONTH;
    assert_eq!(SubRailContract::charge(&mut store, due, id).unwrap().0, ChargeOutcome::Charged);
    let (o, t) = SubRailContract::charge(&mut store, due + MONTH, id).unwrap();
    assert_eq!(o, ChargeOutcome::CeilingReached);
    assert_eq!(t, vec![refund(PRICE * 3)]);
    let s = sub(&store, id);
    assert_eq!(s.total_spent, PRICE * 2);
    assert_eq!(s.balance, 0);
    assert_eq!(s.periods_paid, 2);
}

#[test]
fn closing_a_plan_does_not_stop_existing_billing() {
    let mut store = fresh();
    let id = open(&mut store, 0, PRICE * 2);
    let p = sub(&store, id).plan_id;
    SubRailContract::set_plan_active(&mut store, p, false).unwrap();
    let (o, t) = SubRailContract::charge(&mut store, T0 + MONTH, id).unwrap();
    assert_eq!(o, ChargeOutcome::Charged);
    assert_eq!(t, vec![pay(PRICE)]);
    SubRailContract::set_plan_active(&mut store, p, true).unwrap();
    assert!(SubRailContract::get_plan(&store, p).unwrap().active);
}

// ── Deposit / withdraw / escrow ────────────────────────────────────────────

#[test]
fn deposit_then_withdraw_restores_the_subscription() {
    let mut store = fresh();
    let id = open(&mut store, 0, PRICE * 2);
    let before = sub(&store, id);
    assert_eq!(SubRailContract::deposit(&mut store, id, 123).unwrap(), vec![fund(123)]);
    assert_eq!(SubRailContract::get_balance(&store, id), Ok(PRICE + 123));
    assert_eq!(SubRailContract::withdraw(&mut store, id, 123).unwrap(), vec![refund(123)]);
    assert_eq!(sub(&store, id), before);
}

#[test]
fn deposit_and_withdraw_refusals_change_nothing() {
    let mut store = fresh();
    let id = open(&mut store, 0, PRICE * 2);
    let before = sub(&store, id);
    assert_eq!(SubRailContract::deposit(&mut store, id, 0), Err(Error::InvalidAmount));
    assert_eq!(SubRailContract::deposit(&mut store, id, i128::MAX), Err(Error::InvalidAmount));
    assert_eq!(SubRailContract::withdraw(&mut store, id, -5), Err(Error::InvalidAmount));
    assert_eq!(SubRailContract::withdraw(&mut store, id, PRICE + 1), Err(Error::InsufficientBalance));
    assert_eq!(SubRailContract::deposit(&mut store, 42, 1), Err(Error::SubscriptionNotFound));
    assert_eq!(SubRailContract::get_balance(&store, 42), Err(Error::SubscriptionNotFound));
    assert_eq!(sub(&store, id), before);
}

#[test]
fn escrow_always_equals_the_sum_of_balances() {
    let mut store = fresh();
    let mut escrow: i128 = 0;
    let mut track = |ts: &[Transfer]| {
        for t in ts {
            if t.to == Party::Escrow {
                escrow += t.amount;
            }
            if t.from == Party::Escrow {
                escrow -= t.amount;
            }
        }
        escrow
    };
    let p = plan(&mut store);
    let (a, t) = SubRailContract::subscribe(&mut store, T0, subscriber(), p, PRICE, 0, PRICE * 3).unwrap();
    track(&t);
    let (b, t) = SubRailContract::subscribe(&mut store, T0, subscriber(), p, PRICE, 0, PRICE).unwrap();
    track(&t);
    track(&SubRailContract::charge(&mut store, T0 + MONTH, a).unwrap().1);
    track(&SubRailContract::charge(&mut store, T0 + MONTH, b).unwrap().1);
    track(&SubRailContract::deposit(&mut store, b, 7).unwrap());
    track(&SubRailContract::withdraw(&mut store, a, 3).unwrap());
    let held = track(&SubRailContract::cancel(&mut store, b).unwrap());
    let total = sub(&store, a).balance + sub(&store, b).balance;
    assert_eq!(held, total);
}

// ── Pause / resume / cancel ────────────────────────────────────────────────

#[test]
fn pause_and_resume_only_from_the_right_states() {
    let mut store = fresh();
    let id = open(&mut store, 0, PRICE);
    assert_eq!(SubRailContract::resume(&mut store, T0, id), Err(Error::InvalidStatus));
    // Make it PastDue: pausing is refused there.
    SubRailContract::charge(&mut store, T0 + MONTH, id).unwrap();
    assert_eq!(SubRailContract::pause(&mut store, T0 + MONTH, id), Err(Error::InvalidStatus));
    assert_eq!(SubRailContract::pause(&mut store, T0, 77), Err(Error::SubscriptionNotFound));
}

#[test]
fn pause_records_time_and_resume_clears_it() {
    let mut store = fresh();
    let id = open(&mut store, 0, PRICE * 2);
    let before = sub(&store, id);
    SubRailContract::pause(&mut store, T0 + 100, id).unwrap();
    let s = sub(&store, id);
    assert_eq!(s.paused_at, T0 + 100);
    assert_eq!(SubRailContract::is_charge_due(&store, T0 + 10 * MONTH, id), Ok(false));
    SubRailContract::resume(&mut store, T0 + 400, id).unwrap();
    let s = sub(&store, id);
    assert_eq!(s.paused_at, 0);
    assert_eq!(s, Subscription { next_charge_at: before.next_charge_at + 300, ..before });
}

#[test]
fn cancel_from_paused_refunds_and_everything_is_then_refused() {
    let mut store = fresh();
    let id = open(&mut store, 0, PRICE * 4);
    SubRailContract::pause(&mut store, T0 + 1, id).unwrap();
    assert_eq!(SubRailContract::cancel(&mut store, id).unwrap(), vec![refund(PRICE * 3)]);
    let s = sub(&store, id);
    assert_eq!(s.status, SubscriptionStatus::Cancelled);
    assert_eq!(s.paused_at, 0);
    let now = T0 + 2 * MONTH;
    assert_eq!(SubRailContract::charge(&mut store, now, id).unwrap_err(), Error::InvalidStatus);
    assert_eq!(SubRailContract::pause(&mut store, now, id), Err(Error::InvalidStatus));
    assert_eq!(SubRailContract::resume(&mut store, now, id), Err(Error::InvalidStatus));
    assert_eq!(SubRailContract::deposit(&mut store, id, 1), Err(Error::InvalidStatus));
    assert_eq!(SubRailContract::withdraw(&mut store, id, 1), Err(Error::InsufficientBalance));
    assert_eq!(SubRailContract::cancel(&mut store, id), Err(Error::InvalidStatus));
    assert_eq!(sub(&store, id), s);
}

#[test]
fn cancel_with_empty_balance_moves_nothing() {
    let mut store = fresh();
    let id = open(&mut store, 0, PRICE);
    assert_eq!(SubRailContract::cancel(&mut store, id).unwrap(), Vec::<Transfer>::new());
    assert_eq!(SubRailContract::cancel(&mut store, 5), Err(Error::SubscriptionNotFound));
}

// ── Storage ────────────────────────────────────────────────────────────────

#[test]
fn storage_counters_and_records() {
    let mut store = Storage::with_header(None, 41, 7);
    assert!(!storage::has_admin(&store));
    assert_eq!(storage::get_admin(&store), Err(Error::NotInitialized));
    storage::set_admin(&mut store, merchant());
    assert!(storage::has_admin(&store));
    assert_eq!(storage::next_plan_id(&mut store), 42);
    assert_eq!(storage::next_plan_id(&mut store), 43);
    assert_eq!(storage::next_sub_id(&mut store), 8);
    assert_eq!((store.plan_counter(), store.sub_counter()), (43, 8));
    assert_eq!(storage::get_subscription(&store, 8), Err(Error::SubscriptionNotFound));
    assert_eq!(storage::get_plan(&store, 43).unwrap_err(), Error::PlanNotFound);
    storage::push_subscriber_sub(&mut store, subscriber(), 8);
    storage::push_subscriber_sub(&mut store, subscriber(), 3);
    assert_eq!(storage::get_subscriber_subs(&store, subscriber()), vec![8, 3]);
    store.set_subscriber_subs(subscriber(), vec![1]);
    assert_eq!(storage::get_subscriber_subs(&store, subscriber()), vec![1]);
    store.set_merchant_plans(merchant(), vec![4, 5]);
    storage::push_merchant_plan(&mut store, merchant(), 6);
    assert_eq!(storage::get_merchant_plans(&store, merchant()), vec![4, 5, 6]);
}

// ── Authorization and stored-record facts ─────────────────────────────────

#[test]
fn required_signer_follows_the_auth_column() {
    let mut store = fresh();
    let id = open(&mut store, 0, PRICE * 2);
    let p = sub(&store, id).plan_id;
    let signer = |store: &Storage, r: Request| SubRailContract::required_signer(store, r);
    assert_eq!(signer(&store, Request::Initialize), Ok(None));
    assert_eq!(signer(&store, Request::Query), Ok(None));
    assert_eq!(signer(&store, Request::Charge { sub_id: id }), Ok(None));
    assert_eq!(signer(&store, Request::CreatePlan { merchant: merchant() }), Ok(Some(merchant())));
    assert_eq!(signer(&store, Request::SetPlanActive { plan_id: p }), Ok(Some(merchant())));
    assert_eq!(signer(&store, Request::SetPlanActive { plan_id: 99 }), Err(Error::PlanNotFound));
    assert_eq!(signer(&store, Request::Subscribe { subscriber: subscriber() }), Ok(Some(subscriber())));
    for r in [
        Request::Deposit { sub_id: id },
        Request::Withdraw { sub_id: id },
        Request::Pause { sub_id: id },
        Request::Resume { sub_id: id },
        Request::Cancel { sub_id: id },
    ] {
        assert_eq!(signer(&store, r), Ok(Some(subscriber())));
    }
    assert_eq!(signer(&store, Request::Cancel { sub_id: 99 }), Err(Error::SubscriptionNotFound));
    // A charge by anyone needs no signature, even on a missing subscription.
    assert_eq!(signer(&mut store, Request::Charge { sub_id: 99 }), Ok(None));
}

#[test]
fn spending_is_price_times_periods() {
    let mut store = fresh();
    let id = open(&mut store, 0, PRICE * 10);
    for k in 1..=4u64 {
        SubRailContract::charge(&mut store, T0 + k * MONTH, id).unwrap();
        let s = sub(&store, id);
        assert_eq!(s.total_spent, i128::from(s.periods_paid) * PRICE);
    }
    assert_eq!(sub(&store, id).periods_paid, 5);
}

#[test]
fn plans_derive_clone_and_equality() {
    let mut store = fresh();
    let id = plan(&mut store);
    let p = SubRailContract::get_plan(&store, id).unwrap();
    let q = p.clone();
    assert_eq!(p, q);
    assert_eq!(p, p.duplicate());
}
