//! SubRail: the rulebook of a recurring-payments protocol with prepaid
//! balances. Merchants publish immutable billing plans, subscribers fund a
//! per-subscription balance, and a permissionless keeper moves at most one
//! period's price per elapsed period from that balance to the merchant.
//!
//! Every entry point works on the protocol's [`storage::Storage`] and the
//! current ledger time, and answers with the token movements the host has
//! to carry out in the same transaction. Which account has to authorize a
//! request is documented on each entry point.

pub mod billing;
pub mod errors;
pub mod laws;
pub mod storage;
pub mod types;

use vstd::prelude::*;

pub use crate::errors::Error;
pub use crate::types::{
    AccountId, AccountKind, ChargeOutcome, Party, Plan, Subscription, SubscriptionStatus, Transfer,
};

use crate::billing::{
    cancel_subscription, charge_subscription, check_plan_terms, deposit_into, is_due,
    open_subscription, pause_subscription, resume_subscription, spec_cancel, spec_charge,
    spec_check_plan_terms, spec_deposit, spec_is_due, spec_open, spec_pause, spec_resume,
    spec_withdraw, withdraw_from,
};
use crate::storage::{index_pushed, ids_of, Storage, StorageView};

verus! {

/// Contract-level version, surfaced by `get_version()`.
pub const CONTRACT_VERSION: u32 = 1;

/// The protocol's entry points.
pub struct SubRailContract;

/// A request to the protocol, with the identifiers on which its
/// authorization depends.
#[derive(Clone, Copy, Debug, PartialEq, Eq, Structural)]
pub enum Request {
    Initialize,
    CreatePlan { merchant: AccountId },
    SetPlanActive { plan_id: u64 },
    Subscribe { subscriber: AccountId },
    Deposit { sub_id: u64 },
    Withdraw { sub_id: u64 },
    Pause { sub_id: u64 },
    Resume { sub_id: u64 },
    Cancel { sub_id: u64 },
    Charge { sub_id: u64 },
    /// Any read-only query.
    Query,
}

// ── What each entry point does to the state ─────────────────────────────

/// Who has to authorize a request: nobody for setup, the keeper's charge and
/// queries; the merchant for creating a plan or changing its `active` flag;
/// the subscriber for subscribing and for every change to a subscription.
/// A request on a plan or subscription that does not exist is refused.
pub open spec fn spec_required_signer(s: StorageView, request: Request) -> Result<
    Option<AccountId>,
    Error,
> {
    match request {
        Request::Initialize | Request::Charge { .. } | Request::Query => Ok(None),
        Request::CreatePlan { merchant } => Ok(Some(merchant)),
        Request::Subscribe { subscriber } => Ok(Some(subscriber)),
        Request::SetPlanActive { plan_id } => if s.plans.contains_key(plan_id) {
            Ok(Some(s.plans[plan_id].merchant))
        } else {
            Err(Error::PlanNotFound)
        },
        Request::Deposit { sub_id }
        | Request::Withdraw { sub_id }
        | Request::Pause { sub_id }
        | Request::Resume { sub_id }
        | Request::Cancel { sub_id } => if s.subscriptions.contains_key(sub_id) {
            Ok(Some(s.subscriptions[sub_id].subscriber))
        } else {
            Err(Error::SubscriptionNotFound)
        },
    }
}

/// The state with `sub` stored under its identifier.
pub open spec fn with_subscription(s: StorageView, sub: Subscription) -> StorageView {
    StorageView { subscriptions: s.subscriptions.insert(sub.id, sub), ..s }
}

pub open spec fn spec_initialize(s: StorageView, admin: AccountId) -> (StorageView, Result<(), Error>) {
    if s.admin is Some {
        (s, Err(Error::AlreadyInitialized))
    } else {
        (StorageView { admin: Some(admin), ..s }, Ok(()))
    }
}

/// The plan that `create_plan` stores under identifier `id`.
pub open spec fn spec_new_plan(
    id: u64,
    merchant: AccountId,
    token: AccountId,
    amount: i128,
    interval: u64,
    grace_period: u64,
    name: String,
    now: u64,
) -> Plan {
    Plan { id, merchant, token, amount, interval, grace_period, name, active: true, created_at: now }
}

pub open spec fn spec_create_plan(
    s: StorageView,
    now: u64,
    merchant: AccountId,
    token: AccountId,
    amount: i128,
    interval: u64,
    grace_period: u64,
    name: String,
) -> (StorageView, Result<u64, Error>) {
    match spec_check_plan_terms(amount, interval) {
        Some(e) => (s, Err(e)),
        None => {
            let id = (s.plan_counter + 1) as u64;
            (
                StorageView {
                    plan_counter: id,
                    plans: s.plans.insert(
                        id,
                        spec_new_plan(id, merchant, token, amount, interval, grace_period, name, now),
                    ),
                    merchant_plans: index_pushed(s.merchant_plans, merchant, id),
                    ..s
                },
                Ok(id),
            )
        },
    }
}

pub open spec fn spec_set_plan_active(s: StorageView, plan_id: u64, active: bool) -> (
    StorageView,
    Result<(), Error>,
) {
    if !s.plans.contains_key(plan_id) {
        (s, Err(Error::PlanNotFound))
    } else {
        (
            StorageView {
                plans: s.plans.insert(plan_id, Plan { active, ..s.plans[plan_id] }),
                ..s
            },
            Ok(()),
        )
    }
}

pub open spec fn spec_subscribe(
    s: StorageView,
    now: u64,
    subscriber: AccountId,
    plan_id: u64,
    max_amount: i128,
    spend_ceiling: i128,
    initial_deposit: i128,
) -> (StorageView, Result<(u64, Seq<Transfer>), Error>) {
    if !s.plans.contains_key(plan_id) {
        (s, Err(Error::PlanNotFound))
    } else {
        let id = (s.sub_counter + 1) as u64;
        match spec_open(
            s.plans[plan_id],
            id,
            subscriber,
            max_amount,
            spend_ceiling,
            initial_deposit,
            now,
        ) {
            Err(e) => (s, Err(e)),
            Ok((sub, t)) => (
                StorageView {
                    sub_counter: id,
                    subscriptions: s.subscriptions.insert(id, sub),
                    subscriber_subs: index_pushed(s.subscriber_subs, subscriber, id),
                    ..s
                },
                Ok((id, t)),
            ),
        }
    }
}

/// Looks up a subscription and its plan, then applies a rule that needs the
/// plan's token.
pub open spec fn spec_with_token(
    s: StorageView,
    sub_id: u64,
    rule: spec_fn(AccountId, Subscription) -> Result<(Subscription, Seq<Transfer>), Error>,
) -> (StorageView, Result<Seq<Transfer>, Error>) {
    if !s.subscriptions.contains_key(sub_id) {
        (s, Err(Error::SubscriptionNotFound))
    } else if !s.plans.contains_key(s.subscriptions[sub_id].plan_id) {
        (s, Err(Error::PlanNotFound))
    } else {
        let sub = s.subscriptions[sub_id];
        match rule(s.plans[sub.plan_id].token, sub) {
            Err(e) => (s, Err(e)),
            Ok((ns, t)) => (with_subscription(s, ns), Ok(t)),
        }
    }
}

pub open spec fn spec_deposit_call(s: StorageView, sub_id: u64, amount: i128) -> (
    StorageView,
    Result<Seq<Transfer>, Error>,
) {
    spec_with_token(s, sub_id, |token: AccountId, sub: Subscription| spec_deposit(token, sub, amount))
}

pub open spec fn spec_withdraw_call(s: StorageView, sub_id: u64, amount: i128) -> (
    StorageView,
    Result<Seq<Transfer>, Error>,
) {
    spec_with_token(s, sub_id, |token: AccountId, sub: Subscription| spec_withdraw(token, sub, amount))
}

pub open spec fn spec_cancel_call(s: StorageView, sub_id: u64) -> (
    StorageView,
    Result<Seq<Transfer>, Error>,
) {
    spec_with_token(s, sub_id, |token: AccountId, sub: Subscription| spec_cancel(token, sub))
}

/// Looks up a subscription and applies a rule that needs no plan.
pub open spec fn spec_status_call(
    s: StorageView,
    sub_id: u64,
    rule: spec_fn(Subscription) -> Result<Subscription, Error>,
) -> (StorageView, Result<(), Error>) {
    if !s.subscriptions.contains_key(sub_id) {
        (s, Err(Error::SubscriptionNotFound))
    } else {
        match rule(s.subscriptions[sub_id]) {
            Err(e) => (s, Err(e)),
            Ok(ns) => (with_subscription(s, ns), Ok(())),
        }
    }
}

pub open spec fn spec_pause_call(s: StorageView, now: u64, sub_id: u64) -> (
    StorageView,
    Result<(), Error>,
) {
    spec_status_call(s, sub_id, |sub: Subscription| spec_pause(sub, now))
}

pub open spec fn spec_resume_call(s: StorageView, now: u64, sub_id: u64) -> (
    StorageView,
    Result<(), Error>,
) {
    spec_status_call(s, sub_id, |sub: Subscription| spec_resume(sub, now))
}

pub open spec fn spec_charge_call(s: StorageView, now: u64, sub_id: u64) -> (
    StorageView,
    Result<(ChargeOutcome, Seq<Transfer>), Error>,
) {
    if !s.subscriptions.contains_key(sub_id) {
        (s, Err(Error::SubscriptionNotFound))
    } else if !s.plans.contains_key(s.subscriptions[sub_id].plan_id) {
        (s, Err(Error::PlanNotFound))
    } else {
        let sub = s.subscriptions[sub_id];
        match spec_charge(s.plans[sub.plan_id], sub, now) {
            Err(e) => (s, Err(e)),
            Ok((ns, o, t)) => (with_subscription(s, ns), Ok((o, t))),
        }
    }
}

/// An executable answer carrying transfers agrees with a spec answer.
pub open spec fn transfers_answer(r: Result<Vec<Transfer>, Error>, s: Result<Seq<Transfer>, Error>) -> bool {
    match (r, s) {
        (Ok(t), Ok(t2)) => t@ == t2,
        (Err(e), Err(e2)) => e == e2,
        _ => false,
    }
}

// ── Entry points ────────────────────────────────────────────────────────

impl SubRailContract {
    /// Initialize the protocol with an admin address. Callable once.
    pub fn initialize(store: &mut Storage, admin: AccountId) -> (r: Result<(), Error>)
        requires
            old(store).wf(),
        ensures
            final(store).wf(),
            (final(store)@, r) == spec_initialize(old(store)@, admin),
    {
        if storage::has_admin(store) {
            return Err(Error::AlreadyInitialized);
        }
        storage::set_admin(store, admin);
        Ok(())
    }

    /// The admin set by `initialize`.
    pub fn get_admin(store: &Storage) -> (r: Result<AccountId, Error>)
        ensures
            match store@.admin {
                Some(a) => r == Ok::<AccountId, Error>(a),
                None => r == Err::<AccountId, Error>(Error::NotInitialized),
            },
    {
        storage::get_admin(store)
    }

    /// The account that has to authorize `request`, if any.
    pub fn required_signer(store: &Storage, request: Request) -> (r: Result<Option<AccountId>, Error>)
        ensures
            r == spec_required_signer(store@, request),
    {
        match request {
            Request::Initialize | Request::Charge { .. } | Request::Query => Ok(None),
            Request::CreatePlan { merchant } => Ok(Some(merchant)),
            Request::Subscribe { subscriber } => Ok(Some(subscriber)),
            Request::SetPlanActive { plan_id } => match storage::get_plan(store, plan_id) {
                Ok(p) => Ok(Some(p.merchant)),
                Err(e) => Err(e),
            },
            Request::Deposit { sub_id }
            | Request::Withdraw { sub_id }
            | Request::Pause { sub_id }
            | Request::Resume { sub_id }
            | Request::Cancel { sub_id } => match storage::get_subscription(store, sub_id) {
                Ok(sub) => Ok(Some(sub.subscriber)),
                Err(e) => Err(e),
            },
        }
    }

    /// Contract-level version constant.
    pub fn get_version() -> (r: u32)
        ensures
            r == CONTRACT_VERSION,
    {
        CONTRACT_VERSION
    }

    /// Create a billing plan for `merchant` (who authorizes it) and return
    /// its identifier. The price must be positive and the interval between
    /// one hour and 366 days.
    pub fn create_plan(
        store: &mut Storage,
        now: u64,
        merchant: AccountId,
        token: AccountId,
        amount: i128,
        interval: u64,
        grace_period: u64,
        name: String,
    ) -> (r: Result<u64, Error>)
        requires
            old(store).wf(),
            old(store)@.plan_counter < u64::MAX,
        ensures
            final(store).wf(),
            (final(store)@, r) == spec_create_plan(
                old(store)@,
                now,
                merchant,
                token,
                amount,
                interval,
                grace_period,
                name,
            ),
    {
        if let Some(e) = check_plan_terms(amount, interval) {
            return Err(e);
        }
        let id = storage::next_plan_id(store);
        let plan = Plan {
            id,
            merchant,
            token,
            amount,
            interval,
            grace_period,
            name,
            active: true,
            created_at: now,
        };
        storage::set_plan(store, plan);
        storage::push_merchant_plan(store, merchant, id);
        Ok(id)
    }

    /// Open or close a plan to new subscriptions; authorized by the plan's
    /// merchant. Existing subscriptions keep billing either way.
    pub fn set_plan_active(store: &mut Storage, plan_id: u64, active: bool) -> (r: Result<
        (),
        Error,
    >)
        requires
            old(store).wf(),
        ensures
            final(store).wf(),
            (final(store)@, r) == spec_set_plan_active(old(store)@, plan_id, active),
    {
        let mut plan = match storage::get_plan(store, plan_id) {
            Ok(p) => p,
            Err(e) => {
                return Err(e);
            },
        };
        plan.active = active;
        proof {
            store.lemma_keys_match();
        }
        storage::set_plan(store, plan);
        Ok(())
    }

    /// Subscribe `subscriber` (who authorizes it) to a plan, funding the
    /// balance with `initial_deposit`; the first period settles at once.
    /// Returns the new subscription's identifier and the transfers.
    pub fn subscribe(
        store: &mut Storage,
        now: u64,
        subscriber: AccountId,
        plan_id: u64,
        max_amount: i128,
        spend_ceiling: i128,
        initial_deposit: i128,
    ) -> (r: Result<(u64, Vec<Transfer>), Error>)
        requires
            old(store).wf(),
            old(store)@.sub_counter < u64::MAX,
        ensures
            final(store).wf(),
            final(store)@ == spec_subscribe(
                old(store)@,
                now,
                subscriber,
                plan_id,
                max_amount,
                spend_ceiling,
                initial_deposit,
            ).0,
            match (
                r,
                spec_subscribe(
                    old(store)@,
                    now,
                    subscriber,
                    plan_id,
                    max_amount,
                    spend_ceiling,
                    initial_deposit,
                ).1,
            ) {
                (Ok((id, t)), Ok((id2, t2))) => id == id2 && t@ == t2,
                (Err(e), Err(e2)) => e == e2,
                _ => false,
            },
    {
        let plan = match storage::get_plan(store, plan_id) {
            Ok(p) => p,
            Err(e) => {
                return Err(e);
            },
        };
        let id = store.sub_counter() + 1;
        let (sub, transfers) = match open_subscription(
            &plan,
            id,
            subscriber,
            max_amount,
            spend_ceiling,
            initial_deposit,
            now,
        ) {
            Ok(v) => v,
            Err(e) => {
                return Err(e);
            },
        };
        let got = storage::next_sub_id(store);
        assert(got == id);
        storage::set_subscription(store, sub);
        storage::push_subscriber_sub(store, subscriber, id);
        Ok((id, transfers))
    }

    /// Top up the prepaid balance; authorized by the subscriber.
    pub fn deposit(store: &mut Storage, sub_id: u64, amount: i128) -> (r: Result<
        Vec<Transfer>,
        Error,
    >)
        requires
            old(store).wf(),
        ensures
            final(store).wf(),
            final(store)@ == spec_deposit_call(old(store)@, sub_id, amount).0,
            transfers_answer(r, spec_deposit_call(old(store)@, sub_id, amount).1),
    {
        let sub = match storage::get_subscription(store, sub_id) {
            Ok(s) => s,
            Err(e) => {
                return Err(e);
            },
        };
        let plan = match storage::get_plan(store, sub.plan_id) {
            Ok(p) => p,
            Err(e) => {
                return Err(e);
            },
        };
        match deposit_into(plan.token, sub, amount) {
            Ok((ns, t)) => {
                proof {
                    store.lemma_keys_match();
                }
                storage::set_subscription(store, ns);
                Ok(t)
            },
            Err(e) => Err(e),
        }
    }

    /// Pull unused funds out at any time; authorized by the subscriber.
    pub fn withdraw(store: &mut Storage, sub_id: u64, amount: i128) -> (r: Result<
        Vec<Transfer>,
        Error,
    >)
        requires
            old(store).wf(),
        ensures
            final(store).wf(),
            final(store)@ == spec_withdraw_call(old(store)@, sub_id, amount).0,
            transfers_answer(r, spec_withdraw_call(old(store)@, sub_id, amount).1),
    {
        let sub = match storage::get_subscription(store, sub_id) {
            Ok(s) => s,
            Err(e) => {
                return Err(e);
            },
        };
        let plan = match storage::get_plan(store, sub.plan_id) {
            Ok(p) => p,
            Err(e) => {
                return Err(e);
            },
        };
        match withdraw_from(plan.token, sub, amount) {
            Ok((ns, t)) => {
                proof {
                    store.lemma_keys_match();
                }
                storage::set_subscription(store, ns);
                Ok(t)
            },
            Err(e) => Err(e),
        }
    }

    /// Freeze billing; authorized by the subscriber.
    pub fn pause(store: &mut Storage, now: u64, sub_id: u64) -> (r: Result<(), Error>)
        requires
            old(store).wf(),
        ensures
            final(store).wf(),
            (final(store)@, r) == spec_pause_call(old(store)@, now, sub_id),
    {
        let sub = match storage::get_subscription(store, sub_id) {
            Ok(s) => s,
            Err(e) => {
                return Err(e);
            },
        };
        match pause_subscription(sub, now) {
            Ok(ns) => {
                proof {
                    store.lemma_keys_match();
                }
                storage::set_subscription(store, ns);
                Ok(())
            },
            Err(e) => Err(e),
        }
    }

    /// Resume billing, shifting the schedule by the paused duration;
    /// authorized by the subscriber.
    pub fn resume(store: &mut Storage, now: u64, sub_id: u64) -> (r: Result<(), Error>)
        requires
            old(store).wf(),
        ensures
            final(store).wf(),
            (final(store)@, r) == spec_resume_call(old(store)@, now, sub_id),
    {
        let sub = match storage::get_subscription(store, sub_id) {
            Ok(s) => s,
            Err(e) => {
                return Err(e);
            },
        };
        match resume_subscription(sub, now) {
            Ok(ns) => {
                proof {
                    store.lemma_keys_match();
                }
                storage::set_subscription(store, ns);
                Ok(())
            },
            Err(e) => Err(e),
        }
    }

    /// Terminate the subscription and refund the full remaining balance;
    /// authorized by the subscriber.
    pub fn cancel(store: &mut Storage, sub_id: u64) -> (r: Result<Vec<Transfer>, Error>)
        requires
            old(store).wf(),
        ensures
            final(store).wf(),
            final(store)@ == spec_cancel_call(old(store)@, sub_id).0,
            transfers_answer(r, spec_cancel_call(old(store)@, sub_id).1),
    {
        let sub = match storage::get_subscription(store, sub_id) {
            Ok(s) => s,
            Err(e) => {
                return Err(e);
            },
        };
        let plan = match storage::get_plan(store, sub.plan_id) {
            Ok(p) => p,
            Err(e) => {
                return Err(e);
            },
        };
        match cancel_subscription(plan.token, sub) {
            Ok((ns, t)) => {
                proof {
                    store.lemma_keys_match();
                }
                storage::set_subscription(store, ns);
                Ok(t)
            },
            Err(e) => Err(e),
        }
    }

    /// Keeper entry point (needs no authorization): settles a due period or
    /// records the failure.
    pub fn charge(store: &mut Storage, now: u64, sub_id: u64) -> (r: Result<
        (ChargeOutcome, Vec<Transfer>),
        Error,
    >)
        requires
            old(store).wf(),
        ensures
            final(store).wf(),
            final(store)@ == spec_charge_call(old(store)@, now, sub_id).0,
            match (r, spec_charge_call(old(store)@, now, sub_id).1) {
                (Ok((o, t)), Ok((o2, t2))) => o == o2 && t@ == t2,
                (Err(e), Err(e2)) => e == e2,
                _ => false,
            },
    {
        let sub = match storage::get_subscription(store, sub_id) {
            Ok(s) => s,
            Err(e) => {
                return Err(e);
            },
        };
        let plan = match storage::get_plan(store, sub.plan_id) {
            Ok(p) => p,
            Err(e) => {
                return Err(e);
            },
        };
        match charge_subscription(&plan, sub, now) {
            Ok((ns, o, t)) => {
                proof {
                    store.lemma_keys_match();
                }
                storage::set_subscription(store, ns);
                Ok((o, t))
            },
            Err(e) => Err(e),
        }
    }

    /// The plan stored under `plan_id`.
    pub fn get_plan(store: &Storage, plan_id: u64) -> (r: Result<Plan, Error>)
        ensures
            store@.plans.contains_key(plan_id) ==> r == Ok::<Plan, Error>(store@.plans[plan_id]),
            !store@.plans.contains_key(plan_id) ==> r == Err::<Plan, Error>(Error::PlanNotFound),
    {
        storage::get_plan(store, plan_id)
    }

    /// The subscription stored under `sub_id`.
    pub fn get_subscription(store: &Storage, sub_id: u64) -> (r: Result<Subscription, Error>)
        ensures
            store@.subscriptions.contains_key(sub_id) ==> r == Ok::<Subscription, Error>(
                store@.subscriptions[sub_id],
            ),
            !store@.subscriptions.contains_key(sub_id) ==> r == Err::<Subscription, Error>(
                Error::SubscriptionNotFound,
            ),
    {
        storage::get_subscription(store, sub_id)
    }

    /// The plans of `merchant`, oldest first.
    pub fn get_merchant_plans(store: &Storage, merchant: AccountId) -> (r: Vec<u64>)
        requires
            store.wf(),
        ensures
            r@ == ids_of(store@.merchant_plans, merchant),
    {
        storage::get_merchant_plans(store, merchant)
    }

    /// The subscriptions of `subscriber`, oldest first.
    pub fn get_subscriber_subscriptions(store: &Storage, subscriber: AccountId) -> (r: Vec<u64>)
        requires
            store.wf(),
        ensures
            r@ == ids_of(store@.subscriber_subs, subscriber),
    {
        storage::get_subscriber_subs(store, subscriber)
    }

    /// The prepaid balance of a subscription.
    pub fn get_balance(store: &Storage, sub_id: u64) -> (r: Result<i128, Error>)
        ensures
            store@.subscriptions.contains_key(sub_id) ==> r == Ok::<i128, Error>(
                store@.subscriptions[sub_id].balance,
            ),
            !store@.subscriptions.contains_key(sub_id) ==> r == Err::<i128, Error>(
                Error::SubscriptionNotFound,
            ),
    {
        match storage::get_subscription(store, sub_id) {
            Ok(s) => Ok(s.balance),
            Err(e) => Err(e),
        }
    }

    /// Whether the keeper may bill the subscription at `now`.
    pub fn is_charge_due(store: &Storage, now: u64, sub_id: u64) -> (r: Result<bool, Error>)
        ensures
            store@.subscriptions.contains_key(sub_id) ==> r == Ok::<bool, Error>(
                spec_is_due(store@.subscriptions[sub_id], now),
            ),
            !store@.subscriptions.contains_key(sub_id) ==> r == Err::<bool, Error>(
                Error::SubscriptionNotFound,
            ),
    {
        match storage::get_subscription(store, sub_id) {
            Ok(s) => Ok(is_due(&s, now)),
            Err(e) => Err(e),
        }
    }
}

} // verus!
