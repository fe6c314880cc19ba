//! Properties of the protocol that hold for all inputs, across calls and
//! across states, proved from the rules in `billing` and the entry points'
//! state transformers in the crate root.

use vstd::prelude::*;

use crate::billing::{
    escrow_inflow, is_lifecycle_step, spec_cancel, spec_charge, spec_deposit, spec_open, spec_pause,
    spec_is_due, spec_refund, spec_resume, spec_withdraw, spent_matches_periods, sub_fits_plan, sub_wf,
    valid_plan_terms,
};
use crate::errors::Error;
use crate::storage::{ids_of, StorageView};
use crate::types::{AccountId, ChargeOutcome, Party, Plan, Subscription, SubscriptionStatus, Transfer};
use crate::{
    with_subscription, spec_cancel_call, spec_charge_call, spec_create_plan, spec_deposit_call, spec_initialize,
    spec_pause_call, spec_resume_call, spec_set_plan_active, spec_subscribe, spec_withdraw_call,
};

verus! {

// ── Billing: never early, never more ────────────────────────────────────

/// A charge is only ever settled for a billable subscription whose period
/// has started: never early, and never while paused or terminated.
pub proof fn law_charge_never_early(plan: Plan, s: Subscription, now: u64)
    ensures
        spec_charge(plan, s, now) is Ok ==> s.status.spec_is_billable() && now >= s.next_charge_at,
{
}

/// A charge moves at most one period's price to the merchant, and never
/// more than the subscriber's per-period cap: a settled period moves
/// exactly the plan's price, any other outcome pays the merchant nothing.
pub proof fn law_charge_at_most_one_period(plan: Plan, s: Subscription, now: u64)
    ensures
        spec_charge(plan, s, now) matches Ok((ns, o, t)) ==> {
            &&& plan.amount <= s.max_amount
            &&& (o == ChargeOutcome::Charged ==> {
                &&& t == seq![
                    Transfer {
                        token: plan.token,
                        from: Party::Escrow,
                        to: Party::Account(plan.merchant),
                        amount: plan.amount,
                    },
                ]
                &&& ns.total_spent == s.total_spent + plan.amount
                &&& ns.balance == s.balance - plan.amount
                &&& ns.periods_paid == s.periods_paid.saturating_add(1)
            })
            &&& (o != ChargeOutcome::Charged ==> {
                &&& ns.total_spent == s.total_spent
                &&& ns.periods_paid == s.periods_paid
                &&& forall|i: int| 0 <= i < t.len() ==> #[trigger] t[i].to == Party::Account(s.subscriber)
            })
        },
{
}

/// After a settled period the next one starts at least one interval after
/// the one just paid; a subscription recovering from PastDue is re-anchored
/// at the recovery time instead of being billed for the missed periods.
pub proof fn law_schedule_never_bursts(plan: Plan, s: Subscription, now: u64)
    ensures
        spec_charge(plan, s, now) matches Ok((ns, o, t)) ==> (o == ChargeOutcome::Charged ==> {
            &&& ns.next_charge_at >= s.next_charge_at.saturating_add(plan.interval)
            &&& s.status == SubscriptionStatus::Active ==> ns.next_charge_at
                == s.next_charge_at.saturating_add(plan.interval)
            &&& s.status == SubscriptionStatus::PastDue ==> ns.next_charge_at == now.saturating_add(
                plan.interval,
            )
        }),
{
}

/// A charge that the balance cannot cover moves no money and leaves the
/// subscription PastDue, unless the grace window after the due date has
/// passed; then it expires and the residual balance goes back to the
/// subscriber.
pub proof fn law_uncovered_charge(plan: Plan, s: Subscription, now: u64)
    ensures
        spec_charge(plan, s, now) matches Ok((ns, o, t)) ==> {
            &&& o == ChargeOutcome::InsufficientFunds ==> {
                &&& t.len() == 0
                &&& ns.balance == s.balance
                &&& ns.status == SubscriptionStatus::PastDue
                &&& ns.failed_attempts == s.failed_attempts.saturating_add(1)
                &&& now <= s.next_charge_at + plan.grace_period
            }
            &&& o == ChargeOutcome::GraceElapsed ==> {
                &&& s.balance < plan.amount
                &&& now > s.next_charge_at + plan.grace_period
                &&& ns.status == SubscriptionStatus::Expired
                &&& ns.balance == 0
                &&& t == spec_refund(plan.token, s)
            }
            &&& o == ChargeOutcome::CeilingReached ==> {
                &&& s.spend_ceiling > 0
                &&& s.total_spent + plan.amount > s.spend_ceiling
                &&& ns.status == SubscriptionStatus::Expired
                &&& ns.balance == 0
                &&& t == spec_refund(plan.token, s)
            }
        },
{
}

/// Closing a plan to new subscriptions is prospective only: billing an
/// existing subscription does not depend on the plan's `active` flag.
pub proof fn law_deactivation_is_prospective(plan: Plan, s: Subscription, now: u64, active: bool)
    ensures
        spec_charge(Plan { active, ..plan }, s, now) == spec_charge(plan, s, now),
{
}

/// A closed plan takes no new subscribers.
pub proof fn law_inactive_plan_refuses_subscribers(
    plan: Plan,
    id: u64,
    subscriber: AccountId,
    max_amount: i128,
    spend_ceiling: i128,
    initial_deposit: i128,
    now: u64,
)
    requires
        !plan.active,
    ensures
        spec_open(plan, id, subscriber, max_amount, spend_ceiling, initial_deposit, now) == Err::<
            (Subscription, Seq<Transfer>),
            Error,
        >(Error::PlanInactive),
{
}

// ── Money held in escrow ────────────────────────────────────────────────

proof fn lemma_inflow_one(t: Transfer)
    ensures
        escrow_inflow(seq![t]) == (if t.to == Party::Escrow && t.from != Party::Escrow {
            t.amount as int
        } else if t.from == Party::Escrow && t.to != Party::Escrow {
            -(t.amount as int)
        } else {
            0
        }),
{
    reveal_with_fuel(escrow_inflow, 2);
    assert(seq![t].drop_last() =~= Seq::<Transfer>::empty());
}

proof fn lemma_inflow_two(a: Transfer, b: Transfer)
    ensures
        escrow_inflow(seq![a, b]) == escrow_inflow(seq![a]) + escrow_inflow(seq![b]),
{
    lemma_inflow_one(a);
    lemma_inflow_one(b);
    assert(seq![a, b].drop_last() =~= seq![a]);
}

proof fn lemma_refund_inflow(token: AccountId, s: Subscription)
    requires
        s.balance >= 0,
    ensures
        escrow_inflow(spec_refund(token, s)) == -(s.balance as int),
{
    if s.balance > 0 {
        lemma_inflow_one(
            Transfer {
                token,
                from: Party::Escrow,
                to: Party::Account(s.subscriber),
                amount: s.balance,
            },
        );
    }
}

/// The escrow holds exactly what the subscriptions' balances say: every
/// rule changes a balance by exactly the net amount its transfers move
/// into escrow, and opening a subscription leaves in escrow exactly the new
/// balance.
pub proof fn law_escrow_matches_balances(
    plan: Plan,
    s: Subscription,
    now: u64,
    amount: i128,
    id: u64,
    subscriber: AccountId,
    max_amount: i128,
    spend_ceiling: i128,
    initial_deposit: i128,
)
    requires
        sub_wf(s),
    ensures
        spec_charge(plan, s, now) matches Ok((ns, o, t)) ==> ns.balance - s.balance == escrow_inflow(t),
        spec_deposit(plan.token, s, amount) matches Ok((ns, t)) ==> ns.balance - s.balance
            == escrow_inflow(t),
        spec_withdraw(plan.token, s, amount) matches Ok((ns, t)) ==> ns.balance - s.balance
            == escrow_inflow(t),
        spec_cancel(plan.token, s) matches Ok((ns, t)) ==> ns.balance - s.balance == escrow_inflow(t),
        spec_open(plan, id, subscriber, max_amount, spend_ceiling, initial_deposit, now) matches Ok(
            (ns, t),
        ) ==> ns.balance == escrow_inflow(t),
{
    lemma_refund_inflow(plan.token, s);
    let pay = Transfer {
        token: plan.token,
        from: Party::Escrow,
        to: Party::Account(plan.merchant),
        amount: plan.amount,
    };
    lemma_inflow_one(pay);
    lemma_inflow_one(
        Transfer { token: plan.token, from: Party::Account(s.subscriber), to: Party::Escrow, amount },
    );
    lemma_inflow_one(
        Transfer { token: plan.token, from: Party::Escrow, to: Party::Account(s.subscriber), amount },
    );
    let fund = Transfer {
        token: plan.token,
        from: Party::Account(subscriber),
        to: Party::Escrow,
        amount: initial_deposit,
    };
    lemma_inflow_two(fund, pay);
    lemma_inflow_one(fund);
    reveal_with_fuel(escrow_inflow, 1);
}

// ── The record's invariant and the lifecycle ────────────────────────────

/// Every rule keeps a subscription well formed: no negative balance or
/// spending, the spend ceiling (when set) never exceeded, no funds held
/// after termination; and opening produces a well-formed subscription that
/// fits its plan.
pub proof fn law_rules_keep_subscriptions_well_formed(
    plan: Plan,
    s: Subscription,
    now: u64,
    amount: i128,
    id: u64,
    subscriber: AccountId,
    max_amount: i128,
    spend_ceiling: i128,
    initial_deposit: i128,
)
    requires
        sub_wf(s),
        sub_fits_plan(plan, s),
    ensures
        spec_charge(plan, s, now) matches Ok((ns, o, t)) ==> sub_wf(ns) && sub_fits_plan(plan, ns),
        spec_pause(s, now) matches Ok(ns) ==> sub_wf(ns) && sub_fits_plan(plan, ns),
        spec_resume(s, now) matches Ok(ns) ==> sub_wf(ns) && sub_fits_plan(plan, ns),
        spec_cancel(plan.token, s) matches Ok((ns, t)) ==> sub_wf(ns) && sub_fits_plan(plan, ns),
        spec_deposit(plan.token, s, amount) matches Ok((ns, t)) ==> sub_wf(ns) && sub_fits_plan(
            plan,
            ns,
        ),
        spec_withdraw(plan.token, s, amount) matches Ok((ns, t)) ==> sub_wf(ns) && sub_fits_plan(
            plan,
            ns,
        ),
        spec_open(plan, id, subscriber, max_amount, spend_ceiling, initial_deposit, now) matches Ok(
            (ns, t),
        ) ==> sub_wf(ns) && sub_fits_plan(plan, ns),
{
}

/// Spending stays in step with the paid periods: every rule keeps the total
/// spent equal to the plan's price times the periods paid (until that count
/// saturates), and opening starts it at one period.
pub proof fn law_spending_counts_periods(
    plan: Plan,
    s: Subscription,
    now: u64,
    amount: i128,
    id: u64,
    subscriber: AccountId,
    max_amount: i128,
    spend_ceiling: i128,
    initial_deposit: i128,
)
    requires
        spent_matches_periods(plan, s),
    ensures
        spec_charge(plan, s, now) matches Ok((ns, o, t)) ==> spent_matches_periods(plan, ns),
        spec_pause(s, now) matches Ok(ns) ==> spent_matches_periods(plan, ns),
        spec_resume(s, now) matches Ok(ns) ==> spent_matches_periods(plan, ns),
        spec_cancel(plan.token, s) matches Ok((ns, t)) ==> spent_matches_periods(plan, ns),
        spec_deposit(plan.token, s, amount) matches Ok((ns, t)) ==> spent_matches_periods(plan, ns),
        spec_withdraw(plan.token, s, amount) matches Ok((ns, t)) ==> spent_matches_periods(plan, ns),
        spec_open(plan, id, subscriber, max_amount, spend_ceiling, initial_deposit, now) matches Ok(
            (ns, t),
        ) ==> spent_matches_periods(plan, ns),
{
    let p = s.periods_paid as int;
    let a = plan.amount as int;
    assert((p + 1) * a == p * a + a) by (nonlinear_arith);
}

/// Every rule moves a subscription along an edge of the lifecycle diagram.
pub proof fn law_rules_follow_lifecycle(plan: Plan, s: Subscription, now: u64, amount: i128)
    ensures
        spec_charge(plan, s, now) matches Ok((ns, o, t)) ==> is_lifecycle_step(s.status, ns.status),
        spec_pause(s, now) matches Ok(ns) ==> is_lifecycle_step(s.status, ns.status),
        spec_resume(s, now) matches Ok(ns) ==> is_lifecycle_step(s.status, ns.status),
        spec_cancel(plan.token, s) matches Ok((ns, t)) ==> is_lifecycle_step(s.status, ns.status),
        spec_deposit(plan.token, s, amount) matches Ok((ns, t)) ==> is_lifecycle_step(
            s.status,
            ns.status,
        ),
        spec_withdraw(plan.token, s, amount) matches Ok((ns, t)) ==> is_lifecycle_step(
            s.status,
            ns.status,
        ),
{
}

/// Cancelled and Expired are terminal: a terminated subscription can no
/// longer be charged, paused, resumed, cancelled or funded, and, holding no
/// funds, nothing can be withdrawn from it.
pub proof fn law_terminal_states_are_final(plan: Plan, s: Subscription, now: u64, amount: i128)
    requires
        sub_wf(s),
        s.status.spec_is_terminal(),
    ensures
        spec_charge(plan, s, now) == Err::<(Subscription, ChargeOutcome, Seq<Transfer>), Error>(
            Error::InvalidStatus,
        ),
        spec_pause(s, now) == Err::<Subscription, Error>(Error::InvalidStatus),
        spec_resume(s, now) == Err::<Subscription, Error>(Error::InvalidStatus),
        spec_cancel(plan.token, s) == Err::<(Subscription, Seq<Transfer>), Error>(
            Error::InvalidStatus,
        ),
        spec_deposit(plan.token, s, amount) is Err,
        amount > 0 ==> spec_deposit(plan.token, s, amount) == Err::<
            (Subscription, Seq<Transfer>),
            Error,
        >(Error::InvalidStatus),
        spec_withdraw(plan.token, s, amount) is Err,
{
}

// ── Subscriber control ──────────────────────────────────────────────────

/// Pausing and later resuming shifts the schedule by exactly the time spent
/// paused and leaves everything else as it was.
pub proof fn law_pause_shifts_schedule(s: Subscription, paused: u64, resumed: u64)
    requires
        s.status == SubscriptionStatus::Active,
        s.paused_at == 0,
        paused <= resumed,
    ensures
        spec_pause(s, paused) matches Ok(p) && spec_resume(p, resumed) == Ok::<Subscription, Error>(
            Subscription {
                next_charge_at: s.next_charge_at.saturating_add((resumed - paused) as u64),
                ..s
            },
        ),
{
}

/// The subscriber can pull any part of the unused balance out at any time,
/// in any state, and can never pull out more than the balance.
pub proof fn law_withdraw_any_time(token: AccountId, s: Subscription, amount: i128)
    ensures
        0 < amount <= s.balance ==> (spec_withdraw(token, s, amount) matches Ok((ns, t)) && ns
            == (Subscription { balance: (s.balance - amount) as i128, ..s }) && t == seq![
            Transfer { token, from: Party::Escrow, to: Party::Account(s.subscriber), amount },
        ]),
        0 < amount && amount > s.balance ==> spec_withdraw(token, s, amount) == Err::<
            (Subscription, Seq<Transfer>),
            Error,
        >(Error::InsufficientBalance),
{
}

/// Withdrawing what was just deposited restores the subscription exactly.
pub proof fn law_deposit_then_withdraw_restores(token: AccountId, s: Subscription, amount: i128)
    requires
        sub_wf(s),
        amount > 0,
        !s.status.spec_is_terminal(),
        s.balance + amount <= i128::MAX,
    ensures
        spec_deposit(token, s, amount) matches Ok((d, t)) && spec_withdraw(token, d, amount) matches Ok(
            (w, t2),
        ) && w == s,
{
    let d = Subscription { balance: (s.balance + amount) as i128, ..s };
    assert(spec_deposit(token, s, amount)->Ok_0.0 == d);
    let w = Subscription { balance: (d.balance - amount) as i128, ..d };
    assert(spec_withdraw(token, d, amount)->Ok_0.0 == w);
    assert(w.balance == s.balance);
    assert(w == s);
}

/// Cancelling a live subscription refunds its full balance.
pub proof fn law_cancel_refunds_everything(token: AccountId, s: Subscription)
    requires
        !s.status.spec_is_terminal(),
        s.balance > 0,
    ensures
        spec_cancel(token, s) matches Ok((ns, t)) && ns.balance == 0 && ns.status
            == SubscriptionStatus::Cancelled && t == seq![
            Transfer { token, from: Party::Escrow, to: Party::Account(s.subscriber), amount: s.balance },
        ],
{
}

// ── The protocol's state across calls ───────────────────────────────────

/// `initialize` succeeds once: afterwards the admin is the one given, and
/// any further `initialize` is refused and changes nothing.
pub proof fn law_initialize_only_once(s: StorageView, first: AccountId, second: AccountId)
    ensures
        s.admin is Some ==> spec_initialize(s, first) == (s, Err::<(), Error>(Error::AlreadyInitialized)),
        spec_initialize(s, first).1 is Ok ==> {
            let s1 = spec_initialize(s, first).0;
            &&& s1.admin == Some(first)
            &&& spec_initialize(s1, second) == (s1, Err::<(), Error>(Error::AlreadyInitialized))
        },
{
}

/// The subscriber index tracks every subscription: a successful subscribe
/// appends the new identifier to the subscriber's list, leaves every other
/// account's list alone, and stores a subscription of that subscriber under
/// it.
pub proof fn law_subscriber_index_tracks_subscriptions(
    s: StorageView,
    now: u64,
    subscriber: AccountId,
    other: AccountId,
    plan_id: u64,
    max_amount: i128,
    spend_ceiling: i128,
    initial_deposit: i128,
)
    requires
        other != subscriber,
        s.keys_match(),
    ensures
        spec_subscribe(s, now, subscriber, plan_id, max_amount, spend_ceiling, initial_deposit)
            matches (s1, Ok((id, t))) ==> {
            &&& ids_of(s1.subscriber_subs, subscriber) == ids_of(s.subscriber_subs, subscriber).push(id)
            &&& ids_of(s1.subscriber_subs, other) == ids_of(s.subscriber_subs, other)
            &&& s1.subscriptions.contains_key(id)
            &&& s1.subscriptions[id].subscriber == subscriber
            &&& s1.subscriptions[id].plan_id == plan_id
        },
{
    let (s1, r) = spec_subscribe(
        s,
        now,
        subscriber,
        plan_id,
        max_amount,
        spend_ceiling,
        initial_deposit,
    );
    if r is Ok {
        assert(s.plans.contains_key(plan_id));
    }
}

/// The merchant index tracks every plan: a successful `create_plan`
/// appends the new identifier to the merchant's list and leaves every other
/// account's list alone.
pub proof fn law_merchant_index_tracks_plans(
    s: StorageView,
    now: u64,
    merchant: AccountId,
    other: AccountId,
    token: AccountId,
    amount: i128,
    interval: u64,
    grace_period: u64,
    name: String,
)
    requires
        other != merchant,
    ensures
        spec_create_plan(s, now, merchant, token, amount, interval, grace_period, name) matches (
            s1,
            Ok(id),
        ) ==> {
            &&& ids_of(s1.merchant_plans, merchant) == ids_of(s.merchant_plans, merchant).push(id)
            &&& ids_of(s1.merchant_plans, other) == ids_of(s.merchant_plans, other)
            &&& s1.plans.contains_key(id)
            &&& s1.plans[id].merchant == merchant
            &&& s1.plans[id].active
        },
{
}

/// Identifiers are handed out in sequence and never reused: when the
/// counters are ahead of every stored record, a new plan or subscription
/// gets the next identifier, which was free, and the counters stay ahead.
pub proof fn law_identifiers_are_fresh(
    s: StorageView,
    now: u64,
    who: AccountId,
    token: AccountId,
    amount: i128,
    interval: u64,
    grace_period: u64,
    name: String,
    plan_id: u64,
    max_amount: i128,
    spend_ceiling: i128,
    initial_deposit: i128,
)
    requires
        s.counters_ahead(),
        s.plan_counter < u64::MAX,
        s.sub_counter < u64::MAX,
    ensures
        spec_create_plan(s, now, who, token, amount, interval, grace_period, name) matches (
            s1,
            Ok(id),
        ) ==> id == s.plan_counter + 1 && !s.plans.contains_key(id) && s1.counters_ahead(),
        spec_subscribe(s, now, who, plan_id, max_amount, spend_ceiling, initial_deposit) matches (
            s1,
            Ok((id, t)),
        ) ==> id == s.sub_counter + 1 && !s.subscriptions.contains_key(id) && s1.counters_ahead(),
{
}

/// A plan is immutable except for its `active` flag, and changing the flag
/// touches no subscription.
pub proof fn law_plans_are_immutable(s: StorageView, plan_id: u64, active: bool)
    ensures
        spec_set_plan_active(s, plan_id, active) matches (s1, Ok(_)) ==> {
            &&& s1.plans[plan_id] == (Plan { active, ..s.plans[plan_id] })
            &&& s1.plans.dom() == s.plans.dom()
            &&& forall|k: u64| k != plan_id && #[trigger] s.plans.contains_key(k) ==> s1.plans[k]
                == s.plans[k]
            &&& s1.subscriptions == s.subscriptions
        },
{
    let (s1, r) = spec_set_plan_active(s, plan_id, active);
    if r is Ok {
        assert(s1.plans.dom() =~= s.plans.dom());
    }
}

proof fn lemma_replace_keeps_indexes(s: StorageView, ns: Subscription)
    requires
        s.indexes_exact(),
        s.subscriptions.contains_key(ns.id),
        s.subscriptions[ns.id].subscriber == ns.subscriber,
    ensures
        with_subscription(s, ns).indexes_exact(),
{
    let s1 = with_subscription(s, ns);
    assert forall|a: AccountId, i: int|
        0 <= i < ids_of(s1.subscriber_subs, a).len() implies {
        let k = #[trigger] ids_of(s1.subscriber_subs, a)[i];
        s1.subscriptions.contains_key(k) && s1.subscriptions[k].subscriber == a
    } by {
        let k = ids_of(s.subscriber_subs, a)[i];
        assert(s.subscriptions.contains_key(k) && s.subscriptions[k].subscriber == a);
    }
    assert forall|k: u64| #[trigger] s1.subscriptions.contains_key(k) implies ids_of(
        s1.subscriber_subs,
        s1.subscriptions[k].subscriber,
    ).contains(k) by {
        assert(s.subscriptions.contains_key(k));
    }
}

/// The per-account indexes stay exact under every entry point that
/// changes a stored subscription, and under closing or reopening a plan.
pub proof fn law_updates_keep_indexes_exact(s: StorageView, now: u64, sub_id: u64, amount: i128, plan_id: u64, active: bool)
    requires
        s.indexes_exact(),
        s.keys_match(),
    ensures
        spec_charge_call(s, now, sub_id).0.indexes_exact(),
        spec_deposit_call(s, sub_id, amount).0.indexes_exact(),
        spec_withdraw_call(s, sub_id, amount).0.indexes_exact(),
        spec_cancel_call(s, sub_id).0.indexes_exact(),
        spec_pause_call(s, now, sub_id).0.indexes_exact(),
        spec_resume_call(s, now, sub_id).0.indexes_exact(),
        spec_set_plan_active(s, plan_id, active).0.indexes_exact(),
{
    if s.subscriptions.contains_key(sub_id) {
        let sub = s.subscriptions[sub_id];
        assert(sub.id == sub_id);
        if s.plans.contains_key(sub.plan_id) {
            let plan = s.plans[sub.plan_id];
            if let Ok((ns, o, t)) = spec_charge(plan, sub, now) {
                lemma_replace_keeps_indexes(s, ns);
            }
            if let Ok((ns, t)) = spec_deposit(plan.token, sub, amount) {
                lemma_replace_keeps_indexes(s, ns);
            }
            if let Ok((ns, t)) = spec_withdraw(plan.token, sub, amount) {
                lemma_replace_keeps_indexes(s, ns);
            }
            if let Ok((ns, t)) = spec_cancel(plan.token, sub) {
                lemma_replace_keeps_indexes(s, ns);
            }
        }
        if let Ok(ns) = spec_pause(sub, now) {
            lemma_replace_keeps_indexes(s, ns);
        }
        if let Ok(ns) = spec_resume(sub, now) {
            lemma_replace_keeps_indexes(s, ns);
        }
    }
    if s.plans.contains_key(plan_id) {
        let s1 = spec_set_plan_active(s, plan_id, active).0;
        assert forall|a: AccountId, i: int|
            0 <= i < ids_of(s1.merchant_plans, a).len() implies {
            let k = #[trigger] ids_of(s1.merchant_plans, a)[i];
            s1.plans.contains_key(k) && s1.plans[k].merchant == a
        } by {
            let k = ids_of(s.merchant_plans, a)[i];
            assert(s.plans.contains_key(k) && s.plans[k].merchant == a);
        }
        assert forall|k: u64| #[trigger] s1.plans.contains_key(k) implies ids_of(
            s1.merchant_plans,
            s1.plans[k].merchant,
        ).contains(k) by {
            assert(s.plans.contains_key(k));
        }
    }
}

/// The per-account indexes stay exact when a plan or a subscription is
/// created, as long as the counters are ahead of every stored record.
pub proof fn law_creation_keeps_indexes_exact(
    s: StorageView,
    now: u64,
    who: AccountId,
    token: AccountId,
    amount: i128,
    interval: u64,
    grace_period: u64,
    name: String,
    plan_id: u64,
    max_amount: i128,
    spend_ceiling: i128,
    initial_deposit: i128,
)
    requires
        s.indexes_exact(),
        s.counters_ahead(),
        s.plan_counter < u64::MAX,
        s.sub_counter < u64::MAX,
    ensures
        spec_create_plan(s, now, who, token, amount, interval, grace_period, name).0.indexes_exact(),
        spec_subscribe(s, now, who, plan_id, max_amount, spend_ceiling, initial_deposit).0.indexes_exact(),
{
    let (s1, r1) = spec_create_plan(s, now, who, token, amount, interval, grace_period, name);
    if let Ok(id) = r1 {
        assert(!s.plans.contains_key(id));
        assert forall|a: AccountId, i: int|
            0 <= i < ids_of(s1.merchant_plans, a).len() implies {
            let k = #[trigger] ids_of(s1.merchant_plans, a)[i];
            s1.plans.contains_key(k) && s1.plans[k].merchant == a
        } by {
            if !(a == who && i == ids_of(s.merchant_plans, a).len()) {
                let k = ids_of(s.merchant_plans, a)[i];
                assert(ids_of(s1.merchant_plans, a)[i] == k);
                assert(s.plans.contains_key(k) && s.plans[k].merchant == a);
            }
        }
        assert forall|k: u64| #[trigger] s1.plans.contains_key(k) implies ids_of(
            s1.merchant_plans,
            s1.plans[k].merchant,
        ).contains(k) by {
            if k != id {
                assert(s.plans.contains_key(k));
                let a = s.plans[k].merchant;
                assert(ids_of(s.merchant_plans, a).contains(k));
                let j = choose|j: int| 0 <= j < ids_of(s.merchant_plans, a).len() && ids_of(s.merchant_plans, a)[j] == k;
                assert(ids_of(s1.merchant_plans, a)[j] == k);
            } else {
                assert(ids_of(s1.merchant_plans, who)[ids_of(s.merchant_plans, who).len() as int] == id);
            }
        }
    }
    let (s2, r2) = spec_subscribe(s, now, who, plan_id, max_amount, spend_ceiling, initial_deposit);
    if let Ok((id, t)) = r2 {
        assert(!s.subscriptions.contains_key(id));
        assert forall|a: AccountId, i: int|
            0 <= i < ids_of(s2.subscriber_subs, a).len() implies {
            let k = #[trigger] ids_of(s2.subscriber_subs, a)[i];
            s2.subscriptions.contains_key(k) && s2.subscriptions[k].subscriber == a
        } by {
            if !(a == who && i == ids_of(s.subscriber_subs, a).len()) {
                let k = ids_of(s.subscriber_subs, a)[i];
                assert(ids_of(s2.subscriber_subs, a)[i] == k);
                assert(s.subscriptions.contains_key(k) && s.subscriptions[k].subscriber == a);
            }
        }
        assert forall|k: u64| #[trigger] s2.subscriptions.contains_key(k) implies ids_of(
            s2.subscriber_subs,
            s2.subscriptions[k].subscriber,
        ).contains(k) by {
            if k != id {
                assert(s.subscriptions.contains_key(k));
                let a = s.subscriptions[k].subscriber;
                assert(ids_of(s.subscriber_subs, a).contains(k));
                let j = choose|j: int| 0 <= j < ids_of(s.subscriber_subs, a).len() && ids_of(s.subscriber_subs, a)[j] == k;
                assert(ids_of(s2.subscriber_subs, a)[j] == k);
            } else {
                assert(ids_of(s2.subscriber_subs, who)[ids_of(s.subscriber_subs, who).len() as int] == id);
            }
        }
    }
}

// ── The stored state ────────────────────────────────────────────────────

/// What a stored subscription keeps true within the whole state: it is
/// well formed, its plan exists, its cap covers the plan's price, and its
/// spending is the price times the periods paid.
pub open spec fn stored_sub_valid(s: StorageView, sub: Subscription) -> bool {
    &&& sub_wf(sub)
    &&& s.plans.contains_key(sub.plan_id)
    &&& sub_fits_plan(s.plans[sub.plan_id], sub)
    &&& spent_matches_periods(s.plans[sub.plan_id], sub)
}

/// Every stored plan has valid terms and every stored subscription is
/// valid against its plan.
pub open spec fn stored_state_valid(s: StorageView) -> bool {
    &&& forall|k: u64| #[trigger] s.plans.contains_key(k) ==> valid_plan_terms(
        s.plans[k].amount,
        s.plans[k].interval,
    )
    &&& forall|k: u64| #[trigger] s.subscriptions.contains_key(k) ==> stored_sub_valid(
        s,
        s.subscriptions[k],
    )
}

/// A state with nothing stored is valid.
pub proof fn law_empty_state_is_valid(s: StorageView)
    requires
        s.plans == Map::<u64, Plan>::empty(),
        s.subscriptions == Map::<u64, Subscription>::empty(),
    ensures
        stored_state_valid(s),
{
}

/// What reading a valid state gives back: a plan under its own identifier
/// with a positive price and an interval of one hour to 366 days; a
/// subscription under its own identifier, well formed (no negative balance
/// or spending, ceiling respected, no funds once terminated, no pause time
/// unless paused), whose plan exists, whose cap covers the plan's price, and
/// whose spending is the price times the periods paid.
pub proof fn law_stored_records_are_valid(s: StorageView, plan_id: u64, sub_id: u64)
    requires
        stored_state_valid(s),
        s.keys_match(),
    ensures
        s.plans.contains_key(plan_id) ==> {
            let p = s.plans[plan_id];
            &&& p.id == plan_id
            &&& p.amount > 0
            &&& 3_600 <= p.interval <= 31_622_400
        },
        s.subscriptions.contains_key(sub_id) ==> {
            let sub = s.subscriptions[sub_id];
            &&& sub.id == sub_id
            &&& sub.balance >= 0
            &&& sub.total_spent >= 0
            &&& (sub.spend_ceiling == 0 || sub.total_spent <= sub.spend_ceiling)
            &&& (sub.status != SubscriptionStatus::Paused ==> sub.paused_at == 0)
            &&& (sub.status.spec_is_terminal() ==> sub.balance == 0)
            &&& s.plans.contains_key(sub.plan_id)
            &&& sub.max_amount >= s.plans[sub.plan_id].amount
            &&& (sub.periods_paid == u32::MAX || sub.total_spent == sub.periods_paid
                * s.plans[sub.plan_id].amount)
        },
{
    if s.plans.contains_key(plan_id) {
        assert(valid_plan_terms(s.plans[plan_id].amount, s.plans[plan_id].interval));
    }
    if s.subscriptions.contains_key(sub_id) {
        assert(stored_sub_valid(s, s.subscriptions[sub_id]));
    }
}

proof fn lemma_replace_keeps_state_valid(s: StorageView, ns: Subscription)
    requires
        stored_state_valid(s),
        stored_sub_valid(s, ns),
    ensures
        stored_state_valid(with_subscription(s, ns)),
{
    let s1 = with_subscription(s, ns);
    assert forall|k: u64| #[trigger] s1.subscriptions.contains_key(k) implies stored_sub_valid(
        s1,
        s1.subscriptions[k],
    ) by {
        if k != ns.id {
            assert(s.subscriptions.contains_key(k));
            assert(stored_sub_valid(s, s.subscriptions[k]));
        }
    }
}

/// Every entry point that changes a stored subscription, and closing or
/// reopening a plan, keeps the stored state valid.
pub proof fn law_updates_keep_state_valid(
    s: StorageView,
    now: u64,
    sub_id: u64,
    amount: i128,
    plan_id: u64,
    active: bool,
)
    requires
        stored_state_valid(s),
        s.keys_match(),
    ensures
        stored_state_valid(spec_charge_call(s, now, sub_id).0),
        stored_state_valid(spec_deposit_call(s, sub_id, amount).0),
        stored_state_valid(spec_withdraw_call(s, sub_id, amount).0),
        stored_state_valid(spec_cancel_call(s, sub_id).0),
        stored_state_valid(spec_pause_call(s, now, sub_id).0),
        stored_state_valid(spec_resume_call(s, now, sub_id).0),
        stored_state_valid(spec_set_plan_active(s, plan_id, active).0),
{
    if s.subscriptions.contains_key(sub_id) {
        let sub = s.subscriptions[sub_id];
        assert(stored_sub_valid(s, sub));
        let plan = s.plans[sub.plan_id];
        law_rules_keep_subscriptions_well_formed(plan, sub, now, amount, sub.id, sub.subscriber, 0, 0, 0);
        law_spending_counts_periods(plan, sub, now, amount, sub.id, sub.subscriber, 0, 0, 0);
        if let Ok((ns, o, t)) = spec_charge(plan, sub, now) {
            lemma_replace_keeps_state_valid(s, ns);
        }
        if let Ok((ns, t)) = spec_deposit(plan.token, sub, amount) {
            lemma_replace_keeps_state_valid(s, ns);
        }
        if let Ok((ns, t)) = spec_withdraw(plan.token, sub, amount) {
            lemma_replace_keeps_state_valid(s, ns);
        }
        if let Ok((ns, t)) = spec_cancel(plan.token, sub) {
            lemma_replace_keeps_state_valid(s, ns);
        }
        if let Ok(ns) = spec_pause(sub, now) {
            lemma_replace_keeps_state_valid(s, ns);
        }
        if let Ok(ns) = spec_resume(sub, now) {
            lemma_replace_keeps_state_valid(s, ns);
        }
    }
    if s.plans.contains_key(plan_id) {
        let s1 = spec_set_plan_active(s, plan_id, active).0;
        assert forall|k: u64| #[trigger] s1.plans.contains_key(k) implies valid_plan_terms(
            s1.plans[k].amount,
            s1.plans[k].interval,
        ) by {
            assert(s.plans.contains_key(k));
        }
        assert forall|k: u64| #[trigger] s1.subscriptions.contains_key(k) implies stored_sub_valid(
            s1,
            s1.subscriptions[k],
        ) by {
            assert(stored_sub_valid(s, s.subscriptions[k]));
        }
    }
}

/// Creating a plan stores only a plan with valid terms, and opening a
/// subscription stores only a valid subscription, so the stored state
/// stays valid (for plans, as long as the counter is ahead of every stored
/// plan).
pub proof fn law_creation_keeps_state_valid(
    s: StorageView,
    now: u64,
    who: AccountId,
    token: AccountId,
    amount: i128,
    interval: u64,
    grace_period: u64,
    name: String,
    plan_id: u64,
    max_amount: i128,
    spend_ceiling: i128,
    initial_deposit: i128,
)
    requires
        stored_state_valid(s),
        s.keys_match(),
        s.counters_ahead(),
        s.plan_counter < u64::MAX,
    ensures
        stored_state_valid(spec_create_plan(s, now, who, token, amount, interval, grace_period, name).0),
        stored_state_valid(spec_subscribe(s, now, who, plan_id, max_amount, spend_ceiling, initial_deposit).0),
{
    let (s1, r1) = spec_create_plan(s, now, who, token, amount, interval, grace_period, name);
    if let Ok(id) = r1 {
        assert(!s.plans.contains_key(id));
        assert forall|k: u64| #[trigger] s1.plans.contains_key(k) implies valid_plan_terms(
            s1.plans[k].amount,
            s1.plans[k].interval,
        ) by {
            if k != id {
                assert(s.plans.contains_key(k));
            }
        }
        assert forall|k: u64| #[trigger] s1.subscriptions.contains_key(k) implies stored_sub_valid(
            s1,
            s1.subscriptions[k],
        ) by {
            let sub = s.subscriptions[k];
            assert(stored_sub_valid(s, sub));
            assert(sub.plan_id != id);
        }
    }
    let (s2, r2) = spec_subscribe(s, now, who, plan_id, max_amount, spend_ceiling, initial_deposit);
    if let Ok((id, t)) = r2 {
        let plan = s.plans[plan_id];
        let dummy = Subscription {
            id,
            plan_id,
            subscriber: who,
            status: SubscriptionStatus::Active,
            max_amount: plan.amount,
            spend_ceiling: 0,
            balance: 0,
            total_spent: 0,
            next_charge_at: 0,
            periods_paid: 0,
            failed_attempts: 0,
            paused_at: 0,
            created_at: 0,
        };
        assert(valid_plan_terms(plan.amount, plan.interval));
        law_rules_keep_subscriptions_well_formed(plan, dummy, now, 0, id, who, max_amount, spend_ceiling, initial_deposit);
        law_spending_counts_periods(plan, dummy, now, 0, id, who, max_amount, spend_ceiling, initial_deposit);
        assert forall|k: u64| #[trigger] s2.subscriptions.contains_key(k) implies stored_sub_valid(
            s2,
            s2.subscriptions[k],
        ) by {
            if k != id {
                assert(stored_sub_valid(s, s.subscriptions[k]));
            }
        }
    }
}

// ── What the operations are for ─────────────────────────────────────────

/// Subscribing settles the first period at once and schedules the next one
/// exactly one interval after the subscription time, whatever the plan's
/// creation time: billing again at the subscription time is refused as not
/// yet due.
pub proof fn law_subscribe_schedules_next_period_from_now(
    s: StorageView,
    now: u64,
    subscriber: AccountId,
    plan_id: u64,
    max_amount: i128,
    spend_ceiling: i128,
    initial_deposit: i128,
)
    requires
        s.keys_match(),
    ensures
        spec_subscribe(s, now, subscriber, plan_id, max_amount, spend_ceiling, initial_deposit)
            matches (s1, Ok((id, t))) ==> {
            let sub = s1.subscriptions[id];
            let interval = s.plans[plan_id].interval;
            &&& sub.next_charge_at == (if now as int + interval as int > u64::MAX as int {
                u64::MAX as int
            } else {
                now as int + interval as int
            })
            &&& sub.periods_paid == 1
            &&& sub.total_spent == s.plans[plan_id].amount
            &&& sub.status == SubscriptionStatus::Active
            &&& (now as int + interval as int <= u64::MAX as int && interval > 0 ==> spec_charge(
                s.plans[plan_id],
                sub,
                now,
            ) == Err::<(Subscription, ChargeOutcome, Seq<Transfer>), Error>(Error::ChargeNotDue))
        },
{
    let (s1, r) = spec_subscribe(
        s,
        now,
        subscriber,
        plan_id,
        max_amount,
        spend_ceiling,
        initial_deposit,
    );
    if r is Ok {
        assert(s.plans.contains_key(plan_id));
    }
}

/// The spend ceiling ends a subscription: a due charge of a billable
/// subscription whose cap covers a positive price, when paying the price
/// would take spending past a set ceiling, completes the subscription as
/// Expired with a refund of its whole balance, whatever that balance is.
pub proof fn law_ceiling_completes_subscription(plan: Plan, s: Subscription, now: u64)
    requires
        s.status == SubscriptionStatus::Active || s.status == SubscriptionStatus::PastDue,
        now >= s.next_charge_at,
        0 < plan.amount <= s.max_amount,
        s.spend_ceiling > 0,
        s.total_spent + plan.amount > s.spend_ceiling,
    ensures
        spec_charge(plan, s, now) matches Ok((ns, o, t)) && o == ChargeOutcome::CeilingReached
            && ns.status == SubscriptionStatus::Expired && ns.balance == 0 && ns.total_spent
            == s.total_spent && (s.balance > 0 ==> t == seq![
            Transfer {
                token: plan.token,
                from: Party::Escrow,
                to: Party::Account(s.subscriber),
                amount: s.balance,
            },
        ]) && (s.balance <= 0 ==> t.len() == 0),
{
}

/// Cancelling any live subscription terminates it: it becomes Cancelled with
/// an empty balance, its whole positive balance goes back to the subscriber,
/// and it can no longer be charged.
pub proof fn law_cancel_terminates(plan: Plan, s: Subscription, later: u64)
    requires
        s.status != SubscriptionStatus::Cancelled,
        s.status != SubscriptionStatus::Expired,
    ensures
        spec_cancel(plan.token, s) matches Ok((ns, t)) && ns.status == SubscriptionStatus::Cancelled
            && ns.balance == 0 && (s.balance > 0 ==> t == seq![
            Transfer {
                token: plan.token,
                from: Party::Escrow,
                to: Party::Account(s.subscriber),
                amount: s.balance,
            },
        ]) && (s.balance <= 0 ==> t.len() == 0) && spec_charge(plan, ns, later) == Err::<
            (Subscription, ChargeOutcome, Seq<Transfer>),
            Error,
        >(Error::InvalidStatus),
{
}

/// A subscription is reported due exactly when a charge would get past the
/// status and timing checks: it is Active or PastDue and its period has
/// started. In particular a PastDue subscription is due again for its retry.
pub proof fn law_due_exactly_when_charge_may_proceed(plan: Plan, s: Subscription, now: u64)
    ensures
        spec_is_due(s, now) <==> (s.status == SubscriptionStatus::Active || s.status
            == SubscriptionStatus::PastDue) && now >= s.next_charge_at,
        spec_is_due(s, now) <==> (spec_charge(plan, s, now) != Err::<
            (Subscription, ChargeOutcome, Seq<Transfer>),
            Error,
        >(Error::InvalidStatus) && spec_charge(plan, s, now) != Err::<
            (Subscription, ChargeOutcome, Seq<Transfer>),
            Error,
        >(Error::ChargeNotDue)),
        spec_is_due(s, now) && 0 < plan.amount <= s.max_amount && s.balance >= plan.amount
            && s.total_spent + plan.amount <= i128::MAX && (s.spend_ceiling <= 0
            || s.total_spent + plan.amount <= s.spend_ceiling) ==> (spec_charge(plan, s, now) matches Ok(
            (ns, o, t),
        ) && o == ChargeOutcome::Charged),
{
}

/// `create_plan` refuses exactly the plans with a non-positive price
/// (`InvalidAmount`) or an interval outside one hour to 366 days
/// (`InvalidInterval`); every other plan is accepted under the next
/// identifier, whatever its grace period, and stored with the given terms.
pub proof fn law_create_plan_refuses_only_bad_terms(
    s: StorageView,
    now: u64,
    merchant: AccountId,
    token: AccountId,
    amount: i128,
    interval: u64,
    grace_period: u64,
    name: String,
)
    requires
        s.plan_counter < u64::MAX,
    ensures
        ({
            let (s1, r) = spec_create_plan(s, now, merchant, token, amount, interval, grace_period, name);
            &&& (r is Ok <==> amount > 0 && 3_600 <= interval <= 31_622_400)
            &&& amount <= 0 ==> r == Err::<u64, Error>(Error::InvalidAmount)
            &&& amount > 0 && !(3_600 <= interval <= 31_622_400) ==> r == Err::<u64, Error>(
                Error::InvalidInterval,
            )
            &&& r is Ok ==> {
                let p = s1.plans[(s.plan_counter + 1) as u64];
                &&& r == Ok::<u64, Error>((s.plan_counter + 1) as u64)
                &&& p.id == s.plan_counter + 1
                &&& p.merchant == merchant
                &&& p.token == token
                &&& p.amount == amount
                &&& p.interval == interval
                &&& p.grace_period == grace_period
                &&& p.name == name
                &&& p.active
                &&& p.created_at == now
            }
        }),
{
}

/// A refused request changes nothing.
pub proof fn law_refusals_change_nothing(
    s: StorageView,
    now: u64,
    sub_id: u64,
    amount: i128,
    who: AccountId,
    plan_id: u64,
    max_amount: i128,
    spend_ceiling: i128,
    initial_deposit: i128,
    token: AccountId,
    interval: u64,
    grace_period: u64,
    name: String,
    active: bool,
)
    ensures
        spec_initialize(s, who).1 is Err ==> spec_initialize(s, who).0 == s,
        spec_create_plan(s, now, who, token, amount, interval, grace_period, name).1 is Err
            ==> spec_create_plan(s, now, who, token, amount, interval, grace_period, name).0 == s,
        spec_set_plan_active(s, plan_id, active).1 is Err ==> spec_set_plan_active(
            s,
            plan_id,
            active,
        ).0 == s,
        spec_charge_call(s, now, sub_id).1 is Err ==> spec_charge_call(s, now, sub_id).0 == s,
        spec_deposit_call(s, sub_id, amount).1 is Err ==> spec_deposit_call(s, sub_id, amount).0 == s,
        spec_withdraw_call(s, sub_id, amount).1 is Err ==> spec_withdraw_call(s, sub_id, amount).0
            == s,
        spec_cancel_call(s, sub_id).1 is Err ==> spec_cancel_call(s, sub_id).0 == s,
        spec_pause_call(s, now, sub_id).1 is Err ==> spec_pause_call(s, now, sub_id).0 == s,
        spec_resume_call(s, now, sub_id).1 is Err ==> spec_resume_call(s, now, sub_id).0 == s,
        spec_subscribe(s, now, who, plan_id, max_amount, spend_ceiling, initial_deposit).1 is Err
            ==> spec_subscribe(s, now, who, plan_id, max_amount, spend_ceiling, initial_deposit).0
            == s,
{
}

} // verus!
