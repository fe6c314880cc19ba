//! The billing rules of one subscription under its plan: what opening,
//! charging, pausing, resuming, cancelling, depositing and withdrawing do
//! to the subscription record, and which token movements they require.
//!
//! Each rule is stated once as a spec function and implemented once by an
//! executable function whose contract is that spec function.

use vstd::prelude::*;

use crate::errors::Error;
use crate::types::{
    AccountId, ChargeOutcome, Party, Plan, Subscription, SubscriptionStatus, Transfer,
};

verus! {

/// Shortest accepted billing interval: one hour.
pub const MIN_INTERVAL: u64 = 3_600;

/// Longest accepted billing interval: 366 days.
pub const MAX_INTERVAL: u64 = 31_622_400;

// ── Spec model ──────────────────────────────────────────────────────────

/// Terms a plan must have: a positive price and an interval within bounds.
pub open spec fn valid_plan_terms(amount: i128, interval: u64) -> bool {
    &&& amount > 0
    &&& MIN_INTERVAL <= interval <= MAX_INTERVAL
}

/// The error `create_plan` answers invalid terms with, if any.
pub open spec fn spec_check_plan_terms(amount: i128, interval: u64) -> Option<Error> {
    if amount <= 0 {
        Some(Error::InvalidAmount)
    } else if interval < MIN_INTERVAL || interval > MAX_INTERVAL {
        Some(Error::InvalidInterval)
    } else {
        None
    }
}

/// What every subscription record keeps true: balances and spending are
/// never negative, the spend ceiling (when set) is never exceeded, a
/// terminated subscription holds no funds, and a pause time is recorded
/// only while paused.
pub open spec fn sub_wf(s: Subscription) -> bool {
    &&& s.balance >= 0
    &&& s.total_spent >= 0
    &&& s.spend_ceiling >= 0
    &&& (s.spend_ceiling > 0 ==> s.total_spent <= s.spend_ceiling)
    &&& (s.status.spec_is_terminal() ==> s.balance == 0)
    &&& (s.status != SubscriptionStatus::Paused ==> s.paused_at == 0)
}

/// Everything ever spent is the plan's price once per paid period (until
/// the period count saturates).
pub open spec fn spent_matches_periods(plan: Plan, s: Subscription) -> bool {
    s.periods_paid == u32::MAX || s.total_spent == s.periods_paid * plan.amount
}

/// A subscription record is consistent with its plan: the subscriber's cap
/// covers the plan's price.
pub open spec fn sub_fits_plan(plan: Plan, s: Subscription) -> bool {
    &&& plan.amount > 0
    &&& s.max_amount >= plan.amount
}

/// The lifecycle edges: staying put, billing moves among Active, PastDue
/// and Expired, pause and resume move between Active and Paused, and any
/// live subscription can be cancelled.
pub open spec fn is_lifecycle_step(prev: SubscriptionStatus, next: SubscriptionStatus) -> bool {
    ||| prev == next
    ||| prev.spec_is_billable() && (next.spec_is_billable() || next == SubscriptionStatus::Expired)
    ||| prev == SubscriptionStatus::Active && next == SubscriptionStatus::Paused
    ||| prev == SubscriptionStatus::Paused && next == SubscriptionStatus::Active
    ||| !prev.spec_is_terminal() && next == SubscriptionStatus::Cancelled
}

/// Returning the whole remaining balance to the subscriber (nothing when
/// the balance is empty).
pub open spec fn spec_refund(token: AccountId, s: Subscription) -> Seq<Transfer> {
    if s.balance > 0 {
        seq![
            Transfer {
                token,
                from: Party::Escrow,
                to: Party::Account(s.subscriber),
                amount: s.balance,
            },
        ]
    } else {
        seq![]
    }
}

/// Net amount the transfers move into escrow (into minus out of it).
pub open spec fn escrow_inflow(ts: Seq<Transfer>) -> int
    decreases ts.len(),
{
    if ts.len() == 0 {
        0
    } else {
        let t = ts.last();
        let here: int = if t.to == Party::Escrow && t.from != Party::Escrow {
            t.amount as int
        } else if t.from == Party::Escrow && t.to != Party::Escrow {
            -(t.amount as int)
        } else {
            0
        };
        escrow_inflow(ts.drop_last()) + here
    }
}

/// The record of a subscription that the protocol terminated: Expired,
/// with its balance handed back.
pub open spec fn spec_expired(s: Subscription) -> Subscription {
    Subscription { status: SubscriptionStatus::Expired, balance: 0, ..s }
}

/// Opening a subscription against a plan: checks, then the deposit moves
/// into escrow and the first period is paid to the merchant at once.
pub open spec fn spec_open(
    plan: Plan,
    id: u64,
    subscriber: AccountId,
    max_amount: i128,
    spend_ceiling: i128,
    initial_deposit: i128,
    now: u64,
) -> Result<(Subscription, Seq<Transfer>), Error> {
    if !plan.active {
        Err(Error::PlanInactive)
    } else if plan.amount <= 0 {
        Err(Error::InvalidAmount)
    } else if max_amount < plan.amount {
        Err(Error::CapBelowPlanAmount)
    } else if spend_ceiling < 0 || (spend_ceiling > 0 && spend_ceiling < plan.amount) {
        Err(Error::InvalidAmount)
    } else if initial_deposit < plan.amount {
        Err(Error::DepositBelowFirstCharge)
    } else {
        Ok(
            (
                Subscription {
                    id,
                    plan_id: plan.id,
                    subscriber,
                    status: SubscriptionStatus::Active,
                    max_amount,
                    spend_ceiling,
                    balance: (initial_deposit - plan.amount) as i128,
                    total_spent: plan.amount,
                    next_charge_at: now.saturating_add(plan.interval),
                    periods_paid: 1,
                    failed_attempts: 0,
                    paused_at: 0,
                    created_at: now,
                },
                seq![
                    Transfer {
                        token: plan.token,
                        from: Party::Account(subscriber),
                        to: Party::Escrow,
                        amount: initial_deposit,
                    },
                    Transfer {
                        token: plan.token,
                        from: Party::Escrow,
                        to: Party::Account(plan.merchant),
                        amount: plan.amount,
                    },
                ],
            ),
        )
    }
}

/// One keeper attempt to bill a period.
///
/// Only Active and PastDue subscriptions are billed, and never before
/// `next_charge_at`. If paying would break the spend ceiling the
/// subscription completes as Expired. Otherwise a covered period moves
/// exactly the plan's price to the merchant; an Active subscription keeps
/// its schedule, a recovering PastDue one is re-anchored at `now`. An
/// uncovered period makes the subscription PastDue, or Expired once the
/// grace window after the due date has passed. Expiry refunds the rest.
pub open spec fn spec_charge(plan: Plan, s: Subscription, now: u64) -> Result<
    (Subscription, ChargeOutcome, Seq<Transfer>),
    Error,
> {
    if !s.status.spec_is_billable() {
        Err(Error::InvalidStatus)
    } else if now < s.next_charge_at {
        Err(Error::ChargeNotDue)
    } else if plan.amount <= 0 {
        Err(Error::InvalidAmount)
    } else if plan.amount > s.max_amount {
        Err(Error::CapBelowPlanAmount)
    } else if s.spend_ceiling > 0 && s.total_spent + plan.amount > s.spend_ceiling {
        Ok((spec_expired(s), ChargeOutcome::CeilingReached, spec_refund(plan.token, s)))
    } else if s.balance >= plan.amount {
        if s.total_spent + plan.amount > i128::MAX {
            Err(Error::InvalidAmount)
        } else {
            Ok(
                (
                    Subscription {
                        status: SubscriptionStatus::Active,
                        balance: (s.balance - plan.amount) as i128,
                        total_spent: (s.total_spent + plan.amount) as i128,
                        next_charge_at: if s.status == SubscriptionStatus::Active {
                            s.next_charge_at.saturating_add(plan.interval)
                        } else {
                            now.saturating_add(plan.interval)
                        },
                        periods_paid: s.periods_paid.saturating_add(1),
                        failed_attempts: 0,
                        ..s
                    },
                    ChargeOutcome::Charged,
                    seq![
                        Transfer {
                            token: plan.token,
                            from: Party::Escrow,
                            to: Party::Account(plan.merchant),
                            amount: plan.amount,
                        },
                    ],
                ),
            )
        }
    } else if now > s.next_charge_at + plan.grace_period {
        Ok((spec_expired(s), ChargeOutcome::GraceElapsed, spec_refund(plan.token, s)))
    } else {
        Ok(
            (
                Subscription {
                    status: SubscriptionStatus::PastDue,
                    failed_attempts: s.failed_attempts.saturating_add(1),
                    ..s
                },
                ChargeOutcome::InsufficientFunds,
                seq![],
            ),
        )
    }
}

/// Pausing freezes billing of an Active subscription and records when.
pub open spec fn spec_pause(s: Subscription, now: u64) -> Result<Subscription, Error> {
    if s.status != SubscriptionStatus::Active {
        Err(Error::InvalidStatus)
    } else {
        Ok(Subscription { status: SubscriptionStatus::Paused, paused_at: now, ..s })
    }
}

/// Resuming a Paused subscription shifts its schedule by the time spent
/// paused.
pub open spec fn spec_resume(s: Subscription, now: u64) -> Result<Subscription, Error> {
    if s.status != SubscriptionStatus::Paused {
        Err(Error::InvalidStatus)
    } else {
        Ok(
            Subscription {
                status: SubscriptionStatus::Active,
                next_charge_at: s.next_charge_at.saturating_add(now.saturating_sub(s.paused_at)),
                paused_at: 0,
                ..s
            },
        )
    }
}

/// Cancelling a live subscription terminates it and refunds its balance.
pub open spec fn spec_cancel(token: AccountId, s: Subscription) -> Result<
    (Subscription, Seq<Transfer>),
    Error,
> {
    if s.status.spec_is_terminal() {
        Err(Error::InvalidStatus)
    } else {
        Ok(
            (
                Subscription {
                    status: SubscriptionStatus::Cancelled,
                    balance: 0,
                    paused_at: 0,
                    ..s
                },
                spec_refund(token, s),
            ),
        )
    }
}

/// Topping up the prepaid balance of a live subscription.
pub open spec fn spec_deposit(token: AccountId, s: Subscription, amount: i128) -> Result<
    (Subscription, Seq<Transfer>),
    Error,
> {
    if amount <= 0 {
        Err(Error::InvalidAmount)
    } else if s.status.spec_is_terminal() {
        Err(Error::InvalidStatus)
    } else if s.balance + amount > i128::MAX {
        Err(Error::InvalidAmount)
    } else {
        Ok(
            (
                Subscription { balance: (s.balance + amount) as i128, ..s },
                seq![
                    Transfer {
                        token,
                        from: Party::Account(s.subscriber),
                        to: Party::Escrow,
                        amount,
                    },
                ],
            ),
        )
    }
}

/// Pulling unused funds back out, in any state, up to the balance.
pub open spec fn spec_withdraw(token: AccountId, s: Subscription, amount: i128) -> Result<
    (Subscription, Seq<Transfer>),
    Error,
> {
    if amount <= 0 {
        Err(Error::InvalidAmount)
    } else if amount > s.balance {
        Err(Error::InsufficientBalance)
    } else {
        Ok(
            (
                Subscription { balance: (s.balance - amount) as i128, ..s },
                seq![
                    Transfer {
                        token,
                        from: Party::Escrow,
                        to: Party::Account(s.subscriber),
                        amount,
                    },
                ],
            ),
        )
    }
}

/// Whether the keeper may bill the subscription at `now`.
pub open spec fn spec_is_due(s: Subscription, now: u64) -> bool {
    s.status.spec_is_billable() && now >= s.next_charge_at
}

// ── Executable rules ────────────────────────────────────────────────────

/// The error that invalid plan terms are refused with, if any.
pub fn check_plan_terms(amount: i128, interval: u64) -> (r: Option<Error>)
    ensures
        r == spec_check_plan_terms(amount, interval),
        r is None <==> valid_plan_terms(amount, interval),
{
    if amount <= 0 {
        Some(Error::InvalidAmount)
    } else if interval < MIN_INTERVAL || interval > MAX_INTERVAL {
        Some(Error::InvalidInterval)
    } else {
        None
    }
}

fn refund(token: AccountId, s: &Subscription) -> (r: Vec<Transfer>)
    ensures
        r@ == spec_refund(token, *s),
{
    let mut r: Vec<Transfer> = Vec::new();
    if s.balance > 0 {
        r.push(
            Transfer {
                token,
                from: Party::Escrow,
                to: Party::Account(s.subscriber),
                amount: s.balance,
            },
        );
    }
    proof {
        assert(r@ =~= spec_refund(token, *s));
    }
    r
}

/// Opens a subscription with identifier `id` against `plan`.
pub fn open_subscription(
    plan: &Plan,
    id: u64,
    subscriber: AccountId,
    max_amount: i128,
    spend_ceiling: i128,
    initial_deposit: i128,
    now: u64,
) -> (r: Result<(Subscription, Vec<Transfer>), Error>)
    ensures
        match (r, spec_open(*plan, id, subscriber, max_amount, spend_ceiling, initial_deposit, now)) {
            (Ok((s, t)), Ok((s2, t2))) => s == s2 && t@ == t2,
            (Err(e), Err(e2)) => e == e2,
            _ => false,
        },
{
    if !plan.active {
        return Err(Error::PlanInactive);
    }
    if plan.amount <= 0 {
        return Err(Error::InvalidAmount);
    }
    if max_amount < plan.amount {
        return Err(Error::CapBelowPlanAmount);
    }
    if spend_ceiling < 0 || (spend_ceiling > 0 && spend_ceiling < plan.amount) {
        return Err(Error::InvalidAmount);
    }
    if initial_deposit < plan.amount {
        return Err(Error::DepositBelowFirstCharge);
    }
    let sub = Subscription {
        id,
        plan_id: plan.id,
        subscriber,
        status: SubscriptionStatus::Active,
        max_amount,
        spend_ceiling,
        balance: initial_deposit - plan.amount,
        total_spent: plan.amount,
        next_charge_at: now.saturating_add(plan.interval),
        periods_paid: 1,
        failed_attempts: 0,
        paused_at: 0,
        created_at: now,
    };
    let mut t: Vec<Transfer> = Vec::new();
    t.push(
        Transfer {
            token: plan.token,
            from: Party::Account(subscriber),
            to: Party::Escrow,
            amount: initial_deposit,
        },
    );
    t.push(
        Transfer {
            token: plan.token,
            from: Party::Escrow,
            to: Party::Account(plan.merchant),
            amount: plan.amount,
        },
    );
    proof {
        let spec_t = spec_open(*plan, id, subscriber, max_amount, spend_ceiling, initial_deposit, now)
            ->Ok_0.1;
        assert(t@ =~= spec_t);
    }
    Ok((sub, t))
}

/// One keeper attempt to bill the subscription `s` under `plan` at `now`.
pub fn charge_subscription(plan: &Plan, s: Subscription, now: u64) -> (r: Result<
    (Subscription, ChargeOutcome, Vec<Transfer>),
    Error,
>)
    ensures
        match (r, spec_charge(*plan, s, now)) {
            (Ok((s1, o, t)), Ok((s2, o2, t2))) => s1 == s2 && o == o2 && t@ == t2,
            (Err(e), Err(e2)) => e == e2,
            _ => false,
        },
{
    if !s.status.is_billable() {
        return Err(Error::InvalidStatus);
    }
    if now < s.next_charge_at {
        return Err(Error::ChargeNotDue);
    }
    if plan.amount <= 0 {
        return Err(Error::InvalidAmount);
    }
    if plan.amount > s.max_amount {
        return Err(Error::CapBelowPlanAmount);
    }
    let over_ceiling = if s.spend_ceiling > 0 {
        // `total_spent + amount > spend_ceiling`, computed without overflow.
        s.total_spent > s.spend_ceiling - plan.amount
    } else {
        false
    };
    if over_ceiling {
        let t = refund(plan.token, &s);
        let e = Subscription { status: SubscriptionStatus::Expired, balance: 0, ..s };
        return Ok((e, ChargeOutcome::CeilingReached, t));
    }
    if s.balance >= plan.amount {
        let total = match s.total_spent.checked_add(plan.amount) {
            Some(v) => v,
            None => {
                return Err(Error::InvalidAmount);
            },
        };
        let next = if s.status == SubscriptionStatus::Active {
            s.next_charge_at.saturating_add(plan.interval)
        } else {
            now.saturating_add(plan.interval)
        };
        let paid = Subscription {
            status: SubscriptionStatus::Active,
            balance: s.balance - plan.amount,
            total_spent: total,
            next_charge_at: next,
            periods_paid: s.periods_paid.saturating_add(1),
            failed_attempts: 0,
            ..s
        };
        let mut t: Vec<Transfer> = Vec::new();
        t.push(
            Transfer {
                token: plan.token,
                from: Party::Escrow,
                to: Party::Account(plan.merchant),
                amount: plan.amount,
            },
        );
        proof {
            assert(t@ =~= spec_charge(*plan, s, now)->Ok_0.2);
        }
        return Ok((paid, ChargeOutcome::Charged, t));
    }
    // `now > next_charge_at + grace_period`, computed without overflow.
    if now - s.next_charge_at > plan.grace_period {
        let t = refund(plan.token, &s);
        let e = Subscription { status: SubscriptionStatus::Expired, balance: 0, ..s };
        return Ok((e, ChargeOutcome::GraceElapsed, t));
    }
    let missed = Subscription {
        status: SubscriptionStatus::PastDue,
        failed_attempts: s.failed_attempts.saturating_add(1),
        ..s
    };
    let t: Vec<Transfer> = Vec::new();
    proof {
        assert(t@ =~= Seq::<Transfer>::empty());
    }
    Ok((missed, ChargeOutcome::InsufficientFunds, t))
}

/// Pauses an Active subscription at `now`.
pub fn pause_subscription(s: Subscription, now: u64) -> (r: Result<Subscription, Error>)
    ensures
        r == spec_pause(s, now),
{
    if s.status != SubscriptionStatus::Active {
        return Err(Error::InvalidStatus);
    }
    Ok(Subscription { status: SubscriptionStatus::Paused, paused_at: now, ..s })
}

/// Resumes a Paused subscription at `now`, shifting its schedule.
pub fn resume_subscription(s: Subscription, now: u64) -> (r: Result<Subscription, Error>)
    ensures
        r == spec_resume(s, now),
{
    if s.status != SubscriptionStatus::Paused {
        return Err(Error::InvalidStatus);
    }
    let shift = now.saturating_sub(s.paused_at);
    Ok(
        Subscription {
            status: SubscriptionStatus::Active,
            next_charge_at: s.next_charge_at.saturating_add(shift),
            paused_at: 0,
            ..s
        },
    )
}

/// Cancels a live subscription, refunding its balance in `token`.
pub fn cancel_subscription(token: AccountId, s: Subscription) -> (r: Result<
    (Subscription, Vec<Transfer>),
    Error,
>)
    ensures
        match (r, spec_cancel(token, s)) {
            (Ok((s1, t)), Ok((s2, t2))) => s1 == s2 && t@ == t2,
            (Err(e), Err(e2)) => e == e2,
            _ => false,
        },
{
    if s.status.is_terminal() {
        return Err(Error::InvalidStatus);
    }
    let t = refund(token, &s);
    Ok((Subscription { status: SubscriptionStatus::Cancelled, balance: 0, paused_at: 0, ..s }, t))
}

/// Adds `amount` of `token` to the balance of a live subscription.
pub fn deposit_into(token: AccountId, s: Subscription, amount: i128) -> (r: Result<
    (Subscription, Vec<Transfer>),
    Error,
>)
    ensures
        match (r, spec_deposit(token, s, amount)) {
            (Ok((s1, t)), Ok((s2, t2))) => s1 == s2 && t@ == t2,
            (Err(e), Err(e2)) => e == e2,
            _ => false,
        },
{
    if amount <= 0 {
        return Err(Error::InvalidAmount);
    }
    if s.status.is_terminal() {
        return Err(Error::InvalidStatus);
    }
    let balance = match s.balance.checked_add(amount) {
        Some(b) => b,
        None => {
            return Err(Error::InvalidAmount);
        },
    };
    let mut t: Vec<Transfer> = Vec::new();
    t.push(Transfer { token, from: Party::Account(s.subscriber), to: Party::Escrow, amount });
    proof {
        assert(t@ =~= spec_deposit(token, s, amount)->Ok_0.1);
    }
    Ok((Subscription { balance, ..s }, t))
}

/// Takes `amount` of `token` out of the balance, back to the subscriber.
pub fn withdraw_from(token: AccountId, s: Subscription, amount: i128) -> (r: Result<
    (Subscription, Vec<Transfer>),
    Error,
>)
    ensures
        match (r, spec_withdraw(token, s, amount)) {
            (Ok((s1, t)), Ok((s2, t2))) => s1 == s2 && t@ == t2,
            (Err(e), Err(e2)) => e == e2,
            _ => false,
        },
{
    if amount <= 0 {
        return Err(Error::InvalidAmount);
    }
    if amount > s.balance {
        return Err(Error::InsufficientBalance);
    }
    let mut t: Vec<Transfer> = Vec::new();
    t.push(Transfer { token, from: Party::Escrow, to: Party::Account(s.subscriber), amount });
    proof {
        assert(t@ =~= spec_withdraw(token, s, amount)->Ok_0.1);
    }
    Ok((Subscription { balance: s.balance - amount, ..s }, t))
}

/// Whether the keeper may bill `s` at `now`.
pub fn is_due(s: &Subscription, now: u64) -> (r: bool)
    ensures
        r == spec_is_due(*s, now),
{
    s.status.is_billable() && now >= s.next_charge_at
}

} // verus!
